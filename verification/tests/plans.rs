use dabba::cgroups::CGroup;
use dabba::cgroups::CGroupConfig;
use dabba::cgroups::FileWrite;
use dabba::error::MapCmd;
use dabba::error::SandboxError;
use dabba::idmap_helper::check_status;
use dabba::idmap_helper::default_mappings;
use dabba::idmap_helper::exec_cmd_with_mappings;
use dabba::idmap_helper::program;
use dabba::idmap_helper::run_verdict;
use dabba::idmap_helper::setup_maps;
use dabba::idmap_helper::setup_maps_for;
use dabba::idmap_helper::Mappings;
use dabba::mount_helper::bind;
use dabba::mount_helper::bind_container;
use dabba::mount_helper::block_mount_propagation;
use dabba::mount_helper::empty_flags;
use dabba::mount_helper::join_path;
use dabba::mount_helper::lower_dir_list;
use dabba::mount_helper::mount_image;
use dabba::mount_helper::mounts;
use dabba::mount_helper::perform_pseudo_fs_mount;
use dabba::mount_helper::pivot;
use dabba::mount_helper::FsAction;
use dabba::mount_helper::Mount;
use dabba::mount_helper::MountFlags;
use dabba::mount_helper::MountType;
use dabba::registry::accepted_types;
use dabba::registry::manifest_kind;
use dabba::registry::select_manifest;
use dabba::registry::ImageIndex;
use dabba::registry::ImagePlatform;
use dabba::registry::Manifest;
use dabba::registry::ManifestConfig;
use dabba::registry::ManifestKind;
use dabba::registry::RegistryClient;
use dabba::storage::Storage;

fn text(s: &str) -> String {
    String::from(s)
}

fn flags(recursive: bool, private: bool, bind: bool, nosuid: bool, noexec: bool, nodev: bool) -> MountFlags {
    MountFlags { recursive, private, bind, nosuid, noexec, nodev }
}

#[test]
fn join_puts_one_separator() {
    assert_eq!(join_path("/a", "b"), "/a/b");
    assert_eq!(join_path("/a/", "b"), "/a/b");
    assert_eq!(join_path("", "b"), "b");
    assert_eq!(join_path("/a", "/b"), "/b");
    assert_eq!(join_path("dev", "pts"), "dev/pts");
    assert_eq!(join_path("/", "tmp"), "/tmp");
    assert_eq!(join_path("/a", ""), "/a/");
}

#[test]
fn propagation_is_blocked_recursively() {
    assert_eq!(
        block_mount_propagation(),
        Mount {
            source: None,
            target: text("/"),
            fstype: None,
            flags: flags(true, true, false, false, false, false),
            data: None,
        }
    );
}

#[test]
fn container_bind_is_recursive() {
    assert_eq!(
        bind_container("/merged", "/tmp"),
        Mount {
            source: Some(text("/merged")),
            target: text("/tmp"),
            fstype: None,
            flags: flags(true, false, true, false, false, false),
            data: None,
        }
    );
}

#[test]
fn bind_creates_the_mount_point_first() {
    assert_eq!(
        bind("/dev/null", "dev/null", None),
        vec![
            FsAction::CreateFile { path: text("dev/null"), mode: 0o444 },
            FsAction::Mount(Mount {
                source: Some(text("/dev/null")),
                target: text("dev/null"),
                fstype: None,
                flags: flags(true, false, true, false, false, false),
                data: None,
            }),
        ]
    );
    let extra = flags(false, false, false, true, false, true);
    match &bind("/a", "/b", Some(extra))[1] {
        FsAction::Mount(mount) => assert_eq!(mount.flags, flags(true, false, true, true, false, true)),
        other => panic!("not a mount: {:?}", other),
    }
}

#[test]
fn pseudo_flags_by_kind() {
    assert_eq!(empty_flags(), flags(false, false, false, false, false, false));
    assert_eq!(MountType::Dev.flags(), flags(false, false, false, true, true, true));
    assert_eq!(MountType::Proc.flags(), flags(false, false, false, true, true, true));
    assert_eq!(MountType::Sys.flags(), flags(false, false, false, true, true, true));
    assert_eq!(MountType::Tmp.flags(), flags(false, false, false, true, false, true));
}

#[test]
fn mount_types_carry_source_and_type() {
    let table = [
        (MountType::Dev, "dev", "tmpfs", Some("mode=755")),
        (MountType::Proc, "proc", "proc", None),
        (MountType::Sys, "sys", "sysfs", None),
        (MountType::Tmp, "tmp", "tmpfs", None),
    ];
    for (kind, source, fstype, options) in table {
        assert_eq!(kind.source(), source);
        assert_eq!(kind.fstype(), fstype);
        assert_eq!(kind.options(), options);
    }
}

#[test]
fn proc_sys_and_tmp_are_two_steps() {
    let cases = [
        (MountType::Proc, "proc", "proc", "proc", true),
        (MountType::Sys, "sys", "sys", "sysfs", true),
        (MountType::Tmp, "run", "tmp", "tmpfs", false),
    ];
    for (kind, path, source, fstype, noexec) in cases {
        assert_eq!(
            perform_pseudo_fs_mount(kind, path),
            vec![
                FsAction::CreateDirAll { path: text(path) },
                FsAction::Mount(Mount {
                    source: Some(text(source)),
                    target: text(path),
                    fstype: Some(text(fstype)),
                    flags: flags(false, false, false, true, noexec, true),
                    data: None,
                }),
            ]
        );
    }
}

#[test]
fn dev_is_populated() {
    let plan = perform_pseudo_fs_mount(MountType::Dev, "dev");
    assert_eq!(plan.len(), 22);
    assert_eq!(plan[0], FsAction::CreateDirAll { path: text("dev") });
    assert_eq!(
        plan[1],
        FsAction::Mount(Mount {
            source: Some(text("dev")),
            target: text("dev"),
            fstype: Some(text("tmpfs")),
            flags: flags(false, false, false, true, true, true),
            data: Some(text("mode=755")),
        })
    );
    let nodes = ["full", "null", "random", "tty", "urandom", "zero"];
    for (i, node) in nodes.iter().enumerate() {
        assert_eq!(plan[2 + 2 * i], FsAction::CreateFile { path: format!("dev/{}", node), mode: 0o444 });
        assert_eq!(
            plan[3 + 2 * i],
            FsAction::Mount(Mount {
                source: Some(format!("/dev/{}", node)),
                target: format!("dev/{}", node),
                fstype: None,
                flags: flags(true, false, true, false, false, false),
                data: None,
            })
        );
    }
    let streams = ["stdin", "stdout", "stderr"];
    for (fd, name) in streams.iter().enumerate() {
        assert_eq!(
            plan[14 + fd],
            FsAction::Symlink { target: format!("/proc/self/fd/{}", fd), link: format!("dev/{}", name) }
        );
    }
    assert_eq!(plan[17], FsAction::Symlink { target: text("/proc/self/fd"), link: text("dev/fd") });
    assert_eq!(plan[18], FsAction::CreateDir { path: text("dev/shm") });
    assert_eq!(plan[19], FsAction::Symlink { target: text("pts/ptmx"), link: text("dev/ptmx") });
    assert_eq!(plan[20], FsAction::CreateDir { path: text("dev/pts") });
    assert_eq!(
        plan[21],
        FsAction::Mount(Mount {
            source: Some(text("devpts")),
            target: text("dev/pts"),
            fstype: Some(text("devpts")),
            flags: flags(false, false, false, true, true, false),
            data: Some(text("newinstance,ptmxmode=0666")),
        })
    );
}

#[test]
fn pivot_is_in_place() {
    assert_eq!(
        pivot("/tmp"),
        vec![
            FsAction::Chdir { path: text("/tmp") },
            FsAction::PivotRoot { new_root: text("."), put_old: text(".") },
            FsAction::Detach { target: text(".") },
        ]
    );
}

#[test]
fn lower_dirs_run_right_to_left() {
    let layers = vec![text("/c/base"), text("/c/mid"), text("/c/top")];
    assert_eq!(lower_dir_list(&layers), "/c/top:/c/mid:/c/base");
    assert_eq!(lower_dir_list(&[text("/only")]), "/only");
    assert_eq!(lower_dir_list(&[]), "");
}

#[test]
fn colons_in_layers_are_escaped() {
    let layers = vec![text("/c/sha256:aa"), text("/c/sha256:bb")];
    assert_eq!(lower_dir_list(&layers), "/c/sha256\\:bb:/c/sha256\\:aa");
    assert_eq!(lower_dir_list(&[text("a:b:c")]), "a\\:b\\:c");
}

#[test]
fn image_is_an_overlay_over_merged() {
    let layers = vec![text("/s/sha256:1"), text("/s/sha256:2")];
    assert_eq!(
        mount_image(&layers, "/run/merged"),
        vec![
            FsAction::CreateDirAll { path: text("/run/merged/work") },
            FsAction::CreateDirAll { path: text("/run/merged/upper") },
            FsAction::Mount(Mount {
                source: Some(text("overlay")),
                target: text("/run/merged"),
                fstype: Some(text("overlay")),
                flags: flags(false, false, false, false, false, false),
                data: Some(text(
                    "lowerdir=/s/sha256\\:2:/s/sha256\\:1,upperdir=/run/merged/upper,workdir=/run/merged/work"
                )),
            }),
        ]
    );
}

#[test]
fn mount_dance_order() {
    let plan = mounts("/rootfs");
    assert_eq!(plan.len(), 36);
    assert_eq!(plan[0], FsAction::Mount(block_mount_propagation()));
    assert_eq!(plan[1], FsAction::Mount(bind_container("/rootfs", "/tmp")));
    assert_eq!(plan[2], FsAction::Chdir { path: text("/tmp") });
    assert_eq!(plan[3..25], perform_pseudo_fs_mount(MountType::Dev, "dev")[..]);
    assert_eq!(plan[25..27], perform_pseudo_fs_mount(MountType::Proc, "proc")[..]);
    assert_eq!(plan[27..29], perform_pseudo_fs_mount(MountType::Sys, "sys")[..]);
    assert_eq!(plan[29..31], perform_pseudo_fs_mount(MountType::Tmp, "tmp")[..]);
    assert_eq!(plan[31..33], perform_pseudo_fs_mount(MountType::Tmp, "run")[..]);
    assert_eq!(plan[33..], pivot("/tmp")[..]);
}

#[test]
fn cgroup_lies_below_the_base() {
    let config = CGroupConfig { mem: text("500m") };
    let cgroup = CGroup::for_creator("/sys/fs/cgroup/app.slice", 1234, config.clone());
    assert_eq!(cgroup.path(), "/sys/fs/cgroup/app.slice/dabba-1234");
    assert_eq!(cgroup.config, config);
    assert!(!cgroup.limits_written);
    assert_eq!(CGroup::for_creator("/base/", 7, config).path, "/base/dabba-7");
}

#[test]
fn default_limit_is_500_mebibytes() {
    assert_eq!(CGroupConfig::default().mem, (500u64 * 1024 * 1024).to_string());
}

#[test]
fn cgroup_is_named_after_this_process() {
    let cgroup = CGroup::new("/base", CGroupConfig { mem: text("1g") });
    assert_eq!(cgroup.path, format!("/base/dabba-{}", nix::unistd::getpid()));
    assert!(!cgroup.limits_written);
}

#[test]
fn enforce_twice_writes_limit_once() {
    let mut cgroup = CGroup::for_creator("/cg", 10, CGroupConfig { mem: text("524288000") });
    let first = cgroup.enforce(41);
    assert_eq!(
        first,
        vec![
            FileWrite { path: text("/cg/dabba-10/memory.max"), contents: text("524288000") },
            FileWrite { path: text("/cg/dabba-10/cgroup.procs"), contents: text("41") },
        ]
    );
    assert!(cgroup.limits_written);
    let second = cgroup.enforce(42);
    assert_eq!(
        second,
        vec![FileWrite { path: text("/cg/dabba-10/cgroup.procs"), contents: text("42") }]
    );
    let all: Vec<FileWrite> = first.into_iter().chain(second).collect();
    assert_eq!(all.iter().filter(|w| w.path.ends_with("/memory.max")).count(), 1);
    assert_eq!(all.iter().filter(|w| w.path.ends_with("/cgroup.procs")).count(), 2);
}

#[test]
fn failed_limit_is_handed_out_again() {
    let mut cgroup = CGroup::for_creator("/cg", 10, CGroupConfig { mem: text("1") });
    assert_eq!(cgroup.enforce(5).len(), 2);
    cgroup.limits_failed();
    assert!(!cgroup.limits_written);
    assert_eq!(cgroup.enforce(5).len(), 2);
    assert_eq!(cgroup.enforce(5).len(), 1);
}

#[test]
fn map_helper_programs() {
    assert_eq!(program(MapCmd::UidMap), "newuidmap");
    assert_eq!(program(MapCmd::GidMap), "newgidmap");
}

#[test]
fn default_profile_maps_root_to_caller() {
    assert_eq!(
        default_mappings(1000),
        vec![
            Mappings { id: 0, lowerid: 1000, count: 1 },
            Mappings { id: 1, lowerid: 100000, count: 65536 },
        ]
    );
}

#[test]
fn map_command_line() {
    let run = exec_cmd_with_mappings(MapCmd::UidMap, 4321, &default_mappings(1000));
    assert_eq!(run.command, MapCmd::UidMap);
    assert_eq!(run.args, vec!["4321", "0", "1000", "1", "1", "100000", "65536"]);
    let bare = exec_cmd_with_mappings(MapCmd::GidMap, 1, &[]);
    assert_eq!(bare.args, vec!["1"]);
    let wide = exec_cmd_with_mappings(
        MapCmd::GidMap,
        -3,
        &[Mappings { id: 4294967295, lowerid: 0, count: 10 }],
    );
    assert_eq!(wide.args, vec!["-3", "4294967295", "0", "10"]);
}

#[test]
fn helper_status_must_be_zero() {
    assert_eq!(check_status(MapCmd::UidMap, Some(0)), Ok(()));
    assert_eq!(
        check_status(MapCmd::UidMap, Some(1)),
        Err(SandboxError::HelperStatus { helper: MapCmd::UidMap, status: Some(1) })
    );
    assert_eq!(
        check_status(MapCmd::GidMap, None),
        Err(SandboxError::HelperStatus { helper: MapCmd::GidMap, status: None })
    );
    assert_eq!(
        check_status(MapCmd::GidMap, Some(-1)),
        Err(SandboxError::HelperStatus { helper: MapCmd::GidMap, status: Some(-1) })
    );
}

#[test]
fn helper_that_cannot_start_keeps_its_errno() {
    assert_eq!(run_verdict(MapCmd::UidMap, Ok(Some(0))), Ok(()));
    assert_eq!(
        run_verdict(MapCmd::UidMap, Ok(Some(2))),
        Err(SandboxError::HelperStatus { helper: MapCmd::UidMap, status: Some(2) })
    );
    assert_eq!(
        run_verdict(MapCmd::GidMap, Ok(None)),
        Err(SandboxError::HelperStatus { helper: MapCmd::GidMap, status: None })
    );
    assert_eq!(
        run_verdict(MapCmd::UidMap, Err(2)),
        Err(SandboxError::HelperNotStarted { helper: MapCmd::UidMap, errno: 2 })
    );
    assert_eq!(
        run_verdict(MapCmd::GidMap, Err(0)),
        Err(SandboxError::HelperNotStarted { helper: MapCmd::GidMap, errno: 0 })
    );
}

#[test]
fn maps_are_installed_uid_first() {
    let plan = setup_maps_for(77, 1000, 1001);
    assert_eq!(plan.len(), 2);
    assert_eq!(plan[0].command, MapCmd::UidMap);
    assert_eq!(plan[0].args, vec!["77", "0", "1000", "1", "1", "100000", "65536"]);
    assert_eq!(plan[1].command, MapCmd::GidMap);
    assert_eq!(plan[1].args, vec!["77", "0", "1001", "1", "1", "100000", "65536"]);
}

#[test]
fn maps_are_for_the_calling_user() {
    let uid = nix::unistd::Uid::current().as_raw();
    let gid = nix::unistd::Gid::current().as_raw();
    assert_eq!(setup_maps(55), setup_maps_for(55, uid, gid));
}

#[test]
fn official_images_live_under_library() {
    assert_eq!(RegistryClient::new("alpine", "latest").image, "library/alpine");
    assert_eq!(RegistryClient::new("alpine", "latest").tag, "latest");
    assert_eq!(RegistryClient::new("grafana/grafana", "10").image, "grafana/grafana");
    assert_eq!(RegistryClient::new("", "x").image, "library/");
}

#[test]
fn registry_addresses() {
    let client = RegistryClient::new("alpine", "3.19");
    assert_eq!(
        client.token_url(),
        "https://auth.docker.io/token?service=registry.docker.io&scope=repository:library/alpine:pull"
    );
    assert_eq!(
        client.blob_url("sha256:abc"),
        "https://registry-1.docker.io/v2/library/alpine/blobs/sha256:abc"
    );
    assert_eq!(client.manifest_url(None), "https://registry-1.docker.io/v2/library/alpine/manifests/3.19");
    assert_eq!(
        client.manifest_url(Some("sha256:def")),
        "https://registry-1.docker.io/v2/library/alpine/manifests/sha256:def"
    );
}

#[test]
fn media_types() {
    assert_eq!(
        accepted_types(false),
        vec![
            "application/vnd.docker.distribution.manifest.v2+json",
            "application/vnd.docker.distribution.manifest.list.v2+json",
        ]
    );
    assert_eq!(accepted_types(true).len(), 4);
    assert_eq!(accepted_types(true)[2], "application/vnd.oci.image.index.v1+json");
    assert_eq!(accepted_types(true)[3], "application/vnd.oci.image.manifest.v1+json");
    assert_eq!(
        manifest_kind("application/vnd.docker.distribution.manifest.v2+json"),
        Some(ManifestKind::Image)
    );
    assert_eq!(
        manifest_kind("application/vnd.docker.distribution.manifest.list.v2+json"),
        Some(ManifestKind::Index)
    );
    assert_eq!(manifest_kind("application/vnd.oci.image.index.v1+json"), Some(ManifestKind::Index));
    assert_eq!(manifest_kind("application/vnd.oci.image.manifest.v1+json"), None);
    assert_eq!(manifest_kind("text/html"), None);
}

fn entry(arch: &str, os: &str, digest: &str) -> ImageIndex {
    ImageIndex {
        media_type: text("application/vnd.oci.image.manifest.v1+json"),
        size: 1,
        digest: text(digest),
        platform: ImagePlatform { architecture: text(arch), os: text(os) },
    }
}

#[test]
fn first_linux_amd64_manifest_is_taken() {
    let list = vec![
        entry("arm64", "linux", "a"),
        entry("amd64", "windows", "b"),
        entry("amd64", "linux", "c"),
        entry("amd64", "linux", "d"),
    ];
    assert_eq!(select_manifest(&list), Some(2));
    assert_eq!(select_manifest(&list[..2]), None);
    assert_eq!(select_manifest(&[]), None);
}

#[test]
fn layers_are_cached_by_digest() {
    let storage = Storage::new("/tmp/dabba/storage");
    assert_eq!(storage.cache_dir, "/tmp/dabba/storage");
    assert_eq!(storage.layer_path("sha256:aa"), "/tmp/dabba/storage/sha256:aa");
    let blob = |digest: &str| ManifestConfig { media_type: text("layer"), size: 3, digest: text(digest) };
    let manifest = Manifest {
        schema_version: 2,
        media_type: text("m"),
        config: blob("sha256:cfg"),
        layers: vec![blob("sha256:base"), blob("sha256:top")],
    };
    assert_eq!(
        storage.download_layers(&manifest),
        vec!["/tmp/dabba/storage/sha256:base", "/tmp/dabba/storage/sha256:top"]
    );
}
