use dabba::child::PARENT_DEATH_SIGNAL;
use dabba::sandbox::Signal;
use dabba::sandbox::CLONE_EXIT_SIGNAL;
use dabba::slirp::HELPER_EXIT_SIGNAL;
use dabba::cli::parse_args;
use dabba::cli::CliError;
use dabba::cli::Options;
use dabba::registry::ImageConfigRuntime;
use dabba::ipc::ChildEvent;
use dabba::ipc::ParentEvent;
use dabba::error::SandboxError;
use dabba::error::UsageError;
use dabba::slirp::reply_verdict;
use dabba::slirp::ExitStep;
use dabba::slirp::PortMapping;
use dabba::slirp::Protocol;
use dabba::slirp::SlirpHelper;
use dabba::slirp::READY_SIGNAL;
use dabba::slirp::READY_TIMEOUT_MS;
use dabba::text::chars_of;
use dabba::text::push_decimal;
use dabba::text::push_signed_decimal;
use dabba::text::read_signed;
use dabba::text::read_unsigned;
use dabba::text::same_text;
use dabba::text::split_two;
use dabba::util::closable;
use dabba::util::close_fds;
use dabba::util::get_base_path;
use dabba::util::is_compatible_arch;
use dabba::util::normalize_arch;
use dabba::util::parse_env_var;
use dabba::util::set_env;

fn helper() -> SlirpHelper {
    SlirpHelper::spawn(1, 3, "/tmp/slirp.sock").0
}

#[test]
fn mapping_is_host_guest_proto() {
    assert_eq!(
        PortMapping::parse("8080:80/tcp"),
        Ok(PortMapping { proto: Protocol::Tcp, host_port: 8080, guest_port: 80 })
    );
    assert_eq!(
        PortMapping::parse("53:5353/udp"),
        Ok(PortMapping { proto: Protocol::Udp, host_port: 53, guest_port: 5353 })
    );
    assert_eq!(
        PortMapping::from_str("8080:80/tcp"),
        PortMapping { proto: Protocol::Tcp, host_port: 8080, guest_port: 80 }
    );
}

#[test]
fn mapping_port_bounds() {
    assert_eq!(
        PortMapping::parse("65535:0/tcp"),
        Ok(PortMapping { proto: Protocol::Tcp, host_port: 65535, guest_port: 0 })
    );
    assert_eq!(PortMapping::parse("65536:80/tcp"), Err(UsageError::InvalidHostPort));
    assert_eq!(PortMapping::parse("80:65536/tcp"), Err(UsageError::InvalidGuestPort));
    assert_eq!(PortMapping::parse("99999999999999999999:80/tcp"), Err(UsageError::InvalidHostPort));
    assert_eq!(
        PortMapping::parse("+80:0080/udp"),
        Ok(PortMapping { proto: Protocol::Udp, host_port: 80, guest_port: 80 })
    );
    assert_eq!(PortMapping::parse("-80:80/tcp"), Err(UsageError::InvalidHostPort));
    assert_eq!(PortMapping::parse("+:80/tcp"), Err(UsageError::InvalidHostPort));
    assert_eq!(PortMapping::parse(":80/tcp"), Err(UsageError::InvalidHostPort));
    assert_eq!(PortMapping::parse("80:/tcp"), Err(UsageError::InvalidGuestPort));
    assert_eq!(PortMapping::parse("8o:80/tcp"), Err(UsageError::InvalidHostPort));
    assert_eq!(PortMapping::parse("80: 80/tcp"), Err(UsageError::InvalidGuestPort));
}

#[test]
fn mapping_faults_in_order() {
    assert_eq!(PortMapping::parse(""), Err(UsageError::MissingProtocol));
    assert_eq!(PortMapping::parse("8080:80"), Err(UsageError::MissingProtocol));
    assert_eq!(PortMapping::parse("8080/tcp"), Err(UsageError::MissingGuestPort));
    assert_eq!(PortMapping::parse("x/y"), Err(UsageError::MissingGuestPort));
    assert_eq!(PortMapping::parse("8080:80/sctp"), Err(UsageError::InvalidProtocol));
    assert_eq!(PortMapping::parse("8080:80/TCP"), Err(UsageError::InvalidProtocol));
    assert_eq!(PortMapping::parse("8080:80/"), Err(UsageError::InvalidProtocol));
    assert_eq!(PortMapping::parse("a:b/c"), Err(UsageError::InvalidProtocol));
    assert_eq!(PortMapping::parse("a:b/tcp"), Err(UsageError::InvalidHostPort));
    assert_eq!(PortMapping::parse("1:b/tcp"), Err(UsageError::InvalidGuestPort));
}

#[test]
fn mapping_ignores_further_pieces() {
    assert_eq!(
        PortMapping::parse("1:2:3/tcp/x"),
        Ok(PortMapping { proto: Protocol::Tcp, host_port: 1, guest_port: 2 })
    );
    assert_eq!(PortMapping::parse("1:2/tcp:x"), Err(UsageError::InvalidProtocol));
}

#[test]
fn parse_agrees_with_std_on_ports() {
    for text in ["0", "1", "007", "65535", "65536", "+1", "++1", "-0", "", "+", "1 ", "١"] {
        let ours = PortMapping::parse(&format!("{}:1/tcp", text)).ok().map(|m| m.host_port);
        assert_eq!(ours, text.parse::<u16>().ok(), "{:?}", text);
    }
}

#[test]
fn mapping_text_reads_back() {
    for mapping in [
        PortMapping { proto: Protocol::Tcp, host_port: 8080, guest_port: 80 },
        PortMapping { proto: Protocol::Udp, host_port: 0, guest_port: 65535 },
    ] {
        assert_eq!(PortMapping::parse(&mapping.text()), Ok(mapping));
    }
    assert_eq!(PortMapping { proto: Protocol::Tcp, host_port: 8080, guest_port: 80 }.text(), "8080:80/tcp");
}

#[test]
fn usage_messages() {
    assert_eq!(UsageError::MissingProtocol.message(), "no protocol passed");
    assert_eq!(UsageError::MissingGuestPort.message(), "no guest port");
    assert_eq!(UsageError::InvalidProtocol.message(), "invalid protocol");
    assert_eq!(UsageError::InvalidHostPort.message(), "host port is no 16-bit number");
    assert_eq!(UsageError::InvalidGuestPort.message(), "guest port is no 16-bit number");
}

#[test]
fn command_line_is_image_tag_options() {
    let args = |words: &[&str]| words.iter().map(|w| w.to_string()).collect::<Vec<String>>();
    assert_eq!(
        parse_args(&args(&["alpine", "latest", "-p", "8080:80/tcp", "-e", "A=1", "-p", "53:53/udp", "-e", "B=2"])),
        Ok(Options {
            image: String::from("alpine"),
            tag: String::from("latest"),
            ports: vec![
                PortMapping { proto: Protocol::Tcp, host_port: 8080, guest_port: 80 },
                PortMapping { proto: Protocol::Udp, host_port: 53, guest_port: 53 },
            ],
            env: vec![String::from("A=1"), String::from("B=2")],
        })
    );
    assert_eq!(
        parse_args(&args(&["alpine", "latest"])),
        Ok(Options { image: String::from("alpine"), tag: String::from("latest"), ports: vec![], env: vec![] })
    );
    assert_eq!(parse_args(&args(&[])), Err(CliError::MissingImage));
    assert_eq!(parse_args(&args(&["alpine"])), Err(CliError::MissingTag));
    assert_eq!(parse_args(&args(&["a", "b", "-x"])), Err(CliError::InvalidArgument { at: 2 }));
    assert_eq!(parse_args(&args(&["a", "b", "-e", "X=1", "run"])), Err(CliError::InvalidArgument { at: 4 }));
    assert_eq!(
        parse_args(&args(&["a", "b", "-p", "80/tcp"])),
        Err(CliError::InvalidMapping { at: 3, fault: UsageError::MissingGuestPort })
    );
    assert_eq!(
        parse_args(&args(&["a", "b", "-p", "1:1/tcp", "-p", "x", "-z"])),
        Err(CliError::InvalidMapping { at: 5, fault: UsageError::MissingProtocol })
    );
    assert_eq!(
        parse_args(&args(&["a", "b", "-e", "X=1", "-p"])),
        Ok(Options { image: String::from("a"), tag: String::from("b"), ports: vec![], env: vec![String::from("X=1")] })
    );
    assert_eq!(
        parse_args(&args(&["a", "b", "-e", "-p", "-e"])),
        Ok(Options { image: String::from("a"), tag: String::from("b"), ports: vec![], env: vec![String::from("-p")] })
    );
}

#[test]
fn image_command_line() {
    let words = |list: &[&str]| list.iter().map(|w| w.to_string()).collect::<Vec<String>>();
    let mut runtime = ImageConfigRuntime {
        exposed_ports: None,
        env: vec![],
        working_dir: None,
        cmd: words(&["nginx", "-g", "daemon off;"]),
        entrypoint: Some(words(&["/docker-entrypoint.sh"])),
        stop_signal: None,
    };
    assert_eq!(runtime.command_line(), words(&["/docker-entrypoint.sh", "nginx", "-g", "daemon off;"]));
    runtime.entrypoint = None;
    assert_eq!(runtime.command_line(), words(&["nginx", "-g", "daemon off;"]));
}

#[test]
fn events_convert_into_bytes() {
    let child: u8 = ChildEvent::InitSuccess.into();
    let parent: u8 = ParentEvent::UidGidMapFailure.into();
    assert_eq!((child, parent), (1, 129));
}

#[test]
fn protocol_names() {
    assert_eq!(Protocol::Tcp.name(), "tcp");
    assert_eq!(Protocol::Udp.name(), "udp");
    assert_eq!(Protocol::named("tcp"), Some(Protocol::Tcp));
    assert_eq!(Protocol::named("udp"), Some(Protocol::Udp));
    assert_eq!(Protocol::named("icmp"), None);
}

#[test]
fn request_is_compact_json() {
    let mapping = PortMapping { proto: Protocol::Tcp, host_port: 8080, guest_port: 80 };
    assert_eq!(
        mapping.request(),
        "{\"execute\":\"add_hostfwd\",\"arguments\":{\"proto\":\"tcp\",\"host_port\":8080,\"guest_port\":80}}"
    );
}

#[test]
fn request_round_trips_through_the_schema() {
    for mapping in [
        PortMapping { proto: Protocol::Tcp, host_port: 8080, guest_port: 80 },
        PortMapping { proto: Protocol::Udp, host_port: 0, guest_port: 65535 },
    ] {
        let parsed: serde_json::Value = serde_json::from_str(&mapping.request()).unwrap();
        let object = parsed.as_object().unwrap();
        assert_eq!(object.len(), 2);
        assert_eq!(parsed["execute"], serde_json::Value::from("add_hostfwd"));
        let arguments = parsed["arguments"].as_object().unwrap();
        assert_eq!(arguments.len(), 3);
        assert_eq!(arguments["proto"].as_str(), Some(mapping.proto.name()));
        assert_eq!(arguments["host_port"].as_u64(), Some(mapping.host_port as u64));
        assert_eq!(arguments["guest_port"].as_u64(), Some(mapping.guest_port as u64));
        let text = format!("{}:{}/{}", mapping.host_port, mapping.guest_port, mapping.proto.name());
        assert_eq!(PortMapping::parse(&text), Ok(mapping));
    }
}

#[test]
fn helper_arguments() {
    let (handle, args) = SlirpHelper::spawn(4242, 7, "/tmp/dabba/slirp.sock");
    assert_eq!(handle, SlirpHelper { socket_path: String::from("/tmp/dabba/slirp.sock"), terminated: false });
    assert_eq!(
        args,
        vec![
            "--configure",
            "--disable-host-loopback",
            "--ready-fd=7",
            "--userns-path",
            "/proc/4242/ns/user",
            "--netns-type=path",
            "/proc/4242/ns/net",
            "--api-socket=/tmp/dabba/slirp.sock",
            "tap0",
        ]
    );
    assert_eq!(SlirpHelper::program(), "slirp4netns");
}

#[test]
fn namespace_paths() {
    assert_eq!(
        SlirpHelper::get_ns_paths(1),
        (String::from("/proc/1/ns/user"), String::from("/proc/1/ns/net"))
    );
    assert_eq!(SlirpHelper::get_ns_paths(2147483647).1, "/proc/2147483647/ns/net");
}

#[test]
fn readiness_times_out_after_1000_ms() {
    assert_eq!(READY_TIMEOUT_MS, 1000);
    assert_eq!(helper().wait_until_ready(true), Ok(()));
    assert_eq!(
        helper().wait_until_ready(false),
        Err(SandboxError::NetworkTimeout { millis: 1000 })
    );
}

#[test]
fn ready_signal_is_the_digit_one() {
    assert_eq!(READY_SIGNAL, b'1');
    assert!(SlirpHelper::is_ready_signal(b'1'));
    assert!(!SlirpHelper::is_ready_signal(b'0'));
    assert!(!SlirpHelper::is_ready_signal(1));
}

#[test]
fn reply_with_return_accepts() {
    assert_eq!(helper().expose_port("{\"return\": {\"id\": 42}}"), Ok(()));
    assert_eq!(helper().expose_port("{\"return\":null}"), Ok(()));
    assert_eq!(helper().expose_port("{\"error\":\"x\",\"return\":{}}"), Ok(()));
}

#[test]
fn reply_with_error_refuses() {
    assert_eq!(
        helper().expose_port("{\"error\": {\"desc\": \"bad request: add_hostfwd: slirp_add_hostfwd failed\"}}"),
        Err(SandboxError::PortRefused {
            reason: String::from("{\"desc\":\"bad request: add_hostfwd: slirp_add_hostfwd failed\"}")
        })
    );
    assert_eq!(
        helper().expose_port("{ \"error\" : \"port in use\" }"),
        Err(SandboxError::PortRefused { reason: String::from("port in use") })
    );
    assert_eq!(
        helper().expose_port("{\"error\":\"a \\\"quoted\\\" word\\nand a line\"}"),
        Err(SandboxError::PortRefused { reason: String::from("a \"quoted\" word\nand a line") })
    );
    assert_eq!(
        helper().expose_port("{\"error\": 404}"),
        Err(SandboxError::PortRefused { reason: String::from("404") })
    );
    assert_eq!(
        helper().expose_port("{\"error\": null}"),
        Err(SandboxError::PortRefused { reason: String::from("null") })
    );
}

#[test]
fn other_replies_are_bad() {
    assert_eq!(helper().expose_port("{}"), Err(SandboxError::BadReply));
    assert_eq!(helper().expose_port("{\"result\": 1}"), Err(SandboxError::BadReply));
    assert_eq!(helper().expose_port("[\"return\"]"), Err(SandboxError::BadReply));
    assert_eq!(helper().expose_port("\"return\""), Err(SandboxError::BadReply));
    assert_eq!(helper().expose_port(""), Err(SandboxError::BadReply));
    assert_eq!(helper().expose_port("{\"return\":"), Err(SandboxError::BadReply));
    assert_eq!(helper().expose_port("return"), Err(SandboxError::BadReply));
}

#[test]
fn verdict_from_members() {
    assert_eq!(reply_verdict(true, None), Ok(()));
    assert_eq!(reply_verdict(true, Some(String::from("e"))), Ok(()));
    assert_eq!(
        reply_verdict(false, Some(String::from("e"))),
        Err(SandboxError::PortRefused { reason: String::from("e") })
    );
    assert_eq!(reply_verdict(false, None), Err(SandboxError::BadReply));
}

#[test]
fn running_helper_is_always_terminated() {
    let mut running = helper();
    assert!(!running.terminated);
    assert_eq!(running.notify_exit_and_wait(true), vec![ExitStep::Terminate, ExitStep::Reap]);
    assert!(running.terminated);
    assert_eq!(running.notify_exit_and_wait(true), vec![ExitStep::Terminate, ExitStep::Reap]);
    assert_eq!(running.notify_exit_and_wait(false), vec![ExitStep::Reap]);
    assert_eq!(running.socket_path, "/tmp/slirp.sock");
}

#[test]
fn exited_helper_is_only_reaped() {
    let mut gone = helper();
    assert_eq!(gone.notify_exit_and_wait(false), vec![ExitStep::Reap]);
    assert!(gone.terminated);
    assert_eq!(gone.notify_exit_and_wait(false), vec![ExitStep::Reap]);
}

#[test]
fn signals_by_name() {
    assert_eq!(HELPER_EXIT_SIGNAL, Signal::Terminate);
    assert_eq!(CLONE_EXIT_SIGNAL, Signal::Child);
    assert_eq!(PARENT_DEATH_SIGNAL, Signal::Kill);
}

#[test]
fn stray_descriptors_are_closed() {
    let entries: Vec<String> =
        [".", "..", "0", "1", "2", "3", "4", "5", "17", "x", "", "6 "].iter().map(|s| s.to_string()).collect();
    assert_eq!(close_fds(&entries, 4, &[]), vec![3, 5, 17]);
    assert_eq!(close_fds(&entries, 4, &[5, 3]), vec![17]);
    assert_eq!(close_fds(&entries, 99, &[]), vec![3, 4, 5, 17]);
    assert_eq!(close_fds(&[], 3, &[]), Vec::<i32>::new());
}

#[test]
fn descriptor_names_are_32_bit_numerals() {
    assert_eq!(closable("3", 9, &[]), Some(3));
    assert_eq!(closable("+3", 9, &[]), Some(3));
    assert_eq!(closable("003", 9, &[]), Some(3));
    assert_eq!(closable("9", 9, &[]), None);
    assert_eq!(closable("0", 9, &[]), None);
    assert_eq!(closable("-0", 9, &[]), None);
    assert_eq!(closable("2147483647", 9, &[]), Some(2147483647));
    assert_eq!(closable("2147483648", 9, &[]), None);
    assert_eq!(closable("-2147483648", 9, &[]), Some(-2147483648));
    assert_eq!(closable("-2147483649", 9, &[]), None);
    assert_eq!(closable("fd", 9, &[]), None);
    assert_eq!(closable("7", 9, &[7]), None);
}

#[test]
fn environment_settings() {
    assert_eq!(parse_env_var("PATH=/bin"), Some((String::from("PATH"), String::from("/bin"))));
    assert_eq!(parse_env_var("A="), Some((String::from("A"), String::new())));
    assert_eq!(parse_env_var("=v"), Some((String::new(), String::from("v"))));
    assert_eq!(parse_env_var("A=b=c"), Some((String::from("A"), String::from("b"))));
    assert_eq!(parse_env_var("PATH"), None);
    assert_eq!(parse_env_var(""), None);
    let env = vec![String::from("A=1"), String::from("B=two")];
    assert_eq!(
        set_env(&env),
        Some(vec![(String::from("A"), String::from("1")), (String::from("B"), String::from("two"))])
    );
    assert_eq!(set_env(&[String::from("A=1"), String::from("B")]), None);
    assert_eq!(set_env(&[]), Some(vec![]));
}

#[test]
fn architectures() {
    assert_eq!(normalize_arch("386"), Some("x86"));
    assert_eq!(normalize_arch("amd64"), Some("x86_64"));
    assert_eq!(normalize_arch("arm"), Some("arm"));
    assert_eq!(normalize_arch("arm64"), Some("aarch64"));
    assert_eq!(normalize_arch("ppc64le"), Some("powerpc64"));
    assert_eq!(normalize_arch("s390x"), Some("s390x"));
    assert_eq!(normalize_arch("riscv64"), None);
    assert!(is_compatible_arch("amd64", "x86_64"));
    assert!(!is_compatible_arch("amd64", "aarch64"));
    assert!(!is_compatible_arch("x86_64", "x86_64"));
    assert!(!is_compatible_arch("mips", "mips"));
}

#[test]
fn base_path() {
    assert_eq!(get_base_path(), "/tmp/dabba");
}

#[test]
fn decimal_numerals() {
    let mut out = String::from("n=");
    push_decimal(&mut out, 0);
    out.push(',');
    push_decimal(&mut out, 10);
    out.push(',');
    push_decimal(&mut out, 18446744073709551615);
    out.push(',');
    push_signed_decimal(&mut out, -1);
    out.push(',');
    push_signed_decimal(&mut out, i64::MIN);
    out.push(',');
    push_signed_decimal(&mut out, 907);
    assert_eq!(out, "n=0,10,18446744073709551615,-1,-9223372036854775808,907");
}

#[test]
fn numerals_are_read_with_bounds() {
    let read = |text: &str, max: u64| read_unsigned(&chars_of(text), max);
    assert_eq!(read("0", 0), Some(0));
    assert_eq!(read("1", 0), None);
    assert_eq!(read("18446744073709551615", u64::MAX), Some(u64::MAX));
    assert_eq!(read("18446744073709551616", u64::MAX), None);
    assert_eq!(read("00000000000000000000000000012", 12), Some(12));
    assert_eq!(read("12a", 100), None);
    let signed = |text: &str| read_signed(&chars_of(text), 128, 127);
    assert_eq!(signed("-128"), Some(-128));
    assert_eq!(signed("-129"), None);
    assert_eq!(signed("127"), Some(127));
    assert_eq!(signed("128"), None);
    assert_eq!(signed("+5"), Some(5));
    assert_eq!(signed("-+5"), None);
    assert_eq!(signed("-"), None);
}

#[test]
fn texts_are_cut_at_separators() {
    let cut = |text: &str| {
        let (first, second) = split_two(&chars_of(text), '/');
        (first.iter().collect::<String>(), second.map(|s| s.iter().collect::<String>()))
    };
    assert_eq!(cut("a/b/c"), (String::from("a"), Some(String::from("b"))));
    assert_eq!(cut("a"), (String::from("a"), None));
    assert_eq!(cut("a/"), (String::from("a"), Some(String::new())));
    assert_eq!(cut("/b"), (String::new(), Some(String::from("b"))));
    assert_eq!(cut(""), (String::new(), None));
    assert_eq!(chars_of("héllo"), vec!['h', 'é', 'l', 'l', 'o']);
    assert!(same_text("abc", "abc"));
    assert!(!same_text("abc", "abd"));
}
