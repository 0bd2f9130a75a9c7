//! What the runtime knows of an image registry: the shape of the documents
//! it serves, the addresses to ask, and which manifest of an index to take.
//! Talking to the registry is left to the caller.

use vstd::prelude::*;
use vstd::string::StringExecFns;
use crate::text::chars_of;
use crate::text::find;
use crate::text::find_char;
use crate::text::same_text;

verus! {

/// The descriptor of a blob: the image's configuration, or one layer.
#[derive(Clone, Debug, PartialEq, Eq)]
pub struct ManifestConfig {
    pub media_type: String,
    pub size: i32,
    pub digest: String,
}

/// The manifest of an image for one platform.
#[derive(Clone, Debug, PartialEq, Eq)]
pub struct Manifest {
    pub schema_version: i32,
    pub media_type: String,
    /// The descriptor of the image's configuration.
    pub config: ManifestConfig,
    /// The layers, base layer first: each is mounted on top of the ones
    /// before it.
    pub layers: Vec<ManifestConfig>,
}

/// The platform that a manifest is for.
#[derive(Clone, Debug, PartialEq, Eq)]
pub struct ImagePlatform {
    pub architecture: String,
    pub os: String,
}

/// One entry of an index: the descriptor of a manifest and its platform.
#[derive(Clone, Debug, PartialEq, Eq)]
pub struct ImageIndex {
    pub media_type: String,
    pub size: i32,
    pub digest: String,
    pub platform: ImagePlatform,
}

/// A manifest list: the manifests of one image for several platforms.
#[derive(Clone, Debug, PartialEq, Eq)]
pub struct ManifestListV2 {
    pub media_type: String,
    pub manifests: Vec<ImageIndex>,
}

/// An image index: the manifests of one image for several platforms.
#[derive(Clone, Debug, PartialEq, Eq)]
pub struct ImageIndexV1 {
    pub media_type: String,
    pub manifests: Vec<ImageIndex>,
}

/// How an image wants to be run.
#[derive(Clone, Debug, PartialEq, Eq)]
pub struct ImageConfigRuntime {
    /// The ports that the image listens on, as the JSON text of the
    /// object that names them.
    pub exposed_ports: Option<String>,
    /// The environment, each entry written as `KEY=VAL`.
    pub env: Vec<String>,
    pub working_dir: Option<String>,
    /// The arguments for the program; the command line itself when there
    /// is no entry point.
    pub cmd: Vec<String>,
    /// The program to run.
    pub entrypoint: Option<Vec<String>>,
    pub stop_signal: Option<String>,
}

/// The configuration of an image.
#[derive(Clone, Debug, PartialEq, Eq)]
pub struct ImageConfig {
    pub architecture: String,
    pub os: String,
    pub config: ImageConfigRuntime,
}

/// The repository and tag that are asked for.
#[derive(Clone, Debug, PartialEq, Eq)]
pub struct RegistryClient {
    /// The repository, with its namespace.
    pub image: String,
    /// The tag.
    pub tag: String,
}

/// What kind of document a media type announces.
#[derive(Clone, Copy, Debug, PartialEq, Eq, Structural)]
pub enum ManifestKind {
    /// The manifest of an image.
    Image,
    /// A list of manifests, one for each platform.
    Index,
}

/// The repository that an image name stands for: a name without a
/// namespace is that of an official image, which live under `library/`.
pub open spec fn repository(image: Seq<char>) -> Seq<char> {
    if find(image, '/', 0) < image.len() {
        image
    } else {
        "library/"@ + image
    }
}

/// The address that hands out a token for pulling from `image`.
pub open spec fn token_address(image: Seq<char>) -> Seq<char> {
    "https://auth.docker.io/token?service=registry.docker.io&scope=repository:"@ + image
        + ":pull"@
}

/// The address of the blob with this digest.
pub open spec fn blob_address(image: Seq<char>, digest: Seq<char>) -> Seq<char> {
    "https://registry-1.docker.io/v2/"@ + image + "/blobs/"@ + digest
}

/// The address of the manifest with this tag or digest.
pub open spec fn manifest_address(image: Seq<char>, reference: Seq<char>) -> Seq<char> {
    "https://registry-1.docker.io/v2/"@ + image + "/manifests/"@ + reference
}

/// The media types that a manifest is asked for in; those of the OCI
/// formats only on request.
pub open spec fn accepted_media_types(enable_oci: bool) -> Seq<Seq<char>> {
    let docker = seq![
        "application/vnd.docker.distribution.manifest.v2+json"@,
        "application/vnd.docker.distribution.manifest.list.v2+json"@,
    ];
    if enable_oci {
        docker + seq![
            "application/vnd.oci.image.index.v1+json"@,
            "application/vnd.oci.image.manifest.v1+json"@,
        ]
    } else {
        docker
    }
}

/// What kind of document a media type announces, if it is one that the
/// runtime reads.
pub open spec fn kind_of_media_type(media_type: Seq<char>) -> Option<ManifestKind> {
    if media_type == "application/vnd.docker.distribution.manifest.v2+json"@ {
        Some(ManifestKind::Image)
    } else if media_type == "application/vnd.docker.distribution.manifest.list.v2+json"@
        || media_type == "application/vnd.oci.image.index.v1+json"@ {
        Some(ManifestKind::Index)
    } else {
        None
    }
}

/// Whether an entry of an index is for the platform that the runtime
/// runs images of.
pub open spec fn is_runnable(entry: ImageIndex) -> bool {
    entry.platform.architecture@ == "amd64"@ && entry.platform.os@ == "linux"@
}

/// The command line that an image asks to be run with: its entry point, if
/// it has one, followed by its arguments.
pub open spec fn payload_command(entrypoint: Option<Seq<Seq<char>>>, cmd: Seq<Seq<char>>) -> Seq<
    Seq<char>,
> {
    match entrypoint {
        Some(program) => program + cmd,
        None => cmd,
    }
}

impl ImageConfigRuntime {
    /// The command line to run the image with.
    pub fn command_line(&self) -> (line: Vec<String>)
        ensures
            line.deep_view() == payload_command(
                match self.entrypoint {
                    Some(program) => Some(program.deep_view()),
                    None => None,
                },
                self.cmd.deep_view(),
            ),
    {
        let mut line: Vec<String> = Vec::new();
        match &self.entrypoint {
            Some(program) => {
                let mut i: usize = 0;
                while i < program.len()
                    invariant
                        i <= program@.len(),
                        line.deep_view() == program.deep_view().take(i as int),
                    decreases program@.len() - i,
                {
                    let ghost before = line.deep_view();
                    let word = program[i].clone();
                    assert(word@ == program.deep_view()[i as int]);
                    line.push(word);
                    i += 1;
                    assert(line.deep_view() =~= before.push(word@));
                    assert(line.deep_view() =~= program.deep_view().take(i as int));
                }
                assert(program.deep_view().take(i as int) =~= program.deep_view());
            },
            None => {
                assert(line.deep_view() =~= Seq::<Seq<char>>::empty());
            },
        }
        let ghost head = line.deep_view();
        let mut k: usize = 0;
        while k < self.cmd.len()
            invariant
                k <= self.cmd@.len(),
                line.deep_view() == head + self.cmd.deep_view().take(k as int),
            decreases self.cmd@.len() - k,
        {
            let ghost before = line.deep_view();
            let word = self.cmd[k].clone();
            assert(word@ == self.cmd.deep_view()[k as int]);
            line.push(word);
            k += 1;
            assert(line.deep_view() =~= before.push(word@));
            assert(line.deep_view() =~= head + self.cmd.deep_view().take(k as int));
        }
        assert(self.cmd.deep_view().take(k as int) =~= self.cmd.deep_view());
        line
    }
}

impl RegistryClient {
    /// The client for the image `image` at the tag `tag`.
    pub fn new(image: &str, tag: &str) -> (client: RegistryClient)
        ensures
            client.image@ == repository(image@),
            client.tag@ == tag@,
    {
        let chars = chars_of(image);
        let slash = find_char(chars.as_slice(), '/', 0);
        let image = if slash < chars.len() {
            String::from_str(image)
        } else {
            String::from_str("library/").concat(image)
        };
        RegistryClient { image, tag: String::from_str(tag) }
    }

    /// The address that hands out a token for pulling the image.
    pub fn token_url(&self) -> (url: String)
        ensures
            url@ == token_address(self.image@),
    {
        let mut url = String::from_str(
            "https://auth.docker.io/token?service=registry.docker.io&scope=repository:",
        );
        url.append(self.image.as_str());
        url.append(":pull");
        url
    }

    /// The address of the blob with this digest.
    pub fn blob_url(&self, digest: &str) -> (url: String)
        ensures
            url@ == blob_address(self.image@, digest@),
    {
        let mut url = String::from_str("https://registry-1.docker.io/v2/");
        url.append(self.image.as_str());
        url.append("/blobs/");
        url.append(digest);
        url
    }

    /// The address of the image's manifest: the one with this digest, or
    /// the one that the tag names.
    pub fn manifest_url(&self, digest: Option<&str>) -> (url: String)
        ensures
            url@ == manifest_address(
                self.image@,
                match digest {
                    Some(digest) => digest@,
                    None => self.tag@,
                },
            ),
    {
        let mut url = String::from_str("https://registry-1.docker.io/v2/");
        url.append(self.image.as_str());
        url.append("/manifests/");
        match digest {
            Some(digest) => url.append(digest),
            None => url.append(self.tag.as_str()),
        }
        url
    }
}

/// The media types to ask for a manifest in.
pub fn accepted_types(enable_oci: bool) -> (types: Vec<&'static str>)
    ensures
        types.len() == accepted_media_types(enable_oci).len(),
        forall|i: int|
            0 <= i < types.len() ==> (#[trigger] types[i])@ == accepted_media_types(enable_oci)[i],
{
    let mut types: Vec<&'static str> = Vec::new();
    types.push("application/vnd.docker.distribution.manifest.v2+json");
    types.push("application/vnd.docker.distribution.manifest.list.v2+json");
    if enable_oci {
        types.push("application/vnd.oci.image.index.v1+json");
        types.push("application/vnd.oci.image.manifest.v1+json");
    }
    types
}

/// What kind of document a media type announces.
pub fn manifest_kind(media_type: &str) -> (kind: Option<ManifestKind>)
    ensures
        kind == kind_of_media_type(media_type@),
{
    if same_text(media_type, "application/vnd.docker.distribution.manifest.v2+json") {
        Some(ManifestKind::Image)
    } else if same_text(media_type, "application/vnd.docker.distribution.manifest.list.v2+json")
        || same_text(media_type, "application/vnd.oci.image.index.v1+json") {
        Some(ManifestKind::Index)
    } else {
        None
    }
}

/// Picks the manifest to run from an index: the first entry for the
/// runtime's platform, by its position; `None` when there is none.
pub fn select_manifest(manifests: &[ImageIndex]) -> (picked: Option<usize>)
    ensures
        match picked {
            Some(at) => at < manifests@.len() && is_runnable(manifests@[at as int]) && forall|
                i: int,
            |
                0 <= i < at ==> !is_runnable(#[trigger] manifests@[i]),
            None => forall|i: int| 0 <= i < manifests@.len() ==> !is_runnable(#[trigger] manifests@[i]),
        },
{
    let mut i: usize = 0;
    while i < manifests.len()
        invariant
            i <= manifests@.len(),
            forall|k: int| 0 <= k < i ==> !is_runnable(#[trigger] manifests@[k]),
        decreases manifests@.len() - i,
    {
        let entry = &manifests[i];
        if same_text(entry.platform.architecture.as_str(), "amd64") && same_text(
            entry.platform.os.as_str(),
            "linux",
        ) {
            return Some(i);
        }
        i += 1;
    }
    None
}

} // verus!
