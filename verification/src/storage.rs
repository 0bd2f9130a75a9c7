//! Where the layers of an image are kept once extracted.

use vstd::prelude::*;
use vstd::string::StringExecFns;
use crate::mount_helper::join;
use crate::mount_helper::join_path;
use crate::registry::Manifest;
use crate::registry::ManifestConfig;

verus! {

/// The cache of extracted layers.
#[derive(Clone, Debug, PartialEq, Eq)]
pub struct Storage {
    /// The directory that holds one directory for each layer.
    pub cache_dir: String,
}

/// The directories of the first `count` layers, in their order.
pub open spec fn layer_dirs(cache_dir: Seq<char>, layers: Seq<ManifestConfig>, count: nat) -> Seq<
    Seq<char>,
>
    decreases count,
{
    if count == 0 || count > layers.len() {
        Seq::empty()
    } else {
        layer_dirs(cache_dir, layers, (count - 1) as nat).push(
            join(cache_dir, layers[count - 1].digest@),
        )
    }
}

impl Storage {
    /// The cache in the directory `cache_dir`.
    pub fn new(cache_dir: &str) -> (storage: Storage)
        ensures
            storage.cache_dir@ == cache_dir@,
    {
        Storage { cache_dir: String::from_str(cache_dir) }
    }

    /// The directory of the layer with this digest: where it is found if it
    /// was extracted before, and where it is extracted to otherwise.
    pub fn layer_path(&self, digest: &str) -> (path: String)
        ensures
            path@ == join(self.cache_dir@, digest@),
    {
        join_path(self.cache_dir.as_str(), digest)
    }

    /// The directories of the image's layers, base layer first, as they
    /// are handed to the overlay.
    pub fn download_layers(&self, manifest: &Manifest) -> (paths: Vec<String>)
        ensures
            paths.deep_view() == layer_dirs(
                self.cache_dir@,
                manifest.layers@,
                manifest.layers@.len(),
            ),
            paths@.len() == manifest.layers@.len(),
    {
        let mut paths: Vec<String> = Vec::new();
        let mut i: usize = 0;
        while i < manifest.layers.len()
            invariant
                i <= manifest.layers@.len(),
                paths@.len() == i,
                paths.deep_view() == layer_dirs(self.cache_dir@, manifest.layers@, i as nat),
            decreases manifest.layers@.len() - i,
        {
            let ghost before = paths.deep_view();
            let path = self.layer_path(manifest.layers[i].digest.as_str());
            paths.push(path);
            assert(paths.deep_view() =~= before.push(path@));
            i += 1;
        }
        paths
    }
}

/// The layers keep their order and none is lost: the directory at each
/// position is that of the layer at the same position.
pub proof fn lemma_layer_dirs_in_order(
    cache_dir: Seq<char>,
    layers: Seq<ManifestConfig>,
    count: nat,
    at: int,
)
    requires
        0 <= at < count <= layers.len(),
    ensures
        layer_dirs(cache_dir, layers, count).len() == count,
        layer_dirs(cache_dir, layers, count)[at] == join(cache_dir, layers[at].digest@),
    decreases count,
{
    lemma_layer_dirs_len(cache_dir, layers, count);
    lemma_layer_dirs_len(cache_dir, layers, (count - 1) as nat);
    if at < count - 1 {
        lemma_layer_dirs_in_order(cache_dir, layers, (count - 1) as nat, at);
    }
}

/// There are as many directories as layers.
proof fn lemma_layer_dirs_len(cache_dir: Seq<char>, layers: Seq<ManifestConfig>, count: nat)
    requires
        count <= layers.len(),
    ensures
        layer_dirs(cache_dir, layers, count).len() == count,
    decreases count,
{
    if count > 0 {
        lemma_layer_dirs_len(cache_dir, layers, (count - 1) as nat);
    }
}

} // verus!
