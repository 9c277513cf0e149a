//! A layer that holds the contents of a directory of the application, so
//! that they last from one build to the next.
//!
//! Layers cannot lie inside the application directory. This layer keeps a
//! copy of such a directory, for instance the compiled assets, and records
//! the path it belongs to.

use crate::layer::{ExistingLayerStrategy, LayerTypes};
use crate::layer_env::{LayerEnv, Modification};
use crate::layers::{LayerMetadata, LayerResult, MetadataView, ResultView};
use vstd::prelude::*;
use vstd::std_specs::cmp::PartialEqSpecImpl;

verus! {

/// The layer for the directory at `app_dir_path`.
#[derive(Debug)]
pub struct InAppDirCacheLayer {
    pub app_dir_path: String,
}

/// The record of the layer: the path of the directory that it caches.
#[derive(Debug)]
pub struct InAppDirCacheLayerMetadata {
    pub app_dir_path: String,
}

impl View for InAppDirCacheLayerMetadata {
    type V = Seq<char>;

    open spec fn view(&self) -> Seq<char> {
        self.app_dir_path@
    }
}

impl Clone for InAppDirCacheLayerMetadata {
    fn clone(&self) -> (r: Self)
        ensures
            r@ == self@,
    {
        InAppDirCacheLayerMetadata { app_dir_path: self.app_dir_path.clone() }
    }
}

impl PartialEq for InAppDirCacheLayerMetadata {
    fn eq(&self, other: &Self) -> (r: bool) {
        self.app_dir_path == other.app_dir_path
    }
}

impl PartialEqSpecImpl for InAppDirCacheLayerMetadata {
    open spec fn obeys_eq_spec() -> bool {
        true
    }

    open spec fn eq_spec(&self, other: &Self) -> bool {
        self.app_dir_path@ == other.app_dir_path@
    }
}

/// What `create` hands back for the directory at `path`: a record of the
/// path, and no environment modification.
pub open spec fn cache_result(path: Seq<char>) -> ResultView {
    ResultView { metadata: MetadataView::InAppDirCache(path), env: Seq::<Modification>::empty() }
}

impl InAppDirCacheLayer {
    /// The layer is available to the build and at launch, and is cached.
    pub fn types(&self) -> (r: LayerTypes)
        ensures
            r == (LayerTypes { build: true, launch: true, cache: true }),
    {
        LayerTypes { build: true, launch: true, cache: true }
    }

    /// The record that the layer wants to find: that of its own path.
    pub fn desired_metadata(&self) -> (r: InAppDirCacheLayerMetadata)
        ensures
            r@ == self.app_dir_path@,
    {
        InAppDirCacheLayerMetadata { app_dir_path: self.app_dir_path.clone() }
    }

    /// Creates the layer: nothing is run, the path is recorded.
    pub fn create(&self) -> (r: LayerResult)
        ensures
            r@ == cache_result(self.app_dir_path@),
    {
        LayerResult {
            metadata: LayerMetadata::InAppDirCache(self.desired_metadata()),
            env: LayerEnv::new(),
        }
    }

    /// Keeps a cached layer that belongs to the same path, and recreates
    /// one that belongs to another.
    pub fn existing_layer_strategy(&self, layer_data: &InAppDirCacheLayerMetadata) -> (r:
        ExistingLayerStrategy)
        ensures
            r == if self.app_dir_path@ == layer_data@ {
                ExistingLayerStrategy::Keep
            } else {
                ExistingLayerStrategy::Recreate
            },
    {
        if self.app_dir_path == layer_data.app_dir_path {
            ExistingLayerStrategy::Keep
        } else {
            ExistingLayerStrategy::Recreate
        }
    }
}

} // verus!
