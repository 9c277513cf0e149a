//! A layer that sets default values of environment variables.

use crate::layer::LayerTypes;
use crate::layer_env::{LayerEnv, Modification, ModificationBehavior, Scope};
use crate::layers::{LayerMetadata, LayerResult, MetadataView, ResultView};
use vstd::prelude::*;

verus! {

/// Sets each variable of a list to its value, unless the variable already
/// has one.
///
/// Where all that a layer has to do is to set defaults, this layer does it
/// from the list of names and values alone.
#[derive(Debug)]
pub struct DefaultEnvLayer {
    data: Vec<(String, String)>,
}

/// The modifications for a list of defaults: for each pair, in order, a
/// `Default` of the name to the value, for every scope.
pub open spec fn default_modifications(data: Seq<(String, String)>) -> Seq<Modification> {
    Seq::new(
        data.len(),
        |i: int|
            Modification {
                scope: Scope::All,
                behavior: ModificationBehavior::Default,
                key: data[i].0@,
                value: data[i].1@,
            },
    )
}

impl DefaultEnvLayer {
    /// The names and values that the layer was made with.
    pub closed spec fn data(&self) -> Seq<(String, String)> {
        self.data@
    }

    /// The layer that sets the defaults of `env`.
    pub fn new(env: Vec<(String, String)>) -> (r: Self)
        ensures
            r.data() == env@,
    {
        DefaultEnvLayer { data: env }
    }

    /// The layer is available to the build and at launch, and is not
    /// cached.
    pub fn types(&self) -> (r: LayerTypes)
        ensures
            r == (LayerTypes { build: true, launch: true, cache: false }),
    {
        LayerTypes { build: true, launch: true, cache: false }
    }

    /// Creates the layer: nothing is run, and each pair becomes a default.
    pub fn create(&self) -> (r: LayerResult)
        ensures
            r@ == (ResultView {
                metadata: MetadataView::Generic,
                env: default_modifications(self.data()),
            }),
    {
        let mut layer_env = LayerEnv::new();
        let mut i: usize = 0;
        while i < self.data.len()
            invariant
                i <= self.data.len(),
                layer_env@ == default_modifications(self.data@.take(i as int)),
            decreases self.data.len() - i,
        {
            layer_env =
            layer_env.chainable_insert(
                Scope::All,
                ModificationBehavior::Default,
                self.data[i].0.as_str(),
                self.data[i].1.as_str(),
            );
            proof {
                assert(layer_env@ =~= default_modifications(self.data@.take(i + 1)));
            }
            i += 1;
        }
        proof {
            assert(self.data@.take(self.data.len() as int) =~= self.data@);
        }
        LayerResult { metadata: LayerMetadata::Generic, env: layer_env }
    }
}

} // verus!
