//! The layers of the buildpack, as a closed set.

pub mod default_env_layer;
pub mod download_bundler_layer;
pub mod in_app_dir_cache_layer;

use crate::buildpack::{ErrorView, RubyBuildpackError};
use crate::layer::{
    outcomes_view, Command, CommandOutcome, CommandView, ExistingLayerStrategy, LayerTypes,
    OutcomeView,
};
use crate::layer_env::{LayerEnv, Modification};
use crate::layers::default_env_layer::{default_modifications, DefaultEnvLayer};
use crate::layers::download_bundler_layer::{
    create_step, update_step, version_text, DownloadBundlerLayer, DownloadBundlerLayerMetadata,
};
use crate::layers::in_app_dir_cache_layer::{
    cache_result, InAppDirCacheLayer, InAppDirCacheLayerMetadata,
};
use vstd::prelude::*;

verus! {

/// The record that a layer keeps beside its files, by which a later build
/// tells whether the files are still the ones it wants.
#[derive(Debug)]
pub enum LayerMetadata {
    /// The record of a layer that keeps nothing.
    Generic,
    /// The record of the bundler layer.
    DownloadBundler(DownloadBundlerLayerMetadata),
    /// The record of a layer that caches a directory of the application.
    InAppDirCache(InAppDirCacheLayerMetadata),
}

/// A metadata record, as contracts speak of it.
pub enum MetadataView {
    Generic,
    /// The bundler version.
    DownloadBundler(Seq<char>),
    /// The path of the cached directory.
    InAppDirCache(Seq<char>),
}

impl View for LayerMetadata {
    type V = MetadataView;

    open spec fn view(&self) -> MetadataView {
        match self {
            LayerMetadata::Generic => MetadataView::Generic,
            LayerMetadata::DownloadBundler(m) => MetadataView::DownloadBundler(m@),
            LayerMetadata::InAppDirCache(m) => MetadataView::InAppDirCache(m@),
        }
    }
}

impl Clone for LayerMetadata {
    fn clone(&self) -> (r: Self)
        ensures
            r@ == self@,
    {
        match self {
            LayerMetadata::Generic => LayerMetadata::Generic,
            LayerMetadata::DownloadBundler(m) => LayerMetadata::DownloadBundler(m.clone()),
            LayerMetadata::InAppDirCache(m) => LayerMetadata::InAppDirCache(m.clone()),
        }
    }
}

impl LayerMetadata {
    /// Whether the two records are of the same kind and hold the same
    /// values.
    pub fn same_as(&self, other: &LayerMetadata) -> (r: bool)
        ensures
            r == (self@ == other@),
    {
        match (self, other) {
            (LayerMetadata::Generic, LayerMetadata::Generic) => true,
            (LayerMetadata::DownloadBundler(a), LayerMetadata::DownloadBundler(b)) => a == b,
            (LayerMetadata::InAppDirCache(a), LayerMetadata::InAppDirCache(b)) => a == b,
            _ => false,
        }
    }
}

/// What a layer hands back when its work is done: its new metadata and the
/// environment modifications it contributes.
#[derive(Debug)]
pub struct LayerResult {
    pub metadata: LayerMetadata,
    pub env: LayerEnv,
}

/// The result of a layer, as contracts speak of it.
pub struct ResultView {
    pub metadata: MetadataView,
    pub env: Seq<Modification>,
}

impl View for LayerResult {
    type V = ResultView;

    open spec fn view(&self) -> ResultView {
        ResultView { metadata: self.metadata@, env: self.env@ }
    }
}

/// The next step of a layer's `create` or `update`, given the outcomes of
/// the commands that were run for it so far.
#[derive(Debug)]
pub enum LayerStep {
    /// Run this command and come back with its outcome.
    Run(Command),
    /// The work is done, with this result.
    Done(LayerResult),
    /// The work failed.
    Failed(RubyBuildpackError),
}

/// A step, as contracts speak of it.
pub enum StepView {
    Run(CommandView),
    Done(ResultView),
    Failed(ErrorView),
}

impl View for LayerStep {
    type V = StepView;

    open spec fn view(&self) -> StepView {
        match self {
            LayerStep::Run(command) => StepView::Run(command@),
            LayerStep::Done(result) => StepView::Done(result@),
            LayerStep::Failed(error) => StepView::Failed(error@),
        }
    }
}

/// What a layer may read of the build it runs in.
#[derive(Debug)]
pub struct BuildContext {
    /// The path of the application's Gemfile.
    pub gemfile: String,
}

/// A layer of the buildpack.
#[derive(Debug)]
pub enum Layer {
    DefaultEnv(DefaultEnvLayer),
    DownloadBundler(DownloadBundlerLayer),
    InAppDirCache(InAppDirCacheLayer),
}

/// Whether the two records are of the same kind.
pub open spec fn same_kind(a: MetadataView, b: MetadataView) -> bool {
    match (a, b) {
        (MetadataView::Generic, MetadataView::Generic) => true,
        (MetadataView::DownloadBundler(_), MetadataView::DownloadBundler(_)) => true,
        (MetadataView::InAppDirCache(_), MetadataView::InAppDirCache(_)) => true,
        _ => false,
    }
}

impl Layer {
    /// Where the layer is available.
    pub open spec fn spec_types(&self) -> LayerTypes {
        match self {
            Layer::DefaultEnv(_) => LayerTypes { build: true, launch: true, cache: false },
            Layer::DownloadBundler(_) => LayerTypes { build: true, launch: true, cache: true },
            Layer::InAppDirCache(_) => LayerTypes { build: true, launch: true, cache: true },
        }
    }

    /// The record that the layer wants to find beside its files.
    pub open spec fn spec_desired_metadata(&self) -> MetadataView {
        match self {
            Layer::DefaultEnv(_) => MetadataView::Generic,
            Layer::DownloadBundler(layer) => MetadataView::DownloadBundler(
                version_text(layer.version()),
            ),
            Layer::InAppDirCache(layer) => MetadataView::InAppDirCache(layer.app_dir_path@),
        }
    }

    /// Whether the layer has an `update` of its own. Only the bundler layer
    /// has one.
    pub open spec fn spec_has_update(&self) -> bool {
        self is DownloadBundler
    }

    /// What the layer itself says of a cached record of its own kind, if
    /// it says anything.
    pub open spec fn spec_existing_layer_strategy(&self, cached: MetadataView) -> Option<
        ExistingLayerStrategy,
    > {
        match (self, cached) {
            (Layer::DownloadBundler(layer), MetadataView::DownloadBundler(version)) => Some(
                if version_text(layer.version()) == version {
                    ExistingLayerStrategy::Keep
                } else {
                    ExistingLayerStrategy::Update
                },
            ),
            (Layer::InAppDirCache(layer), MetadataView::InAppDirCache(path)) => Some(
                if layer.app_dir_path@ == path {
                    ExistingLayerStrategy::Keep
                } else {
                    ExistingLayerStrategy::Recreate
                },
            ),
            _ => None,
        }
    }

    /// The next step of the layer's `create`, after commands with these
    /// outcomes.
    pub open spec fn spec_create(&self, gemfile: Seq<char>, outcomes: Seq<OutcomeView>) -> StepView {
        match self {
            Layer::DefaultEnv(layer) => StepView::Done(
                ResultView {
                    metadata: MetadataView::Generic,
                    env: default_modifications(layer.data()),
                },
            ),
            Layer::DownloadBundler(layer) => create_step(
                version_text(layer.version()),
                layer.gem_path(),
                gemfile,
                outcomes,
            ),
            Layer::InAppDirCache(layer) => StepView::Done(cache_result(layer.app_dir_path@)),
        }
    }

    /// The next step of the layer's `update` of a cached layer with the
    /// record `cached`, after commands with these outcomes. There is none
    /// where the layer has no `update`, or the record is not of its kind.
    pub open spec fn spec_update(
        &self,
        gemfile: Seq<char>,
        cached: MetadataView,
        outcomes: Seq<OutcomeView>,
    ) -> Option<StepView> {
        match (self, cached) {
            (Layer::DownloadBundler(layer), MetadataView::DownloadBundler(old_version)) => Some(
                update_step(
                    version_text(layer.version()),
                    old_version,
                    layer.gem_path(),
                    gemfile,
                    outcomes,
                ),
            ),
            _ => None,
        }
    }

    /// Where the layer is available.
    pub fn types(&self) -> (r: LayerTypes)
        ensures
            r == self.spec_types(),
    {
        match self {
            Layer::DefaultEnv(layer) => layer.types(),
            Layer::DownloadBundler(layer) => layer.types(),
            Layer::InAppDirCache(layer) => layer.types(),
        }
    }

    /// The record that the layer wants to find beside its files. It is
    /// computed from the layer's own inputs, and nothing is run for it.
    pub fn desired_metadata(&self) -> (r: LayerMetadata)
        ensures
            r@ == self.spec_desired_metadata(),
    {
        match self {
            Layer::DefaultEnv(_) => LayerMetadata::Generic,
            Layer::DownloadBundler(layer) => LayerMetadata::DownloadBundler(
                layer.desired_metadata(),
            ),
            Layer::InAppDirCache(layer) => LayerMetadata::InAppDirCache(layer.desired_metadata()),
        }
    }

    /// Whether the layer has an `update` of its own.
    pub fn has_update(&self) -> (r: bool)
        ensures
            r == self.spec_has_update(),
    {
        match self {
            Layer::DownloadBundler(_) => true,
            _ => false,
        }
    }

    /// What the layer itself says of a cached record, if it says anything:
    /// the bundler layer and the directory cache judge a record of their
    /// own kind, and no layer judges a record of another kind.
    pub fn existing_layer_strategy(&self, cached: &LayerMetadata) -> (r: Option<
        ExistingLayerStrategy,
    >)
        ensures
            r == self.spec_existing_layer_strategy(cached@),
    {
        match (self, cached) {
            (Layer::DownloadBundler(layer), LayerMetadata::DownloadBundler(metadata)) => Some(
                layer.existing_layer_strategy(metadata),
            ),
            (Layer::InAppDirCache(layer), LayerMetadata::InAppDirCache(metadata)) => Some(
                layer.existing_layer_strategy(metadata),
            ),
            _ => None,
        }
    }

    /// The next step of the layer's `create`, given the outcomes of the
    /// commands run for it so far. Where it is `Done`, the result holds the
    /// record that the layer wants to find.
    pub fn create(&self, context: &BuildContext, outcomes: &Vec<CommandOutcome>) -> (r: LayerStep)
        ensures
            r@ == self.spec_create(context.gemfile@, outcomes_view(outcomes@)),
            r@ matches StepView::Done(result) ==> result.metadata == self.spec_desired_metadata(),
    {
        match self {
            Layer::DefaultEnv(layer) => LayerStep::Done(layer.create()),
            Layer::DownloadBundler(layer) => layer.create(context.gemfile.as_str(), outcomes),
            Layer::InAppDirCache(layer) => LayerStep::Done(layer.create()),
        }
    }

    /// The next step of the layer's `update` of a cached layer with the
    /// record `cached`, given the outcomes of the commands run for it so
    /// far; `None` where the layer has no `update` or the record is not of
    /// its kind.
    pub fn update(
        &self,
        context: &BuildContext,
        cached: &LayerMetadata,
        outcomes: &Vec<CommandOutcome>,
    ) -> (r: Option<LayerStep>)
        ensures
            match r {
                Some(step) => self.spec_update(
                    context.gemfile@,
                    cached@,
                    outcomes_view(outcomes@),
                ) == Some(step@),
                None => self.spec_update(context.gemfile@, cached@, outcomes_view(outcomes@))
                    is None,
            },
            r matches Some(step) ==> (step@ matches StepView::Done(result) ==> result.metadata
                == self.spec_desired_metadata()),
    {
        match (self, cached) {
            (Layer::DownloadBundler(layer), LayerMetadata::DownloadBundler(metadata)) => Some(
                layer.update(context.gemfile.as_str(), metadata, outcomes),
            ),
            _ => None,
        }
    }
}

} // verus!
