//! The layer manager: for each layer of a build, in the order in which the
//! driver asks, it decides whether what an earlier build left behind can be
//! used again, says which operations the driver has to perform, and folds
//! the layer's environment modifications into the environments that later
//! layers and the launched process see.

use crate::composition::compose;
use crate::env::Env;
use crate::layer::{ExistingLayerStrategy, LayerTypes};
use crate::layer_env::Scope;
use crate::layer_name::LayerName;
use crate::layers::download_bundler_layer::{gem_path_name, BundlerVersion, DownloadBundlerLayer};
use crate::layers::{same_kind, Layer, LayerMetadata, LayerResult, MetadataView};
use crate::store::{LayerRecord, MetadataStore, RecordView};
use vstd::prelude::*;

verus! {

/// What the store holds for a layer, as the layer reads it.
pub enum CachedLayer {
    /// Nothing.
    Absent,
    /// Something that cannot be read as metadata of the layer.
    Corrupt,
    /// This metadata, of the layer's kind.
    Present(MetadataView),
}

/// What the manager does with a layer.
#[derive(Clone, Copy, Debug, PartialEq, Eq, Structural)]
pub enum ReuseDecision {
    /// Nothing is cached: run `create`.
    Create,
    /// Use what is cached as it is.
    Keep,
    /// Run `update` on what is cached.
    Update,
    /// Delete what is cached, then run `create`.
    Recreate,
}

/// Where a layer stands within one build.
#[derive(Clone, Copy, Debug, PartialEq, Eq, Structural)]
pub enum LayerState {
    /// The manager has not looked at the layer.
    Uninitialized,
    /// Nothing usable is cached, or no more: `create` has to run.
    Absent,
    /// What is cached is what the layer wants.
    Fresh,
    /// What is cached is out of date: `update` has to run.
    Stale,
    /// The layer's metadata and environment are recorded.
    Resolved,
}

/// One operation that the driver performs for a layer.
#[derive(Debug)]
pub enum Operation {
    /// Delete the layer's directory and metadata.
    Delete,
    /// Run the layer's `create`.
    Create,
    /// Run the layer's `update` with the metadata that was cached.
    Update(LayerMetadata),
}

/// An operation, as contracts speak of it.
pub enum OperationView {
    Delete,
    Create,
    Update(MetadataView),
}

impl View for Operation {
    type V = OperationView;

    open spec fn view(&self) -> OperationView {
        match self {
            Operation::Delete => OperationView::Delete,
            Operation::Create => OperationView::Create,
            Operation::Update(metadata) => OperationView::Update(metadata@),
        }
    }
}

/// What the store holds under `name`, read as metadata of the kind of
/// `desired`. A record without readable metadata, or with metadata of
/// another kind, is corrupt.
pub open spec fn cached_layer(
    store: Map<Seq<char>, RecordView>,
    name: Seq<char>,
    desired: MetadataView,
) -> CachedLayer {
    if !store.contains_key(name) {
        CachedLayer::Absent
    } else {
        match store[name].metadata {
            Some(metadata) => if same_kind(metadata, desired) {
                CachedLayer::Present(metadata)
            } else {
                CachedLayer::Corrupt
            },
            None => CachedLayer::Corrupt,
        }
    }
}

/// The reuse decision.
///
/// A layer with nothing cached is created. One whose cached metadata is
/// corrupt is recreated, and so is every layer that is not of type `cache`.
/// For a cached layer of type `cache`, the layer's own strategy decides
/// where it gives one (`hook`); otherwise the layer is kept where the cached
/// metadata equals the desired metadata, and updated where it differs. A
/// layer without an `update` is recreated in place of an update.
pub open spec fn reuse_decision(
    types: LayerTypes,
    cached: CachedLayer,
    desired: MetadataView,
    has_update: bool,
    hook: Option<ExistingLayerStrategy>,
) -> ReuseDecision {
    match cached {
        CachedLayer::Absent => ReuseDecision::Create,
        CachedLayer::Corrupt => ReuseDecision::Recreate,
        CachedLayer::Present(persisted) => if !types.cache {
            ReuseDecision::Recreate
        } else {
            let strategy = match hook {
                Some(strategy) => strategy,
                None => if persisted == desired {
                    ExistingLayerStrategy::Keep
                } else {
                    ExistingLayerStrategy::Update
                },
            };
            match strategy {
                ExistingLayerStrategy::Keep => ReuseDecision::Keep,
                ExistingLayerStrategy::Update => if has_update {
                    ReuseDecision::Update
                } else {
                    ReuseDecision::Recreate
                },
                ExistingLayerStrategy::Recreate => ReuseDecision::Recreate,
            }
        },
    }
}

/// The operations that carry out a decision, in order. `update` gets the
/// metadata that was cached.
pub open spec fn operations(decision: ReuseDecision, cached: CachedLayer) -> Seq<OperationView> {
    match decision {
        ReuseDecision::Create => seq![OperationView::Create],
        ReuseDecision::Keep => Seq::empty(),
        ReuseDecision::Update => match cached {
            CachedLayer::Present(persisted) => seq![OperationView::Update(persisted)],
            _ => seq![OperationView::Delete, OperationView::Create],
        },
        ReuseDecision::Recreate => seq![OperationView::Delete, OperationView::Create],
    }
}

/// The state that a decision puts the layer in.
pub open spec fn state_for(decision: ReuseDecision) -> LayerState {
    match decision {
        ReuseDecision::Create => LayerState::Absent,
        ReuseDecision::Keep => LayerState::Fresh,
        ReuseDecision::Update => LayerState::Stale,
        ReuseDecision::Recreate => LayerState::Absent,
    }
}

/// How often `create` is among the operations.
pub open spec fn creates(ops: Seq<OperationView>) -> nat {
    ops.filter(|op: OperationView| op is Create).len()
}

/// How often `update` is among the operations.
pub open spec fn updates(ops: Seq<OperationView>) -> nat {
    ops.filter(|op: OperationView| op is Update).len()
}

/// What the store holds for `layer` under `name`.
pub open spec fn layer_cached(store: Map<Seq<char>, RecordView>, name: Seq<char>, layer: Layer) -> CachedLayer {
    cached_layer(store, name, layer.spec_desired_metadata())
}

/// The decision for `layer` under `name`: the layer's strategy is asked
/// only about cached metadata of the layer's kind.
pub open spec fn layer_decision(store: Map<Seq<char>, RecordView>, name: Seq<char>, layer: Layer) -> ReuseDecision {
    let cached = layer_cached(store, name, layer);
    reuse_decision(
        layer.spec_types(),
        cached,
        layer.spec_desired_metadata(),
        layer.spec_has_update(),
        match cached {
            CachedLayer::Present(persisted) => layer.spec_existing_layer_strategy(persisted),
            _ => None,
        },
    )
}

/// Idempotent rebuild: where the cached metadata of a layer of type `cache`
/// equals the desired metadata, and the layer's strategy does not say
/// otherwise, the layer is kept: neither `create` nor `update` runs.
pub proof fn law_fresh_layer_is_kept(
    types: LayerTypes,
    desired: MetadataView,
    has_update: bool,
    hook: Option<ExistingLayerStrategy>,
)
    requires
        types.cache,
        hook is None || hook == Some(ExistingLayerStrategy::Keep),
    ensures
        reuse_decision(types, CachedLayer::Present(desired), desired, has_update, hook)
            == ReuseDecision::Keep,
        operations(ReuseDecision::Keep, CachedLayer::Present(desired)) == Seq::<
            OperationView,
        >::empty(),
        creates(operations(ReuseDecision::Keep, CachedLayer::Present(desired))) == 0,
        updates(operations(ReuseDecision::Keep, CachedLayer::Present(desired))) == 0,
{
    reveal(Seq::filter);
}

/// Where the cached metadata of a layer of type `cache` differs from the
/// desired metadata, the layer has an `update`, and the layer's strategy
/// does not say otherwise, `update` runs exactly once, with the cached
/// metadata, and `create` does not run.
pub proof fn law_stale_layer_is_updated(
    types: LayerTypes,
    persisted: MetadataView,
    desired: MetadataView,
    hook: Option<ExistingLayerStrategy>,
)
    requires
        types.cache,
        persisted != desired,
        hook is None || hook == Some(ExistingLayerStrategy::Update),
    ensures
        reuse_decision(types, CachedLayer::Present(persisted), desired, true, hook)
            == ReuseDecision::Update,
        operations(ReuseDecision::Update, CachedLayer::Present(persisted)) == seq![
            OperationView::Update(persisted),
        ],
        creates(operations(ReuseDecision::Update, CachedLayer::Present(persisted))) == 0,
        updates(operations(ReuseDecision::Update, CachedLayer::Present(persisted))) == 1,
{
    let ops = seq![OperationView::Update(persisted)];
    reveal_with_fuel(Seq::filter, 3);
    assert(ops.drop_last() =~= Seq::<OperationView>::empty());
}

/// Where the cached metadata differs from the desired metadata and the
/// layer has no `update`, what is cached is deleted and `create` runs
/// exactly once, unless the layer is of type `cache` and its strategy asks
/// to keep it.
pub proof fn law_stale_layer_without_update_is_recreated(
    types: LayerTypes,
    persisted: MetadataView,
    desired: MetadataView,
    hook: Option<ExistingLayerStrategy>,
)
    requires
        persisted != desired,
        !types.cache || hook != Some(ExistingLayerStrategy::Keep),
    ensures
        reuse_decision(types, CachedLayer::Present(persisted), desired, false, hook)
            == ReuseDecision::Recreate,
        operations(ReuseDecision::Recreate, CachedLayer::Present(persisted)) == seq![
            OperationView::Delete,
            OperationView::Create,
        ],
        creates(operations(ReuseDecision::Recreate, CachedLayer::Present(persisted))) == 1,
        updates(operations(ReuseDecision::Recreate, CachedLayer::Present(persisted))) == 0,
{
    let ops = seq![OperationView::Delete, OperationView::Create];
    reveal_with_fuel(Seq::filter, 4);
    assert(ops.drop_last() =~= seq![OperationView::Delete]);
    assert(ops.drop_last().drop_last() =~= Seq::<OperationView>::empty());
}

/// A layer that is not of type `cache` takes no part in the reuse
/// decision: whatever is cached, `create` runs exactly once and `update`
/// does not run.
pub proof fn law_uncached_layer_is_created(
    types: LayerTypes,
    cached: CachedLayer,
    desired: MetadataView,
    has_update: bool,
    hook: Option<ExistingLayerStrategy>,
)
    requires
        !types.cache,
    ensures
        reuse_decision(types, cached, desired, has_update, hook) == if cached is Absent {
            ReuseDecision::Create
        } else {
            ReuseDecision::Recreate
        },
        creates(operations(reuse_decision(types, cached, desired, has_update, hook), cached))
            == 1,
        updates(operations(reuse_decision(types, cached, desired, has_update, hook), cached))
            == 0,
{
    reveal_with_fuel(Seq::filter, 4);
    let recreate = seq![OperationView::Delete, OperationView::Create];
    assert(recreate.drop_last() =~= seq![OperationView::Delete]);
    assert(recreate.drop_last().drop_last() =~= Seq::<OperationView>::empty());
    let create = seq![OperationView::Create];
    assert(create.drop_last() =~= Seq::<OperationView>::empty());
}

/// A rebuild with the same inputs: a layer of type `cache` that finds the
/// metadata it wants is kept, whichever layer it is.
pub proof fn law_layer_with_desired_metadata_is_kept(
    store: Map<Seq<char>, RecordView>,
    name: Seq<char>,
    layer: Layer,
)
    requires
        layer.spec_types().cache,
        store.contains_key(name),
        store[name].metadata == Some(layer.spec_desired_metadata()),
    ensures
        layer_decision(store, name, layer) == ReuseDecision::Keep,
        operations(layer_decision(store, name, layer), layer_cached(store, name, layer))
            == Seq::<OperationView>::empty(),
{
}

/// A layer of type `cache` that finds other metadata of its kind is
/// updated with that metadata where it has an `update`, as the bundler
/// layer has, and recreated where it has none, as the directory cache.
pub proof fn law_layer_with_other_metadata_is_brought_up_to_date(
    store: Map<Seq<char>, RecordView>,
    name: Seq<char>,
    layer: Layer,
    persisted: MetadataView,
)
    requires
        layer.spec_types().cache,
        store.contains_key(name),
        store[name].metadata == Some(persisted),
        same_kind(persisted, layer.spec_desired_metadata()),
        persisted != layer.spec_desired_metadata(),
    ensures
        operations(layer_decision(store, name, layer), layer_cached(store, name, layer))
            == if layer.spec_has_update() {
            seq![OperationView::Update(persisted)]
        } else {
            seq![OperationView::Delete, OperationView::Create]
        },
{
}

/// The operations of a list, as contracts speak of them.
pub open spec fn operations_view(ops: Seq<Operation>) -> Seq<OperationView> {
    ops.map_values(|op: Operation| op@)
}

/// The manager of one build.
#[derive(Debug)]
pub struct LayerManager {
    store: MetadataStore,
    build_env: Env,
    launch_env: Env,
    resolved: Vec<LayerName>,
}

/// A manager, as contracts speak of it.
pub struct ManagerView {
    /// The record of each layer that has one.
    pub store: Map<Seq<char>, RecordView>,
    /// The environment that the next layer is built in.
    pub build_env: Map<Seq<char>, Seq<char>>,
    /// The environment of the launched process.
    pub launch_env: Map<Seq<char>, Seq<char>>,
    /// The names of the layers resolved in this build, in order.
    pub resolved: Seq<Seq<char>>,
}

/// The manager once the layer `name` is resolved with `record`: the record
/// is kept under the name, the layer's modifications for the build are
/// folded into the build environment and those for the launch into the
/// launch environment, and the name joins the resolved layers.
pub open spec fn resolved_with(before: ManagerView, name: Seq<char>, record: RecordView) -> ManagerView {
    ManagerView {
        store: before.store.insert(name, record),
        build_env: compose(before.build_env, record.env, Scope::Build),
        launch_env: compose(before.launch_env, record.env, Scope::Launch),
        resolved: before.resolved.push(name),
    }
}

/// Layers are folded in in the order in which they are resolved: the
/// second layer is composed onto what the first has left, for the build and
/// for the launch, and the first is not touched by the second.
pub proof fn law_layers_fold_in_order(
    before: ManagerView,
    first_name: Seq<char>,
    first: RecordView,
    second_name: Seq<char>,
    second: RecordView,
)
    ensures
        resolved_with(before, first_name, first).build_env == compose(
            before.build_env,
            first.env,
            Scope::Build,
        ),
        resolved_with(
            resolved_with(before, first_name, first),
            second_name,
            second,
        ).build_env == compose(
            compose(before.build_env, first.env, Scope::Build),
            second.env,
            Scope::Build,
        ),
        resolved_with(
            resolved_with(before, first_name, first),
            second_name,
            second,
        ).launch_env == compose(
            compose(before.launch_env, first.env, Scope::Launch),
            second.env,
            Scope::Launch,
        ),
        resolved_with(resolved_with(before, first_name, first), second_name, second).resolved
            == before.resolved.push(first_name).push(second_name),
{
}

impl View for LayerManager {
    type V = ManagerView;

    closed spec fn view(&self) -> ManagerView {
        ManagerView {
            store: self.store@,
            build_env: self.build_env@,
            launch_env: self.launch_env@,
            resolved: self.resolved@.map_values(|name: LayerName| name@),
        }
    }
}

/// A layer whose operations the driver has yet to perform.
#[derive(Debug)]
pub struct PendingLayer {
    manager: LayerManager,
    name: LayerName,
    types: LayerTypes,
    state: LayerState,
    operations: Vec<Operation>,
}

/// A pending layer, as contracts speak of it.
pub struct PendingView {
    /// The manager as it waits: what was cached for a layer that is to be
    /// recreated is gone from its store.
    pub manager: ManagerView,
    pub name: Seq<char>,
    pub types: LayerTypes,
    /// `Absent` or `Stale`.
    pub state: LayerState,
    /// What the driver has to perform, in order.
    pub operations: Seq<OperationView>,
}

impl View for PendingLayer {
    type V = PendingView;

    closed spec fn view(&self) -> PendingView {
        PendingView {
            manager: self.manager@,
            name: self.name@,
            types: self.types,
            state: self.state,
            operations: operations_view(self.operations@),
        }
    }
}

/// How the manager goes on with a layer.
#[derive(Debug)]
pub enum Handling {
    /// The layer is resolved: what was cached is used as it is.
    Resolved(LayerManager),
    /// The driver has operations to perform first.
    Pending(PendingLayer),
}

/// The manager as it waits for the operations of a decision: for a layer
/// that is recreated its record is dropped, else nothing changes.
pub open spec fn waiting(before: ManagerView, name: Seq<char>, decision: ReuseDecision) -> ManagerView {
    if decision == ReuseDecision::Recreate {
        ManagerView { store: before.store.remove(name), ..before }
    } else {
        before
    }
}

impl LayerManager {
    /// The manager at the start of a build: `store` holds what earlier
    /// builds left behind, `env` is the base environment of the build and
    /// of the launch, and no layer is resolved.
    pub fn new(store: MetadataStore, env: Env) -> (r: Self)
        ensures
            r@ == (ManagerView {
                store: store@,
                build_env: env@,
                launch_env: env@,
                resolved: Seq::empty(),
            }),
    {
        let launch_env = env.clone();
        let r = LayerManager { store, build_env: env, launch_env, resolved: Vec::new() };
        proof {
            assert(r@.resolved =~= Seq::<Seq<char>>::empty());
        }
        r
    }

    /// The environment that the next layer is built in: the base
    /// environment with the build view of each resolved layer folded in, in
    /// the order in which the layers were resolved.
    pub fn build_env(&self) -> (r: &Env)
        ensures
            r@ == self@.build_env,
    {
        &self.build_env
    }

    /// The environment of the launched process: the base environment with
    /// the launch view of each resolved layer folded in, in order.
    pub fn launch_env(&self) -> (r: &Env)
        ensures
            r@ == self@.launch_env,
    {
        &self.launch_env
    }

    /// The bundler layer for `version`, whose commands run in the build
    /// environment as the layers resolved so far have left it. There is none
    /// where that environment does not set `GEM_PATH`.
    pub fn download_bundler_layer(&self, version: BundlerVersion) -> (r: Option<
        DownloadBundlerLayer,
    >)
        ensures
            r is Some == self@.build_env.contains_key(gem_path_name()),
            r matches Some(layer) ==> layer.version() == version && layer.env()
                == self@.build_env,
    {
        DownloadBundlerLayer::new(version, self.build_env.clone())
    }

    /// The records of the layers.
    pub fn store(&self) -> (r: &MetadataStore)
        ensures
            r@ == self@.store,
    {
        &self.store
    }

    /// The number of layers resolved in this build.
    pub fn resolved_count(&self) -> (r: usize)
        ensures
            r == self@.resolved.len(),
    {
        self.resolved.len()
    }

    /// The name of the layer that was resolved as number `index` of this
    /// build, counted from zero.
    pub fn resolved_name(&self, index: usize) -> (r: Option<&LayerName>)
        ensures
            match r {
                Some(name) => index < self@.resolved.len() && name@ == self@.resolved[index as int],
                None => index >= self@.resolved.len(),
            },
    {
        if index < self.resolved.len() {
            Some(&self.resolved[index])
        } else {
            None
        }
    }

    /// The state of the layer `name` in this build: resolved or not yet
    /// looked at.
    pub fn state_of(&self, name: &LayerName) -> (r: LayerState)
        ensures
            r == if self@.resolved.contains(name@) {
                LayerState::Resolved
            } else {
                LayerState::Uninitialized
            },
    {
        let mut i: usize = 0;
        while i < self.resolved.len()
            invariant
                i <= self.resolved.len(),
                forall|k: int| 0 <= k < i ==> self@.resolved[k] != name@,
            decreases self.resolved.len() - i,
        {
            let same = self.resolved[i].as_str().to_owned() == name.as_str().to_owned();
            if same {
                proof {
                    assert(self@.resolved[i as int] == name@);
                }
                return LayerState::Resolved;
            }
            i += 1;
        }
        LayerState::Uninitialized
    }

    /// The reuse decision for `layer` under `name`, from what the store
    /// holds. Nothing changes.
    pub fn decide(&self, name: &LayerName, layer: &Layer) -> (r: ReuseDecision)
        ensures
            r == layer_decision(self@.store, name@, *layer),
    {
        let desired = layer.desired_metadata();
        match self.store.load(name) {
            None => ReuseDecision::Create,
            Some(record) => match &record.metadata {
                None => ReuseDecision::Recreate,
                Some(persisted) => {
                    if !same_kind_of(persisted, &desired) {
                        ReuseDecision::Recreate
                    } else if !layer.types().cache {
                        ReuseDecision::Recreate
                    } else {
                        let strategy = match layer.existing_layer_strategy(persisted) {
                            Some(strategy) => strategy,
                            None => if persisted.same_as(&desired) {
                                ExistingLayerStrategy::Keep
                            } else {
                                ExistingLayerStrategy::Update
                            },
                        };
                        match strategy {
                            ExistingLayerStrategy::Keep => ReuseDecision::Keep,
                            ExistingLayerStrategy::Update => if layer.has_update() {
                                ReuseDecision::Update
                            } else {
                                ReuseDecision::Recreate
                            },
                            ExistingLayerStrategy::Recreate => ReuseDecision::Recreate,
                        }
                    }
                },
            },
        }
    }

    /// Takes up the layer `name`.
    ///
    /// Where the decision is to keep what is cached, the layer is resolved
    /// at once, with the record it has. Otherwise the layer is pending: the
    /// driver performs the operations in order (for an update the cached
    /// metadata goes with it), and then completes the layer.
    pub fn handle_layer(self, name: LayerName, layer: &Layer) -> (r: Handling)
        ensures
            match r {
                Handling::Resolved(manager) => {
                    &&& layer_decision(self@.store, name@, *layer) == ReuseDecision::Keep
                    &&& self@.store.contains_key(name@)
                    &&& manager@ == resolved_with(self@, name@, self@.store[name@])
                    &&& manager@.store == self@.store
                },
                Handling::Pending(pending) => {
                    let decision = layer_decision(self@.store, name@, *layer);
                    &&& decision != ReuseDecision::Keep
                    &&& pending@ == (PendingView {
                        manager: waiting(self@, name@, decision),
                        name: name@,
                        types: layer.spec_types(),
                        state: state_for(decision),
                        operations: operations(decision, layer_cached(self@.store, name@, *layer)),
                    })
                },
            },
    {
        let decision = self.decide(&name, layer);
        let types = layer.types();
        let mut manager = self;
        match decision {
            ReuseDecision::Keep => {
                let (build_env, launch_env) = match manager.store.load(&name) {
                    Some(record) => (
                        record.env.apply(Scope::Build, &manager.build_env),
                        record.env.apply(Scope::Launch, &manager.launch_env),
                    ),
                    None => (manager.build_env.clone(), manager.launch_env.clone()),
                };
                let ghost before = manager@;
                manager.build_env = build_env;
                manager.launch_env = launch_env;
                manager.resolved.push(name);
                proof {
                    assert(manager@.resolved =~= before.resolved.push(name@));
                    assert(before.store.insert(name@, before.store[name@]) =~= before.store);
                }
                Handling::Resolved(manager)
            },
            ReuseDecision::Create => {
                let mut ops: Vec<Operation> = Vec::new();
                ops.push(Operation::Create);
                proof {
                    assert(operations_view(ops@) =~= seq![OperationView::Create]);
                }
                Handling::Pending(
                    PendingLayer {
                        manager,
                        name,
                        types,
                        state: LayerState::Absent,
                        operations: ops,
                    },
                )
            },
            ReuseDecision::Update => {
                let mut ops: Vec<Operation> = Vec::new();
                match manager.store.load(&name) {
                    Some(record) => match &record.metadata {
                        Some(persisted) => {
                            ops.push(Operation::Update(persisted.clone()));
                        },
                        None => {},
                    },
                    None => {},
                }
                proof {
                    assert(operations_view(ops@) =~= operations(
                        decision,
                        layer_cached(manager@.store, name@, *layer),
                    ));
                }
                Handling::Pending(
                    PendingLayer { manager, name, types, state: LayerState::Stale, operations: ops },
                )
            },
            ReuseDecision::Recreate => {
                let mut ops: Vec<Operation> = Vec::new();
                ops.push(Operation::Delete);
                ops.push(Operation::Create);
                proof {
                    assert(operations_view(ops@) =~= seq![
                        OperationView::Delete,
                        OperationView::Create,
                    ]);
                }
                manager.store.remove(&name);
                Handling::Pending(
                    PendingLayer {
                        manager,
                        name,
                        types,
                        state: LayerState::Absent,
                        operations: ops,
                    },
                )
            },
        }
    }
}

/// Whether the two records are of the same kind.
fn same_kind_of(a: &LayerMetadata, b: &LayerMetadata) -> (r: bool)
    ensures
        r == same_kind(a@, b@),
{
    match (a, b) {
        (LayerMetadata::Generic, LayerMetadata::Generic) => true,
        (LayerMetadata::DownloadBundler(_), LayerMetadata::DownloadBundler(_)) => true,
        (LayerMetadata::InAppDirCache(_), LayerMetadata::InAppDirCache(_)) => true,
        _ => false,
    }
}

impl PendingLayer {
    /// The name of the layer.
    pub fn name(&self) -> (r: &LayerName)
        ensures
            r@ == self@.name,
    {
        &self.name
    }

    /// The state of the layer: `Absent` where `create` has to run, `Stale`
    /// where `update` has to run.
    pub fn state(&self) -> (r: LayerState)
        ensures
            r == self@.state,
    {
        self.state
    }

    /// The operations that the driver has to perform, in order.
    pub fn operations(&self) -> (r: &Vec<Operation>)
        ensures
            operations_view(r@) == self@.operations,
    {
        &self.operations
    }

    /// The environment in which the operations run: the build environment
    /// as the layers resolved so far have left it.
    pub fn build_env(&self) -> (r: &Env)
        ensures
            r@ == self@.manager.build_env,
    {
        self.manager.build_env()
    }

    /// Ends the handling of the layer with the outcome of its last
    /// operation.
    ///
    /// On success the layer is resolved: its new metadata and its
    /// modifications are recorded under its name, with its types, and the
    /// modifications are folded into the environments. On failure the error
    /// is handed on as it is, and no layer is resolved.
    pub fn complete<E>(self, outcome: Result<LayerResult, E>) -> (r: Result<LayerManager, E>)
        ensures
            match outcome {
                Ok(result) => r matches Ok(manager) && manager@ == resolved_with(
                    self@.manager,
                    self@.name,
                    RecordView {
                        types: self@.types,
                        metadata: Some(result.metadata@),
                        env: result.env@,
                    },
                ),
                Err(error) => r matches Err(e) && e == error,
            },
    {
        match outcome {
            Ok(result) => {
                let mut manager = self.manager;
                let ghost before = manager@;
                let build_env = result.env.apply(Scope::Build, &manager.build_env);
                let launch_env = result.env.apply(Scope::Launch, &manager.launch_env);
                let record = LayerRecord {
                    types: self.types,
                    metadata: Some(result.metadata),
                    env: result.env,
                };
                manager.store.store(&self.name, record);
                manager.build_env = build_env;
                manager.launch_env = launch_env;
                manager.resolved.push(self.name);
                proof {
                    assert(manager@.resolved =~= before.resolved.push(self@.name));
                }
                Ok(manager)
            },
            Err(error) => Err(error),
        }
    }
}

} // verus!
