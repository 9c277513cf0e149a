use ruby_buildpack::env::Env;
use ruby_buildpack::layer::{CommandOutcome, LayerTypes};
use ruby_buildpack::layer_env::{LayerEnv, ModificationBehavior, Scope};
use ruby_buildpack::layer_name::LayerName;
use ruby_buildpack::layers::default_env_layer::DefaultEnvLayer;
use ruby_buildpack::layers::download_bundler_layer::{
    BundlerVersion, DownloadBundlerLayer, DownloadBundlerLayerMetadata,
};
use ruby_buildpack::layers::in_app_dir_cache_layer::{
    InAppDirCacheLayer, InAppDirCacheLayerMetadata,
};
use ruby_buildpack::layers::{BuildContext, Layer, LayerMetadata, LayerResult, LayerStep};
use ruby_buildpack::manager::{
    Handling, LayerManager, LayerState, Operation, PendingLayer, ReuseDecision,
};
use ruby_buildpack::store::{LayerRecord, MetadataStore};

fn name(text: &str) -> LayerName {
    LayerName::new(text).unwrap()
}

fn gem_env() -> Env {
    let mut env = Env::new();
    env.insert("GEM_PATH", "/layers/gems");
    env
}

fn bundler(version: &str) -> Layer {
    Layer::DownloadBundler(
        DownloadBundlerLayer::new(BundlerVersion::Explicit(version.to_string()), gem_env()).unwrap(),
    )
}

fn dir_cache(path: &str) -> Layer {
    Layer::InAppDirCache(InAppDirCacheLayer { app_dir_path: path.to_string() })
}

fn cache_types() -> LayerTypes {
    LayerTypes { build: true, launch: true, cache: true }
}

fn bundler_record(version: &str, env: LayerEnv) -> LayerRecord {
    LayerRecord {
        types: cache_types(),
        metadata: Some(LayerMetadata::DownloadBundler(DownloadBundlerLayerMetadata {
            version: version.to_string(),
        })),
        env,
    }
}

fn dir_record(path: &str) -> LayerRecord {
    LayerRecord {
        types: cache_types(),
        metadata: Some(LayerMetadata::InAppDirCache(InAppDirCacheLayerMetadata {
            app_dir_path: path.to_string(),
        })),
        env: LayerEnv::new(),
    }
}

fn store_with(layer: &str, record: LayerRecord) -> MetadataStore {
    let mut store = MetadataStore::new();
    store.store(&name(layer), record);
    store
}

fn pending(handling: Handling) -> PendingLayer {
    match handling {
        Handling::Pending(pending) => pending,
        Handling::Resolved(_) => panic!("the layer was resolved at once"),
    }
}

fn resolved(handling: Handling) -> LayerManager {
    match handling {
        Handling::Resolved(manager) => manager,
        Handling::Pending(_) => panic!("the layer is pending"),
    }
}

fn count_creates(ops: &[Operation]) -> usize {
    ops.iter().filter(|op| matches!(op, Operation::Create)).count()
}

fn count_updates(ops: &[Operation]) -> usize {
    ops.iter().filter(|op| matches!(op, Operation::Update(_))).count()
}

#[test]
fn absent_layer_is_created() {
    let manager = LayerManager::new(MetadataStore::new(), Env::new());
    let layer = bundler("2.3.7");
    assert_eq!(manager.decide(&name("bundler"), &layer), ReuseDecision::Create);
    let pending = pending(manager.handle_layer(name("bundler"), &layer));
    assert_eq!(pending.state(), LayerState::Absent);
    assert!(matches!(pending.operations().as_slice(), [Operation::Create]));
    assert_eq!(pending.name().as_str(), "bundler");
}

#[test]
fn identical_metadata_runs_neither_create_nor_update() {
    let cached_env = LayerEnv::new().chainable_insert(
        Scope::All,
        ModificationBehavior::Override,
        "BUNDLE_CLEAN",
        "1",
    );
    let store = store_with("bundler", bundler_record("2.3.7", cached_env));
    let manager = LayerManager::new(store, Env::new());
    let layer = bundler("2.3.7");
    assert_eq!(manager.decide(&name("bundler"), &layer), ReuseDecision::Keep);
    let manager = resolved(manager.handle_layer(name("bundler"), &layer));
    assert_eq!(manager.state_of(&name("bundler")), LayerState::Resolved);
    assert_eq!(manager.resolved_count(), 1);
    assert_eq!(manager.build_env().get("BUNDLE_CLEAN"), Some(&"1".to_string()));
    assert_eq!(manager.launch_env().get("BUNDLE_CLEAN"), Some(&"1".to_string()));
    let record = manager.store().load(&name("bundler")).unwrap();
    assert!(matches!(
        &record.metadata,
        Some(LayerMetadata::DownloadBundler(m)) if m.version == "2.3.7"
    ));
}

#[test]
fn rebuild_with_same_inputs_keeps_what_the_first_build_created() {
    let context = BuildContext { gemfile: "/app/Gemfile".to_string() };
    let layer = bundler("2.3.7");
    let manager = LayerManager::new(MetadataStore::new(), Env::new());
    let first = pending(manager.handle_layer(name("bundler"), &layer));
    let result = match layer.create(&context, &vec![CommandOutcome::Success]) {
        LayerStep::Done(result) => result,
        _ => panic!("create is done after the install"),
    };
    let manager = first.complete::<String>(Ok(result)).unwrap();
    let env_after_first = manager.build_env().to_vec().len();

    let mut store = MetadataStore::new();
    let kept = manager.store().load(&name("bundler")).unwrap();
    store.store(
        &name("bundler"),
        LayerRecord {
            types: kept.types,
            metadata: kept.metadata.clone(),
            env: kept.env.clone(),
        },
    );
    let second = LayerManager::new(store, Env::new());
    assert_eq!(second.decide(&name("bundler"), &layer), ReuseDecision::Keep);
    let second = resolved(second.handle_layer(name("bundler"), &layer));
    assert_eq!(second.build_env().to_vec().len(), env_after_first);
    assert_eq!(second.build_env().get("BUNDLE_GEMFILE"), Some(&"/app/Gemfile".to_string()));
}

#[test]
fn differing_metadata_with_update_runs_update_once_with_old_metadata() {
    let store = store_with("bundler", bundler_record("2.2.0", LayerEnv::new()));
    let manager = LayerManager::new(store, Env::new());
    let layer = bundler("2.3.7");
    assert_eq!(manager.decide(&name("bundler"), &layer), ReuseDecision::Update);
    let pending = pending(manager.handle_layer(name("bundler"), &layer));
    assert_eq!(pending.state(), LayerState::Stale);
    let ops = pending.operations();
    assert_eq!(ops.len(), 1);
    assert_eq!(count_updates(ops), 1);
    assert_eq!(count_creates(ops), 0);
    assert!(matches!(
        &ops[0],
        Operation::Update(LayerMetadata::DownloadBundler(old)) if old.version == "2.2.0"
    ));
}

#[test]
fn differing_metadata_without_update_deletes_and_creates_once() {
    let store = store_with("assets", dir_record("/app/public/assets"));
    let manager = LayerManager::new(store, Env::new());
    let layer = dir_cache("/workspace/public/assets");
    assert_eq!(manager.decide(&name("assets"), &layer), ReuseDecision::Recreate);
    let pending = pending(manager.handle_layer(name("assets"), &layer));
    assert_eq!(pending.state(), LayerState::Absent);
    let ops = pending.operations();
    assert!(matches!(ops.as_slice(), [Operation::Delete, Operation::Create]));
    assert_eq!(count_creates(ops), 1);
    assert_eq!(count_updates(ops), 0);
    let manager = pending.complete::<String>(Ok(LayerResult {
        metadata: layer.desired_metadata(),
        env: LayerEnv::new(),
    }))
    .unwrap();
    let record = manager.store().load(&name("assets")).unwrap();
    assert!(matches!(
        &record.metadata,
        Some(LayerMetadata::InAppDirCache(m)) if m.app_dir_path == "/workspace/public/assets"
    ));
}

#[test]
fn directory_cache_of_the_same_path_is_kept() {
    let store = store_with("assets", dir_record("/app/public/assets"));
    let manager = LayerManager::new(store, Env::new());
    let layer = dir_cache("/app/public/assets");
    assert_eq!(manager.decide(&name("assets"), &layer), ReuseDecision::Keep);
}

#[test]
fn layer_that_is_not_cached_is_recreated_whatever_is_stored() {
    let layer = Layer::DefaultEnv(DefaultEnvLayer::new(vec![(
        "RACK_ENV".to_string(),
        "production".to_string(),
    )]));
    let record = LayerRecord {
        types: LayerTypes { build: true, launch: true, cache: false },
        metadata: Some(LayerMetadata::Generic),
        env: LayerEnv::new(),
    };
    let manager = LayerManager::new(store_with("env_defaults", record), Env::new());
    assert_eq!(manager.decide(&name("env_defaults"), &layer), ReuseDecision::Recreate);
    let pending = pending(manager.handle_layer(name("env_defaults"), &layer));
    assert!(matches!(pending.operations().as_slice(), [Operation::Delete, Operation::Create]));

    let manager = LayerManager::new(MetadataStore::new(), Env::new());
    assert_eq!(manager.decide(&name("env_defaults"), &layer), ReuseDecision::Create);
}

#[test]
fn corrupt_metadata_is_a_cache_miss() {
    let record = LayerRecord { types: cache_types(), metadata: None, env: LayerEnv::new() };
    let manager = LayerManager::new(store_with("bundler", record), Env::new());
    let layer = bundler("2.3.7");
    assert_eq!(manager.decide(&name("bundler"), &layer), ReuseDecision::Recreate);
    let pending = pending(manager.handle_layer(name("bundler"), &layer));
    assert_eq!(pending.state(), LayerState::Absent);
    assert!(matches!(pending.operations().as_slice(), [Operation::Delete, Operation::Create]));
}

#[test]
fn metadata_of_another_kind_is_a_cache_miss() {
    let manager = LayerManager::new(store_with("bundler", dir_record("/app")), Env::new());
    assert_eq!(manager.decide(&name("bundler"), &bundler("2.3.7")), ReuseDecision::Recreate);
}

#[test]
fn failed_operation_hands_the_error_on_and_resolves_nothing() {
    let manager = LayerManager::new(MetadataStore::new(), Env::new());
    let pending = pending(manager.handle_layer(name("bundler"), &bundler("2.3.7")));
    let outcome = pending.complete(Err("gem install failed".to_string()));
    assert_eq!(outcome.err(), Some("gem install failed".to_string()));
}

#[test]
fn completed_layer_is_recorded_and_folded_into_both_environments() {
    let mut base = Env::new();
    base.insert("PATH", "/orig");
    let manager = LayerManager::new(MetadataStore::new(), base);
    assert_eq!(manager.state_of(&name("l1")), LayerState::Uninitialized);
    let layer = dir_cache("/app/tmp");

    let l1 = pending(manager.handle_layer(name("l1"), &layer));
    assert_eq!(l1.build_env().get("PATH"), Some(&"/orig".to_string()));
    let manager = l1
        .complete::<String>(Ok(LayerResult {
            metadata: layer.desired_metadata(),
            env: LayerEnv::new().chainable_insert(
                Scope::Build,
                ModificationBehavior::Override,
                "PATH",
                "/a",
            ),
        }))
        .unwrap();
    assert_eq!(manager.build_env().get("PATH"), Some(&"/a".to_string()));
    assert_eq!(manager.launch_env().get("PATH"), Some(&"/orig".to_string()));

    let l2 = pending(manager.handle_layer(name("l2"), &layer));
    assert_eq!(l2.build_env().get("PATH"), Some(&"/a".to_string()));
    let manager = l2
        .complete::<String>(Ok(LayerResult {
            metadata: layer.desired_metadata(),
            env: LayerEnv::new()
                .chainable_insert(Scope::All, ModificationBehavior::Delimiter, "PATH", ":")
                .chainable_insert(Scope::All, ModificationBehavior::Prepend, "PATH", "/b"),
        }))
        .unwrap();
    assert_eq!(manager.build_env().get("PATH"), Some(&"/b:/a".to_string()));
    assert_eq!(manager.launch_env().get("PATH"), Some(&"/b:/orig".to_string()));

    assert_eq!(manager.resolved_count(), 2);
    assert_eq!(manager.resolved_name(0).unwrap().as_str(), "l1");
    assert_eq!(manager.resolved_name(1).unwrap().as_str(), "l2");
    assert!(manager.resolved_name(2).is_none());
    assert_eq!(manager.state_of(&name("l2")), LayerState::Resolved);
    assert_eq!(manager.state_of(&name("l3")), LayerState::Uninitialized);
    assert_eq!(manager.store().len(), 2);
    let record = manager.store().load(&name("l2")).unwrap();
    assert_eq!(record.types, cache_types());
    assert_eq!(record.env.len(), 2);
}

#[test]
fn bundler_layer_runs_in_the_build_environment_of_the_manager() {
    let manager = LayerManager::new(MetadataStore::new(), Env::new());
    assert!(manager.download_bundler_layer(BundlerVersion::Default).is_none());

    let gems = pending(manager.handle_layer(name("gems"), &dir_cache("/app")));
    let manager = gems
        .complete::<String>(Ok(LayerResult {
            metadata: dir_cache("/app").desired_metadata(),
            env: LayerEnv::new().chainable_insert(
                Scope::Build,
                ModificationBehavior::Override,
                "GEM_PATH",
                "/layers/gems",
            ),
        }))
        .unwrap();
    let layer = manager.download_bundler_layer(BundlerVersion::Default).unwrap();
    assert_eq!(layer.command_env().get("GEM_PATH"), Some(&"/layers/gems".to_string()));
    assert_eq!(layer.version_string(), "2.3.7");
}

#[test]
fn recreated_layer_loses_its_record_until_it_is_completed() {
    let store = store_with("assets", dir_record("/old"));
    let manager = LayerManager::new(store, Env::new());
    let layer = dir_cache("/new");
    let pending = pending(manager.handle_layer(name("assets"), &layer));
    let outcome = pending.complete(Err(7_u8));
    assert_eq!(outcome.err(), Some(7_u8));
}

#[test]
fn store_keeps_one_record_per_layer_name() {
    let mut store = MetadataStore::new();
    assert_eq!(store.len(), 0);
    assert!(store.load(&name("a")).is_none());
    store.store(&name("a"), dir_record("/1"));
    store.store(&name("b"), dir_record("/2"));
    store.store(&name("a"), dir_record("/3"));
    assert_eq!(store.len(), 2);
    assert_eq!(store.names(), vec!["a".to_string(), "b".to_string()]);
    assert!(matches!(
        &store.load(&name("a")).unwrap().metadata,
        Some(LayerMetadata::InAppDirCache(m)) if m.app_dir_path == "/3"
    ));
    let removed = store.remove(&name("a")).unwrap();
    assert!(matches!(
        &removed.metadata,
        Some(LayerMetadata::InAppDirCache(m)) if m.app_dir_path == "/3"
    ));
    assert!(store.remove(&name("a")).is_none());
    assert_eq!(store.names(), vec!["b".to_string()]);
    assert!(store.load(&name("a")).is_none());
}
