use ruby_buildpack::env::Env;
use ruby_buildpack::layer_env::{LayerEnv, ModificationBehavior, Scope};

fn env_of(pairs: &[(&str, &str)]) -> Env {
    let mut env = Env::new();
    for (name, value) in pairs {
        env.insert(name, value);
    }
    env
}

fn value(env: &Env, name: &str) -> Option<String> {
    env.get(name).cloned()
}

fn sorted(env: &Env) -> Vec<(String, String)> {
    let mut pairs = env.to_vec();
    pairs.sort();
    pairs
}

#[test]
fn override_sets_and_replaces() {
    let mods = LayerEnv::new()
        .chainable_insert(Scope::All, ModificationBehavior::Override, "A", "1")
        .chainable_insert(Scope::All, ModificationBehavior::Override, "B", "2");
    let out = mods.apply(Scope::Build, &env_of(&[("A", "old")]));
    assert_eq!(value(&out, "A"), Some("1".to_string()));
    assert_eq!(value(&out, "B"), Some("2".to_string()));
    assert_eq!(out.len(), 2);
}

#[test]
fn apply_leaves_the_base_environment_as_it_was() {
    let base = env_of(&[("A", "old")]);
    let mods = LayerEnv::new()
        .chainable_insert(Scope::All, ModificationBehavior::Override, "A", "new")
        .chainable_insert(Scope::All, ModificationBehavior::Override, "B", "2");
    let out = mods.apply(Scope::Build, &base);
    assert_eq!(value(&base, "A"), Some("old".to_string()));
    assert_eq!(value(&base, "B"), None);
    assert_eq!(base.len(), 1);
    assert_eq!(value(&out, "A"), Some("new".to_string()));
}

#[test]
fn sequential_composition_equals_composition_of_concatenation() {
    let base = env_of(&[("PATH", "/bin"), ("LANG", "C")]);
    let a = LayerEnv::new()
        .chainable_insert(Scope::All, ModificationBehavior::Override, "RACK_ENV", "production")
        .chainable_insert(Scope::Build, ModificationBehavior::Append, "PATH", "/a")
        .chainable_insert(Scope::Launch, ModificationBehavior::Override, "LANG", "en")
        .chainable_insert(Scope::All, ModificationBehavior::Default, "PORT", "80");
    let b = LayerEnv::new()
        .chainable_insert(Scope::All, ModificationBehavior::Delimiter, "PATH", ":")
        .chainable_insert(Scope::All, ModificationBehavior::Prepend, "PATH", "/b")
        .chainable_insert(Scope::All, ModificationBehavior::Default, "RACK_ENV", "development")
        .chainable_insert(Scope::Build, ModificationBehavior::Override, "PORT", "3000");
    for scope in [Scope::Build, Scope::Launch, Scope::All] {
        let stepwise = b.apply(scope, &a.apply(scope, &base));
        let at_once = a.clone().concat(&b).apply(scope, &base);
        assert_eq!(sorted(&stepwise), sorted(&at_once));
    }
    let build = a.clone().concat(&b).apply(Scope::Build, &base);
    assert_eq!(value(&build, "PATH"), Some("/b:/bin /a".to_string()));
    assert_eq!(value(&build, "PORT"), Some("3000".to_string()));
    assert_eq!(value(&build, "RACK_ENV"), Some("production".to_string()));
    assert_eq!(value(&build, "LANG"), Some("C".to_string()));
}

#[test]
fn delimiter_of_an_earlier_composition_is_not_carried_over() {
    let base = env_of(&[("K", "x")]);
    let a = LayerEnv::new().chainable_insert(Scope::All, ModificationBehavior::Delimiter, "K", ":");
    let b = LayerEnv::new().chainable_insert(Scope::All, ModificationBehavior::Append, "K", "y");
    let stepwise = b.apply(Scope::Build, &a.apply(Scope::Build, &base));
    let at_once = a.concat(&b).apply(Scope::Build, &base);
    assert_eq!(value(&stepwise, "K"), Some("x y".to_string()));
    assert_eq!(value(&at_once, "K"), Some("x:y".to_string()));
}

#[test]
fn last_override_wins_over_entries_before_and_after() {
    let mods = LayerEnv::new()
        .chainable_insert(Scope::All, ModificationBehavior::Default, "K", "d0")
        .chainable_insert(Scope::All, ModificationBehavior::Append, "K", "a0")
        .chainable_insert(Scope::All, ModificationBehavior::Override, "K", "first")
        .chainable_insert(Scope::All, ModificationBehavior::Prepend, "K", "pre")
        .chainable_insert(Scope::All, ModificationBehavior::Override, "K", "last")
        .chainable_insert(Scope::All, ModificationBehavior::Default, "K", "d1")
        .chainable_insert(Scope::All, ModificationBehavior::Delimiter, "K", ":")
        .chainable_insert(Scope::All, ModificationBehavior::Override, "OTHER", "o");
    let out = mods.apply(Scope::Build, &env_of(&[("K", "base")]));
    assert_eq!(value(&out, "K"), Some("last".to_string()));
    let out = mods.apply(Scope::Launch, &Env::new());
    assert_eq!(value(&out, "K"), Some("last".to_string()));
}

#[test]
fn join_after_the_last_override_extends_its_value() {
    let mods = LayerEnv::new()
        .chainable_insert(Scope::All, ModificationBehavior::Override, "K", "last")
        .chainable_insert(Scope::All, ModificationBehavior::Append, "K", "more");
    let out = mods.apply(Scope::Build, &Env::new());
    assert_eq!(value(&out, "K"), Some("last more".to_string()));
}

#[test]
fn default_keeps_value_of_base_environment() {
    let mods = LayerEnv::new().chainable_insert(
        Scope::All,
        ModificationBehavior::Default,
        "RAILS_ENV",
        "production",
    );
    let out = mods.apply(Scope::Build, &env_of(&[("RAILS_ENV", "staging")]));
    assert_eq!(value(&out, "RAILS_ENV"), Some("staging".to_string()));
    let out = mods.apply(Scope::Build, &env_of(&[("RAILS_ENV", "")]));
    assert_eq!(value(&out, "RAILS_ENV"), Some("".to_string()));
}

#[test]
fn default_keeps_value_of_earlier_entry() {
    let mods = LayerEnv::new()
        .chainable_insert(Scope::All, ModificationBehavior::Append, "K", "first")
        .chainable_insert(Scope::All, ModificationBehavior::Default, "K", "second");
    let out = mods.apply(Scope::Build, &Env::new());
    assert_eq!(value(&out, "K"), Some("first".to_string()));
}

#[test]
fn default_sets_a_variable_without_value() {
    let mods = LayerEnv::new()
        .chainable_insert(Scope::All, ModificationBehavior::Default, "K", "first")
        .chainable_insert(Scope::All, ModificationBehavior::Default, "K", "second");
    let out = mods.apply_to_empty(Scope::Launch);
    assert_eq!(value(&out, "K"), Some("first".to_string()));
}

#[test]
fn prepend_after_append_with_colon() {
    let mods = LayerEnv::new()
        .chainable_insert(Scope::All, ModificationBehavior::Delimiter, "K", ":")
        .chainable_insert(Scope::All, ModificationBehavior::Append, "K", "a")
        .chainable_insert(Scope::All, ModificationBehavior::Prepend, "K", "b");
    let out = mods.apply(Scope::Build, &Env::new());
    assert_eq!(value(&out, "K"), Some("b:a".to_string()));
}

#[test]
fn append_after_prepend_with_colon() {
    let mods = LayerEnv::new()
        .chainable_insert(Scope::All, ModificationBehavior::Delimiter, "K", ":")
        .chainable_insert(Scope::All, ModificationBehavior::Prepend, "K", "a")
        .chainable_insert(Scope::All, ModificationBehavior::Append, "K", "b");
    let out = mods.apply(Scope::Build, &Env::new());
    assert_eq!(value(&out, "K"), Some("a:b".to_string()));
}

#[test]
fn join_without_delimiter_falls_back_to_a_space() {
    let mods = LayerEnv::new()
        .chainable_insert(Scope::All, ModificationBehavior::Append, "K", "b")
        .chainable_insert(Scope::All, ModificationBehavior::Prepend, "K", "c");
    let out = mods.apply(Scope::Build, &env_of(&[("K", "a")]));
    assert_eq!(value(&out, "K"), Some("c a b".to_string()));
}

#[test]
fn delimiter_after_a_join_does_not_reach_back() {
    let mods = LayerEnv::new()
        .chainable_insert(Scope::All, ModificationBehavior::Append, "K", "b")
        .chainable_insert(Scope::All, ModificationBehavior::Delimiter, "K", ":")
        .chainable_insert(Scope::All, ModificationBehavior::Append, "K", "c");
    let out = mods.apply(Scope::Build, &env_of(&[("K", "a")]));
    assert_eq!(value(&out, "K"), Some("a b:c".to_string()));
}

#[test]
fn delimiter_sets_no_value_and_is_kept_per_variable() {
    let mods = LayerEnv::new()
        .chainable_insert(Scope::All, ModificationBehavior::Delimiter, "K", ":")
        .chainable_insert(Scope::All, ModificationBehavior::Append, "L", "y");
    let out = mods.apply(Scope::Build, &env_of(&[("L", "x")]));
    assert_eq!(value(&out, "K"), None);
    assert_eq!(value(&out, "L"), Some("x y".to_string()));
}

#[test]
fn join_onto_an_empty_value_still_uses_the_delimiter() {
    let mods = LayerEnv::new()
        .chainable_insert(Scope::All, ModificationBehavior::Delimiter, "K", ":")
        .chainable_insert(Scope::All, ModificationBehavior::Append, "K", "a");
    let out = mods.apply(Scope::Build, &env_of(&[("K", "")]));
    assert_eq!(value(&out, "K"), Some(":a".to_string()));
}

#[test]
fn build_entries_stay_out_of_launch_and_launch_entries_out_of_build() {
    let mods = LayerEnv::new()
        .chainable_insert(Scope::Build, ModificationBehavior::Override, "B", "build")
        .chainable_insert(Scope::Launch, ModificationBehavior::Override, "L", "launch")
        .chainable_insert(Scope::All, ModificationBehavior::Override, "A", "all");
    let build = mods.apply(Scope::Build, &Env::new());
    assert_eq!(sorted(&build), vec![
        ("A".to_string(), "all".to_string()),
        ("B".to_string(), "build".to_string()),
    ]);
    let launch = mods.apply(Scope::Launch, &Env::new());
    assert_eq!(sorted(&launch), vec![
        ("A".to_string(), "all".to_string()),
        ("L".to_string(), "launch".to_string()),
    ]);
    let all = mods.apply(Scope::All, &Env::new());
    assert_eq!(sorted(&all), vec![("A".to_string(), "all".to_string())]);
}

#[test]
fn visible_lists_the_entries_of_a_scope_in_order() {
    let mods = LayerEnv::new()
        .chainable_insert(Scope::Build, ModificationBehavior::Override, "B", "build")
        .chainable_insert(Scope::Launch, ModificationBehavior::Override, "L", "launch")
        .chainable_insert(Scope::All, ModificationBehavior::Append, "A", "all");
    let launch = mods.visible(Scope::Launch);
    assert_eq!(launch.len(), 2);
    assert_eq!(launch.get(0).unwrap().key, "L");
    assert_eq!(launch.get(0).unwrap().scope, Scope::Launch);
    assert_eq!(launch.get(1).unwrap().key, "A");
    assert_eq!(launch.get(1).unwrap().behavior, ModificationBehavior::Append);
    assert!(launch.get(2).is_none());
    let build = mods.visible(Scope::Build);
    assert_eq!(build.len(), 2);
    assert_eq!(build.get(0).unwrap().key, "B");
    assert_eq!(build.get(1).unwrap().value, "all");
    assert_eq!(mods.visible(Scope::All).len(), 1);
    assert!(Scope::Build.includes(Scope::All));
    assert!(Scope::Build.includes(Scope::Build));
    assert!(!Scope::Build.includes(Scope::Launch));
    assert!(!Scope::All.includes(Scope::Launch));
}

#[test]
fn two_layers_end_to_end() {
    let base = env_of(&[("PATH", "/orig")]);
    let l1 = LayerEnv::new().chainable_insert(
        Scope::Build,
        ModificationBehavior::Override,
        "PATH",
        "/a",
    );
    let l2 = LayerEnv::new()
        .chainable_insert(Scope::All, ModificationBehavior::Delimiter, "PATH", ":")
        .chainable_insert(Scope::All, ModificationBehavior::Prepend, "PATH", "/b");
    let build = l2.apply(Scope::Build, &l1.apply(Scope::Build, &base));
    assert_eq!(value(&build, "PATH"), Some("/b:/a".to_string()));
    let launch = l2.apply(Scope::Launch, &l1.apply(Scope::Launch, &base));
    assert_eq!(value(&launch, "PATH"), Some("/b:/orig".to_string()));
    assert_eq!(value(&base, "PATH"), Some("/orig".to_string()));
}

#[test]
fn insert_and_concat_keep_insertion_order() {
    let mut mods = LayerEnv::new();
    mods.insert(Scope::All, ModificationBehavior::Override, "Z", "1");
    mods.insert(Scope::Build, ModificationBehavior::Default, "A", "2");
    let more = LayerEnv::new().chainable_insert(Scope::Launch, ModificationBehavior::Append, "M", "3");
    let all = mods.concat(&more);
    assert_eq!(all.len(), 3);
    assert_eq!(all.get(0).unwrap().key, "Z");
    assert_eq!(all.get(1).unwrap().key, "A");
    assert_eq!(all.get(2).unwrap().key, "M");
    assert_eq!(all.get(2).unwrap().scope, Scope::Launch);
    assert_eq!(all.get(2).unwrap().value, "3");
    assert_eq!(more.len(), 1);
}
