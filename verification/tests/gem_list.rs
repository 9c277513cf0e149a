use ruby_buildpack::gem_list::{GemList, GemListError};
use ruby_buildpack::gem_version::GemVersion;

#[test]
fn test_parsing_gem_list() {
    let gem_list = GemList::from_str(
        r#"
Gems included by the bundle:
  * actioncable (6.1.4.1)
  * actionmailbox (6.1.4.1)
  * actionmailer (6.1.4.1)
  * actionpack (6.1.4.1)
  * actiontext (6.1.4.1)
  * actionview (6.1.4.1)
  * activejob (6.1.4.1)
  * activemodel (6.1.4.1)
  * activerecord (6.1.4.1)
  * activestorage (6.1.4.1)
  * activesupport (6.1.4.1)
  * addressable (2.8.0)
  * ast (2.4.2)
  * railties (6.1.4.1)
Use `bundle info` to print more detailed information about a gem
            "#,
    )
    .unwrap();

    assert!(gem_list.has("railties"));
    assert!(!gem_list.has("foo"));

    assert_eq!(
        gem_list.version_for("railties").unwrap(),
        &GemVersion::from_str("6.1.4.1").unwrap()
    );
    assert_eq!(gem_list.version_for("foo"), None);

    assert_eq!(gem_list.gems.len(), 14);
}

#[test]
fn gem_list_of_empty_output_is_empty() {
    let gem_list = GemList::from_str("").unwrap();
    assert_eq!(gem_list.gems.len(), 0);
    assert!(!gem_list.has("rails"));
}

#[test]
fn gem_names_are_kept_in_lower_case() {
    let gem_list = GemList::from_str("  * RedCloth (4.3.2)\n").unwrap();
    assert_eq!(gem_list.gems.len(), 1);
    assert!(gem_list.gems.contains_key("redcloth"));
    assert!(!gem_list.gems.contains_key("RedCloth"));
    assert_eq!(gem_list.gems.get("redcloth").unwrap().as_str(), "4.3.2");
}

#[test]
fn gem_lookup_ignores_case_and_surrounding_space() {
    let gem_list = GemList::from_str("  * rake (13.0.6)\n").unwrap();
    assert!(gem_list.has("  Rake\t"));
    assert!(gem_list.has("RAKE"));
    assert!(gem_list.has("\u{3000}rake\u{2028}"));
    assert!(!gem_list.has("ra ke"));
    assert_eq!(gem_list.version_for(" RAKE ").unwrap().as_str(), "13.0.6");
}

#[test]
fn later_entry_replaces_earlier_entry_of_same_gem() {
    let gem_list = GemList::from_str("  * rake (12.0.0)\n  * Rake (13.0.6)\n").unwrap();
    assert_eq!(gem_list.gems.len(), 1);
    assert_eq!(gem_list.version_for("rake").unwrap().as_str(), "13.0.6");
}

#[test]
fn lines_that_are_no_entries_are_passed_over() {
    let gem_list = GemList::from_str(" * rake (13.0.6)\n  * rack 2.2.3\n  * (1.0)\n  * puma (5.6.2)")
        .unwrap();
    assert_eq!(gem_list.gems.len(), 1);
    assert!(gem_list.has("puma"));
    assert!(!gem_list.has("rake"));
    assert!(!gem_list.has("rack"));
}

#[test]
fn from_captures_takes_name_and_version_groups() {
    let captures = vec![
        vec![
            Some("  * Puma (5.6.2)".to_string()),
            Some("Puma".to_string()),
            Some("5.6.2".to_string()),
        ],
        vec![Some("x".to_string()), Some("thor".to_string()), None],
        vec![Some("y".to_string()), Some("rack".to_string()), Some("not a version".to_string())],
        vec![Some("z".to_string())],
    ];
    let gem_list = GemList::from_captures(&captures);
    assert_eq!(gem_list.gems.len(), 4);
    assert_eq!(gem_list.gems.get("puma").unwrap().as_str(), "5.6.2");
    assert_eq!(gem_list.gems.get("thor").unwrap().as_str(), "0.0.0");
    assert_eq!(gem_list.gems.get("rack").unwrap(), &GemVersion::default());
    assert_eq!(gem_list.gems.get("").unwrap().as_str(), "0.0.0");
}

#[test]
fn gem_version_accepts_letters_digits_and_dots_only() {
    assert_eq!(GemVersion::from_str("6.1.4.1").unwrap().as_str(), "6.1.4.1");
    assert_eq!(GemVersion::from_str("2.0.0.rc1").unwrap().as_str(), "2.0.0.rc1");
    assert!(GemVersion::from_str("").is_none());
    assert!(GemVersion::from_str("1.0-beta").is_none());
    assert!(GemVersion::from_str("1.0 ").is_none());
    assert!(GemVersion::from_str("1.\u{e9}").is_none());
    assert_eq!(GemVersion::default().as_str(), "0.0.0");
}

#[test]
fn failure_of_bundle_list_is_handed_on() {
    let error = GemList::from_bundle_list(Err("no such file".to_string())).unwrap_err();
    assert!(matches!(
        error,
        GemListError::BundleListShellCommandError(ref text) if text == "no such file"
    ));
}

#[test]
fn output_of_bundle_list_is_read_as_a_gem_list() {
    let gem_list =
        GemList::from_bundle_list(Ok("Gems included by the bundle:\n  * rake (13.0.6)\n".to_string()))
            .unwrap();
    assert_eq!(gem_list.gems.len(), 1);
    assert_eq!(gem_list.version_for("rake").unwrap().as_str(), "13.0.6");
    let command = GemList::bundle_list();
    assert_eq!(command.program, "bundle");
    assert_eq!(command.args, vec!["list".to_string()]);
}

#[test]
fn gem_lookup_trims_unicode_white_space_only() {
    let gem_list = GemList::from_str("  * rake (13.0.6)\n").unwrap();
    assert!(gem_list.has("\u{85}rake\u{a0}"));
    assert!(gem_list.has("\u{1680}rake\u{2000}"));
    assert!(gem_list.has("\u{200a}rake\u{202f}"));
    assert!(gem_list.has("\u{205f}rake\u{2029}"));
    assert!(gem_list.has("\u{b}\u{c}\r\nrake\u{9}"));
    assert!(!gem_list.has("\u{200b}rake"));
    assert!(!gem_list.has("rake\u{180e}"));
    assert!(!gem_list.has("\u{1c}rake"));
    assert!(!gem_list.has("rake\u{feff}"));
}
