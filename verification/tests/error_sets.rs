use cairo_listings::cmd::{ErrorCategory, ScarbCmd};
use cairo_listings::error_sets::{ErrorSets, ListingSet};

#[test]
fn recording_the_same_failure_twice_counts_once() {
    let mut errors = ErrorSets::new();
    errors.record(&ScarbCmd::Build(), "listings/a/Scarb.toml");
    errors.record(&ScarbCmd::Build(), "listings/a/Scarb.toml");
    assert_eq!(errors.compile_errors.len(), 1);
    assert_eq!(errors.total(), 1);
    assert_eq!(errors.exit_code(), 1);
    assert_eq!(errors.compile_errors.members(), &vec!["listings/a/Scarb.toml".to_string()]);
}

#[test]
fn new_error_sets_are_empty() {
    let errors = ErrorSets::new();
    assert!(errors.compile_errors.is_empty());
    assert!(errors.run_errors.is_empty());
    assert!(errors.test_errors.is_empty());
    assert!(errors.format_errors.is_empty());
    assert_eq!(errors.total(), 0);
    assert_eq!(errors.exit_code(), 0);
}

#[test]
fn each_check_has_its_own_set() {
    let mut errors = ErrorSets::new();
    errors.record(&ScarbCmd::Build(), "a");
    errors.record(&ScarbCmd::CairoRun(), "a");
    errors.record(&ScarbCmd::Test(), "b");
    errors.record(&ScarbCmd::Format(), "c");
    errors.record(&ScarbCmd::Format(), "d");
    assert_eq!(errors.compile_errors.len(), 1);
    assert_eq!(errors.run_errors.len(), 1);
    assert_eq!(errors.test_errors.len(), 1);
    assert_eq!(errors.format_errors.len(), 2);
    assert_eq!(errors.total(), 5);
    assert!(errors.error_set(&ScarbCmd::Test()).contains("b"));
    assert!(!errors.error_set(&ScarbCmd::Test()).contains("a"));
    assert!(errors.error_set(&ScarbCmd::CairoRun()).contains("a"));
}

#[test]
fn get_mut_error_set_gives_the_set_of_the_check() {
    let mut errors = ErrorSets::new();
    errors.get_mut_error_set(&ScarbCmd::CairoRun()).insert("x".to_string());
    assert!(errors.run_errors.contains("x"));
    assert!(errors.compile_errors.is_empty());
    errors.get_mut_error_set(&ScarbCmd::Format()).insert("y".to_string());
    assert!(errors.format_errors.contains("y"));
    errors.get_mut_error_set(&ScarbCmd::Build()).insert("z".to_string());
    assert!(errors.compile_errors.contains("z"));
    errors.get_mut_error_set(&ScarbCmd::Test()).insert("w".to_string());
    assert!(errors.test_errors.contains("w"));
    assert_eq!(errors.total(), 4);
}

#[test]
fn listing_set_keeps_each_member_once_in_order() {
    let mut set = ListingSet::new();
    assert!(set.insert("b".to_string()));
    assert!(set.insert("a".to_string()));
    assert!(!set.insert("b".to_string()));
    assert_eq!(set.len(), 2);
    assert_eq!(set.members(), &vec!["b".to_string(), "a".to_string()]);
    assert!(set.contains("a"));
    assert!(!set.contains("c"));
    assert!(!set.is_empty());
}

#[test]
fn snapshot_shows_what_the_sets_hold() {
    let mut errors = ErrorSets::new();
    errors.record(&ScarbCmd::Build(), "b");
    errors.record(&ScarbCmd::Build(), "a");
    errors.record(&ScarbCmd::Build(), "b");
    errors.record(&ScarbCmd::Format(), "f");
    let snapshot = errors.snapshot();
    assert_eq!(snapshot.compile_errors, vec!["b", "a"]);
    assert!(snapshot.run_errors.is_empty());
    assert!(snapshot.test_errors.is_empty());
    assert_eq!(snapshot.format_errors, vec!["f"]);
    assert_eq!(snapshot.members(ScarbCmd::Build()), &vec!["b".to_string(), "a".to_string()]);
    assert_eq!(snapshot.total(), 3);
    errors.record(&ScarbCmd::Test(), "t");
    assert_eq!(snapshot.total(), 3);
    assert_eq!(errors.total(), 4);
}

#[test]
fn categories_of_the_checks() {
    assert_eq!(ScarbCmd::Build().category(), ErrorCategory::Compile);
    assert_eq!(ScarbCmd::CairoRun().category(), ErrorCategory::Run);
    assert_eq!(ScarbCmd::Test().category(), ErrorCategory::Test);
    assert_eq!(ScarbCmd::Format().category(), ErrorCategory::Format);
    for c in [ErrorCategory::Compile, ErrorCategory::Run, ErrorCategory::Test, ErrorCategory::Format] {
        assert_eq!(c.check().category(), c);
    }
    assert_eq!(ErrorCategory::Compile.name(), "Compile Errors");
    assert_eq!(ErrorCategory::Run.name(), "Run Errors");
    assert_eq!(ErrorCategory::Test.name(), "Test Errors");
    assert_eq!(ErrorCategory::Format.name(), "Format Errors");
}
