use cairo_listings::cmd::ScarbCmd;
use cairo_listings::error_sets::ErrorSets;
use cairo_listings::report::{summarize, title};

#[test]
fn summary_has_a_section_for_each_check_with_failures() {
    let mut errors = ErrorSets::new();
    errors.record(&ScarbCmd::Format(), "f1");
    errors.record(&ScarbCmd::Format(), "f2");
    errors.record(&ScarbCmd::Format(), "f1");
    errors.record(&ScarbCmd::CairoRun(), "r1");
    let summary = summarize(&errors.snapshot());
    assert_eq!(summary.total, 3);
    assert_eq!(summary.exit_code(), 1);
    assert_eq!(summary.sections.len(), 2);
    assert_eq!(summary.sections[0].check, ScarbCmd::CairoRun());
    assert_eq!(summary.sections[0].title, "Run Errors");
    assert_eq!(summary.sections[0].members, vec!["r1"]);
    assert_eq!(summary.sections[1].check, ScarbCmd::Format());
    assert_eq!(summary.sections[1].title, "Format Errors");
    assert_eq!(summary.sections[1].members, vec!["f1", "f2"]);
}

#[test]
fn summary_of_a_clean_run_is_empty() {
    let summary = summarize(&ErrorSets::new().snapshot());
    assert_eq!(summary.total, 0);
    assert_eq!(summary.exit_code(), 0);
    assert!(summary.sections.is_empty());
}

#[test]
fn sections_come_in_the_order_compile_run_test_format() {
    let mut errors = ErrorSets::new();
    errors.record(&ScarbCmd::Format(), "x");
    errors.record(&ScarbCmd::Test(), "x");
    errors.record(&ScarbCmd::CairoRun(), "x");
    errors.record(&ScarbCmd::Build(), "x");
    let summary = summarize(&errors.snapshot());
    let titles: Vec<String> = summary.sections.iter().map(|s| s.title.clone()).collect();
    assert_eq!(titles, vec!["Compile Errors", "Run Errors", "Test Errors", "Format Errors"]);
    assert_eq!(summary.total, 4);
    assert_eq!(title(ScarbCmd::Build()), "Compile Errors");
    assert_eq!(title(ScarbCmd::Test()), "Test Errors");
}
