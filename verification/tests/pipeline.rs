use cairo_listings::classify::{scan_source, Kind};
use cairo_listings::cmd::ScarbCmd;
use cairo_listings::error_sets::ErrorSets;
use cairo_listings::report::summarize;
use cairo_listings::runner::{
    action_command_line, advance, error_notice, extra_args_of, handle_error, next_action, start,
    Action, Mode,
};
use cairo_listings::select::{select_checks, SkipFlags};

fn no_skips() -> SkipFlags {
    SkipFlags {
        formats_skip: false,
        starknet_skip: false,
        compile_skip: false,
        run_skip: false,
        test_skip: false,
    }
}

fn run_listing(source: &str, id: &str, fails: &[ScarbCmd], errors: &mut ErrorSets) -> Vec<ScarbCmd> {
    let profile = scan_source(source);
    let checks = select_checks(&profile.classification, &profile.tags, &no_skips());
    let mut invoked = Vec::new();
    let mut p = start();
    loop {
        match next_action(&checks, &p) {
            Action::Finished => break,
            Action::Invoke { check: _, command } => {
                invoked.push(command);
                p = advance(&checks, p, !fails.contains(&command), id, errors);
            }
        }
    }
    invoked
}

#[test]
fn plain_listing_that_passes_leaves_no_failure() {
    let mut errors = ErrorSets::new();
    let source = "fn helper() -> u32 {\n    1\n}\n";
    assert_eq!(scan_source(source).classification.kind, Kind::Plain);
    let invoked = run_listing(source, "listings/a/Scarb.toml", &[], &mut errors);
    assert_eq!(invoked, vec![ScarbCmd::Build(), ScarbCmd::Format()]);
    assert_eq!(errors.total(), 0);
    let summary = summarize(&errors.snapshot());
    assert!(summary.sections.is_empty());
    assert_eq!(summary.exit_code(), 0);
    assert_eq!(errors.exit_code(), 0);
}

#[test]
fn runnable_listing_tagged_does_not_run_skips_the_run() {
    let mut errors = ErrorSets::new();
    let invoked = run_listing(
        "// TAG: does_not_run\nfn main() {}\n",
        "listings/b/Scarb.toml",
        &[],
        &mut errors,
    );
    assert!(!invoked.contains(&ScarbCmd::CairoRun()));
    assert_eq!(invoked, vec![ScarbCmd::Build(), ScarbCmd::Format()]);
}

#[test]
fn contract_whose_build_fails_is_recorded_once_under_compile() {
    let mut errors = ErrorSets::new();
    let id = "listings/c/Scarb.toml";
    let invoked = run_listing(
        "#[starknet::contract]\nmod c {}\n",
        id,
        &[ScarbCmd::Build()],
        &mut errors,
    );
    assert_eq!(invoked, vec![ScarbCmd::Build(), ScarbCmd::Format()]);
    assert_eq!(errors.compile_errors.members(), &vec![id.to_string()]);
    assert!(errors.run_errors.is_empty());
    assert!(errors.test_errors.is_empty());
    assert!(errors.format_errors.is_empty());
    assert_eq!(errors.total(), 1);
    let summary = summarize(&errors.snapshot());
    assert_eq!(summary.sections.len(), 1);
    assert_eq!(summary.sections[0].check, ScarbCmd::Build());
    assert_eq!(summary.sections[0].title, "Compile Errors");
    assert_eq!(summary.sections[0].members, vec![id.to_string()]);
    assert_eq!(summary.total, 1);
    assert_eq!(summary.exit_code(), 1);
}

#[test]
fn run_check_builds_first_and_then_runs() {
    let checks = vec![ScarbCmd::CairoRun()];
    let mut errors = ErrorSets::new();
    let p = start();
    assert_eq!(
        next_action(&checks, &p),
        Action::Invoke { check: ScarbCmd::CairoRun(), command: ScarbCmd::Build() }
    );
    let p = advance(&checks, p, true, "x", &mut errors);
    assert_eq!(
        next_action(&checks, &p),
        Action::Invoke { check: ScarbCmd::CairoRun(), command: ScarbCmd::CairoRun() }
    );
    let p = advance(&checks, p, true, "x", &mut errors);
    assert_eq!(next_action(&checks, &p), Action::Finished);
    assert_eq!(errors.total(), 0);
    let p = advance(&checks, p, false, "x", &mut errors);
    assert_eq!(next_action(&checks, &p), Action::Finished);
    assert_eq!(errors.total(), 0);
}

#[test]
fn failed_build_before_a_run_counts_as_a_failed_run() {
    let checks = vec![ScarbCmd::CairoRun(), ScarbCmd::Format()];
    let mut errors = ErrorSets::new();
    let p = advance(&checks, start(), false, "x", &mut errors);
    assert!(errors.run_errors.contains("x"));
    assert!(errors.compile_errors.is_empty());
    assert_eq!(
        next_action(&checks, &p),
        Action::Invoke { check: ScarbCmd::Format(), command: ScarbCmd::Format() }
    );
}

#[test]
fn a_failure_does_not_stop_the_checks_that_follow() {
    let mut errors = ErrorSets::new();
    let invoked = run_listing(
        "fn main() {}\n#[test]\nfn t() {}\n",
        "m",
        &[ScarbCmd::Build(), ScarbCmd::Test(), ScarbCmd::Format()],
        &mut errors,
    );
    assert_eq!(
        invoked,
        vec![ScarbCmd::Build(), ScarbCmd::Build(), ScarbCmd::Test(), ScarbCmd::Format()]
    );
    assert_eq!(errors.compile_errors.len(), 1);
    assert_eq!(errors.run_errors.len(), 1);
    assert_eq!(errors.test_errors.len(), 1);
    assert_eq!(errors.format_errors.len(), 1);
    assert_eq!(errors.total(), 4);
}

#[test]
fn extra_arguments_of_each_command() {
    assert_eq!(extra_args_of(ScarbCmd::CairoRun(), Mode::Verify), vec!["--available-gas=200000000"]);
    assert_eq!(extra_args_of(ScarbCmd::CairoRun(), Mode::Format), vec!["--available-gas=200000000"]);
    assert_eq!(extra_args_of(ScarbCmd::Format(), Mode::Verify), vec!["-c"]);
    assert_eq!(extra_args_of(ScarbCmd::Format(), Mode::Format), Vec::<String>::new());
    assert_eq!(extra_args_of(ScarbCmd::Build(), Mode::Verify), Vec::<String>::new());
    assert_eq!(extra_args_of(ScarbCmd::Test(), Mode::Verify), Vec::<String>::new());
}

#[test]
fn command_line_of_an_action() {
    let action = Action::Invoke { check: ScarbCmd::CairoRun(), command: ScarbCmd::CairoRun() };
    assert_eq!(
        action_command_line(action, "a/Scarb.toml", Mode::Verify),
        Some(vec![
            "--manifest-path".to_string(),
            "a/Scarb.toml".to_string(),
            "cairo-run".to_string(),
            "--available-gas=200000000".to_string()
        ])
    );
    let action = Action::Invoke { check: ScarbCmd::CairoRun(), command: ScarbCmd::Build() };
    assert_eq!(
        action_command_line(action, "a/Scarb.toml", Mode::Verify),
        Some(vec!["--manifest-path".to_string(), "a/Scarb.toml".to_string(), "build".to_string()])
    );
    let action = Action::Invoke { check: ScarbCmd::Format(), command: ScarbCmd::Format() };
    assert_eq!(
        action_command_line(action, "a/Scarb.toml", Mode::Format),
        Some(vec!["--manifest-path".to_string(), "a/Scarb.toml".to_string(), "fmt".to_string()])
    );
    assert_eq!(action_command_line(Action::Finished, "a/Scarb.toml", Mode::Verify), None);
}

#[test]
fn handling_an_error_records_it_and_hands_the_text_back() {
    let mut errors = ErrorSets::new();
    let (notice, e) = handle_error(
        &mut errors,
        "error: x\nat line 3\n".to_string(),
        "a/Scarb.toml",
        "a/src/lib.cairo",
        "<a/src/lib.cairo>",
        ScarbCmd::Test(),
        true,
    );
    assert_eq!(e, "error: x\nat line 3\n");
    let notice = notice.unwrap();
    assert_eq!(notice.file, "a/src/lib.cairo");
    assert_eq!(notice.command, "test");
    assert_eq!(notice.link, "<a/src/lib.cairo>");
    assert_eq!(notice.details, vec!["error: x", "at line 3"]);
    assert!(errors.test_errors.contains("a/Scarb.toml"));
    assert!(!errors.test_errors.contains("a/src/lib.cairo"));
    let (notice, e) = handle_error(
        &mut errors,
        "e".to_string(),
        "a/Scarb.toml",
        "a/src/lib.cairo",
        "l",
        ScarbCmd::Test(),
        false,
    );
    assert!(notice.is_none());
    assert_eq!(e, "e");
    assert_eq!(errors.total(), 1);
}

#[test]
fn notice_shows_the_failure_line_by_line() {
    let notice = error_notice("a\r\nb\n\nc", "p/src/lib.cairo", "<link>", ScarbCmd::Format());
    assert_eq!(notice.file, "p/src/lib.cairo");
    assert_eq!(notice.command, "fmt");
    assert_eq!(notice.link, "<link>");
    assert_eq!(notice.details, vec!["a", "b", "", "c"]);
}
