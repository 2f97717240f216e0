use cairo_listings::config::{OutputArgs, Verbosity, VerifyArgs};
use cairo_listings::error_sets::ListingSet;
use cairo_listings::orchestrator::{progress_update, transition, Event, Phase, ProgressUpdate};
use cairo_listings::utils::{clickable, error_table, find_scarb_manifests, Entry};

fn entry(file_name: &str, path: &str) -> Entry {
    Entry { file_name: file_name.to_string(), path: path.to_string() }
}

#[test]
fn manifests_are_the_files_named_scarb_toml() {
    let entries = vec![
        entry("listings", "./listings"),
        entry("Scarb.toml", "./listings/ch01/a/Scarb.toml"),
        entry("Scarb.lock", "./listings/ch01/a/Scarb.lock"),
        entry("scarb.toml", "./listings/ch01/b/scarb.toml"),
        entry("lib.cairo", "./listings/ch01/a/src/lib.cairo"),
        entry("Scarb.toml", "./listings/ch02/c/Scarb.toml"),
        entry("Scarb.toml.bak", "./listings/ch02/c/Scarb.toml.bak"),
    ];
    assert_eq!(
        find_scarb_manifests(&entries, None),
        vec!["./listings/ch01/a/Scarb.toml", "./listings/ch02/c/Scarb.toml"]
    );
    assert_eq!(find_scarb_manifests(&entries, Some("ch02")), vec!["./listings/ch02/c/Scarb.toml"]);
    assert_eq!(find_scarb_manifests(&entries, Some("ch03")), Vec::<String>::new());
    assert_eq!(find_scarb_manifests(&Vec::new(), None), Vec::<String>::new());
}

#[test]
fn clickable_wraps_the_path_in_a_link() {
    assert_eq!(
        clickable("a/src/lib.cairo", "/home/me/a/src/lib.cairo"),
        "\x1B]8;;file:///home/me/a/src/lib.cairo\x07a/src/lib.cairo\x1B]8;;\x07"
    );
}

#[test]
fn error_table_lists_each_failure() {
    let mut set = ListingSet::new();
    assert!(error_table(&set, "Format Errors").is_none());
    set.insert("b".to_string());
    set.insert("a".to_string());
    set.insert("b".to_string());
    let table = error_table(&set, "Format Errors").unwrap();
    assert_eq!(table.heading, "Format Errors: 2");
    assert_eq!(table.rows, vec![" - b", " - a"]);
}

#[test]
fn default_arguments_check_the_listings_directory() {
    let args = VerifyArgs::default();
    assert_eq!(args.path, "./listings");
    assert!(!args.verbose && !args.quiet);
    let skip = args.skip_flags();
    assert!(!skip.formats_skip && !skip.starknet_skip && !skip.compile_skip);
    assert!(!skip.run_skip && !skip.test_skip);
    assert_eq!(OutputArgs::default().path, "./listings");
}

#[test]
fn skip_flags_follow_the_arguments() {
    let mut args = VerifyArgs::default();
    args.run_skip = true;
    args.formats_skip = true;
    let skip = args.skip_flags();
    assert!(skip.run_skip && skip.formats_skip);
    assert!(!skip.starknet_skip && !skip.compile_skip && !skip.test_skip);
}

#[test]
fn verbose_wins_over_quiet() {
    let mut args = VerifyArgs::default();
    assert_eq!(args.verbosity(), Verbosity::ErrorsOnly);
    args.quiet = true;
    assert_eq!(args.verbosity(), Verbosity::Nothing);
    args.verbose = true;
    assert_eq!(args.verbosity(), Verbosity::Everything);
}

#[test]
fn run_goes_through_its_phases() {
    let p = transition(Phase::Idle, Event::Started).unwrap();
    assert_eq!(p, Phase::Discovering);
    let p = transition(p, Event::Discovered { listings: 3 }).unwrap();
    assert_eq!(p, Phase::Dispatching { total: 3, done: 0 });
    let p = transition(p, Event::ListingDone).unwrap();
    assert_eq!(p, Phase::Dispatching { total: 3, done: 1 });
    assert_eq!(transition(p, Event::Reported { failures: false }), None);
    let p = transition(p, Event::Dispatched).unwrap();
    assert_eq!(p, Phase::AwaitingCompletion { total: 3, done: 1 });
    let p = transition(p, Event::ListingDone).unwrap();
    assert_eq!(p, Phase::AwaitingCompletion { total: 3, done: 2 });
    assert_eq!(transition(p, Event::Dispatched), None);
    let p = transition(p, Event::ListingDone).unwrap();
    assert_eq!(p, Phase::Reporting);
    let p = transition(p, Event::Reported { failures: true }).unwrap();
    assert_eq!(p, Phase::Terminal { exit_code: 1 });
    assert_eq!(transition(p, Event::Started), None);
    assert_eq!(
        transition(Phase::Reporting, Event::Reported { failures: false }),
        Some(Phase::Terminal { exit_code: 0 })
    );
}

#[test]
fn run_without_listings_goes_straight_to_the_report() {
    let p = transition(Phase::Discovering, Event::Discovered { listings: 0 }).unwrap();
    assert_eq!(p, Phase::Dispatching { total: 0, done: 0 });
    assert_eq!(transition(p, Event::ListingDone), None);
    assert_eq!(transition(p, Event::Dispatched), Some(Phase::Reporting));
    let all = Phase::Dispatching { total: 2, done: 2 };
    assert_eq!(transition(all, Event::ListingDone), None);
    assert_eq!(transition(all, Event::Dispatched), Some(Phase::Reporting));
    assert_eq!(transition(Phase::Idle, Event::ListingDone), None);
    assert_eq!(transition(Phase::Discovering, Event::Started), None);
    assert_eq!(transition(Phase::Reporting, Event::ListingDone), None);
}

#[test]
fn progress_is_shown_unless_quiet() {
    assert_eq!(progress_update(3, 5, true), None);
    assert_eq!(progress_update(3, 5, false), Some(ProgressUpdate { position: 3, complete: false }));
    assert_eq!(progress_update(5, 5, false), Some(ProgressUpdate { position: 5, complete: true }));
}
