use cairo_listings::cmd::ToolOutcome;
use cairo_listings::toolchain::{
    get_scarb_path, read_scarb_version, resolve_scarb_path, spawn_failure, where_args, ScarbPath,
};

#[test]
fn version_is_the_second_word_of_the_scarb_line() {
    assert_eq!(read_scarb_version("scarb 2.6.4\n"), Ok("2.6.4".to_string()));
    assert_eq!(
        read_scarb_version("nodejs 20.1.0\n  scarb\t2.7.0  extra\nscarb 1.0.0\n"),
        Ok("2.7.0".to_string())
    );
    assert_eq!(read_scarb_version("starknet-foundry 0.2\r\nscarb 2.5.0\r\n"), Ok("2.5.0".to_string()));
}

#[test]
fn scarb_line_without_a_version_is_invalid() {
    assert_eq!(
        read_scarb_version("scarb\nscarb 2.0.0\n"),
        Err("Invalid scarb version in .tool-versions".to_string())
    );
}

#[test]
fn file_without_a_scarb_line_pins_nothing() {
    assert_eq!(
        read_scarb_version("nodejs 20.1.0\nscarbx 1.0\n"),
        Err("Scarb version not found in .tool-versions".to_string())
    );
    assert_eq!(
        read_scarb_version(""),
        Err("Scarb version not found in .tool-versions".to_string())
    );
}

#[test]
fn version_manager_is_asked_where_the_version_is() {
    assert_eq!(where_args("2.6.4"), vec!["where", "scarb", "2.6.4"]);
}

#[test]
fn resolved_path_lies_below_the_printed_directory() {
    let outcome = ToolOutcome::Exited {
        success: true,
        stdout: "  /home/me/.asdf/installs/scarb/2.6.4\n".to_string(),
        stderr: String::new(),
    };
    assert_eq!(
        resolve_scarb_path(&outcome),
        Ok("/home/me/.asdf/installs/scarb/2.6.4/bin/scarb".to_string())
    );
}

#[test]
fn failed_resolution_carries_the_error_output() {
    let outcome = ToolOutcome::Exited {
        success: false,
        stdout: "ignored".to_string(),
        stderr: "version not installed\n".to_string(),
    };
    assert_eq!(
        resolve_scarb_path(&outcome),
        Err("Failed to resolve scarb path: version not installed\n".to_string())
    );
    let outcome = ToolOutcome::SpawnFailed { message: "not found".to_string() };
    assert_eq!(resolve_scarb_path(&outcome), Err("Failed to execute asdf: not found".to_string()));
}

#[test]
fn directory_without_tool_versions_uses_scarb_on_the_path() {
    match get_scarb_path(None) {
        Ok(ScarbPath::OnPath(p)) => assert_eq!(p, "scarb"),
        _ => panic!("expected the binary on the search path"),
    }
}

#[test]
fn directory_with_tool_versions_uses_the_pinned_version() {
    match get_scarb_path(Some("scarb 2.6.4\n")) {
        Ok(ScarbPath::Pinned(v)) => assert_eq!(v, "2.6.4"),
        _ => panic!("expected a pinned version"),
    }
    match get_scarb_path(Some("nodejs 1\n")) {
        Err(e) => assert_eq!(e, "Scarb version not found in .tool-versions"),
        _ => panic!("expected an error"),
    }
}

#[test]
fn failed_start_is_named() {
    assert_eq!(spawn_failure("scarb", "No such file"), "Failed to execute scarb: No such file");
}
