//! Where the toolchain binary is found. A directory may pin its own
//! version of the toolchain in a file of tool versions; the version manager
//! then says where that version is installed.

use crate::cmd::ToolOutcome;
use crate::text::{
    chars_eq, concat2, lines, rows, split_lines, split_words, str_chars, to_string, trim, trimmed,
    views, words,
};
use vstd::prelude::*;

verus! {

/// The name of the toolchain binary, and of its line in the file of tool
/// versions.
pub open spec fn tool_name() -> Seq<char> {
    "scarb"@
}

/// The version of the toolchain that the lines from index `i` on pin: the
/// second word of the first line whose first word is the toolchain's name.
/// An error where that line has no second word, or where there is no such
/// line.
pub open spec fn pinned_version(lines: Seq<Seq<char>>, i: int) -> Result<Seq<char>, Seq<char>>
    decreases lines.len() - i,
{
    if 0 <= i < lines.len() {
        let w = words(lines[i]);
        if w.len() > 0 && w[0] == tool_name() {
            if w.len() > 1 {
                Ok(w[1])
            } else {
                Err("Invalid scarb version in .tool-versions"@)
            }
        } else {
            pinned_version(lines, i + 1)
        }
    } else {
        Err("Scarb version not found in .tool-versions"@)
    }
}

/// A result, as plain values.
pub open spec fn result_view(r: Result<String, String>) -> Result<Seq<char>, Seq<char>> {
    match r {
        Ok(s) => Ok(s@),
        Err(e) => Err(e@),
    }
}

/// The version of the toolchain that a file of tool versions pins.
pub fn read_scarb_version(tool_versions: &str) -> (r: Result<String, String>)
    ensures
        result_view(r) == pinned_version(lines(tool_versions@), 0),
{
    let chars = str_chars(tool_versions);
    let ls = split_lines(&chars);
    let name = str_chars("scarb");
    let mut i: usize = 0;
    while i < ls.len()
        invariant
            i <= ls.len(),
            name@ == tool_name(),
            rows(ls@) == lines(tool_versions@),
            pinned_version(rows(ls@), 0) == pinned_version(rows(ls@), i as int),
        decreases ls.len() - i,
    {
        let parts = split_words(&ls[i], 0);
        if parts.len() > 0 && chars_eq(&parts[0], &name) {
            if parts.len() > 1 {
                return Ok(to_string(&parts[1]));
            } else {
                return Err(String::from_str("Invalid scarb version in .tool-versions"));
            }
        }
        i += 1;
    }
    Err(String::from_str("Scarb version not found in .tool-versions"))
}

/// The arguments with which the version manager is asked where a version
/// of the toolchain is installed.
pub fn where_args(version: &str) -> (r: Vec<String>)
    ensures
        views(r@) == seq!["where"@, "scarb"@, version@],
{
    let mut r: Vec<String> = Vec::new();
    r.push(String::from_str("where"));
    r.push(String::from_str("scarb"));
    r.push(String::from_str(version));
    r
}

/// The path of the toolchain binary, from the answer of the version
/// manager.
pub open spec fn resolved_path(outcome: ToolOutcome) -> Result<Seq<char>, Seq<char>> {
    match outcome {
        ToolOutcome::SpawnFailed { message } => Err("Failed to execute asdf: "@ + message@),
        ToolOutcome::Exited { success, stdout, stderr } => if success {
            Ok(trim(stdout@) + "/bin/scarb"@)
        } else {
            Err("Failed to resolve scarb path: "@ + stderr@)
        },
    }
}

/// The path of the toolchain binary, from the answer of the version
/// manager: the directory that it printed, without the whitespace around
/// it, and the binary's place below it.
pub fn resolve_scarb_path(outcome: &ToolOutcome) -> (r: Result<String, String>)
    ensures
        result_view(r) == resolved_path(*outcome),
{
    match outcome {
        ToolOutcome::SpawnFailed { message } => Err(
            concat2("Failed to execute asdf: ", message.as_str()),
        ),
        ToolOutcome::Exited { success, stdout, stderr } => if *success {
            let dir = to_string(&trimmed(&str_chars(stdout.as_str())));
            Ok(concat2(dir.as_str(), "/bin/scarb"))
        } else {
            Err(concat2("Failed to resolve scarb path: ", stderr.as_str()))
        },
    }
}

/// How the toolchain binary is found.
#[derive(Debug)]
pub enum ScarbPath {
    /// By its name, on the search path.
    OnPath(String),
    /// By asking the version manager for this version.
    Pinned(String),
}

/// How the toolchain binary is found for a directory: by its name where
/// the directory has no file of tool versions, else by the version that the
/// file pins.
pub fn get_scarb_path(tool_versions: Option<&str>) -> (r: Result<ScarbPath, String>)
    ensures
        match tool_versions {
            None => r matches Ok(ScarbPath::OnPath(p)) && p@ == tool_name(),
            Some(content) => match pinned_version(lines(content@), 0) {
                Ok(v) => r matches Ok(ScarbPath::Pinned(p)) && p@ == v,
                Err(e) => r matches Err(m) && m@ == e,
            },
        },
{
    match tool_versions {
        None => Ok(ScarbPath::OnPath(String::from_str("scarb"))),
        Some(content) => match read_scarb_version(content) {
            Ok(v) => Ok(ScarbPath::Pinned(v)),
            Err(e) => Err(e),
        },
    }
}

/// The text of the failure when a program could not be started.
pub fn spawn_failure(program: &str, cause: &str) -> (r: String)
    ensures
        r@ == "Failed to execute "@ + program@ + ": "@ + cause@,
{
    let mut r = concat2("Failed to execute ", program);
    r.append(": ");
    r.append(cause);
    r
}

} // verus!
