//! What the command line hands to a run.

use crate::select::SkipFlags;
use vstd::prelude::*;

verus! {

/// The command line: one of the commands.
pub struct Config {
    pub command: Commands,
}

/// The commands.
pub enum Commands {
    /// Run the verification process
    Verify(VerifyArgs),
    /// Process the recorded output file in listings
    Output(OutputArgs),
    /// Run the format process
    Format(VerifyArgs),
}

/// The arguments of a verify run and of a format run.
#[derive(Debug)]
pub struct VerifyArgs {
    /// Print more information.
    pub verbose: bool,
    /// Only print final results.
    pub quiet: bool,
    /// Skip format checks
    pub formats_skip: bool,
    /// Skip contract compile checks
    pub starknet_skip: bool,
    /// Skip compile checks
    pub compile_skip: bool,
    /// Skip run checks
    pub run_skip: bool,
    /// Skip test checks
    pub test_skip: bool,
    /// Path to check (file or directory)
    pub path: String,
}

/// The arguments of a run that brings the recorded outputs up to date.
#[derive(Debug)]
pub struct OutputArgs {
    /// Path to check (file or directory)
    pub path: String,
}

/// The directory that is checked where the command line names none.
pub open spec fn default_path() -> Seq<char> {
    "./listings"@
}

impl Default for VerifyArgs {
    fn default() -> (r: VerifyArgs)
        ensures
            !r.verbose,
            !r.quiet,
            !r.formats_skip,
            !r.starknet_skip,
            !r.compile_skip,
            !r.run_skip,
            !r.test_skip,
            r.path@ == default_path(),
    {
        VerifyArgs {
            verbose: false,
            quiet: false,
            formats_skip: false,
            starknet_skip: false,
            compile_skip: false,
            run_skip: false,
            test_skip: false,
            path: String::from_str("./listings"),
        }
    }
}

impl Default for OutputArgs {
    fn default() -> (r: OutputArgs)
        ensures
            r.path@ == default_path(),
    {
        OutputArgs { path: String::from_str("./listings") }
    }
}

impl VerifyArgs {
    /// The checks that are switched off for the whole run.
    pub fn skip_flags(&self) -> (r: SkipFlags)
        ensures
            r == (SkipFlags {
                formats_skip: self.formats_skip,
                starknet_skip: self.starknet_skip,
                compile_skip: self.compile_skip,
                run_skip: self.run_skip,
                test_skip: self.test_skip,
            }),
    {
        SkipFlags {
            formats_skip: self.formats_skip,
            starknet_skip: self.starknet_skip,
            compile_skip: self.compile_skip,
            run_skip: self.run_skip,
            test_skip: self.test_skip,
        }
    }

    /// How much a run logs.
    pub fn verbosity(&self) -> (r: Verbosity)
        ensures
            r == verbosity_of(self.verbose, self.quiet),
    {
        if self.verbose {
            Verbosity::Everything
        } else if self.quiet {
            Verbosity::Nothing
        } else {
            Verbosity::ErrorsOnly
        }
    }
}

/// How much a run logs.
#[derive(Clone, Copy, Debug, PartialEq, Eq, Structural)]
pub enum Verbosity {
    /// Every message.
    Everything,
    /// Errors only.
    ErrorsOnly,
    /// No message.
    Nothing,
}

/// Verbose wins over quiet; with neither, errors only.
pub open spec fn verbosity_of(verbose: bool, quiet: bool) -> Verbosity {
    if verbose {
        Verbosity::Everything
    } else if quiet {
        Verbosity::Nothing
    } else {
        Verbosity::ErrorsOnly
    }
}

} // verus!
