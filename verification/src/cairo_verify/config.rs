//! What the command line hands to a run.

use crate::select::SkipFlags;
use vstd::prelude::*;

verus! {

/// The arguments of a run.
#[derive(Debug)]
pub struct Config {
    /// The path to explore for listings.
    pub path: String,
    /// Print more information.
    pub verbose: bool,
    /// Only print final results.
    pub quiet: bool,
    /// Skip format checks
    pub formats_skip: bool,
    /// Skip contract compile checks
    pub starknet_skip: bool,
    /// Skip compile checks
    pub compile_skip: bool,
    /// Skip run checks
    pub run_skip: bool,
    /// Skip test checks
    pub test_skip: bool,
    /// Only the listings whose path holds this text
    pub file: Option<String>,
}

impl Config {
    /// The checks that are switched off for the whole run.
    pub fn skip_flags(&self) -> (r: SkipFlags)
        ensures
            r == (SkipFlags {
                formats_skip: self.formats_skip,
                starknet_skip: self.starknet_skip,
                compile_skip: self.compile_skip,
                run_skip: self.run_skip,
                test_skip: self.test_skip,
            }),
    {
        SkipFlags {
            formats_skip: self.formats_skip,
            starknet_skip: self.starknet_skip,
            compile_skip: self.compile_skip,
            run_skip: self.run_skip,
            test_skip: self.test_skip,
        }
    }
}

} // verus!
