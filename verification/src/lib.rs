//! Checks a corpus of small source listings against an outside toolchain:
//! which checks apply to a listing, how each command is put together, and how
//! failures are collected and reported.
//!
//! A listing is a package with a manifest. Its source may start with a block
//! of tag lines ([`tags`]), and markers in it say what kind of program it is
//! ([`classify`]). From both, and from the checks that the caller switched
//! off, the selector picks the checks to run ([`select`]). Each check is one
//! toolchain command ([`cmd`], [`toolchain`]); the checks of a listing run
//! one after the other ([`runner`]), and a failure ends one check only. The
//! failures of all listings meet in one place ([`error_sets`]), from which
//! the summary and the exit status of the run follow ([`report`],
//! [`orchestrator`]).
//!
//! Beside that, [`output`] keeps the recorded outputs of the listings up to
//! date, [`book`] and [`backend`] number the listings of the book and take
//! its programs out of the text, and [`cairo_verify`] holds the checks as the
//! program without subcommands runs them.
//!
//! Nothing here reads a file or starts a process: the caller does that and
//! hands over what it read and what the toolchain printed.

pub mod backend;
pub mod book;
pub mod cairo_verify;
pub mod classify;
pub mod cmd;
pub mod config;
pub mod error_sets;
pub mod orchestrator;
pub mod output;
pub mod pattern;
pub mod report;
pub mod runner;
pub mod select;
pub mod tags;
pub mod text;
pub mod text_map;
pub mod toolchain;
pub mod utils;
