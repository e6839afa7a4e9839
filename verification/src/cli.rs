//! Command-line rules of the application.

use vstd::prelude::*;
use vstd::string::*;

use crate::config::opt_view;
use crate::text::str_equals;

verus! {

/// `flag` is among the arguments.
pub open spec fn has_arg(args: Seq<String>, flag: Seq<char>) -> bool {
    exists|i: int| 0 <= i < args.len() && (#[trigger] args[i])@ == flag
}

/// Whether `flag` is among the arguments.
pub fn contains_arg(args: &Vec<String>, flag: &str) -> (r: bool)
    ensures
        r == has_arg(args@, flag@),
{
    let mut i: usize = 0;
    while i < args.len()
        invariant
            i <= args@.len(),
            forall|j: int| 0 <= j < i ==> (#[trigger] args@[j])@ != flag@,
        decreases args@.len() - i,
    {
        if str_equals(args[i].as_str(), flag) {
            return true;
        }
        i = i + 1;
    }
    false
}

/// The log filter: `trace` when `--trace` is given, else `debug` when
/// `--debug` is given, else the `RUST_LOG` setting, else `info`.
pub open spec fn spec_log_level(args: Seq<String>, rust_log: Option<Seq<char>>) -> Seq<char> {
    if has_arg(args, "--trace"@) {
        "trace"@
    } else if has_arg(args, "--debug"@) {
        "debug"@
    } else {
        match rust_log {
            Some(s) => s,
            None => "info"@,
        }
    }
}

/// Chooses the log filter from the arguments and the `RUST_LOG` setting
/// (`None` when unset or not Unicode).
pub fn parse_log_level(args: &Vec<String>, rust_log: Option<String>) -> (r: String)
    ensures
        r@ == spec_log_level(args@, opt_view(rust_log)),
{
    if contains_arg(args, "--trace") {
        return String::from_str("trace");
    }
    if contains_arg(args, "--debug") {
        return String::from_str("debug");
    }
    match rust_log {
        Some(s) => s,
        None => String::from_str("info"),
    }
}

/// What the application is asked to do.
#[derive(Debug, Clone, Copy, PartialEq, Eq, Structural)]
pub enum RunMode {
    /// Print the usage text.
    Help,
    /// Open the settings window.
    Settings,
    /// Run the overlay.
    Overlay,
}

/// The mode the arguments select: help for `--help` or `-h`, else settings
/// for `--settings`, else the overlay.
pub open spec fn spec_run_mode(args: Seq<String>) -> RunMode {
    if has_arg(args, "--help"@) || has_arg(args, "-h"@) {
        RunMode::Help
    } else if has_arg(args, "--settings"@) {
        RunMode::Settings
    } else {
        RunMode::Overlay
    }
}

/// Chooses the mode from the arguments.
pub fn run_mode(args: &Vec<String>) -> (r: RunMode)
    ensures
        r == spec_run_mode(args@),
{
    if contains_arg(args, "--help") || contains_arg(args, "-h") {
        RunMode::Help
    } else if contains_arg(args, "--settings") {
        RunMode::Settings
    } else {
        RunMode::Overlay
    }
}

/// `--help` or `-h` prints the usage text whatever else is given; otherwise
/// `--settings` opens the settings window; with neither the overlay runs.
pub proof fn lemma_help_wins(args: Seq<String>)
    ensures
        has_arg(args, "--help"@) ==> spec_run_mode(args) == RunMode::Help,
        has_arg(args, "-h"@) ==> spec_run_mode(args) == RunMode::Help,
        !has_arg(args, "--help"@) && !has_arg(args, "-h"@) && has_arg(args, "--settings"@)
            ==> spec_run_mode(args) == RunMode::Settings,
        !has_arg(args, "--help"@) && !has_arg(args, "-h"@) && !has_arg(args, "--settings"@)
            ==> spec_run_mode(args) == RunMode::Overlay,
        spec_run_mode(args) == RunMode::Help ==> has_arg(args, "--help"@) || has_arg(args, "-h"@),
{
}

/// `--trace` selects tracing whatever else is given; otherwise `--debug`
/// selects debugging; with neither the `RUST_LOG` setting, or `info`, is used.
pub proof fn lemma_trace_wins(args: Seq<String>, rust_log: Option<Seq<char>>)
    ensures
        has_arg(args, "--trace"@) ==> spec_log_level(args, rust_log) == "trace"@,
        !has_arg(args, "--trace"@) && has_arg(args, "--debug"@) ==> spec_log_level(args, rust_log)
            == "debug"@,
        !has_arg(args, "--trace"@) && !has_arg(args, "--debug"@) ==> spec_log_level(args, rust_log)
            == match rust_log {
            Some(s) => s,
            None => "info"@,
        },
{
}

} // verus!
