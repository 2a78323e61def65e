//! The command-line arguments of the tool, as plain values.
use vstd::prelude::*;

pub mod chart_args;
pub mod extract_args;
pub mod filenames;
pub mod viewer_args;

verus! {

/// Whether every analysis runs: when asked for, or when no analysis was named.
pub fn runs_all(all: bool, any_named: bool) -> (r: bool)
    ensures
        r == (all || !any_named),
{
    all || !any_named
}

/// The output file of an analysis: the name given for it, else its default name when
/// every analysis runs; none when the analysis does not run.
pub fn output_name<'a>(given: Option<&'a str>, default_name: &'a str, every_analysis_runs: bool) -> (r: Option<&'a str>)
    ensures
        r == (match given {
            Some(g) => Some(g),
            None => if every_analysis_runs { Some(default_name) } else { None },
        }),
{
    match given {
        Some(g) => Some(g),
        None => if every_analysis_runs { Some(default_name) } else { None },
    }
}

} // verus!
