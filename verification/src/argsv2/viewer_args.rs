//! The arguments of the `viewer` command.
use vstd::prelude::*;

use super::extract_args::{choose_path, path_choice, PathChoice};

verus! {

/// The default name of the bundle of analysis results.
pub const BINARY_BUNDLE: &'static str = "r2ta_results.sqlite";

/// The bundle to show and the viewer program.
#[derive(Debug, Clone)]
pub struct ViewerArgs {
    /// The bundle, or a directory that holds it under its default name.
    pub input: String,
    /// The viewer's main script, or the directory that holds it.
    pub viewer: String,
}

impl ViewerArgs {
    /// Which file holds the bundle (see [`path_choice`]) once it is known whether
    /// `input` is a directory; the default name is [`BINARY_BUNDLE`].
    pub fn input_path(&self, input_is_dir: bool) -> (r: PathChoice)
        ensures
            r == path_choice(true, input_is_dir),
    {
        choose_path(true, input_is_dir)
    }
}

} // verus!
