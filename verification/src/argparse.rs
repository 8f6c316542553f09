//! The options of the command line, as plain values.

use vstd::prelude::*;

verus! {

/// What the command line asked for.
#[derive(Debug)]
pub struct Cli {
    /// Paths to add to the search roots, one for each use of the option.
    pub path: Option<Vec<String>>,
    /// Paths to add to the search roots, separated by single spaces.
    pub paths: Option<String>,
    /// How often the verbose flag was given.
    pub verbose: u8,
    /// A path to drop from the search roots.
    pub remove_path: Option<String>,
    /// Whether to drop every search root.
    pub purge_paths: bool,
    /// Whether to use ASCII glyphs: `true` or `false`, in any case.
    pub ascii_mode: Option<String>,
    /// Whether to print the configuration and stop.
    pub show_config: bool,
    /// The search depth to configure.
    pub search_depth: Option<i8>,
    /// Whether to scan the current directory and leave the configuration
    /// alone.
    pub current_dir: bool,
}

} // verus!
