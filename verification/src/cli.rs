//! The command-line surface, as plain data.

use vstd::prelude::*;

verus! {

/// The program's arguments: the input file path, benchmark mode,
/// headless mode, and the number of iterations to run.
pub struct Args {
    pub input: String,
    pub benchmark: bool,
    pub no_gui: bool,
    pub iterations: usize,
}

} // verus!
