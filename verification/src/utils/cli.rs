//! The switches of the command line, as the rest of the program reads them.

use vstd::prelude::*;

verus! {

/// The switches of the command line.
#[derive(Clone, Copy, Debug, PartialEq, Eq, Structural)]
pub struct Args {
    /// Skip the check that refuses to run as root.
    pub no_root_check: bool,
    /// Skip the check of the terminal's size.
    pub no_size_check: bool,
    /// Take mouse events.
    pub mouse: bool,
}

impl Args {
    /// Whether the program, started with these switches by root or by
    /// another user, refuses to run.
    pub open spec fn refuses(self, is_root: bool) -> bool {
        !self.no_root_check && is_root
    }

    /// Tells whether the program refuses to run: it does when run by root,
    /// unless the check is switched off.
    pub fn refuses_to_run(&self, is_root: bool) -> (refused: bool)
        ensures
            refused == self.refuses(is_root),
    {
        !self.no_root_check && is_root
    }
}

} // verus!
