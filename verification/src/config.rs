//! Run configuration: the two command-line switches.

use vstd::prelude::*;

verus! {

/// How a run behaves: `dry_run` previews candidate deletions without
/// touching the filesystem, `verbose` logs each deletion before it is
/// attempted. Immutable once built from the parsed arguments.
#[derive(Debug, Clone, PartialEq, Eq, Structural)]
pub struct Config {
    pub dry_run: bool,
    pub verbose: bool,
}

impl Default for Config {
    /// Neither switch set: deletions are performed, silently.
    fn default() -> (c: Config)
        ensures
            !c.dry_run,
            !c.verbose,
    {
        Config { dry_run: false, verbose: false }
    }
}

} // verus!
