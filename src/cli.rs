//! The options of a run.
use vstd::prelude::*;

verus! {

/// The kind of resource to generate configuration for.
#[derive(Debug, Clone, Copy, PartialEq, Eq, Structural)]
pub enum Command {
    /// Storage buckets.
    S3,
}

/// The options of a run: verbosity, account profile, and where the text goes
/// (standard output where `output` is `None`).
#[derive(Debug)]
pub struct Args {
    pub debug: bool,
    pub profile: Option<String>,
    pub output: Option<String>,
    pub command: Command,
}

} // verus!
