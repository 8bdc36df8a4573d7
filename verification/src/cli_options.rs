//! The late-bound options the caller supplies to the dispatcher.

use vstd::prelude::*;

verus! {

/// Options resolved by the caller and handed to the dispatcher: the cap on
/// reported diagnostics and the verbosity of the selected pipeline.
#[derive(Debug, Clone, Copy, PartialEq, Eq, Structural)]
pub struct CliOptions {
    /// The maximum number of diagnostics the reporter will display.
    pub max_diagnostics: u16,
    /// Whether the selected pipeline runs verbosely.
    pub verbose: bool,
}

} // verus!
