//! The ways a run of the workflow can fail.
use vstd::prelude::*;

verus! {

/// A fatal condition; each one aborts the workflow.
#[derive(Clone, Copy, Debug, PartialEq, Eq, Structural)]
pub enum AutomationError {
    /// No displayed element matched the target within its wait window.
    ElementNotFound,
    /// A native click or text entry kept failing until the retry budget ran out.
    InteractionFailed,
    /// The automation session could not be opened within the retry budget.
    ConnectionFailed,
    /// An injected script failed at the transport level.
    ScriptExecutionFailed,
}

} // verus!
