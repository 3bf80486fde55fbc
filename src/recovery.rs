//! The two page-specific recovery procedures: checking the consent checkbox
//! and forcing the submission through.
use vstd::prelude::*;
use crate::error::AutomationError;

verus! {

/// Pause that lets the page settle after the overlays are cleared, in
/// milliseconds.
pub const SETTLE_MS: u64 = 100;

/// How the action last asked of the caller turned out.
#[derive(Clone, Copy, Debug, PartialEq, Eq, Structural)]
pub enum Outcome {
    /// It failed (for a script: at the transport level).
    Failed,
    /// It completed.
    Completed,
    /// A script ran; the flag tells whether it reported success.
    Reported(bool),
}

/// The steps of the consent-checkbox recovery.
#[derive(Clone, Copy, Debug, PartialEq, Eq, Structural)]
pub enum ConsentAction {
    /// Run the script that scrolls the checkbox into view.
    ScrollIntoView,
    /// Run the script that clicks the label and forces the checked state; it
    /// reports failure when no checkbox is in the page.
    CheckScript,
    /// Fallback: locate the checkbox the ordinary way.
    LocateCheckbox,
    /// Fallback: one plain click on the checkbox located.
    ClickCheckbox,
    Done,
    Fail(AutomationError),
}

/// The consent-checkbox recovery after the outcome `o` of its pending step.
pub open spec fn consent_step(a: ConsentAction, o: Outcome) -> ConsentAction {
    match a {
        ConsentAction::ScrollIntoView => if o == Outcome::Failed {
            ConsentAction::Fail(AutomationError::ScriptExecutionFailed)
        } else {
            ConsentAction::CheckScript
        },
        ConsentAction::CheckScript => if o == Outcome::Failed {
            ConsentAction::Fail(AutomationError::ScriptExecutionFailed)
        } else if o == Outcome::Reported(true) {
            ConsentAction::Done
        } else {
            ConsentAction::LocateCheckbox
        },
        ConsentAction::LocateCheckbox => if o == Outcome::Failed {
            ConsentAction::Fail(AutomationError::ElementNotFound)
        } else {
            ConsentAction::ClickCheckbox
        },
        ConsentAction::ClickCheckbox => if o == Outcome::Failed {
            ConsentAction::Fail(AutomationError::InteractionFailed)
        } else {
            ConsentAction::Done
        },
        _ => a,
    }
}

/// One run of the consent-checkbox recovery.
#[derive(Clone, Copy, Debug, PartialEq, Eq, Structural)]
pub struct ConsentRecovery {
    pub pending: ConsentAction,
}

impl ConsentRecovery {
    /// A run that starts by scrolling the checkbox into view.
    pub fn new() -> (r: ConsentRecovery)
        ensures
            r.pending == ConsentAction::ScrollIntoView,
    {
        ConsentRecovery { pending: ConsentAction::ScrollIntoView }
    }

    /// Records the outcome of the pending step. A script that reports
    /// failure (no checkbox in the page) leads to the plain-click fallback,
    /// not to an error.
    pub fn advance(&mut self, o: Outcome)
        ensures
            final(self).pending == consent_step(old(self).pending, o),
            old(self).pending == ConsentAction::CheckScript && o == Outcome::Reported(false)
                ==> final(self).pending == ConsentAction::LocateCheckbox,
    {
        self.pending = match self.pending {
            ConsentAction::ScrollIntoView => if o == Outcome::Failed {
                ConsentAction::Fail(AutomationError::ScriptExecutionFailed)
            } else {
                ConsentAction::CheckScript
            },
            ConsentAction::CheckScript => if o == Outcome::Failed {
                ConsentAction::Fail(AutomationError::ScriptExecutionFailed)
            } else if o == Outcome::Reported(true) {
                ConsentAction::Done
            } else {
                ConsentAction::LocateCheckbox
            },
            ConsentAction::LocateCheckbox => if o == Outcome::Failed {
                ConsentAction::Fail(AutomationError::ElementNotFound)
            } else {
                ConsentAction::ClickCheckbox
            },
            ConsentAction::ClickCheckbox => if o == Outcome::Failed {
                ConsentAction::Fail(AutomationError::InteractionFailed)
            } else {
                ConsentAction::Done
            },
            other => other,
        };
    }
}

/// The steps of the submit recovery.
#[derive(Clone, Copy, Debug, PartialEq, Eq, Structural)]
pub enum SubmitAction {
    /// Run the script that hides overlays able to intercept the click.
    ClearOverlays,
    /// Sleep this many milliseconds.
    Settle(u64),
    /// Locate the submit control.
    LocateButton,
    /// Run the script that clicks the control, simulates the mouse events and
    /// submits its form.
    ForceClick,
    /// Fallback: run the script that simulates an Enter keypress on the form.
    PressEnter,
    Done,
    Fail(AutomationError),
}

/// The submit recovery after the outcome `o` of its pending step.
pub open spec fn submit_step(a: SubmitAction, o: Outcome) -> SubmitAction {
    match a {
        SubmitAction::ClearOverlays => if o == Outcome::Failed {
            SubmitAction::Fail(AutomationError::ScriptExecutionFailed)
        } else {
            SubmitAction::Settle(SETTLE_MS)
        },
        SubmitAction::Settle(_) => SubmitAction::LocateButton,
        SubmitAction::LocateButton => if o == Outcome::Failed {
            SubmitAction::Fail(AutomationError::ElementNotFound)
        } else {
            SubmitAction::ForceClick
        },
        SubmitAction::ForceClick => if o == Outcome::Failed {
            SubmitAction::Fail(AutomationError::ScriptExecutionFailed)
        } else if o == Outcome::Reported(true) {
            SubmitAction::Done
        } else {
            SubmitAction::PressEnter
        },
        SubmitAction::PressEnter => if o == Outcome::Failed {
            SubmitAction::Fail(AutomationError::ScriptExecutionFailed)
        } else {
            SubmitAction::Done
        },
        _ => a,
    }
}

/// One run of the submit recovery.
#[derive(Clone, Copy, Debug, PartialEq, Eq, Structural)]
pub struct SubmitRecovery {
    pub pending: SubmitAction,
}

impl SubmitRecovery {
    /// A run that starts by clearing the overlays.
    pub fn new() -> (r: SubmitRecovery)
        ensures
            r.pending == SubmitAction::ClearOverlays,
    {
        SubmitRecovery { pending: SubmitAction::ClearOverlays }
    }

    /// Records the outcome of the pending step.
    pub fn advance(&mut self, o: Outcome)
        ensures
            final(self).pending == submit_step(old(self).pending, o),
    {
        self.pending = match self.pending {
            SubmitAction::ClearOverlays => if o == Outcome::Failed {
                SubmitAction::Fail(AutomationError::ScriptExecutionFailed)
            } else {
                SubmitAction::Settle(SETTLE_MS)
            },
            SubmitAction::Settle(_) => SubmitAction::LocateButton,
            SubmitAction::LocateButton => if o == Outcome::Failed {
                SubmitAction::Fail(AutomationError::ElementNotFound)
            } else {
                SubmitAction::ForceClick
            },
            SubmitAction::ForceClick => if o == Outcome::Failed {
                SubmitAction::Fail(AutomationError::ScriptExecutionFailed)
            } else if o == Outcome::Reported(true) {
                SubmitAction::Done
            } else {
                SubmitAction::PressEnter
            },
            SubmitAction::PressEnter => if o == Outcome::Failed {
                SubmitAction::Fail(AutomationError::ScriptExecutionFailed)
            } else {
                SubmitAction::Done
            },
            other => other,
        };
    }
}

} // verus!
