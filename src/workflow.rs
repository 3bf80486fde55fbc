//! The top-level sequence of the run, one stage after the other.
use vstd::prelude::*;
use crate::error::AutomationError;
use crate::selectors::CriticalSelectors;

verus! {

/// The job-application page the run drives.
pub const URL: &'static str = "https://athenahealth.wd1.myworkdayjobs.com/External/job/Remote---MA/Lead-Linux-Systems-Engineer--Load-Balancing_R12284";

/// Text typed into the email field.
pub const EMAIL: &'static str = "user@example.com";

/// Text typed into both password fields.
pub const PASSWORD: &'static str = "SecurePass123!";

/// How many times the consent recovery is run, whatever each run achieves.
pub const CONSENT_ROUNDS: u64 = 3;

/// Implicit wait configured on the session, in seconds.
pub const IMPLICIT_WAIT_SECS: u64 = 10;

/// Page-load timeout configured on the session, in seconds.
pub const PAGE_LOAD_TIMEOUT_SECS: u64 = 30;

/// How long the finished session is held open for inspection, in seconds.
pub const HOLD_OPEN_SECS: u64 = 3600;

/// The stages of the run, in the order they are taken.
#[derive(Clone, Copy, Debug, PartialEq, Eq, Structural)]
pub enum Stage {
    Connect,
    Navigate,
    ClickApply,
    ClickManualApply,
    VerifyForm,
    FillEmail,
    FillPassword,
    FillVerifyPassword,
    CheckConsent,
    Submit,
    VerifyConfirmation,
    Idle,
}

/// The position of a stage in the run.
pub open spec fn stage_index(s: Stage) -> nat {
    match s {
        Stage::Connect => 0,
        Stage::Navigate => 1,
        Stage::ClickApply => 2,
        Stage::ClickManualApply => 3,
        Stage::VerifyForm => 4,
        Stage::FillEmail => 5,
        Stage::FillPassword => 6,
        Stage::FillVerifyPassword => 7,
        Stage::CheckConsent => 8,
        Stage::Submit => 9,
        Stage::VerifyConfirmation => 10,
        Stage::Idle => 11,
    }
}

/// The stage that follows `s`; `Idle` is the last.
pub open spec fn next_stage(s: Stage) -> Stage {
    match s {
        Stage::Connect => Stage::Navigate,
        Stage::Navigate => Stage::ClickApply,
        Stage::ClickApply => Stage::ClickManualApply,
        Stage::ClickManualApply => Stage::VerifyForm,
        Stage::VerifyForm => Stage::FillEmail,
        Stage::FillEmail => Stage::FillPassword,
        Stage::FillPassword => Stage::FillVerifyPassword,
        Stage::FillVerifyPassword => Stage::CheckConsent,
        Stage::CheckConsent => Stage::Submit,
        Stage::Submit => Stage::VerifyConfirmation,
        Stage::VerifyConfirmation => Stage::Idle,
        Stage::Idle => Stage::Idle,
    }
}

/// The target a stage acts on, if it acts on one of the table.
pub open spec fn target_of(s: Stage) -> Option<CriticalSelectors> {
    match s {
        Stage::ClickApply => Some(CriticalSelectors::ApplyButton),
        Stage::ClickManualApply => Some(CriticalSelectors::ManualApply),
        Stage::VerifyForm => Some(CriticalSelectors::ApplicationForm),
        Stage::FillEmail => Some(CriticalSelectors::EmailInput),
        Stage::FillPassword => Some(CriticalSelectors::PasswordInput),
        Stage::FillVerifyPassword => Some(CriticalSelectors::VerifyPasswordInput),
        Stage::CheckConsent => Some(CriticalSelectors::ConsentCheckbox),
        Stage::Submit => Some(CriticalSelectors::SubmitButton),
        _ => None,
    }
}

impl Stage {
    /// The target this stage acts on, if any.
    pub fn target(&self) -> (r: Option<CriticalSelectors>)
        ensures
            r == target_of(*self),
    {
        match self {
            Stage::ClickApply => Some(CriticalSelectors::ApplyButton),
            Stage::ClickManualApply => Some(CriticalSelectors::ManualApply),
            Stage::VerifyForm => Some(CriticalSelectors::ApplicationForm),
            Stage::FillEmail => Some(CriticalSelectors::EmailInput),
            Stage::FillPassword => Some(CriticalSelectors::PasswordInput),
            Stage::FillVerifyPassword => Some(CriticalSelectors::VerifyPasswordInput),
            Stage::CheckConsent => Some(CriticalSelectors::ConsentCheckbox),
            Stage::Submit => Some(CriticalSelectors::SubmitButton),
            _ => None,
        }
    }

    /// The text a filling stage types, if it is one.
    pub fn text(&self) -> (r: Option<&'static str>)
        ensures
            *self == Stage::FillEmail ==> r == Some(EMAIL),
            *self == Stage::FillPassword || *self == Stage::FillVerifyPassword ==> r == Some(
                PASSWORD,
            ),
            !(*self == Stage::FillEmail || *self == Stage::FillPassword || *self
                == Stage::FillVerifyPassword) ==> r is None,
    {
        match self {
            Stage::FillEmail => Some(EMAIL),
            Stage::FillPassword => Some(PASSWORD),
            Stage::FillVerifyPassword => Some(PASSWORD),
            _ => None,
        }
    }
}

/// Whether the run goes on or was aborted.
#[derive(Clone, Copy, Debug, PartialEq, Eq, Structural)]
pub enum RunStatus {
    Running,
    /// The stage in force failed with this error; nothing runs after it.
    Aborted(AutomationError),
}

/// The state of the run: the stage in force, how many consent rounds are
/// done, and whether the run was aborted.
#[derive(Clone, Copy, Debug, PartialEq, Eq, Structural)]
pub struct Workflow {
    pub stage: Stage,
    pub consent_rounds: u64,
    pub status: RunStatus,
}

impl Workflow {
    pub open spec fn wf(&self) -> bool {
        &&& self.consent_rounds < CONSENT_ROUNDS
        &&& self.stage != Stage::CheckConsent ==> self.consent_rounds == 0
    }
}

/// The run after the stage in force ended with `r`.
pub open spec fn workflow_step(w: Workflow, r: Result<(), AutomationError>) -> Workflow {
    if w.status != RunStatus::Running || w.stage == Stage::Idle {
        w
    } else {
        match r {
            Err(e) => Workflow { status: RunStatus::Aborted(e), ..w },
            Ok(()) => if w.stage == Stage::CheckConsent && w.consent_rounds + 1 < CONSENT_ROUNDS {
                Workflow { consent_rounds: (w.consent_rounds + 1) as u64, ..w }
            } else {
                Workflow { stage: next_stage(w.stage), consent_rounds: 0, ..w }
            },
        }
    }
}

impl Workflow {
    /// A run at its first stage.
    pub fn new() -> (r: Workflow)
        ensures
            r == (Workflow { stage: Stage::Connect, consent_rounds: 0, status: RunStatus::Running }),
            r.wf(),
    {
        Workflow { stage: Stage::Connect, consent_rounds: 0, status: RunStatus::Running }
    }

    /// Whether the stage in force still has to be performed.
    pub fn is_active(&self) -> (r: bool)
        ensures
            r == (self.status == RunStatus::Running && self.stage != Stage::Idle),
    {
        match self.status {
            RunStatus::Running => !matches!(self.stage, Stage::Idle),
            RunStatus::Aborted(_) => false,
        }
    }

    /// Records how the stage in force ended. A failure aborts the run at
    /// that stage; a success moves to the next stage, except that the consent
    /// stage is taken `CONSENT_ROUNDS` times.
    pub fn advance(&mut self, r: Result<(), AutomationError>)
        requires
            old(self).wf(),
        ensures
            *final(self) == workflow_step(*old(self), r),
            final(self).wf(),
            stage_index(old(self).stage) <= stage_index(final(self).stage) <= stage_index(
                old(self).stage,
            ) + 1,
            old(self).status != RunStatus::Running ==> *final(self) == *old(self),
    {
        match self.status {
            RunStatus::Aborted(_) => {},
            RunStatus::Running => {
                if matches!(self.stage, Stage::Idle) {
                    return;
                }
                match r {
                    Err(e) => {
                        self.status = RunStatus::Aborted(e);
                    },
                    Ok(()) => {
                        if matches!(self.stage, Stage::CheckConsent) && self.consent_rounds + 1
                            < CONSENT_ROUNDS {
                            self.consent_rounds = self.consent_rounds + 1;
                        } else {
                            self.stage = next(self.stage);
                            self.consent_rounds = 0;
                        }
                    },
                }
            },
        }
    }
}

fn next(s: Stage) -> (r: Stage)
    ensures
        r == next_stage(s),
{
    match s {
        Stage::Connect => Stage::Navigate,
        Stage::Navigate => Stage::ClickApply,
        Stage::ClickApply => Stage::ClickManualApply,
        Stage::ClickManualApply => Stage::VerifyForm,
        Stage::VerifyForm => Stage::FillEmail,
        Stage::FillEmail => Stage::FillPassword,
        Stage::FillPassword => Stage::FillVerifyPassword,
        Stage::FillVerifyPassword => Stage::CheckConsent,
        Stage::CheckConsent => Stage::Submit,
        Stage::Submit => Stage::VerifyConfirmation,
        Stage::VerifyConfirmation => Stage::Idle,
        Stage::Idle => Stage::Idle,
    }
}

} // verus!
