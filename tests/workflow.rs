use job_apply::connect::{ConnectAction, Connector, RETRY_PAUSE_MS, WEBDRIVER_PORT};
use job_apply::error::AutomationError;
use job_apply::recovery::{ConsentAction, ConsentRecovery, Outcome, SubmitAction, SubmitRecovery, SETTLE_MS};
use job_apply::selectors::CriticalSelectors;
use job_apply::workflow::{RunStatus, Stage, Workflow, EMAIL, PASSWORD};

fn advance_to(w: &mut Workflow, stage: Stage) {
    while w.stage != stage {
        w.advance(Ok(()));
    }
}

#[test]
fn form_never_loads_aborts_at_verify_form() {
    let mut w = Workflow::new();
    advance_to(&mut w, Stage::VerifyForm);
    w.advance(Err(AutomationError::ElementNotFound));
    assert_eq!(w.stage, Stage::VerifyForm);
    assert_eq!(w.status, RunStatus::Aborted(AutomationError::ElementNotFound));
    assert!(!w.is_active());
    w.advance(Ok(()));
    assert_eq!(w.stage, Stage::VerifyForm);
}

#[test]
fn refused_connections_abort_before_navigate() {
    let mut c = Connector::new(WEBDRIVER_PORT);
    let mut connects = 0;
    let mut pauses = 0;
    loop {
        match c.pending() {
            ConnectAction::Connect => {
                connects += 1;
                c.advance(false);
            }
            ConnectAction::Pause(ms) => {
                assert_eq!(ms, RETRY_PAUSE_MS);
                pauses += 1;
                c.advance(true);
            }
            _ => break,
        }
    }
    assert_eq!(connects, 3);
    assert_eq!(pauses, 2);
    assert_eq!(c.pending(), ConnectAction::Fail(AutomationError::ConnectionFailed));
    let mut w = Workflow::new();
    w.advance(Err(AutomationError::ConnectionFailed));
    assert_eq!(w.stage, Stage::Connect);
    assert_eq!(w.status, RunStatus::Aborted(AutomationError::ConnectionFailed));
}

#[test]
fn second_connection_attempt_succeeds() {
    let mut c = Connector::new(WEBDRIVER_PORT);
    c.advance(false);
    c.advance(true);
    c.advance(true);
    assert_eq!(c.pending(), ConnectAction::Connected);
    assert_eq!(c.attempts, 2);
}

#[test]
fn javascript_bypass_reaches_confirmation() {
    let mut s = SubmitRecovery::new();
    s.advance(Outcome::Completed);
    assert_eq!(s.pending, SubmitAction::Settle(SETTLE_MS));
    s.advance(Outcome::Completed);
    assert_eq!(s.pending, SubmitAction::LocateButton);
    s.advance(Outcome::Completed);
    assert_eq!(s.pending, SubmitAction::ForceClick);
    s.advance(Outcome::Reported(true));
    assert_eq!(s.pending, SubmitAction::Done);
    let mut w = Workflow::new();
    advance_to(&mut w, Stage::Submit);
    w.advance(Ok(()));
    assert_eq!(w.stage, Stage::VerifyConfirmation);
    assert_eq!(w.status, RunStatus::Running);
}

#[test]
fn submit_falls_back_to_enter_key() {
    let mut s = SubmitRecovery::new();
    for o in [Outcome::Completed, Outcome::Completed, Outcome::Completed, Outcome::Reported(false)] {
        s.advance(o);
    }
    assert_eq!(s.pending, SubmitAction::PressEnter);
    s.advance(Outcome::Completed);
    assert_eq!(s.pending, SubmitAction::Done);
}

#[test]
fn submit_without_button_is_not_found() {
    let mut s = SubmitRecovery::new();
    s.advance(Outcome::Completed);
    s.advance(Outcome::Completed);
    s.advance(Outcome::Failed);
    assert_eq!(s.pending, SubmitAction::Fail(AutomationError::ElementNotFound));
}

#[test]
fn absent_checkbox_falls_back_to_plain_click() {
    let mut c = ConsentRecovery::new();
    c.advance(Outcome::Completed);
    assert_eq!(c.pending, ConsentAction::CheckScript);
    c.advance(Outcome::Reported(false));
    assert_eq!(c.pending, ConsentAction::LocateCheckbox);
    c.advance(Outcome::Completed);
    assert_eq!(c.pending, ConsentAction::ClickCheckbox);
    c.advance(Outcome::Completed);
    assert_eq!(c.pending, ConsentAction::Done);
}

#[test]
fn consent_script_success_is_done() {
    let mut c = ConsentRecovery::new();
    c.advance(Outcome::Completed);
    c.advance(Outcome::Reported(true));
    assert_eq!(c.pending, ConsentAction::Done);
}

#[test]
fn consent_script_transport_error_aborts() {
    let mut c = ConsentRecovery::new();
    c.advance(Outcome::Failed);
    assert_eq!(c.pending, ConsentAction::Fail(AutomationError::ScriptExecutionFailed));
}

#[test]
fn consent_stage_runs_three_times() {
    let mut w = Workflow::new();
    advance_to(&mut w, Stage::CheckConsent);
    w.advance(Ok(()));
    w.advance(Ok(()));
    assert_eq!(w.stage, Stage::CheckConsent);
    w.advance(Ok(()));
    assert_eq!(w.stage, Stage::Submit);
}

#[test]
fn stages_in_order_and_idle_is_last() {
    let mut w = Workflow::new();
    let mut seen = vec![w.stage];
    while w.is_active() {
        w.advance(Ok(()));
        if *seen.last().unwrap() != w.stage {
            seen.push(w.stage);
        }
    }
    assert_eq!(seen.len(), 12);
    assert_eq!(seen[1], Stage::Navigate);
    assert_eq!(*seen.last().unwrap(), Stage::Idle);
}

#[test]
fn stage_targets_and_texts() {
    assert_eq!(Stage::Submit.target(), Some(CriticalSelectors::SubmitButton));
    assert_eq!(Stage::Navigate.target(), None);
    assert_eq!(Stage::FillEmail.text(), Some(EMAIL));
    assert_eq!(Stage::FillVerifyPassword.text(), Some(PASSWORD));
    assert_eq!(Stage::Submit.text(), None);
}
