use job_apply::error::AutomationError;
use job_apply::redundancy::{Action, Interaction, Redundancy, ACTION_RETRIES};

fn drive(kind: Interaction, outcomes: &[bool]) -> (Vec<Action>, Redundancy) {
    let mut m = Redundancy::new(kind);
    let mut trace = vec![m.pending()];
    for &ok in outcomes {
        m.advance(ok);
        trace.push(m.pending());
    }
    (trace, m)
}

#[test]
fn click_succeeds_first_time() {
    let (trace, m) = drive(Interaction::Click, &[true, true]);
    assert_eq!(trace, vec![Action::Locate, Action::Native, Action::Succeed]);
    assert!(m.is_finished());
    assert_eq!(m.attempts, 1);
}

#[test]
fn click_fallback_between_failed_attempts() {
    let (trace, m) = drive(Interaction::Click, &[true, false, true, false, true, true]);
    assert_eq!(
        trace,
        vec![
            Action::Locate,
            Action::Native,
            Action::Fallback,
            Action::Native,
            Action::Fallback,
            Action::Native,
            Action::Succeed,
        ]
    );
    assert_eq!(m.attempts, 3);
}

#[test]
fn click_gives_up_after_three_attempts() {
    let (trace, m) = drive(Interaction::Click, &[true, false, true, false, true, false, false]);
    let natives = trace.iter().filter(|a| **a == Action::Native).count();
    assert_eq!(natives as u64, ACTION_RETRIES);
    assert_eq!(m.pending(), Action::Fail(AutomationError::InteractionFailed));
    assert_eq!(*trace.last().unwrap(), Action::Fail(AutomationError::InteractionFailed));
}

#[test]
fn missing_element_is_not_found() {
    let (trace, _) = drive(Interaction::TypeText, &[false]);
    assert_eq!(trace, vec![Action::Locate, Action::Fail(AutomationError::ElementNotFound)]);
}

#[test]
fn failing_fallback_script_aborts() {
    let (trace, _) = drive(Interaction::TypeText, &[true, false, false]);
    assert_eq!(
        *trace.last().unwrap(),
        Action::Fail(AutomationError::ScriptExecutionFailed)
    );
}

#[test]
fn type_text_injects_value_once_per_failure() {
    let (trace, m) = drive(Interaction::TypeText, &[true, false, true, true]);
    assert_eq!(
        trace,
        vec![Action::Locate, Action::Native, Action::Fallback, Action::Native, Action::Succeed]
    );
    assert_eq!(m.kind, Interaction::TypeText);
}
