use job_apply::selectors::CriticalSelectors;

const ALL: [CriticalSelectors; 8] = [
    CriticalSelectors::ApplyButton,
    CriticalSelectors::ApplicationForm,
    CriticalSelectors::ManualApply,
    CriticalSelectors::EmailInput,
    CriticalSelectors::PasswordInput,
    CriticalSelectors::VerifyPasswordInput,
    CriticalSelectors::SubmitButton,
    CriticalSelectors::ConsentCheckbox,
];

#[test]
fn every_selector_list_is_non_empty_and_balanced() {
    for t in ALL {
        let s = t.selector();
        assert!(!s.is_empty());
        for alt in s.split(", ") {
            assert!(!alt.trim().is_empty());
            assert_eq!(alt.matches('[').count(), alt.matches(']').count());
            assert_eq!(alt.matches('\'').count() % 2, 0);
        }
    }
}

#[test]
fn apply_button_has_two_alternatives() {
    assert_eq!(
        CriticalSelectors::ApplyButton.selector(),
        "a[role='button'][data-automation-id='adventureButton'], a[role='button'][data-uxi-element-id*='Apply']"
    );
}

#[test]
fn consent_checkbox_has_four_alternatives() {
    let s = CriticalSelectors::ConsentCheckbox.selector();
    assert_eq!(s.split(", ").count(), 4);
    assert!(s.starts_with("#input-8, "));
}

#[test]
fn single_selectors() {
    assert_eq!(CriticalSelectors::EmailInput.selector(), "input[data-automation-id='email']");
    assert_eq!(CriticalSelectors::PasswordInput.selector(), "input[data-automation-id='password']");
    assert_eq!(
        CriticalSelectors::VerifyPasswordInput.selector(),
        "input[data-automation-id='verifyPassword']"
    );
    assert_eq!(
        CriticalSelectors::ManualApply.selector(),
        "a[role='button'][data-automation-id='applyManually']"
    );
}

#[test]
fn descriptions() {
    assert_eq!(CriticalSelectors::SubmitButton.description(), "Submit Button");
    assert_eq!(CriticalSelectors::ApplicationForm.description(), "Application Form");
}
