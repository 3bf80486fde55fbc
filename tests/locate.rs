use job_apply::locate::{LocateStep, Locator, LOCATE_INTERVAL_MS, LOCATE_TIMEOUT_MS};

#[test]
fn hidden_match_is_skipped() {
    let mut l = Locator::new();
    assert_eq!(l.on_poll(&vec![false, true, true], 0), LocateStep::Found(1));
}

#[test]
fn only_hidden_matches_wait() {
    let mut l = Locator::new();
    assert_eq!(l.on_poll(&vec![false, false], 10), LocateStep::Wait(990));
    assert_eq!(l.on_poll(&vec![], 1500), LocateStep::Wait(500));
    assert_eq!(l.next_poll_ms, 2 * LOCATE_INTERVAL_MS);
}

#[test]
fn not_found_after_full_timeout() {
    let mut l = Locator::new();
    assert_eq!(l.on_poll(&vec![false], LOCATE_TIMEOUT_MS - 1), LocateStep::Wait(0));
    assert_eq!(l.on_poll(&vec![false], LOCATE_TIMEOUT_MS), LocateStep::NotFound);
}

#[test]
fn confirmation_accepts_any_match() {
    let mut l = Locator::for_confirmation();
    assert_eq!(l.on_poll(&vec![false], 0), LocateStep::Found(0));
    assert_eq!(l.on_poll(&vec![], 0), LocateStep::Wait(2000));
}
