//! The bounded poll that resolves a target to a displayed element.
use vstd::prelude::*;

verus! {

/// Total time a target is waited for, in milliseconds.
pub const LOCATE_TIMEOUT_MS: u64 = 15000;

/// Time between the starts of two polls, in milliseconds.
pub const LOCATE_INTERVAL_MS: u64 = 1000;

/// Total time the confirmation of a submission is waited for, in milliseconds.
pub const CONFIRMATION_TIMEOUT_MS: u64 = 20000;

/// Time between two polls for the confirmation, in milliseconds.
pub const CONFIRMATION_INTERVAL_MS: u64 = 2000;

/// What the caller does after one poll of the page.
#[derive(Clone, Copy, Debug, PartialEq, Eq, Structural)]
pub enum LocateStep {
    /// The element at this position among the matches is the one located.
    Found(usize),
    /// Nothing usable yet: sleep this many milliseconds and poll again.
    Wait(u64),
    /// The timeout has elapsed without a usable match.
    NotFound,
}

/// The state of one bounded wait for an element.
#[derive(Clone, Copy, Debug, PartialEq, Eq, Structural)]
pub struct Locator {
    pub timeout_ms: u64,
    pub interval_ms: u64,
    /// Whether a match counts only when it is displayed.
    pub require_displayed: bool,
    /// When the next poll is due, in milliseconds from the start of the wait.
    pub next_poll_ms: u64,
}

/// Whether the match at position `i` is usable.
pub open spec fn usable(require_displayed: bool, displayed: Seq<bool>, i: int) -> bool {
    0 <= i < displayed.len() && (!require_displayed || displayed[i])
}

/// The usable match that comes first, if any.
pub open spec fn first_usable(require_displayed: bool, displayed: Seq<bool>) -> Option<int> {
    if exists|i: int| usable(require_displayed, displayed, i) {
        Some(
            choose|i: int|
                usable(require_displayed, displayed, i) && forall|k: int|
                    0 <= k < i ==> !usable(require_displayed, displayed, k),
        )
    } else {
        None
    }
}

impl Locator {
    /// The wait used for every logical UI target: displayed matches only,
    /// polled every second for fifteen seconds.
    pub fn new() -> (r: Locator)
        ensures
            r.timeout_ms == LOCATE_TIMEOUT_MS,
            r.interval_ms == LOCATE_INTERVAL_MS,
            r.require_displayed,
            r.next_poll_ms == 0,
    {
        Locator {
            timeout_ms: LOCATE_TIMEOUT_MS,
            interval_ms: LOCATE_INTERVAL_MS,
            require_displayed: true,
            next_poll_ms: 0,
        }
    }

    /// The wait for the confirmation of a submission: any match counts,
    /// polled every two seconds for twenty seconds.
    pub fn for_confirmation() -> (r: Locator)
        ensures
            r.timeout_ms == CONFIRMATION_TIMEOUT_MS,
            r.interval_ms == CONFIRMATION_INTERVAL_MS,
            !r.require_displayed,
            r.next_poll_ms == 0,
    {
        Locator {
            timeout_ms: CONFIRMATION_TIMEOUT_MS,
            interval_ms: CONFIRMATION_INTERVAL_MS,
            require_displayed: false,
            next_poll_ms: 0,
        }
    }

    /// Decides after one poll. `displayed` holds, for each element that
    /// matched the selector in document order, whether it is displayed;
    /// `elapsed_ms` is the time since the wait began.
    pub fn on_poll(&mut self, displayed: &Vec<bool>, elapsed_ms: u64) -> (r: LocateStep)
        ensures
            final(self).timeout_ms == old(self).timeout_ms,
            final(self).interval_ms == old(self).interval_ms,
            final(self).require_displayed == old(self).require_displayed,
            first_usable(old(self).require_displayed, displayed@) matches Some(i) ==> r
                == LocateStep::Found(i as usize),
            first_usable(old(self).require_displayed, displayed@) is None ==> {
                if elapsed_ms >= old(self).timeout_ms {
                    r == LocateStep::NotFound
                } else {
                    let next = if old(self).next_poll_ms + old(self).interval_ms > u64::MAX {
                        u64::MAX
                    } else {
                        (old(self).next_poll_ms + old(self).interval_ms) as u64
                    };
                    &&& final(self).next_poll_ms == next
                    &&& r == LocateStep::Wait(
                        if next > elapsed_ms {
                            (next - elapsed_ms) as u64
                        } else {
                            0
                        },
                    )
                }
            },
            r matches LocateStep::Found(i) ==> usable(old(self).require_displayed, displayed@, i as int),
    {
        let mut i: usize = 0;
        while i < displayed.len()
            invariant
                i <= displayed.len(),
                forall|k: int| 0 <= k < i ==> !usable(self.require_displayed, displayed@, k),
            decreases displayed.len() - i,
        {
            if !self.require_displayed || displayed[i] {
                proof {
                    let j = i as int;
                    assert(usable(self.require_displayed, displayed@, j));
                    let c = choose|c: int|
                        usable(self.require_displayed, displayed@, c) && forall|k: int|
                            0 <= k < c ==> !usable(self.require_displayed, displayed@, k);
                    assert(usable(self.require_displayed, displayed@, j) && forall|k: int|
                        0 <= k < j ==> !usable(self.require_displayed, displayed@, k));
                    assert(!(c < j)) by {
                        if c < j {
                            assert(!usable(self.require_displayed, displayed@, c));
                        }
                    }
                    assert(!(j < c)) by {
                        if j < c {
                            assert(!usable(self.require_displayed, displayed@, j));
                        }
                    }
                }
                return LocateStep::Found(i);
            }
            i = i + 1;
        }
        if elapsed_ms >= self.timeout_ms {
            return LocateStep::NotFound;
        }
        self.next_poll_ms = self.next_poll_ms.saturating_add(self.interval_ms);
        LocateStep::Wait(self.next_poll_ms.saturating_sub(elapsed_ms))
    }
}

} // verus!
