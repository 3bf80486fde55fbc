//! Retry with a scripted fallback between attempts: the combinator behind
//! both the redundant click and the redundant text entry.
use vstd::prelude::*;
use crate::error::AutomationError;

verus! {

/// How many native attempts an interaction gets.
pub const ACTION_RETRIES: u64 = 3;

/// The native interaction being made redundant.
#[derive(Clone, Copy, Debug, PartialEq, Eq, Structural)]
pub enum Interaction {
    /// A native click; its fallback scrolls the element into view and clicks
    /// it through the DOM.
    Click,
    /// Native text entry; its fallback sets the element's value and fires an
    /// input notification.
    TypeText,
}

/// What the caller must do next.
#[derive(Clone, Copy, Debug, PartialEq, Eq, Structural)]
pub enum Action {
    /// Find the target element (bounded wait for a displayed match).
    Locate,
    /// Make one native attempt on the element found.
    Native,
    /// Run the scripted fallback for the interaction on the element.
    Fallback,
    /// The interaction is done.
    Succeed,
    /// The interaction failed for good.
    Fail(AutomationError),
}

/// The state of one redundant interaction: the action pending and how many
/// native attempts have been issued so far (the pending one included).
#[derive(Clone, Copy, Debug, PartialEq, Eq, Structural)]
pub struct Redundancy {
    pub kind: Interaction,
    pub attempts: u64,
    pub pending: Action,
}

impl Redundancy {
    pub open spec fn wf(&self) -> bool {
        &&& self.attempts <= ACTION_RETRIES
        &&& (self.pending == Action::Locate ==> self.attempts == 0)
        &&& (self.pending == Action::Native ==> self.attempts >= 1)
        &&& (self.pending == Action::Fallback ==> 1 <= self.attempts < ACTION_RETRIES)
    }
}

/// The state in which every interaction starts.
pub open spec fn initial(kind: Interaction) -> Redundancy {
    Redundancy { kind, attempts: 0, pending: Action::Locate }
}

/// The state after the pending action was performed, `ok` telling whether it
/// succeeded.
pub open spec fn step(m: Redundancy, ok: bool) -> Redundancy {
    match m.pending {
        Action::Locate => if ok {
            Redundancy { attempts: 1, pending: Action::Native, ..m }
        } else {
            Redundancy { pending: Action::Fail(AutomationError::ElementNotFound), ..m }
        },
        Action::Native => if ok {
            Redundancy { pending: Action::Succeed, ..m }
        } else if m.attempts < ACTION_RETRIES {
            Redundancy { pending: Action::Fallback, ..m }
        } else {
            Redundancy { pending: Action::Fail(AutomationError::InteractionFailed), ..m }
        },
        Action::Fallback => if ok {
            Redundancy { attempts: (m.attempts + 1) as u64, pending: Action::Native, ..m }
        } else {
            Redundancy { pending: Action::Fail(AutomationError::ScriptExecutionFailed), ..m }
        },
        _ => m,
    }
}

impl Redundancy {
    /// A fresh interaction of the given kind; its first action is `Locate`.
    pub fn new(kind: Interaction) -> (r: Redundancy)
        ensures
            r == initial(kind),
            r.wf(),
    {
        Redundancy { kind, attempts: 0, pending: Action::Locate }
    }

    /// The action the caller must perform now.
    pub fn pending(&self) -> (r: Action)
        ensures
            r == self.pending,
    {
        self.pending
    }

    /// Whether the interaction has come to an end.
    pub fn is_finished(&self) -> (r: bool)
        ensures
            r == (self.pending is Succeed || self.pending is Fail),
    {
        match self.pending {
            Action::Succeed | Action::Fail(_) => true,
            _ => false,
        }
    }

    /// Records the outcome of the pending action and moves to the next one.
    pub fn advance(&mut self, ok: bool)
        requires
            old(self).wf(),
        ensures
            *final(self) == step(*old(self), ok),
            final(self).wf(),
    {
        match self.pending {
            Action::Locate => {
                if ok {
                    self.attempts = 1;
                    self.pending = Action::Native;
                } else {
                    self.pending = Action::Fail(AutomationError::ElementNotFound);
                }
            },
            Action::Native => {
                if ok {
                    self.pending = Action::Succeed;
                } else if self.attempts < ACTION_RETRIES {
                    self.pending = Action::Fallback;
                } else {
                    self.pending = Action::Fail(AutomationError::InteractionFailed);
                }
            },
            Action::Fallback => {
                if ok {
                    self.attempts = self.attempts + 1;
                    self.pending = Action::Native;
                } else {
                    self.pending = Action::Fail(AutomationError::ScriptExecutionFailed);
                }
            },
            _ => {},
        }
    }
}

/// The state after the outcomes `events` of the successive pending actions.
pub open spec fn run(m: Redundancy, events: Seq<bool>) -> Redundancy
    decreases events.len(),
{
    if events.len() == 0 {
        m
    } else {
        step(run(m, events.drop_last()), events.last())
    }
}

/// The actions asked of the caller along `events`: the pending action before
/// each outcome, then the one after the last.
pub open spec fn trace(m: Redundancy, events: Seq<bool>) -> Seq<Action>
    decreases events.len(),
{
    if events.len() == 0 {
        seq![m.pending]
    } else {
        trace(m, events.drop_last()).push(run(m, events).pending)
    }
}

/// How many of the first `n` actions of `t` are native attempts.
pub open spec fn natives_upto(t: Seq<Action>, n: int) -> nat
    decreases n,
{
    if n <= 0 {
        0
    } else {
        natives_upto(t, n - 1) + if t[n - 1] == Action::Native {
            1nat
        } else {
            0nat
        }
    }
}

/// Whether the action at position `i` of `t` is a native attempt.
pub open spec fn native_at(t: Seq<Action>, i: int) -> bool {
    t[i] == Action::Native
}

/// Between any two consecutive native attempts of `t` stands exactly one
/// action, and it is a fallback.
#[verifier::opaque]
pub open spec fn one_fallback_between(t: Seq<Action>) -> bool {
    forall|i: int, j: int|
        #![trigger native_at(t, i), native_at(t, j)]
        0 <= i < j < t.len() && native_at(t, i) && native_at(t, j) && (forall|k: int|
            i < k < j ==> !native_at(t, k)) ==> j == i + 2 && t[i + 1] == Action::Fallback
}

/// In `t`, the action after each failed native attempt made while budget was
/// left is the fallback, and the action after each fallback that went
/// through is a native attempt.
#[verifier::opaque]
pub open spec fn fallback_between_attempts(t: Seq<Action>, events: Seq<bool>) -> bool {
    &&& forall|i: int|
        #![trigger events[i], t[i]]
        0 <= i < events.len() && t[i] == Action::Native && !events[i] && natives_upto(t, i + 1)
            < ACTION_RETRIES ==> t[i + 1] == Action::Fallback
    &&& forall|i: int|
        #![trigger events[i], t[i]]
        0 <= i < events.len() && t[i] == Action::Fallback && events[i] ==> t[i + 1]
            == Action::Native
}

proof fn lemma_natives_prefix(t1: Seq<Action>, t2: Seq<Action>, n: int)
    requires
        0 <= n <= t1.len(),
        n <= t2.len(),
        forall|k: int| 0 <= k < n ==> t1[k] == t2[k],
    ensures
        natives_upto(t1, n) == natives_upto(t2, n),
    decreases n,
{
    if n > 0 {
        lemma_natives_prefix(t1, t2, n - 1);
    }
}

#[verifier::opaque]
spec fn shape(s: Redundancy, t: Seq<Action>) -> bool {
    &&& t.len() >= 1
    &&& t[t.len() - 1] == s.pending
    &&& s.wf()
    &&& natives_upto(t, t.len() as int) == s.attempts
    &&& (s.pending == Action::Locate ==> t.len() == 1)
    &&& (s.pending == Action::Fallback ==> t.len() >= 2 && t[t.len() - 2] == Action::Native)
    &&& t[0] == Action::Locate
}

proof fn lemma_step_shape(sp: Redundancy, tp: Seq<Action>, x: bool)
    requires
        shape(sp, tp),
    ensures
        shape(step(sp, x), tp.push(step(sp, x).pending)),
{
    reveal(shape);
    let s = step(sp, x);
    let t = tp.push(s.pending);
    let n = t.len() as int;
    assert forall|k: int| 0 <= k < n - 1 implies t[k] == tp[k] by {}
    lemma_natives_prefix(t, tp, n - 1);
}

proof fn lemma_step_separated(sp: Redundancy, tp: Seq<Action>, x: bool)
    requires
        shape(sp, tp),
        one_fallback_between(tp),
    ensures
        one_fallback_between(tp.push(step(sp, x).pending)),
{
    reveal(one_fallback_between);
    reveal(shape);
    let s = step(sp, x);
    let t = tp.push(s.pending);
    let n = t.len() as int;
    assert forall|k: int| 0 <= k < n - 1 implies t[k] == tp[k] by {}
    assert forall|i: int, j: int|
        #![trigger native_at(t, i), native_at(t, j)]
        0 <= i < j < t.len() && native_at(t, i) && native_at(t, j) && (forall|k: int|
            i < k < j ==> !native_at(t, k)) implies j == i + 2 && t[i + 1] == Action::Fallback by {
        if j < n - 1 {
            assert(native_at(tp, i) && native_at(tp, j));
            assert forall|k: int| i < k < j implies !native_at(tp, k) by {
                assert(!native_at(t, k));
            }
        } else {
            assert(sp.pending == Action::Fallback);
            assert(native_at(t, n - 3));
            if i < n - 3 {
                assert(!native_at(t, n - 3));
            }
        }
    }
}

proof fn lemma_step_follows(sp: Redundancy, tp: Seq<Action>, p: Seq<bool>, x: bool)
    requires
        shape(sp, tp),
        tp.len() == p.len() + 1,
        fallback_between_attempts(tp, p),
    ensures
        fallback_between_attempts(tp.push(step(sp, x).pending), p.push(x)),
{
    reveal(fallback_between_attempts);
    reveal(shape);
    let s = step(sp, x);
    let t = tp.push(s.pending);
    let events = p.push(x);
    assert forall|i: int|
        #![trigger events[i], t[i]]
        0 <= i < events.len() && t[i] == Action::Native && !events[i] && natives_upto(t, i + 1)
            < ACTION_RETRIES implies t[i + 1] == Action::Fallback by {
        assert forall|k: int| 0 <= k < i + 1 implies t[k] == tp[k] by {}
        lemma_natives_prefix(t, tp, i + 1);
        if i < p.len() {
            assert(events[i] == p[i] && t[i] == tp[i]);
        }
    }
    assert forall|i: int|
        #![trigger events[i], t[i]]
        0 <= i < events.len() && t[i] == Action::Fallback && events[i] implies t[i + 1]
            == Action::Native by {
        if i < p.len() {
            assert(events[i] == p[i] && t[i] == tp[i]);
        }
    }
}

proof fn lemma_trace_invariant(kind: Interaction, events: Seq<bool>)
    ensures
        trace(initial(kind), events).len() == events.len() + 1,
        shape(run(initial(kind), events), trace(initial(kind), events)),
        one_fallback_between(trace(initial(kind), events)),
        fallback_between_attempts(trace(initial(kind), events), events),
    decreases events.len(),
{
    let m = initial(kind);
    if events.len() == 0 {
        reveal(shape);
        reveal(one_fallback_between);
        reveal(fallback_between_attempts);
        assert(natives_upto(seq![m.pending], 1) == 0) by {
            reveal_with_fuel(natives_upto, 2);
        }
    } else {
        let p = events.drop_last();
        let x = events.last();
        lemma_trace_invariant(kind, p);
        let sp = run(m, p);
        let tp = trace(m, p);
        assert(p.push(x) =~= events);
        assert(run(m, events) == step(sp, x));
        assert(trace(m, events) == tp.push(step(sp, x).pending));
        lemma_step_shape(sp, tp, x);
        lemma_step_separated(sp, tp, x);
        lemma_step_follows(sp, tp, p, x);
    }
}

/// Along any sequence of outcomes, a redundant interaction makes at most
/// `ACTION_RETRIES` native attempts; between two consecutive attempts it runs
/// exactly one fallback; a failed attempt that leaves budget is followed by
/// the fallback, and a fallback that went through by the next attempt.
pub proof fn lemma_redundancy_trace(kind: Interaction, events: Seq<bool>)
    ensures
        natives_upto(trace(initial(kind), events), events.len() + 1int) <= ACTION_RETRIES,
        one_fallback_between(trace(initial(kind), events)),
        fallback_between_attempts(trace(initial(kind), events), events),
{
    lemma_trace_invariant(kind, events);
    reveal(shape);
}

} // verus!
