//! The request-rate governor: a token bucket that admits at most `capacity`
//! requests at once and gets one token back every `period / capacity`.
//!
//! This module holds the governor's decisions as a state machine. Whoever runs
//! it feeds it two kinds of events: a caller asks for a token, or the refill
//! interval has elapsed. Tokens are never handed back by callers; only the
//! refill returns them.

use vstd::arithmetic::div_mod::{lemma_fundamental_div_mod, lemma_mod_pos_bound};
use vstd::prelude::*;

verus! {

/// The abstract state of a governor.
pub struct TokenState {
    /// The most tokens the bucket holds.
    pub capacity: nat,
    /// The tokens that can be claimed now.
    pub available: nat,
}

/// What happens to a governor.
#[derive(Debug, Clone, Copy, PartialEq, Eq, Structural)]
pub enum GovernorEvent {
    /// A caller asks for a token.
    Acquire,
    /// The refill interval has elapsed.
    Tick,
}

/// What the governor decides on an event.
#[derive(Debug, Clone, Copy, PartialEq, Eq, Structural)]
pub enum GovernorAction {
    /// The caller got a token and may send its request.
    Admit,
    /// No token is available: the caller waits for a refill.
    Wait,
    /// A token was returned to the bucket.
    Refilled,
    /// The bucket was full; the refill was dropped.
    Full,
}

/// A governor's state is sound: a positive capacity, never exceeded.
pub open spec fn token_state_wf(s: TokenState) -> bool {
    s.capacity > 0 && s.available <= s.capacity
}

/// The state after `ev`.
pub open spec fn next_state(s: TokenState, ev: GovernorEvent) -> TokenState {
    match ev {
        GovernorEvent::Acquire => if s.available > 0 {
            TokenState { capacity: s.capacity, available: (s.available - 1) as nat }
        } else {
            s
        },
        GovernorEvent::Tick => if s.available < s.capacity {
            TokenState { capacity: s.capacity, available: s.available + 1 }
        } else {
            s
        },
    }
}

/// The decision on `ev` in state `s`.
pub open spec fn action_of(s: TokenState, ev: GovernorEvent) -> GovernorAction {
    match ev {
        GovernorEvent::Acquire => if s.available > 0 {
            GovernorAction::Admit
        } else {
            GovernorAction::Wait
        },
        GovernorEvent::Tick => if s.available < s.capacity {
            GovernorAction::Refilled
        } else {
            GovernorAction::Full
        },
    }
}

/// The state after a run of events.
pub open spec fn run(s: TokenState, evs: Seq<GovernorEvent>) -> TokenState
    decreases evs.len(),
{
    if evs.len() == 0 {
        s
    } else {
        next_state(run(s, evs.drop_last()), evs.last())
    }
}

/// How many callers a run of events admits.
pub open spec fn admitted(s: TokenState, evs: Seq<GovernorEvent>) -> nat
    decreases evs.len(),
{
    if evs.len() == 0 {
        0
    } else {
        admitted(s, evs.drop_last()) + if action_of(run(s, evs.drop_last()), evs.last())
            == GovernorAction::Admit {
            1nat
        } else {
            0nat
        }
    }
}

/// How many refill intervals elapse in a run of events.
pub open spec fn ticks(evs: Seq<GovernorEvent>) -> nat
    decreases evs.len(),
{
    if evs.len() == 0 {
        0
    } else {
        ticks(evs.drop_last()) + if evs.last() == GovernorEvent::Tick {
            1nat
        } else {
            0nat
        }
    }
}

/// The refill interval in milliseconds of a governor admitting `rate`
/// requests per `per_seconds` seconds, rounded up so that refills never come
/// faster than the rate.
pub open spec fn refill_interval(rate: u32, per_seconds: u32) -> nat {
    ((per_seconds as int * 1000 + rate as int - 1) / rate as int) as nat
}

/// Refills come every `refill_interval` milliseconds. Within any window of
/// one period, `[t, t + period)`, the refills that land are at most `rate`
/// consecutive ones: their indices `k1 <= k2` differ by less than `rate`.
pub proof fn lemma_refills_per_period(rate: u32, per_seconds: u32, t: int, k1: int, k2: int)
    requires
        rate > 0,
        per_seconds > 0,
        k1 <= k2,
        t <= k1 * refill_interval(rate, per_seconds) < t + per_seconds * 1000,
        t <= k2 * refill_interval(rate, per_seconds) < t + per_seconds * 1000,
    ensures
        k2 - k1 < rate,
        refill_interval(rate, per_seconds) * rate >= per_seconds * 1000,
{
    let p: int = per_seconds * 1000;
    let r: int = rate as int;
    let x: int = p + r - 1;
    let i: int = refill_interval(rate, per_seconds) as int;
    assert(i == x / r);
    lemma_fundamental_div_mod(x, r);
    lemma_mod_pos_bound(x, r);
    assert(r * i >= p);
    assert(i * r == r * i) by (nonlinear_arith);
    assert((k2 - k1) * i < p) by (nonlinear_arith)
        requires
            t <= k1 * i,
            k2 * i < t + p,
    ;
    assert(k2 - k1 < r) by (nonlinear_arith)
        requires
            (k2 - k1) * i < p,
            r * i >= p,
            i >= 0,
    ;
}

/// Every run keeps the state sound, and admits no more callers than the
/// tokens held at its start plus the refills within it. So once the bucket
/// is drained, a window holding at most `capacity` refills admits at most
/// `capacity` callers; `lemma_refills_per_period` shows that a window of one
/// period holds no more refills than that.
pub proof fn lemma_window_admissions(s: TokenState, evs: Seq<GovernorEvent>)
    requires
        token_state_wf(s),
    ensures
        token_state_wf(run(s, evs)),
        run(s, evs).capacity == s.capacity,
        admitted(s, evs) + run(s, evs).available <= s.available + ticks(evs),
        s.available == 0 && ticks(evs) <= s.capacity ==> admitted(s, evs) <= s.capacity,
    decreases evs.len(),
{
    if evs.len() > 0 {
        lemma_window_admissions(s, evs.drop_last());
    }
}

/// A token-bucket governor.
pub struct RateLimiter {
    capacity: u32,
    available: u32,
    refill_interval_ms: u64,
}

impl View for RateLimiter {
    type V = TokenState;

    closed spec fn view(&self) -> TokenState {
        TokenState { capacity: self.capacity as nat, available: self.available as nat }
    }
}

impl RateLimiter {
    /// The refill interval in milliseconds.
    pub closed spec fn interval(&self) -> nat {
        self.refill_interval_ms as nat
    }

    /// A full governor admitting `rate` requests per `per_seconds` seconds.
    pub fn new(rate: u32, per_seconds: u32) -> (r: RateLimiter)
        requires
            rate > 0,
            per_seconds > 0,
        ensures
            r@ == (TokenState { capacity: rate as nat, available: rate as nat }),
            r.interval() == refill_interval(rate, per_seconds),
    {
        let ms: u64 = per_seconds as u64 * 1000 + rate as u64 - 1;
        RateLimiter { capacity: rate, available: rate, refill_interval_ms: ms / rate as u64 }
    }

    /// The most tokens the bucket holds.
    pub fn capacity(&self) -> (r: u32)
        ensures
            r as nat == self@.capacity,
    {
        self.capacity
    }

    /// The tokens that can be claimed now.
    pub fn available(&self) -> (r: u32)
        ensures
            r as nat == self@.available,
    {
        self.available
    }

    /// The time between two refills, in milliseconds.
    pub fn refill_interval_ms(&self) -> (r: u64)
        ensures
            r as nat == self.interval(),
    {
        self.refill_interval_ms
    }

    /// Decides on an event and moves to the next state.
    pub fn on_event(&mut self, ev: GovernorEvent) -> (a: GovernorAction)
        requires
            token_state_wf(old(self)@),
        ensures
            final(self)@ == next_state(old(self)@, ev),
            token_state_wf(final(self)@),
            final(self).interval() == old(self).interval(),
            a == action_of(old(self)@, ev),
    {
        match ev {
            GovernorEvent::Acquire => {
                if self.available > 0 {
                    self.available = self.available - 1;
                    GovernorAction::Admit
                } else {
                    GovernorAction::Wait
                }
            },
            GovernorEvent::Tick => {
                if self.available < self.capacity {
                    self.available = self.available + 1;
                    GovernorAction::Refilled
                } else {
                    GovernorAction::Full
                }
            },
        }
    }

    /// Claims a token if one is available.
    pub fn try_acquire(&mut self) -> (admitted: bool)
        requires
            token_state_wf(old(self)@),
        ensures
            final(self)@ == next_state(old(self)@, GovernorEvent::Acquire),
            token_state_wf(final(self)@),
            final(self).interval() == old(self).interval(),
            admitted == (old(self)@.available > 0),
    {
        self.on_event(GovernorEvent::Acquire) == GovernorAction::Admit
    }

    /// Returns one token to the bucket, unless it is full.
    pub fn replenish(&mut self)
        requires
            token_state_wf(old(self)@),
        ensures
            final(self)@ == next_state(old(self)@, GovernorEvent::Tick),
            token_state_wf(final(self)@),
            final(self).interval() == old(self).interval(),
    {
        self.on_event(GovernorEvent::Tick);
    }
}

} // verus!
