//! The clock that says when the two countdown timers are due to drop.

use vstd::arithmetic::div_mod::{
    lemma_fundamental_div_mod, lemma_hoist_over_denominator, lemma_mod_multiples_vanish,
};
use vstd::prelude::*;

verus! {

/// Timer ticks in a second of wall-clock time.
pub const TICK_HZ: u64 = 60;

/// Nanoseconds in a second.
pub const NANOS_PER_SECOND: u64 = 1_000_000_000;

/// How the passing of time is measured.
#[derive(Debug, Clone, Copy, PartialEq, Eq, Structural)]
pub enum TimerPolicy {
    /// By the host's clock: sixty ticks to the second, whatever the rate at
    /// which instructions run. Time is handed to the clock in nanoseconds.
    WallClock,
    /// By counting instructions: one tick for every `per_tick` of them.
    InstructionCount { per_tick: u64 },
}

/// What a clock holds: its policy and the time taken in that has not yet
/// made up a tick.
pub struct TimerClockState {
    pub policy: TimerPolicy,
    pub pending: nat,
}

impl TimerClockState {
    /// What one unit handed to the clock counts for.
    pub open spec fn weight(self) -> nat {
        match self.policy {
            TimerPolicy::WallClock => TICK_HZ as nat,
            TimerPolicy::InstructionCount { per_tick } => 1,
        }
    }

    /// How much has to gather for one tick.
    pub open spec fn period(self) -> nat {
        match self.policy {
            TimerPolicy::WallClock => NANOS_PER_SECOND as nat,
            TimerPolicy::InstructionCount { per_tick } => per_tick as nat,
        }
    }

    /// The period is positive and less than a period is pending.
    pub open spec fn wf(self) -> bool {
        self.period() > 0 && self.pending < self.period()
    }

    /// All that has gathered once `amount` more units are taken in.
    pub open spec fn gathered(self, amount: u64) -> nat {
        self.pending + (amount as nat) * self.weight()
    }

    /// The ticks that fall due when `amount` more units are taken in.
    pub open spec fn ticks_due(self, amount: u64) -> nat {
        self.gathered(amount) / self.period()
    }

    /// The clock after `amount` more units were taken in: whole ticks are
    /// paid out and the remainder stays pending.
    pub open spec fn advanced(self, amount: u64) -> TimerClockState {
        TimerClockState { policy: self.policy, pending: self.gathered(amount) % self.period() }
    }
}

/// An accumulator of elapsed time. It pays out exactly the ticks that are
/// owed: the remainder of each call is carried over to the next.
#[derive(Debug)]
pub struct TimerClock {
    policy: TimerPolicy,
    pending: u64,
}

impl View for TimerClock {
    type V = TimerClockState;

    closed spec fn view(&self) -> TimerClockState {
        TimerClockState { policy: self.policy, pending: self.pending as nat }
    }
}

impl TimerClock {
    #[verifier::type_invariant]
    spec fn inv(self) -> bool {
        self@.wf()
    }

    /// A clock that ticks sixty times for each second handed to it.
    pub fn wall_clock() -> (clock: TimerClock)
        ensures
            clock@ == (TimerClockState { policy: TimerPolicy::WallClock, pending: 0 }),
            clock@.wf(),
    {
        TimerClock { policy: TimerPolicy::WallClock, pending: 0 }
    }

    /// A clock that ticks once for every `per_tick` instructions handed to
    /// it.
    pub fn per_instructions(per_tick: u64) -> (clock: TimerClock)
        requires
            per_tick > 0,
        ensures
            clock@ == (TimerClockState {
                policy: TimerPolicy::InstructionCount { per_tick },
                pending: 0,
            }),
            clock@.wf(),
    {
        TimerClock { policy: TimerPolicy::InstructionCount { per_tick }, pending: 0 }
    }

    /// Takes in `amount` units (nanoseconds for a wall clock, instructions
    /// otherwise) and returns the ticks that have fallen due.
    pub fn advance(&mut self, amount: u64) -> (ticks: u64)
        ensures
            ticks == old(self)@.ticks_due(amount),
            final(self)@ == old(self)@.advanced(amount),
            final(self)@.wf(),
    {
        proof {
            use_type_invariant(&*self);
        }
        let (weight, period): (u128, u128) = match self.policy {
            TimerPolicy::WallClock => (TICK_HZ as u128, NANOS_PER_SECOND as u128),
            TimerPolicy::InstructionCount { per_tick } => (1u128, per_tick as u128),
        };
        assert(amount * weight <= 0xFFFF_FFFF_FFFF_FFFF * 60) by (nonlinear_arith)
            requires
                amount <= 0xFFFF_FFFF_FFFF_FFFF,
                0 <= weight <= 60,
        ;
        let total: u128 = self.pending as u128 + amount as u128 * weight;
        let ticks: u128 = total / period;
        let rest: u128 = total % period;
        proof {
            lemma_ticks_fit(self.pending as nat, amount as nat, weight as nat, period as nat);
        }
        self.pending = rest as u64;
        ticks as u64
    }
}

/// The clock loses nothing and invents nothing: time handed over in two parts
/// yields in all the ticks that it yields when handed over at once, and
/// leaves the same remainder pending.
pub proof fn lemma_clock_keeps_time(c: TimerClockState, a: u64, b: u64)
    requires
        c.wf(),
        a + b <= u64::MAX,
    ensures
        c.advanced(a).wf(),
        c.ticks_due(a) + c.advanced(a).ticks_due(b) == c.ticks_due((a + b) as u64),
        c.advanced(a).advanced(b) == c.advanced((a + b) as u64),
{
    let period = c.period() as int;
    let weight = c.weight() as int;
    let first = c.gathered(a) as int;
    let second = c.advanced(a).gathered(b) as int;
    let whole = c.gathered((a + b) as u64) as int;
    let ticks = first / period;
    assert(first == period * ticks + first % period) by {
        lemma_fundamental_div_mod(first, period);
    }
    assert(0 <= first % period < period) by (nonlinear_arith)
        requires
            period > 0,
    ;
    assert((a + b) * weight == a * weight + b * weight) by (nonlinear_arith);
    assert(whole == second + ticks * period) by (nonlinear_arith)
        requires
            first == period * ticks + first % period,
            whole == first + b * weight,
            second == first % period + b * weight,
    ;
    assert(second / period + ticks == whole / period) by {
        lemma_hoist_over_denominator(second, ticks, period as nat);
    }
    assert(whole % period == second % period) by {
        lemma_mod_multiples_vanish(ticks, second, period);
        assert(period * ticks + second == whole) by (nonlinear_arith)
            requires
                whole == second + ticks * period,
        ;
    }
}

/// The ticks due on one call fit in 64 bits.
proof fn lemma_ticks_fit(pending: nat, amount: nat, weight: nat, period: nat)
    requires
        period > 0,
        pending < period,
        amount <= u64::MAX,
        weight == 1 || (weight == 60 && period == 1_000_000_000),
    ensures
        (pending + amount * weight) / period <= u64::MAX,
        (pending + amount * weight) % period < period,
{
    let total = pending + amount * weight;
    if weight == 1 {
        assert(amount * weight == amount) by (nonlinear_arith)
            requires
                weight == 1,
        ;
        assert(total / period <= amount) by (nonlinear_arith)
            requires
                total < period + amount,
                period > 0,
                0 <= amount,
        ;
    } else {
        assert(total / 1_000_000_000 <= u64::MAX) by (nonlinear_arith)
            requires
                total == pending + amount * 60,
                pending < 1_000_000_000,
                amount <= u64::MAX,
        ;
    }
    assert(total % period < period) by (nonlinear_arith)
        requires
            period > 0,
    ;
}

} // verus!
