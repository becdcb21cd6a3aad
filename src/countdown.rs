//! The countdown engine's decisions: what to render at each tick, when the
//! countdown is over, and how long to wait for the next tick. Waiting is
//! anchored to the instant the countdown started, so lateness at one tick is
//! never carried into the next.
use vstd::prelude::*;
use crate::clock::{fmt_mm_ss, mm_ss};

verus! {

/// Nanoseconds in one second.
pub const NANOS_PER_SEC: u64 = 1_000_000_000;

/// The seconds left when `tick` seconds of a `secs`-second countdown have passed.
pub open spec fn remaining_spec(secs: nat, tick: nat) -> nat {
    if tick >= secs {
        0
    } else {
        (secs - tick) as nat
    }
}

/// The line drawn for `remaining` seconds: a carriage return, so that it
/// overwrites the previous one, the label, a colon and the clock.
pub open spec fn frame_spec(label: Seq<char>, remaining: nat) -> Seq<char> {
    seq!['\r'] + label + seq![':', ' '] + mm_ss(remaining)
}

/// How long to wait, `elapsed` nanoseconds after the start, before drawing
/// tick `tick`: until `tick` whole seconds after the start, or not at all
/// when that instant has already passed.
pub open spec fn wait_spec(tick: nat, elapsed: nat) -> nat {
    let target = tick * NANOS_PER_SEC;
    if target > elapsed {
        (target - elapsed) as nat
    } else {
        0
    }
}

/// State of one running countdown: its length and the ticks drawn so far.
pub struct Countdown {
    pub secs: u64,
    pub tick: u64,
}

impl Countdown {
    /// A countdown never runs past its length.
    pub open spec fn wf(&self) -> bool {
        self.tick <= self.secs
    }

    /// Starts a countdown of `secs` seconds, at tick zero.
    pub fn new(secs: u64) -> (r: Countdown)
        ensures
            r.secs == secs,
            r.tick == 0,
            r.wf(),
    {
        Countdown { secs, tick: 0 }
    }

    /// Seconds left at the current tick; never below zero.
    pub fn remaining(&self) -> (r: u64)
        ensures
            r == remaining_spec(self.secs as nat, self.tick as nat),
    {
        self.secs.saturating_sub(self.tick)
    }

    /// The line to draw at the current tick, e.g. `"\rFocus: 2:05"`.
    pub fn frame(&self, label: &str) -> (r: String)
        ensures
            r@ == frame_spec(label@, remaining_spec(self.secs as nat, self.tick as nat)),
    {
        let mut out = String::from_str("\r");
        out.append(label);
        out.append(": ");
        let clock = fmt_mm_ss(self.remaining());
        out.append(clock.as_str());
        proof {
            reveal_strlit("\r");
            reveal_strlit(": ");
        }
        assert(out@ =~= frame_spec(label@, remaining_spec(self.secs as nat, self.tick as nat)));
        out
    }

    /// Moves on after the current tick has been drawn. When nothing is left
    /// the countdown is over: it stays as it is and `None` comes back. Else
    /// the tick advances and its number comes back, which is also how many
    /// whole seconds after the start it is due.
    pub fn advance(&mut self) -> (r: Option<u64>)
        requires
            old(self).wf(),
        ensures
            final(self).wf(),
            final(self).secs == old(self).secs,
            old(self).tick == old(self).secs ==> r is None && *final(self) == *old(self),
            old(self).tick < old(self).secs ==> r == Some((old(self).tick + 1) as u64)
                && final(self).tick == old(self).tick + 1,
    {
        if self.remaining() == 0 {
            None
        } else {
            self.tick = self.tick + 1;
            Some(self.tick)
        }
    }
}

/// How long to wait before drawing tick `tick`, given the nanoseconds
/// `elapsed` since the countdown started, as whole seconds and the
/// nanoseconds beyond them. Zero when the tick is already due.
pub fn wait_before(tick: u64, elapsed: u128) -> (r: (u64, u32))
    ensures
        r.1 < NANOS_PER_SEC,
        r.0 as nat * NANOS_PER_SEC + r.1 as nat == wait_spec(tick as nat, elapsed as nat),
{
    let target: u128 = tick as u128 * NANOS_PER_SEC as u128;
    if target > elapsed {
        let w: u128 = target - elapsed;
        let s: u128 = w / NANOS_PER_SEC as u128;
        let n: u128 = w % NANOS_PER_SEC as u128;
        assert(s <= tick) by (nonlinear_arith)
            requires
                s == w / 1_000_000_000u128,
                w <= target,
                target == tick * 1_000_000_000u128,
        ;
        (s as u64, n as u32)
    } else {
        (0, 0)
    }
}

/// The wait for a tick ends exactly `tick` seconds after the start when the
/// tick is reached early, and at once when it is reached late: the instant a
/// tick is drawn depends on the start and the tick number alone, never on
/// how late earlier ticks were.
pub proof fn lemma_wake_is_anchored(tick: nat, elapsed: nat)
    ensures
        elapsed <= tick * NANOS_PER_SEC ==> elapsed + wait_spec(tick, elapsed) == tick
            * NANOS_PER_SEC,
        elapsed > tick * NANOS_PER_SEC ==> wait_spec(tick, elapsed) == 0,
{
}

} // verus!
