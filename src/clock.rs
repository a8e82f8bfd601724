use vstd::prelude::*;

use crate::note::tick_length_of;

verus! {

/// Pulses per quarter note of the incoming clock.
pub const TICKS_PER_BEAT: u16 = 24;

/// The tick counter wraps after this many pulses (eight quarter notes).
pub const TICKS_PER_CYCLE: u16 = 192;

/// The tick that follows `tick`.
pub open spec fn next_tick(tick: int) -> int {
    (tick + 1) % (TICKS_PER_CYCLE as int)
}

/// Whether a note lasting `length` ticks is due at `tick`, given the tick of the
/// last dispatch (none counts as tick 0).
pub open spec fn is_due(tick: int, last_played_tick: Option<int>, length: int) -> bool {
    let start = match last_played_tick {
        Some(t) => t,
        None => 0,
    };
    length == 0 || (tick - start) % length == 0
}

/// What a clock holds: the current tick and the tick of the last dispatched note.
pub struct ClockState {
    pub tick: int,
    pub last_played_tick: Option<int>,
}

/// A pulse counter in `[0, 192)` with duration gating.
pub struct Clock {
    tick: u16,
    last_played_tick: Option<u16>,
}

impl View for Clock {
    type V = ClockState;

    closed spec fn view(&self) -> ClockState {
        ClockState {
            tick: self.tick as int,
            last_played_tick: match self.last_played_tick {
                Some(t) => Some(t as int),
                None => None,
            },
        }
    }
}

impl Clock {
    #[verifier::type_invariant]
    closed spec fn in_range(&self) -> bool {
        &&& self.tick < TICKS_PER_CYCLE
        &&& self.last_played_tick matches Some(t) ==> t < TICKS_PER_CYCLE
    }

    /// A clock at tick 0 with no note dispatched yet.
    pub fn new() -> (r: Self)
        ensures
            r@ == (ClockState { tick: 0, last_played_tick: None }),
    {
        Self { tick: 0, last_played_tick: None }
    }

    /// The current tick.
    pub fn tick(&self) -> (r: u16)
        ensures
            r == self@.tick,
            r < TICKS_PER_CYCLE,
    {
        proof {
            use_type_invariant(self);
        }
        self.tick
    }

    /// The tick at which the last note was dispatched, if any.
    pub fn last_played_tick(&self) -> (r: Option<u16>)
        ensures
            r matches Some(t) ==> self@.last_played_tick == Some(t as int),
            r is None ==> self@.last_played_tick is None,
    {
        self.last_played_tick
    }

    /// Counts one pulse, wrapping at 192.
    pub fn next(&mut self)
        ensures
            final(self)@.tick == next_tick(old(self)@.tick),
            final(self)@.last_played_tick == old(self)@.last_played_tick,
    {
        proof {
            use_type_invariant(&*self);
        }
        self.tick = (self.tick + 1) % TICKS_PER_CYCLE;
    }

    /// Whether a note `duration` ticks long is due: always for a zero length,
    /// otherwise when the ticks since the last dispatch are a multiple of it.
    pub fn has_time_passed_note(&self, duration: u8) -> (r: bool)
        ensures
            r == is_due(self@.tick, self@.last_played_tick, duration as int),
    {
        if duration == 0 {
            return true;
        }
        let start: u16 = match self.last_played_tick {
            Some(t) => t,
            None => 0,
        };
        let length = duration as u16;
        if self.tick >= start {
            (self.tick - start) % length == 0
        } else {
            let back = start - self.tick;
            proof {
                let d = self.tick - start;
                assert(d == -(back as int));
                assert((d % (length as int) == 0) == ((back as int) % (length as int) == 0))
                    by {
                        negation_keeps_divisibility(back as int, length as int);
                    }
            }
            back % length == 0
        }
    }

    /// Records the current tick as the tick of the last dispatch.
    pub fn note_played(&mut self)
        ensures
            final(self)@.tick == old(self)@.tick,
            final(self)@.last_played_tick == Some(old(self)@.tick),
    {
        proof {
            use_type_invariant(&*self);
        }
        self.last_played_tick = Some(self.tick);
    }

    /// Back to tick 0 with no dispatch recorded.
    pub fn reset_tick(&mut self)
        ensures
            final(self)@ == (ClockState { tick: 0, last_played_tick: None }),
    {
        proof {
            use_type_invariant(&*self);
        }
        self.tick = 0;
        self.last_played_tick = None;
    }
}

/// The tick after `n` pulses counted from `tick`.
pub open spec fn tick_after(tick: int, n: nat) -> int
    decreases n,
{
    if n == 0 {
        tick
    } else {
        next_tick(tick_after(tick, (n - 1) as nat))
    }
}

/// However many pulses a clock counts, its tick stays in `[0, 192)`: after `n`
/// pulses from `start` it reads `(start + n) mod 192`, so counted from 0 it is
/// back at 0 exactly when `n` is a multiple of 192.
pub proof fn lemma_tick_wraps(start: int, n: nat)
    requires
        0 <= start < TICKS_PER_CYCLE,
    ensures
        0 <= tick_after(start, n) < TICKS_PER_CYCLE,
        tick_after(start, n) == (start + n) % (TICKS_PER_CYCLE as int),
        start == 0 ==> (tick_after(start, n) == 0 <==> (n as int) % (TICKS_PER_CYCLE as int) == 0),
    decreases n,
{
    let m = TICKS_PER_CYCLE as int;
    if n > 0 {
        lemma_tick_wraps(start, (n - 1) as nat);
        vstd::arithmetic::div_mod::lemma_add_mod_noop(start + n - 1, 1, m);
        vstd::arithmetic::div_mod::lemma_mod_twice(start + n - 1, m);
    }
    vstd::arithmetic::div_mod::lemma_mod_bound(start + n, m);
    if start == 0 {
        assert(tick_after(start, n) == (n as int) % m);
    }
}

/// Gating: once a note is dispatched at tick `s`, a note `millibeats` long
/// (`L = tick_length_of(millibeats)` ticks) is due again after `k` pulses
/// exactly when `k` is a multiple of `L`, and always when `L` is 0. This holds
/// while the count stays short of the wrap at 192, or for any count when `L`
/// divides 192.
pub proof fn lemma_due_every_length(s: int, k: nat, millibeats: nat)
    requires
        0 <= s < TICKS_PER_CYCLE,
        ({
            let length = tick_length_of(millibeats as int);
            length == 0 || s + k < TICKS_PER_CYCLE || (TICKS_PER_CYCLE as int) % length == 0
        }),
    ensures
        ({
            let length = tick_length_of(millibeats as int);
            let due = is_due(tick_after(s, k), Some(s), length);
            &&& length == 0 ==> due
            &&& length > 0 ==> (due <==> (k as int) % length == 0)
        }),
{
    let length = tick_length_of(millibeats as int);
    let m = TICKS_PER_CYCLE as int;
    lemma_tick_wraps(s, k);
    assert(length >= 0) by {
        assert(millibeats * TICKS_PER_BEAT >= 0) by (nonlinear_arith);
    }
    if length > 0 {
        let t = tick_after(s, k);
        if s + k < m {
            vstd::arithmetic::div_mod::lemma_small_mod((s + k) as nat, m as nat);
            assert(t - s == k);
        } else {
            let q = (s + k) / m;
            let c = m / length;
            vstd::arithmetic::div_mod::lemma_fundamental_div_mod(s + k, m);
            vstd::arithmetic::div_mod::lemma_fundamental_div_mod(m, length);
            assert(t - s == length * (-(c * q)) + k) by (nonlinear_arith)
                requires
                    s + k == m * q + t,
                    m == length * c,
            ;
            vstd::arithmetic::div_mod::lemma_mod_multiples_vanish(-(c * q), k as int, length);
        }
    }
}

proof fn negation_keeps_divisibility(x: int, m: int)
    requires
        m > 0,
    ensures
        ((-x) % m == 0) == (x % m == 0),
{
    vstd::arithmetic::div_mod::lemma_fundamental_div_mod(x, m);
    vstd::arithmetic::div_mod::lemma_fundamental_div_mod(-x, m);
    let q = x / m;
    let p = (-x) / m;
    if x % m == 0 {
        assert(-x == (-q) * m) by (nonlinear_arith)
            requires
                x == m * q,
        ;
        vstd::arithmetic::div_mod::lemma_mod_multiples_basic(-q, m);
    }
    if (-x) % m == 0 {
        assert(x == (-p) * m) by (nonlinear_arith)
            requires
                -x == m * p,
        ;
        vstd::arithmetic::div_mod::lemma_mod_multiples_basic(-p, m);
    }
}

} // verus!
