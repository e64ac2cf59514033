//! The fixed-timestep scheduler arithmetic.
//!
//! Three independent clocks — instruction execution, timer decrement and
//! the render signal — each keep a last-tick timestamp and a target
//! interval, in nanoseconds. Catch-up is by accumulator: when `now` has
//! passed the last tick by `k` whole intervals, exactly `k` ticks are due
//! and the last tick advances by `k * interval` (never to `now` itself),
//! so no drift accumulates and a stall never skips a cycle. The host loop
//! performs the waiting and the I/O; every decision is computed here.

use vstd::prelude::*;

verus! {

use vstd::arithmetic::div_mod::{
    lemma_fundamental_div_mod,
    lemma_fundamental_div_mod_converse,
    lemma_mod_division_less_than_divisor,
};

/// How many whole intervals fit between `last` and `now`: the number of
/// ticks due. Zero when `now` has not reached `last`.
pub open spec fn spec_due(now: u64, last: u64, interval: u64) -> int
    recommends
        interval > 0,
{
    if now < last {
        0
    } else {
        (now - last) / (interval as int)
    }
}

/// `a + b` capped at the largest 64-bit value.
pub open spec fn spec_sat_add(a: u64, b: u64) -> u64 {
    if a + b > u64::MAX {
        u64::MAX
    } else {
        (a + b) as u64
    }
}

/// Whenever `now` stands a whole number of intervals past `last` — plus
/// any fraction of one — exactly that number of ticks is due: a stall of
/// `k` intervals is caught up by `k` cycles, not by one and not by a skip.
pub proof fn lemma_due_exact(now: u64, last: u64, interval: u64, k: u64)
    requires
        interval > 0,
        k * interval <= now - last,
        now - last < k * interval + interval,
    ensures
        spec_due(now, last, interval) == k,
{
    let r = now - last - k * interval;
    lemma_fundamental_div_mod_converse(now - last, interval as int, k as int, r);
}

/// One clock's state: a target interval and the accumulator timestamp of
/// the tick that was last accounted for.
pub struct Clock {
    /// Nanoseconds per tick; always positive.
    pub interval: u64,
    /// The timestamp up to which ticks have been accounted.
    pub last_tick: u64,
}

impl Clock {
    /// The interval is positive.
    pub open spec fn wf(self) -> bool {
        self.interval > 0
    }

    /// A clock that starts counting at `now`.
    pub fn new(now: u64, interval: u64) -> (c: Clock)
        requires
            interval > 0,
        ensures
            c.wf(),
            c.interval == interval,
            c.last_tick == now,
    {
        Clock { interval, last_tick: now }
    }

    /// Account all whole intervals up to `now` and report how many ticks
    /// are due. The accumulator advances by exactly that many intervals,
    /// landing within one interval of `now` (when `now` is ahead), never
    /// jumping to `now` itself.
    pub fn due(&mut self, now: u64) -> (c: u64)
        requires
            old(self).wf(),
        ensures
            final(self).wf(),
            c == spec_due(now, old(self).last_tick, old(self).interval),
            final(self).interval == old(self).interval,
            final(self).last_tick == old(self).last_tick + c * old(self).interval,
            now >= old(self).last_tick ==> final(self).last_tick <= now && now
                - final(self).last_tick < old(self).interval,
            now < old(self).last_tick ==> final(self).last_tick == old(self).last_tick,
    {
        if now < self.last_tick {
            return 0;
        }
        let elapsed = now - self.last_tick;
        let c = elapsed / self.interval;
        proof {
            lemma_fundamental_div_mod(elapsed as int, self.interval as int);
            lemma_mod_division_less_than_divisor(elapsed as int, self.interval as int);
            assert(elapsed as int == self.interval as int * (c as int) + (elapsed as int
                % self.interval as int));
            assert(self.interval as int * (c as int) == (c as int) * (self.interval as int)) by (nonlinear_arith);
            assert((c as int) * (self.interval as int) <= elapsed as int);
        }
        self.last_tick = self.last_tick + c * self.interval;
        c
    }

    /// Whether at least one tick is due at `now`, without accounting it.
    pub fn is_due(&self, now: u64) -> (r: bool)
        requires
            self.wf(),
        ensures
            r == (now >= self.last_tick && now - self.last_tick >= self.interval),
    {
        now >= self.last_tick && now - self.last_tick >= self.interval
    }

    /// Account exactly one tick.
    pub fn advance_one(&mut self)
        requires
            old(self).wf(),
            old(self).last_tick + old(self).interval <= u64::MAX,
        ensures
            final(self).wf(),
            final(self).interval == old(self).interval,
            final(self).last_tick == old(self).last_tick + old(self).interval,
    {
        self.last_tick = self.last_tick + self.interval;
    }

    /// The timestamp of the next tick, capped at the largest 64-bit value.
    pub fn next_tick(&self) -> (t: u64)
        requires
            self.wf(),
        ensures
            t == spec_sat_add(self.last_tick, self.interval),
    {
        if self.last_tick > u64::MAX - self.interval {
            u64::MAX
        } else {
            self.last_tick + self.interval
        }
    }
}

/// The three clocks of the interpreter loop.
pub struct Scheduler {
    /// The instruction-execution clock.
    pub instruction: Clock,
    /// The render-signal clock.
    pub render: Clock,
    /// The timer-decrement clock.
    pub timer: Clock,
}

impl Scheduler {
    /// All three intervals are positive.
    pub open spec fn wf(self) -> bool {
        self.instruction.wf() && self.render.wf() && self.timer.wf()
    }

    /// A scheduler whose three clocks all start counting at `now`. The
    /// intervals are configuration: nanoseconds per instruction, per
    /// render signal and per timer tick.
    pub fn new(
        now: u64,
        instruction_interval: u64,
        render_interval: u64,
        timer_interval: u64,
    ) -> (s: Scheduler)
        requires
            instruction_interval > 0,
            render_interval > 0,
            timer_interval > 0,
        ensures
            s.wf(),
            s.instruction.interval == instruction_interval,
            s.render.interval == render_interval,
            s.timer.interval == timer_interval,
            s.instruction.last_tick == now,
            s.render.last_tick == now,
            s.timer.last_tick == now,
    {
        Scheduler {
            instruction: Clock::new(now, instruction_interval),
            render: Clock::new(now, render_interval),
            timer: Clock::new(now, timer_interval),
        }
    }

    /// How many instruction cycles are due at `now`; accounts them.
    pub fn instructions_due(&mut self, now: u64) -> (c: u64)
        requires
            old(self).wf(),
        ensures
            final(self).wf(),
            c == spec_due(now, old(self).instruction.last_tick, old(self).instruction.interval),
            final(self).instruction.interval == old(self).instruction.interval,
            final(self).instruction.last_tick == old(self).instruction.last_tick + c * old(
                self,
            ).instruction.interval,
            final(self).render == old(self).render,
            final(self).timer == old(self).timer,
    {
        self.instruction.due(now)
    }

    /// How many timer ticks are due at `now`; accounts them.
    pub fn timers_due(&mut self, now: u64) -> (c: u64)
        requires
            old(self).wf(),
        ensures
            final(self).wf(),
            c == spec_due(now, old(self).timer.last_tick, old(self).timer.interval),
            final(self).timer.interval == old(self).timer.interval,
            final(self).timer.last_tick == old(self).timer.last_tick + c * old(self).timer.interval,
            final(self).instruction == old(self).instruction,
            final(self).render == old(self).render,
    {
        self.timer.due(now)
    }

    /// Whether to signal a frame at `now`, given whether a draw happened
    /// since the last signal. On a signal the render clock advances by one
    /// interval; otherwise nothing changes.
    pub fn render_due(&mut self, now: u64, draw_pending: bool) -> (r: bool)
        requires
            old(self).wf(),
        ensures
            final(self).wf(),
            r == (draw_pending && now >= old(self).render.last_tick && now - old(
                self,
            ).render.last_tick >= old(self).render.interval),
            r ==> final(self).render.last_tick == old(self).render.last_tick + old(
                self,
            ).render.interval,
            !r ==> final(self).render == old(self).render,
            final(self).render.interval == old(self).render.interval,
            final(self).instruction == old(self).instruction,
            final(self).timer == old(self).timer,
    {
        if draw_pending && self.render.is_due(now) {
            self.render.advance_one();
            true
        } else {
            false
        }
    }

    /// How long to sleep at `now`: until the earliest of the three next
    /// ticks, or not at all if that moment has passed.
    pub fn sleep_nanos(&self, now: u64) -> (d: u64)
        requires
            self.wf(),
        ensures
            ({
                let next = vstd::math::min(
                    spec_sat_add(self.instruction.last_tick, self.instruction.interval) as int,
                    vstd::math::min(
                        spec_sat_add(self.render.last_tick, self.render.interval) as int,
                        spec_sat_add(self.timer.last_tick, self.timer.interval) as int,
                    ),
                );
                d == (if next > now {
                    next - now
                } else {
                    0
                })
            }),
    {
        let n1 = self.instruction.next_tick();
        let n2 = self.render.next_tick();
        let n3 = self.timer.next_tick();
        let next = if n1 <= n2 && n1 <= n3 {
            n1
        } else if n2 <= n3 {
            n2
        } else {
            n3
        };
        if next > now {
            next - now
        } else {
            0
        }
    }
}

/// The nanosecond interval of a clock that ticks `hz` times a second.
pub fn interval_from_hz(hz: u64) -> (r: u64)
    requires
        1 <= hz <= 1_000_000_000,
    ensures
        r == 1_000_000_000 as int / hz as int,
        r >= 1,
{
    proof {
        vstd::arithmetic::div_mod::lemma_div_non_zero(1_000_000_000, hz as int);
    }
    1_000_000_000 / hz
}

} // verus!
