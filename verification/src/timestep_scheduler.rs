//! Fixed-timestep scheduling: wall-clock time goes in, a whole number of
//! simulation ticks and one render call per frame come out.
//!
//! Time is counted in nanoseconds since the scheduler was created. Every
//! decision is a function of a clock reading, so each one exists in two forms:
//! one that takes the reading as an argument (`update_at`, `sleep_at`) and one
//! that reads the system clock (`update` through `catch_up`, `after_frame`).
//!
//! There is no upper limit on the ticks of one update: after a stall, `update`
//! runs every tick that is due before it returns.

use vstd::prelude::*;
use crate::resources::Delta;
use crate::resources::NANOS_PER_SECOND;
use std::time::Duration;
use std::time::Instant;

verus! {

/// `std::time::Instant`, a point on the monotonic system clock. Nothing inside
/// it is visible to proofs.
#[verifier::external_type_specification]
#[verifier::external_body]
pub struct ExInstant(Instant);

/// `Instant::now` reads the system clock. Nothing is claimed of the reading.
pub assume_specification[ Instant::now ]() -> (now: Instant);

/// `Instant::elapsed` reads the system clock and returns the time since
/// `start`. Nothing is claimed of the result.
pub assume_specification[ Instant::elapsed ](start: &Instant) -> (elapsed: Duration);

/// `Duration::as_nanos` gives the length of `duration` in nanoseconds.
/// Nothing is claimed of the result.
pub assume_specification[ Duration::as_nanos ](duration: &Duration) -> (nanos: u128);

/// Whole ticks that are due after `elapsed` nanoseconds at `tps` ticks per
/// second: the elapsed seconds times the rate, rounded down.
pub open spec fn ticks_due(elapsed: nat, tps: nat) -> nat {
    elapsed * tps / (NANOS_PER_SECOND as nat)
}

/// Time from the reading `since` to the reading `now`. A reading that lies
/// before `since` counts as no time at all.
pub open spec fn elapsed_between(since: u64, now: u64) -> nat {
    if now >= since {
        (now - since) as nat
    } else {
        0
    }
}

/// Length of one frame at `fps` frames per second, in nanoseconds, rounded
/// down.
pub open spec fn frame_budget(fps: nat) -> nat {
    NANOS_PER_SECOND as nat / fps
}

/// What is left of the frame budget once `elapsed` nanoseconds are spent:
/// `None` when the frame has overrun it.
pub open spec fn sleep_owed(budget: nat, elapsed: nat) -> Option<u64> {
    if elapsed <= budget {
        Some((budget - elapsed) as u64)
    } else {
        None
    }
}

/// With no time elapsed no tick is due, whatever the rate.
pub proof fn lemma_no_time_no_ticks(tps: nat)
    ensures
        ticks_due(0, tps) == 0,
{
    assert(0 * tps == 0) by (nonlinear_arith);
}

/// The length of `k` tick periods at `tps` ticks per second in nanoseconds,
/// rounded down to the clock's resolution.
pub open spec fn periods_rounded_down(k: nat, tps: nat) -> nat {
    (k * (NANOS_PER_SECOND as nat)) / tps
}

/// The length of `k` tick periods at `tps` ticks per second in nanoseconds,
/// rounded up to the clock's resolution.
pub open spec fn periods_rounded_up(k: nat, tps: nat) -> nat {
    ((k * (NANOS_PER_SECOND as nat) + tps - 1) / (tps as int)) as nat
}

/// The tick count is the only whole number `k` with `k` seconds' worth of
/// nanoseconds at or below `elapsed * tps` and `k + 1` above it.
pub proof fn lemma_ticks_due_is_floor(elapsed: nat, tps: nat, k: nat)
    ensures
        ticks_due(elapsed, tps) == k <==> k * NANOS_PER_SECOND <= elapsed * tps < (k + 1)
            * NANOS_PER_SECOND,
{
    let product: int = (elapsed * tps) as int;
    let second: int = NANOS_PER_SECOND as int;
    vstd::arithmetic::div_mod::lemma_fundamental_div_mod(product, second);
    vstd::arithmetic::div_mod::lemma_mod_bound(product, second);
    assert(k * second <= product < (k + 1) * second <==> product / second == k)
        by (nonlinear_arith)
        requires
            product == second * (product / second) + product % second,
            0 <= product % second < second,
    ;
}

/// After exactly `k` tick periods, `k` ticks are due: when `elapsed`
/// nanoseconds are `k / tps` seconds to the nanosecond, the count is `k`. The
/// frame rate plays no part in it.
pub proof fn lemma_whole_periods_give_whole_ticks(tps: u16, fps: u16, k: nat, elapsed: nat)
    requires
        0 < fps <= tps,
        elapsed * tps == k * NANOS_PER_SECOND,
    ensures
        ticks_due(elapsed, tps as nat) == k,
{
    lemma_ticks_due_is_floor(elapsed, tps as nat, k);
}

/// Where `k` tick periods are no whole number of nanoseconds, the clock's
/// resolution decides: the time rounded up to the next nanosecond gives `k`
/// ticks, the time rounded down gives `k` or one less.
pub proof fn lemma_rounded_periods_give_ticks(rate: u16, fps: u16, k: nat)
    requires
        0 < fps <= rate,
    ensures
        ticks_due(periods_rounded_up(k, rate as nat), rate as nat) == k,
        k > 0 ==> k - 1 <= ticks_due(periods_rounded_down(k, rate as nat), rate as nat) <= k,
        k == 0 ==> ticks_due(periods_rounded_down(k, rate as nat), rate as nat) == 0,
{
    let tps: nat = rate as nat;
    let second: int = NANOS_PER_SECOND as int;
    let rate: int = tps as int;
    let whole: int = k * second;
    let up: int = (whole + rate - 1) / rate;
    let down: int = whole / rate;
    assert(whole >= 0) by (nonlinear_arith)
        requires
            whole == k * second,
            second > 0,
    ;
    vstd::arithmetic::div_mod::lemma_fundamental_div_mod(whole + rate - 1, rate);
    vstd::arithmetic::div_mod::lemma_fundamental_div_mod(whole, rate);
    vstd::arithmetic::div_mod::lemma_mod_bound(whole + rate - 1, rate);
    vstd::arithmetic::div_mod::lemma_mod_bound(whole, rate);
    assert(whole <= up * rate < whole + rate && up >= 0) by (nonlinear_arith)
        requires
            whole + rate - 1 == rate * up + (whole + rate - 1) % rate,
            0 <= (whole + rate - 1) % rate < rate,
            whole >= 0,
    ;
    assert(whole - rate < down * rate <= whole && down >= 0) by (nonlinear_arith)
        requires
            whole == rate * down + whole % rate,
            0 <= whole % rate < rate,
            whole >= 0,
    ;
    assert((k + 1) * second == whole + second && (k - 1) * second == whole - second)
        by (nonlinear_arith)
        requires
            whole == k * second,
    ;
    assert(periods_rounded_up(k, tps) == up);
    assert(periods_rounded_down(k, tps) == down);
    lemma_ticks_due_is_floor(up as nat, tps, k);
    if k > 0 {
        if down * rate == whole {
            lemma_ticks_due_is_floor(down as nat, tps, k);
        } else {
            lemma_ticks_due_is_floor(down as nat, tps, (k - 1) as nat);
        }
    } else {
        assert(down == 0);
        lemma_no_time_no_ticks(tps);
    }
}

/// `to` is what `from` becomes when `tick` is invoked exactly `n` times with
/// `delta`, each invocation taking the state that the one before returned.
pub open spec fn after_ticks<S, F: Fn(S, Delta) -> S>(
    tick: F,
    delta: Delta,
    n: nat,
    from: S,
    to: S,
) -> bool
    decreases n,
{
    if n == 0 {
        to == from
    } else {
        exists|mid: S|
            after_ticks(tick, delta, (n - 1) as nat, from, mid) && call_ensures(
                tick,
                (mid, delta),
                to,
            )
    }
}

/// `tick` may be invoked on every state that ticks can reach from `from`.
pub open spec fn ticks_allowed<S, F: Fn(S, Delta) -> S>(tick: F, delta: Delta, from: S) -> bool {
    forall|n: nat, s: S| #[trigger]
        after_ticks(tick, delta, n, from, s) ==> call_requires(tick, (s, delta))
}

/// Invokes `tick` exactly `n` times, threading the state through.
pub fn run_ticks<S, F: Fn(S, Delta) -> S>(n: u64, delta: Delta, state: S, tick: &F) -> (out: S)
    requires
        ticks_allowed(*tick, delta, state),
    ensures
        after_ticks(*tick, delta, n as nat, state, out),
{
    let ghost from = state;
    let mut current = state;
    let mut done: u64 = 0;
    while done < n
        invariant
            done <= n,
            after_ticks(*tick, delta, done as nat, from, current),
            ticks_allowed(*tick, delta, from),
        decreases n - done,
    {
        let ghost before = current;
        current = tick(current, delta);
        done = done + 1;
        assert(after_ticks(*tick, delta, (done - 1) as nat, from, before) && call_ensures(
            *tick,
            (before, delta),
            current,
        ));
    }
    current
}

/// What a scheduler remembers between frames.
pub struct TickState {
    /// Simulation ticks per second.
    pub target_ticks_per_second: u16,
    /// Rendered frames per second that the loop is capped at.
    pub target_frames_per_second: u16,
    /// Clock reading taken when the last batch of ticks reached its final
    /// tick, in nanoseconds since the scheduler was created.
    pub last_tick: u64,
}

impl TickState {
    /// The step handed to every tick.
    pub open spec fn fixed_delta(self) -> Delta {
        Delta { ticks_per_second: self.target_ticks_per_second }
    }

    /// Ticks that are due when the clock reads `now`.
    pub open spec fn ticks_due_at(self, now: u64) -> nat {
        ticks_due(elapsed_between(self.last_tick, now), self.target_ticks_per_second as nat)
    }

    /// Length of one frame in nanoseconds.
    pub open spec fn target_frame_duration(self) -> nat {
        frame_budget(self.target_frames_per_second as nat)
    }

    /// The sleep that caps the frame rate when the clock reads `now`.
    pub open spec fn sleep_at(self, now: u64) -> Option<u64> {
        sleep_owed(self.target_frame_duration(), elapsed_between(self.last_tick, now))
    }

    /// The state once a batch of ticks reached its final tick at `now`. The
    /// clock never runs backwards: an earlier reading leaves the state as it
    /// is.
    pub open spec fn ticked_at(self, now: u64) -> TickState {
        if now > self.last_tick {
            TickState { last_tick: now, ..self }
        } else {
            self
        }
    }
}

/// A scheduler that turns elapsed time into fixed-size simulation ticks and
/// one render call per frame.
pub trait TimestepScheduler: Sized {
    /// The step handed to every tick.
    spec fn fixed_delta(&self) -> Delta;

    /// Length of one frame in nanoseconds.
    spec fn target_frame_duration(&self) -> nat;

    /// Runs the ticks that are due, threading `state` through them. Every
    /// tick gets the same step.
    fn update<S, F: Fn(S, Delta) -> S>(&mut self, state: S, tick: F) -> (out: S)
        requires
            ticks_allowed(tick, old(self).fixed_delta(), state),
        ensures
            exists|n: nat| after_ticks(tick, old(self).fixed_delta(), n, state, out),
            final(self).fixed_delta() == old(self).fixed_delta(),
            final(self).target_frame_duration() == old(self).target_frame_duration(),
    ;

    /// Invokes `render` exactly once, whatever number of ticks went before,
    /// and leaves the scheduler as it was.
    fn render<S, F: FnOnce(S) -> S>(&mut self, state: S, render: F) -> (out: S)
        requires
            call_requires(render, (state,)),
        ensures
            call_ensures(render, (state,), out),
            *final(self) == *old(self),
    ;

    /// The time in nanoseconds that the caller is to sleep so that the frame
    /// fills its budget; `None` when the budget is already spent. The sleep
    /// is never longer than one frame.
    fn after_frame(&mut self) -> (sleep: Option<u64>)
        ensures
            sleep matches Some(nanos) ==> nanos <= old(self).target_frame_duration(),
            *final(self) == *old(self),
    ;
}

/// The scheduler with a fixed tick rate and a frame-rate cap.
pub struct FixedUpdateScheduler {
    target_tps: u16,
    target_fps: u16,
    origin: Instant,
    last_tick: u64,
}

impl View for FixedUpdateScheduler {
    type V = TickState;

    closed spec fn view(&self) -> TickState {
        TickState {
            target_ticks_per_second: self.target_tps,
            target_frames_per_second: self.target_fps,
            last_tick: self.last_tick,
        }
    }
}

impl FixedUpdateScheduler {
    #[verifier::type_invariant]
    spec fn rates_supported(&self) -> bool {
        0 < self.target_fps <= self.target_tps
    }

    /// A scheduler whose clock starts now. A tick rate below the frame rate is
    /// not supported, nor is a rate of zero.
    pub fn new(target_tps: u16, target_fps: u16) -> (scheduler: Self)
        requires
            0 < target_fps <= target_tps,
        ensures
            scheduler@ == (TickState {
                target_ticks_per_second: target_tps,
                target_frames_per_second: target_fps,
                last_tick: 0,
            }),
    {
        FixedUpdateScheduler { target_tps, target_fps, origin: Instant::now(), last_tick: 0 }
    }

    /// Simulation ticks per second.
    pub fn target_tps(&self) -> (tps: u16)
        ensures
            tps == self@.target_ticks_per_second,
            tps > 0,
    {
        proof {
            use_type_invariant(self);
        }
        self.target_tps
    }

    /// Frames per second that the loop is capped at.
    pub fn target_fps(&self) -> (fps: u16)
        ensures
            fps == self@.target_frames_per_second,
            fps > 0,
    {
        proof {
            use_type_invariant(self);
        }
        self.target_fps
    }

    /// Clock reading of the last tick, in nanoseconds since creation.
    pub fn last_tick(&self) -> (at: u64)
        ensures
            at == self@.last_tick,
    {
        self.last_tick
    }

    /// The step handed to every tick.
    pub fn delta(&self) -> (delta: Delta)
        ensures
            delta == self@.fixed_delta(),
            delta.ticks_per_second > 0,
    {
        proof {
            use_type_invariant(self);
        }
        Delta { ticks_per_second: self.target_tps }
    }

    /// Length of one frame in nanoseconds.
    pub fn target_frame_time(&self) -> (nanos: u64)
        ensures
            nanos == self@.target_frame_duration(),
    {
        proof {
            use_type_invariant(self);
        }
        NANOS_PER_SECOND / (self.target_fps as u64)
    }

    /// Nanoseconds on the system clock since the scheduler was created. A
    /// time too long for 64 bits reads as the largest value.
    pub fn now(&self) -> (reading: u64) {
        let elapsed = self.origin.elapsed();
        let nanos = elapsed.as_nanos();
        reading_from_nanos(nanos)
    }

    /// Ticks that are due when the clock reads `now`.
    pub fn ticks_due_at(&self, now: u64) -> (due: u64)
        ensures
            due == self@.ticks_due_at(now),
    {
        let elapsed: u64 = if now >= self.last_tick {
            now - self.last_tick
        } else {
            0
        };
        assert(elapsed * self.target_tps <= 0xFFFF_FFFF_FFFF_FFFF * 0xFFFF) by (nonlinear_arith)
            requires
                elapsed <= 0xFFFF_FFFF_FFFF_FFFF,
                self.target_tps <= 0xFFFF,
        ;
        let due = (elapsed as u128) * (self.target_tps as u128) / (NANOS_PER_SECOND as u128);
        due as u64
    }

    /// Notes that a batch of ticks reached its final tick at `now`.
    pub fn record_tick(&mut self, now: u64)
        ensures
            final(self)@ == old(self)@.ticked_at(now),
    {
        proof {
            use_type_invariant(&*self);
        }
        if now > self.last_tick {
            self.last_tick = now;
        }
    }

    /// Runs the ticks that are due when the clock reads `now`: `tick` is
    /// invoked exactly that many times with the fixed step. If any tick
    /// fires, the last tick moves to `now`; otherwise nothing changes.
    pub fn update_at<S, F: Fn(S, Delta) -> S>(&mut self, now: u64, state: S, tick: F) -> (out: S)
        requires
            ticks_allowed(tick, old(self)@.fixed_delta(), state),
        ensures
            after_ticks(tick, old(self)@.fixed_delta(), old(self)@.ticks_due_at(now), state, out),
            final(self)@ == (if old(self)@.ticks_due_at(now) > 0 {
                TickState { last_tick: now, ..old(self)@ }
            } else {
                old(self)@
            }),
    {
        let due = self.ticks_due_at(now);
        proof {
            lemma_no_time_no_ticks(self@.target_ticks_per_second as nat);
        }
        let delta = self.delta();
        let out = run_ticks(due, delta, state, &tick);
        if due > 0 {
            self.record_tick(now);
        }
        out
    }

    /// Runs `due` ticks: `tick` is invoked exactly that many times with the
    /// fixed step. When the final tick is reached, the system clock is read
    /// and the last tick moves to that reading. With no tick to run nothing
    /// changes and the clock is not read.
    pub fn catch_up<S, F: Fn(S, Delta) -> S>(&mut self, due: u64, state: S, tick: F) -> (out: S)
        requires
            ticks_allowed(tick, old(self)@.fixed_delta(), state),
        ensures
            after_ticks(tick, old(self)@.fixed_delta(), due as nat, state, out),
            due == 0 ==> final(self)@ == old(self)@,
            due > 0 ==> exists|reading: u64|
                final(self)@ == #[trigger] old(self)@.ticked_at(reading),
    {
        if due == 0 {
            return state;
        }
        let delta = self.delta();
        let before_last = run_ticks(due - 1, delta, state, &tick);
        let reading = self.now();
        self.record_tick(reading);
        let out = tick(before_last, delta);
        assert(self@ == old(self)@.ticked_at(reading));
        out
    }

    /// The sleep that caps the frame rate when the clock reads `now`: what is
    /// left of the frame budget since the last tick, `None` when the frame has
    /// overrun it.
    pub fn sleep_at(&self, now: u64) -> (sleep: Option<u64>)
        ensures
            sleep == self@.sleep_at(now),
    {
        let budget = self.target_frame_time();
        let elapsed: u64 = if now >= self.last_tick {
            now - self.last_tick
        } else {
            0
        };
        if elapsed <= budget {
            Some(budget - elapsed)
        } else {
            None
        }
    }
}

impl TimestepScheduler for FixedUpdateScheduler {
    open spec fn fixed_delta(&self) -> Delta {
        self@.fixed_delta()
    }

    open spec fn target_frame_duration(&self) -> nat {
        self@.target_frame_duration()
    }

    /// Reads the system clock and catches up on the ticks that are due. The
    /// clock is read again when the final tick is reached, and the last tick
    /// moves to that reading; with no tick due nothing changes.
    fn update<S, F: Fn(S, Delta) -> S>(&mut self, state: S, tick: F) -> (out: S)
        ensures
            exists|first: u64|
                {
                    let due = #[trigger] old(self)@.ticks_due_at(first);
                    &&& after_ticks(tick, old(self)@.fixed_delta(), due, state, out)
                    &&& due == 0 ==> final(self)@ == old(self)@
                    &&& due > 0 ==> exists|second: u64|
                        final(self)@ == #[trigger] old(self)@.ticked_at(second)
                },
    {
        let first = self.now();
        let due = self.ticks_due_at(first);
        let out = self.catch_up(due, state, tick);
        assert(old(self)@.ticks_due_at(first) == due);
        out
    }

    fn render<S, F: FnOnce(S) -> S>(&mut self, state: S, render: F) -> (out: S) {
        render(state)
    }

    /// Reads the system clock and returns what is left of the frame budget
    /// since the last tick, `None` when the frame has overrun it.
    fn after_frame(&mut self) -> (sleep: Option<u64>)
        ensures
            exists|now: u64| sleep == #[trigger] old(self)@.sleep_at(now),
    {
        let now = self.now();
        self.sleep_at(now)
    }
}

/// The clock reading that stands for a time of `nanos` nanoseconds: the same
/// number, or the largest reading where 64 bits cannot hold it.
pub open spec fn reading_of(nanos: u128) -> u64 {
    if nanos > u64::MAX {
        u64::MAX
    } else {
        nanos as u64
    }
}

/// Turns the nanoseconds that the clock gave into a reading. A time too long
/// for 64 bits reads as the largest value.
pub fn reading_from_nanos(nanos: u128) -> (reading: u64)
    ensures
        reading == reading_of(nanos),
{
    if nanos > u64::MAX as u128 {
        u64::MAX
    } else {
        nanos as u64
    }
}

} // verus!
