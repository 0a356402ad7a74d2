//! The loop state and the fixed-timestep frame stepper.

use vstd::prelude::*;
use crate::time::TimeTrait;
use vstd::arithmetic::div_mod::{lemma_fundamental_div_mod, lemma_mod_pos_bound};

verus! {

broadcast use vstd::function::group_function_axioms;

/// Nanoseconds in one second.
pub const NANOS_PER_SECOND: u64 = 1_000_000_000;

/// Why an update rate cannot be used.
#[derive(Debug, Clone, Copy, PartialEq, Eq, Structural)]
pub enum RateError {
    /// Zero updates per second: the fixed time step would be unbounded.
    Zero,
    /// More than one update per nanosecond: the fixed time step would round to nothing.
    TooHigh,
}

/// An update rate that gives a fixed time step of at least one nanosecond.
pub open spec fn rate_is_valid(ups: u32) -> bool {
    0 < ups && ups as int <= NANOS_PER_SECOND as int
}

/// The error for a rate, if the rate cannot be used.
pub open spec fn rate_error(ups: u32) -> Option<RateError> {
    if ups == 0 {
        Some(RateError::Zero)
    } else if ups as int > NANOS_PER_SECOND as int {
        Some(RateError::TooHigh)
    } else {
        None
    }
}

/// The fixed time step for a rate: one second over the rate, in whole nanoseconds.
pub open spec fn step_of(ups: u32) -> u64
    recommends
        ups > 0,
{
    (NANOS_PER_SECOND as int / ups as int) as u64
}

/// `a + b`, or `u64::MAX` where the sum does not fit.
pub open spec fn sat_add(a: u64, b: u64) -> u64 {
    if a + b > u64::MAX {
        u64::MAX
    } else {
        (a + b) as u64
    }
}

/// `a - b`, or zero where `b` is the larger.
pub open spec fn sat_sub(a: u64, b: u64) -> u64 {
    if a < b {
        0
    } else {
        (a - b) as u64
    }
}

/// A counter raised by `k`, held at `u32::MAX`.
pub open spec fn sat_count(n: u32, k: int) -> u32 {
    if n + k > u32::MAX {
        u32::MAX
    } else {
        (n + k) as u32
    }
}

/// A frame's elapsed time, held at the ceiling `max`.
pub open spec fn clamp_frame(elapsed: u64, max: u64) -> u64 {
    if elapsed > max {
        max
    } else {
        elapsed
    }
}

/// `acc / step` in billionths (so one whole step reads `NANOS_PER_SECOND`),
/// held at `u64::MAX`.
pub open spec fn blend(acc: u64, step: u64) -> u64
    recommends
        step > 0,
{
    let b = acc as int * NANOS_PER_SECOND as int / step as int;
    if b > u64::MAX {
        u64::MAX
    } else {
        b as u64
    }
}

/// The timing counters of a loop, apart from its payload, window and clock readings.
pub struct LoopView {
    pub updates_per_second: u32,
    pub max_frame_time: u64,
    pub exit_next_iteration: bool,
    pub fixed_time_step: u64,
    pub number_of_updates: u32,
    pub number_of_renders: u32,
    pub last_frame_time: u64,
    pub running_time: u64,
    pub accumulated_time: u64,
    pub blending_factor: u64,
}

/// The counters right after construction.
pub open spec fn fresh(ups: u32, max_frame_time: u64) -> LoopView {
    LoopView {
        updates_per_second: ups,
        max_frame_time,
        exit_next_iteration: false,
        fixed_time_step: step_of(ups),
        number_of_updates: 0,
        number_of_renders: 0,
        last_frame_time: 0,
        running_time: 0,
        accumulated_time: 0,
        blending_factor: 0,
    }
}

/// The counters once exit has been asked for.
pub open spec fn exited(m: LoopView) -> LoopView {
    LoopView { exit_next_iteration: true, ..m }
}

/// The counters with a new update rate.
pub open spec fn with_rate(m: LoopView, ups: u32) -> LoopView {
    LoopView { updates_per_second: ups, fixed_time_step: step_of(ups), ..m }
}

/// The counters once a frame's elapsed time has been clamped and added.
pub open spec fn accumulated(m: LoopView, elapsed: u64) -> LoopView {
    let e = clamp_frame(elapsed, m.max_frame_time);
    LoopView {
        last_frame_time: e,
        running_time: sat_add(m.running_time, e),
        accumulated_time: sat_add(m.accumulated_time, e),
        ..m
    }
}

/// The number of whole fixed steps in the accumulator.
pub open spec fn updates_due(m: LoopView) -> int
    recommends
        m.fixed_time_step > 0,
{
    m.accumulated_time as int / m.fixed_time_step as int
}

/// The counters with the blending factor measured from the accumulator.
pub open spec fn blended(m: LoopView) -> LoopView {
    LoopView { blending_factor: blend(m.accumulated_time, m.fixed_time_step), ..m }
}

/// The counters after the drain of every whole step and the blending, when no
/// callback touches them.
pub open spec fn drained(m: LoopView) -> LoopView
    recommends
        m.fixed_time_step > 0,
{
    let rest = (m.accumulated_time as int % m.fixed_time_step as int) as u64;
    LoopView {
        accumulated_time: rest,
        number_of_updates: sat_count(m.number_of_updates, updates_due(m)),
        blending_factor: blend(rest, m.fixed_time_step),
        ..m
    }
}

/// The counters after a whole frame whose clock advanced by `elapsed`, when no
/// callback touches them.
pub open spec fn stepped(m: LoopView, elapsed: u64) -> LoopView
    recommends
        m.fixed_time_step > 0,
{
    let d = drained(accumulated(m, elapsed));
    LoopView { number_of_renders: sat_count(m.number_of_renders, 1), ..d }
}

/// The counters with the exit flag set to `exit`.
pub open spec fn with_exit(m: LoopView, exit: bool) -> LoopView {
    LoopView { exit_next_iteration: exit, ..m }
}

/// The counters once the elapsed time of the frame so far has been measured
/// again at `elapsed`, the part already counted left out.
pub open spec fn reaccumulated(m: LoopView, elapsed: u64) -> LoopView
    recommends
        m.fixed_time_step > 0,
{
    let delta = sat_sub(elapsed, m.last_frame_time);
    let acc = sat_add(m.accumulated_time, delta);
    LoopView {
        running_time: sat_add(m.running_time, delta),
        accumulated_time: acc,
        blending_factor: blend(acc, m.fixed_time_step),
        ..m
    }
}

/// The state of one run of the loop: the payload, the window, the timing
/// counters and the clock readings that bound the current frame.
pub struct GameLoop<G, T: TimeTrait, W> {
    pub game: G,
    pub updates_per_second: u32,
    pub max_frame_time: u64,
    pub exit_next_iteration: bool,
    pub window: W,
    fixed_time_step: u64,
    number_of_updates: u32,
    number_of_renders: u32,
    last_frame_time: u64,
    running_time: u64,
    accumulated_time: u64,
    blending_factor: u64,
    previous_instant: T,
    current_instant: T,
}

/// `a + b`, held at `u64::MAX`.
fn add_nanos(a: u64, b: u64) -> (r: u64)
    ensures
        r == sat_add(a, b),
{
    a.saturating_add(b)
}

/// `n + 1`, held at `u32::MAX`.
fn count_one(n: u32) -> (r: u32)
    ensures
        r == sat_count(n, 1),
{
    n.saturating_add(1)
}

/// `acc / step` in billionths, held at `u64::MAX`.
fn blend_of(acc: u64, step: u64) -> (r: u64)
    requires
        step > 0,
    ensures
        r == blend(acc, step),
{
    let b: u128 = (acc as u128) * (NANOS_PER_SECOND as u128) / (step as u128);
    if b > u64::MAX as u128 {
        u64::MAX
    } else {
        b as u64
    }
}

impl<G, T: TimeTrait, W> GameLoop<G, T, W> {
    #[verifier::type_invariant]
    spec fn step_is_positive(self) -> bool {
        self.fixed_time_step > 0
    }

    /// The timing counters.
    pub closed spec fn view(&self) -> LoopView {
        LoopView {
            updates_per_second: self.updates_per_second,
            max_frame_time: self.max_frame_time,
            exit_next_iteration: self.exit_next_iteration,
            fixed_time_step: self.fixed_time_step,
            number_of_updates: self.number_of_updates,
            number_of_renders: self.number_of_renders,
            last_frame_time: self.last_frame_time,
            running_time: self.running_time,
            accumulated_time: self.accumulated_time,
            blending_factor: self.blending_factor,
        }
    }

    /// The clock readings at the start and at the end of the current frame.
    pub closed spec fn instants(&self) -> (T, T) {
        (self.previous_instant, self.current_instant)
    }

    /// The game and the window.
    pub closed spec fn payload(&self) -> (G, W) {
        (self.game, self.window)
    }

    /// The game, the window and both clock readings are those of `other`.
    pub open spec fn same_surroundings(&self, other: &Self) -> bool {
        &&& self.payload() == other.payload()
        &&& self.instants() == other.instants()
    }

    /// A loop over `game` at `updates_per_second`, whose frames count at most
    /// `max_frame_time` nanoseconds each; both clock readings are taken now.
    pub fn new(game: G, updates_per_second: u32, max_frame_time: u64, window: W) -> (r: Result<
        Self,
        RateError,
    >)
        ensures
            r is Err <==> rate_error(updates_per_second) is Some,
            r is Err ==> r->Err_0 == rate_error(updates_per_second)->Some_0,
            r is Ok ==> r->Ok_0@ == fresh(updates_per_second, max_frame_time),
            r is Ok ==> r->Ok_0.payload() == (game, window),
    {
        if updates_per_second == 0 {
            return Err(RateError::Zero);
        }
        if updates_per_second as u64 > NANOS_PER_SECOND {
            return Err(RateError::TooHigh);
        }
        let fixed_time_step = NANOS_PER_SECOND / (updates_per_second as u64);
        proof {
            let u = updates_per_second as int;
            assert(NANOS_PER_SECOND as int / u >= 1) by (nonlinear_arith)
                requires
                    0 < u <= NANOS_PER_SECOND as int,
            ;
        }
        let previous_instant = T::now();
        let current_instant = T::now();
        Ok(GameLoop {
            game,
            updates_per_second,
            max_frame_time,
            exit_next_iteration: false,
            window,
            fixed_time_step,
            number_of_updates: 0,
            number_of_renders: 0,
            last_frame_time: 0,
            running_time: 0,
            accumulated_time: 0,
            blending_factor: 0,
            previous_instant,
            current_instant,
        })
    }

    /// Adds one frame's elapsed time, clamped to `max_frame_time`, to the
    /// running time and to the accumulator, and records it as the last frame time.
    pub fn accumulate(&mut self, elapsed: u64)
        ensures
            final(self)@ == accumulated(old(self)@, elapsed),
            final(self).same_surroundings(old(self)),
    {
        proof {
            use_type_invariant(&*self);
        }
        let e = if elapsed > self.max_frame_time {
            self.max_frame_time
        } else {
            elapsed
        };
        self.last_frame_time = e;
        self.running_time = add_nanos(self.running_time, e);
        self.accumulated_time = add_nanos(self.accumulated_time, e);
    }

    /// The number of whole fixed steps in the accumulator.
    pub fn pending_updates(&self) -> (r: u64)
        ensures
            r == updates_due(self@),
    {
        proof {
            use_type_invariant(self);
        }
        self.accumulated_time / self.fixed_time_step
    }

    /// Measures the blending factor from the accumulator and the fixed step.
    pub fn blend(&mut self)
        ensures
            final(self)@ == blended(old(self)@),
            final(self).same_surroundings(old(self)),
    {
        proof {
            use_type_invariant(&*self);
        }
        self.blending_factor = blend_of(self.accumulated_time, self.fixed_time_step);
    }

    /// `after` differs from `before` in no timing counter and no clock
    /// reading, except that exit may have been asked for.
    pub open spec fn keeps_timing(before: Self, after: Self) -> bool {
        &&& after@ == with_exit(before@, after@.exit_next_iteration)
        &&& before@.exit_next_iteration ==> after@.exit_next_iteration
        &&& after.instants() == before.instants()
    }

    /// Runs one update for each whole fixed step that the accumulator held on
    /// entry, taking that step from the accumulator after each, then measures
    /// the blending factor. The rate in force on entry governs the whole drain.
    /// Returns the number of updates run.
    fn drain<U>(&mut self, update: &mut U) -> (r: u64)
        where
            U: FnMut(&mut GameLoop<G, T, W>),
        requires
            forall|a: (&mut GameLoop<G, T, W>,)| #[trigger] call_requires(*old(update), a),
        ensures
            r == updates_due(old(self)@),
            final(self)@.number_of_updates == sat_count(old(self)@.number_of_updates, r as int),
            final(self)@.blending_factor == blend(
                final(self)@.accumulated_time,
                final(self)@.fixed_time_step,
            ),
            (forall|a: (&mut GameLoop<G, T, W>,), o: ()| #[trigger] call_ensures(*old(update), a, o) ==> Self::keeps_timing(mut_ref_current(a.0), mut_ref_future(a.0))) ==> final(self)@ == with_exit(
                drained(old(self)@),
                final(self)@.exit_next_iteration,
            ) && (old(self)@.exit_next_iteration ==> final(self)@.exit_next_iteration)
                && final(self).instants() == old(self).instants(),
            (forall|a: (&mut GameLoop<G, T, W>,), o: ()| #[trigger] call_ensures(*old(update), a, o) ==> mut_ref_future(a.0).payload() == mut_ref_current(a.0).payload()) ==> final(self).payload() == old(self).payload(),
    {
        proof {
            use_type_invariant(&*self);
        }
        let ghost entry = self@;
        let ghost entry_instants = self.instants();
        let ghost entry_payload = self.payload();
        let step = self.fixed_time_step;
        let due = self.accumulated_time / step;
        proof {
            lemma_fundamental_div_mod(entry.accumulated_time as int, step as int);
            lemma_mod_pos_bound(entry.accumulated_time as int, step as int);
        }
        let ghost first = self.number_of_updates;
        let mut updates = self.number_of_updates;
        let mut i: u64 = 0;
        while i < due
            invariant
                i <= due,
                step > 0,
                step == entry.fixed_time_step,
                due == updates_due(entry),
                entry.accumulated_time as int == step * due + entry.accumulated_time as int % step as int,
                updates == sat_count(first, i as int),
                first == entry.number_of_updates,
                forall|a: (&mut GameLoop<G, T, W>,)| #[trigger] call_requires(*update, a),
                *update == *old(update),
                (forall|a: (&mut GameLoop<G, T, W>,), o: ()| #[trigger] call_ensures(*update, a, o) ==> Self::keeps_timing(mut_ref_current(a.0), mut_ref_future(a.0))) ==> self@ == with_exit(
                    LoopView {
                        accumulated_time: (entry.accumulated_time - i * step) as u64,
                        number_of_updates: updates,
                        ..entry
                    },
                    self@.exit_next_iteration,
                ) && (entry.exit_next_iteration ==> self@.exit_next_iteration)
                    && self.instants() == entry_instants,
                (forall|a: (&mut GameLoop<G, T, W>,), o: ()| #[trigger] call_ensures(*update, a, o) ==> mut_ref_future(a.0).payload() == mut_ref_current(a.0).payload()) ==> self.payload() == entry_payload,
            decreases due - i,
        {
            proof {
                assert((i + 1) * step <= step * due) by (nonlinear_arith)
                    requires
                        i < due,
                        step > 0,
                ;
                assert((i + 1) * step == i * step + step) by (nonlinear_arith);
            }
            update(self);
            proof {
                use_type_invariant(&*self);
            }
            self.accumulated_time = self.accumulated_time.saturating_sub(step);
            updates = count_one(updates);
            self.number_of_updates = updates;
            i = i + 1;
        }
        proof {
            use_type_invariant(&*self);
            assert(i * step == step * due) by (nonlinear_arith)
                requires
                    i == due,
            ;
        }
        self.number_of_updates = updates;
        self.blending_factor = blend_of(self.accumulated_time, self.fixed_time_step);
        due
    }

    /// Advances the loop by one frame: unless exit was asked for, reads the
    /// clock, measures the time since the frame before began, and runs that
    /// frame as `run_frame` does. Returns `false`, with nothing run or changed,
    /// where exit was asked for before the call.
    ///
    /// Where neither callback changes the timing counters or clock readings
    /// (either may ask for exit), the counters end as `stepped` gives them for
    /// the time that the clock measures from the frame's start (the previous
    /// instant) to the reading taken now, which becomes the next frame's start.
    pub fn next_frame<U, R>(&mut self, mut update: U, mut render: R) -> (r: bool)
        where
            U: FnMut(&mut GameLoop<G, T, W>),
            R: FnMut(&mut GameLoop<G, T, W>),
        requires
            forall|a: (&mut GameLoop<G, T, W>,)| #[trigger] call_requires(update, a),
            forall|a: (&mut GameLoop<G, T, W>,)| #[trigger] call_requires(render, a),
        ensures
            r == !old(self)@.exit_next_iteration,
            !r ==> *final(self) == *old(self),
            r ==> final(self)@.number_of_renders == sat_count(old(self)@.number_of_renders, 1),
            r ==> final(self).instants().0 == final(self).instants().1,
            r && (forall|a: (&mut GameLoop<G, T, W>,), o: ()| #[trigger] call_ensures(update, a, o) ==> Self::keeps_timing(mut_ref_current(a.0), mut_ref_future(a.0))) && (forall|a: (&mut GameLoop<G, T, W>,), o: ()| #[trigger] call_ensures(render, a, o) ==> Self::keeps_timing(mut_ref_current(a.0), mut_ref_future(a.0))) ==> final(self)@ == with_exit(
                stepped(old(self)@, final(self).instants().0.spec_sub(&old(self).instants().0)),
                final(self)@.exit_next_iteration,
            ),
            (forall|a: (&mut GameLoop<G, T, W>,), o: ()| #[trigger] call_ensures(update, a, o) ==> mut_ref_future(a.0).payload() == mut_ref_current(a.0).payload()) && (forall|a: (&mut GameLoop<G, T, W>,), o: ()| #[trigger] call_ensures(render, a, o) ==> mut_ref_future(a.0).payload() == mut_ref_current(a.0).payload()) ==> final(self).payload() == old(self).payload(),
    {
        if self.exit_next_iteration {
            return false;
        }
        let now = T::now();
        self.set_current_instant(now);
        let elapsed = now.sub(&self.previous_instant);
        self.run_frame(elapsed, &mut update, &mut render);
        true
    }

    /// Records a clock reading as the latest one.
    fn set_current_instant(&mut self, now: T)
        ensures
            final(self)@ == old(self)@,
            final(self).payload() == old(self).payload(),
            final(self).instants() == (old(self).instants().0, now),
    {
        proof {
            use_type_invariant(&*self);
        }
        self.current_instant = now;
    }

    /// Runs one frame whose clock advanced by `elapsed` since the frame before
    /// began: adds `elapsed`, clamped, as `accumulate` does; runs `update` once
    /// for each whole fixed step then in the accumulator (exit asked for on the
    /// way does not cut this short), taking that step after each; measures the
    /// blending factor; runs `render` once; counts the render; and starts the
    /// next frame at the latest clock reading. Returns the number of updates run.
    ///
    /// Where neither callback changes the timing counters or clock readings
    /// (either may ask for exit), the counters end exactly as `stepped` gives
    /// them, and the next frame starts at the reading this frame ended on.
    pub fn run_frame<U, R>(&mut self, elapsed: u64, update: &mut U, render: &mut R) -> (r: u64)
        where
            U: FnMut(&mut GameLoop<G, T, W>),
            R: FnMut(&mut GameLoop<G, T, W>),
        requires
            forall|a: (&mut GameLoop<G, T, W>,)| #[trigger] call_requires(*old(update), a),
            forall|a: (&mut GameLoop<G, T, W>,)| #[trigger] call_requires(*old(render), a),
        ensures
            r == updates_due(accumulated(old(self)@, elapsed)),
            final(self)@.number_of_renders == sat_count(old(self)@.number_of_renders, 1),
            final(self).instants().0 == final(self).instants().1,
            (forall|a: (&mut GameLoop<G, T, W>,), o: ()| #[trigger] call_ensures(*old(update), a, o) ==> Self::keeps_timing(mut_ref_current(a.0), mut_ref_future(a.0))) && (forall|a: (&mut GameLoop<G, T, W>,), o: ()| #[trigger] call_ensures(*old(render), a, o) ==> Self::keeps_timing(mut_ref_current(a.0), mut_ref_future(a.0))) ==> final(self)@ == with_exit(
                stepped(old(self)@, elapsed),
                final(self)@.exit_next_iteration,
            ) && (old(self)@.exit_next_iteration ==> final(self)@.exit_next_iteration)
                && final(self).instants() == (old(self).instants().1, old(self).instants().1),
            (forall|a: (&mut GameLoop<G, T, W>,), o: ()| #[trigger] call_ensures(*old(update), a, o) ==> mut_ref_future(a.0).payload() == mut_ref_current(a.0).payload()) && (forall|a: (&mut GameLoop<G, T, W>,), o: ()| #[trigger] call_ensures(*old(render), a, o) ==> mut_ref_future(a.0).payload() == mut_ref_current(a.0).payload()) ==> final(self).payload() == old(self).payload(),
    {
        proof {
            use_type_invariant(&*self);
        }
        let renders = self.number_of_renders;
        self.accumulate(elapsed);
        let ran = self.drain(update);
        render(self);
        proof {
            use_type_invariant(&*self);
        }
        self.number_of_renders = count_one(renders);
        self.previous_instant = self.current_instant;
        ran
    }

    /// Measures again, mid-frame, the time since the frame began, and adds
    /// what goes beyond the last frame time to the running time and to the
    /// accumulator; the blending factor is measured anew and may exceed one
    /// whole step. Neither the frame's start nor the last frame time changes.
    pub fn re_accumulate(&mut self)
        ensures
            final(self)@ == reaccumulated(
                old(self)@,
                final(self).instants().1.spec_sub(&old(self).instants().0),
            ),
            final(self).payload() == old(self).payload(),
            final(self).instants().0 == old(self).instants().0,
    {
        proof {
            use_type_invariant(&*self);
        }
        let now = T::now();
        self.current_instant = now;
        let elapsed = now.sub(&self.previous_instant);
        self.re_accumulate_to(elapsed);
        assert(final(self)@ == reaccumulated(old(self)@, elapsed));
    }

    /// What `re_accumulate` does once the clock has been read: `elapsed` is the
    /// time since the frame began.
    pub fn re_accumulate_to(&mut self, elapsed: u64)
        ensures
            final(self)@ == reaccumulated(old(self)@, elapsed),
            final(self).same_surroundings(old(self)),
    {
        proof {
            use_type_invariant(&*self);
        }
        let delta = elapsed.saturating_sub(self.last_frame_time);
        self.running_time = add_nanos(self.running_time, delta);
        self.accumulated_time = add_nanos(self.accumulated_time, delta);
        self.blending_factor = blend_of(self.accumulated_time, self.fixed_time_step);
    }

    /// Asks the loop to stop: the next frame does nothing and reports `false`.
    pub fn exit(&mut self)
        ensures
            final(self)@ == exited(old(self)@),
            final(self).same_surroundings(old(self)),
    {
        proof {
            use_type_invariant(&*self);
        }
        self.exit_next_iteration = true;
    }

    /// Sets the update rate and the fixed step that follows from it; the next
    /// drain uses them. A rate that cannot be used is refused and changes nothing.
    pub fn set_updates_per_second(&mut self, new_updates_per_second: u32) -> (r: Result<
        (),
        RateError,
    >)
        ensures
            r is Err <==> rate_error(new_updates_per_second) is Some,
            r is Err ==> r->Err_0 == rate_error(new_updates_per_second)->Some_0,
            r is Err ==> *final(self) == *old(self),
            r is Ok ==> final(self)@ == with_rate(old(self)@, new_updates_per_second),
            final(self).same_surroundings(old(self)),
    {
        proof {
            use_type_invariant(&*self);
        }
        if new_updates_per_second == 0 {
            return Err(RateError::Zero);
        }
        if new_updates_per_second as u64 > NANOS_PER_SECOND {
            return Err(RateError::TooHigh);
        }
        let step = NANOS_PER_SECOND / (new_updates_per_second as u64);
        proof {
            let u = new_updates_per_second as int;
            assert(NANOS_PER_SECOND as int / u >= 1) by (nonlinear_arith)
                requires
                    0 < u <= NANOS_PER_SECOND as int,
            ;
        }
        self.updates_per_second = new_updates_per_second;
        self.fixed_time_step = step;
        Ok(())
    }

    /// The fixed time step in nanoseconds; never zero.
    pub fn fixed_time_step(&self) -> (r: u64)
        ensures
            r == self@.fixed_time_step,
            r > 0,
    {
        proof {
            use_type_invariant(self);
        }
        self.fixed_time_step
    }

    /// The number of updates run since the loop began.
    pub fn number_of_updates(&self) -> (r: u32)
        ensures
            r == self@.number_of_updates,
    {
        self.number_of_updates
    }

    /// The number of renders run since the loop began.
    pub fn number_of_renders(&self) -> (r: u32)
        ensures
            r == self@.number_of_renders,
    {
        self.number_of_renders
    }

    /// The clamped elapsed time of the latest frame, in nanoseconds.
    pub fn last_frame_time(&self) -> (r: u64)
        ensures
            r == self@.last_frame_time,
    {
        self.last_frame_time
    }

    /// The time counted since the loop began, in nanoseconds.
    pub fn running_time(&self) -> (r: u64)
        ensures
            r == self@.running_time,
    {
        self.running_time
    }

    /// The time not yet taken by updates, in nanoseconds.
    pub fn accumulated_time(&self) -> (r: u64)
        ensures
            r == self@.accumulated_time,
    {
        self.accumulated_time
    }

    /// The accumulator over the fixed step in billionths, as last measured.
    pub fn blending_factor(&self) -> (r: u64)
        ensures
            r == self@.blending_factor,
    {
        self.blending_factor
    }

    /// The clock reading at which the current frame began.
    pub fn previous_instant(&self) -> (r: T)
        ensures
            r == self.instants().0,
    {
        self.previous_instant
    }

    /// The latest clock reading.
    pub fn current_instant(&self) -> (r: T)
        ensures
            r == self.instants().1,
    {
        self.current_instant
    }
}

} // verus!
