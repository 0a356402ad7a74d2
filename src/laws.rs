//! Properties of the timing model that hold across several operations.

use vstd::prelude::*;
use vstd::arithmetic::div_mod::{lemma_fundamental_div_mod, lemma_mod_pos_bound};
use crate::base::{
    LoopView, NANOS_PER_SECOND, accumulated, blend, clamp_frame, exited, fresh, rate_is_valid,
    reaccumulated, sat_add, step_of, stepped, updates_due, with_exit,
};
use crate::host::{HostAction, HostEvent, action_for};

verus! {

/// The fixed step is one second over the rate, rounded down to the
/// nanosecond: `step * ups` is at most one second, and one nanosecond more per
/// step would pass it.
pub proof fn lemma_step_is_reciprocal(ups: u32)
    requires
        rate_is_valid(ups),
    ensures
        step_of(ups) as int * ups as int <= NANOS_PER_SECOND as int,
        (NANOS_PER_SECOND as int) < (step_of(ups) as int + 1) * ups as int,
        step_of(ups) > 0,
{
    let u = ups as int;
    let n = NANOS_PER_SECOND as int;
    lemma_fundamental_div_mod(n, u);
    lemma_mod_pos_bound(n, u);
    let q = n / u;
    assert(q * u <= n && n < (q + 1) * u && q >= 1) by (nonlinear_arith)
        requires
            n == u * q + n % u,
            0 <= n % u < u,
            0 < u <= n,
    ;
}

/// Asking for exit twice leaves the loop as asking once does.
pub proof fn lemma_exit_is_idempotent(m: LoopView)
    ensures
        exited(exited(m)) == exited(m),
{
}

/// Once exit has been asked for, the next frame reports that the loop ends
/// (so runs no callback and changes nothing), and a host redraw leaves the host
/// loop; no counter changes on the way.
pub proof fn lemma_exit_stops_the_next_frame(m: LoopView)
    ensures
        exited(m).exit_next_iteration,
        action_for(HostEvent::RedrawRequested, !exited(m).exit_next_iteration) == HostAction::Exit,
        exited(m).number_of_updates == m.number_of_updates,
        exited(m).number_of_renders == m.number_of_renders,
        exited(m).accumulated_time == m.accumulated_time,
{
}

/// The updates run, each worth one fixed step, plus the accumulator, make up
/// the running time.
pub open spec fn accounts_exactly(m: LoopView) -> bool {
    m.number_of_updates as int * m.fixed_time_step as int + m.accumulated_time as int
        == m.running_time as int
}

/// A new loop accounts exactly.
pub proof fn lemma_fresh_accounts_exactly(ups: u32, max_frame_time: u64)
    ensures
        accounts_exactly(fresh(ups, max_frame_time)),
{
}

/// Exact accumulator arithmetic: a frame whose callbacks leave the timing
/// alone (whether or not they ask for exit, as `next_frame` states), and in
/// which no counter reaches its ceiling, keeps the accounts exact and leaves
/// less than one step in the accumulator, so the number of updates is the
/// running time over the fixed step, rounded down.
pub proof fn lemma_frame_keeps_exact_accounts(m: LoopView, elapsed: u64, exit: bool)
    requires
        m.fixed_time_step > 0,
        accounts_exactly(m),
        m.running_time + clamp_frame(elapsed, m.max_frame_time) <= u64::MAX,
        m.number_of_updates + updates_due(accumulated(m, elapsed)) <= u32::MAX,
    ensures
        accounts_exactly(with_exit(stepped(m, elapsed), exit)),
        with_exit(stepped(m, elapsed), exit).accumulated_time < m.fixed_time_step,
        with_exit(stepped(m, elapsed), exit).number_of_updates as int == with_exit(
            stepped(m, elapsed),
            exit,
        ).running_time as int / m.fixed_time_step as int,
{
    let a = accumulated(m, elapsed);
    let s = stepped(m, elapsed);
    let step = m.fixed_time_step as int;
    let acc = a.accumulated_time as int;
    assert(m.number_of_updates as int * step >= 0) by (nonlinear_arith)
        requires
            step > 0,
    ;
    assert(acc == m.accumulated_time + clamp_frame(elapsed, m.max_frame_time));
    lemma_fundamental_div_mod(acc, step);
    lemma_mod_pos_bound(acc, step);
    let k = acc / step;
    let u = m.number_of_updates as int;
    assert(s.number_of_updates as int == u + k);
    assert(s.accumulated_time as int == acc % step);
    assert((u + k) * step + acc % step == u * step + acc) by (nonlinear_arith)
        requires
            acc == step * k + acc % step,
    ;
    let r = s.running_time as int;
    let n = u + k;
    let rest = acc % step;
    lemma_fundamental_div_mod(r, step);
    lemma_mod_pos_bound(r, step);
    let q = r / step;
    assert((n - q) * step == r % step - rest) by (nonlinear_arith)
        requires
            n * step + rest == r,
            r == step * q + r % step,
    ;
    assert(n == q) by (nonlinear_arith)
        requires
            (n - q) * step == r % step - rest,
            0 <= rest < step,
            0 <= r % step < step,
    ;
}

/// Right after a frame whose callbacks leave the timing alone, the
/// accumulator is below one step and the blending factor, the accumulator over
/// the step in billionths (rounded down), is below one whole step.
pub proof fn lemma_blending_below_one_step(m: LoopView, elapsed: u64, exit: bool)
    requires
        m.fixed_time_step > 0,
    ensures
        with_exit(stepped(m, elapsed), exit).accumulated_time < m.fixed_time_step,
        with_exit(stepped(m, elapsed), exit).blending_factor < NANOS_PER_SECOND,
        with_exit(stepped(m, elapsed), exit).blending_factor as int * m.fixed_time_step as int
            <= with_exit(stepped(m, elapsed), exit).accumulated_time as int
            * NANOS_PER_SECOND as int,
        (with_exit(stepped(m, elapsed), exit).accumulated_time as int * NANOS_PER_SECOND as int)
            < (with_exit(stepped(m, elapsed), exit).blending_factor as int + 1)
            * m.fixed_time_step as int,
{
    let a = accumulated(m, elapsed);
    let step = m.fixed_time_step as int;
    let n = NANOS_PER_SECOND as int;
    lemma_mod_pos_bound(a.accumulated_time as int, step);
    let rest = a.accumulated_time as int % step;
    let prod = rest * n;
    lemma_fundamental_div_mod(prod, step);
    lemma_mod_pos_bound(prod, step);
    let q = prod / step;
    assert(q < n) by (nonlinear_arith)
        requires
            prod == step * q + prod % step,
            0 <= prod % step,
            0 <= rest < step,
            prod == rest * n,
            n > 0,
    ;
    assert(stepped(m, elapsed).blending_factor == blend(rest as u64, m.fixed_time_step));
    assert(q * step <= prod && prod < (q + 1) * step) by (nonlinear_arith)
        requires
            prod == step * q + prod % step,
            0 <= prod % step < step,
    ;
}

/// A frame longer than the ceiling counts as the ceiling: the updates run are
/// those due for the accumulator plus `max_frame_time`, not plus the frame.
pub proof fn lemma_long_frame_is_clamped(m: LoopView, elapsed: u64, exit: bool)
    requires
        m.fixed_time_step > 0,
        elapsed > m.max_frame_time,
        m.accumulated_time + m.max_frame_time <= u64::MAX,
        m.running_time + m.max_frame_time <= u64::MAX,
        m.number_of_updates + (m.accumulated_time + m.max_frame_time) / m.fixed_time_step as int
            <= u32::MAX,
    ensures
        with_exit(stepped(m, elapsed), exit).last_frame_time == m.max_frame_time,
        with_exit(stepped(m, elapsed), exit).running_time == m.running_time + m.max_frame_time,
        with_exit(stepped(m, elapsed), exit).number_of_updates == m.number_of_updates + (
        m.accumulated_time + m.max_frame_time) / m.fixed_time_step as int,
        accumulated(m, elapsed).last_frame_time == m.max_frame_time,
        accumulated(m, elapsed).running_time == m.running_time + m.max_frame_time,
        updates_due(accumulated(m, elapsed)) == (m.accumulated_time + m.max_frame_time) as int
            / m.fixed_time_step as int,
{
}

/// Measuring the frame again mid-render adds only the time beyond what the
/// frame already counted: after a frame of `elapsed` (within the ceiling) and a
/// new measure of `later` since the frame began, running time and accumulator
/// have each grown by `later` in all, and the blending factor is the
/// accumulator over the step.
pub proof fn lemma_re_accumulate_counts_once(m: LoopView, elapsed: u64, later: u64)
    requires
        m.fixed_time_step > 0,
        elapsed <= m.max_frame_time,
        elapsed <= later,
        m.running_time + later <= u64::MAX,
        m.accumulated_time + later <= u64::MAX,
    ensures
        reaccumulated(accumulated(m, elapsed), later).running_time == m.running_time + later,
        reaccumulated(accumulated(m, elapsed), later).accumulated_time == m.accumulated_time
            + later,
        reaccumulated(accumulated(m, elapsed), later).blending_factor == blend(
            (m.accumulated_time + later) as u64,
            m.fixed_time_step,
        ),
        reaccumulated(accumulated(m, elapsed), later).last_frame_time == elapsed,
{
}

/// A frame whose callbacks leave the timing alone never takes counts or
/// running time back, keeps the rate, the step and the ceiling, and counts at
/// most `max_frame_time` for itself.
pub proof fn lemma_frame_moves_forward(m: LoopView, elapsed: u64, exit: bool)
    requires
        m.fixed_time_step > 0,
    ensures
        with_exit(stepped(m, elapsed), exit).number_of_updates >= m.number_of_updates,
        with_exit(stepped(m, elapsed), exit).number_of_renders >= m.number_of_renders,
        with_exit(stepped(m, elapsed), exit).running_time >= m.running_time,
        with_exit(stepped(m, elapsed), exit).running_time == sat_add(
            m.running_time,
            with_exit(stepped(m, elapsed), exit).last_frame_time,
        ),
        with_exit(stepped(m, elapsed), exit).last_frame_time <= m.max_frame_time,
        with_exit(stepped(m, elapsed), exit).updates_per_second == m.updates_per_second,
        with_exit(stepped(m, elapsed), exit).fixed_time_step == m.fixed_time_step,
        with_exit(stepped(m, elapsed), exit).max_frame_time == m.max_frame_time,
{
    let a = accumulated(m, elapsed);
    lemma_fundamental_div_mod(a.accumulated_time as int, m.fixed_time_step as int);
    assert(updates_due(a) >= 0) by (nonlinear_arith)
        requires
            a.accumulated_time >= 0,
            m.fixed_time_step > 0,
            updates_due(a) == a.accumulated_time as int / m.fixed_time_step as int,
    ;
}

} // verus!
