use game_loop::{GameLoop, HostAction, HostEvent, RateError, Time, TimeTrait, NANOS_PER_SECOND};
use std::time::{Duration, Instant};

const MS: u64 = 1_000_000;

fn fresh(updates_per_second: u32, max_frame_time: u64) -> GameLoop<u32, Time, ()> {
    GameLoop::new(0u32, updates_per_second, max_frame_time, ()).unwrap()
}

/// Blocks for `d` without using the CPU: waits on a channel that never
/// receives.
fn pause(d: Duration) {
    let (_sender, receiver) = std::sync::mpsc::channel::<()>();
    let start = Instant::now();
    while start.elapsed() < d {
        let _ = receiver.recv_timeout(d - start.elapsed().min(d));
    }
}

#[test]
fn fixed_time_step_is_one_second_over_the_rate() {
    assert_eq!(fresh(100, u64::MAX).fixed_time_step(), 10 * MS);
    assert_eq!(fresh(3, u64::MAX).fixed_time_step(), 333_333_333);
    assert_eq!(fresh(1, u64::MAX).fixed_time_step(), NANOS_PER_SECOND);
    assert_eq!(fresh(1_000_000_000, u64::MAX).fixed_time_step(), 1);
}

#[test]
fn set_updates_per_second_recomputes_the_step() {
    let mut g = fresh(100, u64::MAX);
    assert_eq!(g.set_updates_per_second(60), Ok(()));
    assert_eq!(g.updates_per_second, 60);
    assert_eq!(g.fixed_time_step(), 16_666_666);
}

#[test]
fn a_zero_rate_is_refused() {
    assert!(matches!(GameLoop::<u32, Time, ()>::new(0, 0, MS, ()), Err(RateError::Zero)));
    let mut g = fresh(100, u64::MAX);
    assert_eq!(g.set_updates_per_second(0), Err(RateError::Zero));
    assert_eq!(g.updates_per_second, 100);
    assert_eq!(g.fixed_time_step(), 10 * MS);
}

#[test]
fn a_rate_above_one_per_nanosecond_is_refused() {
    assert!(matches!(
        GameLoop::<u32, Time, ()>::new(0, 1_000_000_001, MS, ()),
        Err(RateError::TooHigh)
    ));
    let mut g = fresh(100, u64::MAX);
    assert_eq!(g.set_updates_per_second(u32::MAX), Err(RateError::TooHigh));
    assert_eq!(g.fixed_time_step(), 10 * MS);
}

#[test]
fn a_new_loop_starts_at_zero() {
    let g = fresh(100, 5 * MS);
    assert_eq!(g.number_of_updates(), 0);
    assert_eq!(g.number_of_renders(), 0);
    assert_eq!(g.running_time(), 0);
    assert_eq!(g.accumulated_time(), 0);
    assert_eq!(g.blending_factor(), 0);
    assert_eq!(g.last_frame_time(), 0);
    assert_eq!(g.max_frame_time, 5 * MS);
    assert!(!g.exit_next_iteration);
}

#[test]
fn a_long_frame_is_clamped_to_the_ceiling() {
    let mut g = fresh(100, 100 * MS);
    g.accumulate(200 * MS);
    assert_eq!(g.last_frame_time(), 100 * MS);
    assert_eq!(g.running_time(), 100 * MS);
    assert_eq!(g.accumulated_time(), 100 * MS);
    assert_eq!(g.pending_updates(), 10);
}

#[test]
fn a_short_frame_is_counted_whole() {
    let mut g = fresh(100, 100 * MS);
    g.accumulate(25 * MS);
    assert_eq!(g.last_frame_time(), 25 * MS);
    assert_eq!(g.pending_updates(), 2);
    g.blend();
    assert_eq!(g.blending_factor(), 2_500_000_000);
}

#[test]
fn counters_hold_at_their_ceiling() {
    let mut g = fresh(100, u64::MAX);
    g.accumulate(u64::MAX - 5);
    g.accumulate(10);
    assert_eq!(g.running_time(), u64::MAX);
    assert_eq!(g.accumulated_time(), u64::MAX);
    assert_eq!(g.pending_updates(), u64::MAX / (10 * MS));
}

#[test]
fn re_accumulate_adds_only_the_time_beyond_the_frame() {
    let mut g = fresh(100, u64::MAX);
    g.accumulate(5 * MS);
    g.re_accumulate_to(205 * MS);
    assert_eq!(g.running_time(), 205 * MS);
    assert_eq!(g.accumulated_time(), 205 * MS);
    assert_eq!(g.last_frame_time(), 5 * MS);
    assert_eq!(g.blending_factor(), 20_500_000_000);
}

#[test]
fn re_accumulate_with_an_earlier_measure_adds_nothing() {
    let mut g = fresh(100, u64::MAX);
    g.accumulate(5 * MS);
    g.re_accumulate_to(MS);
    assert_eq!(g.running_time(), 5 * MS);
    assert_eq!(g.accumulated_time(), 5 * MS);
    assert_eq!(g.blending_factor(), 500_000_000);
}

#[test]
fn blending_factor_is_below_one_step_after_a_frame() {
    let mut g = fresh(1000, u64::MAX);
    for _ in 0..50 {
        pause(Duration::from_micros(700));
        assert!(g.next_frame(|_| {}, |_| {}));
        assert!(g.blending_factor() < NANOS_PER_SECOND);
        assert!(g.accumulated_time() < g.fixed_time_step());
    }
}

#[test]
fn exit_takes_effect_on_the_next_frame() {
    let mut g = fresh(100, u64::MAX);
    let mut updates = 0;
    let mut renders = 0;
    pause(Duration::from_millis(25));
    let first = g.next_frame(
        |g| {
            updates += 1;
            g.exit();
        },
        |_| renders += 1,
    );
    assert!(first);
    assert_eq!(updates, 2);
    assert_eq!(renders, 1);
    assert_eq!(g.number_of_updates(), 2);
    assert_eq!(g.number_of_renders(), 1);
    let second = g.next_frame(|_| updates += 1, |_| renders += 1);
    assert!(!second);
    assert_eq!(updates, 2);
    assert_eq!(renders, 1);
    assert_eq!(g.number_of_renders(), 1);
}

#[test]
fn exit_twice_is_exit_once() {
    let mut once = fresh(100, u64::MAX);
    let mut twice = fresh(100, u64::MAX);
    once.exit();
    twice.exit();
    twice.exit();
    assert_eq!(once.exit_next_iteration, twice.exit_next_iteration);
    assert!(!twice.next_frame(|_| {}, |_| {}));
    assert_eq!(twice.number_of_renders(), 0);
}

#[test]
fn renders_count_once_per_frame_whatever_the_updates() {
    let mut g = fresh(1, u64::MAX);
    assert!(g.next_frame(|_| {}, |_| {}));
    assert!(g.next_frame(|_| {}, |_| {}));
    assert_eq!(g.number_of_updates(), 0);
    assert_eq!(g.number_of_renders(), 2);
    let mut h = fresh(1000, u64::MAX);
    pause(Duration::from_millis(5));
    assert!(h.next_frame(|_| {}, |_| {}));
    assert!(h.number_of_updates() >= 5);
    assert_eq!(h.number_of_renders(), 1);
}

#[test]
fn a_rate_change_applies_from_the_next_drain() {
    let mut g = fresh(100, u64::MAX);
    pause(Duration::from_millis(35));
    let mut calls = 0;
    assert!(g.next_frame(
        |g| {
            calls += 1;
            g.set_updates_per_second(1).unwrap();
        },
        |_| {}
    ));
    assert_eq!(calls, 3);
    assert_eq!(g.fixed_time_step(), NANOS_PER_SECOND);
}

#[test]
fn frame_starts_where_the_last_one_ended() {
    let mut g = fresh(100, u64::MAX);
    assert!(g.next_frame(|_| {}, |_| {}));
    let a = g.previous_instant();
    let b = g.current_instant();
    assert_eq!(b.sub(&a), 0);
}

#[test]
fn the_clock_measures_forward_and_not_backward() {
    let earlier = Time::now();
    pause(Duration::from_millis(2));
    let later = Time::now();
    assert!(later.sub(&earlier) >= 2 * MS);
    assert_eq!(earlier.sub(&later), 0);
    assert!(Time::supports_sleep());
}

#[test]
fn host_events_map_to_actions() {
    let mut g = fresh(100, u64::MAX);
    assert_eq!(g.on_host_event(HostEvent::AboutToWait, |_| {}, |_| {}), HostAction::RequestRedraw);
    assert_eq!(g.on_host_event(HostEvent::Other, |_| {}, |_| {}), HostAction::Wait);
    assert_eq!(g.number_of_renders(), 0);
    assert_eq!(g.on_host_event(HostEvent::RedrawRequested, |_| {}, |g| g.exit()), HostAction::Wait);
    assert_eq!(g.number_of_renders(), 1);
    assert_eq!(g.on_host_event(HostEvent::RedrawRequested, |_| {}, |_| {}), HostAction::Exit);
    assert_eq!(g.number_of_renders(), 1);
}

#[test]
fn running_until_a_tenth_of_a_second_gives_ten_updates() {
    let mut g = fresh(100, u64::MAX);
    while g.running_time() <= 100 * MS {
        assert!(g.next_frame(|_| {}, |_| {}));
    }
    assert_eq!(g.number_of_updates() as u64, g.running_time() / (10 * MS));
    assert!(g.number_of_updates() >= 10);
}

#[test]
fn re_accumulate_is_not_counted_again_by_the_next_frame() {
    let mut g = fresh(100, u64::MAX);
    let mut first = true;
    assert!(g.next_frame(|_| {}, |g| {
        if first {
            pause(Duration::from_millis(50));
            g.re_accumulate();
            first = false;
        }
    }));
    let after_first = g.running_time();
    assert!(after_first >= 50 * MS);
    assert!(g.next_frame(|_| {}, |_| {}));
    assert!(g.running_time() - after_first < 20 * MS);
}

#[test]
fn a_clamped_frame_runs_ten_updates_not_twenty() {
    let mut g = fresh(100, 100 * MS);
    let mut updates = 0;
    let mut renders = 0;
    let ran = g.run_frame(200 * MS, &mut |_: &mut GameLoop<u32, Time, ()>| updates += 1, &mut |_: &mut GameLoop<u32, Time, ()>| renders += 1);
    assert_eq!(ran, 10);
    assert_eq!(updates, 10);
    assert_eq!(renders, 1);
    assert_eq!(g.number_of_updates(), 10);
    assert_eq!(g.number_of_renders(), 1);
    assert_eq!(g.last_frame_time(), 100 * MS);
    assert_eq!(g.running_time(), 100 * MS);
    assert_eq!(g.accumulated_time(), 0);
    assert_eq!(g.blending_factor(), 0);
}

#[test]
fn exit_inside_a_frame_does_not_cut_the_drain_short() {
    let mut g = fresh(100, u64::MAX);
    let mut updates = 0;
    let mut renders = 0;
    let ran = g.run_frame(
        35 * MS,
        &mut |g: &mut GameLoop<u32, Time, ()>| {
            updates += 1;
            g.exit();
        },
        &mut |_: &mut GameLoop<u32, Time, ()>| renders += 1,
    );
    assert_eq!(ran, 3);
    assert_eq!(updates, 3);
    assert_eq!(renders, 1);
    assert!(g.exit_next_iteration);
    assert_eq!(g.accumulated_time(), 5 * MS);
    assert_eq!(g.blending_factor(), 500_000_000);
    assert!(!g.next_frame(|_| updates += 1, |_| renders += 1));
    assert_eq!(updates, 3);
    assert_eq!(renders, 1);
}

#[test]
fn frames_keep_exact_accounts() {
    let mut g = fresh(100, 50 * MS);
    let mut total = 0;
    for e in [3 * MS, 17 * MS, 80 * MS, 9 * MS, 1, 10 * MS] {
        total += g.run_frame(e, &mut |_: &mut GameLoop<u32, Time, ()>| {}, &mut |_: &mut GameLoop<u32, Time, ()>| {});
        assert_eq!(
            g.number_of_updates() as u64 * g.fixed_time_step() + g.accumulated_time(),
            g.running_time()
        );
        assert!(g.accumulated_time() < g.fixed_time_step());
        assert!(g.last_frame_time() <= g.max_frame_time);
    }
    assert_eq!(total, g.number_of_updates() as u64);
    assert_eq!(g.running_time(), 3 * MS + 17 * MS + 50 * MS + 9 * MS + 1 + 10 * MS);
    assert_eq!(g.number_of_updates(), 8);
    assert_eq!(g.number_of_renders(), 6);
}
