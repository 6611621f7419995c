//! Runner ticking behavior, with times in milliseconds as the time unit.

use time_runner::Frac;
use time_runner::Repeat;
use time_runner::RepeatStyle;
use time_runner::TimeDirection;
use time_runner::TimeRunner;
use time_runner::TimeScale;

/// Milliseconds for the given number of seconds.
fn secs(s: i64) -> i64 {
    s * 1000
}

#[test]
fn timer() {
    let mut timer = TimeRunner::new(secs(5));

    timer.raw_tick(2500);
    assert_eq!(timer.elasped().now(), 2500);
    assert!(timer.elasped().now_period().eq_value(&Frac::new(1, 2)));

    timer.raw_tick(2500);
    assert_eq!(timer.elasped().now(), secs(5));
    assert!(timer.elasped().now_period().eq_value(&Frac::new(1, 1)));

    timer.raw_tick(secs(1));
    assert_eq!(timer.elasped().now(), secs(5));
    assert!(timer.elasped().now_period().eq_value(&Frac::new(1, 1)));

    timer.set_tick(0);

    timer.raw_tick(secs(3));
    assert_eq!(timer.elasped().now(), secs(3));
    assert!(timer.elasped().now_period().eq_value(&Frac::new(3, 5)));

    timer.raw_tick(secs(3));
    assert_eq!(timer.elasped().now(), secs(5));
    assert!(timer.elasped().now_period().eq_value(&Frac::new(1, 1)));

    timer.raw_tick(secs(1));
    assert_eq!(timer.elasped().now(), secs(5));
    assert!(timer.elasped().now_period().eq_value(&Frac::new(1, 1)));
}

#[test]
fn timer_backward() {
    let mut timer = TimeRunner::new(secs(5));
    timer.set_direction(TimeDirection::Backward);

    timer.raw_tick(secs(1));
    assert_eq!(timer.elasped().now(), 0);
    assert!(timer.elasped().now_period().eq_value(&Frac::new(0, 1)));

    timer.set_tick(secs(5));

    timer.raw_tick(2500);
    assert_eq!(timer.elasped().now(), 2500);
    assert!(timer.elasped().now_period().eq_value(&Frac::new(1, 2)));

    timer.raw_tick(secs(1));
    assert_eq!(timer.elasped().now(), 1500);
    assert!(timer.elasped().now_period().eq_value(&Frac::new(1500, 5000)));

    timer.raw_tick(secs(2));
    assert_eq!(timer.elasped().now(), 0);
    assert!(timer.elasped().now_period().eq_value(&Frac::new(0, 1)));
}

#[test]
fn timer_wrap_around() {
    let mut timer = TimeRunner::new(secs(5));
    timer.set_repeat(Some((Repeat::infinitely(), RepeatStyle::WrapAround)));

    timer.raw_tick(secs(1));
    assert_eq!(timer.elasped().now(), secs(1));
    assert!(timer.elasped().now_period().eq_value(&Frac::new(1, 5)));

    timer.raw_tick(2500);
    assert_eq!(timer.elasped().now(), 3500);
    assert!(timer.elasped().now_period().eq_value(&Frac::new(3500, 5000)));

    timer.raw_tick(secs(1));
    assert_eq!(timer.elasped().now(), 4500);
    assert!(timer.elasped().now_period().eq_value(&Frac::new(4500, 5000)));

    timer.raw_tick(secs(1));
    assert_eq!(timer.elasped().now(), 500);
    assert!(timer.elasped().now_period().eq_value(&Frac::new(5500, 5000)));

    timer.raw_tick(secs(1));
    assert_eq!(timer.elasped().now(), 1500);
    assert!(timer.elasped().now_period().eq_value(&Frac::new(1500, 5000)));

    timer.raw_tick(3500);
    assert_eq!(timer.elasped().now(), 0);
    assert!(timer.elasped().now_period().eq_value(&Frac::new(5000, 5000)));

    timer.raw_tick(secs(1));
    assert_eq!(timer.elasped().now(), secs(1));
    assert!(timer.elasped().now_period().eq_value(&Frac::new(1, 5)));
}

#[test]
fn timer_backward_wrap_around() {
    let mut timer = TimeRunner::new(secs(5));
    timer.set_repeat(Some((Repeat::infinitely(), RepeatStyle::WrapAround)));
    timer.set_direction(TimeDirection::Backward);

    timer.raw_tick(secs(1));
    assert_eq!(timer.elasped().now(), secs(4));
    assert!(timer.elasped().now_period().eq_value(&Frac::new(-1, 5)));

    timer.raw_tick(2500);
    assert_eq!(timer.elasped().now(), 1500);
    assert!(timer.elasped().now_period().eq_value(&Frac::new(1500, 5000)));

    timer.raw_tick(secs(1));
    assert_eq!(timer.elasped().now(), 500);
    assert!(timer.elasped().now_period().eq_value(&Frac::new(500, 5000)));

    timer.raw_tick(secs(1));
    assert_eq!(timer.elasped().now(), 4500);
    assert!(timer.elasped().now_period().eq_value(&Frac::new(-500, 5000)));
}

#[test]
fn timer_wrap_around_times() {
    let mut timer = TimeRunner::new(secs(5));
    timer.set_repeat(Some((Repeat::times(2), RepeatStyle::WrapAround)));

    timer.raw_tick(secs(4));
    assert_eq!(timer.elasped().now(), secs(4));
    assert!(timer.elasped().now_period().eq_value(&Frac::new(4, 5)));
    assert_eq!(
        timer.repeat().unwrap().0,
        Repeat::Times { times: 2, times_repeated: 0 },
    );

    timer.raw_tick(secs(4));
    assert_eq!(timer.elasped().now(), secs(3));
    assert!(timer.elasped().now_period().eq_value(&Frac::new(8, 5)));
    assert_eq!(
        timer.repeat().unwrap().0,
        Repeat::Times { times: 2, times_repeated: 1 },
    );

    timer.raw_tick(secs(4));
    assert_eq!(timer.elasped().now(), secs(2));
    assert!(timer.elasped().now_period().eq_value(&Frac::new(7, 5)));
    assert_eq!(
        timer.repeat().unwrap().0,
        Repeat::Times { times: 2, times_repeated: 2 },
    );

    timer.raw_tick(secs(4));
    assert_eq!(timer.elasped().now(), secs(5));
    assert!(timer.elasped().now_period().eq_value(&Frac::new(1, 1)));
    assert_eq!(
        timer.repeat().unwrap().0,
        Repeat::Times { times: 2, times_repeated: 2 },
    );

    timer.raw_tick(secs(1));
    assert_eq!(timer.elasped().now(), secs(5));
    assert!(timer.elasped().now_period().eq_value(&Frac::new(1, 1)));
    assert_eq!(
        timer.repeat().unwrap().0,
        Repeat::Times { times: 2, times_repeated: 2 },
    );
}

#[test]
fn timer_backward_wrap_around_times() {
    let mut timer = TimeRunner::new(secs(5));
    timer.set_repeat(Some((Repeat::times(2), RepeatStyle::WrapAround)));
    timer.set_direction(TimeDirection::Backward);

    timer.raw_tick(secs(4));
    assert_eq!(timer.elasped().now(), secs(1));
    assert!(timer.elasped().now_period().eq_value(&Frac::new(-4, 5)));
    assert_eq!(
        timer.repeat().unwrap().0,
        Repeat::Times { times: 2, times_repeated: 1 },
    );

    timer.raw_tick(secs(4));
    assert_eq!(timer.elasped().now(), secs(2));
    assert!(timer.elasped().now_period().eq_value(&Frac::new(-3, 5)));
    assert_eq!(
        timer.repeat().unwrap().0,
        Repeat::Times { times: 2, times_repeated: 2 },
    );

    timer.raw_tick(secs(4));
    assert_eq!(timer.elasped().now(), 0);
    assert!(timer.elasped().now_period().eq_value(&Frac::new(0, 5)));
    assert_eq!(
        timer.repeat().unwrap().0,
        Repeat::Times { times: 2, times_repeated: 2 },
    );
}

#[test]
fn timer_ping_pong() {
    let mut timer = TimeRunner::new(secs(5));
    timer.set_repeat(Some((Repeat::infinitely(), RepeatStyle::PingPong)));

    timer.raw_tick(secs(3));
    assert_eq!(timer.elasped().now(), secs(3));
    assert!(timer.elasped().now_period().eq_value(&Frac::new(3, 5)));
    assert_eq!(timer.direction(), TimeDirection::Forward);

    timer.raw_tick(secs(3));
    assert_eq!(timer.elasped().now(), secs(4));
    assert!(timer.elasped().now_period().eq_value(&Frac::new(6, 5)));
    assert_eq!(timer.direction(), TimeDirection::Backward);

    timer.raw_tick(secs(3));
    assert_eq!(timer.elasped().now(), secs(1));
    assert!(timer.elasped().now_period().eq_value(&Frac::new(1, 5)));
    assert_eq!(timer.direction(), TimeDirection::Backward);

    timer.raw_tick(secs(3));
    assert_eq!(timer.elasped().now(), secs(2));
    assert!(timer.elasped().now_period().eq_value(&Frac::new(-2, 5)));
    assert_eq!(timer.direction(), TimeDirection::Forward);

    timer.raw_tick(secs(3));
    assert_eq!(timer.elasped().now(), secs(5));
    assert!(timer.elasped().now_period().eq_value(&Frac::new(5, 5)));
    assert_eq!(timer.direction(), TimeDirection::Backward);

    timer.raw_tick(secs(3));
    assert_eq!(timer.elasped().now(), secs(2));
    assert!(timer.elasped().now_period().eq_value(&Frac::new(2, 5)));
    assert_eq!(timer.direction(), TimeDirection::Backward);
}

#[test]
fn tick_respects_paused() {
    let mut timer = TimeRunner::new(secs(5));
    timer.set_paused(true);
    timer.tick(secs(2));
    assert_eq!(timer.elasped().now(), 0);
    timer.set_paused(false);
    timer.tick(secs(2));
    assert_eq!(timer.elasped().now(), secs(2));
}

#[test]
fn tick_respects_completion() {
    let mut timer = TimeRunner::new(secs(5));
    timer.tick(secs(5));
    assert!(!timer.is_completed());
    timer.tick(secs(1));
    assert!(timer.is_completed());
    // Completion is monotonic: further ticks change nothing.
    timer.tick(secs(3));
    assert!(timer.is_completed());
    assert_eq!(timer.elasped().now(), secs(5));
    assert!(timer.elasped().now_period().eq_value(&Frac::new(1, 1)));
}

#[test]
fn tick_applies_time_scale() {
    let mut timer = TimeRunner::new(secs(5));
    timer.set_time_scale(TimeScale { num: 1, den: 2 });
    timer.tick(secs(2));
    assert_eq!(timer.elasped().now(), secs(1));
    assert_eq!(timer.time_scale(), TimeScale { num: 1, den: 2 });

    timer.set_time_scale(TimeScale { num: -1, den: 1 });
    timer.tick(secs(1));
    assert_eq!(timer.elasped().now(), 0);
}

#[test]
fn wrap_around_full_period_consumes_one_repeat() {
    let mut timer = TimeRunner::new(secs(5));
    timer.set_repeat(Some((Repeat::infinitely_counted(), RepeatStyle::WrapAround)));
    timer.raw_tick(secs(5));
    assert_eq!(timer.elasped().now(), 0);
    assert!(timer.elasped().now_period().eq_value(&Frac::new(1, 1)));
    assert_eq!(
        timer.repeat().unwrap().0,
        Repeat::InfinitelyCounted { times_repeated: 1 },
    );
}

#[test]
fn ping_pong_double_period_restores_direction() {
    let mut timer = TimeRunner::new(secs(5));
    timer.set_repeat(Some((Repeat::infinitely_counted(), RepeatStyle::PingPong)));
    timer.raw_tick(secs(10));
    assert_eq!(timer.elasped().now(), 0);
    assert_eq!(timer.direction(), TimeDirection::Forward);
    assert_eq!(
        timer.repeat().unwrap().0,
        Repeat::InfinitelyCounted { times_repeated: 2 },
    );
}

#[test]
fn times_repeat_exhausts_then_completes() {
    let n = 3;
    let mut timer = TimeRunner::new(secs(5));
    timer.set_repeat(Some((Repeat::times(n), RepeatStyle::WrapAround)));
    for i in 1..=n {
        timer.raw_tick(secs(5));
        assert_eq!(timer.elasped().now(), 0);
        assert_eq!(
            timer.repeat().unwrap().0,
            Repeat::Times { times: n, times_repeated: i },
        );
    }
    timer.raw_tick(secs(5));
    assert!(timer.is_completed());
}

#[test]
fn forward_then_backward_round_trip() {
    let mut timer = TimeRunner::new(secs(5));
    timer.set_tick(secs(1));
    timer.raw_tick(secs(3));
    assert_eq!(timer.elasped().now(), secs(4));
    timer.set_direction(TimeDirection::Backward);
    timer.raw_tick(secs(3));
    assert_eq!(timer.elasped().now(), secs(1));
}

#[test]
fn collapse_is_idempotent() {
    let mut timer = TimeRunner::new(secs(5));
    timer.raw_tick(secs(2));
    assert_eq!(timer.elasped().previous(), 0);
    timer.collaspe_elasped();
    let once = timer.elasped();
    timer.collaspe_elasped();
    let twice = timer.elasped();
    assert_eq!(once, twice);
    assert_eq!(once.previous(), secs(2));
    assert!(once.previous_period().eq_value(&Frac::new(2, 5)));
}

#[test]
fn set_tick_leaves_previous_untouched() {
    let mut timer = TimeRunner::new(secs(5));
    timer.raw_tick(secs(2));
    timer.set_tick(secs(4));
    assert_eq!(timer.elasped().now(), secs(4));
    assert!(timer.elasped().now_period().eq_value(&Frac::new(4, 5)));
    assert_eq!(timer.elasped().previous(), 0);
}

#[test]
fn repeat_counter_arithmetic() {
    let mut repeat = Repeat::times(2);
    assert!(!repeat.exhausted());
    assert_eq!(repeat.advance_counter_by(1), 1);
    assert_eq!(repeat.advance_counter_by(3), 1);
    assert!(repeat.exhausted());
    assert_eq!(repeat.advance_counter_by(1), 0);

    // A negative advance is capped at the remaining budget in magnitude.
    let mut fresh = Repeat::times(2);
    assert_eq!(fresh.advance_counter_by(-5), -2);
    assert_eq!(fresh, Repeat::Times { times: 2, times_repeated: -2 });

    let mut counted = Repeat::infinitely_counted();
    assert_eq!(counted.advance_counter_by(5), 5);
    assert_eq!(counted, Repeat::InfinitelyCounted { times_repeated: 5 });
    assert!(!counted.exhausted());

    let mut infinite = Repeat::infinitely();
    assert_eq!(infinite.advance_counter_by(7), 7);
    assert_eq!(infinite, Repeat::Infinitely);
    assert!(!infinite.exhausted());
}

#[test]
fn runner_setters_and_getters() {
    let mut timer = TimeRunner::new(secs(5));
    assert_eq!(timer.length(), secs(5));
    assert!(!timer.paused());
    assert_eq!(timer.direction(), TimeDirection::Forward);
    assert_eq!(timer.repeat(), None);

    timer.set_length(secs(7));
    assert_eq!(timer.length(), secs(7));
    timer.set_direction(TimeDirection::Backward);
    assert_eq!(timer.direction(), TimeDirection::Backward);
    timer.set_repeat(Some((Repeat::infinitely(), RepeatStyle::PingPong)));
    assert_eq!(
        timer.repeat(),
        Some((Repeat::Infinitely, RepeatStyle::PingPong)),
    );

    let default_timer = TimeRunner::default();
    assert_eq!(default_timer.length(), 0);
    assert_eq!(default_timer.time_scale(), TimeScale { num: 1, den: 1 });
}

#[test]
fn negative_delta_scrubs_backward() {
    let mut timer = TimeRunner::new(secs(5));
    timer.tick(secs(3));
    assert_eq!(timer.elasped().now(), secs(3));
    // A negative delta is numerically valid and moves a forward runner back.
    timer.tick(-secs(2));
    assert_eq!(timer.elasped().now(), secs(1));
    assert!(timer.elasped().now_period().eq_value(&Frac::new(1, 5)));
    timer.tick(-secs(2));
    assert_eq!(timer.elasped().now(), 0);
    assert!(timer.elasped().now_period().eq_value(&Frac::new(0, 1)));
}

#[test]
fn negative_delta_uncounts_a_wrap() {
    let mut timer = TimeRunner::new(secs(5));
    timer.set_repeat(Some((Repeat::times(2), RepeatStyle::WrapAround)));
    timer.raw_tick(secs(6));
    assert_eq!(timer.elasped().now(), secs(1));
    assert_eq!(
        timer.repeat().unwrap().0,
        Repeat::Times { times: 2, times_repeated: 1 },
    );
    // Scrubbing back across the boundary hands the counter a negative
    // advance.
    timer.raw_tick(-secs(2));
    assert_eq!(timer.elasped().now(), secs(4));
    assert!(timer.elasped().now_period().eq_value(&Frac::new(-1, 5)));
    assert_eq!(
        timer.repeat().unwrap().0,
        Repeat::Times { times: 2, times_repeated: 0 },
    );
}
