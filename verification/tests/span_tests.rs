//! Time spans, bounds, quotients, errors and fractions.

use time_runner::DurationQuotient;
use time_runner::Frac;
use time_runner::NewTimeSpanError;
use time_runner::Percentage;
use time_runner::TimeBound;
use time_runner::TimeDirection;
use time_runner::TimeSpan;
use time_runner::TimeSpanProgress;

#[test]
fn time_bound_duration() {
    assert_eq!(TimeBound::Inclusive(30).duration(), 30);
    assert_eq!(TimeBound::Exclusive(30).duration(), 30);
    assert_eq!(TimeBound::default(), TimeBound::Inclusive(0));
}

#[test]
fn span_rejects_empty_open_interval() {
    let r = TimeSpan::new(TimeBound::Exclusive(3), TimeBound::Exclusive(3));
    assert_eq!(
        r,
        Err(NewTimeSpanError::NotTime {
            min: TimeBound::Exclusive(3),
            max: TimeBound::Exclusive(3),
        }),
    );
    let msg = r.unwrap_err().message();
    assert_eq!(msg, "this span does not contain any time");
}

#[test]
fn span_rejects_min_greater_than_max() {
    let r = TimeSpan::new(TimeBound::Inclusive(5), TimeBound::Inclusive(3));
    assert_eq!(
        r,
        Err(NewTimeSpanError::MinGreaterThanMax {
            min: TimeBound::Inclusive(5),
            max: TimeBound::Inclusive(3),
        }),
    );
    let msg = r.unwrap_err().message();
    assert_eq!(msg, "this span has min greater than max");
}

#[test]
fn span_accepts_zero_length_closed() {
    let span = TimeSpan::new(TimeBound::Inclusive(2), TimeBound::Inclusive(2)).unwrap();
    assert_eq!(span.length(), 0);
    assert_eq!(span.quotient(2), DurationQuotient::Inside);
}

#[test]
fn span_constructors_pick_bound_tags() {
    let half_open = TimeSpan::range(1, 4).unwrap();
    assert_eq!(half_open.min(), TimeBound::Inclusive(1));
    assert_eq!(half_open.max(), TimeBound::Exclusive(4));
    assert_eq!(half_open.length(), 3);

    let closed = TimeSpan::range_inclusive(1, 4).unwrap();
    assert_eq!(closed.max(), TimeBound::Inclusive(4));

    let to = TimeSpan::range_to(4).unwrap();
    assert_eq!(to.min(), TimeBound::Inclusive(0));
    assert_eq!(to.max(), TimeBound::Exclusive(4));

    let to_closed = TimeSpan::range_to_inclusive(4).unwrap();
    assert_eq!(to_closed.max(), TimeBound::Inclusive(4));

    assert!(TimeSpan::range(4, 1).is_err());

    let empty = TimeSpan::default();
    assert_eq!(empty.min(), TimeBound::Inclusive(0));
    assert_eq!(empty.max(), TimeBound::Exclusive(0));
}

#[test]
fn quotient_follows_endpoint_tags() {
    // Inclusive endpoints admit the boundary sample; exclusive ones do not.
    let half_open = TimeSpan::range(10, 20).unwrap();
    assert_eq!(half_open.quotient(9), DurationQuotient::Before);
    assert_eq!(half_open.quotient(10), DurationQuotient::Inside);
    assert_eq!(half_open.quotient(15), DurationQuotient::Inside);
    assert_eq!(half_open.quotient(20), DurationQuotient::After);

    let closed = TimeSpan::range_inclusive(10, 20).unwrap();
    assert_eq!(closed.quotient(20), DurationQuotient::Inside);
    assert_eq!(closed.quotient(21), DurationQuotient::After);

    let open_min = TimeSpan::new(TimeBound::Exclusive(10), TimeBound::Inclusive(20)).unwrap();
    assert_eq!(open_min.quotient(10), DurationQuotient::Before);
    assert_eq!(open_min.quotient(11), DurationQuotient::Inside);
}

#[test]
fn frac_value_comparisons() {
    assert!(Frac::new(1, 2).eq_value(&Frac::new(2, 4)));
    assert!(Frac::new(5, 5).eq_value(&Frac::new(1, 1)));
    assert!(!Frac::new(1, 2).eq_value(&Frac::new(2, 3)));
    assert!(Frac::new(-1, 5).eq_value(&Frac::new(-2, 10)));

    assert!(Frac::new(7, 5).ge_one());
    assert!(Frac::new(5, 5).ge_one());
    assert!(!Frac::new(4, 5).ge_one());

    assert!(Frac::new(0, 5).le_zero());
    assert!(Frac::new(-1, 5).le_zero());
    assert!(!Frac::new(1, 5).le_zero());

    assert_eq!(Frac::new(7, 5).floor(), 1);
    assert_eq!(Frac::new(-1, 5).floor(), -1);
    assert_eq!(Frac::new(4, 5).floor(), 0);
    assert_eq!(Frac::new(10, 5).floor(), 2);
}

#[test]
fn percentage_value_comparisons() {
    assert!(Percentage::Finite(Frac::new(1, 2)).same_value(&Percentage::Finite(Frac::new(3, 6))));
    assert!(Percentage::PosInfinity.same_value(&Percentage::PosInfinity));
    assert!(!Percentage::PosInfinity.same_value(&Percentage::NegInfinity));
    assert!(!Percentage::Finite(Frac::new(1, 1)).same_value(&Percentage::PosInfinity));
}

#[test]
fn progress_direction_compares_now_to_previous() {
    let zero = Percentage::Finite(Frac::new(0, 1));
    let mut progress = TimeSpanProgress {
        now_percentage: zero,
        now: 5,
        previous_percentage: zero,
        previous: 3,
    };
    assert_eq!(progress.direction(), Some(TimeDirection::Forward));

    progress.previous = 8;
    assert_eq!(progress.direction(), Some(TimeDirection::Backward));

    progress.previous = 5;
    assert_eq!(progress.direction(), None);
}

#[test]
fn progress_update_shifts_fields() {
    let zero = Percentage::Finite(Frac::new(0, 1));
    let half = Percentage::Finite(Frac::new(1, 2));
    let mut progress = TimeSpanProgress {
        now_percentage: zero,
        now: 3,
        previous_percentage: zero,
        previous: 1,
    };
    progress.update(7, half);
    assert_eq!(progress.now, 7);
    assert_eq!(progress.now_percentage, half);
    assert_eq!(progress.previous, 3);
    assert_eq!(progress.previous_percentage, zero);
}
