//! Time spans: bounded intervals of a runner's timeline with inclusive or
//! exclusive endpoints, the three-way classification of a time sample
//! against a span, and the progress record that the dispatch pass publishes
//! on a span.

use vstd::prelude::*;

use crate::frac::Frac;
use crate::frac::TIME_MAX;

verus! {

/// An interval endpoint: a time value checked inclusively or exclusively.
///
/// Times are integer time units and, standing for durations, are never
/// negative.
#[derive(Debug, Clone, Copy, PartialEq, Eq, Structural)]
pub enum TimeBound {
    /// The endpoint itself belongs to the span.
    Inclusive(i64),
    /// The endpoint itself lies outside the span.
    Exclusive(i64),
}

impl TimeBound {
    /// The endpoint's time value, whatever its tag.
    pub open spec fn spec_duration(self) -> i64 {
        match self {
            TimeBound::Inclusive(d) => d,
            TimeBound::Exclusive(d) => d,
        }
    }

    /// A bound stands for a duration: a time value in `[0, TIME_MAX]`.
    pub open spec fn wf(self) -> bool {
        0 <= self.spec_duration() <= TIME_MAX
    }

    /// Get the inner time value.
    pub fn duration(&self) -> (d: i64)
        ensures
            d == self.spec_duration(),
    {
        match self {
            TimeBound::Inclusive(d) => *d,
            TimeBound::Exclusive(d) => *d,
        }
    }
}

impl Default for TimeBound {
    /// The zero endpoint, included.
    fn default() -> (r: TimeBound)
        ensures
            r == TimeBound::Inclusive(0i64),
    {
        TimeBound::Inclusive(0)
    }
}

/// Why a [`TimeSpan`] could not be made.
#[derive(Debug, Clone, Copy, PartialEq, Eq, Structural)]
pub enum NewTimeSpanError {
    /// The provided min and max would make a span that does not appear on a
    /// timeline: both ends exclusive and equal.
    NotTime {
        /// The rejected lower endpoint.
        min: TimeBound,
        /// The rejected upper endpoint.
        max: TimeBound,
    },
    /// The provided min is greater than max.
    MinGreaterThanMax {
        /// The rejected lower endpoint.
        min: TimeBound,
        /// The rejected upper endpoint.
        max: TimeBound,
    },
}

impl NewTimeSpanError {
    /// A short description of the error.
    pub fn message(&self) -> (m: &'static str)
        ensures
            self is NotTime ==> m@ == "this span does not contain any time"@,
            self is MinGreaterThanMax ==> m@ == "this span has min greater than max"@,
    {
        proof {
            reveal_strlit("this span does not contain any time");
            reveal_strlit("this span has min greater than max");
        }
        match self {
            NewTimeSpanError::NotTime { .. } => "this span does not contain any time",
            NewTimeSpanError::MinGreaterThanMax { .. } => "this span has min greater than max",
        }
    }
}

/// Where a time sample stands relative to a span.
#[derive(Debug, Clone, Copy, PartialEq, Eq, Structural)]
pub enum DurationQuotient {
    /// Ahead of the span's lower endpoint.
    Before,
    /// Within the span.
    Inside,
    /// Past the span's upper endpoint.
    After,
}

/// Direction in which a runner's cursor moves along its timeline.
#[derive(Debug, Default, Clone, Copy, PartialEq, Eq, Structural)]
pub enum TimeDirection {
    /// Time goes up.
    #[default]
    Forward,
    /// Time goes down.
    Backward,
}

/// The range of time that one child of a runner covers.
///
/// The fields are public so that contracts can speak of them directly;
/// [`TimeSpan::wf`] is the validity that the checked constructors
/// establish and every reader requires, so code that writes the fields
/// itself must keep it.
#[derive(Debug, Clone, Copy, PartialEq, Eq, Structural)]
pub struct TimeSpan {
    /// Minimum time of this time span.
    pub min: TimeBound,
    /// Maximum time of this time span.
    pub max: TimeBound,
}

impl TimeSpan {
    /// The lower endpoint.
    pub open spec fn spec_min(self) -> TimeBound {
        self.min
    }

    /// The upper endpoint.
    pub open spec fn spec_max(self) -> TimeBound {
        self.max
    }

    /// A span's validity: both bounds are durations, `min <= max`, and a
    /// zero-width all-exclusive span is ruled out.
    pub open spec fn wf(self) -> bool {
        &&& self.min.wf()
        &&& self.max.wf()
        &&& self.min.spec_duration() <= self.max.spec_duration()
        &&& !((self.min is Exclusive) && (self.max is Exclusive)
            && self.min.spec_duration() == self.max.spec_duration())
    }

    /// Whether the sample passes the lower endpoint's inclusion test.
    pub open spec fn spec_after_min(self, secs: i64) -> bool {
        match self.min {
            TimeBound::Inclusive(m) => secs >= m,
            TimeBound::Exclusive(m) => secs > m,
        }
    }

    /// Whether the sample passes the upper endpoint's inclusion test.
    pub open spec fn spec_before_max(self, secs: i64) -> bool {
        match self.max {
            TimeBound::Inclusive(m) => secs <= m,
            TimeBound::Exclusive(m) => secs < m,
        }
    }

    /// The classification that [`TimeSpan::quotient`] returns: decided
    /// entirely by the two endpoint inclusion tests.
    pub open spec fn spec_quotient(self, secs: i64) -> DurationQuotient {
        if self.spec_after_min(secs) && self.spec_before_max(secs) {
            DurationQuotient::Inside
        } else if !self.spec_after_min(secs) {
            DurationQuotient::Before
        } else {
            DurationQuotient::After
        }
    }

    /// Create a new span, checking the endpoints.
    ///
    /// Fails with `NotTime` when both ends are exclusive and equal, and
    /// with `MinGreaterThanMax` when `min`'s time value is above `max`'s.
    pub fn new(min: TimeBound, max: TimeBound) -> (r: Result<TimeSpan, NewTimeSpanError>)
        requires
            min.wf(),
            max.wf(),
        ensures
            ((min is Exclusive) && (max is Exclusive)
                && min.spec_duration() == max.spec_duration())
                ==> r == Result::<TimeSpan, NewTimeSpanError>::Err(
                    NewTimeSpanError::NotTime { min, max },
                ),
            (!((min is Exclusive) && (max is Exclusive)
                && min.spec_duration() == max.spec_duration())
                && min.spec_duration() > max.spec_duration())
                ==> r == Result::<TimeSpan, NewTimeSpanError>::Err(
                    NewTimeSpanError::MinGreaterThanMax { min, max },
                ),
            (min.spec_duration() <= max.spec_duration()
                && !((min is Exclusive) && (max is Exclusive)
                    && min.spec_duration() == max.spec_duration()))
                <==> (r matches Ok(span) && span.spec_min() == min && span.spec_max() == max),
            r matches Ok(span) ==> span.wf(),
    {
        let both_exclusive = matches!(min, TimeBound::Exclusive(_))
            && matches!(max, TimeBound::Exclusive(_));
        if both_exclusive && min.duration() == max.duration() {
            Err(NewTimeSpanError::NotTime { min, max })
        } else if min.duration() > max.duration() {
            Err(NewTimeSpanError::MinGreaterThanMax { min, max })
        } else {
            Ok(TimeSpan { min, max })
        }
    }

    /// The span `[start, end)`.
    pub fn range(start: i64, end: i64) -> (r: Result<TimeSpan, NewTimeSpanError>)
        requires
            0 <= start <= TIME_MAX,
            0 <= end <= TIME_MAX,
        ensures
            start <= end <==> (r matches Ok(span)
                && span.spec_min() == TimeBound::Inclusive(start)
                && span.spec_max() == TimeBound::Exclusive(end)),
            start > end ==> r == Result::<TimeSpan, NewTimeSpanError>::Err(
                NewTimeSpanError::MinGreaterThanMax {
                    min: TimeBound::Inclusive(start),
                    max: TimeBound::Exclusive(end),
                },
            ),
            r matches Ok(span) ==> span.wf(),
    {
        TimeSpan::new(TimeBound::Inclusive(start), TimeBound::Exclusive(end))
    }

    /// The span `[start, end]`.
    pub fn range_inclusive(start: i64, end: i64) -> (r: Result<TimeSpan, NewTimeSpanError>)
        requires
            0 <= start <= TIME_MAX,
            0 <= end <= TIME_MAX,
        ensures
            start <= end <==> (r matches Ok(span)
                && span.spec_min() == TimeBound::Inclusive(start)
                && span.spec_max() == TimeBound::Inclusive(end)),
            start > end ==> r == Result::<TimeSpan, NewTimeSpanError>::Err(
                NewTimeSpanError::MinGreaterThanMax {
                    min: TimeBound::Inclusive(start),
                    max: TimeBound::Inclusive(end),
                },
            ),
            r matches Ok(span) ==> span.wf(),
    {
        TimeSpan::new(TimeBound::Inclusive(start), TimeBound::Inclusive(end))
    }

    /// The span `[0, end)`.
    pub fn range_to(end: i64) -> (r: Result<TimeSpan, NewTimeSpanError>)
        requires
            0 <= end <= TIME_MAX,
        ensures
            r matches Ok(span)
                && span.spec_min() == TimeBound::Inclusive(0i64)
                && span.spec_max() == TimeBound::Exclusive(end),
            r matches Ok(span) ==> span.wf(),
    {
        TimeSpan::new(TimeBound::Inclusive(0), TimeBound::Exclusive(end))
    }

    /// The span `[0, end]`.
    pub fn range_to_inclusive(end: i64) -> (r: Result<TimeSpan, NewTimeSpanError>)
        requires
            0 <= end <= TIME_MAX,
        ensures
            r matches Ok(span)
                && span.spec_min() == TimeBound::Inclusive(0i64)
                && span.spec_max() == TimeBound::Inclusive(end),
            r matches Ok(span) ==> span.wf(),
    {
        TimeSpan::new(TimeBound::Inclusive(0), TimeBound::Inclusive(end))
    }

    /// Classify a time sample against this span; inclusion at each end is
    /// decided by that endpoint's tag.
    pub fn quotient(&self, secs: i64) -> (q: DurationQuotient)
        requires
            self.wf(),
        ensures
            q == self.spec_quotient(secs),
            (q is Inside) <==> (self.spec_after_min(secs) && self.spec_before_max(secs)),
            (q is Before) <==> !self.spec_after_min(secs),
            (q is After) <==> !self.spec_before_max(secs),
    {
        let after_min = match self.min {
            TimeBound::Inclusive(m) => secs >= m,
            TimeBound::Exclusive(m) => secs > m,
        };
        let before_max = match self.max {
            TimeBound::Inclusive(m) => secs <= m,
            TimeBound::Exclusive(m) => secs < m,
        };
        if after_min && before_max {
            DurationQuotient::Inside
        } else if !after_min {
            DurationQuotient::Before
        } else {
            DurationQuotient::After
        }
    }

    /// Get the min bound.
    pub fn min(&self) -> (r: TimeBound)
        ensures
            r == self.spec_min(),
    {
        self.min
    }

    /// Get the max bound.
    pub fn max(&self) -> (r: TimeBound)
        ensures
            r == self.spec_max(),
    {
        self.max
    }

    /// The span's extent: `max.duration() - min.duration()`.
    pub open spec fn spec_length(self) -> int {
        self.max.spec_duration() - self.min.spec_duration()
    }

    /// `max.duration() - min.duration()`.
    pub fn length(&self) -> (r: i64)
        requires
            self.wf(),
        ensures
            r == self.spec_length(),
    {
        self.max.duration() - self.min.duration()
    }
}

impl Default for TimeSpan {
    /// The empty span `[0, 0)`.
    fn default() -> (r: TimeSpan)
        ensures
            r.spec_min() == TimeBound::Inclusive(0i64),
            r.spec_max() == TimeBound::Exclusive(0i64),
            r.wf(),
    {
        TimeSpan { min: TimeBound::Inclusive(0), max: TimeBound::Exclusive(0) }
    }
}

/// A percentage published on a span: the exact ratio `value / span_length`,
/// or a signed infinity when the span has zero length.
#[derive(Debug, Clone, Copy, PartialEq, Eq, Structural)]
pub enum Percentage {
    /// `value / span_length` with a positive `span_length`.
    Finite(Frac),
    /// The zero-length-span marker for a value reached from below.
    PosInfinity,
    /// The zero-length-span marker for a value reached from above.
    NegInfinity,
}

impl Percentage {
    /// Percentages compare by value: finite ones as fractions, infinities
    /// by their sign.
    pub open spec fn spec_same_value(self, other: Percentage) -> bool {
        match (self, other) {
            (Percentage::Finite(a), Percentage::Finite(b)) => a.same_value(b),
            (Percentage::PosInfinity, Percentage::PosInfinity) => true,
            (Percentage::NegInfinity, Percentage::NegInfinity) => true,
            _ => false,
        }
    }

    /// Well-formed when any finite fraction in it is well-formed.
    pub open spec fn wf(self) -> bool {
        self matches Percentage::Finite(f) ==> f.wf()
    }

    /// Exact comparison by value.
    pub fn same_value(&self, other: &Percentage) -> (r: bool)
        requires
            self.wf(),
            other.wf(),
        ensures
            r == self.spec_same_value(*other),
    {
        match (self, other) {
            (Percentage::Finite(a), Percentage::Finite(b)) => a.eq_value(b),
            (Percentage::PosInfinity, Percentage::PosInfinity) => true,
            (Percentage::NegInfinity, Percentage::NegInfinity) => true,
            _ => false,
        }
    }
}

/// The progress a runner publishes on one of its spans while the cursor
/// window it traversed touches the span. Managed by the dispatch pass.
#[derive(Debug, Clone, Copy, PartialEq, Eq, Structural)]
pub struct TimeSpanProgress {
    /// Progress through the span, as the exact ratio of `now` to the span's
    /// length; past either end the ratio leaves `[0, 1]`, and on a
    /// zero-length span it is a signed infinity.
    pub now_percentage: Percentage,
    /// Now in time units, relative to the span's min.
    pub now: i64,
    /// The previous tick's percentage.
    pub previous_percentage: Percentage,
    /// Previous in time units, relative to the span's min.
    pub previous: i64,
}

impl TimeSpanProgress {
    /// Both pairs of fields are well-formed fractions.
    pub open spec fn wf(self) -> bool {
        self.now_percentage.wf() && self.previous_percentage.wf()
    }

    /// The state after [`TimeSpanProgress::update`]: the old `now` pair is
    /// shifted into the `previous` pair and the new pair written.
    pub open spec fn spec_update(self, now: i64, now_percentage: Percentage) -> TimeSpanProgress {
        TimeSpanProgress {
            now_percentage,
            now,
            previous_percentage: self.now_percentage,
            previous: self.now,
        }
    }

    /// Direction of the progress: which way `now` moved relative to
    /// `previous`, or `None` when it did not move.
    pub fn direction(&self) -> (r: Option<TimeDirection>)
        ensures
            self.now > self.previous ==> r == Some(TimeDirection::Forward),
            self.now < self.previous ==> r == Some(TimeDirection::Backward),
            self.now == self.previous ==> r is None,
    {
        if self.now > self.previous {
            Some(TimeDirection::Forward)
        } else if self.now < self.previous {
            Some(TimeDirection::Backward)
        } else {
            None
        }
    }

    /// Shift `now` into `previous` and write the new `now` pair.
    pub fn update(&mut self, now: i64, now_percentage: Percentage)
        ensures
            *final(self) == old(self).spec_update(now, now_percentage),
    {
        self.previous_percentage = self.now_percentage;
        self.previous = self.now;
        self.now_percentage = now_percentage;
        self.now = now;
    }
}

impl Default for TimeSpanProgress {
    /// All fields zero, with exact zero percentages.
    fn default() -> (r: TimeSpanProgress)
        ensures
            r.now == 0 && r.previous == 0,
            r.now_percentage == Percentage::Finite(Frac { num: 0, den: 1 }),
            r.previous_percentage == Percentage::Finite(Frac { num: 0, den: 1 }),
    {
        TimeSpanProgress {
            now_percentage: Percentage::Finite(Frac { num: 0, den: 1 }),
            now: 0,
            previous_percentage: Percentage::Finite(Frac { num: 0, den: 1 }),
            previous: 0,
        }
    }
}

} // verus!
