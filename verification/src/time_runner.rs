//! The time runner: a stateful timer that advances an elapsed cursor by a
//! signed delta, normalizes wrap-around and ping-pong repetition, and
//! reports completion.
//!
//! All times are integer time units. The period coordinate (position divided
//! by timer length) is kept as an exact fraction, so it can leave `[0, 1]`
//! to record that a tick crossed period boundaries.

use vstd::prelude::*;

use crate::frac::Frac;
use crate::frac::TIME_MAX;
use crate::frac::lemma_floor_in_range;
use crate::time_span::TimeDirection;

verus! {

/// The elapsed cursor per tick: the clamped positions of this and the
/// previous dispatch window, with their unclamped period coordinates.
#[derive(Debug, Clone, Copy, PartialEq)]
pub struct TimeRunnerElasped {
    /// The current elasped time units. Always within the timer's length
    /// after a tick.
    pub now: i64,
    /// The unclamped period coordinate of `now`: position over length. May
    /// go under 0 or over 1 to record looping or repeating.
    pub now_period: Frac,
    /// The previous elasped time units.
    pub previous: i64,
    /// The period coordinate of `previous`.
    pub previous_period: Frac,
}

impl TimeRunnerElasped {
    /// Positions bounded and period fractions well-formed.
    pub open spec fn wf(self) -> bool {
        &&& -(TIME_MAX as int) <= self.now <= TIME_MAX
        &&& -(TIME_MAX as int) <= self.previous <= TIME_MAX
        &&& self.now_period.wf()
        &&& self.previous_period.wf()
    }

    /// The cursor after one advance: the old `now` pair shifts into the
    /// `previous` pair and the new pair is written.
    pub open spec fn spec_update(self, now: i64, now_period: Frac) -> TimeRunnerElasped {
        TimeRunnerElasped {
            previous: self.now,
            previous_period: self.now_period,
            now,
            now_period,
        }
    }

    fn update(&mut self, now: i64, now_period: Frac)
        ensures
            *final(self) == old(self).spec_update(now, now_period),
    {
        self.previous = self.now;
        self.previous_period = self.now_period;
        self.now = now;
        self.now_period = now_period;
    }

    /// The current elasped time units. Always within the timer's length
    /// after a tick.
    pub fn now(&self) -> (r: i64)
        ensures
            r == self.now,
    {
        self.now
    }

    /// The period coordinate of `now`.
    pub fn now_period(&self) -> (r: Frac)
        ensures
            r == self.now_period,
    {
        self.now_period
    }

    /// The previous elasped time units.
    pub fn previous(&self) -> (r: i64)
        ensures
            r == self.previous,
    {
        self.previous
    }

    /// The period coordinate of `previous`.
    pub fn previous_period(&self) -> (r: Frac)
        ensures
            r == self.previous_period,
    {
        self.previous_period
    }
}

impl Default for TimeRunnerElasped {
    /// A zeroed cursor, with exact zero period coordinates.
    fn default() -> (r: TimeRunnerElasped)
        ensures
            r == TimeRunnerElasped::spec_default(),
    {
        TimeRunnerElasped {
            now: 0,
            now_period: Frac { num: 0, den: 1 },
            previous: 0,
            previous_period: Frac { num: 0, den: 1 },
        }
    }
}

impl TimeRunnerElasped {
    /// The zeroed cursor that [`Default::default`] returns.
    pub open spec fn spec_default() -> TimeRunnerElasped {
        TimeRunnerElasped {
            now: 0,
            now_period: Frac { num: 0, den: 1 },
            previous: 0,
            previous_period: Frac { num: 0, den: 1 },
        }
    }
}

/// Timer repeat configuration.
#[derive(Debug, Clone, Copy, PartialEq, Eq, Structural)]
pub enum Repeat {
    /// Repeat infinitely.
    Infinitely,
    /// Repeat infinitely and count the times this timer has repeated.
    InfinitelyCounted {
        /// The times this timer has repeated.
        times_repeated: i32,
    },
    /// Repeat for this amount of times.
    Times {
        /// Times to repeat for.
        times: i32,
        /// Times this timer has repeated.
        times_repeated: i32,
    },
}

impl Repeat {
    /// Repeat infinitely.
    pub fn infinitely() -> (r: Repeat)
        ensures
            r == Repeat::Infinitely,
    {
        Repeat::Infinitely
    }

    /// Repeat infinitely and count the times this timer has repeated.
    pub fn infinitely_counted() -> (r: Repeat)
        ensures
            r == (Repeat::InfinitelyCounted { times_repeated: 0i32 }),
    {
        Repeat::InfinitelyCounted { times_repeated: 0 }
    }

    /// Repeat for this amount of times.
    pub fn times(times: i32) -> (r: Repeat)
        ensures
            r == (Repeat::Times { times, times_repeated: 0i32 }),
    {
        Repeat::Times { times, times_repeated: 0 }
    }

    /// All configured repeats have been consumed. Infinite repeats are
    /// never exhausted.
    pub open spec fn spec_exhausted(self) -> bool {
        match self {
            Repeat::Infinitely => false,
            Repeat::InfinitelyCounted { .. } => false,
            Repeat::Times { times, times_repeated } => times_repeated >= times,
        }
    }

    /// Returns if all repeat has been exhausted.
    pub fn exhausted(&self) -> (r: bool)
        ensures
            r == self.spec_exhausted(),
    {
        match self {
            Repeat::Infinitely => false,
            Repeat::InfinitelyCounted { .. } => false,
            Repeat::Times { times, times_repeated } => *times_repeated >= *times,
        }
    }

    /// The `i32` arithmetic of [`Repeat::advance_counter_by`] stays in
    /// range for this advance.
    pub open spec fn spec_advance_fits(self, by: int) -> bool {
        match self {
            Repeat::Infinitely => true,
            Repeat::InfinitelyCounted { times_repeated } =>
                i32::MIN <= times_repeated + by <= i32::MAX,
            Repeat::Times { times, times_repeated } => {
                &&& i32::MIN <= times - times_repeated <= i32::MAX
                &&& (by < 0 && times - times_repeated != 0
                    ==> times - times_repeated != i32::MIN)
                &&& i32::MIN <= times_repeated + self.spec_advance_result(by) <= i32::MAX
            },
        }
    }

    /// How many repeats an advance by `by` actually consumes: all of them
    /// for infinite repeats, and for a counted repeat at most the remaining
    /// budget in magnitude, keeping `by`'s sign.
    pub open spec fn spec_advance_result(self, by: int) -> int {
        match self {
            Repeat::Infinitely => by,
            Repeat::InfinitelyCounted { .. } => by,
            Repeat::Times { times, times_repeated } => {
                let times_left = times - times_repeated;
                if times_left == 0 {
                    0
                } else if 0 <= by {
                    if by < times_left {
                        by
                    } else {
                        times_left
                    }
                } else {
                    if by > -times_left {
                        by
                    } else {
                        -times_left
                    }
                }
            },
        }
    }

    /// The repeat state after an advance by `by`: the consumed amount is
    /// added to the counter, where there is one.
    pub open spec fn spec_advance_state(self, by: int) -> Repeat {
        match self {
            Repeat::Infinitely => self,
            Repeat::InfinitelyCounted { times_repeated } =>
                Repeat::InfinitelyCounted { times_repeated: (times_repeated + by) as i32 },
            Repeat::Times { times, times_repeated } =>
                Repeat::Times {
                    times,
                    times_repeated: (times_repeated + self.spec_advance_result(by)) as i32,
                },
        }
    }

    /// Advance the repeat counter by `by` and return the amount actually
    /// consumed: 0 when a counted repeat is exhausted, and never more than
    /// the remaining budget in magnitude.
    pub fn advance_counter_by(&mut self, by: i32) -> (r: i32)
        requires
            old(self).spec_advance_fits(by as int),
        ensures
            r == old(self).spec_advance_result(by as int),
            *final(self) == old(self).spec_advance_state(by as int),
    {
        match self {
            Repeat::Infinitely => by,
            Repeat::InfinitelyCounted { times_repeated } => {
                *times_repeated += by;
                by
            },
            Repeat::Times { times, times_repeated } => {
                let times_left = *times - *times_repeated;
                if times_left == 0 {
                    return 0;
                }
                let times_to_advance = if 0 <= by {
                    if by < times_left {
                        by
                    } else {
                        times_left
                    }
                } else {
                    let cap = -times_left;
                    if by > cap {
                        by
                    } else {
                        cap
                    }
                };
                *times_repeated += times_to_advance;
                times_to_advance
            },
        }
    }
}

/// Time runner repeat behavior.
#[derive(Debug, Default, Clone, Copy, PartialEq, Eq, Structural)]
pub enum RepeatStyle {
    /// Timer will wrap around (saw-tooth).
    #[default]
    WrapAround,
    /// Timer will flip its direction (triangle).
    PingPong,
}

/// The timer's time scale, as an exact ratio. A tick by `secs` advances the
/// cursor by `secs * num / den`, rounded toward minus infinity.
#[derive(Debug, Clone, Copy, PartialEq, Eq, Structural)]
pub struct TimeScale {
    /// Scale numerator; negative values run the timer against its
    /// direction.
    pub num: i64,
    /// Scale denominator; positive.
    pub den: i64,
}

impl TimeScale {
    /// Bounds under which scaling stays exact `i128` arithmetic.
    pub open spec fn wf(self) -> bool {
        &&& 1 <= self.den <= TIME_MAX
        &&& -(TIME_MAX as int) <= self.num <= TIME_MAX
    }

    /// The scaled delta: `secs * num / den`, rounded toward minus infinity.
    pub open spec fn spec_apply(self, secs: int) -> int {
        (secs * self.num) / (self.den as int)
    }

    /// Scale a delta.
    pub fn apply(&self, secs: i64) -> (r: i64)
        requires
            self.wf(),
            -(TIME_MAX as int) <= secs <= TIME_MAX,
            -(TIME_MAX as int) <= self.spec_apply(secs as int) <= TIME_MAX,
        ensures
            r == self.spec_apply(secs as int),
    {
        proof {
            lemma_scale_product_in_range(secs as int, self.num as int);
        }
        let prod: i128 = (secs as i128) * (self.num as i128);
        let q: i128 = prod.checked_div_euclid(self.den as i128).unwrap();
        q as i64
    }
}

impl Default for TimeScale {
    /// The identity scale.
    fn default() -> (r: TimeScale)
        ensures
            r == (TimeScale { num: 1i64, den: 1i64 }),
    {
        TimeScale { num: 1, den: 1 }
    }
}

/// A product of two time values fits in `i128`.
proof fn lemma_scale_product_in_range(a: int, b: int)
    requires
        -(TIME_MAX as int) <= a <= TIME_MAX,
        -(TIME_MAX as int) <= b <= TIME_MAX,
    ensures
        -i128::MAX <= a * b <= i128::MAX,
{
    assert(-i128::MAX <= a * b <= i128::MAX) by (nonlinear_arith)
        requires
            -(TIME_MAX as int) <= a <= TIME_MAX,
            -(TIME_MAX as int) <= b <= TIME_MAX,
    ;
}

/// The Euclidean quotient of a bounded product by a positive denominator
/// stays within `i128`.
proof fn lemma_scaled_quotient_in_range(prod: int, den: int)
    requires
        1 <= den,
        -i128::MAX <= prod <= i128::MAX,
    ensures
        -i128::MAX <= prod / den <= i128::MAX,
{
    vstd::arithmetic::div_mod::lemma_fundamental_div_mod(prod, den);
    vstd::arithmetic::div_mod::lemma_mod_bound(prod, den);
    let q = prod / den;
    let r = prod % den;
    assert(-i128::MAX <= q <= i128::MAX) by (nonlinear_arith)
        requires
            prod == den * q + r,
            0 <= r < den,
            1 <= den,
            -i128::MAX <= prod <= i128::MAX,
    ;
}

/// Saw-tooth wave: the Euclidean remainder of `x` by `period`, in
/// `[0, period)`.
pub open spec fn spec_saw_wave(x: int, period: int) -> int {
    x % period
}

/// Triangle wave: reflects `x` back and forth between 0 and `period`.
pub open spec fn spec_triangle_wave(x: int, period: int) -> int {
    let folded = (x + period) % (2 * period) - period;
    if folded < 0 {
        -folded
    } else {
        folded
    }
}

/// Direction of a forward-running triangle wave after `repeats` period
/// crossings: restored on even parity.
pub open spec fn spec_triangle_wave_direction(repeats: int) -> TimeDirection {
    if repeats % 2 == 0 {
        TimeDirection::Forward
    } else {
        TimeDirection::Backward
    }
}

/// Direction of a backward-running triangle wave after `repeats` period
/// crossings.
pub open spec fn spec_backward_triangle_wave_direction(repeats: int) -> TimeDirection {
    if repeats % 2 == 0 {
        TimeDirection::Backward
    } else {
        TimeDirection::Forward
    }
}

fn saw_wave(x: i64, period: i64) -> (r: i64)
    requires
        1 <= period <= TIME_MAX,
        -2 * (TIME_MAX as int) <= x <= 2 * (TIME_MAX as int),
    ensures
        r == spec_saw_wave(x as int, period as int),
        0 <= r < period,
{
    proof {
        vstd::arithmetic::div_mod::lemma_mod_bound(x as int, period as int);
    }
    x.checked_rem_euclid(period).unwrap()
}

fn triangle_wave(x: i64, period: i64) -> (r: i64)
    requires
        1 <= period <= TIME_MAX,
        -2 * (TIME_MAX as int) <= x <= 2 * (TIME_MAX as int),
    ensures
        r == spec_triangle_wave(x as int, period as int),
        0 <= r <= period,
{
    let shifted = x + period;
    proof {
        vstd::arithmetic::div_mod::lemma_mod_bound(shifted as int, 2 * period as int);
    }
    let wrapped = shifted.checked_rem_euclid(2 * period).unwrap();
    let folded = wrapped - period;
    if folded < 0 {
        -folded
    } else {
        folded
    }
}

fn triangle_wave_direction(repeats: i32) -> (r: TimeDirection)
    ensures
        r == spec_triangle_wave_direction(repeats as int),
{
    proof {
        vstd::arithmetic::div_mod::lemma_mod_bound(repeats as int, 2);
    }
    if repeats.checked_rem_euclid(2).unwrap() == 0 {
        TimeDirection::Forward
    } else {
        TimeDirection::Backward
    }
}

fn backward_triangle_wave_direction(repeats: i32) -> (r: TimeDirection)
    ensures
        r == spec_backward_triangle_wave_direction(repeats as int),
{
    proof {
        vstd::arithmetic::div_mod::lemma_mod_bound(repeats as int, 2);
    }
    if repeats.checked_rem_euclid(2).unwrap() == 0 {
        TimeDirection::Backward
    } else {
        TimeDirection::Forward
    }
}

/// Saturate a period count into the `i32` range of the repeat counter.
pub open spec fn spec_clamp_i32(x: int) -> int {
    if x > i32::MAX {
        i32::MAX as int
    } else if x < i32::MIN {
        i32::MIN as int
    } else {
        x
    }
}

/// Advanced timer.
///
/// The fields are public so that contracts can speak of them directly;
/// [`TimeRunner::wf`] is the validity that [`TimeRunner::new`] and the
/// setters establish and every operation requires, so code that writes
/// the fields itself must keep it.
#[derive(Debug, Clone, Copy, PartialEq)]
pub struct TimeRunner {
    /// A paused timer ignores [`TimeRunner::tick`].
    pub paused: bool,
    /// The current elasped time with the previous dispatch window.
    pub elasped: TimeRunnerElasped,
    /// Maximum amount of time units; one period of the timer.
    pub length: i64,
    /// Ticking direction of the current timer.
    pub direction: TimeDirection,
    /// Time scale for ticking.
    pub time_scale: TimeScale,
    /// Repeat configuration.
    pub repeat: Option<(Repeat, RepeatStyle)>,
}

impl TimeRunner {
    /// The runner's validity: the length is a duration and the cursor and
    /// scale are bounded so that every tick stays exact.
    pub open spec fn wf(self) -> bool {
        &&& 0 <= self.length <= TIME_MAX
        &&& self.elasped.wf()
        &&& self.time_scale.wf()
    }

    /// Create a new runner with this length: forward, unit scale, no
    /// repeat, not paused, cursor zeroed.
    pub fn new(length: i64) -> (r: TimeRunner)
        requires
            0 <= length <= TIME_MAX,
        ensures
            r == (TimeRunner { length, ..TimeRunner::spec_default() }),
            r.wf(),
    {
        TimeRunner {
            paused: false,
            elasped: TimeRunnerElasped::default(),
            length,
            direction: TimeDirection::Forward,
            time_scale: TimeScale { num: 1, den: 1 },
            repeat: None,
        }
    }

    /// The runner that [`Default::default`] returns.
    pub open spec fn spec_default() -> TimeRunner {
        TimeRunner {
            paused: false,
            elasped: TimeRunnerElasped::spec_default(),
            length: 0,
            direction: TimeDirection::Forward,
            time_scale: TimeScale { num: 1, den: 1 },
            repeat: None,
        }
    }

    /// Set timer length.
    pub fn set_length(&mut self, length: i64)
        requires
            0 <= length <= TIME_MAX,
        ensures
            *final(self) == (TimeRunner { length, ..*old(self) }),
    {
        self.length = length;
    }

    /// Get timer length.
    pub fn length(&self) -> (r: i64)
        ensures
            r == self.length,
    {
        self.length
    }

    /// Pause or unpause the timer.
    pub fn set_paused(&mut self, paused: bool)
        ensures
            *final(self) == (TimeRunner { paused, ..*old(self) }),
    {
        self.paused = paused;
    }

    /// Get timer paused.
    pub fn paused(&self) -> (r: bool)
        ensures
            r == self.paused,
    {
        self.paused
    }

    /// Set timer time scale.
    pub fn set_time_scale(&mut self, time_scale: TimeScale)
        requires
            time_scale.wf(),
        ensures
            *final(self) == (TimeRunner { time_scale, ..*old(self) }),
    {
        self.time_scale = time_scale;
    }

    /// Get timer time scale.
    pub fn time_scale(&self) -> (r: TimeScale)
        ensures
            r == self.time_scale,
    {
        self.time_scale
    }

    /// Set timer direction.
    pub fn set_direction(&mut self, direction: TimeDirection)
        ensures
            *final(self) == (TimeRunner { direction, ..*old(self) }),
    {
        self.direction = direction;
    }

    /// Get timer direction.
    pub fn direction(&self) -> (r: TimeDirection)
        ensures
            r == self.direction,
    {
        self.direction
    }

    /// Set repeat.
    pub fn set_repeat(&mut self, repeat: Option<(Repeat, RepeatStyle)>)
        ensures
            *final(self) == (TimeRunner { repeat, ..*old(self) }),
    {
        self.repeat = repeat;
    }

    /// Get timer repeat.
    pub fn repeat(&self) -> (r: Option<(Repeat, RepeatStyle)>)
        ensures
            r == self.repeat,
    {
        self.repeat
    }

    /// Get timer elasped time.
    pub fn elasped(&self) -> (r: TimeRunnerElasped)
        ensures
            r == self.elasped,
    {
        self.elasped
    }

    /// The cursor sits at the terminal edge for the current direction.
    pub open spec fn spec_at_edge(self) -> bool {
        match self.direction {
            TimeDirection::Forward => self.elasped.now_period.spec_ge_one()
                && self.elasped.now_period.same_value(self.elasped.previous_period),
            TimeDirection::Backward => self.elasped.now_period.spec_le_zero()
                && self.elasped.now == self.elasped.previous,
        }
    }

    /// There will be no more ticking: any configured repeat is exhausted
    /// and the cursor sits at the terminal edge.
    pub open spec fn spec_is_completed(self) -> bool {
        match self.repeat {
            Some((repeat, _)) => repeat.spec_exhausted() && self.spec_at_edge(),
            None => self.spec_at_edge(),
        }
    }

    /// Returns true if the timer is completed: no more ticking and all
    /// configured repeat is exhausted.
    pub fn is_completed(&self) -> (r: bool)
        requires
            self.wf(),
        ensures
            r == self.spec_is_completed(),
    {
        let at_edge = match self.direction {
            TimeDirection::Forward => {
                self.elasped.now_period.ge_one()
                    && self.elasped.now_period.eq_value(&self.elasped.previous_period)
            },
            TimeDirection::Backward => {
                self.elasped.now_period.le_zero() && self.elasped.now == self.elasped.previous
            },
        };
        match &self.repeat {
            Some(r) => r.0.exhausted() && at_edge,
            None => at_edge,
        }
    }

    /// The candidate cursor of a tick: the current position advanced along
    /// the runner's direction.
    pub open spec fn spec_new_elasped(self, secs: int) -> int {
        match self.direction {
            TimeDirection::Forward => self.elasped.now + secs,
            TimeDirection::Backward => self.elasped.now - secs,
        }
    }

    /// How many period boundaries the candidate cursor lies past: the floor
    /// of the unclamped period coordinate.
    pub open spec fn spec_period_count(self, secs: int) -> int {
        self.spec_new_elasped(secs) / (self.length as int)
    }

    /// The period count saturated into the repeat counter's range, before
    /// the direction sign is applied.
    pub open spec fn spec_clamped_count(self, secs: int) -> int {
        spec_clamp_i32(self.spec_period_count(secs))
    }

    /// The signed advance handed to the repeat counter: the saturated
    /// period count, negated for a backward runner.
    pub open spec fn spec_signed_count(self, secs: int) -> int {
        match self.direction {
            TimeDirection::Forward => self.spec_clamped_count(secs),
            TimeDirection::Backward => -self.spec_clamped_count(secs),
        }
    }

    /// The repeat style to apply this tick: the configured one when a
    /// period boundary was crossed and the repeat counter consumed a
    /// nonzero amount.
    pub open spec fn spec_applied_style(self, secs: int) -> Option<RepeatStyle> {
        match self.repeat {
            Some((repeat, style)) => {
                if self.spec_period_count(secs) != 0
                    && repeat.spec_advance_result(self.spec_signed_count(secs)) != 0 {
                    Some(style)
                } else {
                    None
                }
            },
            None => None,
        }
    }

    /// The machine bounds [`TimeRunner::raw_tick`] needs beyond `wf`: the
    /// repeat counter's `i32` arithmetic must fit, and a backward tick must
    /// not meet the one saturated count whose negation does not exist.
    pub open spec fn spec_raw_tick_fits(self, secs: int) -> bool {
        &&& (self.direction is Backward ==> self.spec_clamped_count(secs) != i32::MIN)
        &&& match self.repeat {
            Some((repeat, _)) => self.spec_period_count(secs) != 0
                ==> repeat.spec_advance_fits(self.spec_signed_count(secs)),
            None => true,
        }
    }

    /// The runner after [`TimeRunner::raw_tick`] by `secs`.
    ///
    /// The candidate cursor is the position advanced along the direction.
    /// When no repeat applies the cursor is clamped into `[0, length]`,
    /// with the period coordinate pinned to 1 or 0 at the clamps. When one
    /// applies, the cursor is folded back by the repeat style's wave, the
    /// unclamped period coordinate is kept, and a ping-pong runner flips
    /// its direction on odd period counts.
    pub open spec fn spec_raw_tick(self, secs: int) -> TimeRunner {
        let length = self.length as int;
        let new_elasped = self.spec_new_elasped(secs);
        let period = Frac { num: new_elasped as i64, den: self.length };
        match self.spec_applied_style(secs) {
            None => {
                let elasped = if new_elasped > length {
                    self.elasped.spec_update(self.length, Frac { num: 1, den: 1 })
                } else if new_elasped < 0 {
                    self.elasped.spec_update(0i64, Frac { num: 0, den: 1 })
                } else {
                    self.elasped.spec_update(new_elasped as i64, period)
                };
                TimeRunner { elasped, ..self }
            },
            Some(style) => {
                let wrapped = match style {
                    RepeatStyle::WrapAround => spec_saw_wave(new_elasped, length),
                    RepeatStyle::PingPong => spec_triangle_wave(new_elasped, length),
                };
                let elasped = self.elasped.spec_update(wrapped as i64, period);
                let direction = if style is PingPong {
                    match self.direction {
                        TimeDirection::Forward =>
                            spec_triangle_wave_direction(self.spec_clamped_count(secs)),
                        TimeDirection::Backward =>
                            spec_backward_triangle_wave_direction(self.spec_clamped_count(secs)),
                    }
                } else {
                    self.direction
                };
                let repeat = match self.repeat {
                    Some((repeat, st)) => Some(
                        (repeat.spec_advance_state(self.spec_signed_count(secs)), st),
                    ),
                    None => None,
                };
                TimeRunner { elasped, direction, repeat, ..self }
            },
        }
    }

    /// Update the elasped cursor by `secs` time units. Doesn't account for
    /// `paused`, `time_scale` and completion.
    pub fn raw_tick(&mut self, secs: i64)
        requires
            old(self).wf(),
            old(self).length >= 1,
            -(TIME_MAX as int) <= secs <= TIME_MAX,
            old(self).spec_raw_tick_fits(secs as int),
        ensures
            *final(self) == old(self).spec_raw_tick(secs as int),
            final(self).wf(),
            0 <= final(self).elasped.now <= final(self).length,
    {
        let length = self.length;
        let now = self.elasped.now;
        let direction = self.direction;

        let new_elasped: i64 = match direction {
            TimeDirection::Forward => now + secs,
            TimeDirection::Backward => now - secs,
        };

        proof {
            lemma_floor_in_range(new_elasped as int, length as int);
        }
        let k: i64 = new_elasped.checked_div_euclid(length).unwrap();
        let clamped_k: i32 = if k > i32::MAX as i64 {
            i32::MAX
        } else if k < i32::MIN as i64 {
            i32::MIN
        } else {
            k as i32
        };

        let mut applied_style: Option<RepeatStyle> = None;
        if k != 0 {
            let by: i32 = match direction {
                TimeDirection::Forward => clamped_k,
                TimeDirection::Backward => -clamped_k,
            };
            match &mut self.repeat {
                Some(r) => {
                    let advances = r.0.advance_counter_by(by);
                    if advances != 0 {
                        applied_style = Some(r.1);
                    }
                },
                None => {},
            }
        }

        match applied_style {
            None => {
                if new_elasped > length {
                    self.elasped.update(length, Frac::new(1, 1));
                } else if new_elasped < 0 {
                    self.elasped.update(0, Frac::new(0, 1));
                } else {
                    self.elasped.update(new_elasped, Frac::new(new_elasped, length));
                }
            },
            Some(style) => {
                let wrapped = match style {
                    RepeatStyle::WrapAround => saw_wave(new_elasped, length),
                    RepeatStyle::PingPong => triangle_wave(new_elasped, length),
                };
                self.elasped.update(wrapped, Frac::new(new_elasped, length));
                if style == RepeatStyle::PingPong {
                    let new_direction = match direction {
                        TimeDirection::Forward => triangle_wave_direction(clamped_k),
                        TimeDirection::Backward => backward_triangle_wave_direction(clamped_k),
                    };
                    self.direction = new_direction;
                }
            },
        }
    }

    /// The scaled delta of a [`TimeRunner::tick`] by `secs`.
    pub open spec fn spec_scaled(self, secs: int) -> int {
        self.time_scale.spec_apply(secs)
    }

    /// The machine bounds [`TimeRunner::tick`] needs beyond `wf`: only when
    /// the tick will actually advance, the length must hold a period, the
    /// scaled delta must be a time value and the raw tick must fit.
    pub open spec fn spec_tick_fits(self, secs: int) -> bool {
        !self.paused && !self.spec_is_completed() ==> {
            &&& self.length >= 1
            &&& -(TIME_MAX as int) <= self.spec_scaled(secs) <= TIME_MAX
            &&& self.spec_raw_tick_fits(self.spec_scaled(secs))
        }
    }

    /// Whether a raw tick by `secs` stays within the engine's machine
    /// bounds: the executable form of [`TimeRunner::spec_raw_tick_fits`].
    pub fn raw_tick_fits(&self, secs: i64) -> (r: bool)
        requires
            self.wf(),
            self.length >= 1,
            -(TIME_MAX as int) <= secs <= TIME_MAX,
        ensures
            r == self.spec_raw_tick_fits(secs as int),
    {
        let new_elasped: i64 = match self.direction {
            TimeDirection::Forward => self.elasped.now + secs,
            TimeDirection::Backward => self.elasped.now - secs,
        };
        proof {
            lemma_floor_in_range(new_elasped as int, self.length as int);
        }
        let k: i64 = new_elasped.checked_div_euclid(self.length).unwrap();
        let clamped_k: i64 = if k > i32::MAX as i64 {
            i32::MAX as i64
        } else if k < i32::MIN as i64 {
            i32::MIN as i64
        } else {
            k
        };
        if matches!(self.direction, TimeDirection::Backward) && clamped_k == i32::MIN as i64 {
            return false;
        }
        if k == 0 {
            return true;
        }
        let by: i64 = match self.direction {
            TimeDirection::Forward => clamped_k,
            TimeDirection::Backward => -clamped_k,
        };
        match &self.repeat {
            None => true,
            Some(r) => match &r.0 {
                Repeat::Infinitely => true,
                Repeat::InfinitelyCounted { times_repeated } => {
                    let sum: i64 = *times_repeated as i64 + by;
                    i32::MIN as i64 <= sum && sum <= i32::MAX as i64
                },
                Repeat::Times { times, times_repeated } => {
                    let times_left: i64 = *times as i64 - *times_repeated as i64;
                    if times_left < i32::MIN as i64 || times_left > i32::MAX as i64 {
                        false
                    } else if by < 0 && times_left != 0 && times_left == i32::MIN as i64 {
                        false
                    } else {
                        let consumed: i64 = if times_left == 0 {
                            0
                        } else if 0 <= by {
                            if by < times_left {
                                by
                            } else {
                                times_left
                            }
                        } else {
                            if by > -times_left {
                                by
                            } else {
                                -times_left
                            }
                        };
                        let sum: i64 = *times_repeated as i64 + consumed;
                        i32::MIN as i64 <= sum && sum <= i32::MAX as i64
                    }
                },
            },
        }
    }

    /// Whether a tick by `secs` stays within the engine's machine bounds:
    /// the executable form of [`TimeRunner::spec_tick_fits`]. Hosts test
    /// this before calling [`TimeRunner::tick`] on data they do not
    /// control.
    pub fn tick_fits(&self, secs: i64) -> (r: bool)
        requires
            self.wf(),
            -(TIME_MAX as int) <= secs <= TIME_MAX,
        ensures
            r == self.spec_tick_fits(secs as int),
    {
        if self.paused || self.is_completed() {
            return true;
        }
        if self.length < 1 {
            return false;
        }
        proof {
            lemma_scale_product_in_range(secs as int, self.time_scale.num as int);
            lemma_scaled_quotient_in_range(
                secs as int * self.time_scale.num as int,
                self.time_scale.den as int,
            );
        }
        let prod: i128 = (secs as i128) * (self.time_scale.num as i128);
        let scaled_wide: i128 = prod.checked_div_euclid(self.time_scale.den as i128).unwrap();
        assert(scaled_wide as int == self.spec_scaled(secs as int));
        if scaled_wide < -(TIME_MAX as i128) || scaled_wide > TIME_MAX as i128 {
            return false;
        }
        self.raw_tick_fits(scaled_wide as i64)
    }

    /// The runner after [`TimeRunner::tick`] by `secs`: unchanged when
    /// paused or completed, otherwise advanced by the scaled delta.
    pub open spec fn spec_tick(self, secs: int) -> TimeRunner {
        if self.paused || self.spec_is_completed() {
            self
        } else {
            self.spec_raw_tick(self.spec_scaled(secs))
        }
    }

    /// Update the elasped cursor by `secs` time units, accounting for
    /// `paused`, `time_scale` and completion.
    pub fn tick(&mut self, secs: i64)
        requires
            old(self).wf(),
            -(TIME_MAX as int) <= secs <= TIME_MAX,
            old(self).spec_tick_fits(secs as int),
        ensures
            *final(self) == old(self).spec_tick(secs as int),
            final(self).wf(),
    {
        if self.paused || self.is_completed() {
            return;
        }
        let scaled = self.time_scale.apply(secs);
        self.raw_tick(scaled);
    }

    /// The runner after [`TimeRunner::set_tick`]: `now` overwritten with
    /// `secs` and its period coordinate recomputed; nothing else changes,
    /// in particular not the `previous` pair.
    pub open spec fn spec_set_tick(self, secs: i64) -> TimeRunner {
        TimeRunner {
            elasped: TimeRunnerElasped {
                now: secs,
                now_period: Frac { num: secs, den: self.length },
                ..self.elasped
            },
            ..self
        }
    }

    /// Set currently elasped now to `secs`.
    pub fn set_tick(&mut self, secs: i64)
        requires
            old(self).wf(),
            old(self).length >= 1,
            -(TIME_MAX as int) <= secs <= TIME_MAX,
        ensures
            *final(self) == old(self).spec_set_tick(secs),
            final(self).wf(),
    {
        self.elasped.now = secs;
        self.elasped.now_period = Frac::new(secs, self.length);
    }

    /// The runner after [`TimeRunner::collaspe_elasped`]: the `previous`
    /// pair overwritten with the `now` pair.
    pub open spec fn spec_collapse(self) -> TimeRunner {
        TimeRunner {
            elasped: TimeRunnerElasped {
                previous: self.elasped.now,
                previous_period: self.elasped.now_period,
                ..self.elasped
            },
            ..self
        }
    }

    /// Close the dispatch window: set all `previous` fields of the cursor
    /// to `now`. Call after handling the range of time between `previous`
    /// and `now`.
    pub fn collaspe_elasped(&mut self)
        ensures
            *final(self) == old(self).spec_collapse(),
    {
        self.elasped.previous = self.elasped.now;
        self.elasped.previous_period = self.elasped.now_period;
    }
}

impl Default for TimeRunner {
    /// A zero-length runner: forward, unit scale, no repeat, not paused.
    fn default() -> (r: TimeRunner)
        ensures
            r == TimeRunner::spec_default(),
            r.wf(),
    {
        TimeRunner {
            paused: false,
            elasped: TimeRunnerElasped::default(),
            length: 0,
            direction: TimeDirection::Forward,
            time_scale: TimeScale { num: 1, den: 1 },
            repeat: None,
        }
    }
}

} // verus!
