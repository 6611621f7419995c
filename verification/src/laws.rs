//! The engine's algebraic laws, stated over the runner's transition model
//! and proved once for all inputs.

use vstd::prelude::*;

use crate::frac::Frac;
use crate::frac::TIME_MAX;
use crate::time_runner::Repeat;
use crate::time_runner::RepeatStyle;
use crate::time_runner::TimeRunner;
use crate::time_span::TimeDirection;

verus! {

/// A raw tick within the engine's bounds keeps the runner well-formed,
/// leaves its configuration in place, and always clamps or folds the cursor
/// back into `[0, length]`.
pub proof fn lemma_raw_tick_bounds(r: TimeRunner, secs: int)
    requires
        r.wf(),
        r.length >= 1,
        -(TIME_MAX as int) <= secs <= TIME_MAX,
    ensures
        r.spec_raw_tick(secs).wf(),
        0 <= r.spec_raw_tick(secs).elasped.now <= r.length,
        r.spec_raw_tick(secs).length == r.length,
        r.spec_raw_tick(secs).paused == r.paused,
        r.spec_raw_tick(secs).time_scale == r.time_scale,
{
    let new_elasped = r.spec_new_elasped(secs);
    let length = r.length as int;
    match r.spec_applied_style(secs) {
        None => {},
        Some(style) => {
            match style {
                RepeatStyle::WrapAround => {
                    vstd::arithmetic::div_mod::lemma_mod_bound(new_elasped, length);
                },
                RepeatStyle::PingPong => {
                    vstd::arithmetic::div_mod::lemma_mod_bound(new_elasped + length, 2 * length);
                },
            }
        },
    }
}

/// Once a runner is completed, ticking is a no-op: the state is unchanged
/// and the runner stays completed, whatever the delta.
pub proof fn lemma_completed_is_stable(r: TimeRunner, secs: int)
    requires
        r.spec_is_completed(),
    ensures
        r.spec_tick(secs) == r,
        r.spec_tick(secs).spec_is_completed(),
{
}

/// Collapsing the elapsed window is idempotent: a second collapse right
/// after a first one changes nothing.
pub proof fn lemma_collapse_idempotent(r: TimeRunner)
    ensures
        r.spec_collapse().spec_collapse() == r.spec_collapse(),
{
}

/// A wrap-around runner raw-ticked by exactly one period from zero comes
/// back to zero, with its period coordinate at one and exactly one repeat
/// consumed.
pub proof fn lemma_wrap_around_full_period(r: TimeRunner, rep: Repeat)
    requires
        r.wf(),
        r.length >= 1,
        r.elasped.now == 0,
        r.direction is Forward,
        r.repeat == Some((rep, RepeatStyle::WrapAround)),
        !rep.spec_exhausted(),
        rep.spec_advance_fits(1),
    ensures
        rep.spec_advance_result(1) == 1,
        r.spec_raw_tick(r.length as int).elasped.now == 0,
        r.spec_raw_tick(r.length as int).elasped.now_period.same_value(Frac { num: 1, den: 1 }),
        r.spec_raw_tick(r.length as int).repeat
            == Some((rep.spec_advance_state(1), RepeatStyle::WrapAround)),
        r.spec_raw_tick(r.length as int).direction is Forward,
{
    let length = r.length as int;
    vstd::arithmetic::div_mod::lemma_div_by_self(length);
    vstd::arithmetic::div_mod::lemma_mod_self_0(length);
    vstd::arithmetic::mul::lemma_mul_basics(length);
    assert(r.spec_period_count(length) == 1);
}

/// A ping-pong runner raw-ticked by exactly two periods from zero comes
/// back to zero still moving forward: the two direction flips cancel.
pub proof fn lemma_ping_pong_double_period(r: TimeRunner, rep: Repeat)
    requires
        r.wf(),
        r.length >= 1,
        r.elasped.now == 0,
        r.direction is Forward,
        r.repeat == Some((rep, RepeatStyle::PingPong)),
        rep.spec_advance_fits(2),
        rep.spec_advance_result(2) == 2,
    ensures
        r.spec_raw_tick(2 * r.length as int).elasped.now == 0,
        r.spec_raw_tick(2 * r.length as int).direction is Forward,
        r.spec_raw_tick(2 * r.length as int).repeat
            == Some((rep.spec_advance_state(2), RepeatStyle::PingPong)),
{
    let length = r.length as int;
    let new_elasped = 2 * length;
    vstd::arithmetic::div_mod::lemma_div_by_multiple(2, length);
    assert(r.spec_period_count(new_elasped) == 2);
    vstd::arithmetic::div_mod::lemma_fundamental_div_mod_converse_mod(
        new_elasped + length,
        2 * length,
        1,
        length,
    );
    assert((new_elasped + length) % (2 * length) == length);
}

/// A non-repeating forward advance that stays within the timeline, undone
/// by an equal backward advance, returns the cursor to where it started.
pub proof fn lemma_forward_backward_round_trip(r: TimeRunner, d: int)
    requires
        r.wf(),
        r.length >= 1,
        r.repeat is None,
        r.direction is Forward,
        0 <= d <= TIME_MAX,
        0 <= r.elasped.now,
        0 <= r.elasped.now + d <= r.length,
    ensures
        ({
            let forward = r.spec_raw_tick(d);
            let turned = TimeRunner { direction: TimeDirection::Backward, ..forward };
            turned.spec_raw_tick(d).elasped.now == r.elasped.now
        }),
{
}

/// The runner after `n` successive raw ticks of one full period each.
pub open spec fn spec_full_period_ticks(r: TimeRunner, n: nat) -> TimeRunner
    decreases n,
{
    if n == 0 {
        r
    } else {
        spec_full_period_ticks(r, (n - 1) as nat).spec_raw_tick(r.length as int)
    }
}

/// After `1 <= i <= n` full-period ticks of a fresh forward wrap-around
/// runner limited to `n` repeats, the cursor is back at zero, the period
/// coordinate reads one, and the counter holds exactly `i`.
proof fn lemma_times_state(r: TimeRunner, n: i32, i: nat)
    requires
        r.wf(),
        r.length >= 1,
        r.elasped.now == 0,
        r.direction is Forward,
        1 <= n,
        r.repeat == Some(
            (Repeat::Times { times: n, times_repeated: 0i32 }, RepeatStyle::WrapAround),
        ),
        1 <= i <= n,
    ensures
        ({
            let s = spec_full_period_ticks(r, i);
            &&& s.wf()
            &&& s.length == r.length
            &&& s.direction is Forward
            &&& s.elasped.now == 0
            &&& s.elasped.now_period == (Frac { num: r.length, den: r.length })
            &&& s.repeat == Some(
                (
                    Repeat::Times { times: n, times_repeated: i as i32 },
                    RepeatStyle::WrapAround,
                ),
            )
        }),
    decreases i,
{
    let length = r.length as int;
    vstd::arithmetic::div_mod::lemma_div_by_self(length);
    vstd::arithmetic::div_mod::lemma_mod_self_0(length);
    if i == 1 {
        let s = spec_full_period_ticks(r, 1);
        assert(spec_full_period_ticks(r, 0) == r);
        assert(r.spec_period_count(length) == 1);
    } else {
        lemma_times_state(r, n, (i - 1) as nat);
        let prev = spec_full_period_ticks(r, (i - 1) as nat);
        assert(prev.spec_period_count(length) == 1);
    }
}

/// A fresh forward wrap-around runner limited to `n >= 1` repeats, ticked
/// `n` times by exactly one period, holds a counter of `n`; it is completed
/// by the tick after that.
pub proof fn lemma_times_exhaust(r: TimeRunner, n: i32)
    requires
        r.wf(),
        r.length >= 1,
        r.elasped.now == 0,
        r.direction is Forward,
        1 <= n,
        r.repeat == Some(
            (Repeat::Times { times: n, times_repeated: 0i32 }, RepeatStyle::WrapAround),
        ),
    ensures
        spec_full_period_ticks(r, n as nat).repeat == Some(
            (Repeat::Times { times: n, times_repeated: n }, RepeatStyle::WrapAround),
        ),
        spec_full_period_ticks(r, n as nat)
            .spec_raw_tick(r.length as int)
            .spec_is_completed(),
{
    let length = r.length as int;
    lemma_times_state(r, n, n as nat);
    let s = spec_full_period_ticks(r, n as nat);
    vstd::arithmetic::div_mod::lemma_div_by_self(length);
    assert(s.spec_period_count(length) == 1);
    let done = s.spec_raw_tick(length);
    assert(done.elasped.now_period == (Frac { num: r.length, den: r.length }));
    assert(done.elasped.now_period.same_value(done.elasped.previous_period));
}

} // verus!
