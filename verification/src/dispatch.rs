//! The dispatch engine: once per frame, every runner is ticked, and the
//! `(previous, now)` window each runner traversed is projected onto its
//! attached spans as [`TimeSpanProgress`] records.
//!
//! The host owns the runner/span relation; it hands the engine one
//! [`RunnerNode`] per runner, holding the runner, its attached spans and
//! their progress records, and the per-frame markers. The two passes here
//! are the engine's whole per-frame behavior: [`tick_time_runner_system`]
//! advances every runner and collects end-of-run notices, and
//! [`time_runner_system`] publishes, updates and removes span progress.

use vstd::prelude::*;

use crate::frac::Frac;
use crate::frac::TIME_MAX;
use crate::time_runner::Repeat;
use crate::time_runner::RepeatStyle;
use crate::time_runner::TimeRunner;
use crate::time_span::DurationQuotient;
use crate::time_span::Percentage;
use crate::time_span::TimeDirection;
use crate::time_span::TimeSpan;
use crate::time_span::TimeSpanProgress;

verus! {

/// The dispatcher's decision about which time value to project into a
/// span's progress record on a given tick.
#[derive(Debug, Clone, Copy, PartialEq, Eq, Structural)]
pub enum UseTime {
    /// Publish the live cursor.
    Current,
    /// Pin the published time to the span's entry edge.
    Min,
    /// Pin the published time to the span's exit edge.
    Max,
}

/// The decision table: given the local direction, the quotients of
/// `previous` and `now` against the span, and whether (and how) this tick
/// crossed a period boundary, decide whether the span was touched and which
/// time value to publish.
///
/// Within one period the cursor moves monotonically, so the combinations
/// against the direction are unreachable and yield `None`. A window that
/// leaves the span — past its upper end under Forward motion, past its
/// lower end under Backward motion, within one period or by leaping over
/// it under a wrap-around crossing — pins the published time to that exit
/// edge (`Max`/`Min`), so the last frame a consumer sees reads exactly the
/// edge. Ping-pong geometry re-enters every span it overshoots, so it
/// never needs the pin.
pub open spec fn spec_span_in_range(
    direction: TimeDirection,
    previous_quotient: DurationQuotient,
    now_quotient: DurationQuotient,
    repeated: Option<RepeatStyle>,
) -> Option<UseTime> {
    match (direction, previous_quotient, now_quotient, repeated) {
        (_, DurationQuotient::Inside, DurationQuotient::Inside, None) => Some(UseTime::Current),
        (TimeDirection::Forward, DurationQuotient::Before, DurationQuotient::Inside, None)
            => Some(UseTime::Current),
        | (TimeDirection::Forward, DurationQuotient::Inside, DurationQuotient::After, None)
        | (TimeDirection::Forward, DurationQuotient::Before, DurationQuotient::After, None)
            => Some(UseTime::Max),
        (TimeDirection::Backward, DurationQuotient::After, DurationQuotient::Inside, None)
            => Some(UseTime::Current),
        | (TimeDirection::Backward, DurationQuotient::Inside, DurationQuotient::Before, None)
        | (TimeDirection::Backward, DurationQuotient::After, DurationQuotient::Before, None)
            => Some(UseTime::Min),
        | (
            TimeDirection::Forward,
            DurationQuotient::Before,
            DurationQuotient::Before,
            Some(RepeatStyle::WrapAround),
        )
        | (
            TimeDirection::Forward,
            DurationQuotient::Inside,
            DurationQuotient::Before,
            Some(RepeatStyle::WrapAround),
        )
            => Some(UseTime::Max),
        | (
            TimeDirection::Forward,
            DurationQuotient::Before,
            DurationQuotient::Inside,
            Some(RepeatStyle::WrapAround),
        )
        | (
            TimeDirection::Forward,
            DurationQuotient::Before,
            DurationQuotient::After,
            Some(RepeatStyle::WrapAround),
        )
        | (
            TimeDirection::Forward,
            DurationQuotient::Inside,
            DurationQuotient::Inside,
            Some(RepeatStyle::WrapAround),
        )
        | (
            TimeDirection::Forward,
            DurationQuotient::Inside,
            DurationQuotient::After,
            Some(RepeatStyle::WrapAround),
        )
        | (
            TimeDirection::Forward,
            DurationQuotient::After,
            DurationQuotient::Inside,
            Some(RepeatStyle::WrapAround),
        )
        | (
            TimeDirection::Forward,
            DurationQuotient::After,
            DurationQuotient::After,
            Some(RepeatStyle::WrapAround),
        )
            => Some(UseTime::Current),
        | (
            TimeDirection::Backward,
            DurationQuotient::After,
            DurationQuotient::After,
            Some(RepeatStyle::WrapAround),
        )
        | (
            TimeDirection::Backward,
            DurationQuotient::Inside,
            DurationQuotient::After,
            Some(RepeatStyle::WrapAround),
        )
            => Some(UseTime::Min),
        | (
            TimeDirection::Backward,
            DurationQuotient::Before,
            DurationQuotient::Before,
            Some(RepeatStyle::WrapAround),
        )
        | (
            TimeDirection::Backward,
            DurationQuotient::Before,
            DurationQuotient::Inside,
            Some(RepeatStyle::WrapAround),
        )
        | (
            TimeDirection::Backward,
            DurationQuotient::Inside,
            DurationQuotient::Before,
            Some(RepeatStyle::WrapAround),
        )
        | (
            TimeDirection::Backward,
            DurationQuotient::Inside,
            DurationQuotient::Inside,
            Some(RepeatStyle::WrapAround),
        )
        | (
            TimeDirection::Backward,
            DurationQuotient::After,
            DurationQuotient::Before,
            Some(RepeatStyle::WrapAround),
        )
        | (
            TimeDirection::Backward,
            DurationQuotient::After,
            DurationQuotient::Inside,
            Some(RepeatStyle::WrapAround),
        )
            => Some(UseTime::Current),
        | (
            TimeDirection::Backward,
            DurationQuotient::Before,
            DurationQuotient::Before,
            Some(RepeatStyle::PingPong),
        )
        | (
            TimeDirection::Backward,
            DurationQuotient::Before,
            DurationQuotient::Inside,
            Some(RepeatStyle::PingPong),
        )
        | (
            TimeDirection::Backward,
            DurationQuotient::Before,
            DurationQuotient::After,
            Some(RepeatStyle::PingPong),
        )
        | (
            TimeDirection::Backward,
            DurationQuotient::Inside,
            DurationQuotient::Before,
            Some(RepeatStyle::PingPong),
        )
        | (
            TimeDirection::Backward,
            DurationQuotient::Inside,
            DurationQuotient::Inside,
            Some(RepeatStyle::PingPong),
        )
        | (
            TimeDirection::Backward,
            DurationQuotient::Inside,
            DurationQuotient::After,
            Some(RepeatStyle::PingPong),
        )
        | (
            TimeDirection::Backward,
            DurationQuotient::After,
            DurationQuotient::Before,
            Some(RepeatStyle::PingPong),
        )
        | (
            TimeDirection::Backward,
            DurationQuotient::After,
            DurationQuotient::Inside,
            Some(RepeatStyle::PingPong),
        )
            => Some(UseTime::Current),
        | (
            TimeDirection::Forward,
            DurationQuotient::Before,
            DurationQuotient::Inside,
            Some(RepeatStyle::PingPong),
        )
        | (
            TimeDirection::Forward,
            DurationQuotient::Before,
            DurationQuotient::After,
            Some(RepeatStyle::PingPong),
        )
        | (
            TimeDirection::Forward,
            DurationQuotient::Inside,
            DurationQuotient::Before,
            Some(RepeatStyle::PingPong),
        )
        | (
            TimeDirection::Forward,
            DurationQuotient::Inside,
            DurationQuotient::Inside,
            Some(RepeatStyle::PingPong),
        )
        | (
            TimeDirection::Forward,
            DurationQuotient::Inside,
            DurationQuotient::After,
            Some(RepeatStyle::PingPong),
        )
        | (
            TimeDirection::Forward,
            DurationQuotient::After,
            DurationQuotient::Before,
            Some(RepeatStyle::PingPong),
        )
        | (
            TimeDirection::Forward,
            DurationQuotient::After,
            DurationQuotient::Inside,
            Some(RepeatStyle::PingPong),
        )
        | (
            TimeDirection::Forward,
            DurationQuotient::After,
            DurationQuotient::After,
            Some(RepeatStyle::PingPong),
        )
            => Some(UseTime::Current),
        _ => None,
    }
}

/// Consult the decision table.
pub fn span_in_range(
    direction: TimeDirection,
    previous_quotient: DurationQuotient,
    now_quotient: DurationQuotient,
    repeated: Option<RepeatStyle>,
) -> (r: Option<UseTime>)
    ensures
        r == spec_span_in_range(direction, previous_quotient, now_quotient, repeated),
{
    match (direction, previous_quotient, now_quotient, repeated) {
        (_, DurationQuotient::Inside, DurationQuotient::Inside, None) => Some(UseTime::Current),
        (TimeDirection::Forward, DurationQuotient::Before, DurationQuotient::Inside, None)
            => Some(UseTime::Current),
        | (TimeDirection::Forward, DurationQuotient::Inside, DurationQuotient::After, None)
        | (TimeDirection::Forward, DurationQuotient::Before, DurationQuotient::After, None)
            => Some(UseTime::Max),
        (TimeDirection::Backward, DurationQuotient::After, DurationQuotient::Inside, None)
            => Some(UseTime::Current),
        | (TimeDirection::Backward, DurationQuotient::Inside, DurationQuotient::Before, None)
        | (TimeDirection::Backward, DurationQuotient::After, DurationQuotient::Before, None)
            => Some(UseTime::Min),
        | (
            TimeDirection::Forward,
            DurationQuotient::Before,
            DurationQuotient::Before,
            Some(RepeatStyle::WrapAround),
        )
        | (
            TimeDirection::Forward,
            DurationQuotient::Inside,
            DurationQuotient::Before,
            Some(RepeatStyle::WrapAround),
        )
            => Some(UseTime::Max),
        | (
            TimeDirection::Forward,
            DurationQuotient::Before,
            DurationQuotient::Inside,
            Some(RepeatStyle::WrapAround),
        )
        | (
            TimeDirection::Forward,
            DurationQuotient::Before,
            DurationQuotient::After,
            Some(RepeatStyle::WrapAround),
        )
        | (
            TimeDirection::Forward,
            DurationQuotient::Inside,
            DurationQuotient::Inside,
            Some(RepeatStyle::WrapAround),
        )
        | (
            TimeDirection::Forward,
            DurationQuotient::Inside,
            DurationQuotient::After,
            Some(RepeatStyle::WrapAround),
        )
        | (
            TimeDirection::Forward,
            DurationQuotient::After,
            DurationQuotient::Inside,
            Some(RepeatStyle::WrapAround),
        )
        | (
            TimeDirection::Forward,
            DurationQuotient::After,
            DurationQuotient::After,
            Some(RepeatStyle::WrapAround),
        )
            => Some(UseTime::Current),
        | (
            TimeDirection::Backward,
            DurationQuotient::After,
            DurationQuotient::After,
            Some(RepeatStyle::WrapAround),
        )
        | (
            TimeDirection::Backward,
            DurationQuotient::Inside,
            DurationQuotient::After,
            Some(RepeatStyle::WrapAround),
        )
            => Some(UseTime::Min),
        | (
            TimeDirection::Backward,
            DurationQuotient::Before,
            DurationQuotient::Before,
            Some(RepeatStyle::WrapAround),
        )
        | (
            TimeDirection::Backward,
            DurationQuotient::Before,
            DurationQuotient::Inside,
            Some(RepeatStyle::WrapAround),
        )
        | (
            TimeDirection::Backward,
            DurationQuotient::Inside,
            DurationQuotient::Before,
            Some(RepeatStyle::WrapAround),
        )
        | (
            TimeDirection::Backward,
            DurationQuotient::Inside,
            DurationQuotient::Inside,
            Some(RepeatStyle::WrapAround),
        )
        | (
            TimeDirection::Backward,
            DurationQuotient::After,
            DurationQuotient::Before,
            Some(RepeatStyle::WrapAround),
        )
        | (
            TimeDirection::Backward,
            DurationQuotient::After,
            DurationQuotient::Inside,
            Some(RepeatStyle::WrapAround),
        )
            => Some(UseTime::Current),
        | (
            TimeDirection::Backward,
            DurationQuotient::Before,
            DurationQuotient::Before,
            Some(RepeatStyle::PingPong),
        )
        | (
            TimeDirection::Backward,
            DurationQuotient::Before,
            DurationQuotient::Inside,
            Some(RepeatStyle::PingPong),
        )
        | (
            TimeDirection::Backward,
            DurationQuotient::Before,
            DurationQuotient::After,
            Some(RepeatStyle::PingPong),
        )
        | (
            TimeDirection::Backward,
            DurationQuotient::Inside,
            DurationQuotient::Before,
            Some(RepeatStyle::PingPong),
        )
        | (
            TimeDirection::Backward,
            DurationQuotient::Inside,
            DurationQuotient::Inside,
            Some(RepeatStyle::PingPong),
        )
        | (
            TimeDirection::Backward,
            DurationQuotient::Inside,
            DurationQuotient::After,
            Some(RepeatStyle::PingPong),
        )
        | (
            TimeDirection::Backward,
            DurationQuotient::After,
            DurationQuotient::Before,
            Some(RepeatStyle::PingPong),
        )
        | (
            TimeDirection::Backward,
            DurationQuotient::After,
            DurationQuotient::Inside,
            Some(RepeatStyle::PingPong),
        )
            => Some(UseTime::Current),
        | (
            TimeDirection::Forward,
            DurationQuotient::Before,
            DurationQuotient::Inside,
            Some(RepeatStyle::PingPong),
        )
        | (
            TimeDirection::Forward,
            DurationQuotient::Before,
            DurationQuotient::After,
            Some(RepeatStyle::PingPong),
        )
        | (
            TimeDirection::Forward,
            DurationQuotient::Inside,
            DurationQuotient::Before,
            Some(RepeatStyle::PingPong),
        )
        | (
            TimeDirection::Forward,
            DurationQuotient::Inside,
            DurationQuotient::Inside,
            Some(RepeatStyle::PingPong),
        )
        | (
            TimeDirection::Forward,
            DurationQuotient::Inside,
            DurationQuotient::After,
            Some(RepeatStyle::PingPong),
        )
        | (
            TimeDirection::Forward,
            DurationQuotient::After,
            DurationQuotient::Before,
            Some(RepeatStyle::PingPong),
        )
        | (
            TimeDirection::Forward,
            DurationQuotient::After,
            DurationQuotient::Inside,
            Some(RepeatStyle::PingPong),
        )
        | (
            TimeDirection::Forward,
            DurationQuotient::After,
            DurationQuotient::After,
            Some(RepeatStyle::PingPong),
        )
            => Some(UseTime::Current),
        _ => None,
    }
}

/// The percentage published for `value` on a span of length `span_length`:
/// the exact ratio while the span has positive length, and on a zero-length
/// span a signed infinity, the runner's direction breaking the tie at zero.
pub open spec fn spec_percentage(
    value: int,
    span_length: int,
    runner_direction: TimeDirection,
) -> Percentage {
    if span_length > 0 {
        Percentage::Finite(Frac { num: value as i64, den: span_length as i64 })
    } else if value > 0 {
        Percentage::PosInfinity
    } else if value < 0 {
        Percentage::NegInfinity
    } else {
        match runner_direction {
            TimeDirection::Forward => Percentage::PosInfinity,
            TimeDirection::Backward => Percentage::NegInfinity,
        }
    }
}

fn percentage(value: i64, span_length: i64, runner_direction: TimeDirection) -> (r: Percentage)
    requires
        0 <= span_length,
    ensures
        r == spec_percentage(value as int, span_length as int, runner_direction),
{
    if span_length > 0 {
        Percentage::Finite(Frac { num: value, den: span_length })
    } else if value > 0 {
        Percentage::PosInfinity
    } else if value < 0 {
        Percentage::NegInfinity
    } else {
        match runner_direction {
            TimeDirection::Forward => Percentage::PosInfinity,
            TimeDirection::Backward => Percentage::NegInfinity,
        }
    }
}

/// The direction used against the decision table. Without a period
/// crossing, `previous` and `now` are on the same period and their numeric
/// order decides (the runner's direction breaks the tie); across a crossing
/// the runner's configured direction is used verbatim.
pub open spec fn spec_local_direction(
    prev: i64,
    now: i64,
    runner_direction: TimeDirection,
    repeated: Option<RepeatStyle>,
) -> TimeDirection {
    if repeated is None {
        if prev < now {
            TimeDirection::Forward
        } else if prev > now {
            TimeDirection::Backward
        } else {
            runner_direction
        }
    } else {
        runner_direction
    }
}

/// The progress record a span carries after one dispatch of the window
/// `(prev, now)`: `None` detaches, a fresh record is attached when none was
/// there, and an existing record is updated in place, its old `now` pair
/// shifting into `previous`.
pub open spec fn spec_span_progress_step(
    span: TimeSpan,
    progress: Option<TimeSpanProgress>,
    prev: i64,
    now: i64,
    runner_direction: TimeDirection,
    repeated: Option<RepeatStyle>,
) -> Option<TimeSpanProgress> {
    let previous_quotient = span.spec_quotient(prev);
    let now_quotient = span.spec_quotient(now);
    let direction = spec_local_direction(prev, now, runner_direction, repeated);
    match spec_span_in_range(direction, previous_quotient, now_quotient, repeated) {
        None => None,
        Some(use_time) => {
            let span_min = span.min.spec_duration() as int;
            let span_length = span.spec_length();
            let new_now: int = match use_time {
                UseTime::Current => now - span_min,
                UseTime::Min => 0,
                UseTime::Max => span_length,
            };
            let new_previous: int = prev - span_min;
            let new_now_percentage = spec_percentage(new_now, span_length, runner_direction);
            let new_previous_percentage = spec_percentage(
                new_previous,
                span_length,
                runner_direction,
            );
            match progress {
                Some(p) => Some(p.spec_update(new_now as i64, new_now_percentage)),
                None => Some(
                    TimeSpanProgress {
                        now_percentage: new_now_percentage,
                        now: new_now as i64,
                        previous_percentage: new_previous_percentage,
                        previous: new_previous as i64,
                    },
                ),
            }
        },
    }
}

/// Dispatch the window `(prev, now)` onto one span: decide whether the span
/// was touched and attach, update or detach its progress record.
pub fn update_span_progress(
    span: &TimeSpan,
    progress: &mut Option<TimeSpanProgress>,
    prev: i64,
    now: i64,
    runner_direction: TimeDirection,
    repeated: Option<RepeatStyle>,
)
    requires
        span.wf(),
        -(TIME_MAX as int) <= prev <= TIME_MAX,
        -(TIME_MAX as int) <= now <= TIME_MAX,
        *old(progress) matches Some(p) ==> p.wf(),
    ensures
        *final(progress) == spec_span_progress_step(
            *span,
            *old(progress),
            prev,
            now,
            runner_direction,
            repeated,
        ),
        *final(progress) matches Some(p) ==> p.wf(),
{
    let now_quotient = span.quotient(now);
    let previous_quotient = span.quotient(prev);

    let direction = if repeated.is_none() {
        if prev < now {
            TimeDirection::Forward
        } else if prev > now {
            TimeDirection::Backward
        } else {
            runner_direction
        }
    } else {
        runner_direction
    };

    match span_in_range(direction, previous_quotient, now_quotient, repeated) {
        Some(use_time) => {
            let span_min = span.min().duration();
            let span_length = span.length();
            let new_now = match use_time {
                UseTime::Current => now - span_min,
                UseTime::Min => 0,
                UseTime::Max => span_length,
            };
            let new_previous = prev - span_min;
            let new_now_percentage = percentage(new_now, span_length, runner_direction);
            let new_previous_percentage = percentage(new_previous, span_length, runner_direction);
            match progress {
                Some(p) => {
                    p.update(new_now, new_now_percentage);
                },
                None => {
                    *progress = Some(
                        TimeSpanProgress {
                            now_percentage: new_now_percentage,
                            now: new_now,
                            previous_percentage: new_previous_percentage,
                            previous: new_previous,
                        },
                    );
                },
            }
        },
        None => {
            *progress = None;
        },
    }
}

/// One span attached to a runner, with the progress record the dispatch
/// pass manages on it.
#[derive(Debug, Clone, Copy, PartialEq)]
pub struct SpanNode {
    /// The span.
    pub span: TimeSpan,
    /// Its progress record, present while the runner's window touches the
    /// span.
    pub progress: Option<TimeSpanProgress>,
}

impl SpanNode {
    /// The span is valid and any progress carries well-formed fractions.
    pub open spec fn wf(self) -> bool {
        &&& self.span.wf()
        &&& (self.progress matches Some(p) ==> p.wf())
    }
}

/// One runner with its attached spans and per-frame markers, as the host
/// hands it to the engine each frame.
#[derive(Debug, Clone, PartialEq)]
pub struct RunnerNode {
    /// The host's identity for this runner, carried into end-of-run
    /// notices.
    pub id: u64,
    /// The runner.
    pub runner: TimeRunner,
    /// The skip marker: while set, the dispatch pass neither reads nor
    /// writes this runner's progress (tick accrual continues).
    pub skip: bool,
    /// Set by the host when the skip marker was attached this frame; the
    /// dispatch pass then detaches all progress once and clears this.
    pub skip_added: bool,
    /// Whether the previous dispatch pass completed this runner; its spans'
    /// progress is then detached at the start of the next pass.
    pub just_completed: bool,
    /// The runner's attached spans, in the host's order.
    pub spans: Vec<SpanNode>,
}

impl RunnerNode {
    /// The runner and every span are well-formed.
    pub open spec fn wf(self) -> bool {
        &&& self.runner.wf()
        &&& forall|i: int| 0 <= i < self.spans@.len() ==> (#[trigger] self.spans@[i]).wf()
    }
}

/// Whether the dispatch pass detaches all of this node's progress before
/// the main pass: a just-completed non-skipped runner (deferred cleanup),
/// or a freshly attached skip marker.
pub open spec fn spec_node_cleared(n: RunnerNode) -> bool {
    ||| (!n.skip && n.just_completed && n.runner.spec_is_completed())
    ||| n.skip_added
}

/// Whether the main pass processes this node: not skipped and not
/// completed.
pub open spec fn spec_node_processed(n: RunnerNode) -> bool {
    !n.skip && !n.runner.spec_is_completed()
}

/// The period-crossing flag the main pass hands the decision table: the
/// configured repeat style when the unclamped period coordinate's floor is
/// nonzero on a non-completed runner.
pub open spec fn spec_repeated(r: TimeRunner) -> Option<RepeatStyle> {
    if r.elasped.now_period.spec_floor() != 0 && !r.spec_is_completed() {
        match r.repeat {
            Some((_, style)) => Some(style),
            None => None,
        }
    } else {
        None
    }
}

/// The runner state this node holds after the dispatch pass: collapsed when
/// the main pass processed it, untouched otherwise.
pub open spec fn spec_node_runner_after(n: RunnerNode) -> TimeRunner {
    if spec_node_processed(n) {
        n.runner.spec_collapse()
    } else {
        n.runner
    }
}

/// The progress record span `i` of this node holds after the dispatch
/// pass: cleared first where cleanup applies, then stepped by the window
/// where the main pass runs.
pub open spec fn spec_node_span_progress(n: RunnerNode, i: int) -> Option<TimeSpanProgress> {
    let base = if spec_node_cleared(n) {
        None
    } else {
        n.spans@[i].progress
    };
    if spec_node_processed(n) {
        spec_span_progress_step(
            n.spans@[i].span,
            base,
            n.runner.elasped.previous,
            n.runner.elasped.now,
            n.runner.direction,
            spec_repeated(n.runner),
        )
    } else {
        base
    }
}

/// Run the dispatch pass on one runner and its spans: detach progress on
/// deferred completion or a fresh skip marker, project the elapsed window
/// onto every span, close the window, and remember a completion for the
/// next pass.
pub fn dispatch_node(node: &mut RunnerNode)
    requires
        old(node).wf(),
    ensures
        final(node).id == old(node).id,
        final(node).skip == old(node).skip,
        !final(node).skip_added,
        final(node).runner == spec_node_runner_after(*old(node)),
        final(node).just_completed == (spec_node_processed(*old(node))
            && old(node).runner.spec_collapse().spec_is_completed()),
        final(node).spans@.len() == old(node).spans@.len(),
        forall|i: int| 0 <= i < old(node).spans@.len()
            ==> (#[trigger] final(node).spans@[i]).span == old(node).spans@[i].span,
        forall|i: int| 0 <= i < old(node).spans@.len()
            ==> (#[trigger] final(node).spans@[i]).progress
                == spec_node_span_progress(*old(node), i),
        final(node).wf(),
{
    let cleared = (!node.skip && node.just_completed && node.runner.is_completed())
        || node.skip_added;
    node.just_completed = false;
    node.skip_added = false;

    if cleared {
        let n = node.spans.len();
        let mut i: usize = 0;
        while i < n
            invariant
                0 <= i <= n,
                n == node.spans@.len(),
                node.spans@.len() == old(node).spans@.len(),
                node.id == old(node).id,
                node.skip == old(node).skip,
                node.runner == old(node).runner,
                !node.skip_added,
                !node.just_completed,
                forall|j: int| 0 <= j < i
                    ==> (#[trigger] node.spans@[j]).span == old(node).spans@[j].span,
                forall|j: int| 0 <= j < i ==> (#[trigger] node.spans@[j]).progress is None,
                forall|j: int| i <= j < n
                    ==> (#[trigger] node.spans@[j]) == old(node).spans@[j],
            decreases n - i,
        {
            node.spans[i].progress = None;
            i += 1;
        }
    }

    let processed = !node.skip && !node.runner.is_completed();
    if processed {
        let prev = node.runner.elasped.previous;
        let now = node.runner.elasped.now;
        let runner_direction = node.runner.direction;
        let repeated: Option<RepeatStyle> = if !node.runner.elasped.now_period.floor_is_zero() {
            match &node.runner.repeat {
                Some(r) => Some(r.1),
                None => None,
            }
        } else {
            None
        };
        assert(repeated == spec_repeated(old(node).runner));

        let ghost base_spans = node.spans@;
        let n = node.spans.len();
        let mut i: usize = 0;
        while i < n
            invariant
                0 <= i <= n,
                n == node.spans@.len(),
                node.spans@.len() == base_spans.len(),
                node.id == old(node).id,
                node.skip == old(node).skip,
                node.runner == old(node).runner,
                !node.skip_added,
                !node.just_completed,
                prev == old(node).runner.elasped.previous,
                now == old(node).runner.elasped.now,
                runner_direction == old(node).runner.direction,
                repeated == spec_repeated(old(node).runner),
                -(TIME_MAX as int) <= prev <= TIME_MAX,
                -(TIME_MAX as int) <= now <= TIME_MAX,
                forall|j: int| 0 <= j < n ==> (#[trigger] base_spans[j]).wf(),
                forall|j: int| 0 <= j < i
                    ==> (#[trigger] node.spans@[j]).span == base_spans[j].span,
                forall|j: int| 0 <= j < i
                    ==> (#[trigger] node.spans@[j]).progress == spec_span_progress_step(
                        base_spans[j].span,
                        base_spans[j].progress,
                        prev,
                        now,
                        runner_direction,
                        repeated,
                    ),
                forall|j: int| 0 <= j < i ==> (#[trigger] node.spans@[j]).wf(),
                forall|j: int| i <= j < n ==> (#[trigger] node.spans@[j]) == base_spans[j],
            decreases n - i,
        {
            let span = node.spans[i].span;
            update_span_progress(
                &span,
                &mut node.spans[i].progress,
                prev,
                now,
                runner_direction,
                repeated,
            );
            i += 1;
        }

        node.runner.collaspe_elasped();
        node.just_completed = node.runner.is_completed();
    }
}

/// Run the dispatch pass over every runner: for each node in order, the
/// per-node dispatch of [`dispatch_node`].
pub fn time_runner_system(nodes: &mut Vec<RunnerNode>)
    requires
        forall|i: int| 0 <= i < old(nodes)@.len() ==> (#[trigger] old(nodes)@[i]).wf(),
    ensures
        final(nodes)@.len() == old(nodes)@.len(),
        forall|i: int| 0 <= i < old(nodes)@.len() ==> {
            let n = #[trigger] final(nodes)@[i];
            let o = old(nodes)@[i];
            &&& n.id == o.id
            &&& n.skip == o.skip
            &&& !n.skip_added
            &&& n.runner == spec_node_runner_after(o)
            &&& n.just_completed == (spec_node_processed(o)
                && o.runner.spec_collapse().spec_is_completed())
            &&& n.spans@.len() == o.spans@.len()
            &&& forall|j: int| 0 <= j < o.spans@.len()
                ==> (#[trigger] n.spans@[j]).span == o.spans@[j].span
            &&& forall|j: int| 0 <= j < o.spans@.len()
                ==> (#[trigger] n.spans@[j]).progress == spec_node_span_progress(o, j)
            &&& n.wf()
        },
{
    let n = nodes.len();
    let mut i: usize = 0;
    while i < n
        invariant
            0 <= i <= n,
            n == nodes@.len(),
            nodes@.len() == old(nodes)@.len(),
            forall|k: int| i <= k < n ==> (#[trigger] nodes@[k]) == old(nodes)@[k],
            forall|k: int| 0 <= k < n ==> (#[trigger] old(nodes)@[k]).wf(),
            forall|k: int| 0 <= k < i ==> {
                let nn = #[trigger] nodes@[k];
                let o = old(nodes)@[k];
                &&& nn.id == o.id
                &&& nn.skip == o.skip
                &&& !nn.skip_added
                &&& nn.runner == spec_node_runner_after(o)
                &&& nn.just_completed == (spec_node_processed(o)
                    && o.runner.spec_collapse().spec_is_completed())
                &&& nn.spans@.len() == o.spans@.len()
                &&& forall|j: int| 0 <= j < o.spans@.len()
                    ==> (#[trigger] nn.spans@[j]).span == o.spans@[j].span
                &&& forall|j: int| 0 <= j < o.spans@.len()
                    ==> (#[trigger] nn.spans@[j]).progress == spec_node_span_progress(o, j)
                &&& nn.wf()
            },
        decreases n - i,
    {
        dispatch_node(&mut nodes[i]);
        i += 1;
    }
}

/// A notice that a time runner finished a pass over its timeline this
/// frame: it reached the terminal edge for its direction-and-style
/// combination.
#[derive(Debug, Clone, Copy, PartialEq, Eq)]
pub struct TimeRunnerEnded {
    /// The host's identity for the runner that just ended.
    pub time_runner: u64,
    /// The runner's direction after the tick; for ping-pong, the already
    /// flipped direction.
    pub current_direction: TimeDirection,
    /// The repeat the runner had, after this tick's accounting.
    pub with_repeat: Option<Repeat>,
}

impl TimeRunnerEnded {
    /// The run that ended was the last one: no repeat, or the repeat is
    /// exhausted.
    pub open spec fn spec_is_completed(self) -> bool {
        match self.with_repeat {
            Some(repeat) => repeat.spec_exhausted(),
            None => true,
        }
    }

    /// Returns true if the time runner is completed: there will be no more
    /// ticking and all configured repeat is exhausted.
    pub fn is_completed(&self) -> (r: bool)
        ensures
            r == self.spec_is_completed(),
    {
        match &self.with_repeat {
            Some(repeat) => repeat.exhausted(),
            None => true,
        }
    }
}

/// Whether a runner, already ticked, emits an end-of-run notice: its
/// unclamped period coordinate entered the terminal half-plane for its
/// direction-and-style combination. For ping-pong the direction has already
/// flipped, so the half-planes trade places.
pub open spec fn spec_ended_after_tick(r: TimeRunner) -> bool {
    let np = r.elasped.now_period;
    match r.repeat {
        Some((_, RepeatStyle::PingPong)) => {
            ||| (r.direction is Forward && np.num < 0)
            ||| (r.direction is Backward && np.spec_ge_one())
        },
        _ => {
            ||| (r.direction is Backward && np.num < 0)
            ||| (r.direction is Forward && np.spec_ge_one())
        },
    }
}

/// The notice one node yields from the tick pass, if any: skipped when the
/// runner is paused or completed, otherwise the runner ticks and reports.
pub open spec fn spec_tick_event(n: RunnerNode, delta: int) -> Option<TimeRunnerEnded> {
    if n.runner.paused || n.runner.spec_is_completed() {
        None
    } else {
        let after = n.runner.spec_tick(delta);
        if spec_ended_after_tick(after) {
            Some(
                TimeRunnerEnded {
                    time_runner: n.id,
                    current_direction: after.direction,
                    with_repeat: match after.repeat {
                        Some((repeat, _)) => Some(repeat),
                        None => None,
                    },
                },
            )
        } else {
            None
        }
    }
}

/// The notices the tick pass yields over a sequence of nodes, in order.
pub open spec fn spec_tick_events(nodes: Seq<RunnerNode>, delta: int) -> Seq<TimeRunnerEnded>
    decreases nodes.len(),
{
    if nodes.len() == 0 {
        Seq::<TimeRunnerEnded>::empty()
    } else {
        let rest = spec_tick_events(nodes.drop_last(), delta);
        match spec_tick_event(nodes.last(), delta) {
            Some(e) => rest.push(e),
            None => rest,
        }
    }
}

/// Run the tick pass over every runner: each non-paused, non-completed
/// runner advances by `delta` under its time scale, and the pass returns
/// the end-of-run notices, in node order.
pub fn tick_time_runner_system(nodes: &mut Vec<RunnerNode>, delta: i64) -> (events: Vec<
    TimeRunnerEnded,
>)
    requires
        -(TIME_MAX as int) <= delta <= TIME_MAX,
        forall|i: int| 0 <= i < old(nodes)@.len()
            ==> (#[trigger] old(nodes)@[i]).runner.wf(),
        forall|i: int| 0 <= i < old(nodes)@.len()
            ==> (#[trigger] old(nodes)@[i]).runner.spec_tick_fits(delta as int),
    ensures
        final(nodes)@.len() == old(nodes)@.len(),
        forall|i: int| 0 <= i < old(nodes)@.len() ==> (#[trigger] final(nodes)@[i]) == (
            RunnerNode { runner: old(nodes)@[i].runner.spec_tick(delta as int), ..old(nodes)@[i] }
        ),
        forall|i: int| 0 <= i < old(nodes)@.len()
            ==> (#[trigger] final(nodes)@[i]).runner.wf(),
        events@ == spec_tick_events(old(nodes)@, delta as int),
{
    let mut events: Vec<TimeRunnerEnded> = Vec::new();
    let n = nodes.len();
    let mut i: usize = 0;
    while i < n
        invariant
            0 <= i <= n,
            n == nodes@.len(),
            nodes@.len() == old(nodes)@.len(),
            -(TIME_MAX as int) <= delta <= TIME_MAX,
            forall|k: int| i <= k < n ==> (#[trigger] nodes@[k]) == old(nodes)@[k],
            forall|k: int| 0 <= k < n ==> (#[trigger] old(nodes)@[k]).runner.wf(),
            forall|k: int| 0 <= k < n
                ==> (#[trigger] old(nodes)@[k]).runner.spec_tick_fits(delta as int),
            forall|k: int| 0 <= k < i ==> (#[trigger] nodes@[k]) == (
                RunnerNode {
                    runner: old(nodes)@[k].runner.spec_tick(delta as int),
                    ..old(nodes)@[k]
                }
            ),
            forall|k: int| 0 <= k < i ==> (#[trigger] nodes@[k]).runner.wf(),
            events@ == spec_tick_events(old(nodes)@.take(i as int), delta as int),
        decreases n - i,
    {
        let ghost prefix = old(nodes)@.take(i as int);
        let paused = nodes[i].runner.paused;
        let completed = nodes[i].runner.is_completed();
        if !paused && !completed {
            let scaled = nodes[i].runner.time_scale.apply(delta);
            nodes[i].runner.raw_tick(scaled);

            let ended = {
                let r = &nodes[i].runner;
                let np = r.elasped.now_period;
                let ping_pong = match &r.repeat {
                    Some(p) => p.1 == RepeatStyle::PingPong,
                    None => false,
                };
                if ping_pong {
                    (r.direction == TimeDirection::Forward && np.num < 0)
                        || (r.direction == TimeDirection::Backward && np.ge_one())
                } else {
                    (r.direction == TimeDirection::Backward && np.num < 0)
                        || (r.direction == TimeDirection::Forward && np.ge_one())
                }
            };
            if ended {
                let current_direction = nodes[i].runner.direction;
                let with_repeat = match &nodes[i].runner.repeat {
                    Some(p) => Some(p.0),
                    None => None,
                };
                events.push(
                    TimeRunnerEnded { time_runner: nodes[i].id, current_direction, with_repeat },
                );
            }
        }
        proof {
            assert(old(nodes)@.take(i as int + 1).drop_last() =~= old(nodes)@.take(i as int));
            assert(old(nodes)@.take(i as int + 1).last() == old(nodes)@[i as int]);
        }
        i += 1;
    }
    proof {
        assert(old(nodes)@.take(n as int) =~= old(nodes)@);
    }
    events
}

} // verus!
