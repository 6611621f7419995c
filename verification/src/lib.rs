//! A general-purpose time driver: a `TimeRunner` advances a bounded timeline
//! by signed deltas, normalizes wrap-around and ping-pong repetition, and a
//! dispatch pass projects the traversed `(previous, now)` window onto child
//! `TimeSpan`s as `TimeSpanProgress` records.
//!
//! All times are integer time units (the host chooses the granularity, for
//! example microseconds). Fractional quantities such as period coordinates
//! and span percentages are kept as exact fractions ([`Frac`]) so that every
//! published value is exact.

pub mod frac;
pub mod time_span;
pub mod time_runner;
pub mod laws;
pub mod dispatch;

pub use frac::Frac;
pub use frac::TIME_MAX;
pub use time_span::TimeBound;
pub use time_span::NewTimeSpanError;
pub use time_span::TimeSpan;
pub use time_span::DurationQuotient;
pub use time_span::TimeDirection;
pub use time_span::Percentage;
pub use time_span::TimeSpanProgress;
pub use time_runner::TimeRunnerElasped;
pub use time_runner::TimeRunner;
pub use time_runner::Repeat;
pub use time_runner::RepeatStyle;
pub use time_runner::TimeScale;
pub use laws::lemma_raw_tick_bounds;
pub use laws::lemma_completed_is_stable;
pub use laws::lemma_collapse_idempotent;
pub use laws::lemma_wrap_around_full_period;
pub use laws::lemma_ping_pong_double_period;
pub use laws::lemma_forward_backward_round_trip;
pub use laws::lemma_times_exhaust;
pub use dispatch::UseTime;
pub use dispatch::SpanNode;
pub use dispatch::RunnerNode;
pub use dispatch::TimeRunnerEnded;
pub use dispatch::span_in_range;
pub use dispatch::update_span_progress;
pub use dispatch::dispatch_node;
pub use dispatch::tick_time_runner_system;
pub use dispatch::time_runner_system;
