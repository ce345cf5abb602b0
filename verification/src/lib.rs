//! A client library for a line-oriented statistics protocol.
//!
//! Typed metric events (counters, timers, gauges, meters, histograms) are
//! turned into immutable wire-format lines of the shape
//! `"{prefix}.{key}:{value}|{suffix}"` and handed to a [`MetricSink`]: the
//! single-method delivery capability that every strategy implements. Sinks
//! compose: a [`BufferingMetricSink`] batches lines into one newline-joined
//! payload, a [`QueuingMetricSink`] decouples producers from delivery
//! through a bounded first-in-first-out queue, a [`NopMetricSink`] discards
//! everything, and a [`RecordingMetricSink`] keeps what it is given so tests
//! can look at it.

mod buffered;
mod format;
mod queuing;
mod sinks;
mod testing;
mod types;

pub use buffered::{
    join_lines, lemma_split_lines_join_lines, split_lines, BufferingMetricSink,
};
pub use format::{i64_to_dec, metric_line, spec_dec, spec_dec_i64, u64_to_dec};
pub use queuing::{is_subseq_of, QueuingMetricSink, WorkerState};
pub use sinks::{MetricSink, NopMetricSink, RecordingMetricSink};
pub use testing::{ServerAction, ServerEvent, TempDir, UnixSocketServer};
pub use types::{
    Counter, Distribution, ErrorKind, Gauge, Histogram, Meter, Metric, MetricError,
    MetricResult, SetMetric, Timer,
};
