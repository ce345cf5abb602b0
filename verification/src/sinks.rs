//! The delivery capability all sink strategies implement, the sink that
//! discards everything, and the sink that records everything.

use crate::types::MetricResult;
use vstd::prelude::*;

verus! {

/// A backend that accepts wire-format metric lines and attempts delivery.
///
/// The line is in the canonical format, without a trailing newline. A sink
/// may return `Ok(0)` from [`MetricSink::emit`] when the line was accepted
/// but not yet physically transmitted (buffered or queued); callers must not
/// read a zero-byte success as a failure.
///
/// The two spec functions model what a caller can observe: `accepted` is the
/// whole history of lines this sink has taken in, oldest first, and `pending`
/// is the part of that history this layer still holds back from the layer
/// below it.
pub trait MetricSink: Sized {
    /// The well-formedness this sink maintains between calls.
    open spec fn inv(&self) -> bool {
        true
    }

    /// Every line this sink has accepted over its lifetime, oldest first.
    /// An implementation that keeps the default, empty model can never
    /// report a successful emit; every real strategy defines its own.
    open spec fn accepted(&self) -> Seq<Seq<char>> {
        Seq::empty()
    }

    /// Lines accepted but still held in this layer (buffered or queued).
    open spec fn pending(&self) -> Seq<Seq<char>> {
        Seq::empty()
    }

    /// Attempt to deliver one formatted line, returning the number of bytes
    /// written. `Ok(0)` means accepted but not yet transmitted.
    fn emit(&mut self, metric: &str) -> (r: MetricResult<usize>)
        requires
            old(self).inv(),
        ensures
            final(self).inv(),
            r is Ok ==> final(self).accepted() == old(self).accepted().push(metric@),
            r is Err ==> final(self).accepted() == old(self).accepted(),
    ;

    /// Force anything this layer holds back out to the next layer down. A
    /// sink that holds nothing back succeeds without doing anything.
    fn flush(&mut self) -> (r: MetricResult<()>)
        requires
            old(self).inv(),
        ensures
            final(self).inv(),
            final(self).accepted() == old(self).accepted(),
            r is Ok ==> final(self).pending() == Seq::<Seq<char>>::empty(),
    ;
}

/// A sink that discards every metric it is given.
///
/// Useful for disabling metric collection or unit tests. `emit` always
/// succeeds with zero bytes written and has no observable effect.
#[derive(Clone)]
pub struct NopMetricSink {
    /// The lines taken in so far; ghost only, nothing is stored at runtime.
    pub history: Ghost<Seq<Seq<char>>>,
}

impl NopMetricSink {
    pub fn new() -> (r: NopMetricSink)
        ensures
            r.inv(),
            r.accepted() == Seq::<Seq<char>>::empty(),
    {
        NopMetricSink { history: Ghost(Seq::empty()) }
    }
}

impl MetricSink for NopMetricSink {
    open spec fn inv(&self) -> bool {
        true
    }

    open spec fn accepted(&self) -> Seq<Seq<char>> {
        self.history@
    }

    open spec fn pending(&self) -> Seq<Seq<char>> {
        Seq::empty()
    }

    fn emit(&mut self, metric: &str) -> (r: MetricResult<usize>)
        ensures
            r matches Ok(n) && n == 0,
    {
        proof {
            self.history@ = self.history@.push(metric@);
        }
        Ok(0)
    }

    fn flush(&mut self) -> (r: MetricResult<()>)
        ensures
            r is Ok,
            *final(self) == *old(self),
    {
        Ok(())
    }
}

/// A sink that keeps every payload it is given, so a test can look at what
/// a decorator wrote to the layer below it.
pub struct RecordingMetricSink {
    /// The payloads received, oldest first.
    pub received: Vec<String>,
}

impl RecordingMetricSink {
    pub fn new() -> (r: RecordingMetricSink)
        ensures
            r.inv(),
            r.accepted() == Seq::<Seq<char>>::empty(),
    {
        let r = RecordingMetricSink { received: Vec::new() };
        proof {
            assert(r.accepted() =~= Seq::<Seq<char>>::empty());
        }
        r
    }
}

impl MetricSink for RecordingMetricSink {
    open spec fn inv(&self) -> bool {
        true
    }

    open spec fn accepted(&self) -> Seq<Seq<char>> {
        self.received@.map_values(|s: String| s@)
    }

    open spec fn pending(&self) -> Seq<Seq<char>> {
        Seq::empty()
    }

    /// Record the payload and report its whole length, in characters, as
    /// written.
    fn emit(&mut self, metric: &str) -> (r: MetricResult<usize>)
        ensures
            r matches Ok(n) && n == metric@.len(),
    {
        let n = metric.unicode_len();
        self.received.push(String::from_str(metric));
        proof {
            assert(self.accepted() =~= old(self).accepted().push(metric@));
        }
        Ok(n)
    }

    fn flush(&mut self) -> (r: MetricResult<()>)
        ensures
            r is Ok,
            *final(self) == *old(self),
    {
        Ok(())
    }
}

} // verus!
