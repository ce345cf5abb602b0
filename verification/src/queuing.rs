//! A decorator that decouples metric producers from transport latency
//! through a bounded first-in-first-out queue drained by a single worker.

use crate::sinks::MetricSink;
use crate::types::{ErrorKind, MetricError, MetricResult};
use vstd::prelude::*;
use vstd::string::StringExecFns;

verus! {

/// Whether `sub` is `full` with zero or more elements left out, order kept.
pub open spec fn is_subseq_of(sub: Seq<Seq<char>>, full: Seq<Seq<char>>) -> bool
    decreases full.len(),
{
    if sub.len() == 0 {
        true
    } else if full.len() == 0 {
        false
    } else {
        (sub.last() == full.last() && is_subseq_of(sub.drop_last(), full.drop_last()))
            || is_subseq_of(sub, full.drop_last())
    }
}

/// A subsequence never outgrows the sequence it came from.
pub proof fn lemma_subseq_len(sub: Seq<Seq<char>>, full: Seq<Seq<char>>)
    requires
        is_subseq_of(sub, full),
    ensures
        sub.len() <= full.len(),
    decreases full.len(),
{
    if sub.len() == 0 {
    } else if sub.last() == full.last() && is_subseq_of(sub.drop_last(), full.drop_last()) {
        lemma_subseq_len(sub.drop_last(), full.drop_last());
    } else {
        lemma_subseq_len(sub, full.drop_last());
    }
}

/// A subsequence of full length is the whole sequence.
pub proof fn lemma_subseq_full(sub: Seq<Seq<char>>, full: Seq<Seq<char>>)
    requires
        is_subseq_of(sub, full),
        sub.len() == full.len(),
    ensures
        sub == full,
    decreases full.len(),
{
    if sub.len() == 0 {
        assert(sub =~= full);
    } else if sub.last() == full.last() && is_subseq_of(sub.drop_last(), full.drop_last()) {
        lemma_subseq_full(sub.drop_last(), full.drop_last());
        assert forall|i: int| 0 <= i < full.len() implies sub[i] == full[i] by {
            if i < full.len() - 1 {
                assert(sub.drop_last()[i] == full.drop_last()[i]);
            }
        }
        assert(sub =~= full);
    } else {
        lemma_subseq_len(sub, full.drop_last());
    }
}

/// Keeping a shared new last element preserves the subsequence relation.
pub proof fn lemma_subseq_push_both(sub: Seq<Seq<char>>, full: Seq<Seq<char>>, x: Seq<char>)
    requires
        is_subseq_of(sub, full),
    ensures
        is_subseq_of(sub.push(x), full.push(x)),
{
    assert(sub.push(x).last() == x);
    assert(full.push(x).last() == x);
    assert(sub.push(x).drop_last() =~= sub);
    assert(full.push(x).drop_last() =~= full);
}

/// Growing only the full side preserves the subsequence relation.
pub proof fn lemma_subseq_push_full(sub: Seq<Seq<char>>, full: Seq<Seq<char>>, x: Seq<char>)
    requires
        is_subseq_of(sub, full),
    ensures
        is_subseq_of(sub, full.push(x)),
{
    assert(full.push(x).drop_last() =~= full);
}

/// The state of the queue's consumer.
///
/// Shutdown is the only path out of `Running`; `Stopped` is reached only
/// with the queue drained and the wrapped sink flushed.
#[derive(PartialEq, Eq, Debug, Hash, Clone, Copy, Structural)]
pub enum WorkerState {
    Running,
    Draining,
    Stopped,
}

/// A sink decorator owning a bounded first-in-first-out queue of lines and
/// the state of the single consumer that drains it into the wrapped sink.
///
/// `emit` never blocks on the transport: it only enqueues, and on a full
/// queue rejects the line with an `IoError`-kind failure so the caller can
/// observe backpressure rather than lose data silently. Delivery failures
/// met while draining cannot be returned to the producer, who is long gone;
/// they are kept out-of-band in `worker_errors`.
pub struct QueuingMetricSink<S: MetricSink> {
    /// The sink drained lines are delivered to.
    pub wrapped: S,
    /// Most lines the queue will hold at once.
    pub cap: usize,
    /// The queued lines, oldest first.
    pub queue: Vec<String>,
    /// Where the consumer is in its lifecycle.
    pub state: WorkerState,
    /// Delivery failures met while draining, oldest first.
    pub worker_errors: Vec<MetricError>,
    /// The lines accepted over this sink's lifetime; ghost only.
    pub history: Ghost<Seq<Seq<char>>>,
}

impl<S: MetricSink> QueuingMetricSink<S> {
    /// The lines waiting in the queue, oldest first.
    pub open spec fn queued(&self) -> Seq<Seq<char>> {
        self.queue@.map_values(|s: String| s@)
    }

    /// What a finished drain leaves behind: nothing waits any more, what the
    /// wrapped sink accepted beyond its earlier history is the old queue in
    /// its own order with the failed deliveries left out, and where no
    /// delivery failed it is the whole old queue.
    pub open spec fn drained(pre: Self, post: Self) -> bool {
        &&& post.queued().len() == 0
        &&& exists|d: Seq<Seq<char>>|
            is_subseq_of(d, pre.queued()) && post.wrapped.accepted() == pre.wrapped.accepted() + d
        &&& (post.worker_errors@.len() == pre.worker_errors@.len() ==> post.wrapped.accepted()
            == pre.wrapped.accepted() + pre.queued())
    }

    /// Wrap `wrapped` behind a queue holding at most `cap` lines.
    pub fn new(wrapped: S, cap: usize) -> (r: Self)
        requires
            wrapped.inv(),
        ensures
            r.inv(),
            r.wrapped == wrapped,
            r.cap == cap,
            r.state == WorkerState::Running,
            r.queued() == Seq::<Seq<char>>::empty(),
            r.worker_errors@ == Seq::<MetricError>::empty(),
            r.accepted() == Seq::<Seq<char>>::empty(),
    {
        let r = QueuingMetricSink {
            wrapped,
            cap,
            queue: Vec::new(),
            state: WorkerState::Running,
            worker_errors: Vec::new(),
            history: Ghost(Seq::empty()),
        };
        proof {
            assert(r.queued() =~= Seq::<Seq<char>>::empty());
        }
        r
    }

    /// One step of the consumer: take the oldest queued line and hand it to
    /// the wrapped sink; a delivery failure is recorded out-of-band, never
    /// returned to the producer and never dropped silently. Returns whether
    /// there was a line to deliver.
    pub fn process_next(&mut self) -> (r: bool)
        requires
            old(self).inv(),
        ensures
            final(self).inv(),
            final(self).cap == old(self).cap,
            final(self).state == old(self).state,
            final(self).history == old(self).history,
            r == (old(self).queued().len() > 0),
            old(self).queued().len() == 0 ==> *final(self) == *old(self),
            old(self).queued().len() > 0 ==> final(self).queued() == old(self).queued().skip(1)
                && (final(self).worker_errors@ == old(self).worker_errors@ && final(self).wrapped.accepted() == old(self).wrapped.accepted().push(old(self).queued()[0])
                || final(self).worker_errors@.len() == old(self).worker_errors@.len() + 1 && final(self).wrapped.accepted() == old(self).wrapped.accepted()),
    {
        if self.queue.len() == 0 {
            return false;
        }
        let line = self.queue.remove(0);
        proof {
            assert(self.queued() =~= old(self).queued().skip(1));
            assert(line@ == old(self).queued()[0]);
        }
        match self.wrapped.emit(line.as_str()) {
            Ok(_) => {},
            Err(e) => {
                self.worker_errors.push(e);
            },
        }
        true
    }

    /// Drain the queue to empty, delivering the lines oldest first.
    ///
    /// What reaches the wrapped sink is the queue in its own order with the
    /// failed deliveries left out; when nothing failed, that is the whole
    /// queue, in order.
    pub fn drain_queue(&mut self)
        requires
            old(self).inv(),
        ensures
            final(self).inv(),
            final(self).cap == old(self).cap,
            final(self).state == old(self).state,
            final(self).history == old(self).history,
            Self::drained(*old(self), *final(self)),
    {
        let ghost q0 = self.queued();
        let ghost a0 = self.wrapped.accepted();
        let ghost e0 = self.worker_errors@.len();
        let ghost mut delivered: Seq<Seq<char>> = Seq::empty();
        let ghost mut processed: Seq<Seq<char>> = Seq::empty();
        proof {
            assert(a0 + delivered =~= a0);
        }
        while self.queue.len() > 0
            invariant
                self.inv(),
                self.cap == old(self).cap,
                self.state == old(self).state,
                self.history == old(self).history,
                q0 =~= processed + self.queued(),
                is_subseq_of(delivered, processed),
                self.wrapped.accepted() == a0 + delivered,
                self.worker_errors@.len() == e0 + processed.len() - delivered.len(),
                delivered.len() <= processed.len(),
            decreases self.queue.len(),
        {
            let ghost prev_q = self.queued();
            let ghost prev_acc = self.wrapped.accepted();
            let ghost prev_errs = self.worker_errors@;
            let ghost head = self.queued()[0];
            self.process_next();
            proof {
                if self.worker_errors@ == prev_errs {
                    lemma_subseq_push_both(delivered, processed, head);
                    delivered = delivered.push(head);
                    assert(self.wrapped.accepted() =~= a0 + delivered);
                } else {
                    lemma_subseq_push_full(delivered, processed, head);
                }
                processed = processed.push(head);
                assert(q0 =~= processed + self.queued());
            }
        }
        proof {
            assert(q0 =~= processed);
            if self.worker_errors@.len() == e0 {
                lemma_subseq_full(delivered, processed);
            }
        }
    }

    /// Stop the sink: no line emitted after this call is accepted. The
    /// remaining queue is drained, the wrapped sink gets a final flush, and
    /// only then is the consumer stopped. Calling it again on a stopped
    /// sink changes nothing and succeeds.
    pub fn shutdown(&mut self) -> (r: MetricResult<()>)
        requires
            old(self).inv(),
        ensures
            final(self).inv(),
            final(self).cap == old(self).cap,
            final(self).history == old(self).history,
            final(self).state == WorkerState::Stopped,
            old(self).state == WorkerState::Stopped ==> *final(self) == *old(self) && r is Ok,
            old(self).state != WorkerState::Stopped ==> Self::drained(*old(self), *final(self)) && (
            r is Ok ==> final(self).wrapped.pending() == Seq::<Seq<char>>::empty()),
    {
        if self.state == WorkerState::Stopped {
            return Ok(());
        }
        self.state = WorkerState::Draining;
        self.drain_queue();
        let r = self.wrapped.flush();
        self.state = WorkerState::Stopped;
        r
    }
}

impl<S: MetricSink> MetricSink for QueuingMetricSink<S> {
    open spec fn inv(&self) -> bool {
        &&& self.wrapped.inv()
        &&& self.queued().len() <= self.cap
    }

    open spec fn accepted(&self) -> Seq<Seq<char>> {
        self.history@
    }

    open spec fn pending(&self) -> Seq<Seq<char>> {
        self.queued()
    }

    /// Enqueue the line without waiting on the transport. A full queue
    /// rejects it with an `IoError`-kind failure; after shutdown has begun
    /// every line fails fast the same way.
    fn emit(&mut self, metric: &str) -> (r: MetricResult<usize>)
        ensures
            final(self).cap == old(self).cap,
            final(self).state == old(self).state,
            final(self).wrapped == old(self).wrapped,
            final(self).worker_errors == old(self).worker_errors,
            old(self).state != WorkerState::Running ==> (r matches Err(e) && e.kind_spec()
                == ErrorKind::IoError && e.description_spec() == "emit on a closed queuing sink"@
                && *final(self) == *old(self)),
            old(self).state == WorkerState::Running && old(self).queued().len() >= old(self).cap
                ==> (r matches Err(e) && e.kind_spec() == ErrorKind::IoError
                && e.description_spec() == "bounded queue at capacity"@ && *final(self)
                == *old(self)),
            old(self).state == WorkerState::Running && old(self).queued().len() < old(self).cap
                ==> (r matches Ok(n) && n == 0 && final(self).queued() == old(self).queued().push(metric@)),
    {
        if !(self.state == WorkerState::Running) {
            return Err(MetricError::from((ErrorKind::IoError, "emit on a closed queuing sink")));
        }
        if self.queue.len() >= self.cap {
            return Err(MetricError::from((ErrorKind::IoError, "bounded queue at capacity")));
        }
        self.queue.push(String::from_str(metric));
        proof {
            self.history@ = self.history@.push(metric@);
            assert(self.queued() =~= old(self).queued().push(metric@));
        }
        Ok(0)
    }

    /// Drain the queue into the wrapped sink, then flush the wrapped sink
    /// itself, so everything this layer held has moved down on success.
    fn flush(&mut self) -> (r: MetricResult<()>)
        ensures
            final(self).cap == old(self).cap,
            final(self).state == old(self).state,
            Self::drained(*old(self), *final(self)),
            r is Ok ==> final(self).wrapped.pending() == Seq::<Seq<char>>::empty(),
    {
        self.drain_queue();
        self.wrapped.flush()
    }
}

} // verus!
