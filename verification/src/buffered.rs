//! A decorator that accumulates lines and hands them to the wrapped sink as
//! one newline-joined payload.

use crate::sinks::MetricSink;
use crate::types::MetricResult;
use vstd::prelude::*;
use vstd::string::StringExecFns;

verus! {

/// The newline-join of a sequence of lines: separators between lines, no
/// terminator after the final one.
pub open spec fn join_lines(lines: Seq<Seq<char>>) -> Seq<char>
    decreases lines.len(),
{
    if lines.len() == 0 {
        Seq::empty()
    } else if lines.len() == 1 {
        lines[0]
    } else {
        join_lines(lines.drop_last()) + seq!['\n'] + lines.last()
    }
}

/// Appending a line to a non-empty batch appends one separator and the line
/// to the join.
pub proof fn lemma_join_lines_push(lines: Seq<Seq<char>>, l: Seq<char>)
    requires
        lines.len() > 0,
    ensures
        join_lines(lines.push(l)) == join_lines(lines) + seq!['\n'] + l,
{
    assert(lines.push(l).drop_last() =~= lines);
    assert(lines.push(l).last() == l);
}

/// The position of the last separator in a payload, or a negative value
/// where there is none.
pub open spec fn last_separator(payload: Seq<char>) -> int
    decreases payload.len(),
{
    if payload.len() == 0 {
        -1
    } else if payload.last() == '\n' {
        payload.len() - 1
    } else {
        last_separator(payload.drop_last())
    }
}

/// Cutting a payload at its separators, last first.
pub open spec fn split_lines(payload: Seq<char>) -> Seq<Seq<char>>
    decreases payload.len(),
    via split_lines_decreases
{
    let i = last_separator(payload);
    if i < 0 {
        seq![payload]
    } else {
        split_lines(payload.take(i)) + seq![payload.skip(i + 1)]
    }
}

#[via_fn]
proof fn split_lines_decreases(payload: Seq<char>) {
    lemma_last_separator_in_range(payload);
}

/// The last separator lies inside the payload.
pub proof fn lemma_last_separator_in_range(payload: Seq<char>)
    ensures
        -1 <= last_separator(payload) < payload.len(),
    decreases payload.len(),
{
    if payload.len() > 0 && payload.last() != '\n' {
        lemma_last_separator_in_range(payload.drop_last());
    }
}

/// A payload without separators has no last one.
pub proof fn lemma_last_separator_none(payload: Seq<char>)
    requires
        !payload.contains('\n'),
    ensures
        last_separator(payload) < 0,
    decreases payload.len(),
{
    if payload.len() > 0 {
        assert(payload.last() != '\n');
        lemma_last_separator_none(payload.drop_last());
    }
}

/// After a separator followed only by separator-free text, that separator
/// is the last one.
pub proof fn lemma_last_separator_append(payload: Seq<char>, tail: Seq<char>)
    requires
        !tail.contains('\n'),
    ensures
        last_separator(payload + seq!['\n'] + tail) == payload.len(),
    decreases tail.len(),
{
    let whole = payload + seq!['\n'] + tail;
    if tail.len() == 0 {
        assert(whole.last() == '\n');
    } else {
        assert(whole.last() == tail.last());
        assert(tail.last() != '\n');
        assert(whole.drop_last() =~= payload + seq!['\n'] + tail.drop_last());
        lemma_last_separator_append(payload, tail.drop_last());
    }
}

/// Batching corrupts nothing: where no line holds a separator of its own,
/// the newline-joined payload cuts back into exactly the lines that were
/// batched, in their order. So a payload handed down by a flush determines
/// the batched lines completely, and no partial or interleaved line content
/// can appear inside it.
pub proof fn lemma_split_lines_join_lines(lines: Seq<Seq<char>>)
    requires
        lines.len() > 0,
        forall|i: int| 0 <= i < lines.len() ==> !(#[trigger] lines[i]).contains('\n'),
    ensures
        split_lines(join_lines(lines)) == lines,
    decreases lines.len(),
{
    if lines.len() == 1 {
        lemma_last_separator_none(lines[0]);
        assert(split_lines(join_lines(lines)) =~= lines);
    } else {
        let front = lines.drop_last();
        let whole = join_lines(lines);
        assert(whole == join_lines(front) + seq!['\n'] + lines.last());
        assert(!lines.last().contains('\n'));
        lemma_last_separator_append(join_lines(front), lines.last());
        let i = last_separator(whole);
        assert(i == join_lines(front).len());
        assert(whole.take(i) =~= join_lines(front));
        assert(whole.skip(i + 1) =~= lines.last());
        assert(forall|j: int| 0 <= j < front.len() ==> front[j] == lines[j]);
        lemma_split_lines_join_lines(front);
        assert(split_lines(whole) =~= lines);
    }
}

/// A sink decorator that wraps a transport-capable sink and a buffer of
/// fixed capacity, counted in characters.
///
/// Lines accumulate in the buffer; once a line no longer fits, the current
/// contents are flushed to the wrapped sink as a single newline-joined
/// payload. A single line larger than the whole capacity is passed straight
/// through, never truncated or dropped.
pub struct BufferingMetricSink<S: MetricSink> {
    /// The sink the batched payloads are written to.
    pub wrapped: S,
    /// Largest joined size the buffer may reach, in characters.
    pub cap: usize,
    /// The buffered lines, oldest first.
    pub lines: Vec<String>,
    /// The size of the newline-join of `lines`, kept in step with it.
    pub size: usize,
    /// The lines accepted over this sink's lifetime; ghost only.
    pub history: Ghost<Seq<Seq<char>>>,
}

impl<S: MetricSink> BufferingMetricSink<S> {
    /// The lines currently buffered, oldest first.
    pub open spec fn buffered(&self) -> Seq<Seq<char>> {
        self.lines@.map_values(|s: String| s@)
    }

    /// Whether `l` can join the current buffer contents without overflowing
    /// the capacity.
    pub open spec fn fits(&self, l: Seq<char>) -> bool {
        l.len() <= self.cap && (self.buffered().len() == 0 || join_lines(self.buffered()).len() + 1
            + l.len() <= self.cap)
    }

    /// Whether `l` alone is larger than the whole capacity.
    pub open spec fn oversize(&self, l: Seq<char>) -> bool {
        l.len() > self.cap
    }

    /// Wrap `wrapped`, buffering up to `cap` characters of joined payload.
    pub fn new(wrapped: S, cap: usize) -> (r: Self)
        requires
            wrapped.inv(),
        ensures
            r.inv(),
            r.wrapped == wrapped,
            r.cap == cap,
            r.buffered() == Seq::<Seq<char>>::empty(),
            r.accepted() == Seq::<Seq<char>>::empty(),
    {
        let r = BufferingMetricSink {
            wrapped,
            cap,
            lines: Vec::new(),
            size: 0,
            history: Ghost(Seq::empty()),
        };
        proof {
            assert(r.buffered() =~= Seq::<Seq<char>>::empty());
        }
        r
    }

    /// Build the single payload the current buffer stands for.
    fn join_buffer(&self) -> (r: String)
        ensures
            r@ == join_lines(self.buffered()),
    {
        let mut s = String::new();
        let mut i: usize = 0;
        proof {
            assert(self.buffered().take(0) =~= Seq::<Seq<char>>::empty());
        }
        while i < self.lines.len()
            invariant
                i <= self.lines.len(),
                s@ == join_lines(self.buffered().take(i as int)),
            decreases self.lines.len() - i,
        {
            proof {
                assert(self.buffered().take(i + 1) =~= self.buffered().take(i as int).push(
                    self.lines@[i as int]@,
                ));
                if i > 0 {
                    lemma_join_lines_push(self.buffered().take(i as int), self.lines@[i as int]@);
                }
                reveal_strlit("\n");
                assert("\n"@ =~= seq!['\n']);
            }
            if i > 0 {
                s.append("\n");
            }
            s.append(self.lines[i].as_str());
            i = i + 1;
        }
        proof {
            assert(self.buffered().take(self.lines@.len() as int) =~= self.buffered());
        }
        s
    }

    /// Send the joined buffer contents to the wrapped sink; on success the
    /// buffer is cleared, on failure it is left intact so a later flush can
    /// retry with the same data.
    fn flush_buffer(&mut self) -> (r: MetricResult<usize>)
        requires
            old(self).inv(),
            old(self).buffered().len() > 0,
        ensures
            final(self).inv(),
            final(self).cap == old(self).cap,
            final(self).history == old(self).history,
            r is Ok ==> final(self).wrapped.accepted() == old(self).wrapped.accepted().push(
                join_lines(old(self).buffered()),
            ) && final(self).buffered() == Seq::<Seq<char>>::empty(),
            r is Err ==> final(self).buffered() == old(self).buffered() && final(self).size == old(self).size && final(self).wrapped.accepted() == old(self).wrapped.accepted(),
    {
        let payload = self.join_buffer();
        let r = self.wrapped.emit(payload.as_str());
        match r {
            Ok(n) => {
                self.lines.clear();
                self.size = 0;
                proof {
                    assert(self.buffered() =~= Seq::<Seq<char>>::empty());
                }
                Ok(n)
            },
            Err(e) => Err(e),
        }
    }
}

impl<S: MetricSink> MetricSink for BufferingMetricSink<S> {
    open spec fn inv(&self) -> bool {
        &&& self.wrapped.inv()
        &&& self.size as nat == join_lines(self.buffered()).len()
        &&& self.size <= self.cap
    }

    open spec fn accepted(&self) -> Seq<Seq<char>> {
        self.history@
    }

    open spec fn pending(&self) -> Seq<Seq<char>> {
        self.buffered()
    }

    /// Buffer the line, or flush first when it no longer fits; a line larger
    /// than the whole capacity goes straight through. `Ok(0)` means the line
    /// was only buffered; when a flush or pass-through happened, the wrapped
    /// sink's own result is handed back.
    fn emit(&mut self, metric: &str) -> (r: MetricResult<usize>)
        ensures
            final(self).cap == old(self).cap,
            old(self).fits(metric@) ==> (r matches Ok(n) && n == 0 && final(self).wrapped == old(
                self).wrapped && final(self).buffered() == old(self).buffered().push(metric@)),
            old(self).oversize(metric@) ==> final(self).buffered() == old(self).buffered() && (
            r is Ok ==> final(self).wrapped.accepted() == old(self).wrapped.accepted().push(
                metric@,
            )) && (r is Err ==> final(self).wrapped.accepted() == old(self).wrapped.accepted()),
            !old(self).fits(metric@) && !old(self).oversize(metric@) ==> (r is Ok ==> final(self).wrapped.accepted() == old(self).wrapped.accepted().push(
                join_lines(old(self).buffered()),
            ) && final(self).buffered() == seq![metric@]) && (r is Err ==> final(self).buffered()
                == old(self).buffered() && final(self).wrapped.accepted() == old(self).wrapped.accepted()),
    {
        let llen = metric.unicode_len();
        if llen > self.cap {
            // a single line beyond the whole capacity is sent directly,
            // never truncated or silently dropped
            let r = self.wrapped.emit(metric);
            match r {
                Ok(n) => {
                    proof {
                        self.history@ = self.history@.push(metric@);
                    }
                    Ok(n)
                },
                Err(e) => Err(e),
            }
        } else if self.lines.len() == 0 {
            self.lines.push(String::from_str(metric));
            self.size = llen;
            proof {
                self.history@ = self.history@.push(metric@);
                assert(self.buffered() =~= old(self).buffered().push(metric@));
            }
            Ok(0)
        } else if self.cap - self.size >= 1 && llen <= self.cap - self.size - 1 {
            proof {
                lemma_join_lines_push(self.buffered(), metric@);
            }
            self.lines.push(String::from_str(metric));
            self.size = self.size + 1 + llen;
            proof {
                self.history@ = self.history@.push(metric@);
                assert(self.buffered() =~= old(self).buffered().push(metric@));
            }
            Ok(0)
        } else {
            // the line would overflow the buffer: flush what is there, then
            // start the fresh buffer with this line
            match self.flush_buffer() {
                Ok(n) => {
                    self.lines.push(String::from_str(metric));
                    self.size = llen;
                    proof {
                        self.history@ = self.history@.push(metric@);
                        assert(self.buffered() =~= seq![metric@]);
                    }
                    Ok(n)
                },
                Err(e) => Err(e),
            }
        }
    }

    /// Write the buffer's full contents to the wrapped sink as one payload.
    /// An empty buffer is a no-op success, so repeated flushes send nothing
    /// further; on failure the buffer is kept so the data is not lost.
    fn flush(&mut self) -> (r: MetricResult<()>)
        ensures
            final(self).cap == old(self).cap,
            old(self).buffered().len() == 0 ==> r is Ok && *final(self) == *old(self),
            old(self).buffered().len() > 0 && r is Ok ==> final(self).wrapped.accepted() == old(self).wrapped.accepted().push(join_lines(old(self).buffered())) && final(self).buffered()
                == Seq::<Seq<char>>::empty(),
            r is Err ==> final(self).buffered() == old(self).buffered() && final(self).wrapped.accepted() == old(self).wrapped.accepted(),
    {
        if self.lines.len() == 0 {
            Ok(())
        } else {
            match self.flush_buffer() {
                Ok(_) => Ok(()),
                Err(e) => Err(e),
            }
        }
    }
}

} // verus!
