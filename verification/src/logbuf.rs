//! The bounded FIFO ring buffer that keeps the most recent worker log
//! lines.  Appending to a full buffer evicts the oldest entry.

use vstd::prelude::*;

verus! {

/// One append under ring eviction: if the buffer has room the line goes on
/// the end, otherwise the oldest entry is dropped to make room for it.
pub open spec fn ring_push(s: Seq<Seq<char>>, x: Seq<char>, cap: int) -> Seq<Seq<char>> {
    if s.len() < cap {
        s.push(x)
    } else {
        s.subrange(1, s.len() as int).push(x)
    }
}

/// The buffer contents after appending `lines` in order to an empty
/// capacity-`cap` buffer.
pub open spec fn ring_of(lines: Seq<Seq<char>>, cap: int) -> Seq<Seq<char>>
    decreases lines.len(),
{
    if lines.len() == 0 {
        Seq::empty()
    } else {
        ring_push(ring_of(lines.drop_last(), cap), lines.last(), cap)
    }
}

/// Law: the ring buffer holds exactly the most recent lines, in the order
/// they were appended, and never more than `cap` of them.
pub proof fn lemma_ring_of_recent(lines: Seq<Seq<char>>, cap: int)
    requires
        cap >= 1,
    ensures
        ring_of(lines, cap) =~= lines.subrange(
            if lines.len() <= cap { 0 } else { lines.len() - cap },
            lines.len() as int,
        ),
    decreases lines.len(),
{
    if lines.len() > 0 {
        lemma_ring_of_recent(lines.drop_last(), cap);
    }
}

/// Law: after `cap + 1` appends to a capacity-`cap` buffer, the oldest
/// line is absent and the `cap` most recent stand in order.
pub proof fn lemma_ring_eviction(lines: Seq<Seq<char>>, cap: int)
    requires
        cap >= 1,
        lines.len() == cap + 1,
    ensures
        ring_of(lines, cap) =~= lines.subrange(1, lines.len() as int),
{
    lemma_ring_of_recent(lines, cap);
}

/// A bounded FIFO buffer of log lines.
pub struct LogBuffer {
    pub entries: Vec<String>,
    pub cap: usize,
}

impl LogBuffer {
    /// The lines currently held, oldest first.
    pub open spec fn model(self) -> Seq<Seq<char>> {
        self.entries.deep_view()
    }

    /// The buffer never outgrows its capacity.
    pub open spec fn wf(self) -> bool {
        self.entries@.len() <= self.cap && self.cap >= 1
    }

    pub fn with_capacity(cap: usize) -> (r: LogBuffer)
        requires
            cap >= 1,
        ensures
            r.wf(),
            r.cap == cap,
            r.model() =~= Seq::<Seq<char>>::empty(),
    {
        LogBuffer { entries: Vec::new(), cap }
    }

    /// Append a line, evicting the oldest entry when full.
    pub fn push(&mut self, line: String)
        requires
            old(self).wf(),
        ensures
            final(self).wf(),
            final(self).cap == old(self).cap,
            final(self).model() =~= ring_push(old(self).model(), line@, old(self).cap as int),
    {
        if self.entries.len() >= self.cap {
            self.entries.remove(0);
            proof {
                assert(self.entries.deep_view() =~= old(self).model().subrange(
                    1,
                    old(self).model().len() as int,
                ));
            }
        }
        self.entries.push(line);
    }

    /// A snapshot of the held lines, oldest first.
    pub fn snapshot(&self) -> (r: Vec<String>)
        ensures
            r.deep_view() =~= self.model(),
    {
        let mut out: Vec<String> = Vec::new();
        let mut i: usize = 0;
        while i < self.entries.len()
            invariant
                i <= self.entries@.len(),
                out@.len() == i,
                forall|k: int| 0 <= k < i ==> out.deep_view()[k] == self.model()[k],
            decreases self.entries@.len() - i,
        {
            let line = self.entries[i].clone();
            out.push(line);
            i += 1;
        }
        out
    }

    /// Drop every held line.
    pub fn clear(&mut self)
        requires
            old(self).wf(),
        ensures
            final(self).wf(),
            final(self).cap == old(self).cap,
            final(self).model() =~= Seq::<Seq<char>>::empty(),
    {
        self.entries = Vec::new();
    }

    pub fn len(&self) -> (r: usize)
        ensures
            r == self.model().len(),
    {
        self.entries.len()
    }
}

} // verus!
