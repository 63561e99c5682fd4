//! Source spans and how they are joined.

use vstd::prelude::*;

verus! {

/// A range of source positions: it starts at `start` and ends at `end`.
#[derive(Clone, Copy, Debug, PartialEq, Eq, Structural)]
pub struct Span {
    pub start: usize,
    pub end: usize,
}

impl Span {
    /// The smallest span that covers both `self` and `other`.
    pub open spec fn spec_join(self, other: Span) -> Span {
        Span {
            start: if self.start <= other.start {
                self.start
            } else {
                other.start
            },
            end: if self.end >= other.end {
                self.end
            } else {
                other.end
            },
        }
    }

    /// Whether `self` neither starts nor ends after `other` does.
    pub open spec fn precedes(self, other: Span) -> bool {
        self.start <= other.start && self.end <= other.end
    }

    /// Joins two spans into the smallest span that covers both.
    #[verifier::when_used_as_spec(spec_join)]
    pub fn join(self, other: Span) -> (joined: Span)
        ensures
            joined == self.spec_join(other),
    {
        Span {
            start: if self.start <= other.start {
                self.start
            } else {
                other.start
            },
            end: if self.end >= other.end {
                self.end
            } else {
                other.end
            },
        }
    }
}

/// The span of a run of tokens, folded from the left: the first span seeds
/// the result and every later span is joined in.
pub open spec fn covering(spans: Seq<Span>) -> Span
    recommends
        spans.len() > 0,
    decreases spans.len(),
{
    if spans.len() <= 1 {
        spans[0]
    } else {
        covering(spans.drop_last()).spec_join(spans.last())
    }
}

/// Joining is associative.
pub proof fn lemma_join_associative(a: Span, b: Span, c: Span)
    ensures
        a.spec_join(b).spec_join(c) == a.spec_join(b.spec_join(c)),
{
}

/// Joining keeps the order: an earlier span joined with a later one starts
/// where the earlier starts and ends where the later ends.
pub proof fn lemma_join_ordered(a: Span, b: Span)
    requires
        a.precedes(b),
    ensures
        a.spec_join(b) == (Span { start: a.start, end: b.end }),
{
}

/// The fold over a run covers every span of the run, and both of its ends
/// are ends of spans in the run.
pub proof fn lemma_covering_bounds(spans: Seq<Span>)
    requires
        spans.len() > 0,
    ensures
        forall|i: int|
            0 <= i < spans.len() ==> covering(spans).start <= (#[trigger] spans[i]).start
                && spans[i].end <= covering(spans).end,
        exists|i: int| 0 <= i < spans.len() && (#[trigger] spans[i]).start == covering(spans).start,
        exists|i: int| 0 <= i < spans.len() && (#[trigger] spans[i]).end == covering(spans).end,
    decreases spans.len(),
{
    if spans.len() > 1 {
        let front = spans.drop_last();
        lemma_covering_bounds(front);
        let lo = choose|i: int| 0 <= i < front.len() && (#[trigger] front[i]).start == covering(front).start;
        let hi = choose|i: int| 0 <= i < front.len() && (#[trigger] front[i]).end == covering(front).end;
        let n = spans.len() - 1;
        assert(spans[lo] == front[lo] && spans[hi] == front[hi]);
        assert forall|i: int| 0 <= i < spans.len() implies covering(spans).start <= (
        #[trigger] spans[i]).start && spans[i].end <= covering(spans).end by {
            if i < n {
                assert(spans[i] == front[i]);
            }
        }
        if spans[n].start < covering(front).start {
            assert(spans[n].start == covering(spans).start);
        } else {
            assert(spans[lo].start == covering(spans).start);
        }
        if spans[n].end > covering(front).end {
            assert(spans[n].end == covering(spans).end);
        } else {
            assert(spans[hi].end == covering(spans).end);
        }
    } else {
        assert(spans[0].start == covering(spans).start);
        assert(spans[0].end == covering(spans).end);
    }
}

/// Over a run whose spans come in source order, the fold reaches from the
/// start of the first span to the end of the last.
pub proof fn lemma_covering_ordered(spans: Seq<Span>)
    requires
        spans.len() > 0,
        forall|i: int, j: int| 0 <= i <= j < spans.len() ==> spans[i].precedes(spans[j]),
    ensures
        covering(spans) == (Span { start: spans[0].start, end: spans.last().end }),
    decreases spans.len(),
{
    if spans.len() > 1 {
        let front = spans.drop_last();
        assert forall|i: int, j: int| 0 <= i <= j < front.len() implies front[i].precedes(
            front[j],
        ) by {
            assert(front[i] == spans[i] && front[j] == spans[j]);
        }
        lemma_covering_ordered(front);
        assert(front[0] == spans[0]);
        assert(front.last() == spans[spans.len() - 2]);
        assert(spans[0].precedes(spans.last()));
        assert(spans[spans.len() - 2].precedes(spans.last()));
    }
}

} // verus!
