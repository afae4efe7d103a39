//! The shared stream model: the four-way poll outcome, the two-state
//! adapter lifecycle, and the laws every adapter run obeys.

use vstd::prelude::*;

verus! {

/// One outcome of polling a chunk-producing stream: no data ready yet (the
/// caller is woken later), one chunk of data, a failure for this poll, or
/// exhaustion.
pub enum StreamResult<C, E> {
    Pending,
    Item(C),
    ItemError(E),
    End,
}

/// The lifecycle of an adapter: it forwards results while `Active` and
/// latches into `Ended` once the inner stream reports exhaustion. There is
/// no transition out of `Ended`.
#[derive(Clone, Copy)]
pub enum AdapterState {
    Active,
    Ended,
}

impl AdapterState {
    /// Whether this is the terminal state.
    pub open spec fn is_ended(self) -> bool {
        self is Ended
    }
}

/// The adapter state after one poll: `Ended` latches, and an `End` result
/// from the inner stream moves an active adapter to `Ended`. Every other
/// result, a failed poll included, leaves the adapter `Active`.
pub open spec fn next_ended<C, E>(ended: bool, inner: StreamResult<C, E>) -> bool {
    ended || inner is End
}

/// What one poll of an adapter must produce. `ended_before` and
/// `ended_after` are the adapter's state around the poll, `inner` is the
/// wrapped stream's result for this poll, `out` is the result the adapter
/// hands out, and `rel` relates an inner error value to the error value the
/// adapter yields for it. An adapter that has already ended yields `End`
/// without consulting the inner stream; an active adapter propagates
/// `Pending` unchanged, passes a chunk through unchanged, yields a related
/// error for an error, and propagates `End`.
pub open spec fn valid_step<C, E1, E2>(
    ended_before: bool,
    inner: StreamResult<C, E1>,
    ended_after: bool,
    out: StreamResult<C, E2>,
    rel: spec_fn(E1, E2) -> bool,
) -> bool {
    if ended_before {
        ended_after && out is End
    } else {
        &&& ended_after == next_ended(false, inner)
        &&& match inner {
            StreamResult::Pending => out is Pending,
            StreamResult::Item(c) => out == StreamResult::<C, E2>::Item(c),
            StreamResult::ItemError(e) => out matches StreamResult::ItemError(e2) && rel(e, e2),
            StreamResult::End => out is End,
        }
    }
}

/// A whole adapter run from a given state: `out` is a sequence of poll
/// results the adapter may hand out, poll by poll, for the inner results
/// `inner`, with the state latching through `next_ended` at each step.
pub open spec fn valid_run_from<C, E1, E2>(
    ended: bool,
    inner: Seq<StreamResult<C, E1>>,
    out: Seq<StreamResult<C, E2>>,
    rel: spec_fn(E1, E2) -> bool,
) -> bool
    decreases inner.len(),
{
    &&& out.len() == inner.len()
    &&& inner.len() > 0 ==> {
        &&& valid_step(ended, inner[0], next_ended(ended, inner[0]), out[0], rel)
        &&& valid_run_from(next_ended(ended, inner[0]), inner.skip(1), out.skip(1), rel)
    }
}

/// A whole adapter run from the initial `Active` state.
pub open spec fn valid_run<C, E1, E2>(
    inner: Seq<StreamResult<C, E1>>,
    out: Seq<StreamResult<C, E2>>,
    rel: spec_fn(E1, E2) -> bool,
) -> bool {
    valid_run_from(false, inner, out, rel)
}

/// The chunks of the successful items of a poll history, in order.
pub open spec fn item_chunks<C, E>(s: Seq<StreamResult<C, E>>) -> Seq<C>
    decreases s.len(),
{
    if s.len() == 0 {
        Seq::empty()
    } else {
        match s[0] {
            StreamResult::Item(c) => seq![c] + item_chunks(s.skip(1)),
            _ => item_chunks(s.skip(1)),
        }
    }
}

/// Holds when `End` occurs only as the final element: the shape of the
/// history an inner stream actually produces, since a driver does not poll
/// a stream past exhaustion.
pub open spec fn end_only_terminal<C, E>(s: Seq<StreamResult<C, E>>) -> bool {
    forall|i: int| 0 <= i < s.len() && #[trigger] s[i] is End ==> i == s.len() - 1
}

/// Chunk preservation: over any adapter run on an inner history whose
/// `End`, if any, is terminal, the adapter yields exactly the chunks the
/// inner stream produced — same order, no duplication, no drops.
pub proof fn lemma_chunks_preserved<C, E1, E2>(
    inner: Seq<StreamResult<C, E1>>,
    out: Seq<StreamResult<C, E2>>,
    rel: spec_fn(E1, E2) -> bool,
)
    requires
        valid_run(inner, out, rel),
        end_only_terminal(inner),
    ensures
        item_chunks(out) == item_chunks(inner),
    decreases inner.len(),
{
    if inner.len() > 0 {
        if inner[0] is End {
            assert(inner.len() == 1);
            assert(out.len() == 1);
            assert(out[0] is End);
            assert(item_chunks(out.skip(1)) =~= Seq::<C>::empty());
            assert(item_chunks(inner.skip(1)) =~= Seq::<C>::empty());
            assert(item_chunks(out) =~= item_chunks(inner));
        } else {
            assert(end_only_terminal(inner.skip(1))) by {
                assert forall|i: int|
                    0 <= i < inner.skip(1).len() && #[trigger] inner.skip(1)[i] is End
                        implies i == inner.skip(1).len() - 1 by {
                    assert(inner.skip(1)[i] == inner[i + 1]);
                }
            }
            lemma_chunks_preserved(inner.skip(1), out.skip(1), rel);
            match inner[0] {
                StreamResult::Item(c) => {
                    assert(out[0] == StreamResult::<C, E2>::Item(c));
                    assert(item_chunks(out) =~= item_chunks(inner));
                },
                _ => {
                    assert(!(out[0] is Item));
                    assert(item_chunks(out) =~= item_chunks(inner));
                },
            }
        }
    } else {
        assert(item_chunks(out) =~= item_chunks(inner));
    }
}

/// From the terminal state every poll of a run yields `End`.
proof fn lemma_run_after_end<C, E1, E2>(
    inner: Seq<StreamResult<C, E1>>,
    out: Seq<StreamResult<C, E2>>,
    rel: spec_fn(E1, E2) -> bool,
)
    requires
        valid_run_from(true, inner, out, rel),
    ensures
        forall|k: int| 0 <= k < out.len() ==> #[trigger] out[k] is End,
    decreases inner.len(),
{
    if inner.len() > 0 {
        lemma_run_after_end(inner.skip(1), out.skip(1), rel);
        assert forall|k: int| 0 <= k < out.len() implies #[trigger] out[k] is End by {
            if k > 0 {
                assert(out.skip(1)[k - 1] is End);
            }
        }
    }
}

/// Idempotent exhaustion: in any adapter run, once some poll yields `End`,
/// every later poll yields `End` as well — the adapter never resumes
/// producing items and never errors after exhaustion.
pub proof fn lemma_end_is_terminal<C, E1, E2>(
    inner: Seq<StreamResult<C, E1>>,
    out: Seq<StreamResult<C, E2>>,
    rel: spec_fn(E1, E2) -> bool,
    i: int,
    j: int,
)
    requires
        valid_run(inner, out, rel),
        0 <= i <= j < out.len(),
        out[i] is End,
    ensures
        out[j] is End,
{
    lemma_end_is_terminal_from(false, inner, out, rel, i, j);
}

proof fn lemma_end_is_terminal_from<C, E1, E2>(
    ended: bool,
    inner: Seq<StreamResult<C, E1>>,
    out: Seq<StreamResult<C, E2>>,
    rel: spec_fn(E1, E2) -> bool,
    i: int,
    j: int,
)
    requires
        valid_run_from(ended, inner, out, rel),
        0 <= i <= j < out.len(),
        out[i] is End,
    ensures
        out[j] is End,
    decreases i,
{
    if i == 0 {
        if j == 0 {
        } else {
            assert(next_ended(ended, inner[0]));
            lemma_run_after_end(inner.skip(1), out.skip(1), rel);
            assert(out.skip(1)[j - 1] is End);
        }
    } else {
        lemma_end_is_terminal_from(
            next_ended(ended, inner[0]),
            inner.skip(1),
            out.skip(1),
            rel,
            i - 1,
            j - 1,
        );
        assert(out.skip(1)[j - 1] is End);
    }
}

/// Backpressure: if the inner stream reports not-ready on each of the first
/// `n` polls of a run, the adapter reports not-ready on exactly those `n`
/// polls — no spurious items in between — and a chunk the inner stream then
/// produces on the following poll is passed through unchanged on that very
/// poll.
pub proof fn lemma_backpressure<C, E1, E2>(
    inner: Seq<StreamResult<C, E1>>,
    out: Seq<StreamResult<C, E2>>,
    rel: spec_fn(E1, E2) -> bool,
    n: int,
)
    requires
        valid_run(inner, out, rel),
        0 <= n <= inner.len(),
        forall|k: int| 0 <= k < n ==> #[trigger] inner[k] is Pending,
    ensures
        forall|k: int| 0 <= k < n ==> #[trigger] out[k] is Pending,
        n < inner.len() ==> (inner[n] matches StreamResult::Item(c) ==> out[n]
            == StreamResult::<C, E2>::Item(c)),
    decreases n,
{
    if n == 0 {
        if 0 < inner.len() && inner[0] is Item {
            assert(valid_step(false, inner[0], next_ended(false, inner[0]), out[0], rel));
        }
    } else {
        assert(inner[0] is Pending);
        assert(valid_step(false, inner[0], next_ended(false, inner[0]), out[0], rel));
        assert(forall|k: int|
            0 <= k < n - 1 ==> #[trigger] inner.skip(1)[k] == inner[k + 1]);
        lemma_backpressure(inner.skip(1), out.skip(1), rel, n - 1);
        assert forall|k: int| 0 <= k < n implies #[trigger] out[k] is Pending by {
            if k > 0 {
                assert(out.skip(1)[k - 1] is Pending);
            }
        }
        if n < inner.len() && inner[n] is Item {
            assert(inner.skip(1)[n - 1] == inner[n]);
            assert(out.skip(1)[n - 1] == out[n]);
        }
    }
}

} // verus!
