//! Sharing one transaction among concurrent callers. Each caller queues its
//! messages as a slot; a flush concatenates the slots in arrival order, and
//! the transaction's event groups, one per message, are cut back into one
//! part per slot by position.
use crate::pipeline::MismatchIbcEventsCountError;
use vstd::prelude::*;

verus! {

/// The sum of a list of counts.
pub open spec fn total(counts: Seq<usize>) -> nat
    decreases counts.len(),
{
    if counts.len() == 0 {
        0
    } else {
        total(counts.drop_last()) + counts.last() as nat
    }
}

/// Where the part of slot `i` starts in the concatenation.
pub open spec fn offset(counts: Seq<usize>, i: int) -> nat {
    total(counts.subrange(0, i))
}

/// `msgs` is the concatenation of `slots` in order, and `counts` gives the
/// length of each slot.
pub open spec fn concatenated<M>(slots: Seq<Seq<M>>, counts: Seq<usize>, msgs: Seq<M>) -> bool {
    &&& counts.len() == slots.len()
    &&& forall|i: int| 0 <= i < slots.len() ==> #[trigger] counts[i] == slots[i].len()
    &&& msgs.len() == total(counts)
    &&& forall|i: int, k: int|
        0 <= i < slots.len() && 0 <= k < slots[i].len() ==> msgs[offset(counts, i) + k]
            == #[trigger] slots[i][k]
}

/// `parts` cuts `items` into consecutive pieces of the lengths `counts`.
pub open spec fn split_into<E>(counts: Seq<usize>, items: Seq<E>, parts: Seq<Seq<E>>) -> bool {
    &&& parts.len() == counts.len()
    &&& forall|i: int| 0 <= i < parts.len() ==> (#[trigger] parts[i]).len() == counts[i]
    &&& forall|i: int, k: int|
        0 <= i < parts.len() && 0 <= k < counts[i] ==> #[trigger] parts[i][k] == items[offset(
            counts,
            i,
        ) + k]
}

pub open spec fn views<T>(vs: Seq<Vec<T>>) -> Seq<Seq<T>> {
    vs.map_values(|v: Vec<T>| v@)
}

proof fn lemma_total_push(counts: Seq<usize>, c: usize)
    ensures
        total(counts.push(c)) == total(counts) + c,
{
    assert(counts.push(c).drop_last() =~= counts);
}

proof fn lemma_offset_prefix(counts: Seq<usize>, c: usize, i: int)
    requires
        0 <= i <= counts.len(),
    ensures
        offset(counts.push(c), i) == offset(counts, i),
{
    assert(counts.push(c).subrange(0, i) =~= counts.subrange(0, i));
}

proof fn lemma_offset_bound(counts: Seq<usize>, i: int)
    requires
        0 <= i < counts.len(),
    ensures
        offset(counts, i) + counts[i] <= total(counts),
    decreases counts.len(),
{
    if i == counts.len() - 1 {
        assert(counts.subrange(0, i) =~= counts.drop_last());
    } else {
        lemma_offset_bound(counts.drop_last(), i);
        assert(counts.drop_last().subrange(0, i) =~= counts.subrange(0, i));
    }
}

/// Concatenates the messages of the slots in order, and gives the number of
/// messages of each slot.
pub fn concat_batches<M>(slots: Vec<Vec<M>>) -> (r: (Vec<M>, Vec<usize>))
    ensures
        concatenated(views(slots@), r.1@, r.0@),
{
    let ghost orig = views(slots@);
    let n: usize = slots.len();
    let mut rest = slots;
    let mut msgs: Vec<M> = Vec::new();
    let mut counts: Vec<usize> = Vec::new();
    let mut i: usize = 0;
    while rest.len() > 0
        invariant
            i + rest@.len() == n,
            orig.len() == n,
            forall|j: int| 0 <= j < rest@.len() ==> #[trigger] rest@[j]@ == orig[i + j],
            concatenated(orig.subrange(0, i as int), counts@, msgs@),
        decreases rest@.len(),
    {
        let mut s = rest.remove(0);
        let c = s.len();
        let ghost before = msgs@;
        let ghost counts_before = counts@;
        let ghost sv = s@;
        assert(sv == orig[i as int]);
        msgs.append(&mut s);
        counts.push(c);
        proof {
            lemma_total_push(counts_before, c);
            let pre = orig.subrange(0, i + 1);
            assert forall|a: int, k: int|
                0 <= a < pre.len() && 0 <= k < pre[a].len() implies msgs@[offset(counts@, a) + k]
                == #[trigger] pre[a][k] by {
                lemma_offset_prefix(counts_before, c, a);
                if a < i {
                    assert(pre[a] == orig.subrange(0, i as int)[a]);
                    lemma_offset_bound(counts_before, a);
                } else {
                    assert(counts_before.subrange(0, i as int) =~= counts_before);
                }
            }
            assert forall|a: int| 0 <= a < pre.len() implies #[trigger] counts@[a] == pre[a].len() by {
                if a < i {
                    assert(pre[a] == orig.subrange(0, i as int)[a]);
                }
            }
        }
        i = i + 1;
    }
    assert(orig.subrange(0, i as int) =~= orig);
    (msgs, counts)
}

/// Cuts the event groups of a flushed transaction into one part per slot,
/// slot `i` taking as many consecutive groups as it sent messages. Fails,
/// cutting nothing, when the number of groups is not the number of messages.
pub fn split_event_groups<E>(counts: &Vec<usize>, groups: Vec<E>) -> (r: Result<
    Vec<Vec<E>>,
    MismatchIbcEventsCountError,
>)
    requires
        total(counts@) <= usize::MAX,
    ensures
        r is Err <==> groups@.len() != total(counts@),
        r is Err ==> r->Err_0 == (MismatchIbcEventsCountError {
            expected: total(counts@) as usize,
            actual: groups@.len() as usize,
        }),
        r is Ok ==> split_into(counts@, groups@, views(r->Ok_0@)),
{
    let mut expected: usize = 0;
    let mut i: usize = 0;
    while i < counts.len()
        invariant
            i <= counts.len(),
            total(counts@) <= usize::MAX,
            expected == offset(counts@, i as int),
        decreases counts.len() - i,
    {
        proof {
            lemma_offset_bound(counts@, i as int);
            assert(counts@.subrange(0, i + 1).drop_last() =~= counts@.subrange(0, i as int));
        }
        expected = expected + counts[i];
        i = i + 1;
    }
    assert(counts@.subrange(0, i as int) =~= counts@);
    if groups.len() != expected {
        return Err(MismatchIbcEventsCountError { expected, actual: groups.len() });
    }
    let ghost items = groups@;
    assert(items.len() <= usize::MAX);
    let mut rest = groups;
    let mut parts: Vec<Vec<E>> = Vec::new();
    let mut taken: usize = 0;
    let mut s: usize = 0;
    while s < counts.len()
        invariant
            s <= counts.len(),
            items.len() == total(counts@),
            items.len() <= usize::MAX,
            taken == offset(counts@, s as int),
            rest@ == items.subrange(taken as int, items.len() as int),
            parts@.len() == s,
            forall|a: int| 0 <= a < s ==> (#[trigger] parts@[a])@.len() == counts@[a],
            forall|a: int, k: int|
                0 <= a < s && 0 <= k < counts@[a] ==> #[trigger] parts@[a]@[k] == items[offset(
                    counts@,
                    a,
                ) + k],
        decreases counts.len() - s,
    {
        proof {
            lemma_offset_bound(counts@, s as int);
            assert(counts@.subrange(0, s + 1).drop_last() =~= counts@.subrange(0, s as int));
        }
        let c = counts[s];
        let mut part: Vec<E> = Vec::new();
        let mut k: usize = 0;
        while k < c
            invariant
                k <= c,
                taken + c <= items.len(),
                rest@ == items.subrange(taken + k, items.len() as int),
                part@ == items.subrange(taken as int, taken + k),
            decreases c - k,
        {
            let g = rest.remove(0);
            part.push(g);
            assert(part@ =~= items.subrange(taken as int, taken + k + 1));
            assert(rest@ =~= items.subrange(taken + k + 1, items.len() as int));
            k = k + 1;
        }
        parts.push(part);
        taken = taken + c;
        s = s + 1;
    }
    let ghost pv = views(parts@);
    assert(split_into(counts@, items, pv));
    Ok(parts)
}

/// Why the callers of a batch got no events.
#[derive(Clone, Copy, Debug, PartialEq, Eq)]
pub enum BatchFailure<X> {
    /// The transaction's groups did not match its messages one for one.
    Mismatch(MismatchIbcEventsCountError),
    /// The transaction itself failed; every caller gets the same error.
    Transaction(X),
}

/// What each slot of a flushed batch receives, given what the transaction
/// returned: its own groups, or the same failure as every other slot.
pub fn demultiplex<E, X: Copy>(counts: &Vec<usize>, outcome: Result<Vec<E>, X>) -> (r: Vec<
    Result<Vec<E>, BatchFailure<X>>,
>)
    requires
        total(counts@) <= usize::MAX,
    ensures
        r@.len() == counts@.len(),
        match outcome {
            Err(x) => forall|i: int|
                0 <= i < r@.len() ==> #[trigger] r@[i] == Err::<Vec<E>, _>(
                    BatchFailure::Transaction(x),
                ),
            Ok(g) => if g@.len() == total(counts@) {
                (forall|i: int| 0 <= i < r@.len() ==> (#[trigger] r@[i]) is Ok) && split_into(
                    counts@,
                    g@,
                    r@.map_values(|x: Result<Vec<E>, BatchFailure<X>>| x->Ok_0@),
                )
            } else {
                forall|i: int|
                    0 <= i < r@.len() ==> #[trigger] r@[i] == Err::<Vec<E>, _>(
                        BatchFailure::<X>::Mismatch(
                            MismatchIbcEventsCountError {
                                expected: total(counts@) as usize,
                                actual: g@.len() as usize,
                            },
                        ),
                    )
            },
        },
{
    let failure = match outcome {
        Err(x) => BatchFailure::Transaction(x),
        Ok(g) => {
            match split_event_groups(counts, g) {
                Ok(parts) => {
                    let ghost pv = views(parts@);
                    let mut out: Vec<Result<Vec<E>, BatchFailure<X>>> = Vec::new();
                    let mut rest = parts;
                    let n: usize = counts.len();
                    let mut i: usize = 0;
                    while rest.len() > 0
                        invariant
                            n == counts@.len(),
                            i + rest@.len() == n,
                            pv.len() == counts@.len(),
                            out@.len() == i,
                            forall|j: int| 0 <= j < rest@.len() ==> #[trigger] rest@[j]@ == pv[i + j],
                            forall|j: int| 0 <= j < i ==> (#[trigger] out@[j]) is Ok,
                            forall|j: int| 0 <= j < i ==> #[trigger] out@[j]->Ok_0@ == pv[j],
                        decreases rest@.len(),
                    {
                        let part = rest.remove(0);
                        out.push(Ok(part));
                        i = i + 1;
                    }
                    let ghost ov = out@.map_values(
                        |x: Result<Vec<E>, BatchFailure<X>>| x->Ok_0@,
                    );
                    assert(ov =~= pv);
                    return out;
                },
                Err(e) => BatchFailure::Mismatch(e),
            }
        },
    };
    let mut out: Vec<Result<Vec<E>, BatchFailure<X>>> = Vec::new();
    let mut i: usize = 0;
    while i < counts.len()
        invariant
            i <= counts.len(),
            out@.len() == i,
            forall|j: int| 0 <= j < i ==> #[trigger] out@[j] == Err::<Vec<E>, _>(failure),
        decreases counts.len() - i,
    {
        out.push(Err(failure));
        i = i + 1;
    }
    out
}

/// Whether queued messages should be flushed now: when there are some and
/// either the flush timer fired or they reached the size threshold.
pub fn should_flush(queued_messages: usize, threshold: usize, tick_due: bool) -> (r: bool)
    ensures
        r == (queued_messages > 0 && (tick_due || queued_messages >= threshold)),
{
    queued_messages > 0 && (tick_due || queued_messages >= threshold)
}

/// Batching keeps callers apart: when the transaction answers each message
/// of the concatenation with one group, there is one part per slot, and the
/// part of each slot holds, in order, the answers to that slot's own
/// messages and to no other.
pub proof fn lemma_batch_positional<M, E>(
    slots: Seq<Seq<M>>,
    counts: Seq<usize>,
    msgs: Seq<M>,
    parts: Seq<Seq<E>>,
    answer: spec_fn(M) -> E,
)
    requires
        concatenated(slots, counts, msgs),
        split_into(counts, msgs.map_values(answer), parts),
    ensures
        parts.len() == slots.len(),
        forall|i: int| 0 <= i < slots.len() ==> (#[trigger] parts[i]).len() == slots[i].len(),
        forall|i: int, k: int|
            0 <= i < slots.len() && 0 <= k < slots[i].len() ==> #[trigger] parts[i][k] == answer(
                slots[i][k],
            ),
{
    assert forall|i: int, k: int|
        0 <= i < slots.len() && 0 <= k < slots[i].len() implies #[trigger] parts[i][k] == answer(
        slots[i][k],
    ) by {
        lemma_offset_bound(counts, i);
        assert(counts[i] == slots[i].len());
        assert(msgs[offset(counts, i) + k] == slots[i][k]);
    }
}

} // verus!
