use vstd::prelude::*;

use crate::cache::{PendingCache, PendingEntry, unique_ids};
use crate::task::eligible;

verus! {

/// The eligibility gate as a predicate on cached entries.
pub open spec fn gate(now: i64) -> spec_fn(PendingEntry) -> bool {
    |e: PendingEntry| eligible(e.task, now)
}

/// The outcome of one dispatch attempt within a sweep: the message id of the
/// entry that was handed to the external sender, and whether the sender
/// delivered it.
#[derive(Clone, Copy, PartialEq, Eq, Structural, Debug)]
pub struct DispatchRecord {
    pub id: u64,
    pub ok: bool,
}

/// Whether the record reports a delivered dispatch.
pub open spec fn dispatched_ok() -> spec_fn(DispatchRecord) -> bool {
    |d: DispatchRecord| d.ok
}

/// The id a record speaks of.
pub open spec fn dispatch_id() -> spec_fn(DispatchRecord) -> u64 {
    |d: DispatchRecord| d.id
}

/// The ids of the entries a sweep dispatched successfully, in dispatch order.
pub open spec fn dispatched_ids(results: Seq<DispatchRecord>) -> Seq<u64> {
    results.filter(dispatched_ok()).map_values(dispatch_id())
}

/// Every element of a filtered sequence is an element of the original.
pub proof fn lemma_filter_is_subset<A>(s: Seq<A>, pred: spec_fn(A) -> bool)
    ensures
        forall|j: int| 0 <= j < s.filter(pred).len() ==> s.contains(#[trigger] s.filter(pred)[j]),
    decreases s.len(),
{
    reveal(Seq::filter);
    if s.len() != 0 {
        lemma_filter_is_subset(s.drop_last(), pred);
        let f = s.filter(pred);
        let sub = s.drop_last().filter(pred);
        assert forall|j: int| 0 <= j < f.len() implies s.contains(#[trigger] f[j]) by {
            if pred(s.last()) && j == f.len() - 1 {
                assert(s[s.len() - 1] == f[j]);
            } else {
                assert(f[j] == sub[j]);
                assert(s.drop_last().contains(sub[j]));
                let i = choose|i: int| 0 <= i < s.drop_last().len() && s.drop_last()[i] == sub[j];
                assert(s[i] == f[j]);
            }
        }
    }
}

/// Filtering entries with pairwise distinct ids yields entries with pairwise
/// distinct ids: a sweep never dispatches the same cached entry twice within
/// itself.
pub proof fn lemma_filter_keeps_unique_ids(s: Seq<PendingEntry>, pred: spec_fn(PendingEntry) -> bool)
    requires
        unique_ids(s),
    ensures
        unique_ids(s.filter(pred)),
    decreases s.len(),
{
    reveal(Seq::filter);
    if s.len() != 0 {
        assert(unique_ids(s.drop_last())) by {
            assert(forall|p: int, q: int|
                0 <= p < q < s.drop_last().len() ==> s.drop_last()[p] == s[p]
                    && s.drop_last()[q] == s[q]);
        }
        lemma_filter_keeps_unique_ids(s.drop_last(), pred);
        lemma_filter_is_subset(s.drop_last(), pred);
        let f = s.filter(pred);
        let sub = s.drop_last().filter(pred);
        assert forall|p: int, q: int|
            0 <= p < q < f.len() implies f[p].handle.id != f[q].handle.id by {
            if pred(s.last()) && q == f.len() - 1 {
                assert(f[p] == sub[p]);
                assert(s.drop_last().contains(sub[p]));
                let i = choose|i: int| 0 <= i < s.drop_last().len() && s.drop_last()[i] == sub[p];
                assert(s[i] == f[p]);
                assert(s[i].handle.id != s[s.len() - 1].handle.id);
            } else {
                assert(f[p] == sub[p] && f[q] == sub[q]);
            }
        }
    }
}

/// The entries of a snapshot that the eligibility gate lets through at `now`,
/// in snapshot order. This is the selection step of one sweep; dispatching
/// the selected entries is the caller's (I/O) half of the loop.
pub fn eligible_entries(snapshot: &Vec<PendingEntry>, now: i64) -> (r: Vec<PendingEntry>)
    ensures
        r@ == snapshot@.filter(gate(now)),
        unique_ids(snapshot@) ==> unique_ids(r@),
{
    let n = snapshot.len();
    let mut r: Vec<PendingEntry> = Vec::new();
    let mut k: usize = 0;
    while k < n
        invariant
            n == snapshot@.len(),
            k <= n,
            r@ == snapshot@.take(k as int).filter(gate(now)),
        decreases n - k,
    {
        if snapshot[k].task.can_send_now(now) {
            r.push(snapshot[k].clone());
        }
        proof {
            reveal(Seq::filter);
            assert(snapshot@.take(k + 1).drop_last() =~= snapshot@.take(k as int));
            assert(snapshot@.take(k + 1).last() == snapshot@[k as int]);
            assert(r@ =~= snapshot@.take(k + 1).filter(gate(now)));
        }
        k = k + 1;
    }
    proof {
        assert(snapshot@.take(n as int) =~= snapshot@);
        if unique_ids(snapshot@) {
            lemma_filter_keeps_unique_ids(snapshot@, gate(now));
        }
    }
    r
}

/// Addressing: whether a cached entry is for one recipient.
pub open spec fn addressed_to(to: u64) -> spec_fn(PendingEntry) -> bool {
    |e: PendingEntry| e.task.to == to
}

/// The cached entries addressed to one recipient, in snapshot order: what the
/// chat command that fetches all pending mail for its sender reads from a
/// snapshot.
pub fn tasks_for_recipient(snapshot: &Vec<PendingEntry>, to: u64) -> (r: Vec<PendingEntry>)
    ensures
        r@ == snapshot@.filter(addressed_to(to)),
{
    let n = snapshot.len();
    let mut r: Vec<PendingEntry> = Vec::new();
    let mut k: usize = 0;
    while k < n
        invariant
            n == snapshot@.len(),
            k <= n,
            r@ == snapshot@.take(k as int).filter(addressed_to(to)),
        decreases n - k,
    {
        if snapshot[k].task.to == to {
            r.push(snapshot[k].clone());
        }
        proof {
            reveal(Seq::filter);
            assert(snapshot@.take(k + 1).drop_last() =~= snapshot@.take(k as int));
            assert(snapshot@.take(k + 1).last() == snapshot@[k as int]);
            assert(r@ =~= snapshot@.take(k + 1).filter(addressed_to(to)));
        }
        k = k + 1;
    }
    proof {
        assert(snapshot@.take(n as int) =~= snapshot@);
    }
    r
}

/// The ids of the successfully dispatched entries of one sweep, collected for
/// the batch removal that settles the sweep.
pub fn collect_dispatched(results: &Vec<DispatchRecord>) -> (ids: Vec<u64>)
    ensures
        ids@ == dispatched_ids(results@),
{
    let n = results.len();
    let mut ids: Vec<u64> = Vec::new();
    let mut k: usize = 0;
    while k < n
        invariant
            n == results@.len(),
            k <= n,
            ids@ == dispatched_ids(results@.take(k as int)),
        decreases n - k,
    {
        if results[k].ok {
            ids.push(results[k].id);
        }
        proof {
            reveal(Seq::filter);
            assert(results@.take(k + 1).drop_last() =~= results@.take(k as int));
            assert(results@.take(k + 1).last() == results@[k as int]);
            assert(ids@ =~= dispatched_ids(results@.take(k + 1)));
        }
        k = k + 1;
    }
    proof {
        assert(results@.take(n as int) =~= results@);
    }
    ids
}

/// Settle one sweep: after every dispatch attempt has completed, remove the
/// successfully dispatched entries from the cache in one batch — regardless
/// of how their acknowledgments fared — and leave every other entry untouched
/// for the next sweep. Returns the removed ids.
pub fn sweep_settle(cache: &mut PendingCache, results: &Vec<DispatchRecord>) -> (removed: Vec<u64>)
    requires
        old(cache).wf(),
    ensures
        final(cache).wf(),
        removed@ == dispatched_ids(results@),
        final(cache)@ == old(cache)@.remove_keys(dispatched_ids(results@).to_set()),
{
    let removed = collect_dispatched(results);
    cache.remove_ids(&removed);
    removed
}

/// After a sweep whose results report a successful dispatch of some id, that
/// id is absent from the settled cache — so absent from the next snapshot.
pub proof fn lemma_dispatched_entry_removed(
    m0: Map<u64, PendingEntry>,
    results: Seq<DispatchRecord>,
    m1: Map<u64, PendingEntry>,
    i: int,
)
    requires
        m1 == m0.remove_keys(dispatched_ids(results).to_set()),
        0 <= i < results.len(),
        results[i].ok,
    ensures
        !m1.contains_key(results[i].id),
{
    results.lemma_filter_contains(dispatched_ok(), i);
    let f = results.filter(dispatched_ok());
    let j = choose|j: int| 0 <= j < f.len() && f[j] == results[i];
    assert(f.map_values(dispatch_id())[j] == results[i].id);
    assert(dispatched_ids(results).contains(results[i].id));
}

/// After a sweep whose results report no successful dispatch of some cached
/// id, that id is still cached, bound to the same entry — it will be offered
/// to the sender again on the following sweep.
pub proof fn lemma_failed_entry_kept(
    m0: Map<u64, PendingEntry>,
    results: Seq<DispatchRecord>,
    m1: Map<u64, PendingEntry>,
    id: u64,
)
    requires
        m1 == m0.remove_keys(dispatched_ids(results).to_set()),
        m0.contains_key(id),
        forall|i: int| 0 <= i < results.len() ==> !(results[i].id == id && results[i].ok),
    ensures
        m1.contains_key(id),
        m1[id] == m0[id],
{
    let f = results.filter(dispatched_ok());
    let ids = dispatched_ids(results);
    assert(!ids.contains(id)) by {
        if ids.contains(id) {
            let j = choose|j: int| 0 <= j < ids.len() && ids[j] == id;
            assert(f[j].id == id);
            results.lemma_filter_pred(dispatched_ok(), j);
            lemma_filter_is_subset(results, dispatched_ok());
            assert(results.contains(f[j]));
            let i = choose|i: int| 0 <= i < results.len() && results[i] == f[j];
            assert(results[i].id == id && results[i].ok);
        }
    }
}

/// A cached entry that is eligible at the time of a sweep is among that
/// sweep's selected entries.
pub proof fn lemma_pending_entry_selected(snapshot: Seq<PendingEntry>, now: i64, i: int)
    requires
        0 <= i < snapshot.len(),
        eligible(snapshot[i].task, now),
    ensures
        snapshot.filter(gate(now)).contains(snapshot[i]),
{
    snapshot.lemma_filter_contains(gate(now), i);
}

} // verus!
