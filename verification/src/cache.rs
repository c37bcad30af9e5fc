use vstd::prelude::*;

use crate::task::TelegramMessageTask;
use crate::transport::AckHandle;

verus! {

/// One cached, not-yet-acknowledged delivery: the task together with the
/// handle that acknowledges exactly that delivery. Entries are keyed by the
/// handle's message id.
pub struct PendingEntry {
    pub handle: AckHandle,
    pub task: TelegramMessageTask,
}

impl Clone for PendingEntry {
    fn clone(&self) -> (res: Self)
        ensures
            res == *self,
    {
        PendingEntry { handle: self.handle, task: self.task.clone() }
    }
}

/// Entry ids are pairwise distinct.
pub open spec fn unique_ids(s: Seq<PendingEntry>) -> bool {
    forall|i: int, j: int| 0 <= i < j < s.len() ==> s[i].handle.id != s[j].handle.id
}

/// The id-keyed map a sequence of entries stands for; a later entry under the
/// same id overwrites an earlier one.
pub open spec fn entries_map(s: Seq<PendingEntry>) -> Map<u64, PendingEntry>
    decreases s.len(),
{
    if s.len() == 0 {
        Map::empty()
    } else {
        entries_map(s.drop_last()).insert(s.last().handle.id, s.last())
    }
}

/// An id is in the map exactly when some entry of the sequence carries it.
pub proof fn lemma_entries_map_contains(s: Seq<PendingEntry>, id: u64)
    ensures
        entries_map(s).contains_key(id) <==> exists|i: int|
            0 <= i < s.len() && s[i].handle.id == id,
    decreases s.len(),
{
    if s.len() == 0 {
    } else {
        lemma_entries_map_contains(s.drop_last(), id);
        if s.last().handle.id == id {
            assert(s[s.len() - 1].handle.id == id);
        } else {
            if entries_map(s).contains_key(id) {
                let i = choose|i: int|
                    0 <= i < s.drop_last().len() && s.drop_last()[i].handle.id == id;
                assert(s[i].handle.id == id);
            }
            if exists|i: int| 0 <= i < s.len() && s[i].handle.id == id {
                let i = choose|i: int| 0 <= i < s.len() && s[i].handle.id == id;
                assert(s.drop_last()[i].handle.id == id);
            }
        }
    }
}

/// With distinct ids, the map sends each entry's id to that entry.
pub proof fn lemma_entries_map_index(s: Seq<PendingEntry>, i: int)
    requires
        unique_ids(s),
        0 <= i < s.len(),
    ensures
        entries_map(s).contains_key(s[i].handle.id),
        entries_map(s)[s[i].handle.id] == s[i],
    decreases s.len(),
{
    if i == s.len() - 1 {
    } else {
        assert(unique_ids(s.drop_last())) by {
            assert(forall|p: int, q: int|
                0 <= p < q < s.drop_last().len() ==> s.drop_last()[p] == s[p]
                    && s.drop_last()[q] == s[q]);
        }
        lemma_entries_map_index(s.drop_last(), i);
        assert(s.drop_last()[i] == s[i]);
        assert(s.last().handle.id != s[i].handle.id);
    }
}

/// With distinct ids, the map holds exactly one entry per sequence element.
pub proof fn lemma_entries_map_len(s: Seq<PendingEntry>)
    requires
        unique_ids(s),
    ensures
        entries_map(s).dom().finite(),
        entries_map(s).dom().len() == s.len(),
    decreases s.len(),
{
    if s.len() == 0 {
        assert(entries_map(s).dom() =~= Set::<u64>::empty());
    } else {
        assert(unique_ids(s.drop_last())) by {
            assert(forall|p: int, q: int|
                0 <= p < q < s.drop_last().len() ==> s.drop_last()[p] == s[p]
                    && s.drop_last()[q] == s[q]);
        }
        lemma_entries_map_len(s.drop_last());
        lemma_entries_map_contains(s.drop_last(), s.last().handle.id);
        assert(!entries_map(s.drop_last()).contains_key(s.last().handle.id)) by {
            if exists|i: int|
                0 <= i < s.drop_last().len() && s.drop_last()[i].handle.id == s.last().handle.id {
                let i = choose|i: int|
                    0 <= i < s.drop_last().len() && s.drop_last()[i].handle.id
                        == s.last().handle.id;
                assert(s[i].handle.id == s[s.len() - 1].handle.id);
            }
        }
        assert(entries_map(s).dom() =~= entries_map(s.drop_last()).dom().insert(
            s.last().handle.id,
        ));
    }
}

/// Appending an entry whose id is fresh inserts it into the map.
pub proof fn lemma_entries_map_push(s: Seq<PendingEntry>, e: PendingEntry)
    requires
        unique_ids(s),
        forall|i: int| 0 <= i < s.len() ==> s[i].handle.id != e.handle.id,
    ensures
        unique_ids(s.push(e)),
        entries_map(s.push(e)) == entries_map(s).insert(e.handle.id, e),
{
    assert(s.push(e).drop_last() =~= s);
    assert(s.push(e).last() == e);
    assert(forall|i: int| 0 <= i < s.len() ==> s.push(e)[i] == s[i]);
}

/// Overwriting the entry at `i` with one that carries the same id updates the
/// map at that id.
pub proof fn lemma_entries_map_update(s: Seq<PendingEntry>, i: int, e: PendingEntry)
    requires
        unique_ids(s),
        0 <= i < s.len(),
        s[i].handle.id == e.handle.id,
    ensures
        unique_ids(s.update(i, e)),
        entries_map(s.update(i, e)) == entries_map(s).insert(e.handle.id, e),
    decreases s.len(),
{
    let t = s.update(i, e);
    assert(forall|k: int| 0 <= k < t.len() ==> t[k].handle.id == s[k].handle.id);
    if i == s.len() - 1 {
        assert(t.drop_last() =~= s.drop_last());
        assert(t.last() == e);
        assert(entries_map(t) =~= entries_map(s).insert(e.handle.id, e));
    } else {
        assert(unique_ids(s.drop_last())) by {
            assert(forall|p: int, q: int|
                0 <= p < q < s.drop_last().len() ==> s.drop_last()[p] == s[p]
                    && s.drop_last()[q] == s[q]);
        }
        assert(s.drop_last()[i] == s[i]);
        lemma_entries_map_update(s.drop_last(), i, e);
        assert(t.drop_last() =~= s.drop_last().update(i, e));
        assert(t.last() == s.last());
        assert(s.last().handle.id != e.handle.id);
        assert(entries_map(t) =~= entries_map(s).insert(e.handle.id, e));
    }
}

/// Removing the entry at `i` removes its id from the map.
pub proof fn lemma_entries_map_remove(s: Seq<PendingEntry>, i: int)
    requires
        unique_ids(s),
        0 <= i < s.len(),
    ensures
        unique_ids(s.remove(i)),
        entries_map(s.remove(i)) == entries_map(s).remove(s[i].handle.id),
    decreases s.len(),
{
    s.remove_ensures(i);
    let t = s.remove(i);
    assert(unique_ids(t)) by {
        assert(forall|p: int|
            0 <= p < t.len() ==> t[p] == (if p < i {
                s[p]
            } else {
                s[p + 1]
            }));
    }
    lemma_entries_map_contains(s, s[i].handle.id);
    if i == s.len() - 1 {
        assert(t =~= s.drop_last());
        assert(unique_ids(s.drop_last())) by {
            assert(forall|p: int, q: int|
                0 <= p < q < s.drop_last().len() ==> s.drop_last()[p] == s[p]
                    && s.drop_last()[q] == s[q]);
        }
        lemma_entries_map_contains(s.drop_last(), s[i].handle.id);
        assert(entries_map(t) =~= entries_map(s).remove(s[i].handle.id));
    } else {
        assert(unique_ids(s.drop_last())) by {
            assert(forall|p: int, q: int|
                0 <= p < q < s.drop_last().len() ==> s.drop_last()[p] == s[p]
                    && s.drop_last()[q] == s[q]);
        }
        assert(s.drop_last()[i] == s[i]);
        lemma_entries_map_remove(s.drop_last(), i);
        assert(t.drop_last() =~= s.drop_last().remove(i));
        assert(t.last() == s.last());
        assert(s.last().handle.id != s[i].handle.id);
        assert(entries_map(t) =~= entries_map(s).remove(s[i].handle.id));
    }
}

/// The consumer-local cache of not-yet-acknowledged tasks. It bridges the
/// push-driven subscription reader and the pull-driven delivery sweep: the
/// reader inserts every received item (a keyed overwrite, so redeliveries
/// never pile up), the sweep snapshots, dispatches, and batch-removes.
///
/// Its abstract value is the map from message id to cached entry.
pub struct PendingCache {
    entries: Vec<PendingEntry>,
}

impl View for PendingCache {
    type V = Map<u64, PendingEntry>;

    closed spec fn view(&self) -> Map<u64, PendingEntry> {
        entries_map(self.entries@)
    }
}

impl PendingCache {
    /// Entry ids are pairwise distinct.
    pub closed spec fn wf(&self) -> bool {
        unique_ids(self.entries@)
    }

    /// An empty cache.
    pub fn new() -> (c: PendingCache)
        ensures
            c.wf(),
            c@ == Map::<u64, PendingEntry>::empty(),
    {
        PendingCache { entries: Vec::new() }
    }

    /// How many tasks are cached.
    pub fn len(&self) -> (n: usize)
        requires
            self.wf(),
        ensures
            n == self@.dom().len(),
    {
        proof {
            lemma_entries_map_len(self.entries@);
        }
        self.entries.len()
    }

    /// Whether a task with this message id is cached.
    pub fn contains_id(&self, id: u64) -> (b: bool)
        ensures
            b == self@.contains_key(id),
    {
        let n = self.entries.len();
        let mut k: usize = 0;
        while k < n
            invariant
                n == self.entries@.len(),
                k <= n,
                forall|i: int| 0 <= i < k ==> self.entries@[i].handle.id != id,
            decreases n - k,
        {
            if self.entries[k].handle.id == id {
                proof {
                    lemma_entries_map_contains(self.entries@, id);
                }
                return true;
            }
            k = k + 1;
        }
        proof {
            lemma_entries_map_contains(self.entries@, id);
        }
        false
    }

    /// The index of the entry with this id, if one is cached.
    fn find_index(&self, id: u64) -> (r: Option<usize>)
        ensures
            r matches Some(i) ==> i < self.entries@.len() && self.entries@[i as int].handle.id
                == id,
            r is None ==> forall|i: int|
                0 <= i < self.entries@.len() ==> self.entries@[i].handle.id != id,
    {
        let n = self.entries.len();
        let mut k: usize = 0;
        while k < n
            invariant
                n == self.entries@.len(),
                k <= n,
                forall|i: int| 0 <= i < k ==> self.entries@[i].handle.id != id,
            decreases n - k,
        {
            if self.entries[k].handle.id == id {
                return Some(k);
            }
            k = k + 1;
        }
        None
    }

    /// Park one received delivery: a keyed overwrite by the handle's message
    /// id. Delivering the same id twice leaves exactly one entry, so the
    /// at-least-once transport's duplicates never grow the cache.
    pub fn insert(&mut self, handle: AckHandle, task: TelegramMessageTask)
        requires
            old(self).wf(),
        ensures
            final(self).wf(),
            final(self)@ == old(self)@.insert(handle.id, (PendingEntry { handle, task })),
            final(self)@.dom().len() == if old(self)@.contains_key(handle.id) {
                old(self)@.dom().len()
            } else {
                old(self)@.dom().len() + 1
            },
    {
        let entry = PendingEntry { handle, task };
        proof {
            lemma_entries_map_contains(self.entries@, handle.id);
            lemma_entries_map_len(self.entries@);
        }
        match self.find_index(handle.id) {
            Some(i) => {
                proof {
                    lemma_entries_map_update(self.entries@, i as int, entry);
                    lemma_entries_map_len(self.entries@.update(i as int, entry));
                }
                self.entries.set(i, entry);
            },
            None => {
                proof {
                    lemma_entries_map_push(self.entries@, entry);
                    lemma_entries_map_len(self.entries@.push(entry));
                }
                self.entries.push(entry);
            },
        }
    }

    /// A consistent point-in-time copy of every cached entry, to be iterated
    /// only after the cache's lock is released. The copy carries exactly the
    /// cached entries, each under its distinct id; their order is
    /// unspecified.
    pub fn snapshot(&self) -> (r: Vec<PendingEntry>)
        requires
            self.wf(),
        ensures
            unique_ids(r@),
            entries_map(r@) == self@,
            r@.len() == self@.dom().len(),
            forall|i: int|
                0 <= i < r@.len() ==> self@.contains_key(#[trigger] r@[i].handle.id)
                    && self@[r@[i].handle.id] == r@[i],
    {
        let n = self.entries.len();
        let mut r: Vec<PendingEntry> = Vec::new();
        let mut k: usize = 0;
        while k < n
            invariant
                n == self.entries@.len(),
                k <= n,
                r@.len() == k,
                forall|i: int| 0 <= i < k ==> r@[i] == self.entries@[i],
            decreases n - k,
        {
            r.push(self.entries[k].clone());
            k = k + 1;
        }
        proof {
            assert(r@ =~= self.entries@);
            lemma_entries_map_len(self.entries@);
            assert forall|i: int| 0 <= i < r@.len() implies self@.contains_key(
                #[trigger] r@[i].handle.id,
            ) && self@[r@[i].handle.id] == r@[i] by {
                lemma_entries_map_index(self.entries@, i);
            }
        }
        r
    }

    /// Drop the entry with this id, if one is cached.
    pub fn remove_id(&mut self, id: u64)
        requires
            old(self).wf(),
        ensures
            final(self).wf(),
            final(self)@ == old(self)@.remove(id),
    {
        match self.find_index(id) {
            Some(i) => {
                proof {
                    lemma_entries_map_remove(self.entries@, i as int);
                }
                self.entries.remove(i);
            },
            None => {
                proof {
                    lemma_entries_map_contains(self.entries@, id);
                    assert(old(self)@.remove(id) =~= old(self)@);
                }
            },
        }
    }

    /// Drop a whole batch of ids under one (conceptual) write-lock
    /// acquisition, once every dispatch attempt of a sweep has completed.
    pub fn remove_ids(&mut self, ids: &Vec<u64>)
        requires
            old(self).wf(),
        ensures
            final(self).wf(),
            final(self)@ == old(self)@.remove_keys(ids@.to_set()),
    {
        let n = ids.len();
        let mut k: usize = 0;
        while k < n
            invariant
                self.wf(),
                n == ids@.len(),
                k <= n,
                self@ == old(self)@.remove_keys(ids@.take(k as int).to_set()),
            decreases n - k,
        {
            self.remove_id(ids[k]);
            proof {
                assert forall|x: u64| #[trigger] ids@.take(k + 1).contains(x) implies ids@.take(
                    k as int,
                ).contains(x) || x == ids@[k as int] by {
                    let j = choose|j: int| 0 <= j < k + 1 && #[trigger] ids@.take(k + 1)[j] == x;
                    if j < k {
                        assert(ids@.take(k as int)[j] == x);
                    }
                }
                assert forall|x: u64|
                    ids@.take(k as int).contains(x) || x == ids@[k as int] implies #[trigger] ids@.take(
                    k + 1,
                ).contains(x) by {
                    if ids@.take(k as int).contains(x) {
                        let j = choose|j: int|
                            0 <= j < k && #[trigger] ids@.take(k as int)[j] == x;
                        assert(ids@.take(k + 1)[j] == x);
                    } else {
                        assert(ids@.take(k + 1)[k as int] == x);
                    }
                }
                assert(ids@.take(k + 1).to_set() =~= ids@.take(k as int).to_set().insert(
                    ids@[k as int],
                ));
                assert(old(self)@.remove_keys(ids@.take(k as int).to_set()).remove(ids@[k as int])
                    =~= old(self)@.remove_keys(ids@.take(k + 1).to_set()));
            }
            k = k + 1;
        }
        proof {
            assert(ids@.take(n as int) =~= ids@);
        }
    }
}

/// Idempotent insert: parking the same (id, task) delivery twice leaves the
/// cache exactly as parking it once does — one entry, not two.
pub proof fn lemma_insert_idempotent(
    m: Map<u64, PendingEntry>,
    handle: AckHandle,
    task: TelegramMessageTask,
)
    ensures
        m.insert(handle.id, (PendingEntry { handle, task })).insert(
            handle.id,
            (PendingEntry { handle, task }),
        ) == m.insert(handle.id, (PendingEntry { handle, task })),
{
    assert(m.insert(handle.id, (PendingEntry { handle, task })).insert(
        handle.id,
        (PendingEntry { handle, task }),
    ) =~= m.insert(handle.id, (PendingEntry { handle, task })));
}

} // verus!
