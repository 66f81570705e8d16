//! The instance store: a table from instance ids to live editor records,
//! together with the counter that hands out those ids.
use std::collections::HashMap;
use vstd::prelude::*;

verus! {

broadcast use vstd::std_specs::hash::group_hash_axioms;

/// What an instance store holds, seen mathematically.
pub ghost struct StoreView<R> {
    /// The id that the next allocation hands out.
    pub next_id: nat,
    /// The live records, by id.
    pub records: Map<usize, R>,
}

impl<R> StoreView<R> {
    /// Finitely many records, each under an id that was handed out before.
    pub open spec fn wf(self) -> bool {
        &&& self.records.dom().finite()
        &&& forall|k: usize| #[trigger] self.records.contains_key(k) ==> (k as nat) < self.next_id
    }
}

/// A table of live editor records keyed by ids that are never reused.
pub struct InstanceStore<R> {
    next_id: usize,
    table: HashMap<usize, R>,
}

impl<R> View for InstanceStore<R> {
    type V = StoreView<R>;

    closed spec fn view(&self) -> StoreView<R> {
        StoreView { next_id: self.next_id as nat, records: self.table@ }
    }
}

impl<R> InstanceStore<R> {
    pub open spec fn wf(&self) -> bool {
        self@.wf()
    }

    /// An empty store whose first allocation yields id 0.
    pub fn new() -> (r: Self)
        ensures
            r.wf(),
            r@.next_id == 0,
            r@.records == Map::<usize, R>::empty(),
    {
        InstanceStore { next_id: 0, table: HashMap::new() }
    }

    /// Hands out a fresh id, greater than every id handed out before.
    pub fn allocate_id(&mut self) -> (id: usize)
        requires
            old(self).wf(),
            old(self)@.next_id < usize::MAX,
        ensures
            final(self).wf(),
            id as nat == old(self)@.next_id,
            final(self)@.next_id == old(self)@.next_id + 1,
            final(self)@.records == old(self)@.records,
    {
        let id = self.next_id;
        self.next_id = self.next_id + 1;
        assert(self@.records == old(self)@.records);
        id
    }

    /// Whether another id can still be handed out.
    pub fn can_allocate(&self) -> (r: bool)
        ensures
            r == (self@.next_id < usize::MAX),
    {
        self.next_id < usize::MAX
    }

    /// Stores `record` under an id that was handed out before. An id that
    /// already holds a record is refused and the table is left as it was.
    pub fn insert(&mut self, id: usize, record: R) -> (inserted: bool)
        requires
            old(self).wf(),
            (id as nat) < old(self)@.next_id,
        ensures
            final(self).wf(),
            inserted == !old(self)@.records.contains_key(id),
            final(self)@.next_id == old(self)@.next_id,
            final(self)@.records == if inserted {
                old(self)@.records.insert(id, record)
            } else {
                old(self)@.records
            },
    {
        if self.table.contains_key(&id) {
            false
        } else {
            self.table.insert(id, record);
            assert forall|k: usize| #[trigger] self@.records.contains_key(k) implies (k as nat)
                < self@.next_id by {
                if k != id {
                    assert(old(self)@.records.contains_key(k));
                }
            }
            true
        }
    }

    /// Takes the record stored under `id` out of the table, if there is one.
    pub fn remove(&mut self, id: usize) -> (r: Option<R>)
        requires
            old(self).wf(),
        ensures
            final(self).wf(),
            final(self)@.next_id == old(self)@.next_id,
            final(self)@.records == old(self)@.records.remove(id),
            r == if old(self)@.records.contains_key(id) {
                Some(old(self)@.records[id])
            } else {
                None::<R>
            },
    {
        let r = self.table.remove(&id);
        assert forall|k: usize| #[trigger] self@.records.contains_key(k) implies (k as nat)
            < self@.next_id by {
            assert(old(self)@.records.contains_key(k));
        }
        r
    }

    /// The record stored under `id`, if there is one.
    pub fn get(&self, id: usize) -> (r: Option<&R>)
        ensures
            r == if self@.records.contains_key(id) {
                Some(&self@.records[id])
            } else {
                None::<&R>
            },
    {
        self.table.get(&id)
    }

    /// Whether a record is stored under `id`.
    pub fn contains(&self, id: usize) -> (r: bool)
        ensures
            r == self@.records.contains_key(id),
    {
        self.table.contains_key(&id)
    }

    /// How many records are live.
    pub fn len(&self) -> (n: usize)
        ensures
            n == self@.records.len(),
    {
        self.table.len()
    }

    /// Drops every record and reports how many there were. The counter is
    /// kept, so no id is ever handed out twice.
    pub fn clear(&mut self) -> (n: usize)
        requires
            old(self).wf(),
        ensures
            final(self).wf(),
            n == old(self)@.records.len(),
            final(self)@.next_id == old(self)@.next_id,
            final(self)@.records == Map::<usize, R>::empty(),
    {
        let n = self.table.len();
        self.table.clear();
        n
    }
}

/// One call of `allocate_id` took the store from `before` to `after` and
/// returned `id`.
pub open spec fn allocated<R>(before: StoreView<R>, after: StoreView<R>, id: usize) -> bool {
    &&& id as nat == before.next_id
    &&& after.next_id == before.next_id + 1
    &&& after.records == before.records
}

/// Over any run of allocations, the ids come out strictly increasing in
/// call order, hence pairwise distinct.
pub proof fn lemma_allocated_ids_increase<R>(states: Seq<StoreView<R>>, ids: Seq<usize>)
    requires
        states.len() == ids.len() + 1,
        forall|i: int| 0 <= i < ids.len() ==> allocated(states[i], states[i + 1], #[trigger] ids[i]),
    ensures
        forall|i: int, j: int| 0 <= i < j < ids.len() ==> ids[i] < ids[j],
        forall|i: int| 0 <= i < ids.len() ==> states[0].next_id <= #[trigger] ids[i] < states[ids.len() as int].next_id,
{
    lemma_next_id_grows(states, ids);
    assert forall|i: int, j: int| 0 <= i < j < ids.len() implies ids[i] < ids[j] by {
        assert(allocated(states[i], states[i + 1], ids[i]));
        assert(allocated(states[j], states[j + 1], ids[j]));
    }
    assert forall|i: int| 0 <= i < ids.len() implies states[0].next_id <= #[trigger] ids[i] < states[ids.len() as int].next_id by {
        assert(allocated(states[i], states[i + 1], ids[i]));
    }
}

/// Along a run of allocations the counter stands `k` above where it started.
proof fn lemma_next_id_grows<R>(states: Seq<StoreView<R>>, ids: Seq<usize>)
    requires
        states.len() == ids.len() + 1,
        forall|i: int| 0 <= i < ids.len() ==> allocated(states[i], states[i + 1], #[trigger] ids[i]),
    ensures
        forall|k: int| 0 <= k < states.len() ==> #[trigger] states[k].next_id == states[0].next_id + k,
    decreases ids.len(),
{
    if ids.len() > 0 {
        let n = ids.len() - 1;
        lemma_next_id_grows(states.subrange(0, n + 1), ids.subrange(0, n));
        assert forall|k: int| 0 <= k < states.len() implies #[trigger] states[k].next_id == states[0].next_id + k by {
            if k < n + 1 {
                assert(states.subrange(0, n + 1)[k] == states[k]);
                assert(states.subrange(0, n + 1)[0] == states[0]);
            } else {
                assert(states.subrange(0, n + 1)[n] == states[n]);
                assert(states.subrange(0, n + 1)[0] == states[0]);
                assert(allocated(states[n], states[n + 1], ids[n]));
            }
        }
    }
}

} // verus!
