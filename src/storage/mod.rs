use vstd::prelude::*;

use crate::error::KvError;
use crate::pb::{opt_value_view, pairs_view, Kvpair, Value, ValueModel};

pub mod memory;

verus! {

/// The contents of a store: (table, key) to value. A table that holds no key
/// cannot be told apart from one that was never written.
pub type StoreModel = Map<(Seq<char>, Seq<char>), ValueModel>;

/// The value under `key` in `table`, if any.
pub open spec fn lookup(m: StoreModel, table: Seq<char>, key: Seq<char>) -> Option<ValueModel> {
    if m.contains_key((table, key)) {
        Some(m[(table, key)])
    } else {
        None
    }
}

/// `pairs` lists table `t` of `m`: each of its entries exactly once, in any order.
pub open spec fn lists_table(
    pairs: Seq<(Seq<char>, Option<ValueModel>)>,
    m: StoreModel,
    t: Seq<char>,
) -> bool {
    &&& forall|i: int|
        0 <= i < pairs.len() ==> #[trigger] pairs[i].1 == Some(m[(t, pairs[i].0)]) && m.contains_key(
            (t, pairs[i].0),
        )
    &&& forall|i: int, j: int| 0 <= i < j < pairs.len() ==> pairs[i].0 != pairs[j].0
    &&& forall|k: Seq<char>|
        #[trigger] m.contains_key((t, k)) ==> exists|i: int| 0 <= i < pairs.len() && pairs[i].0 == k
}

/// The contents after setting each (key, value) of `kvs` into table `t`, left to right.
pub open spec fn set_all(m: StoreModel, t: Seq<char>, kvs: Seq<(Seq<char>, ValueModel)>) -> StoreModel
    decreases kvs.len(),
{
    if kvs.len() == 0 {
        m
    } else {
        set_all(m, t, kvs.drop_last()).insert((t, kvs.last().0), kvs.last().1)
    }
}

/// On a fresh key, `set` reports no prior value; a second `set` reports the
/// first value; `get` then returns the second.
pub proof fn lemma_set_returns_prior(
    m: StoreModel,
    t: Seq<char>,
    k: Seq<char>,
    v1: ValueModel,
    v2: ValueModel,
)
    requires
        !m.contains_key((t, k)),
    ensures
        lookup(m, t, k) == None::<ValueModel>,
        lookup(m.insert((t, k), v1), t, k) == Some(v1),
        lookup(m.insert((t, k), v1).insert((t, k), v2), t, k) == Some(v2),
{
}

/// Deleting a key twice: the second `del` reports no prior value and changes nothing.
pub proof fn lemma_del_idempotent(m: StoreModel, t: Seq<char>, k: Seq<char>)
    ensures
        lookup(m.remove((t, k)), t, k) == None::<ValueModel>,
        m.remove((t, k)).remove((t, k)) == m.remove((t, k)),
{
    assert(m.remove((t, k)).remove((t, k)) =~= m.remove((t, k)));
}

/// Sets of distinct keys into one table, applied one at a time in any order
/// (as concurrent sets are, each being atomic), leave every pair in the table,
/// and any listing of the table holds every pair.
pub proof fn lemma_distinct_sets_all_land(m: StoreModel, t: Seq<char>, kvs: Seq<(Seq<char>, ValueModel)>)
    requires
        forall|i: int, j: int| 0 <= i < j < kvs.len() ==> kvs[i].0 != kvs[j].0,
    ensures
        forall|i: int| 0 <= i < kvs.len() ==> lookup(set_all(m, t, kvs), t, #[trigger] kvs[i].0) == Some(kvs[i].1),
        forall|ps: Seq<(Seq<char>, Option<ValueModel>)>|
            #[trigger] lists_table(ps, set_all(m, t, kvs), t) ==> forall|i: int|
                0 <= i < kvs.len() ==> exists|j: int|
                    0 <= j < ps.len() && #[trigger] ps[j] == (#[trigger] kvs[i].0, Some(kvs[i].1)),
    decreases kvs.len(),
{
    if kvs.len() > 0 {
        let init = kvs.drop_last();
        lemma_distinct_sets_all_land(m, t, init);
        assert forall|i: int| 0 <= i < kvs.len() implies lookup(set_all(m, t, kvs), t, #[trigger] kvs[i].0)
            == Some(kvs[i].1) by {
            if i < kvs.len() - 1 {
                assert(init[i] == kvs[i]);
                assert(kvs[i].0 != kvs.last().0);
            }
        }
    }
    let fin = set_all(m, t, kvs);
    assert forall|ps: Seq<(Seq<char>, Option<ValueModel>)>|
        #[trigger] lists_table(ps, fin, t) implies forall|i: int|
        0 <= i < kvs.len() ==> exists|j: int|
            0 <= j < ps.len() && #[trigger] ps[j] == (#[trigger] kvs[i].0, Some(kvs[i].1)) by {
        assert forall|i: int| 0 <= i < kvs.len() implies exists|j: int|
            0 <= j < ps.len() && #[trigger] ps[j] == (#[trigger] kvs[i].0, Some(kvs[i].1)) by {
            assert(lookup(fin, t, kvs[i].0) == Some(kvs[i].1));
            assert(fin.contains_key((t, kvs[i].0)));
            let j = choose|j: int| 0 <= j < ps.len() && ps[j].0 == kvs[i].0;
            assert(ps[j].1 == Some(fin[(t, ps[j].0)]));
            assert(ps[j] == (kvs[i].0, Some(kvs[i].1)));
        }
    }
}

/// A single-pass snapshot of a table's pairs; yields each once, in the order given.
pub struct StorageIter {
    data: Vec<Kvpair>,
    pos: usize,
}

impl View for StorageIter {
    type V = Seq<(Seq<char>, Option<ValueModel>)>;

    /// The pairs not yet yielded, in the order they will come.
    closed spec fn view(&self) -> Seq<(Seq<char>, Option<ValueModel>)> {
        pairs_view(self.data@).subrange(self.pos as int, self.data@.len() as int)
    }
}

impl StorageIter {
    pub closed spec fn wf(&self) -> bool {
        self.pos <= self.data@.len()
    }

    pub fn new(data: Vec<Kvpair>) -> (r: Self)
        ensures
            r.wf(),
            r@ == pairs_view(data@),
    {
        let r = StorageIter { data, pos: 0 };
        proof {
            assert(r@ =~= pairs_view(r.data@));
        }
        r
    }

    /// The next pair, or `None` once every pair was yielded.
    pub fn next(&mut self) -> (r: Option<Kvpair>)
        requires
            old(self).wf(),
        ensures
            final(self).wf(),
            match r {
                Some(p) => old(self)@.len() > 0 && p@ == old(self)@[0] && final(self)@ == old(
                    self,
                )@.drop_first(),
                None => old(self)@.len() == 0 && final(self)@ == old(self)@,
            },
    {
        if self.pos < self.data.len() {
            let p = self.data[self.pos].clone();
            self.pos = self.pos + 1;
            proof {
                assert(self@ =~= old(self)@.drop_first());
            }
            Some(p)
        } else {
            None
        }
    }
}

/// The storage contract: six operations over tables of key/value pairs.
///
/// An operation that fails leaves the contents as they were; a backend that
/// reports `infallible()` never fails.
pub trait Storage {
    /// The backend's internal well-formedness.
    spec fn inv(&self) -> bool;

    /// The contents.
    spec fn model(&self) -> StoreModel;

    /// Whether every operation succeeds.
    spec fn infallible(&self) -> bool;

    /// The current value under `key` in `table`, or `None`; creates nothing.
    fn get(&self, table: &str, key: &str) -> (r: Result<Option<Value>, KvError>)
        requires
            self.inv(),
        ensures
            self.infallible() ==> r is Ok,
            r matches Ok(o) ==> opt_value_view(o) == lookup(self.model(), table@, key@),
    ;

    /// Whether `table` holds `key`.
    fn contains(&self, table: &str, key: &str) -> (r: Result<bool, KvError>)
        requires
            self.inv(),
        ensures
            self.infallible() ==> r is Ok,
            r matches Ok(b) ==> b == self.model().contains_key((table@, key@)),
    ;

    /// Insert or replace; returns the prior value, if any.
    fn set(&mut self, table: &str, key: String, value: Value) -> (r: Result<Option<Value>, KvError>)
        requires
            old(self).inv(),
        ensures
            final(self).inv(),
            final(self).infallible() == old(self).infallible(),
            old(self).infallible() ==> r is Ok,
            match r {
                Ok(o) => opt_value_view(o) == lookup(old(self).model(), table@, key@)
                    && final(self).model() == old(self).model().insert((table@, key@), value@),
                Err(_) => final(self).model() == old(self).model(),
            },
    ;

    /// Remove; returns the prior value, if any.
    fn del(&mut self, table: &str, key: &str) -> (r: Result<Option<Value>, KvError>)
        requires
            old(self).inv(),
        ensures
            final(self).inv(),
            final(self).infallible() == old(self).infallible(),
            old(self).infallible() ==> r is Ok,
            match r {
                Ok(o) => opt_value_view(o) == lookup(old(self).model(), table@, key@)
                    && final(self).model() == old(self).model().remove((table@, key@)),
                Err(_) => final(self).model() == old(self).model(),
            },
    ;

    /// Every pair of `table`, in any order; empty for a table never written.
    fn get_all(&self, table: &str) -> (r: Result<Vec<Kvpair>, KvError>)
        requires
            self.inv(),
        ensures
            self.infallible() ==> r is Ok,
            r matches Ok(ps) ==> lists_table(pairs_view(ps@), self.model(), table@),
    ;

    /// A single-pass iterator over every pair of `table`.
    fn get_iter(&self, table: &str) -> (r: Result<StorageIter, KvError>)
        requires
            self.inv(),
        ensures
            self.infallible() ==> r is Ok,
            r matches Ok(it) ==> it.wf() && lists_table(it@, self.model(), table@),
    ;
}

} // verus!
