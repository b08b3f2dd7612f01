use vstd::prelude::*;
use crate::address::marker_address_of;
use crate::key::Key;
use crate::marker::{Marker, MarkerView};

verus! {

/// One stored record and the address it lives at.
#[derive(Debug)]
pub struct Entry {
    pub address: Key,
    pub marker: Marker,
}

/// The store of records of one program, each reached by its address.
#[derive(Debug)]
pub struct Registry {
    pub program_id: Key,
    pub records: Vec<Entry>,
}

impl Registry {
    pub open spec fn has_address(&self, a: Seq<u8>) -> bool {
        exists|i: int| 0 <= i < self.records@.len() && (#[trigger] self.records@[i]).address@ == a
    }

    pub open spec fn index_of(&self, a: Seq<u8>) -> int {
        choose|i: int| 0 <= i < self.records@.len() && (#[trigger] self.records@[i]).address@ == a
    }

    /// Every address holds at most one record, and each record lives at the
    /// address derived from its own domain name.
    pub open spec fn wf(&self) -> bool {
        &&& forall|i: int, j: int|
            0 <= i < self.records@.len() && 0 <= j < self.records@.len() && i != j
                ==> (#[trigger] self.records@[i]).address@ != (#[trigger] self.records@[j]).address@
        &&& forall|i: int|
            0 <= i < self.records@.len() ==> marker_address_of(
                self.program_id@,
                (#[trigger] self.records@[i]).marker.domain@,
            ) == Some(self.records@[i].address@)
    }

    /// Whether `a` is the derived address of `domain` under this program.
    pub open spec fn addresses(&self, a: Seq<u8>, domain: Seq<char>) -> bool {
        marker_address_of(self.program_id@, domain) == Some(a)
    }

    pub proof fn lemma_view_at(&self, i: int)
        requires
            self.wf(),
            0 <= i < self.records@.len(),
        ensures
            self@.contains_key(self.records@[i].address@),
            self@[self.records@[i].address@] == self.records@[i].marker@,
    {
        let a = self.records@[i].address@;
        assert(self.has_address(a));
        let j = self.index_of(a);
        assert(self.records@[j].address@ == a);
    }

    /// An empty store for the program `program_id`.
    pub fn new(program_id: Key) -> (r: Registry)
        ensures
            r.wf(),
            r.program_id@ == program_id@,
            r@ == Map::<Seq<u8>, MarkerView>::empty(),
    {
        let r = Registry { program_id, records: Vec::new() };
        assert(r@ =~= Map::<Seq<u8>, MarkerView>::empty());
        r
    }

    /// The position of the record at `address`, if there is one.
    pub fn find(&self, address: &Key) -> (r: Option<usize>)
        requires
            self.wf(),
        ensures
            r is None ==> !self@.contains_key(address@),
            r matches Some(i) ==> {
                &&& i < self.records@.len()
                &&& self.records@[i as int].address@ == address@
                &&& self@.contains_key(address@)
                &&& self@[address@] == self.records@[i as int].marker@
            },
    {
        let mut i: usize = 0;
        while i < self.records.len()
            invariant
                self.wf(),
                i <= self.records@.len(),
                forall|j: int| 0 <= j < i ==> (#[trigger] self.records@[j]).address@ != address@,
            decreases self.records@.len() - i,
        {
            if self.records[i].address.same(address) {
                proof {
                    self.lemma_view_at(i as int);
                }
                return Some(i);
            }
            i = i + 1;
        }
        None
    }

    /// The record at `address`, if there is one.
    pub fn get(&self, address: &Key) -> (r: Option<&Marker>)
        requires
            self.wf(),
        ensures
            r is None ==> !self@.contains_key(address@),
            r matches Some(m) ==> self@.contains_key(address@) && self@[address@] == m@,
    {
        match self.find(address) {
            Some(i) => Some(&self.records[i].marker),
            None => None,
        }
    }

    /// Stores `marker` at `address`, where nothing was stored.
    pub(crate) fn insert_new(&mut self, address: Key, marker: Marker)
        requires
            old(self).wf(),
            !old(self)@.contains_key(address@),
            old(self).addresses(address@, marker.domain@),
        ensures
            final(self).wf(),
            final(self).program_id == old(self).program_id,
            final(self)@ == old(self)@.insert(address@, marker@),
    {
        let ghost pre = *self;
        let ghost m = marker@;
        self.records.push(Entry { address, marker });
        proof {
            let n = pre.records@.len();
            assert(self.records@[n as int].address@ == address@);
            assert forall|i: int| 0 <= i < n implies self.records@[i] == pre.records@[i] by {}
            assert forall|i: int| 0 <= i < n implies (#[trigger] pre.records@[i]).address@ != address@ by {
                pre.lemma_view_at(i);
            }
            assert(self.wf());
            assert forall|a: Seq<u8>| #[trigger] self@.contains_key(a) <==> pre@.insert(address@, m).contains_key(a) by {
                if self.has_address(a) {
                    let i = choose|i: int| 0 <= i < self.records@.len() && (#[trigger] self.records@[i]).address@ == a;
                    if i < n {
                        assert(pre.records@[i].address@ == a);
                    }
                }
                if pre.has_address(a) {
                    let i = choose|i: int| 0 <= i < pre.records@.len() && (#[trigger] pre.records@[i]).address@ == a;
                    assert(self.records@[i].address@ == a);
                }
            }
            assert forall|a: Seq<u8>| #[trigger] self@.contains_key(a) implies self@[a] == pre@.insert(address@, m)[a] by {
                let i = self.index_of(a);
                self.lemma_view_at(i);
                if i < n {
                    pre.lemma_view_at(i);
                }
            }
            assert(self@ =~= pre@.insert(address@, m));
        }
    }

    /// Sets the owner of the record at position `i`.
    pub(crate) fn set_owner_at(&mut self, i: usize, owner: Key)
        requires
            old(self).wf(),
            i < old(self).records@.len(),
        ensures
            final(self).wf(),
            final(self).program_id == old(self).program_id,
            final(self)@ == old(self)@.insert(
                old(self).records@[i as int].address@,
                MarkerView { owner: owner@, ..old(self).records@[i as int].marker@ },
            ),
    {
        let ghost pre = *self;
        let mut e = self.records.remove(i);
        e.marker.owner = owner;
        self.records.insert(i, e);
        proof {
            let a = pre.records@[i as int].address@;
            let m = MarkerView { owner: owner@, ..pre.records@[i as int].marker@ };
            assert forall|j: int| 0 <= j < self.records@.len() && j != i implies self.records@[j] == pre.records@[j] by {}
            assert(self.records@[i as int].address@ == a);
            assert(self.wf());
            assert forall|b: Seq<u8>| #[trigger] self@.contains_key(b) <==> pre@.insert(a, m).contains_key(b) by {
                if self.has_address(b) {
                    let j = choose|j: int| 0 <= j < self.records@.len() && (#[trigger] self.records@[j]).address@ == b;
                    assert(pre.records@[j].address@ == b);
                }
                if pre.has_address(b) {
                    let j = choose|j: int| 0 <= j < pre.records@.len() && (#[trigger] pre.records@[j]).address@ == b;
                    assert(self.records@[j].address@ == b);
                }
            }
            assert forall|b: Seq<u8>| #[trigger] self@.contains_key(b) implies self@[b] == pre@.insert(a, m)[b] by {
                let j = self.index_of(b);
                self.lemma_view_at(j);
                pre.lemma_view_at(j);
                pre.lemma_view_at(i as int);
                assert(self.records@[i as int].marker@ == m);
            }
            assert(self@ =~= pre@.insert(a, m));
        }
    }

    /// Removes the record at position `i`.
    pub(crate) fn remove_at(&mut self, i: usize)
        requires
            old(self).wf(),
            i < old(self).records@.len(),
        ensures
            final(self).wf(),
            final(self).program_id == old(self).program_id,
            final(self)@ == old(self)@.remove(old(self).records@[i as int].address@),
    {
        let ghost pre = *self;
        self.records.remove(i);
        proof {
            let a = pre.records@[i as int].address@;
            let n = pre.records@.len();
            assert forall|j: int| 0 <= j < self.records@.len() implies #[trigger] self.records@[j] == pre.records@[if j < i { j } else { j + 1 }] by {}
            assert forall|j: int, k: int|
                0 <= j < self.records@.len() && 0 <= k < self.records@.len() && j != k
                implies (#[trigger] self.records@[j]).address@ != (#[trigger] self.records@[k]).address@ by {
                let jj = if j < i { j } else { j + 1 };
                let kk = if k < i { k } else { k + 1 };
                assert(self.records@[j] == pre.records@[jj]);
                assert(self.records@[k] == pre.records@[kk]);
            }
            assert forall|j: int| 0 <= j < self.records@.len() implies marker_address_of(
                self.program_id@,
                (#[trigger] self.records@[j]).marker.domain@,
            ) == Some(self.records@[j].address@) by {
                let jj = if j < i { j } else { j + 1 };
                assert(self.records@[j] == pre.records@[jj]);
            }
            assert(self.wf());
            assert forall|b: Seq<u8>| #[trigger] self@.contains_key(b) <==> pre@.remove(a).contains_key(b) by {
                if self.has_address(b) {
                    let j = choose|j: int| 0 <= j < self.records@.len() && (#[trigger] self.records@[j]).address@ == b;
                    let jj = if j < i { j } else { j + 1 };
                    assert(self.records@[j] == pre.records@[jj]);
                    assert(pre.records@[jj].address@ == b);
                    assert(jj != i);
                }
                if pre.has_address(b) && b != a {
                    let j = choose|j: int| 0 <= j < pre.records@.len() && (#[trigger] pre.records@[j]).address@ == b;
                    assert(j != i);
                    let jj = if j < i { j } else { j - 1 };
                    assert(self.records@[jj] == pre.records@[j]);
                    assert(self.records@[jj].address@ == b);
                }
            }
            assert forall|b: Seq<u8>| #[trigger] self@.contains_key(b) implies self@[b] == pre@.remove(a)[b] by {
                let j = self.index_of(b);
                self.lemma_view_at(j);
                let jj = if j < i { j } else { j + 1 };
                assert(self.records@[j] == pre.records@[jj]);
                pre.lemma_view_at(jj);
            }
            assert(self@ =~= pre@.remove(a));
        }
    }
}

impl View for Registry {
    type V = Map<Seq<u8>, MarkerView>;

    open spec fn view(&self) -> Map<Seq<u8>, MarkerView> {
        Map::new(|a: Seq<u8>| self.has_address(a), |a: Seq<u8>| self.records@[self.index_of(a)].marker@)
    }
}

} // verus!
