//! The registry of live VMs: a map from a VM's identifier to its handle.
//!
//! The store holds each identifier at most once. It is not shared by
//! itself: its owner guards it with a lock where several tasks use it.

use vstd::prelude::*;

verus! {

/// A registry of handles of type `H`, one for each identifier.
pub struct VmStore<H> {
    entries: Vec<(String, H)>,
}

impl<H> View for VmStore<H> {
    type V = Map<Seq<char>, H>;

    /// The handle of each identifier in the store.
    closed spec fn view(&self) -> Map<Seq<char>, H> {
        Map::new(
            |id: Seq<char>| self.ids().contains(id),
            |id: Seq<char>| self.entries@[self.ids().index_of(id)].1,
        )
    }
}

impl<H> VmStore<H> {
    /// The identifiers in the store, in the order of their entries.
    pub closed spec fn ids(&self) -> Seq<Seq<char>> {
        self.entries@.map_values(|e: (String, H)| e.0@)
    }

    /// What holds of every store that [`VmStore::new`] made and the
    /// methods changed: no identifier occurs twice.
    pub closed spec fn wf(&self) -> bool {
        self.ids().no_duplicates()
    }

    /// The identifiers in a store are pairwise distinct, and they are the
    /// keys of the store's map.
    pub proof fn lemma_ids_distinct(&self)
        requires
            self.wf(),
        ensures
            forall|i: int, j: int|
                0 <= i < j < self.ids().len() ==> self.ids()[i] != self.ids()[j],
            self.ids().to_set() == self@.dom(),
            self@.dom().finite(),
            self@.len() == self.ids().len(),
    {
        assert(self.ids().to_set() =~= self@.dom());
        vstd::seq_lib::seq_to_set_is_finite(self.ids());
        self.ids().unique_seq_to_set();
    }

    /// An empty store.
    pub fn new() -> (store: Self)
        ensures
            store.wf(),
            store@ == Map::<Seq<char>, H>::empty(),
    {
        let store = VmStore { entries: Vec::new() };
        assert(store@ =~= Map::<Seq<char>, H>::empty());
        store
    }

    fn position(&self, id: &str) -> (r: Option<usize>)
        ensures
            match r {
                Some(i) => i < self.entries@.len() && self.ids()[i as int] == id@,
                None => !self.ids().contains(id@),
            },
    {
        let wanted = id.to_owned();
        let mut i: usize = 0;
        while i < self.entries.len()
            invariant
                i <= self.entries@.len(),
                wanted@ == id@,
                forall|k: int| 0 <= k < i ==> self.ids()[k] != id@,
            decreases self.entries@.len() - i,
        {
            if self.entries[i].0 == wanted {
                return Some(i);
            }
            i += 1;
        }
        None
    }

    /// Registers `vm` under `id`. A handle that was registered under the
    /// same identifier gives way to the new one, so that no identifier
    /// occurs twice.
    pub fn add_vm(&mut self, id: &str, vm: H)
        requires
            old(self).wf(),
        ensures
            final(self).wf(),
            final(self)@ == old(self)@.insert(id@, vm),
    {
        let ghost before = *self;
        match self.position(id) {
            Some(i) => {
                let ghost ids = self.ids();
                self.entries.remove(i);
                assert(self.ids() =~= ids.remove(i as int));
                assert(before.ids().remove(i as int).no_duplicates());
                assert(!self.ids().contains(id@)) by {
                    if self.ids().contains(id@) {
                        let k = choose|k: int| 0 <= k < self.ids().len() && self.ids()[k] == id@;
                        if k < i {
                            assert(ids[k] == ids[i as int]);
                        } else {
                            assert(ids[k + 1] == ids[i as int]);
                        }
                    }
                }
            },
            None => {},
        }
        let ghost middle = *self;
        self.entries.push((id.to_owned(), vm));
        assert(self.ids() =~= middle.ids().push(id@));
        assert(self.ids().no_duplicates());
        assert(self@ =~= before@.insert(id@, vm)) by {
            assert forall|k: Seq<char>| self@.contains_key(k) <==> before@.insert(
                id@,
                vm,
            ).contains_key(k) by {
                if self.ids().contains(k) {
                    let j = choose|j: int| 0 <= j < self.ids().len() && self.ids()[j] == k;
                    if j < middle.ids().len() {
                        assert(middle.ids()[j] == k);
                        Self::lemma_sub_ids(before, middle, id@, k);
                    }
                }
                if before.ids().contains(k) && k != id@ {
                    Self::lemma_sub_ids(before, middle, id@, k);
                    let j = choose|j: int| 0 <= j < middle.ids().len() && middle.ids()[j] == k;
                    assert(self.ids()[j] == k);
                }
                if k == id@ {
                    assert(self.ids()[self.ids().len() - 1] == k);
                }
            }
            assert forall|k: Seq<char>| self@.contains_key(k) implies self@[k] == before@.insert(
                id@,
                vm,
            )[k] by {
                let j = self.ids().index_of(k);
                assert(self.ids()[j] == k);
                if k == id@ {
                    assert(self.ids()[self.ids().len() - 1] == k);
                    assert(j == self.ids().len() - 1);
                } else {
                    assert(j < middle.ids().len());
                    assert(middle.ids()[j] == k);
                    Self::lemma_sub_ids(before, middle, id@, k);
                    Self::lemma_sub_value(before, middle, id@, k);
                    let m = middle.ids().index_of(k);
                    assert(middle.ids()[m] == k);
                    assert(self.ids()[m] == k);
                    assert(m == j);
                }
            }
        }
    }

    /// `after` holds what `before` holds, but for the identifier `gone`:
    /// either nothing was removed, or one entry of that identifier was.
    spec fn is_without(before: Self, after: Self, gone: Seq<char>) -> bool {
        ||| after.entries@ == before.entries@ && !before.ids().contains(gone)
        ||| exists|i: int|
            0 <= i < before.entries@.len() && before.ids()[i] == gone && after.entries@
                == before.entries@.remove(i)
    }

    proof fn lemma_sub_ids(before: Self, after: Self, gone: Seq<char>, k: Seq<char>)
        requires
            before.ids().no_duplicates(),
            Self::is_without(before, after, gone),
        ensures
            after.ids().contains(k) <==> before.ids().contains(k) && k != gone,
            after.ids().no_duplicates(),
    {
        if after.entries@ == before.entries@ && !before.ids().contains(gone) {
        } else {
            let i = choose|i: int|
                0 <= i < before.entries@.len() && before.ids()[i] == gone && after.entries@
                    == before.entries@.remove(i);
            assert(after.ids() =~= before.ids().remove(i));
            if after.ids().contains(k) {
                let j = choose|j: int| 0 <= j < after.ids().len() && after.ids()[j] == k;
                if j < i {
                    assert(before.ids()[j] == k);
                } else {
                    assert(before.ids()[j + 1] == k);
                }
            }
            if before.ids().contains(k) && k != gone {
                let j = choose|j: int| 0 <= j < before.ids().len() && before.ids()[j] == k;
                if j < i {
                    assert(after.ids()[j] == k);
                } else {
                    assert(after.ids()[j - 1] == k);
                }
            }
        }
    }

    proof fn lemma_sub_value(before: Self, after: Self, gone: Seq<char>, k: Seq<char>)
        requires
            before.ids().no_duplicates(),
            Self::is_without(before, after, gone),
            after.ids().contains(k),
        ensures
            before.ids().contains(k),
            after.entries@[after.ids().index_of(k)].1 == before.entries@[before.ids().index_of(k)].1,
    {
        Self::lemma_sub_ids(before, after, gone, k);
        let a = after.ids().index_of(k);
        let b = before.ids().index_of(k);
        assert(after.ids()[a] == k);
        assert(before.ids()[b] == k);
        if after.entries@ == before.entries@ && !before.ids().contains(gone) {
            assert(before.ids()[a] == k);
        } else {
            let i = choose|i: int|
                0 <= i < before.entries@.len() && before.ids()[i] == gone && after.entries@
                    == before.entries@.remove(i);
            assert(after.ids() =~= before.ids().remove(i));
            if a < i {
                assert(before.ids()[a] == k);
                assert(a == b);
            } else {
                assert(before.ids()[a + 1] == k);
                assert(a + 1 == b);
            }
        }
    }

    /// The handle registered under `id`, if there is one.
    pub fn get_vm(&self, id: &str) -> (r: Option<&H>)
        requires
            self.wf(),
        ensures
            match r {
                Some(vm) => self@.contains_key(id@) && *vm == self@[id@],
                None => !self@.contains_key(id@),
            },
    {
        match self.position(id) {
            Some(i) => {
                assert(self.ids()[i as int] == id@);
                assert(self.ids()[self.ids().index_of(id@)] == id@);
                Some(&self.entries[i].1)
            },
            None => None,
        }
    }

    /// Removes the handle registered under `id`. Where there is none the
    /// store stays as it is.
    pub fn remove_vm(&mut self, id: &str)
        requires
            old(self).wf(),
        ensures
            final(self).wf(),
            final(self)@ == old(self)@.remove(id@),
    {
        let ghost before = *self;
        match self.position(id) {
            Some(i) => {
                self.entries.remove(i);
                assert(self.ids() =~= before.ids().remove(i as int));
            },
            None => {},
        }
        proof {
            assert(Self::is_without(before, *self, id@));
            assert forall|k: Seq<char>| self@.contains_key(k) <==> before@.remove(
                id@,
            ).contains_key(k) by {
                Self::lemma_sub_ids(before, *self, id@, k);
            }
            assert forall|k: Seq<char>| self@.contains_key(k) implies self@[k] == before@.remove(
                id@,
            )[k] by {
                Self::lemma_sub_ids(before, *self, id@, k);
                Self::lemma_sub_value(before, *self, id@, k);
            }
            Self::lemma_sub_ids(before, *self, id@, id@);
            assert(self@ =~= before@.remove(id@));
        }
    }

    /// The number of handles in the store.
    pub fn len(&self) -> (n: usize)
        requires
            self.wf(),
        ensures
            n == self@.len(),
    {
        proof {
            self.lemma_ids_distinct();
        }
        self.entries.len()
    }
}

} // verus!
