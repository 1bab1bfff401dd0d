use vstd::prelude::*;
use crate::address::Address;
use crate::error::ErrorCode;

verus! {

/// Records keyed by their derived addresses. Creation fails on an occupied
/// address, so no record is ever overwritten by a second creation.
pub struct RecordStore<T> {
    entries: Vec<(Address, T)>,
    contents: Ghost<Map<Seq<u8>, T>>,
}

impl<T: Copy> View for RecordStore<T> {
    type V = Map<Seq<u8>, T>;

    closed spec fn view(&self) -> Map<Seq<u8>, T> {
        self.contents@
    }
}

impl<T: Copy> RecordStore<T> {
    /// Entries and contents agree, and no address occurs twice.
    pub closed spec fn wf(&self) -> bool {
        &&& forall|i: int|
            0 <= i < self.entries@.len() ==> {
                &&& self.contents@.contains_key(#[trigger] self.entries@[i].0@)
                &&& self.contents@[self.entries@[i].0@] == self.entries@[i].1
            }
        &&& forall|k: Seq<u8>|
            #[trigger] self.contents@.contains_key(k) ==> exists|i: int|
                0 <= i < self.entries@.len() && #[trigger] self.entries@[i].0@ == k
        &&& forall|i: int, j: int|
            0 <= i < j < self.entries@.len() ==> #[trigger] self.entries@[i].0@
                != #[trigger] self.entries@[j].0@
    }

    /// An empty store.
    pub fn new() -> (r: Self)
        ensures
            r.wf(),
            r@ == Map::<Seq<u8>, T>::empty(),
    {
        RecordStore { entries: Vec::new(), contents: Ghost(Map::empty()) }
    }

    /// The number of records.
    pub fn len(&self) -> (r: usize)
        requires
            self.wf(),
        ensures
            r == self@.dom().len(),
    {
        proof {
            self.lemma_len();
        }
        self.entries.len()
    }

    proof fn lemma_len(&self)
        requires
            self.wf(),
        ensures
            self.entries@.len() == self@.dom().len(),
        decreases self.entries@.len(),
    {
        let keys = self.entries@.map_values(|e: (Address, T)| e.0@);
        assert(keys.no_duplicates()) by {
            assert forall|i: int, j: int| 0 <= i < keys.len() && 0 <= j < keys.len() && i != j implies keys[i]
                != keys[j] by {
                if i < j {
                    assert(self.entries@[i].0@ != self.entries@[j].0@);
                } else {
                    assert(self.entries@[j].0@ != self.entries@[i].0@);
                }
            }
        }
        assert(keys.to_set() =~= self@.dom()) by {
            assert forall|k: Seq<u8>| keys.to_set().contains(k) <==> self@.dom().contains(k) by {
                if self@.dom().contains(k) {
                    assert(self.contents@.contains_key(k));
                    let i = choose|i: int| 0 <= i < self.entries@.len() && #[trigger] self.entries@[i].0@ == k;
                    assert(keys[i] == k);
                }
                if keys.to_set().contains(k) {
                    let i = choose|i: int| 0 <= i < keys.len() && keys[i] == k;
                    assert(self.entries@[i].0@ == k);
                }
            }
        }
        keys.unique_seq_to_set();
    }

    /// The position of the entry at `key`, if any.
    fn position(&self, key: &Address) -> (r: Option<usize>)
        requires
            self.wf(),
        ensures
            match r {
                Some(i) => i < self.entries@.len() && self.entries@[i as int].0@ == key@,
                None => !self@.contains_key(key@),
            },
    {
        let n = self.entries.len();
        let mut i: usize = 0;
        while i < n
            invariant
                self.wf(),
                n == self.entries@.len(),
                0 <= i <= n,
                forall|j: int| 0 <= j < i ==> #[trigger] self.entries@[j].0@ != key@,
            decreases n - i,
        {
            if self.entries[i].0.same(key) {
                return Some(i);
            }
            i = i + 1;
        }
        proof {
            if self@.contains_key(key@) {
                assert(self.contents@.contains_key(key@));
                let j = choose|j: int| 0 <= j < self.entries@.len() && #[trigger] self.entries@[j].0@ == key@;
                assert(false);
            }
        }
        None
    }

    /// Whether a record exists at `key`.
    pub fn contains(&self, key: &Address) -> (r: bool)
        requires
            self.wf(),
        ensures
            r == self@.contains_key(key@),
    {
        match self.position(key) {
            Some(_) => true,
            None => false,
        }
    }

    /// The record at `key`, if any.
    pub fn get(&self, key: &Address) -> (r: Option<T>)
        requires
            self.wf(),
        ensures
            r == (if self@.contains_key(key@) {
                Some(self@[key@])
            } else {
                None
            }),
    {
        match self.position(key) {
            Some(i) => Some(self.entries[i].1),
            None => None,
        }
    }

    /// Creates a record at `key`; an occupied address refuses the creation and
    /// keeps what is there.
    pub fn create(&mut self, key: Address, value: T) -> (r: Result<(), ErrorCode>)
        requires
            old(self).wf(),
        ensures
            final(self).wf(),
            old(self)@.contains_key(key@) ==> r == Err::<(), ErrorCode>(ErrorCode::AlreadyExists)
                && final(self)@ == old(self)@,
            !old(self)@.contains_key(key@) ==> r is Ok && final(self)@ == old(self)@.insert(key@, value),
    {
        if self.contains(&key) {
            return Err(ErrorCode::AlreadyExists);
        }
        let ghost old_entries = self.entries@;
        let ghost old_contents = self.contents@;
        self.entries.push((key, value));
        self.contents = Ghost(self.contents@.insert(key@, value));
        proof {
            assert forall|i: int| 0 <= i < self.entries@.len() implies {
                &&& self.contents@.contains_key(#[trigger] self.entries@[i].0@)
                &&& self.contents@[self.entries@[i].0@] == self.entries@[i].1
            } by {
                if i < old_entries.len() {
                    assert(old_entries[i] == self.entries@[i]);
                    assert(old_contents.contains_key(old_entries[i].0@));
                }
            }
            assert forall|k: Seq<u8>| #[trigger] self.contents@.contains_key(k) implies exists|i: int|
                0 <= i < self.entries@.len() && #[trigger] self.entries@[i].0@ == k by {
                if k == key@ {
                    assert(self.entries@[old_entries.len() as int].0@ == k);
                } else {
                    assert(old_contents.contains_key(k));
                    let i = choose|i: int| 0 <= i < old_entries.len() && #[trigger] old_entries[i].0@ == k;
                    assert(self.entries@[i].0@ == k);
                }
            }
            assert forall|i: int, j: int| 0 <= i < j < self.entries@.len() implies #[trigger] self.entries@[i].0@
                != #[trigger] self.entries@[j].0@ by {
                if j == old_entries.len() {
                    assert(old_contents.contains_key(old_entries[i].0@));
                } else {
                    assert(old_entries[i] == self.entries@[i]);
                    assert(old_entries[j] == self.entries@[j]);
                }
            }
        }
        Ok(())
    }

    /// Replaces the record at an occupied `key`.
    pub fn update(&mut self, key: &Address, value: T)
        requires
            old(self).wf(),
            old(self)@.contains_key(key@),
        ensures
            final(self).wf(),
            final(self)@ == old(self)@.insert(key@, value),
    {
        let i = match self.position(key) {
            Some(i) => i,
            None => {
                return ;
            },
        };
        let ghost old_entries = self.entries@;
        let ghost old_contents = self.contents@;
        let k = self.entries[i].0;
        self.entries.set(i, (k, value));
        self.contents = Ghost(self.contents@.insert(key@, value));
        proof {
            assert forall|j: int| 0 <= j < self.entries@.len() implies {
                &&& self.contents@.contains_key(#[trigger] self.entries@[j].0@)
                &&& self.contents@[self.entries@[j].0@] == self.entries@[j].1
            } by {
                if j != i {
                    assert(old_entries[j] == self.entries@[j]);
                    assert(old_contents.contains_key(old_entries[j].0@));
                    if j < i {
                        assert(old_entries[j].0@ != old_entries[i as int].0@);
                    } else {
                        assert(old_entries[i as int].0@ != old_entries[j].0@);
                    }
                }
            }
            assert forall|kk: Seq<u8>| #[trigger] self.contents@.contains_key(kk) implies exists|j: int|
                0 <= j < self.entries@.len() && #[trigger] self.entries@[j].0@ == kk by {
                if kk == key@ {
                    assert(self.entries@[i as int].0@ == kk);
                } else {
                    assert(old_contents.contains_key(kk));
                    let j = choose|j: int| 0 <= j < old_entries.len() && #[trigger] old_entries[j].0@ == kk;
                    assert(self.entries@[j].0@ == old_entries[j].0@);
                }
            }
            assert forall|a: int, b: int| 0 <= a < b < self.entries@.len() implies #[trigger] self.entries@[a].0@
                != #[trigger] self.entries@[b].0@ by {
                assert(self.entries@[a].0@ == old_entries[a].0@);
                assert(self.entries@[b].0@ == old_entries[b].0@);
            }
        }
    }
}

} // verus!
