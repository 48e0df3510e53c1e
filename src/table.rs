//! The content-addressed store: entries kept under their content hash.

use crate::entry::{entry_key, Entry, EntryV};
use vstd::prelude::*;

verus! {

/// A store of entries addressed by their key.
#[derive(Debug)]
pub struct HashTable {
    entries: Vec<Entry>,
}

impl View for HashTable {
    type V = Seq<EntryV>;

    /// Every entry put, oldest first.
    closed spec fn view(&self) -> Seq<EntryV> {
        self.entries@.map(|i: int, e: Entry| e@)
    }
}

/// The entry that the store holds under `key`: the latest one put with that key.
pub open spec fn table_lookup(s: Seq<EntryV>, key: Seq<char>) -> Option<EntryV>
    decreases s.len(),
{
    if s.len() == 0 {
        None
    } else if entry_key(s.last()) == key {
        Some(s.last())
    } else {
        table_lookup(s.drop_last(), key)
    }
}

impl HashTable {
    /// An empty store.
    pub fn new() -> (r: HashTable)
        ensures
            r@ == Seq::<EntryV>::empty(),
    {
        let r = HashTable { entries: Vec::new() };
        assert(r@ =~= Seq::<EntryV>::empty());
        r
    }

    /// Puts `entry` into the store under its key.
    pub fn put_entry(&mut self, entry: &Entry)
        ensures
            final(self)@ == old(self)@.push(entry@),
    {
        self.entries.push(entry.clone());
        assert(self@ =~= old(self)@.push(entry@));
    }

    /// A copy of the store.
    pub fn copy(&self) -> (r: HashTable)
        ensures
            r@ == self@,
    {
        let mut entries: Vec<Entry> = Vec::new();
        let mut i: usize = 0;
        while i < self.entries.len()
            invariant
                i <= self.entries@.len(),
                entries@.len() == i,
                forall|k: int| 0 <= k < i ==> #[trigger] entries@[k]@ == self.entries@[k]@,
            decreases self.entries@.len() - i,
        {
            entries.push(self.entries[i].clone());
            i = i + 1;
        }
        let r = HashTable { entries };
        assert(r@ =~= self@);
        r
    }

    /// The entry stored under `key`, if any.
    pub fn entry(&self, key: &str) -> (r: Option<Entry>)
        ensures
            match r {
                Some(e) => table_lookup(self@, key@) == Some(e@),
                None => table_lookup(self@, key@).is_none(),
            },
    {
        let wanted = String::from_str(key);
        let mut i: usize = self.entries.len();
        assert(self@.subrange(0, i as int) =~= self@);
        while i > 0
            invariant
                i <= self.entries@.len(),
                table_lookup(self@, key@) == table_lookup(self@.subrange(0, i as int), key@),
                self@.len() == self.entries@.len(),
                wanted@ == key@,
            decreases i,
        {
            let e = &self.entries[i - 1];
            let k = e.key();
            proof {
                let s = self@.subrange(0, i as int);
                assert(self@[i - 1] == self.entries@[i - 1]@);
                assert(s.last() == e@);
                assert(s.drop_last() =~= self@.subrange(0, i - 1));
            }
            if k.eq(&wanted) {
                return Some(e.clone());
            }
            i = i - 1;
        }
        None
    }
}

} // verus!
