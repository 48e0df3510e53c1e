//! Pairs: a header bound to the entry it describes, the unit of the chain.

use crate::entry::{entry_json, entry_key, Entry, EntryV};
use crate::header::{header_json, header_key, Header, HeaderV};
use vstd::prelude::*;

verus! {

/// The mathematical value of a pair.
pub ghost struct PairV {
    pub header: HeaderV,
    pub entry: EntryV,
}

/// A header and its entry.
#[derive(Debug)]
pub struct Pair {
    header: Header,
    entry: Entry,
}

impl View for Pair {
    type V = PairV;

    closed spec fn view(&self) -> PairV {
        PairV { header: self.header@, entry: self.entry@ }
    }
}

/// A pair is valid when its header records the hash of its entry.
pub open spec fn pair_valid(p: PairV) -> bool {
    p.header.entry_hash == entry_key(p.entry)
}

/// The identity of a pair: the key of its header.
pub open spec fn pair_key(p: PairV) -> Seq<char> {
    header_key(p.header)
}

/// The canonical JSON object of a pair.
pub open spec fn pair_json(p: PairV) -> Seq<char> {
    "{\"header\":"@ + header_json(p.header) + ",\"entry\":"@ + entry_json(p.entry) + "}"@
}

impl Pair {
    /// The pair of `header` and `entry`.
    pub fn new(header: &Header, entry: &Entry) -> (r: Pair)
        ensures
            r@ == (PairV { header: header@, entry: entry@ }),
    {
        Pair { header: header.clone(), entry: entry.clone() }
    }

    /// The header of the pair.
    pub fn header(&self) -> (r: &Header)
        ensures
            r@ == self@.header,
    {
        &self.header
    }

    /// The entry of the pair.
    pub fn entry(&self) -> (r: &Entry)
        ensures
            r@ == self@.entry,
    {
        &self.entry
    }

    /// Whether the header records the hash of the entry.
    pub fn validate(&self) -> (r: bool)
        ensures
            r == pair_valid(self@),
            entry_key(self@.entry).len() > 0,
    {
        let h = self.entry.hash();
        self.header.entry_hash().eq(&h)
    }

    /// The identity of the pair: the key of its header.
    pub fn key(&self) -> (r: String)
        ensures
            r@ == pair_key(self@),
    {
        self.header.key()
    }

    /// The canonical JSON object of the pair.
    pub fn to_json(&self) -> (r: String)
        ensures
            r@ == pair_json(self@),
    {
        let mut out = String::from_str("{\"header\":");
        out.append(self.header.to_json().as_str());
        out.append(",\"entry\":");
        out.append(self.entry.to_json().as_str());
        out.append("}");
        out
    }
}

impl Clone for Pair {
    fn clone(&self) -> (r: Self)
        ensures
            r@ == self@,
    {
        Pair { header: self.header.clone(), entry: self.entry.clone() }
    }
}

impl PartialEq for Pair {
    fn eq(&self, other: &Pair) -> (r: bool)
        ensures
            r == (self@ == other@),
    {
        self.header.eq(&other.header) && self.entry.eq(&other.entry)
    }
}

impl vstd::std_specs::cmp::PartialEqSpecImpl for Pair {
    open spec fn obeys_eq_spec() -> bool {
        true
    }

    open spec fn eq_spec(&self, other: &Pair) -> bool {
        self@ == other@
    }
}

} // verus!
