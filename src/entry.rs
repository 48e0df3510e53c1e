//! Entries: the typed content that an agent commits to its chain.

use crate::hash::{content_hash, hash_of, json_string, json_string_of};
use vstd::prelude::*;

verus! {

/// The mathematical value of an entry.
pub ghost struct EntryV {
    pub entry_type: Seq<char>,
    pub content: Seq<char>,
}

/// An immutable piece of typed content.
#[derive(Debug)]
pub struct Entry {
    entry_type: String,
    content: String,
}

impl View for Entry {
    type V = EntryV;

    closed spec fn view(&self) -> EntryV {
        EntryV { entry_type: self.entry_type@, content: self.content@ }
    }
}

/// The content address of an entry: the hash of its content.
pub open spec fn entry_key(e: EntryV) -> Seq<char> {
    hash_of(e.content)
}

/// The canonical JSON object of an entry.
pub open spec fn entry_json(e: EntryV) -> Seq<char> {
    "{\"content\":"@ + json_string_of(e.content) + ",\"entry_type\":"@ + json_string_of(
        e.entry_type,
    ) + "}"@
}

impl Entry {
    /// An entry of type `entry_type` holding `content`.
    pub fn new(entry_type: &str, content: &str) -> (r: Entry)
        ensures
            r@ == (EntryV { entry_type: entry_type@, content: content@ }),
    {
        Entry { entry_type: String::from_str(entry_type), content: String::from_str(content) }
    }

    /// The entry's type.
    pub fn entry_type(&self) -> (r: &String)
        ensures
            r@ == self@.entry_type,
    {
        &self.entry_type
    }

    /// The entry's content.
    pub fn content(&self) -> (r: &String)
        ensures
            r@ == self@.content,
    {
        &self.content
    }

    /// The content address of the entry.
    pub fn hash(&self) -> (r: String)
        ensures
            r@ == entry_key(self@),
            r@.len() > 0,
    {
        content_hash(self.content.as_str())
    }

    /// The key under which the entry is stored: its hash.
    pub fn key(&self) -> (r: String)
        ensures
            r@ == entry_key(self@),
    {
        self.hash()
    }

    /// The canonical JSON object of the entry.
    pub fn to_json(&self) -> (r: String)
        ensures
            r@ == entry_json(self@),
    {
        let mut out = String::from_str("{\"content\":");
        out.append(json_string(self.content.as_str()).as_str());
        out.append(",\"entry_type\":");
        out.append(json_string(self.entry_type.as_str()).as_str());
        out.append("}");
        out
    }
}

impl Clone for Entry {
    fn clone(&self) -> (r: Self)
        ensures
            r == *self,
    {
        Entry { entry_type: self.entry_type.clone(), content: self.content.clone() }
    }
}

impl PartialEq for Entry {
    fn eq(&self, other: &Entry) -> (r: bool)
        ensures
            r == (self@ == other@),
    {
        self.entry_type.eq(&other.entry_type) && self.content.eq(&other.content)
    }
}

impl vstd::std_specs::cmp::PartialEqSpecImpl for Entry {
    open spec fn obeys_eq_spec() -> bool {
        true
    }

    open spec fn eq_spec(&self, other: &Entry) -> bool {
        self@ == other@
    }
}

} // verus!
