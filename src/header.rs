//! Headers: the metadata that links an entry into the chain's history.

use crate::entry::{Entry, EntryV};
use crate::hash::{content_hash, hash_of, json_string, json_string_of};
use vstd::prelude::*;

verus! {

/// The mathematical value of a header.
pub ghost struct HeaderV {
    pub entry_type: Seq<char>,
    pub timestamp: Seq<char>,
    pub link: Option<Seq<char>>,
    pub entry_hash: Seq<char>,
    pub entry_signature: Seq<char>,
    pub link_same_type: Option<Seq<char>>,
}

/// An immutable header.
#[derive(Debug)]
pub struct Header {
    entry_type: String,
    timestamp: String,
    link: Option<String>,
    entry_hash: String,
    entry_signature: String,
    link_same_type: Option<String>,
}

/// The view of an optional string.
pub open spec fn opt_view(o: Option<String>) -> Option<Seq<char>> {
    match o {
        Some(s) => Some(s@),
        None => None,
    }
}

impl View for Header {
    type V = HeaderV;

    closed spec fn view(&self) -> HeaderV {
        HeaderV {
            entry_type: self.entry_type@,
            timestamp: self.timestamp@,
            link: opt_view(self.link),
            entry_hash: self.entry_hash@,
            entry_signature: self.entry_signature@,
            link_same_type: opt_view(self.link_same_type),
        }
    }
}

/// The entry type under which headers are stored.
pub const HEADER_ENTRY_TYPE: &'static str = "%header";

/// JSON for an optional string: `null`, or the quoted string.
pub open spec fn opt_json(o: Option<Seq<char>>) -> Seq<char> {
    match o {
        Some(s) => json_string_of(s),
        None => "null"@,
    }
}

/// An optional string, or the empty string.
pub open spec fn or_empty(o: Option<Seq<char>>) -> Seq<char> {
    match o {
        Some(s) => s,
        None => Seq::empty(),
    }
}

/// The canonical JSON object of a header.
pub open spec fn header_json(h: HeaderV) -> Seq<char> {
    "{\"entry_type\":"@ + json_string_of(h.entry_type) + ",\"timestamp\":"@ + json_string_of(
        h.timestamp,
    ) + ",\"link\":"@ + opt_json(h.link) + ",\"entry_hash\":"@ + json_string_of(h.entry_hash)
        + ",\"entry_signature\":"@ + json_string_of(h.entry_signature) + ",\"link_same_type\":"@
        + opt_json(h.link_same_type) + "}"@
}

/// The header's own hash: the hash of its fields written one after another.
pub open spec fn header_hash(h: HeaderV) -> Seq<char> {
    hash_of(
        h.entry_type + h.timestamp + or_empty(h.link) + h.entry_hash + or_empty(h.link_same_type)
            + h.entry_signature,
    )
}

/// The entry that stores a header: its JSON under the header entry type.
pub open spec fn header_entry(h: HeaderV) -> EntryV {
    EntryV { entry_type: HEADER_ENTRY_TYPE@, content: header_json(h) }
}

/// The key of a header: the hash of its JSON, which is the key of its stored entry.
pub open spec fn header_key(h: HeaderV) -> Seq<char> {
    hash_of(header_json(h))
}

pub(crate) fn clone_opt(o: &Option<String>) -> (r: Option<String>)
    ensures
        opt_view(r) == opt_view(*o),
{
    match o {
        Some(s) => Some(s.clone()),
        None => None,
    }
}

fn opt_to_json(o: &Option<String>) -> (r: String)
    ensures
        r@ == opt_json(opt_view(*o)),
{
    match o {
        Some(s) => json_string(s.as_str()),
        None => String::from_str("null"),
    }
}

fn append_opt(out: &mut String, o: &Option<String>)
    ensures
        final(out)@ == old(out)@ + or_empty(opt_view(*o)),
{
    match o {
        Some(s) => out.append(s.as_str()),
        None => {
            assert(old(out)@ + Seq::<char>::empty() =~= old(out)@);
        },
    }
}

impl Header {
    /// A header with the given fields.
    pub fn new(
        entry_type: &str,
        timestamp: &str,
        link: Option<String>,
        entry_hash: &str,
        entry_signature: &str,
        link_same_type: Option<String>,
    ) -> (r: Header)
        ensures
            r@ == (HeaderV {
                entry_type: entry_type@,
                timestamp: timestamp@,
                link: opt_view(link),
                entry_hash: entry_hash@,
                entry_signature: entry_signature@,
                link_same_type: opt_view(link_same_type),
            }),
    {
        Header {
            entry_type: String::from_str(entry_type),
            timestamp: String::from_str(timestamp),
            link,
            entry_hash: String::from_str(entry_hash),
            entry_signature: String::from_str(entry_signature),
            link_same_type,
        }
    }

    /// The type of the entry that the header describes.
    pub fn entry_type(&self) -> (r: &String)
        ensures
            r@ == self@.entry_type,
    {
        &self.entry_type
    }

    /// The time of the commit.
    pub fn timestamp(&self) -> (r: &String)
        ensures
            r@ == self@.timestamp,
    {
        &self.timestamp
    }

    /// The key of the previous pair's header, if any.
    pub fn link(&self) -> (r: Option<String>)
        ensures
            opt_view(r) == self@.link,
    {
        clone_opt(&self.link)
    }

    /// The hash of the entry that the header describes.
    pub fn entry_hash(&self) -> (r: &String)
        ensures
            r@ == self@.entry_hash,
    {
        &self.entry_hash
    }

    /// The signature of the entry.
    pub fn entry_signature(&self) -> (r: &String)
        ensures
            r@ == self@.entry_signature,
    {
        &self.entry_signature
    }

    /// The hash of the previous header whose entry has the same type, if any.
    pub fn link_same_type(&self) -> (r: Option<String>)
        ensures
            opt_view(r) == self@.link_same_type,
    {
        clone_opt(&self.link_same_type)
    }

    /// The header's own hash, over its fields.
    pub fn hash(&self) -> (r: String)
        ensures
            r@ == header_hash(self@),
    {
        let mut s = self.entry_type.clone();
        s.append(self.timestamp.as_str());
        append_opt(&mut s, &self.link);
        s.append(self.entry_hash.as_str());
        append_opt(&mut s, &self.link_same_type);
        s.append(self.entry_signature.as_str());
        content_hash(s.as_str())
    }

    /// The canonical JSON object of the header.
    pub fn to_json(&self) -> (r: String)
        ensures
            r@ == header_json(self@),
    {
        let mut out = String::from_str("{\"entry_type\":");
        out.append(json_string(self.entry_type.as_str()).as_str());
        out.append(",\"timestamp\":");
        out.append(json_string(self.timestamp.as_str()).as_str());
        out.append(",\"link\":");
        out.append(opt_to_json(&self.link).as_str());
        out.append(",\"entry_hash\":");
        out.append(json_string(self.entry_hash.as_str()).as_str());
        out.append(",\"entry_signature\":");
        out.append(json_string(self.entry_signature.as_str()).as_str());
        out.append(",\"link_same_type\":");
        out.append(opt_to_json(&self.link_same_type).as_str());
        out.append("}");
        out
    }

    /// The entry under which the header is stored.
    pub fn to_entry(&self) -> (r: Entry)
        ensures
            r@ == header_entry(self@),
    {
        let json = self.to_json();
        Entry::new(HEADER_ENTRY_TYPE, json.as_str())
    }

    /// The key of the header: the key of its stored entry.
    pub fn key(&self) -> (r: String)
        ensures
            r@ == header_key(self@),
    {
        let json = self.to_json();
        content_hash(json.as_str())
    }
}

impl Clone for Header {
    fn clone(&self) -> (r: Self)
        ensures
            r@ == self@,
    {
        Header {
            entry_type: self.entry_type.clone(),
            timestamp: self.timestamp.clone(),
            link: clone_opt(&self.link),
            entry_hash: self.entry_hash.clone(),
            entry_signature: self.entry_signature.clone(),
            link_same_type: clone_opt(&self.link_same_type),
        }
    }
}

pub(crate) fn opt_eq(a: &Option<String>, b: &Option<String>) -> (r: bool)
    ensures
        r == (opt_view(*a) == opt_view(*b)),
{
    match a {
        Some(x) => match b {
            Some(y) => x.eq(y),
            None => false,
        },
        None => b.is_none(),
    }
}

impl PartialEq for Header {
    fn eq(&self, other: &Header) -> (r: bool)
        ensures
            r == (self@ == other@),
    {
        self.entry_type.eq(&other.entry_type) && self.timestamp.eq(&other.timestamp) && opt_eq(
            &self.link,
            &other.link,
        ) && self.entry_hash.eq(&other.entry_hash) && self.entry_signature.eq(
            &other.entry_signature,
        ) && opt_eq(&self.link_same_type, &other.link_same_type)
    }
}

impl vstd::std_specs::cmp::PartialEqSpecImpl for Header {
    open spec fn obeys_eq_spec() -> bool {
        true
    }

    open spec fn eq_spec(&self, other: &Header) -> bool {
        self@ == other@
    }
}

} // verus!
