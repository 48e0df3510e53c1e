//! Decoding the canonical JSON of a chain: an array of pair objects, each with a
//! `header` and an `entry` object whose fields are strings or null.

use crate::entry::{Entry, EntryV};
use crate::header::{clone_opt, opt_view, Header, HeaderV};
use crate::pair::{Pair, PairV};
use std::collections::BTreeMap;
use vstd::prelude::*;

verus! {

/// The fields of a flat JSON object, by key in ascending order: a string or null each.
pub type FieldsV = Seq<(Seq<char>, Option<Seq<char>>)>;

/// A JSON object whose fields are flat objects, by key in ascending order.
pub type ObjectV = Seq<(Seq<char>, FieldsV)>;

/// An exec value of a flat object.
pub type Fields = Vec<(String, Option<String>)>;

/// An exec value of an object of flat objects.
pub type Object = Vec<(String, Fields)>;

/// What `serde_json::from_str` reads from `s` as an array of objects of flat objects with
/// string-or-null fields, or `None` where `s` is not such JSON.
pub uninterp spec fn json_objects_of(s: Seq<char>) -> Option<Seq<ObjectV>>;

/// The view of a flat object.
pub open spec fn fields_view(f: Fields) -> FieldsV {
    f@.map_values(|x: (String, Option<String>)| (x.0@, opt_view(x.1)))
}

/// The view of an object of flat objects.
pub open spec fn object_view(o: Object) -> ObjectV {
    o@.map_values(|x: (String, Fields)| (x.0@, fields_view(x.1)))
}

/// The view of a parsed array.
pub open spec fn objects_view(r: Option<Vec<Object>>) -> Option<Seq<ObjectV>> {
    match r {
        Some(v) => Some(v@.map_values(|o: Object| object_view(o))),
        None => None,
    }
}

/// Relies on `serde_json::from_str` into a `Vec` of `BTreeMap`s of `BTreeMap`s of
/// `Option<String>`; a `BTreeMap` is walked in ascending key order.
#[verifier::external_body]
fn parse_objects(s: &str) -> (r: Option<Vec<Object>>)
    ensures
        objects_view(r) == json_objects_of(s@),
{
    serde_json::from_str::<Vec<BTreeMap<String, BTreeMap<String, Option<String>>>>>(s).ok().map(
        |v| {
            v.into_iter().map(|o| o.into_iter().map(|(k, f)| (k, f.into_iter().collect())).collect())
                .collect()
        },
    )
}

/// The value under key `k`, if the object has one.
pub open spec fn lookup<V>(s: Seq<(Seq<char>, V)>, k: Seq<char>) -> Option<V>
    decreases s.len(),
{
    if s.len() == 0 {
        None
    } else if s[0].0 == k {
        Some(s[0].1)
    } else {
        lookup(s.subrange(1, s.len() as int), k)
    }
}

/// A string field: present and not null.
pub open spec fn string_field(f: FieldsV, k: Seq<char>) -> Option<Seq<char>> {
    match lookup(f, k) {
        Some(Some(v)) => Some(v),
        _ => None,
    }
}

/// The header that a flat object describes, if it has all six fields.
pub open spec fn decode_header(f: FieldsV) -> Option<HeaderV> {
    match (
        string_field(f, "entry_type"@),
        string_field(f, "timestamp"@),
        lookup(f, "link"@),
        string_field(f, "entry_hash"@),
        string_field(f, "entry_signature"@),
        lookup(f, "link_same_type"@),
    ) {
        (Some(t), Some(ts), Some(l), Some(h), Some(sig), Some(lst)) => Some(
            HeaderV {
                entry_type: t,
                timestamp: ts,
                link: l,
                entry_hash: h,
                entry_signature: sig,
                link_same_type: lst,
            },
        ),
        _ => None,
    }
}

/// The entry that a flat object describes, if it has both fields.
pub open spec fn decode_entry(f: FieldsV) -> Option<EntryV> {
    match (string_field(f, "entry_type"@), string_field(f, "content"@)) {
        (Some(t), Some(c)) => Some(EntryV { entry_type: t, content: c }),
        _ => None,
    }
}

/// The pair that an object describes, if its header and entry decode.
pub open spec fn decode_pair(o: ObjectV) -> Option<PairV> {
    match (lookup(o, "header"@), lookup(o, "entry"@)) {
        (Some(h), Some(e)) => match (decode_header(h), decode_entry(e)) {
            (Some(hv), Some(ev)) => Some(PairV { header: hv, entry: ev }),
            _ => None,
        },
        _ => None,
    }
}

/// The pairs that the objects describe, in the same order, if every one decodes.
pub open spec fn decode_pairs(os: Seq<ObjectV>) -> Option<Seq<PairV>>
    decreases os.len(),
{
    if os.len() == 0 {
        Some(Seq::empty())
    } else {
        match (decode_pairs(os.drop_last()), decode_pair(os.last())) {
            (Some(ps), Some(p)) => Some(ps.push(p)),
            _ => None,
        }
    }
}

fn find_field<'a>(f: &'a Fields, k: &str) -> (r: Option<&'a Option<String>>)
    ensures
        match r {
            Some(v) => lookup(fields_view(*f), k@) == Some(opt_view(*v)),
            None => lookup(fields_view(*f), k@) is None,
        },
{
    let wanted = String::from_str(k);
    let ghost s = fields_view(*f);
    let mut i: usize = 0;
    assert(s.subrange(0, s.len() as int) =~= s);
    while i < f.len()
        invariant
            i <= f@.len(),
            s == fields_view(*f),
            s.len() == f@.len(),
            wanted@ == k@,
            lookup(s, k@) == lookup(s.subrange(i as int, s.len() as int), k@),
        decreases f@.len() - i,
    {
        let ghost rest = s.subrange(i as int, s.len() as int);
        assert(rest[0] == s[i as int]);
        assert(s[i as int] == (f@[i as int].0@, opt_view(f@[i as int].1)));
        assert(rest.subrange(1, rest.len() as int) =~= s.subrange(i + 1, s.len() as int));
        if f[i].0.eq(&wanted) {
            return Some(&f[i].1);
        }
        i = i + 1;
    }
    None
}

fn find_object<'a>(o: &'a Object, k: &str) -> (r: Option<&'a Fields>)
    ensures
        match r {
            Some(v) => lookup(object_view(*o), k@) == Some(fields_view(*v)),
            None => lookup(object_view(*o), k@) is None,
        },
{
    let wanted = String::from_str(k);
    let ghost s = object_view(*o);
    let mut i: usize = 0;
    assert(s.subrange(0, s.len() as int) =~= s);
    while i < o.len()
        invariant
            i <= o@.len(),
            s == object_view(*o),
            s.len() == o@.len(),
            wanted@ == k@,
            lookup(s, k@) == lookup(s.subrange(i as int, s.len() as int), k@),
        decreases o@.len() - i,
    {
        let ghost rest = s.subrange(i as int, s.len() as int);
        assert(rest[0] == s[i as int]);
        assert(s[i as int] == (o@[i as int].0@, fields_view(o@[i as int].1)));
        assert(rest.subrange(1, rest.len() as int) =~= s.subrange(i + 1, s.len() as int));
        if o[i].0.eq(&wanted) {
            return Some(&o[i].1);
        }
        i = i + 1;
    }
    None
}

fn find_string(f: &Fields, k: &str) -> (r: Option<String>)
    ensures
        opt_view(r) == string_field(fields_view(*f), k@),
{
    match find_field(f, k) {
        Some(Some(v)) => Some(v.clone()),
        _ => None,
    }
}

fn find_optional(f: &Fields, k: &str) -> (r: Option<Option<String>>)
    ensures
        match r {
            Some(v) => lookup(fields_view(*f), k@) == Some(opt_view(v)),
            None => lookup(fields_view(*f), k@) is None,
        },
{
    match find_field(f, k) {
        Some(v) => Some(clone_opt(v)),
        None => None,
    }
}

fn header_from_fields(f: &Fields) -> (r: Option<Header>)
    ensures
        match r {
            Some(h) => decode_header(fields_view(*f)) == Some(h@),
            None => decode_header(fields_view(*f)) is None,
        },
{
    let t = find_string(f, "entry_type");
    let ts = find_string(f, "timestamp");
    let l = find_optional(f, "link");
    let h = find_string(f, "entry_hash");
    let sig = find_string(f, "entry_signature");
    let lst = find_optional(f, "link_same_type");
    match (t, ts, l, h, sig, lst) {
        (Some(t), Some(ts), Some(l), Some(h), Some(sig), Some(lst)) => {
            let r = Header::new(t.as_str(), ts.as_str(), l, h.as_str(), sig.as_str(), lst);
            Some(r)
        },
        _ => None,
    }
}

fn entry_from_fields(f: &Fields) -> (r: Option<Entry>)
    ensures
        match r {
            Some(e) => decode_entry(fields_view(*f)) == Some(e@),
            None => decode_entry(fields_view(*f)) is None,
        },
{
    match (find_string(f, "entry_type"), find_string(f, "content")) {
        (Some(t), Some(c)) => Some(Entry::new(t.as_str(), c.as_str())),
        _ => None,
    }
}

fn pair_from_object(o: &Object) -> (r: Option<Pair>)
    ensures
        match r {
            Some(p) => decode_pair(object_view(*o)) == Some(p@),
            None => decode_pair(object_view(*o)) is None,
        },
{
    match (find_object(o, "header"), find_object(o, "entry")) {
        (Some(h), Some(e)) => match (header_from_fields(h), entry_from_fields(e)) {
            (Some(hv), Some(ev)) => Some(Pair::new(&hv, &ev)),
            _ => None,
        },
        _ => None,
    }
}

/// Reads the pairs, in the order listed, from the canonical JSON of a chain; `None` where the
/// text is not such JSON or an object lacks a field.
pub fn pairs_from_json(s: &str) -> (r: Option<Vec<Pair>>)
    ensures
        match json_objects_of(s@) {
            None => r is None,
            Some(os) => match decode_pairs(os) {
                None => r is None,
                Some(ps) => r matches Some(v) && v@.map_values(|p: Pair| p@) == ps,
            },
        },
{
    let objects = match parse_objects(s) {
        Some(v) => v,
        None => return None,
    };
    let ghost os = objects@.map_values(|o: Object| object_view(o));
    let mut out: Vec<Pair> = Vec::new();
    let mut i: usize = 0;
    assert(os.subrange(0, 0) =~= Seq::<ObjectV>::empty());
    assert(out@.map_values(|p: Pair| p@) =~= Seq::<PairV>::empty());
    while i < objects.len()
        invariant
            i <= objects@.len(),
            os == objects@.map_values(|o: Object| object_view(o)),
            json_objects_of(s@) == Some(os),
            decode_pairs(os.subrange(0, i as int)) == Some(out@.map_values(|p: Pair| p@)),
        decreases objects@.len() - i,
    {
        let ghost next = os.subrange(0, i + 1);
        proof {
            assert(next.drop_last() =~= os.subrange(0, i as int));
            assert(next.last() == object_view(objects@[i as int]));
        }
        match pair_from_object(&objects[i]) {
            Some(p) => {
                let ghost before = out@.map_values(|q: Pair| q@);
                out.push(p);
                assert(out@.map_values(|q: Pair| q@) =~= before.push(p@));
            },
            None => {
                proof {
                    assert(decode_pairs(next) is None);
                    lemma_decode_prefix_fails(os, i + 1);
                }
                return None;
            },
        }
        i = i + 1;
    }
    assert(os.subrange(0, i as int) =~= os);
    Some(out)
}

/// When a prefix of the objects does not decode, neither do all of them.
pub proof fn lemma_decode_prefix_fails(os: Seq<ObjectV>, n: int)
    requires
        0 <= n <= os.len(),
        decode_pairs(os.subrange(0, n)) is None,
    ensures
        decode_pairs(os) is None,
    decreases os.len() - n,
{
    if n == os.len() {
        assert(os.subrange(0, n) =~= os);
    } else {
        assert(os.subrange(0, n + 1).drop_last() =~= os.subrange(0, n));
        lemma_decode_prefix_fails(os, n + 1);
    }
}

} // verus!
