//! The source chain: an append-only, hash-linked sequence of pairs over a
//! content-addressed store.

use crate::entry::{entry_key, Entry, EntryV};
use crate::error::{is_generic_error, HolochainError};
use crate::header::{clone_opt, header_entry, header_hash, opt_eq, opt_view, Header, HeaderV};
use crate::pair::{pair_json, pair_key, pair_valid, Pair, PairV};
use crate::json::{decode_pairs, json_objects_of, pairs_from_json};
use crate::table::HashTable;
use vstd::prelude::*;

verus! {

/// The mathematical value of a chain.
pub ghost struct ChainV {
    /// The pairs, from genesis to top.
    pub pairs: Seq<PairV>,
    /// Every entry the chain's store holds, oldest first.
    pub table: Seq<EntryV>,
}

/// The key of the top pair, if any.
pub open spec fn top_key(s: Seq<PairV>) -> Option<Seq<char>> {
    if s.len() == 0 {
        None
    } else {
        Some(pair_key(s.last()))
    }
}

/// The top pair, if any.
pub open spec fn top(s: Seq<PairV>) -> Option<PairV> {
    if s.len() == 0 {
        None
    } else {
        Some(s.last())
    }
}

/// Every pair is valid and links to the pair below it: the chain invariant.
pub open spec fn linked(s: Seq<PairV>) -> bool {
    forall|i: int|
        #![trigger s[i]]
        0 <= i < s.len() ==> pair_valid(s[i]) && s[i].header.link == top_key(s.subrange(0, i))
}

/// Every entry of the chain has a non-empty key.
pub open spec fn keyed(s: Seq<PairV>) -> bool {
    forall|i: int| #![trigger s[i]] 0 <= i < s.len() ==> entry_key(s[i].entry).len() > 0
}

/// Every pair is valid.
pub open spec fn all_valid(s: Seq<PairV>) -> bool {
    forall|i: int| 0 <= i < s.len() ==> #[trigger] pair_valid(s[i])
}

/// The topmost pair whose header has entry type `t`.
pub open spec fn top_of_type(s: Seq<PairV>, t: Seq<char>) -> Option<PairV>
    decreases s.len(),
{
    if s.len() == 0 {
        None
    } else if s.last().header.entry_type == t {
        Some(s.last())
    } else {
        top_of_type(s.drop_last(), t)
    }
}

/// The topmost pair whose entry has key `h`.
pub open spec fn find_by_entry(s: Seq<PairV>, h: Seq<char>) -> Option<PairV>
    decreases s.len(),
{
    if s.len() == 0 {
        None
    } else if entry_key(s.last().entry) == h {
        Some(s.last())
    } else {
        find_by_entry(s.drop_last(), h)
    }
}

/// The entry of the topmost pair whose entry has key `h`.
pub open spec fn find_entry(s: Seq<PairV>, h: Seq<char>) -> Option<EntryV> {
    match find_by_entry(s, h) {
        Some(p) => Some(p.entry),
        None => None,
    }
}

/// The topmost pair whose key is `h`.
pub open spec fn find_pair(s: Seq<PairV>, h: Seq<char>) -> Option<PairV>
    decreases s.len(),
{
    if s.len() == 0 {
        None
    } else if pair_key(s.last()) == h {
        Some(s.last())
    } else {
        find_pair(s.drop_last(), h)
    }
}

/// The header that the next commit of `e` onto `s` carries.
pub open spec fn next_header(s: Seq<PairV>, e: EntryV) -> HeaderV {
    HeaderV {
        entry_type: e.entry_type,
        timestamp: Seq::empty(),
        link: top_key(s),
        entry_hash: entry_key(e),
        entry_signature: Seq::empty(),
        link_same_type: match top_of_type(s, e.entry_type) {
            Some(p) => Some(header_hash(p.header)),
            None => None,
        },
    }
}

/// The pair that the next commit of `e` onto `s` pushes.
pub open spec fn next_pair(s: Seq<PairV>, e: EntryV) -> PairV {
    PairV { header: next_header(s, e), entry: e }
}

/// What the store holds after the commit of `p` onto a store `t`.
pub open spec fn stored(t: Seq<EntryV>, p: PairV) -> Seq<EntryV> {
    t.push(header_entry(p.header)).push(p.entry)
}

/// The message of the error for an invalid pair.
pub const INVALID_PAIR_MSG: &'static str = "attempted to push an invalid pair for this chain";

/// The message of the error for text that is not the canonical JSON of a chain.
pub const INVALID_JSON_MSG: &'static str = "argument should be valid json";

/// The start of the message of the error for a link that does not match the top.
pub const LINK_MISMATCH_MSG: &'static str =
    "top pair did not match previous hash pair from commited pair: ";

/// An optional key as the message shows it.
pub open spec fn show_key(o: Option<Seq<char>>) -> Seq<char> {
    match o {
        Some(k) => "Some(\""@ + k + "\")"@,
        None => "None"@,
    }
}

/// The message of the error for a pair whose link `link` does not match the top key `top`.
pub open spec fn mismatch_message(top: Option<Seq<char>>, link: Option<Seq<char>>) -> Seq<char> {
    LINK_MISMATCH_MSG@ + show_key(top) + " vs. "@ + show_key(link)
}

/// The chain that committing, genesis first, each pair of `ps` onto `base` gives, or `None`
/// where one of them is refused.
pub open spec fn replay(base: Seq<PairV>, ps: Seq<PairV>) -> Option<Seq<PairV>>
    decreases ps.len(),
{
    if ps.len() == 0 {
        Some(base)
    } else {
        match replay(base, ps.drop_last()) {
            Some(s) => if pair_valid(ps.last()) && ps.last().header.link == top_key(s) {
                Some(s.push(ps.last()))
            } else {
                None
            },
            None => None,
        }
    }
}

/// The JSON items of the pairs, top first, separated by commas.
pub open spec fn json_items(s: Seq<PairV>) -> Seq<char>
    decreases s.len(),
{
    if s.len() == 0 {
        Seq::empty()
    } else if s.len() == 1 {
        pair_json(s[0])
    } else {
        json_items(s.subrange(1, s.len() as int)) + ","@ + pair_json(s[0])
    }
}

/// The canonical JSON of a chain: the array of its pairs, top first.
pub open spec fn chain_json(s: Seq<PairV>) -> Seq<char> {
    "["@ + json_items(s) + "]"@
}

/// The view of an optional pair.
pub open spec fn opt_pair_view(o: Option<Pair>) -> Option<PairV> {
    match o {
        Some(p) => Some(p@),
        None => None,
    }
}

/// The view of an optional entry.
pub open spec fn opt_entry_view(o: Option<Entry>) -> Option<EntryV> {
    match o {
        Some(e) => Some(e@),
        None => None,
    }
}

/// The views of a sequence of pairs.
pub open spec fn pair_views(v: Seq<Pair>) -> Seq<PairV> {
    v.map_values(|p: Pair| p@)
}

fn copy_pairs(v: &Vec<Pair>) -> (r: Vec<Pair>)
    ensures
        pair_views(r@) == pair_views(v@),
{
    let mut out: Vec<Pair> = Vec::new();
    let mut i: usize = 0;
    while i < v.len()
        invariant
            i <= v@.len(),
            out@.len() == i,
            forall|k: int| 0 <= k < i ==> #[trigger] out@[k]@ == v@[k]@,
        decreases v@.len() - i,
    {
        out.push(v[i].clone());
        i = i + 1;
    }
    assert(pair_views(out@) =~= pair_views(v@));
    out
}

fn show_key_exec(o: &Option<String>) -> (r: String)
    ensures
        r@ == show_key(opt_view(*o)),
{
    match o {
        Some(k) => {
            let mut out = String::from_str("Some(\"");
            out.append(k.as_str());
            out.append("\")");
            out
        },
        None => String::from_str("None"),
    }
}

fn mismatch_error(top: &Option<String>, link: &Option<String>) -> (r: HolochainError)
    ensures
        r matches HolochainError::ErrorGeneric(m) && m@ == mismatch_message(
            opt_view(*top),
            opt_view(*link),
        ),
{
    let mut msg = String::from_str(LINK_MISMATCH_MSG);
    msg.append(show_key_exec(top).as_str());
    msg.append(" vs. ");
    msg.append(show_key_exec(link).as_str());
    HolochainError::ErrorGeneric(msg)
}

/// A chain of pairs over a store.
#[derive(Debug)]
pub struct Chain {
    pairs: Vec<Pair>,
    table: HashTable,
}

impl View for Chain {
    type V = ChainV;

    closed spec fn view(&self) -> ChainV {
        ChainV { pairs: pair_views(self.pairs@), table: self.table@ }
    }
}

impl Chain {
    /// The chain invariant: every pair is valid and links to the one below it.
    pub open spec fn wf(&self) -> bool {
        linked(self@.pairs) && keyed(self@.pairs)
    }

    /// An empty chain over `table`.
    pub fn new(table: HashTable) -> (r: Chain)
        ensures
            r.wf(),
            r@.pairs == Seq::<PairV>::empty(),
            r@.table == table@,
    {
        let r = Chain { pairs: Vec::new(), table };
        assert(r@.pairs =~= Seq::<PairV>::empty());
        r
    }

    /// The store under the chain.
    pub fn table(&self) -> (r: &HashTable)
        ensures
            r@ == self@.table,
    {
        &self.table
    }

    /// The top pair, if any.
    pub fn top_pair(&self) -> (r: Option<Pair>)
        ensures
            opt_pair_view(r) == top(self@.pairs),
    {
        let n = self.pairs.len();
        if n == 0 {
            None
        } else {
            Some(self.pairs[n - 1].clone())
        }
    }

    /// The topmost pair whose entry type is `t`.
    pub fn top_pair_of_type(&self, t: &str) -> (r: Option<Pair>)
        ensures
            opt_pair_view(r) == top_of_type(self@.pairs, t@),
    {
        let wanted = String::from_str(t);
        let ghost s = self@.pairs;
        let mut i: usize = self.pairs.len();
        assert(s.subrange(0, i as int) =~= s);
        while i > 0
            invariant
                i <= self.pairs@.len(),
                s == self@.pairs,
                top_of_type(s, t@) == top_of_type(s.subrange(0, i as int), t@),
                wanted@ == t@,
            decreases i,
        {
            let p = &self.pairs[i - 1];
            proof {
                let sub = s.subrange(0, i as int);
                assert(sub.last() == p@);
                assert(sub.drop_last() =~= s.subrange(0, i - 1));
            }
            if p.header().entry_type().eq(&wanted) {
                return Some(p.clone());
            }
            i = i - 1;
        }
        None
    }

    /// The topmost pair whose entry has key `entry_hash`.
    pub fn entry_pair(&self, entry_hash: &str) -> (r: Option<Pair>)
        requires
            self.wf(),
        ensures
            opt_pair_view(r) == find_by_entry(self@.pairs, entry_hash@),
    {
        let wanted = String::from_str(entry_hash);
        let ghost s = self@.pairs;
        let mut i: usize = self.pairs.len();
        assert(s.subrange(0, i as int) =~= s);
        while i > 0
            invariant
                i <= self.pairs@.len(),
                s == self@.pairs,
                linked(s),
                find_by_entry(s, entry_hash@) == find_by_entry(s.subrange(0, i as int), entry_hash@),
                wanted@ == entry_hash@,
            decreases i,
        {
            let p = &self.pairs[i - 1];
            proof {
                let sub = s.subrange(0, i as int);
                assert(sub.last() == p@);
                assert(s[i - 1] == p@);
                assert(sub.drop_last() =~= s.subrange(0, i - 1));
            }
            if p.header().entry_hash().eq(&wanted) {
                return Some(p.clone());
            }
            i = i - 1;
        }
        None
    }

    /// The entry of the topmost pair whose entry has key `entry_hash`.
    pub fn entry(&self, entry_hash: &str) -> (r: Option<Entry>)
        requires
            self.wf(),
        ensures
            opt_entry_view(r) == find_entry(self@.pairs, entry_hash@),
            entry_hash@.len() == 0 ==> r is None,
    {
        proof {
            if entry_hash@.len() == 0 {
                assert(entry_hash@ =~= Seq::<char>::empty());
                lemma_no_entry_under_empty_key(self@.pairs);
            }
        }
        match self.entry_pair(entry_hash) {
            Some(p) => Some(p.entry().clone()),
            None => None,
        }
    }

    /// The topmost pair whose key is `pair_hash`.
    pub fn pair(&self, pair_hash: &str) -> (r: Option<Pair>)
        ensures
            opt_pair_view(r) == find_pair(self@.pairs, pair_hash@),
    {
        let wanted = String::from_str(pair_hash);
        let ghost s = self@.pairs;
        let mut i: usize = self.pairs.len();
        assert(s.subrange(0, i as int) =~= s);
        while i > 0
            invariant
                i <= self.pairs@.len(),
                s == self@.pairs,
                find_pair(s, pair_hash@) == find_pair(s.subrange(0, i as int), pair_hash@),
                wanted@ == pair_hash@,
            decreases i,
        {
            let p = &self.pairs[i - 1];
            proof {
                let sub = s.subrange(0, i as int);
                assert(sub.last() == p@);
                assert(sub.drop_last() =~= s.subrange(0, i - 1));
            }
            if p.key().eq(&wanted) {
                return Some(p.clone());
            }
            i = i - 1;
        }
        None
    }

    /// The key of the top pair, if any.
    pub fn top_key(&self) -> (r: Option<String>)
        ensures
            opt_view(r) == top_key(self@.pairs),
    {
        let n = self.pairs.len();
        if n == 0 {
            None
        } else {
            Some(self.pairs[n - 1].key())
        }
    }

    /// The header that committing `entry` now would carry. It links to the current top and to
    /// the topmost pair of the same entry type, so any later commit makes it stale.
    pub fn create_next_header(&self, entry: &Entry) -> (r: Header)
        ensures
            r@ == next_header(self@.pairs, entry@),
    {
        proof {
            reveal_strlit("");
        }
        let link = self.top_key();
        let same_type = match self.top_pair_of_type(entry.entry_type().as_str()) {
            Some(p) => Some(p.header().hash()),
            None => None,
        };
        let entry_hash = entry.hash();
        let r = Header::new(entry.entry_type().as_str(), "", link, entry_hash.as_str(), "", same_type);
        let ghost h = next_header(self@.pairs, entry@);
        assert(r@.entry_type == h.entry_type);
        assert(r@.timestamp =~= h.timestamp);
        assert(r@.link == h.link);
        assert(r@.entry_hash == h.entry_hash);
        assert(r@.entry_signature =~= h.entry_signature);
        assert(r@.link_same_type == h.link_same_type);
        r
    }

    /// The pair that committing `entry` now would push; it is valid by construction.
    pub fn create_next_pair(&self, entry: &Entry) -> (r: Pair)
        ensures
            r@ == next_pair(self@.pairs, entry@),
            pair_valid(r@),
    {
        let header = self.create_next_header(entry);
        Pair::new(&header, entry)
    }

    /// Commits `pair` on top of the chain. An invalid pair, or one whose link is not the key of
    /// the current top, is refused and the chain is left as it was; otherwise the pair's header
    /// entry and entry are put into the store and the pair becomes the top.
    pub fn commit_pair(&mut self, pair: &Pair) -> (r: Result<Pair, HolochainError>)
        requires
            old(self).wf(),
        ensures
            final(self).wf(),
            !pair_valid(pair@) ==> (final(self)@ == old(self)@ && is_generic_error(
                r,
                INVALID_PAIR_MSG@,
            )),
            pair_valid(pair@) && pair@.header.link != top_key(old(self)@.pairs) ==> (final(self)@
                == old(self)@ && is_generic_error(
                r,
                mismatch_message(top_key(old(self)@.pairs), pair@.header.link),
            )),
            pair_valid(pair@) && pair@.header.link == top_key(old(self)@.pairs) ==> (r is Ok
                && r->Ok_0@ == pair@ && final(self)@.pairs == old(self)@.pairs.push(pair@)
                && final(self)@.table == stored(old(self)@.table, pair@)),
    {
        if !pair.validate() {
            return Err(HolochainError::new(INVALID_PAIR_MSG));
        }
        let top = self.top_key();
        let link = pair.header().link();
        if !opt_eq(&top, &link) {
            return Err(mismatch_error(&top, &link));
        }
        let ghost old_pairs = self@.pairs;
        let header_entry = pair.header().to_entry();
        self.table.put_entry(&header_entry);
        self.table.put_entry(pair.entry());
        self.pairs.push(pair.clone());
        proof {
            let s = self@.pairs;
            assert(s =~= old_pairs.push(pair@));
            assert forall|i: int| 0 <= i < s.len() implies pair_valid(s[i]) && s[i].header.link
                == top_key(s.subrange(0, i)) by {
                if i < old_pairs.len() {
                    assert(s.subrange(0, i) =~= old_pairs.subrange(0, i));
                    assert(s[i] == old_pairs[i]);
                } else {
                    assert(s.subrange(0, i) =~= old_pairs);
                }
            }
            assert forall|i: int| 0 <= i < s.len() implies entry_key(s[i].entry).len() > 0 by {
                if i < old_pairs.len() {
                    assert(s[i] == old_pairs[i]);
                }
            }
        }
        Ok(pair.clone())
    }

    /// Commits `entry`: builds the next pair for it and pushes it. This always succeeds.
    pub fn commit_entry(&mut self, entry: &Entry) -> (r: Result<Pair, HolochainError>)
        requires
            old(self).wf(),
        ensures
            final(self).wf(),
            r is Ok,
            r->Ok_0@ == next_pair(old(self)@.pairs, entry@),
            final(self)@.pairs == old(self)@.pairs.push(next_pair(old(self)@.pairs, entry@)),
            final(self)@.table == stored(old(self)@.table, next_pair(old(self)@.pairs, entry@)),
    {
        let pair = self.create_next_pair(entry);
        self.commit_pair(&pair)
    }

    /// Whether every pair of the chain validates; by the chain invariant, always.
    pub fn validate(&self) -> (r: bool)
        ensures
            r == all_valid(self@.pairs),
            self.wf() ==> r,
    {
        let ghost s = self@.pairs;
        let mut i: usize = 0;
        while i < self.pairs.len()
            invariant
                i <= self.pairs@.len(),
                s == self@.pairs,
                forall|k: int| 0 <= k < i ==> #[trigger] pair_valid(s[k]),
            decreases self.pairs@.len() - i,
        {
            assert(s[i as int] == self.pairs@[i as int]@);
            if !self.pairs[i].validate() {
                return false;
            }
            i = i + 1;
        }
        true
    }

    /// The pairs, top first.
    pub fn pairs_from_top(&self) -> (r: Vec<Pair>)
        ensures
            pair_views(r@) == self@.pairs.reverse(),
    {
        let ghost s = self@.pairs;
        let n = self.pairs.len();
        let mut out: Vec<Pair> = Vec::new();
        let mut i: usize = n;
        while i > 0
            invariant
                i <= n,
                n == self.pairs@.len(),
                s == self@.pairs,
                out@.len() == n - i,
                forall|k: int| 0 <= k < n - i ==> #[trigger] out@[k]@ == s[n - 1 - k],
            decreases i,
        {
            assert(s[i - 1] == self.pairs@[i - 1]@);
            out.push(self.pairs[i - 1].clone());
            i = i - 1;
        }
        assert(pair_views(out@) =~= s.reverse());
        out
    }

    /// The canonical JSON of the chain: the array of its pairs, top first.
    pub fn to_json(&self) -> (r: String)
        ensures
            r@ == chain_json(self@.pairs),
    {
        let ghost s = self@.pairs;
        let n = self.pairs.len();
        let mut items = String::new();
        let mut i: usize = n;
        while i > 0
            invariant
                i <= n,
                n == self.pairs@.len(),
                s == self@.pairs,
                items@ == json_items(s.subrange(i as int, n as int)),
            decreases i,
        {
            let ghost prev = s.subrange(i as int, n as int);
            let ghost cur = s.subrange(i - 1, n as int);
            assert(cur[0] == self.pairs@[i - 1]@);
            assert(cur.subrange(1, cur.len() as int) =~= prev);
            if i < n {
                items.append(",");
            } else {
                assert(items@ =~= Seq::<char>::empty());
                assert(cur.len() == 1);
            }
            items.append(self.pairs[i - 1].to_json().as_str());
            assert(items@ =~= json_items(cur));
            i = i - 1;
        }
        let mut out = String::from_str("[");
        out.append(items.as_str());
        out.append("]");
        assert(s.subrange(0, n as int) =~= s);
        out
    }
    /// Rebuilds a chain over `table` from its pairs listed top first, as the canonical JSON
    /// lists them: the pairs are committed genesis first, which checks every link again. Any
    /// pair that is refused refuses the whole list.
    pub fn from_pairs(table: HashTable, pairs: &Vec<Pair>) -> (r: Result<Chain, HolochainError>)
        ensures
            match r {
                Ok(c) => c.wf() && replay(Seq::empty(), pair_views(pairs@).reverse()) == Some(
                    c@.pairs,
                ),
                Err(_) => replay(Seq::empty(), pair_views(pairs@).reverse()) is None,
            },
    {
        let ghost rev = pair_views(pairs@).reverse();
        let n = pairs.len();
        let mut chain = Chain::new(table);
        let mut i: usize = n;
        assert(rev.subrange(0, 0) =~= Seq::<PairV>::empty());
        while i > 0
            invariant
                i <= n,
                n == pairs@.len(),
                rev == pair_views(pairs@).reverse(),
                chain.wf(),
                replay(Seq::empty(), rev.subrange(0, n - i)) == Some(chain@.pairs),
            decreases i,
        {
            let ghost done = rev.subrange(0, n - i);
            let ghost next = rev.subrange(0, n - i + 1);
            proof {
                assert(next.drop_last() =~= done);
                assert(next.last() == pairs@[i - 1]@);
            }
            match chain.commit_pair(&pairs[i - 1]) {
                Ok(_) => {},
                Err(e) => {
                    proof {
                        lemma_replay_prefix_refused(Seq::empty(), rev, n - i + 1);
                    }
                    return Err(e);
                },
            }
            i = i - 1;
        }
        assert(rev.subrange(0, n as int) =~= rev);
        Ok(chain)
    }

    /// Restores a chain over `table` from its canonical JSON: the pairs are read, then rebuilt
    /// as `from_pairs` does. Text that is not such JSON is refused.
    pub fn from_json(table: HashTable, s: &str) -> (r: Result<Chain, HolochainError>)
        ensures
            match json_objects_of(s@) {
                None => r is Err,
                Some(os) => match decode_pairs(os) {
                    None => r is Err,
                    Some(ps) => match replay(Seq::empty(), ps.reverse()) {
                        None => r is Err,
                        Some(c) => r matches Ok(ch) && ch.wf() && ch@.pairs == c,
                    },
                },
            },
    {
        match pairs_from_json(s) {
            None => Err(HolochainError::new(INVALID_JSON_MSG)),
            Some(pairs) => Chain::from_pairs(table, &pairs),
        }
    }

    /// A fresh traversal of the pairs, top first.
    pub fn iter(&self) -> (r: ChainIterator)
        ensures
            r@ == self@.pairs,
    {
        ChainIterator::new(self)
    }

    /// A traversal of the pairs, top first, that consumes the chain.
    pub fn into_iter(self) -> (r: ChainIterator)
        ensures
            r@ == self@.pairs,
    {
        ChainIterator { remaining: self.pairs }
    }

    /// A copy of the chain and of its store.
    pub fn copy(&self) -> (r: Chain)
        ensures
            r@ == self@,
    {
        Chain { pairs: copy_pairs(&self.pairs), table: self.table.copy() }
    }
}

/// No entry of a chain whose entries all have non-empty keys is found under the empty key.
pub proof fn lemma_no_entry_under_empty_key(s: Seq<PairV>)
    requires
        keyed(s),
    ensures
        find_by_entry(s, Seq::empty()) is None,
    decreases s.len(),
{
    if s.len() > 0 {
        let d = s.drop_last();
        assert(entry_key(s[s.len() - 1].entry).len() > 0);
        assert forall|i: int| 0 <= i < d.len() implies entry_key(d[i].entry).len() > 0 by {
            assert(d[i] == s[i]);
        }
        lemma_no_entry_under_empty_key(d);
    }
}

/// When committing a prefix of `ps` is refused, committing all of `ps` is refused.
pub proof fn lemma_replay_prefix_refused(base: Seq<PairV>, ps: Seq<PairV>, n: int)
    requires
        0 <= n <= ps.len(),
        replay(base, ps.subrange(0, n)) is None,
    ensures
        replay(base, ps) is None,
    decreases ps.len() - n,
{
    if n == ps.len() {
        assert(ps.subrange(0, n) =~= ps);
    } else {
        assert(ps.subrange(0, n + 1).drop_last() =~= ps.subrange(0, n));
        lemma_replay_prefix_refused(base, ps, n + 1);
    }
}

/// Committing, genesis first, the pairs of a linked sequence onto an empty chain accepts each
/// of them and gives back the same sequence.
pub proof fn lemma_replay_linked(s: Seq<PairV>)
    requires
        linked(s),
    ensures
        replay(Seq::empty(), s) == Some(s),
    decreases s.len(),
{
    if s.len() > 0 {
        let d = s.drop_last();
        assert forall|i: int| 0 <= i < d.len() implies pair_valid(d[i]) && d[i].header.link
            == top_key(d.subrange(0, i)) by {
            assert(d[i] == s[i]);
            assert(d.subrange(0, i) =~= s.subrange(0, i));
        }
        lemma_replay_linked(d);
        assert(s.subrange(0, s.len() - 1) =~= d);
        assert(s[s.len() - 1] == s.last());
        assert(d.push(s.last()) =~= s);
    }
}

/// Round trip: the pairs of a chain, listed top first as its canonical JSON lists them, rebuild
/// on a fresh store a chain with the same pairs, hence the same top.
pub proof fn lemma_round_trip(c: ChainV)
    requires
        linked(c.pairs),
    ensures
        replay(Seq::empty(), c.pairs.reverse().reverse()) == Some(c.pairs),
{
    assert(c.pairs.reverse().reverse() =~= c.pairs);
    lemma_replay_linked(c.pairs);
}

/// Committing `e1` and then `e2` onto an empty chain puts `e2` on top, and a lookup by the
/// key of either entry finds it (the second one where both have the same key).
pub proof fn lemma_commit_two(e1: EntryV, e2: EntryV)
    ensures
        ({
            let s1 = Seq::<PairV>::empty().push(next_pair(Seq::empty(), e1));
            let s2 = s1.push(next_pair(s1, e2));
            &&& top(s2) matches Some(p) && p.entry == e2
            &&& find_entry(s2, entry_key(e2)) == Some(e2)
            &&& entry_key(e1) != entry_key(e2) ==> find_entry(s2, entry_key(e1)) == Some(e1)
            &&& entry_key(e1) == entry_key(e2) ==> find_entry(s2, entry_key(e1)) == Some(e2)
        }),
{
    let s1 = Seq::<PairV>::empty().push(next_pair(Seq::empty(), e1));
    let s2 = s1.push(next_pair(s1, e2));
    assert(s2.drop_last() =~= s1);
    assert(s2.last() == next_pair(s1, e2));
    assert(s1.last() == next_pair(Seq::empty(), e1));
    assert(find_by_entry(s2, entry_key(e2)) == Some(s2.last()));
    if entry_key(e1) != entry_key(e2) {
        assert(find_by_entry(s1, entry_key(e1)) == Some(s1.last()));
    }
}

/// A traversal of a chain's pairs from top to genesis.
#[derive(Debug)]
pub struct ChainIterator {
    remaining: Vec<Pair>,
}

impl View for ChainIterator {
    type V = Seq<PairV>;

    /// The pairs not yet handed out, genesis first: the next one is the last.
    closed spec fn view(&self) -> Seq<PairV> {
        pair_views(self.remaining@)
    }
}

impl ChainIterator {
    /// A traversal of `chain` starting at its top pair.
    pub fn new(chain: &Chain) -> (r: ChainIterator)
        ensures
            r@ == chain@.pairs,
    {
        ChainIterator { remaining: copy_pairs(&chain.pairs) }
    }

    /// The next pair down the chain, if any.
    pub fn next(&mut self) -> (r: Option<Pair>)
        ensures
            old(self)@.len() == 0 ==> r is None && final(self)@ == old(self)@,
            old(self)@.len() > 0 ==> (r matches Some(p) && p@ == old(self)@.last()),
            old(self)@.len() > 0 ==> final(self)@ == old(self)@.drop_last(),
    {
        let r = self.remaining.pop();
        proof {
            if old(self)@.len() > 0 {
                assert(self@ =~= old(self)@.drop_last());
            }
        }
        r
    }
}

impl PartialEq for Chain {
    /// Two chains are equal when both validate and their tops are equal: the hash links make
    /// the top stand for the whole history.
    fn eq(&self, other: &Chain) -> (r: bool)
        ensures
            r == (all_valid(self@.pairs) && all_valid(other@.pairs) && top(self@.pairs) == top(
                other@.pairs,
            )),
    {
        if !self.validate() || !other.validate() {
            return false;
        }
        match (self.top_pair(), other.top_pair()) {
            (Some(a), Some(b)) => a.eq(&b),
            (None, None) => true,
            _ => false,
        }
    }
}

impl vstd::std_specs::cmp::PartialEqSpecImpl for Chain {
    open spec fn obeys_eq_spec() -> bool {
        true
    }

    open spec fn eq_spec(&self, other: &Chain) -> bool {
        all_valid(self@.pairs) && all_valid(other@.pairs) && top(self@.pairs) == top(other@.pairs)
    }
}

} // verus!
