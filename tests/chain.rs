use holochain_core::chain::{Chain, ChainIterator};
use holochain_core::entry::Entry;
use holochain_core::error::HolochainError;
use holochain_core::hash::content_hash;
use holochain_core::header::Header;
use holochain_core::json::pairs_from_json;
use holochain_core::pair::Pair;
use holochain_core::table::HashTable;

fn test_type_a() -> String {
    "testEntryType".to_string()
}

fn test_type_b() -> String {
    "testEntryTypeB".to_string()
}

fn test_entry_a() -> Entry {
    Entry::new("testEntryType", "test entry content")
}

fn test_entry_b() -> Entry {
    Entry::new("testEntryTypeB", "other test entry content")
}

fn test_entry() -> Entry {
    test_entry_a()
}

fn test_chain() -> Chain {
    Chain::new(HashTable::new())
}

fn test_pair() -> Pair {
    test_chain().create_next_pair(&test_entry())
}

fn collect(mut it: ChainIterator) -> Vec<Pair> {
    let mut out = Vec::new();
    while let Some(p) = it.next() {
        out.push(p);
    }
    out
}

#[test]
fn new() {
    test_chain();
}

#[test]
fn eq() {
    let mut chain1 = test_chain();
    let mut chain2 = test_chain();
    let mut chain3 = test_chain();

    let entry_a = test_entry_a();
    let entry_b = test_entry_b();

    chain1
        .commit_entry(&entry_a)
        .expect("pushing a valid entry to an exlusively owned chain shouldn't fail");
    chain2
        .commit_entry(&entry_a)
        .expect("pushing a valid entry to an exlusively owned chain shouldn't fail");
    chain3
        .commit_entry(&entry_b)
        .expect("pushing a valid entry to an exlusively owned chain shouldn't fail");

    assert_eq!(chain1.top_pair(), chain2.top_pair());
    assert_eq!(chain1, chain2);

    assert_ne!(chain1, chain3);
    assert_ne!(chain2, chain3);
}

#[test]
fn top_pair() {
    let mut chain = test_chain();

    assert_eq!(None, chain.top_pair());

    let entry_a = test_entry_a();
    let entry_b = test_entry_b();

    let p1 = chain
        .commit_entry(&entry_a)
        .expect("pushing a valid entry to an exlusively owned chain shouldn't fail");
    assert_eq!(&entry_a, p1.entry());
    let top_pair = chain.top_pair().expect("should have commited entry");
    assert_eq!(p1, top_pair);

    let p2 = chain
        .commit_entry(&entry_b)
        .expect("pushing a valid entry to an exlusively owned chain shouldn't fail");
    assert_eq!(&entry_b, p2.entry());
    let top_pair = chain.top_pair().expect("should have commited entry");
    assert_eq!(p2, top_pair);
}

#[test]
fn table_put() {
    let mut chain = Chain::new(HashTable::new());

    let pair = chain
        .commit_pair(&test_pair())
        .expect("pushing a valid entry to an exlusively owned chain shouldn't fail");

    let table_entry = chain
        .table()
        .entry(&pair.entry().key())
        .expect("table should have entry");
    let chain_entry = chain
        .entry(&pair.entry().key())
        .expect("getting an entry from a chain shouldn't fail");

    assert_eq!(pair.entry(), &table_entry);
    assert_eq!(table_entry, chain_entry);
}

#[test]
fn can_commit_entry() {
    let mut chain = test_chain();

    assert_eq!(None, chain.top_pair());

    let e1 = test_entry_a();
    let p1 = chain
        .commit_entry(&e1)
        .expect("pushing a valid entry to an exclusively owned chain shouldn't fail");

    assert_eq!(&e1, p1.entry());
    assert_eq!(Some(&p1), chain.top_pair().as_ref());
    assert_eq!(e1.key(), p1.entry().key());

    let e2 = test_entry_b();
    let p2 = chain
        .commit_entry(&e2)
        .expect("pushing a valid entry to an exclusively owned chain shouldn't fail");

    assert_eq!(&e2, p2.entry());
    assert_eq!(Some(&p2), chain.top_pair().as_ref());
    assert_eq!(e2.key(), p2.entry().key());
}

#[test]
fn validate() {
    let mut chain = test_chain();
    assert!(chain.validate());

    let e1 = test_entry_a();
    chain
        .commit_entry(&e1)
        .expect("pushing a valid entry to an exclusively owned chain shouldn't fail");
    assert!(chain.validate());

    let e2 = test_entry_b();
    chain
        .commit_entry(&e2)
        .expect("pushing a valid entry to an exclusively owned chain shouldn't fail");
    assert!(chain.validate());
}

#[test]
fn round_trip() {
    let mut chain = test_chain();
    let entry = test_entry();
    let pair = chain
        .commit_entry(&entry)
        .expect("pushing a valid entry to an exclusively owned chain shouldn't fail");

    assert_eq!(
        entry,
        chain
            .entry(&pair.entry().key())
            .expect("getting an entry from a chain shouldn't fail"),
    );
}

#[test]
fn round_trip_stress_test() {
    let mut chain = test_chain();
    let entry = test_entry();

    for _ in 1..100 {
        let pair = chain.commit_entry(&entry).unwrap();
        assert_eq!(Some(pair.entry().clone()), chain.entry(&pair.entry().key()),);
    }
}

#[test]
fn iter() {
    let mut chain = test_chain();

    let e1 = test_entry_a();
    let e2 = test_entry_b();

    let p1 = chain
        .commit_entry(&e1)
        .expect("pushing a valid entry to an exlusively owned chain shouldn't fail");
    let p2 = chain
        .commit_entry(&e2)
        .expect("pushing a valid entry to an exlusively owned chain shouldn't fail");

    assert_eq!(vec![p2, p1], collect(chain.iter()));
}

#[test]
fn iter_functional() {
    let mut chain = test_chain();

    let e1 = test_entry_a();
    let e2 = test_entry_b();

    let p1 = chain
        .commit_entry(&e1)
        .expect("pushing a valid entry to an exlusively owned chain shouldn't fail");
    let _p2 = chain
        .commit_entry(&e2)
        .expect("pushing a valid entry to an exlusively owned chain shouldn't fail");
    let p3 = chain
        .commit_entry(&e1)
        .expect("pushing a valid entry to an exlusively owned chain shouldn't fail");

    assert_eq!(
        vec![p3, p1],
        collect(chain.iter())
            .into_iter()
            .filter(|p| p.entry().entry_type() == "testEntryType")
            .collect::<Vec<Pair>>()
    );
}

#[test]
fn entry_advance() {
    let mut chain = test_chain();

    let e1 = test_entry_a();
    let e2 = test_entry_b();

    let p1 = chain
        .commit_entry(&e1)
        .expect("pushing a valid entry to an exlusively owned chain shouldn't fail");
    let p2 = chain
        .commit_entry(&e2)
        .expect("pushing a valid entry to an exlusively owned chain shouldn't fail");

    assert_eq!(
        p1.entry().clone(),
        chain
            .entry(&p1.entry().key())
            .expect("getting an entry from a chain shouldn't fail"),
    );

    let p3 = chain
        .commit_entry(&e1)
        .expect("pushing a valid entry to an exlusively owned chain shouldn't fail");

    assert_eq!(None, chain.entry(""));
    assert_eq!(
        p3.entry().clone(),
        chain
            .entry(&p1.entry().key())
            .expect("getting an entry from a chain shouldn't fail"),
    );
    assert_eq!(
        p2.entry().clone(),
        chain
            .entry(&p2.entry().key())
            .expect("getting an entry from a chain shouldn't fail"),
    );
    assert_eq!(
        p3.entry().clone(),
        chain
            .entry(&p3.entry().key())
            .expect("getting an entry from a chain shouldn't fail"),
    );

    assert_eq!(
        p1,
        chain
            .pair(&p1.key())
            .expect("getting an entry from a chain shouldn't fail"),
    );
    assert_eq!(
        p2,
        chain
            .pair(&p2.key())
            .expect("getting an entry from a chain shouldn't fail"),
    );
    assert_eq!(
        p3,
        chain
            .pair(&p3.key())
            .expect("getting an entry from a chain shouldn't fail"),
    );
}

#[test]
fn entry() {
    let mut chain = test_chain();

    let e1 = test_entry_a();
    let e2 = test_entry_b();

    let p1 = chain
        .commit_entry(&e1)
        .expect("pushing a valid entry to an exclusively owned chain shouldn't fail");
    let p2 = chain
        .commit_entry(&e2)
        .expect("pushing a valid entry to an exclusively owned chain shouldn't fail");
    let p3 = chain
        .commit_entry(&e1)
        .expect("pushing a valid entry to an exclusively owned chain shouldn't fail");

    assert_eq!(None, chain.entry(""));
    assert_eq!(
        p3.entry().clone(),
        chain
            .entry(&p1.entry().key())
            .expect("getting an entry from a chain shouldn't fail"),
    );
    assert_eq!(
        p2.entry().clone(),
        chain
            .entry(&p2.entry().key())
            .expect("getting an entry from a chain shouldn't fail"),
    );
    assert_eq!(
        p3.entry().clone(),
        chain
            .entry(&p3.entry().key())
            .expect("getting an entry from a chain shouldn't fail"),
    );
}

#[test]
fn top_pair_of_type() {
    let mut chain = test_chain();

    assert_eq!(None, chain.top_pair_of_type(&test_type_a()));
    assert_eq!(None, chain.top_pair_of_type(&test_type_b()));

    let entry1 = test_entry_a();
    let entry2 = test_entry_b();

    let pair1 = chain
        .commit_entry(&entry1)
        .expect("pushing a valid entry to an exlusively owned chain shouldn't fail");
    assert_eq!(Some(&pair1), chain.top_pair_of_type(&test_type_a()).as_ref());
    assert_eq!(None, chain.top_pair_of_type(&test_type_b()));

    let pair2 = chain
        .commit_entry(&entry2)
        .expect("pushing a valid entry to an exlusively owned chain shouldn't fail");
    assert_eq!(Some(&pair1), chain.top_pair_of_type(&test_type_a()).as_ref());
    assert_eq!(Some(&pair2), chain.top_pair_of_type(&test_type_b()).as_ref());

    let pair3 = chain
        .commit_entry(&entry1)
        .expect("pushing a valid entry to an exlusively owned chain shouldn't fail");

    assert_eq!(Some(&pair3), chain.top_pair_of_type(&test_type_a()).as_ref());
    assert_eq!(Some(&pair2), chain.top_pair_of_type(&test_type_b()).as_ref());
}

#[test]
fn into_iter() {
    let mut chain = test_chain();

    let e1 = test_entry_a();
    let e2 = test_entry_b();

    let p1 = chain
        .commit_entry(&e1)
        .expect("pushing a valid entry to an exlusively owned chain shouldn't fail");
    let p2 = chain
        .commit_entry(&e2)
        .expect("pushing a valid entry to an exlusively owned chain shouldn't fail");
    let p3 = chain
        .commit_entry(&e1)
        .expect("pushing a valid entry to an exlusively owned chain shouldn't fail");

    assert_eq!(vec![p3, p2, p1], collect(chain.into_iter()));
}

#[test]
fn json_round_trip() {
    let mut chain = test_chain();

    let e1 = test_entry_a();
    let e2 = test_entry_b();

    chain
        .commit_entry(&e1)
        .expect("pushing a valid entry to an exlusively owned chain shouldn't fail");
    chain
        .commit_entry(&e2)
        .expect("pushing a valid entry to an exlusively owned chain shouldn't fail");
    chain
        .commit_entry(&e1)
        .expect("pushing a valid entry to an exlusively owned chain shouldn't fail");

    let expected_json = "[{\"header\":{\"entry_type\":\"testEntryType\",\"timestamp\":\"\",\"link\":\"QmdEVL9whBj1Tr9VoR6BzmVjrgyPdN5vJ2bbdQdwwfQ9Uq\",\"entry_hash\":\"QmbXSE38SN3SuJDmHKSSw5qWWegvU7oTxrLDRavWjyxMrT\",\"entry_signature\":\"\",\"link_same_type\":\"QmawqBCVVap9KdaakqEHF4JzUjjLhmR7DpM5jgJko8j1rA\"},\"entry\":{\"content\":\"test entry content\",\"entry_type\":\"testEntryType\"}},{\"header\":{\"entry_type\":\"testEntryTypeB\",\"timestamp\":\"\",\"link\":\"QmU8vuUfCQGBb8SUdWjKqmSmsWwXBn4AJPb3HLb8cqWtYn\",\"entry_hash\":\"QmPz5jKXsxq7gPVAbPwx5gD2TqHfqB8n25feX5YH18JXrT\",\"entry_signature\":\"\",\"link_same_type\":null},\"entry\":{\"content\":\"other test entry content\",\"entry_type\":\"testEntryTypeB\"}},{\"header\":{\"entry_type\":\"testEntryType\",\"timestamp\":\"\",\"link\":null,\"entry_hash\":\"QmbXSE38SN3SuJDmHKSSw5qWWegvU7oTxrLDRavWjyxMrT\",\"entry_signature\":\"\",\"link_same_type\":null},\"entry\":{\"content\":\"test entry content\",\"entry_type\":\"testEntryType\"}}]";
    assert_eq!(expected_json, chain.to_json());

    assert_eq!(chain, Chain::from_json(HashTable::new(), expected_json).unwrap());
}

#[test]
fn entry_hash_is_sha256_multihash_in_base58() {
    assert_eq!(
        "QmbXSE38SN3SuJDmHKSSw5qWWegvU7oTxrLDRavWjyxMrT",
        content_hash("test entry content")
    );
    assert_eq!("QmbXSE38SN3SuJDmHKSSw5qWWegvU7oTxrLDRavWjyxMrT", test_entry().hash());
}

#[test]
fn header_keys_and_hashes() {
    let p1 = test_pair();
    assert_eq!("QmU8vuUfCQGBb8SUdWjKqmSmsWwXBn4AJPb3HLb8cqWtYn", p1.key());
    assert_eq!("QmawqBCVVap9KdaakqEHF4JzUjjLhmR7DpM5jgJko8j1rA", p1.header().hash());
}

#[test]
fn entry_json_escapes_strings() {
    let e = Entry::new("t", "say \"hi\"\n");
    assert_eq!("{\"content\":\"say \\\"hi\\\"\\n\",\"entry_type\":\"t\"}", e.to_json());
}

#[test]
fn empty_chain_json_is_empty_array() {
    assert_eq!("[]", test_chain().to_json());
}

#[test]
fn fork_is_rejected_and_top_kept() {
    let mut chain = test_chain();
    let stale = chain.create_next_pair(&test_entry_b());
    let p1 = chain.commit_entry(&test_entry_a()).unwrap();
    let err = chain.commit_pair(&stale).unwrap_err();
    let expected = format!(
        "top pair did not match previous hash pair from commited pair: Some(\"{}\") vs. None",
        p1.key()
    );
    assert_eq!(HolochainError::ErrorGeneric(expected), err);
    assert_eq!(Some(p1), chain.top_pair());
}

#[test]
fn invalid_pair_is_rejected() {
    let mut chain = test_chain();
    let header = Header::new("testEntryType", "", None, "not the hash", "", None);
    let pair = Pair::new(&header, &test_entry());
    assert!(!pair.validate());
    let err = chain.commit_pair(&pair).unwrap_err();
    assert_eq!(
        HolochainError::new("attempted to push an invalid pair for this chain"),
        err
    );
    assert_eq!(None, chain.top_pair());
}

#[test]
fn two_commits_resolve_both_entries() {
    let mut chain = test_chain();
    let e1 = test_entry_a();
    let e2 = test_entry_b();
    chain.commit_entry(&e1).unwrap();
    let p2 = chain.commit_entry(&e2).unwrap();
    assert_eq!(&e2, chain.top_pair().unwrap().entry());
    assert_eq!(&e2, p2.entry());
    assert_eq!(Some(e1.clone()), chain.entry(&e1.key()));
    assert_eq!(Some(e2.clone()), chain.entry(&e2.key()));
}

#[test]
fn reads_do_not_change_the_chain() {
    let mut chain = test_chain();
    chain.commit_entry(&test_entry_a()).unwrap();
    chain.commit_entry(&test_entry_b()).unwrap();
    let first = chain.top_pair_of_type("testEntryType");
    let again = chain.top_pair_of_type("testEntryType");
    assert_eq!(first, again);
    assert_eq!(chain.entry(&test_entry_b().key()), chain.entry(&test_entry_b().key()));
    assert_eq!(2, collect(chain.iter()).len());
}

#[test]
fn scenario_three_pairs_by_type() {
    let mut chain = test_chain();
    let _p1 = chain.commit_entry(&test_entry_a()).unwrap();
    let p2 = chain.commit_entry(&test_entry_b()).unwrap();
    let p3 = chain.commit_entry(&test_entry_a()).unwrap();
    assert_eq!(Some(p3), chain.top_pair_of_type("testEntryType"));
    assert_eq!(Some(p2), chain.top_pair_of_type("testEntryTypeB"));
    assert_eq!(None, chain.entry(""));
}

#[test]
fn rebuild_from_a_forked_list_fails() {
    let mut chain = test_chain();
    let p1 = chain.commit_entry(&test_entry_a()).unwrap();
    let p2 = chain.commit_entry(&test_entry_b()).unwrap();
    // genesis listed on top: the replay meets the second pair first
    assert!(Chain::from_pairs(HashTable::new(), &vec![p1, p2]).is_err());
}

#[test]
fn table_lookup_of_header_entry() {
    let mut chain = test_chain();
    let p = chain.commit_entry(&test_entry_a()).unwrap();
    let stored = chain.table().entry(&p.key()).expect("header entry is stored");
    assert_eq!(p.header().to_entry(), stored);
    assert_eq!("%header", stored.entry_type());
}

#[test]
fn from_json_refuses_bad_text() {
    assert_eq!(
        Some(HolochainError::new("argument should be valid json")),
        Chain::from_json(HashTable::new(), "not json").err()
    );
    assert!(Chain::from_json(HashTable::new(), "[{\"header\":{}}]").is_err());
    assert_eq!(Some(0), pairs_from_json("[]").map(|v| v.len()));
    let empty = Chain::from_json(HashTable::new(), "[]").unwrap();
    assert_eq!(None, empty.top_pair());
}

#[test]
fn pairs_round_trip_through_json() {
    let mut chain = test_chain();
    chain.commit_entry(&test_entry_a()).unwrap();
    chain.commit_entry(&Entry::new("q", "a \"quoted\" line\n")).unwrap();
    let pairs = pairs_from_json(&chain.to_json()).expect("canonical JSON decodes");
    assert_eq!(chain.pairs_from_top(), pairs);
    let rebuilt = Chain::from_pairs(HashTable::new(), &pairs).unwrap();
    assert_eq!(chain, rebuilt);
}

#[test]
fn entry_json_escapes_control_characters() {
    let e = Entry::new("t", "\u{1}\u{8}\u{c}\t\r\\/é");
    assert_eq!(
        "{\"content\":\"\\u0001\\b\\f\\t\\r\\\\/é\",\"entry_type\":\"t\"}",
        e.to_json()
    );
}
