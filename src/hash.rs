//! Content addressing: the multihash (sha2-256) of a string, written in base58.

use sha2::Digest;
use vstd::prelude::*;

verus! {

/// What `sha2::Sha256::digest` returns for the UTF-8 bytes of a string.
pub uninterp spec fn sha256_utf8_of(s: Seq<char>) -> Seq<u8>;

/// What `bs58::encode(..).into_string()` returns for a byte sequence.
pub uninterp spec fn base58_of(b: Seq<u8>) -> Seq<char>;

/// The lower-case hexadecimal digits.
pub open spec fn hex_digits() -> Seq<char> {
    seq!['0', '1', '2', '3', '4', '5', '6', '7', '8', '9', 'a', 'b', 'c', 'd', 'e', 'f']
}

/// A character as it stands inside a JSON string: quote and backslash are escaped, so are
/// the control characters, by their short form where JSON has one and as `\u00XX` otherwise;
/// every other character stands as it is.
pub open spec fn json_escape_char(c: char) -> Seq<char> {
    if c == '"' {
        seq!['\\', '"']
    } else if c == '\\' {
        seq!['\\', '\\']
    } else if c == '\u{8}' {
        seq!['\\', 'b']
    } else if c == '\t' {
        seq!['\\', 't']
    } else if c == '\n' {
        seq!['\\', 'n']
    } else if c == '\u{c}' {
        seq!['\\', 'f']
    } else if c == '\r' {
        seq!['\\', 'r']
    } else if (c as u32) < 0x20 {
        seq![
            '\\',
            'u',
            '0',
            '0',
            hex_digits()[(c as int) / 16],
            hex_digits()[(c as int) % 16],
        ]
    } else {
        seq![c]
    }
}

/// The characters of a string, each escaped for JSON.
pub open spec fn json_escape(s: Seq<char>) -> Seq<char>
    decreases s.len(),
{
    if s.len() == 0 {
        Seq::empty()
    } else {
        json_escape(s.drop_last()) + json_escape_char(s.last())
    }
}

/// A string as JSON: its escaped characters between double quotes.
pub open spec fn json_string_of(s: Seq<char>) -> Seq<char> {
    seq!['"'] + json_escape(s) + seq!['"']
}

/// The multihash code of sha2-256.
pub const SHA2_256_CODE: u8 = 0x12;

/// The digest length of sha2-256 in bytes.
pub const SHA2_256_LEN: u8 = 0x20;

/// The multihash of a sha2-256 digest: code, length, digest.
pub open spec fn multihash_sha256(s: Seq<char>) -> Seq<u8> {
    seq![SHA2_256_CODE, SHA2_256_LEN] + sha256_utf8_of(s)
}

/// The content address of a string: its sha2-256 multihash in base58.
pub open spec fn hash_of(s: Seq<char>) -> Seq<char> {
    base58_of(multihash_sha256(s))
}

/// Relies on sha2's `Sha256::digest`: the 32-byte digest of the string's UTF-8 bytes.
#[verifier::external_body]
fn sha256_utf8(s: &str) -> (r: Vec<u8>)
    ensures
        r@ == sha256_utf8_of(s@),
        r@.len() == 32,
{
    sha2::Sha256::digest(s.as_bytes()).to_vec()
}

/// Relies on `bs58::encode` with the default (Bitcoin) alphabet: a non-empty input gives a
/// non-empty output.
#[verifier::external_body]
fn base58(b: &[u8]) -> (r: String)
    ensures
        r@ == base58_of(b@),
        b@.len() > 0 ==> r@.len() > 0,
{
    bs58::encode(b).into_string()
}

/// Relies on `serde_json::to_string` on a `str`, which cannot fail for a string and escapes
/// it as `json_escape_char` says, character by character.
#[verifier::external_body]
pub(crate) fn json_string(s: &str) -> (r: String)
    ensures
        r@ == json_string_of(s@),
{
    serde_json::to_string(s).unwrap_or_default()
}

/// The content address of a string.
pub fn content_hash(s: &str) -> (r: String)
    ensures
        r@ == hash_of(s@),
        r@.len() > 0,
{
    let digest = sha256_utf8(s);
    let mut bytes: Vec<u8> = Vec::new();
    bytes.push(SHA2_256_CODE);
    bytes.push(SHA2_256_LEN);
    let mut i: usize = 0;
    while i < digest.len()
        invariant
            i <= digest@.len(),
            bytes@ == seq![SHA2_256_CODE, SHA2_256_LEN] + digest@.subrange(0, i as int),
        decreases digest@.len() - i,
    {
        bytes.push(digest[i]);
        i = i + 1;
        assert(bytes@ =~= seq![SHA2_256_CODE, SHA2_256_LEN] + digest@.subrange(0, i as int));
    }
    assert(digest@.subrange(0, digest@.len() as int) =~= digest@);
    base58(bytes.as_slice())
}

} // verus!
