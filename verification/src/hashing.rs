//! SHA-256 fingerprints written as lower-case hexadecimal.

use sha2::Digest;
use vstd::prelude::*;
use vstd::utf8::encode_utf8;
use crate::text::string_of;

verus! {

/// What `sha2::Sha256::digest` returns for these bytes.
pub uninterp spec fn sha256(data: Seq<u8>) -> Seq<u8>;

/// Calls `sha2::Sha256::digest`. The digest is named `sha256` of the input
/// bytes; a SHA-256 digest is 32 bytes long.
#[verifier::external_body]
fn sha256_digest(data: &[u8]) -> (r: Vec<u8>)
    ensures
        r@ == sha256(data@),
        r@.len() == 32,
{
    sha2::Sha256::digest(data).to_vec()
}

/// The lower-case hexadecimal digit of a value below sixteen.
pub open spec fn hex_char(n: u8) -> char {
    if n < 10 {
        ((48 + n) as u32) as char
    } else {
        ((87 + n) as u32) as char
    }
}

/// `format!("{:x}", bytes)` of a byte array: two lower-case hexadecimal
/// digits per byte, high half first.
pub open spec fn lower_hex(s: Seq<u8>) -> Seq<char>
    decreases s.len(),
{
    if s.len() == 0 {
        seq![]
    } else {
        lower_hex(s.drop_last()) + seq![hex_char(s.last() / 16), hex_char(s.last() % 16)]
    }
}

pub proof fn lemma_lower_hex_len(s: Seq<u8>)
    ensures
        lower_hex(s).len() == 2 * s.len(),
    decreases s.len(),
{
    if s.len() > 0 {
        lemma_lower_hex_len(s.drop_last());
    }
}

fn hex_char_exec(n: u8) -> (c: char)
    requires
        n < 16,
    ensures
        c == hex_char(n),
{
    if n < 10 {
        ((48 + n) as u8) as char
    } else {
        ((87 + n) as u8) as char
    }
}

pub fn lower_hex_exec(s: &[u8]) -> (r: Vec<char>)
    ensures
        r@ == lower_hex(s@),
{
    let mut r: Vec<char> = Vec::new();
    let mut i: usize = 0;
    assert(s@.subrange(0, 0) =~= Seq::<u8>::empty());
    while i < s.len()
        invariant
            i <= s@.len(),
            r@ == lower_hex(s@.subrange(0, i as int)),
        decreases s@.len() - i,
    {
        let b = s[i];
        assert(s@.subrange(0, i + 1).drop_last() =~= s@.subrange(0, i as int));
        r.push(hex_char_exec(b / 16));
        r.push(hex_char_exec(b % 16));
        assert(r@ =~= lower_hex(s@.subrange(0, i + 1)));
        i = i + 1;
    }
    assert(s@.subrange(0, s@.len() as int) =~= s@);
    r
}

/// The SHA-256 fingerprint of the UTF-8 encoding of `text`, in lower-case
/// hexadecimal: `format!("{:x}", Sha256::digest(text.as_bytes()))`.
pub open spec fn sha256_hex_spec(text: Seq<char>) -> Seq<char> {
    lower_hex(sha256(encode_utf8(text)))
}

pub fn sha256_hex(text: &[char]) -> (r: Vec<char>)
    ensures
        r@ == sha256_hex_spec(text@),
        r@.len() == 64,
{
    let s = string_of(text);
    let bytes = s.as_str().as_bytes();
    let d = sha256_digest(bytes);
    proof {
        lemma_lower_hex_len(d@);
    }
    lower_hex_exec(d.as_slice())
}

} // verus!
