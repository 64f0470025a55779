//! Token secrets: random generation, SHA-256 hashing and hexadecimal encoding.

use vstd::prelude::*;
use rand::Rng;
use sha2::Digest;
use crate::text::push_all;

verus! {

/// The lowercase hexadecimal digit for `n` (below 16).
pub open spec fn hex_digit(n: u8) -> char {
    if n < 10 {
        (48 + n) as char
    } else {
        (87 + n) as char
    }
}

/// The lowercase hexadecimal text of `bytes`, two digits per byte, as
/// `format!("{:02x}", b)` writes each byte.
pub open spec fn hex_of(bytes: Seq<u8>) -> Seq<char>
    decreases bytes.len(),
{
    if bytes.len() == 0 {
        seq![]
    } else {
        hex_of(bytes.drop_last()) + seq![hex_digit(bytes.last() / 16), hex_digit(bytes.last() % 16)]
    }
}

fn hex_digit_exec(n: u8) -> (c: char)
    requires
        n < 16,
    ensures
        c == hex_digit(n),
{
    if n < 10 {
        (48 + n) as char
    } else {
        (87 + n) as char
    }
}

/// Lowercase hexadecimal encoding of a byte string.
pub fn encode(data: &[u8]) -> (r: String)
    ensures
        r@ == hex_of(data@),
{
    let mut r = String::new();
    let mut i: usize = 0;
    while i < data.len()
        invariant
            i <= data@.len(),
            r@ == hex_of(data@.take(i as int)),
        decreases data@.len() - i,
    {
        let b = data[i];
        r.push(hex_digit_exec(b / 16));
        r.push(hex_digit_exec(b % 16));
        assert(data@.take(i + 1 as int).drop_last() =~= data@.take(i as int));
        i = i + 1;
    }
    assert(data@.take(data@.len() as int) =~= data@);
    r
}

proof fn lemma_hex_of_len(b: Seq<u8>)
    ensures
        hex_of(b).len() == 2 * b.len(),
    decreases b.len(),
{
    if b.len() > 0 {
        lemma_hex_of_len(b.drop_last());
    }
}

proof fn lemma_hex_of_index(b: Seq<u8>, i: int)
    requires
        0 <= i < b.len(),
    ensures
        hex_of(b)[2 * i] == hex_digit(b[i] / 16),
        hex_of(b)[2 * i + 1] == hex_digit(b[i] % 16),
    decreases b.len(),
{
    lemma_hex_of_len(b.drop_last());
    if i < b.len() - 1 {
        lemma_hex_of_index(b.drop_last(), i);
    }
}

proof fn lemma_hex_digit_injective(x: u8, y: u8)
    requires
        x < 16,
        y < 16,
        hex_digit(x) == hex_digit(y),
    ensures
        x == y,
{
}

/// Hex encoding is two characters per byte and loses nothing: different byte strings
/// have different encodings.
pub proof fn law_hex_encoding_is_injective(a: Seq<u8>, b: Seq<u8>)
    ensures
        hex_of(a).len() == 2 * a.len(),
        hex_of(a) == hex_of(b) ==> a == b,
{
    lemma_hex_of_len(a);
    lemma_hex_of_len(b);
    if hex_of(a) == hex_of(b) {
        assert forall|i: int| 0 <= i < a.len() implies a[i] == b[i] by {
            lemma_hex_of_index(a, i);
            lemma_hex_of_index(b, i);
            lemma_hex_digit_injective(a[i] / 16, b[i] / 16);
            lemma_hex_digit_injective(a[i] % 16, b[i] % 16);
        }
        assert(a =~= b);
    }
}

/// The SHA-256 digest of `data`, as `sha2::Sha256::digest` computes it.
pub uninterp spec fn sha256(data: Seq<u8>) -> Seq<u8>;

/// Calls `sha2::Sha256::digest`. The contract claims that the result is `sha256(data@)` and,
/// as the digest's output size of 32 bytes documents, that it has 32 bytes.
#[verifier::external_body]
fn sha256_digest(data: &[u8]) -> (r: Vec<u8>)
    ensures
        r@ == sha256(data@),
        r@.len() == 32,
{
    sha2::Sha256::digest(data).to_vec()
}

/// The stored form of a secret token: the hex text of the SHA-256 digest of its UTF-8 bytes.
pub open spec fn token_hash_of(token: Seq<char>) -> Seq<char> {
    hex_of(sha256(vstd::utf8::encode_utf8(token)))
}

/// The hex-encoded SHA-256 hash of a secret token.
pub fn hash_token(token: &str) -> (r: String)
    ensures
        r@ == token_hash_of(token@),
        r@.len() == 64,
{
    let digest = sha256_digest(token.as_bytes());
    let r = encode(digest.as_slice());
    proof {
        lemma_hex_of_len(digest@);
    }
    r
}

/// Calls `rand::thread_rng().gen::<[u8; 24]>()`. The contract claims only the length: the
/// bytes are random.
#[verifier::external_body]
fn random_bytes() -> (r: Vec<u8>)
    ensures
        r@.len() == 24,
{
    let bytes: [u8; 24] = rand::thread_rng().gen();
    bytes.to_vec()
}

/// Whether `token` is `prefix`, an underscore, and the hex text of 24 bytes.
pub open spec fn is_generated_token(token: Seq<char>, prefix: Seq<char>) -> bool {
    exists|bytes: Seq<u8>| bytes.len() == 24 && token == prefix + seq!['_'] + #[trigger] hex_of(bytes)
}

/// A fresh secret token: the prefix, an underscore and 48 random hex digits.
pub fn generate_token(prefix: &str) -> (r: String)
    ensures
        is_generated_token(r@, prefix@),
        r@.len() == prefix@.len() + 49,
{
    let bytes = random_bytes();
    let mut r = String::new();
    push_all(&mut r, prefix);
    r.push('_');
    let hex = encode(bytes.as_slice());
    push_all(&mut r, hex.as_str());
    proof {
        lemma_hex_of_len(bytes@);
        assert(r@ == prefix@ + seq!['_'] + hex_of(bytes@));
    }
    r
}

} // verus!
