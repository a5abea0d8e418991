use md5::Digest;
use vstd::prelude::*;

verus! {

/// The lowercase hex digit of a nibble (`0 <= n < 16`).
pub open spec fn hex_digit(n: int) -> char {
    seq!['0', '1', '2', '3', '4', '5', '6', '7', '8', '9', 'a', 'b', 'c', 'd', 'e', 'f'][n]
}

/// Lowercase hex encoding: each byte becomes its high then its low nibble digit.
pub open spec fn hex_lower(b: Seq<u8>) -> Seq<char>
    decreases b.len(),
{
    if b.len() == 0 {
        Seq::empty()
    } else {
        hex_lower(b.drop_last()) + seq![
            hex_digit(b.last() as int / 16),
            hex_digit(b.last() as int % 16),
        ]
    }
}

/// A hex encoding holds two digits per byte.
pub proof fn lemma_hex_lower_len(b: Seq<u8>)
    ensures
        hex_lower(b).len() == 2 * b.len(),
    decreases b.len(),
{
    if b.len() > 0 {
        lemma_hex_lower_len(b.drop_last());
    }
}

/// The MD5 digest of a byte sequence.
pub uninterp spec fn md5_of(data: Seq<u8>) -> Seq<u8>;

/// The SHA-1 digest of a byte sequence.
pub uninterp spec fn sha1_of(data: Seq<u8>) -> Seq<u8>;

/// The SHA-256 digest of a byte sequence.
pub uninterp spec fn sha256_of(data: Seq<u8>) -> Seq<u8>;

/// The SHA-512 digest of a byte sequence.
pub uninterp spec fn sha512_of(data: Seq<u8>) -> Seq<u8>;

/// Relies on hex::encode: two lowercase digits per byte, high nibble first.
#[verifier::external_body]
fn hex_encode(bytes: &[u8]) -> (r: String)
    ensures
        r@ == hex_lower(bytes@),
{
    hex::encode(bytes)
}

/// Relies on md5::Md5 (new, update, finalize): the 16-byte digest of the input.
#[verifier::external_body]
fn md5_digest(data: &[u8]) -> (r: Vec<u8>)
    ensures
        r@ == md5_of(data@),
        r@.len() == 16,
{
    let mut h = md5::Md5::new();
    h.update(data);
    h.finalize().to_vec()
}

/// Relies on sha1::Sha1 (new, update, finalize): the 20-byte digest of the input.
#[verifier::external_body]
fn sha1_digest(data: &[u8]) -> (r: Vec<u8>)
    ensures
        r@ == sha1_of(data@),
        r@.len() == 20,
{
    let mut h = sha1::Sha1::new();
    h.update(data);
    h.finalize().to_vec()
}

/// Relies on sha2::Sha256 (new, update, finalize): the 32-byte digest of the input.
#[verifier::external_body]
fn sha256_digest(data: &[u8]) -> (r: Vec<u8>)
    ensures
        r@ == sha256_of(data@),
        r@.len() == 32,
{
    let mut h = sha2::Sha256::new();
    h.update(data);
    h.finalize().to_vec()
}

/// Relies on sha2::Sha512 (new, update, finalize): the 64-byte digest of the input.
#[verifier::external_body]
fn sha512_digest(data: &[u8]) -> (r: Vec<u8>)
    ensures
        r@ == sha512_of(data@),
        r@.len() == 64,
{
    let mut h = sha2::Sha512::new();
    h.update(data);
    h.finalize().to_vec()
}

/// Lowercase hex MD5 digest of `data`: 32 characters.
pub fn md5_data(data: &[u8]) -> (r: String)
    ensures
        r@ == hex_lower(md5_of(data@)),
        r@.len() == 32,
{
    let d = md5_digest(data);
    proof {
        lemma_hex_lower_len(d@);
    }
    hex_encode(d.as_slice())
}

/// Lowercase hex SHA-1 digest of `data`: 40 characters.
pub fn sha1_data(data: &[u8]) -> (r: String)
    ensures
        r@ == hex_lower(sha1_of(data@)),
        r@.len() == 40,
{
    let d = sha1_digest(data);
    proof {
        lemma_hex_lower_len(d@);
    }
    hex_encode(d.as_slice())
}

/// Lowercase hex SHA-256 digest of `data`: 64 characters.
pub fn sha256_data(data: &[u8]) -> (r: String)
    ensures
        r@ == hex_lower(sha256_of(data@)),
        r@.len() == 64,
{
    let d = sha256_digest(data);
    proof {
        lemma_hex_lower_len(d@);
    }
    hex_encode(d.as_slice())
}

/// Lowercase hex SHA-512 digest of `data`: 128 characters.
pub fn sha512_data(data: &[u8]) -> (r: String)
    ensures
        r@ == hex_lower(sha512_of(data@)),
        r@.len() == 128,
{
    let d = sha512_digest(data);
    proof {
        lemma_hex_lower_len(d@);
    }
    hex_encode(d.as_slice())
}

} // verus!
