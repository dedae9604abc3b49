use vstd::prelude::*;

use sha1::{Digest, Sha1};

verus! {

/// The SHA-1 digest of a byte sequence (20 bytes), as computed by the `sha1` crate.
pub uninterp spec fn sha1_digest_of(data: Seq<u8>) -> Seq<u8>;

/// The lowercase hexadecimal digit for a nibble.
pub open spec fn hex_digit(n: u8) -> char {
    if n < 10 {
        (('0' as u8) + n) as char
    } else {
        (('a' as u8) + (n - 10)) as char
    }
}

/// Lowercase hexadecimal encoding: two digits per byte, high nibble first.
pub open spec fn hex_lower(data: Seq<u8>) -> Seq<char>
    decreases data.len(),
{
    if data.len() == 0 {
        Seq::empty()
    } else {
        seq![hex_digit(data[0] / 16), hex_digit(data[0] % 16)] + hex_lower(data.drop_first())
    }
}

/// The value of a lowercase hex digit character.
pub open spec fn hex_value(c: char) -> int {
    if '0' <= c && c <= '9' {
        c as int - '0' as int
    } else if 'a' <= c && c <= 'f' {
        c as int - 'a' as int + 10
    } else {
        -1
    }
}

/// Hex encoding decodes back: every byte becomes two lowercase hex digits, the
/// high nibble first, and encoding a concatenation concatenates the encodings.
pub proof fn lemma_hex_lower_decodes(data: Seq<u8>, more: Seq<u8>)
    ensures
        hex_lower(data).len() == 2 * data.len(),
        forall|i: int|
            0 <= i < data.len() ==> hex_value(#[trigger] hex_lower(data)[2 * i]) == data[i] / 16
                && hex_value(hex_lower(data)[2 * i + 1]) == data[i] % 16,
        hex_lower(data + more) == hex_lower(data) + hex_lower(more),
    decreases data.len(),
{
    if data.len() > 0 {
        let rest = data.drop_first();
        lemma_hex_lower_decodes(rest, more);
        assert((data + more).drop_first() =~= rest + more);
        let h = hex_lower(data);
        assert forall|i: int| 0 <= i < data.len() implies hex_value(#[trigger] h[2 * i]) == data[i]
            / 16 && hex_value(h[2 * i + 1]) == data[i] % 16 by {
            if i > 0 {
                assert(h[2 * i] == hex_lower(rest)[2 * (i - 1)]);
                assert(h[2 * i + 1] == hex_lower(rest)[2 * (i - 1) + 1]);
                assert(rest[i - 1] == data[i]);
            } else {
                let hi = data[0] / 16;
                let lo = data[0] % 16;
                assert(hex_value(hex_digit(hi)) == hi);
                assert(hex_value(hex_digit(lo)) == lo);
            }
        }
        assert(hex_lower(data + more) =~= hex_lower(data) + hex_lower(more));
    } else {
        assert(data + more =~= more);
        assert(hex_lower(data) =~= Seq::<char>::empty());
        assert(hex_lower(data + more) =~= hex_lower(data) + hex_lower(more));
    }
}

/// Hex encoding doubles the length.
pub proof fn lemma_hex_lower_len(data: Seq<u8>)
    ensures
        hex_lower(data).len() == 2 * data.len(),
    decreases data.len(),
{
    if data.len() > 0 {
        lemma_hex_lower_len(data.drop_first());
    }
}

/// The lowercase hex SHA-1 of `data`, as stored in the CDN manifests.
pub open spec fn sha1_hex_of(data: Seq<u8>) -> Seq<char> {
    hex_lower(sha1_digest_of(data))
}

/// Calls `<Sha1 as Digest>::digest`: the 20-byte SHA-1 digest of `data`.
/// The contract names the result and states its length, nothing more.
#[verifier::external_body]
fn sha1_digest(data: &[u8]) -> (res: Vec<u8>)
    ensures
        res@ == sha1_digest_of(data@),
        res@.len() == 20,
{
    Sha1::digest(data).to_vec()
}

/// Calls `hex::encode`, which encodes its input as lowercase hexadecimal,
/// two characters per byte, high nibble first.
#[verifier::external_body]
fn hex_encode(data: &[u8]) -> (res: String)
    ensures
        res@ == hex_lower(data@),
{
    hex::encode(data)
}

/// The hash compared with a manifest is the SHA-1 of the whole input, every
/// byte of it, hex-encoded: no prefix or other part of the data stands in for it.
pub proof fn lemma_sha1_hex_covers_whole_input(data: Seq<u8>)
    ensures
        sha1_hex_of(data) == hex_lower(sha1_digest_of(data)),
        sha1_hex_of(data).len() == 2 * sha1_digest_of(data).len(),
{
    lemma_hex_lower_len(sha1_digest_of(data));
}

/// Lowercase hex SHA-1 of `data`.
pub fn sha1_hex(data: &[u8]) -> (res: String)
    ensures
        res@ == sha1_hex_of(data@),
        res@ == hex_lower(sha1_digest_of(data@)),
        res@.len() == 40,
{
    let digest = sha1_digest(data);
    proof {
        lemma_hex_lower_len(digest@);
    }
    hex_encode(digest.as_slice())
}

/// Why a download was rejected: its SHA-1 differs from the one expected.
#[derive(Debug, Clone)]
pub struct Sha1Mismatch {
    pub expected: String,
    pub actual: String,
}

/// Checks that the lowercase hex encoding of a computed `digest` equals `expected`.
pub fn check_digest(digest: &[u8], expected: &str) -> (res: Result<(), Sha1Mismatch>)
    ensures
        res is Ok <==> hex_lower(digest@) == expected@,
        res matches Err(e) ==> e.expected@ == expected@ && e.actual@ == hex_lower(digest@),
{
    let actual = hex_encode(digest);
    let expected = String::from_str(expected);
    if actual != expected {
        Err(Sha1Mismatch { expected, actual })
    } else {
        Ok(())
    }
}

/// Checks that the lowercase hex SHA-1 of `data` equals `expected`.
pub fn verify_sha1(data: &[u8], expected: &str) -> (res: Result<(), Sha1Mismatch>)
    ensures
        res is Ok <==> sha1_hex_of(data@) == expected@,
        res matches Err(e) ==> e.expected@ == expected@ && e.actual@ == sha1_hex_of(data@),
        res is Ok <==> hex_lower(sha1_digest_of(data@)) == expected@,
        res matches Err(e) ==> e.actual@ == hex_lower(sha1_digest_of(data@)),
{
    let digest = sha1_digest(data);
    check_digest(digest.as_slice(), expected)
}

} // verus!
