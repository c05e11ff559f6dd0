//! SHA-256 integrity check of downloaded artifacts.
use vstd::prelude::*;
use sha2::Digest;

verus! {

/// Lowercase hex rendering of the SHA-256 digest of `data`.
pub uninterp spec fn sha256_hex_of(data: Seq<u8>) -> Seq<char>;

/// Relies on `sha2::Sha256::digest` and the `LowerHex` rendering of its output:
/// the lowercase hex digest depends on the bytes alone.
#[verifier::external_body]
fn sha256_hex(data: &[u8]) -> (r: String)
    ensures
        r@ == sha256_hex_of(data@),
{
    format!("{:x}", sha2::Sha256::digest(data))
}

/// A digest that differs from the one an artifact was declared with.
#[derive(Clone, Debug, PartialEq, Eq)]
pub struct DigestMismatch {
    pub expected: String,
    pub actual: String,
}

/// Whether `data` is accepted under the declared digest `expected`.
pub open spec fn digest_accepts(data: Seq<u8>, expected: Seq<char>) -> bool {
    sha256_hex_of(data) == expected
}

/// Exact comparison of two strings, character by character.
pub fn same_text(a: &str, b: &str) -> (r: bool)
    ensures
        r == (a@ == b@),
{
    let n = a.unicode_len();
    if n != b.unicode_len() {
        return false;
    }
    let mut i: usize = 0;
    while i < n
        invariant
            n == a@.len(),
            n == b@.len(),
            i <= n,
            forall|k: int| 0 <= k < i ==> a@[k] == b@[k],
        decreases n - i,
    {
        if a.get_char(i) != b.get_char(i) {
            return false;
        }
        i = i + 1;
    }
    assert(a@ =~= b@);
    true
}

/// Compares a computed digest with the expected one.
pub fn compare_digest(actual: &str, expected: &str) -> (r: Result<(), DigestMismatch>)
    ensures
        r is Ok <==> actual@ == expected@,
        r matches Err(e) ==> e.expected@ == expected@ && e.actual@ == actual@,
{
    if same_text(actual, expected) {
        Ok(())
    } else {
        Err(DigestMismatch { expected: String::from_str(expected), actual: String::from_str(actual) })
    }
}

/// Checks that `data` has the lowercase hex SHA-256 digest `expected`.
pub fn verify_digest(data: &[u8], expected: &str) -> (r: Result<(), DigestMismatch>)
    ensures
        r is Ok <==> digest_accepts(data@, expected@),
        r matches Err(e) ==> e.expected@ == expected@ && e.actual@ == sha256_hex_of(data@),
{
    let actual = sha256_hex(data);
    compare_digest(actual.as_str(), expected)
}

/// Verifying data against its own digest succeeds, and against any other
/// text fails.
pub proof fn lemma_verify_round_trip(data: Seq<u8>, other: Seq<char>)
    requires
        other != sha256_hex_of(data),
    ensures
        digest_accepts(data, sha256_hex_of(data)),
        !digest_accepts(data, other),
{
}

} // verus!
