use vstd::prelude::*;

use crate::config::str_eq;

verus! {

/// The lowercase hex encoding of the MD5 digest of `data`.
pub uninterp spec fn md5_hex_of(data: Seq<u8>) -> Seq<char>;

/// Relies on `md5::compute` and the `LowerHex` format of its digest: two
/// lowercase hex digits for each of the sixteen digest bytes.
#[verifier::external_body]
fn md5_hex(data: &[u8]) -> (r: String)
    ensures
        r@ == md5_hex_of(data@),
        r@.len() == 32,
{
    format!("{:x}", md5::compute(data))
}

/// `content` hashes to exactly `expected` (case-sensitive).
pub open spec fn md5_matches(content: Seq<u8>, expected: Seq<char>) -> bool {
    md5_hex_of(content) == expected
}

/// The hex MD5 digest of a file's content.
pub fn calculate_md5(content: &[u8]) -> (r: String)
    ensures
        r@ == md5_hex_of(content@),
        r@.len() == 32,
{
    md5_hex(content)
}

/// Whether a file's content hashes to `expected_md5`.
pub fn verify_md5(content: &[u8], expected_md5: &str) -> (r: bool)
    ensures
        r == md5_matches(content@, expected_md5@),
{
    let actual = calculate_md5(content);
    str_eq(actual.as_str(), expected_md5)
}

/// Checking content against its own digest always succeeds.
pub proof fn lemma_verify_own_digest(content: Seq<u8>)
    ensures
        md5_matches(content, md5_hex_of(content)),
{
}

/// Checking content against a value other than its digest always fails.
pub proof fn lemma_verify_other_digest(content: Seq<u8>, expected: Seq<char>)
    requires
        expected != md5_hex_of(content),
    ensures
        !md5_matches(content, expected),
{
}

} // verus!
