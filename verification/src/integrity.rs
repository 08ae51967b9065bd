//! Integrity verification of a staged artifact: the digest of its full byte
//! content, rendered as lower-case hexadecimal, compared case-insensitively
//! against the digests the catalog published for the version.

use vstd::prelude::*;
use crate::digest::sha256_digest;
use crate::digest::sha256_of;
use crate::hex::hex_eq_ci;
use crate::hex::hex_matches_ci;
use crate::hex::hex_encode;
use crate::hex::hex_of;

verus! {

/// The digest string of an artifact's byte content: the lower-case
/// hexadecimal rendering of its SHA-256 digest. A function of the bytes
/// alone, so identical content always carries the identical digest string.
pub open spec fn digest_of(content: Seq<u8>) -> Seq<u8> {
    hex_of(sha256_of(content))
}

/// Whether some published digest matches the content's digest, up to
/// hexadecimal letter case.
pub open spec fn some_checksum_matches(content: Seq<u8>, expected: Seq<Seq<u8>>) -> bool {
    exists|j: int| 0 <= j < expected.len() && hex_eq_ci(expected[j], digest_of(content))
}

/// The outcome of one verification: the digest computed from the artifact,
/// and the first published digest it matched, if any. Ephemeral; produced
/// and consumed within one pipeline run.
pub struct VerificationResult {
    pub computed: Vec<u8>,
    pub matched: Option<usize>,
}

/// Computes the artifact's digest string in one streaming pass and compares
/// it against every published digest, case-insensitively. Returns the first
/// match, and no match exactly when no published digest equals the computed
/// one — a corrupted or tampered artifact can then never look verified.
pub fn verify(content: &[u8], expected: &Vec<Vec<u8>>) -> (r: VerificationResult)
    ensures
        r.computed@ == digest_of(content@),
        match r.matched {
            Option::Some(i) => {
                &&& i < expected@.len()
                &&& hex_eq_ci(expected.deep_view()[i as int], digest_of(content@))
                &&& forall|j: int|
                    0 <= j < i ==> !hex_eq_ci(expected.deep_view()[j], digest_of(content@))
            },
            Option::None => forall|j: int|
                0 <= j < expected@.len() ==> !hex_eq_ci(
                    expected.deep_view()[j],
                    digest_of(content@),
                ),
        },
        r.matched is Some <==> some_checksum_matches(content@, expected.deep_view()),
{
    let raw = sha256_digest(content);
    let computed = hex_encode(raw.as_slice());
    let mut i: usize = 0;
    proof {
        assert forall|j: int| 0 <= j < expected@.len() implies expected.deep_view()[j]
            == expected@[j]@ by {
            assert(expected@[j].deep_view() =~= expected@[j]@);
        }
    }
    while i < expected.len()
        invariant
            computed@ == digest_of(content@),
            i <= expected@.len(),
            forall|j: int| 0 <= j < expected@.len() ==> expected.deep_view()[j] == expected@[j]@,
            forall|j: int| 0 <= j < i ==> !hex_eq_ci(expected.deep_view()[j], digest_of(content@)),
        decreases expected@.len() - i,
    {
        if hex_matches_ci(expected[i].as_slice(), computed.as_slice()) {
            proof {
                assert(hex_eq_ci(expected.deep_view()[i as int], digest_of(content@)));
            }
            return VerificationResult { computed, matched: Some(i) };
        }
        i += 1;
    }
    VerificationResult { computed, matched: None }
}

/// Checksum determinism: the digest string is a function of the byte
/// content alone, so verifying the same bytes twice computes the same
/// digest. (That distinct contents give distinct digests is a property of
/// the algorithm's collision resistance, which holds only with overwhelming
/// probability and is not provable here.)
pub proof fn lemma_digest_deterministic(c1: Seq<u8>, c2: Seq<u8>)
    requires
        c1 == c2,
    ensures
        digest_of(c1) == digest_of(c2),
{
}

} // verus!
