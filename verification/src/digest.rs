//! The digest formatter: a BLAKE3 digest over input bytes, rendered as
//! `blake3:<64 lowercase hex characters>`.

use vstd::prelude::*;
use vstd::string::StringExecFns;
use crate::hex::{hex_of, hex_encode, is_hex_char, hex_digit};

verus! {

/// The BLAKE3 digest (default parameters, 32-byte output) of a byte
/// sequence. The digest is a function of the input bytes alone.
pub uninterp spec fn blake3_of(bytes: Seq<u8>) -> Seq<u8>;

/// Relies on blake3::hash: the default hash function, a deterministic
/// 32-byte digest of the input bytes (no key, no context string).
#[verifier::external_body]
fn blake3_digest(bytes: &[u8]) -> (r: Vec<u8>)
    ensures
        r@ == blake3_of(bytes@),
        r@.len() == 32,
{
    blake3::hash(bytes).as_bytes().to_vec()
}

/// The algorithm tag that prefixes every formatted digest.
pub open spec fn digest_prefix() -> Seq<char> {
    seq!['b', 'l', 'a', 'k', 'e', '3', ':']
}

/// A 32-byte digest rendered as the tag followed by its hex form.
pub open spec fn format_digest(digest: Seq<u8>) -> Seq<char> {
    digest_prefix() + hex_of(digest)
}

/// The formatted BLAKE3 digest of a byte sequence.
pub open spec fn formatted_digest(bytes: Seq<u8>) -> Seq<char> {
    format_digest(blake3_of(bytes))
}

/// A well-formed formatted digest: 71 characters, the tag, then 64
/// lowercase hex characters.
pub open spec fn is_digest_string(s: Seq<char>) -> bool {
    &&& s.len() == 71
    &&& s.take(7) == digest_prefix()
    &&& forall|i: int| 7 <= i < 71 ==> is_hex_char(#[trigger] s[i])
}

/// Every nibble renders as a lowercase hex character.
proof fn lemma_hex_digit_is_hex(n: int)
    requires
        0 <= n < 16,
    ensures
        is_hex_char(hex_digit(n)),
{
}

/// The hex rendering of a byte sequence has twice its length and holds
/// lowercase hex characters only.
pub proof fn lemma_hex_of_format(bytes: Seq<u8>)
    ensures
        hex_of(bytes).len() == 2 * bytes.len(),
        forall|i: int| 0 <= i < hex_of(bytes).len() ==> is_hex_char(#[trigger] hex_of(bytes)[i]),
{
    assert forall|i: int| 0 <= i < hex_of(bytes).len() implies is_hex_char(
        #[trigger] hex_of(bytes)[i],
    ) by {
        let b = bytes[i / 2] as int;
        assert(0 <= b < 256);
        assert(0 <= b / 16 < 16) by (nonlinear_arith)
            requires
                0 <= b < 256,
        ;
        if i % 2 == 0 {
            lemma_hex_digit_is_hex(b / 16);
        } else {
            lemma_hex_digit_is_hex(b % 16);
        }
    }
}

/// Law: the formatted digest is deterministic. It is a function of the
/// input bytes alone, so equal inputs always format to equal strings.
pub proof fn lemma_digest_deterministic(b1: Seq<u8>, b2: Seq<u8>)
    requires
        b1 == b2,
    ensures
        formatted_digest(b1) == formatted_digest(b2),
{
}

/// Law: formatting loses no information. Distinct digests of equal
/// length always format to distinct strings, so any two inputs whose
/// underlying digests differ have distinct formatted digests.
pub proof fn lemma_format_digest_injective(d1: Seq<u8>, d2: Seq<u8>)
    requires
        d1.len() == d2.len(),
        d1 != d2,
    ensures
        format_digest(d1) != format_digest(d2),
{
    crate::hex::lemma_hex_of_injective(d1, d2);
    if format_digest(d1) == format_digest(d2) {
        assert(hex_of(d1) =~= hex_of(d2)) by {
            assert forall|j: int| 0 <= j < hex_of(d1).len() implies hex_of(d1)[j] == hex_of(
                d2,
            )[j] by {
                assert(format_digest(d1)[7 + j] == hex_of(d1)[j]);
                assert(format_digest(d2)[7 + j] == hex_of(d2)[j]);
            }
        };
    }
}

/// Computes the formatted BLAKE3 digest of the input bytes. Total: every
/// byte sequence, the empty one included, has a digest. The result is
/// `blake3:` followed by 64 lowercase hex characters, and is determined
/// by the input bytes alone.
pub fn merkle_root_demo(bytes: &[u8]) -> (r: String)
    ensures
        r@ == formatted_digest(bytes@),
        is_digest_string(r@),
{
    let digest = blake3_digest(bytes);
    let hex = hex_encode(digest.as_slice());
    let mut out = String::from_str("blake3:");
    out.append(hex.as_str());
    proof {
        reveal_strlit("blake3:");
        assert("blake3:"@ =~= digest_prefix());
        lemma_hex_of_format(digest@);
        assert(out@.take(7) =~= digest_prefix());
        assert forall|i: int| 7 <= i < 71 implies is_hex_char(#[trigger] out@[i]) by {
            assert(out@[i] == hex_of(digest@)[i - 7]);
        }
    }
    out
}

} // verus!
