//! Laws that hold of canonicalization and verification.

use vstd::prelude::*;
use crate::fingerprint::{canonical, fingerprint_of, hex_digit, hex_lower, raw_token, sha512_of};
use crate::handler::verify_spec;

verus! {

/// Canonicalization is a pure function of the header value: the same value
/// always yields the same fingerprint, or the same rejection.
pub proof fn canonicalize_is_deterministic(h1: Seq<u8>, h2: Seq<u8>)
    requires
        h1 == h2,
    ensures
        canonical(h1) == canonical(h2),
{
}

/// Two header values that carry the same raw token (after the prefix and
/// outer whitespace are removed) have the same fingerprint.
pub proof fn same_raw_token_same_fingerprint(h1: Seq<u8>, h2: Seq<u8>)
    requires
        raw_token(h1) is Some,
        raw_token(h1) == raw_token(h2),
    ensures
        canonical(h1) == canonical(h2),
        canonical(h1) is Ok,
{
}

proof fn hex_digit_injective(a: u8, b: u8)
    requires
        a < 16,
        b < 16,
        hex_digit(a) == hex_digit(b),
    ensures
        a == b,
{
}

/// Lowercase hex rendering loses nothing: distinct byte strings have
/// distinct renderings.
pub proof fn hex_lower_injective(a: Seq<u8>, b: Seq<u8>)
    requires
        hex_lower(a) == hex_lower(b),
    ensures
        a == b,
{
    assert(hex_lower(a).len() == 2 * a.len());
    assert(hex_lower(b).len() == 2 * b.len());
    assert(a.len() == b.len());
    assert forall|i: int| 0 <= i < a.len() implies a[i] == b[i] by {
        let j = 2 * i;
        assert(j / 2 == i && j % 2 == 0);
        assert((j + 1) / 2 == i && (j + 1) % 2 == 1);
        assert(hex_lower(a)[j] == hex_digit(a[i] / 16));
        assert(hex_lower(b)[j] == hex_digit(b[i] / 16));
        assert(hex_lower(a)[j + 1] == hex_digit(a[i] % 16));
        assert(hex_lower(b)[j + 1] == hex_digit(b[i] % 16));
        hex_digit_injective(a[i] / 16, b[i] / 16);
        hex_digit_injective(a[i] % 16, b[i] % 16);
        let (x, y) = (a[i], b[i]);
        assert(x == y) by (bit_vector)
            requires
                x / 16 == y / 16,
                x % 16 == y % 16,
        ;
    }
    assert(a =~= b);
}

/// Tokens whose SHA-512 digests differ have different fingerprints: the
/// fingerprint is as collision resistant as the digest.
pub proof fn distinct_digests_distinct_fingerprints(t1: Seq<u8>, t2: Seq<u8>)
    requires
        sha512_of(t1) != sha512_of(t2),
    ensures
        fingerprint_of(t1) != fingerprint_of(t2),
{
    if fingerprint_of(t1) == fingerprint_of(t2) {
        hex_lower_injective(sha512_of(t1), sha512_of(t2));
    }
}

/// Verification keeps no state between requests: repeating a request
/// against an unchanged store yields the same response.
pub proof fn repeated_request_same_response(
    h1: Option<Seq<u8>>,
    h2: Option<Seq<u8>>,
    store: Map<Seq<char>, Seq<char>>,
)
    requires
        h1 == h2,
    ensures
        verify_spec(h1, store) == verify_spec(h2, store),
{
}

} // verus!
