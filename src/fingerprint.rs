//! Canonicalization of a bearer credential into its lookup fingerprint.

use sha2::Digest;
use vstd::prelude::*;
use vstd::string::*;
use crate::response::AuthError;

verus! {

/// The SHA-512 digest of `data`, as computed by the `sha2` crate.
pub uninterp spec fn sha512_of(data: Seq<u8>) -> Seq<u8>;

/// Relies on `sha2::Sha512` through `digest::Digest::digest`: the digest is a
/// function of the input bytes alone and is 64 bytes long.
#[verifier::external_body]
fn sha512(data: &[u8]) -> (r: Vec<u8>)
    ensures
        r@ == sha512_of(data@),
        r@.len() == 64,
{
    sha2::Sha512::digest(data).to_vec()
}

/// The lowercase hexadecimal digit for a value below 16.
pub open spec fn hex_digit(n: u8) -> char {
    if n < 10 {
        (n + 48) as u8 as char
    } else {
        (n + 87) as u8 as char
    }
}

/// Lowercase hexadecimal rendering: two digits per byte, high nibble first.
pub open spec fn hex_lower(data: Seq<u8>) -> Seq<char> {
    Seq::new(
        2 * data.len(),
        |i: int|
            if i % 2 == 0 {
                hex_digit(data[i / 2] / 16)
            } else {
                hex_digit(data[i / 2] % 16)
            },
    )
}

/// Relies on `hex::encode`: each byte becomes two lowercase hex digits, high
/// nibble first, in input order.
#[verifier::external_body]
fn hex_encode(data: &[u8]) -> (r: String)
    ensures
        r@ == hex_lower(data@),
{
    hex::encode(data)
}

/// The scheme marker that a credential must start with: the bytes of `Bearer `.
pub open spec fn bearer_prefix() -> Seq<u8> {
    seq![66u8, 101u8, 97u8, 114u8, 101u8, 114u8, 32u8]
}

/// ASCII whitespace as `u8::is_ascii_whitespace` defines it.
pub open spec fn is_ascii_ws(b: u8) -> bool {
    b == 0x20 || b == 0x09 || b == 0x0a || b == 0x0c || b == 0x0d
}

/// `s` without its leading ASCII whitespace.
pub open spec fn trim_start(s: Seq<u8>) -> Seq<u8>
    decreases s.len(),
{
    if s.len() > 0 && is_ascii_ws(s[0]) {
        trim_start(s.drop_first())
    } else {
        s
    }
}

/// `s` without its trailing ASCII whitespace.
pub open spec fn trim_end(s: Seq<u8>) -> Seq<u8>
    decreases s.len(),
{
    if s.len() > 0 && is_ascii_ws(s.last()) {
        trim_end(s.drop_last())
    } else {
        s
    }
}

/// `s` without surrounding ASCII whitespace.
pub open spec fn trim_ascii(s: Seq<u8>) -> Seq<u8> {
    trim_end(trim_start(s))
}

/// The raw token carried by a header value: what follows the `Bearer `
/// prefix, trimmed; `None` when the prefix is absent.
pub open spec fn raw_token(header: Seq<u8>) -> Option<Seq<u8>> {
    if header.len() >= bearer_prefix().len() && header.take(bearer_prefix().len() as int)
        == bearer_prefix() {
        Some(trim_ascii(header.skip(bearer_prefix().len() as int)))
    } else {
        None
    }
}

/// The fingerprint of a raw token: its SHA-512 digest in lowercase hex.
pub open spec fn fingerprint_of(token: Seq<u8>) -> Seq<char> {
    hex_lower(sha512_of(token))
}

fn is_ascii_whitespace_byte(b: u8) -> (r: bool)
    ensures
        r == is_ascii_ws(b),
{
    b == 0x20 || b == 0x09 || b == 0x0a || b == 0x0c || b == 0x0d
}

/// Whether `header` starts with the `Bearer ` scheme marker.
pub fn has_bearer_prefix(header: &[u8]) -> (r: bool)
    ensures
        r == (header@.len() >= bearer_prefix().len() && header@.take(
            bearer_prefix().len() as int,
        ) == bearer_prefix()),
{
    let prefix: [u8; 7] = [66, 101, 97, 114, 101, 114, 32];
    assert(prefix@ =~= bearer_prefix());
    if header.len() < 7 {
        return false;
    }
    let mut i: usize = 0;
    while i < 7
        invariant
            i <= 7,
            header@.len() >= 7,
            prefix@ == bearer_prefix(),
            forall|j: int| 0 <= j < i ==> header@[j] == bearer_prefix()[j],
        decreases 7 - i,
    {
        if header[i] != prefix[i] {
            assert(header@.take(7)[i as int] != bearer_prefix()[i as int]);
            return false;
        }
        i = i + 1;
    }
    assert(header@.take(7) =~= bearer_prefix());
    true
}

/// Extracts the raw token from a header value: the bytes after `Bearer `
/// with surrounding ASCII whitespace removed, or `None` without the prefix.
pub fn extract_raw_token(header: &[u8]) -> (r: Option<Vec<u8>>)
    ensures
        match r {
            Some(t) => raw_token(header@) == Some(t@),
            None => raw_token(header@) is None,
        },
{
    if !has_bearer_prefix(header) {
        return None;
    }
    let n = header.len();
    let ghost rest = header@.skip(7);
    let mut start: usize = 7;
    while start < n && is_ascii_whitespace_byte(header[start])
        invariant
            7 <= start <= n,
            n == header@.len(),
            rest == header@.skip(7),
            trim_start(rest) == trim_start(header@.subrange(start as int, n as int)),
        decreases n - start,
    {
        assert(header@.subrange(start as int + 1, n as int) =~= header@.subrange(
            start as int,
            n as int,
        ).drop_first());
        start = start + 1;
    }
    assert(trim_start(rest) == header@.subrange(start as int, n as int));
    let mut end: usize = n;
    while end > start && is_ascii_whitespace_byte(header[end - 1])
        invariant
            7 <= start <= end <= n,
            n == header@.len(),
            trim_ascii(rest) == trim_end(header@.subrange(start as int, end as int)),
        decreases end - start,
    {
        assert(header@.subrange(start as int, end as int - 1) =~= header@.subrange(
            start as int,
            end as int,
        ).drop_last());
        end = end - 1;
    }
    let mut token: Vec<u8> = Vec::new();
    let mut k: usize = start;
    while k < end
        invariant
            start <= k <= end <= n,
            n == header@.len(),
            token@ == header@.subrange(start as int, k as int),
        decreases end - k,
    {
        token.push(header[k]);
        assert(token@ =~= header@.subrange(start as int, k as int + 1));
        k = k + 1;
    }
    assert(trim_ascii(rest) == token@);
    Some(token)
}

/// The fingerprint of a raw token: the lowercase hex rendering of its SHA-512
/// digest, 128 characters long.
pub fn fingerprint(token: &[u8]) -> (r: String)
    ensures
        r@ == fingerprint_of(token@),
        r@.len() == 128,
{
    let digest = sha512(token);
    hex_encode(digest.as_slice())
}

/// The outcome of canonicalizing a header value given as bytes.
pub open spec fn canonical(header: Seq<u8>) -> Result<Seq<char>, AuthError> {
    match raw_token(header) {
        Some(t) => Ok(fingerprint_of(t)),
        None => Err(AuthError::MalformedCredential),
    }
}

/// Canonicalizes an `Authorization` header value into its fingerprint: the
/// value must start with `Bearer `; the rest, trimmed of ASCII whitespace, is
/// hashed with SHA-512 and rendered in lowercase hex.
pub fn canonicalize(header: &str) -> (r: Result<String, AuthError>)
    ensures
        match r {
            Ok(f) => canonical(header.spec_bytes()) == Ok::<Seq<char>, AuthError>(f@),
            Err(e) => canonical(header.spec_bytes()) == Err::<Seq<char>, AuthError>(e),
        },
{
    match extract_raw_token(header.as_bytes()) {
        Some(token) => Ok(fingerprint(token.as_slice())),
        None => Err(AuthError::MalformedCredential),
    }
}

} // verus!
