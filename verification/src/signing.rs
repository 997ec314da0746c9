//! Authentication of signed webhook payloads: a keyed SHA-256 message
//! authentication code over the raw body, transported as a prefixed,
//! hex-encoded header value.

use vstd::prelude::*;
use vstd::string::StrSliceExecFns;
use vstd::string::StringExecFns;
use vstd::utf8::encode_utf8;

use hmac::Mac;

use crate::strings::push_char;
use crate::strings::str_eq;

verus! {

/// Whether `c` is a hexadecimal digit, upper or lower case.
pub open spec fn is_hex_digit(c: char) -> bool {
    let v = c as u32;
    (48 <= v <= 57) || (97 <= v <= 102) || (65 <= v <= 70)
}

/// The numeric value of a hexadecimal digit.
pub open spec fn hex_val(c: char) -> int {
    let v = c as u32;
    if 48 <= v <= 57 {
        v - 48
    } else if 97 <= v <= 102 {
        v - 87
    } else {
        v - 55
    }
}

/// The lower-case hexadecimal digit for a value 0 through 15.
pub open spec fn hex_char(d: int) -> char {
    if d < 10 {
        ((48 + d) as u8) as char
    } else {
        ((87 + d) as u8) as char
    }
}

/// Hex decoding: an even-length string of hexadecimal digits (either case)
/// denotes one byte per digit pair; anything else decodes to nothing.
pub open spec fn hex_decode_spec(s: Seq<char>) -> Option<Seq<u8>> {
    if s.len() % 2 == 0 && (forall|i: int| 0 <= i < s.len() ==> is_hex_digit(#[trigger] s[i])) {
        Some(
            Seq::new(
                (s.len() / 2) as nat,
                |i: int| (hex_val(s[2 * i]) * 16 + hex_val(s[2 * i + 1])) as u8,
            ),
        )
    } else {
        None
    }
}

/// Lower-case hex encoding: two digits for each byte, in order.
pub open spec fn hex_str(b: Seq<u8>) -> Seq<char> {
    Seq::new(
        (2 * b.len()) as nat,
        |i: int|
            if i % 2 == 0 {
                hex_char((b[i / 2] as int) / 16)
            } else {
                hex_char((b[i / 2] as int) % 16)
            },
    )
}

/// Decoding inverts encoding: the hex string of any byte sequence decodes
/// back to exactly those bytes.
pub proof fn lemma_hex_round_trip(b: Seq<u8>)
    ensures
        hex_decode_spec(hex_str(b)) == Some(b),
{
    let s = hex_str(b);
    assert forall|i: int| 0 <= i < s.len() implies is_hex_digit(#[trigger] s[i]) by {
        let d = if i % 2 == 0 {
            (b[i / 2] as int) / 16
        } else {
            (b[i / 2] as int) % 16
        };
        assert(0 <= d < 16);
        assert(s[i] == hex_char(d));
    }
    let decoded = hex_decode_spec(s)->0;
    assert forall|i: int| 0 <= i < b.len() implies decoded[i] == b[i] by {
        let hi = (b[i] as int) / 16;
        let lo = (b[i] as int) % 16;
        assert(s[2 * i] == hex_char(hi));
        assert(s[2 * i + 1] == hex_char(lo));
        assert(hex_val(hex_char(hi)) == hi);
        assert(hex_val(hex_char(lo)) == lo);
        assert(decoded[i] == (hi * 16 + lo) as u8);
        assert(hi * 16 + lo == b[i]);
    }
    assert(decoded =~= b);
}

/// Renders bytes as lower-case hexadecimal.
pub fn hex_encode(bytes: &[u8]) -> (r: String)
    ensures
        r@ == hex_str(bytes@),
{
    let mut out = String::new();
    let mut i: usize = 0;
    while i < bytes.len()
        invariant
            i <= bytes@.len(),
            out@ == hex_str(bytes@.subrange(0, i as int)),
        decreases bytes@.len() - i,
    {
        let byte = bytes[i];
        let hi = byte / 16;
        let lo = byte % 16;
        let hc: u8 = if hi < 10 {
            48 + hi
        } else {
            87 + hi
        };
        let lc: u8 = if lo < 10 {
            48 + lo
        } else {
            87 + lo
        };
        push_char(&mut out, hc as char);
        push_char(&mut out, lc as char);
        proof {
            assert(hc as char == hex_char((bytes@[i as int] as int) / 16));
            assert(lc as char == hex_char((bytes@[i as int] as int) % 16));
            assert(out@ =~= hex_str(bytes@.subrange(0, i + 1 as int)));
        }
        i += 1;
    }
    proof {
        assert(bytes@.subrange(0, bytes@.len() as int) =~= bytes@);
    }
    out
}

/// The keyed SHA-256 message authentication code of `data` under `key`: a
/// fixed function of the key and the data alone.
pub uninterp spec fn hmac_sha256_of(key: Seq<u8>, data: Seq<u8>) -> Seq<u8>;

/// Relies on `hmac::Hmac<sha2::Sha256>` (`new_from_slice`, `update`,
/// `finalize`): computes the HMAC-SHA-256 tag of `data` under `key`, 32
/// bytes, a function of the two arguments alone. `new_from_slice` accepts
/// keys of any length for HMAC.
#[verifier::external_body]
fn compute_hmac_sha256(key: &[u8], data: &[u8]) -> (r: Vec<u8>)
    ensures
        r@ == hmac_sha256_of(key@, data@),
        r@.len() == 32,
{
    let mut mac = <hmac::Hmac<sha2::Sha256> as Mac>::new_from_slice(key)
        .expect("HMAC accepts keys of any length");
    mac.update(data);
    mac.finalize().into_bytes().to_vec()
}

/// Relies on `hmac::Mac::verify_slice`: true exactly when `tag` equals the
/// HMAC-SHA-256 of `data` under `key`; the comparison is constant-time, so
/// its cost does not depend on how long a prefix of the tag matches.
#[verifier::external_body]
fn hmac_sha256_matches(key: &[u8], data: &[u8], tag: &[u8]) -> (r: bool)
    ensures
        r == (tag@ == hmac_sha256_of(key@, data@)),
{
    let mut mac = <hmac::Hmac<sha2::Sha256> as Mac>::new_from_slice(key)
        .expect("HMAC accepts keys of any length");
    mac.update(data);
    mac.verify_slice(tag).is_ok()
}

/// Relies on `hex::decode`: both digit cases are accepted; an odd length or
/// a non-digit yields nothing. Exactly [`hex_decode_spec`].
#[verifier::external_body]
fn hex_decode(s: &str) -> (r: Option<Vec<u8>>)
    ensures
        match r {
            Some(v) => hex_decode_spec(s@) == Some(v@),
            None => hex_decode_spec(s@) is None,
        },
{
    match hex::decode(s) {
        Ok(v) => Some(v),
        Err(_) => None,
    }
}

/// The declared signature value that authenticates `data` under `secret`:
/// the algorithm prefix followed by the hex-encoded tag.
pub open spec fn signed_value(secret: Seq<char>, data: Seq<char>) -> Seq<char> {
    "sha256="@ + hex_str(hmac_sha256_of(encode_utf8(secret), encode_utf8(data)))
}

/// When a declared signature authenticates `data` under `secret`: it carries
/// the algorithm prefix, and the rest hex-decodes to exactly the tag.
pub open spec fn valid_signature(secret: Seq<char>, signature: Seq<char>, data: Seq<char>) -> bool {
    &&& signature.len() >= 7
    &&& signature.subrange(0, 7) == "sha256="@
    &&& hex_decode_spec(signature.skip(7)) == Some(
        hmac_sha256_of(encode_utf8(secret), encode_utf8(data)),
    )
}

/// Computes the declared signature value for `data` under `secret`.
pub fn sign_payload(secret: &str, data: &str) -> (r: String)
    ensures
        r@ == signed_value(secret@, data@),
{
    let tag = compute_hmac_sha256(secret.as_bytes(), data.as_bytes());
    let mut out = String::from_str("sha256=");
    let hex_part = hex_encode(tag.as_slice());
    out.append(hex_part.as_str());
    out
}

/// Checks a declared signature against the configured secret and the raw
/// body. True exactly on [`valid_signature`]; rejects a missing prefix, a
/// malformed hex encoding, and a mismatched tag.
pub fn validate_signature(secret: &str, signature: &str, data: &str) -> (r: bool)
    ensures
        r == valid_signature(secret@, signature@, data@),
{
    let sig_len = signature.unicode_len();
    if sig_len < 7 {
        return false;
    }
    let prefix = signature.substring_char(0, 7);
    if !str_eq(prefix, "sha256=") {
        return false;
    }
    let rest = signature.substring_char(7, sig_len);
    proof {
        assert(rest@ =~= signature@.skip(7));
    }
    match hex_decode(rest) {
        None => false,
        Some(bytes) => hmac_sha256_matches(
            secret.as_bytes(),
            data.as_bytes(),
            bytes.as_slice(),
        ),
    }
}

/// A signature produced with the right secret over the right body always
/// validates; and a declared value in canonical form validates only when the
/// tag it carries is exactly the code of the body under the secret, so any
/// change to the tag is rejected.
pub proof fn lemma_signature_round_trip(secret: Seq<char>, data: Seq<char>, tag: Seq<u8>)
    ensures
        valid_signature(secret, signed_value(secret, data), data),
        valid_signature(secret, "sha256="@ + hex_str(tag), data) <==> tag == hmac_sha256_of(
            encode_utf8(secret),
            encode_utf8(data),
        ),
{
    reveal_strlit("sha256=");
    let mac = hmac_sha256_of(encode_utf8(secret), encode_utf8(data));
    lemma_hex_round_trip(tag);
    lemma_hex_round_trip(mac);
    let s = "sha256="@ + hex_str(tag);
    assert(s.subrange(0, 7) =~= "sha256="@);
    assert(s.skip(7) =~= hex_str(tag));
    let sm = "sha256="@ + hex_str(mac);
    assert(sm.subrange(0, 7) =~= "sha256="@);
    assert(sm.skip(7) =~= hex_str(mac));
    assert(valid_signature(secret, sm, data));
    if tag == mac {
        assert(valid_signature(secret, s, data));
    }
    if valid_signature(secret, s, data) {
        assert(hex_decode_spec(hex_str(tag)) == Some(mac));
        assert(Some(tag) == Some(mac));
    }
    assert(signed_value(secret, data) == "sha256="@ + hex_str(mac));
}

/// The raw body of a request whose declared signature was validated.
pub struct SignedGitHubPayload(pub String);

impl SignedGitHubPayload {
    /// Validates `signature` over `body` under `secret` and, on success,
    /// wraps the body as an authenticated payload.
    pub fn authenticate(secret: &str, signature: &str, body: String) -> (r: Option<
        SignedGitHubPayload,
    >)
        ensures
            match r {
                Some(p) => valid_signature(secret@, signature@, body@) && p.0 == body,
                None => !valid_signature(secret@, signature@, body@),
            },
    {
        if validate_signature(secret, signature, body.as_str()) {
            Some(SignedGitHubPayload(body))
        } else {
            None
        }
    }
}

} // verus!
