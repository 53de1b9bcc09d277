//! Webhook signature verification.
//!
//! A webhook request carries an `X-Hub-Signature-256` header whose value is
//! `"sha256="` followed by the lowercase hex encoding of the HMAC-SHA256
//! digest of the raw request body, keyed by the shared webhook secret.
//! [`verify`] recomputes that value and compares it with the header in
//! constant time with respect to secret-dependent data.

use vstd::prelude::*;

verus! {

/// The HMAC-SHA256 digest of `msg` keyed by `key`, as the `hmac` and `sha2`
/// crates compute it. The digest is a function of the key and the message
/// alone.
pub uninterp spec fn hmac_sha256(key: Seq<u8>, msg: Seq<u8>) -> Seq<u8>;

/// Relies on `hmac::Hmac<sha2::Sha256>` (`new_from_slice`, `update`,
/// `finalize`) for the digest; HMAC accepts keys of any length and a
/// SHA-256 digest is 32 bytes.
#[verifier::external_body]
fn hmac_sha256_digest(key: &[u8], msg: &[u8]) -> (r: Vec<u8>)
    ensures
        r@ == hmac_sha256(key@, msg@),
        r@.len() == 32,
{
    let mut mac = <hmac::Hmac<sha2::Sha256> as hmac::KeyInit>::new_from_slice(key)
        .expect("HMAC accepts keys of any length");
    hmac::Mac::update(&mut mac, msg);
    hmac::Mac::finalize(mac).into_bytes().to_vec()
}

/// The lowercase hex digit for a nibble, as an ASCII byte.
pub open spec fn spec_hex_digit(v: u8) -> u8 {
    if v < 10 {
        (48 + v) as u8
    } else {
        (87 + v) as u8
    }
}

/// Lowercase hex encoding of a byte sequence: two digits per byte, high
/// nibble first.
pub open spec fn spec_hex(data: Seq<u8>) -> Seq<u8>
    decreases data.len(),
{
    if data.len() == 0 {
        seq![]
    } else {
        seq![spec_hex_digit(data.first() >> 4u8), spec_hex_digit(data.first() & 0x0fu8)]
            + spec_hex(data.drop_first())
    }
}

fn hex_digit(v: u8) -> (r: u8)
    requires
        v < 16,
    ensures
        r == spec_hex_digit(v),
{
    if v < 10 {
        48 + v
    } else {
        87 + v
    }
}

/// Encode `data` as lowercase hex.
pub fn hex_encode(data: &[u8]) -> (r: Vec<u8>)
    ensures
        r@ == spec_hex(data@),
{
    let data_len = data.len();
    let mut out: Vec<u8> = Vec::new();
    assert(data@.skip(0) == data@);
    for i in 0..data_len
        invariant
            data_len == data@.len(),
            spec_hex(data@) =~= out@ + spec_hex(data@.skip(i as int)),
            out@.len() == 2 * i,
    {
        let b = data[i];
        assert((b >> 4u8) < 16 && (b & 0x0fu8) < 16) by (bit_vector);
        out.push(hex_digit(b >> 4));
        out.push(hex_digit(b & 0x0f));
        assert(data@.skip(i as int).drop_first() == data@.skip(i + 1));
    }
    out
}

/// Byte-for-byte comparison that accumulates the differences of every
/// position instead of leaving the loop at the first mismatch, so that the
/// running time does not depend on where two equal-length inputs differ.
pub fn constant_time_eq(a: &[u8], b: &[u8]) -> (r: bool)
    ensures
        r == (a@ == b@),
{
    if a.len() != b.len() {
        assert(a@ != b@);
        return false;
    }
    let a_len = a.len();
    let mut acc: u8 = 0;
    for i in 0..a_len
        invariant
            a_len == a@.len(),
            a@.len() == b@.len(),
            (acc == 0) <==> (forall|j: int| 0 <= j < i ==> a@[j] == b@[j]),
    {
        let x = a[i];
        let y = b[i];
        let next = acc | (x ^ y);
        assert((acc | (x ^ y) == 0) <==> (acc == 0 && x == y)) by (bit_vector);
        acc = next;
    }
    if acc == 0 {
        assert(a@ =~= b@);
        true
    } else {
        false
    }
}

/// `"sha256="` as ASCII bytes.
pub open spec fn spec_signature_prefix() -> Seq<u8> {
    seq![115u8, 104u8, 97u8, 50u8, 53u8, 54u8, 61u8]
}

/// The header value the sender is expected to present for `body` under
/// `secret`: `"sha256="` followed by the hex-encoded HMAC-SHA256 digest.
pub open spec fn spec_signature(secret: Seq<u8>, body: Seq<u8>) -> Seq<u8> {
    spec_signature_prefix() + spec_hex(hmac_sha256(secret, body))
}

/// Whether a presented header value authenticates `body` under `secret`:
/// an absent header never does, a present one does exactly when it equals
/// the expected signature.
pub open spec fn spec_verify(secret: Seq<u8>, body: Seq<u8>, header: Option<Seq<u8>>) -> bool {
    match header {
        Option::None => false,
        Option::Some(h) => h == spec_signature(secret, body),
    }
}

/// The sequence of bytes a presented header holds, if one was presented.
pub open spec fn spec_header_view(h: Option<&[u8]>) -> Option<Seq<u8>> {
    match h {
        Option::None => None,
        Option::Some(s) => Some(s@),
    }
}

/// Compute the expected signature header value for `body` under `secret`.
pub fn compute_signature(secret: &[u8], body: &[u8]) -> (r: Vec<u8>)
    ensures
        r@ == spec_signature(secret@, body@),
{
    let digest = hmac_sha256_digest(secret, body);
    let mut hexed = hex_encode(digest.as_slice());
    let mut out: Vec<u8> = Vec::new();
    out.push(115);
    out.push(104);
    out.push(97);
    out.push(50);
    out.push(53);
    out.push(54);
    out.push(61);
    assert(out@ =~= spec_signature_prefix());
    out.append(&mut hexed);
    assert(out@ =~= spec_signature(secret@, body@));
    out
}

/// Decide whether the request is authentic: recompute the signature of
/// `body` under `secret` and compare it with the presented header in
/// constant time. A missing header is rejected outright.
pub fn verify(secret: &[u8], body: &[u8], signature_header: Option<&[u8]>) -> (r: bool)
    ensures
        r == spec_verify(secret@, body@, spec_header_view(signature_header)),
{
    match signature_header {
        Option::None => false,
        Option::Some(header) => {
            let expected = compute_signature(secret, body);
            constant_time_eq(header, expected.as_slice())
        },
    }
}

/// A signature computed from a secret and a body always verifies against
/// that same secret and body.
pub proof fn lemma_verify_accepts_computed(secret: Seq<u8>, body: Seq<u8>)
    ensures
        spec_verify(secret, body, Some(spec_signature(secret, body))),
{
}

/// A request without a signature header never verifies, whatever the
/// secret and the body.
pub proof fn lemma_verify_rejects_missing_header(secret: Seq<u8>, body: Seq<u8>)
    ensures
        !spec_verify(secret, body, None),
{
}

/// For a given secret and body exactly one header value verifies: the
/// signature computed from them. Every other presented value is rejected.
pub proof fn lemma_verify_accepts_only_computed(secret: Seq<u8>, body: Seq<u8>, header: Seq<u8>)
    ensures
        spec_verify(secret, body, Some(header)) <==> header == spec_signature(secret, body),
{
}

} // verus!
