//! Rendering helpers for error text, and the webhook signature: an
//! HMAC-SHA256 tag over the raw body, keyed by the shared secret and
//! written in lowercase hex.

use vstd::prelude::*;
use vstd::string::StringSliceAdditionalSpecFns;

use crate::common::Object;
use crate::json::spec_hex_digit;

verus! {

/// Renders an optional field for error text: the value itself, or
/// `none`.
pub fn display_option(option: Option<&String>) -> (r: String)
    ensures
        match option {
            Some(v) => r@ == v@,
            None => r@ == "none"@,
        },
{
    match option {
        Some(v) => (*v).clone(),
        None => String::from_str("none"),
    }
}

/// The rendering of the first `k` entries of a string map, commas
/// between.
pub open spec fn obj_debug_upto(o: Seq<(Seq<char>, Seq<char>)>, k: int) -> Seq<char>
    decreases k,
{
    if k <= 0 || k > o.len() {
        Seq::empty()
    } else {
        obj_debug_upto(o, k - 1) + (if k == 1 {
            Seq::<char>::empty()
        } else {
            ", "@
        }) + o[k - 1].0 + ": "@ + o[k - 1].1
    }
}

/// The rendering of a whole string map: entries in order, braced.
pub open spec fn obj_debug(o: Seq<(Seq<char>, Seq<char>)>) -> Seq<char> {
    "{"@ + obj_debug_upto(o, o.len() as int) + "}"@
}

/// Renders an optional string map for error text: its entries in
/// order, or `none`.
pub fn debug_option(option: Option<&Object>) -> (r: String)
    ensures
        match option {
            Some(o) => r@ == obj_debug(crate::common::object_views(o@)),
            None => r@ == "none"@,
        },
{
    match option {
        None => String::from_str("none"),
        Some(o) => {
            let ghost ov = crate::common::object_views(o@);
            let mut out = String::from_str("{");
            let n = o.len();
            let mut i: usize = 0;
            while i < n
                invariant
                    n == o@.len(),
                    ov == crate::common::object_views(o@),
                    ov.len() == n,
                    forall|k: int| 0 <= k < n ==> #[trigger] ov[k] == (o@[k].0@, o@[k].1@),
                    i <= n,
                    out@ == "{"@ + obj_debug_upto(ov, i as int),
                decreases n - i,
            {
                if i > 0 {
                    out.append(", ");
                }
                out.append(o[i].0.as_str());
                out.append(": ");
                out.append(o[i].1.as_str());
                i = i + 1;
                assert(out@ =~= "{"@ + obj_debug_upto(ov, i as int));
            }
            out.append("}");
            assert(out@ =~= "{"@ + obj_debug_upto(ov, n as int) + "}"@);
            out
        },
    }
}

/// The bytes of an HMAC-SHA256 tag, as a function of key and message
/// alone.
pub uninterp spec fn hmac_sha256_of(key: Seq<u8>, msg: Seq<u8>) -> Seq<u8>;

/// Relies on `ring::hmac::sign` under `ring::hmac::HMAC_SHA256`, with
/// the key built by `ring::hmac::Key::new` from the raw key bytes: the
/// tag depends on key and message alone and holds the 32 bytes of a
/// SHA-256 digest.
#[verifier::external_body]
fn hmac_sha256(key: &[u8], msg: &[u8]) -> (r: Vec<u8>)
    ensures
        r@ == hmac_sha256_of(key@, msg@),
        r@.len() == 32,
{
    let tag = ring::hmac::sign(&ring::hmac::Key::new(ring::hmac::HMAC_SHA256, key), msg);
    tag.as_ref().to_vec()
}

/// Two lowercase hex digits per byte, high nibble first.
pub open spec fn hex_lower_of(bytes: Seq<u8>) -> Seq<char>
    decreases bytes.len(),
{
    if bytes.len() == 0 {
        Seq::empty()
    } else {
        hex_lower_of(bytes.drop_last()) + seq![
            spec_hex_digit((bytes.last() / 16) as u32),
            spec_hex_digit((bytes.last() % 16) as u32),
        ]
    }
}

/// Relies on `data_encoding::HEXLOWER.encode`: each byte becomes two
/// lowercase hex digits, high nibble first.
#[verifier::external_body]
fn hex_lower(bytes: &[u8]) -> (r: String)
    ensures
        r@ == hex_lower_of(bytes@),
{
    data_encoding::HEXLOWER.encode(bytes)
}

/// The hex rendering is two characters per byte.
pub proof fn lemma_hex_lower_len(bytes: Seq<u8>)
    ensures
        hex_lower_of(bytes).len() == 2 * bytes.len(),
    decreases bytes.len(),
{
    if bytes.len() > 0 {
        lemma_hex_lower_len(bytes.drop_last());
    }
}

/// The signature the service attaches to a webhook delivery.
pub open spec fn spec_webhook_signature(body: Seq<u8>, secret: Seq<u8>) -> Seq<char> {
    hex_lower_of(hmac_sha256_of(secret, body))
}

/// Computes the webhook signature for a body under a shared secret:
/// sixty-four characters of lowercase hex.
pub fn generate_webhook_signature(body: &str, secret: &str) -> (r: String)
    ensures
        r@ == spec_webhook_signature(body.spec_bytes(), secret.spec_bytes()),
        r@.len() == 64,
{
    let tag = hmac_sha256(secret.as_bytes(), body.as_bytes());
    proof {
        lemma_hex_lower_len(tag@);
    }
    hex_lower(tag.as_slice())
}

/// Signing is deterministic: one body and secret always give one
/// signature text, however often it is computed.
pub proof fn lemma_signature_deterministic(
    body: Seq<u8>,
    secret: Seq<u8>,
    r1: Seq<char>,
    r2: Seq<char>,
)
    requires
        r1 == spec_webhook_signature(body, secret),
        r2 == spec_webhook_signature(body, secret),
    ensures
        r1 == r2,
{
}

} // verus!
