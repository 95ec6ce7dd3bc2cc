//! Signatures of webhooks.
//!
//! The gateway signs a notification with HMAC-SHA256 under a shared secret.
//! What it signs is not the body as sent but a canonical payload: the
//! fields of the form other than `signature`, ordered by key, each written
//! as its key directly followed by its value, with nothing in between. The
//! signature is the digest in lowercase hexadecimal.

use vstd::prelude::*;
use vstd::string::*;
use vstd::utf8::encode_utf8;
use hmac::Mac;
use crate::form::{Field, FormData};
use crate::ids::hex_lower;
use crate::text::str_equal;

verus! {

/// The HMAC-SHA256 of `message` under `key`, as the `hmac` and `sha2` crates
/// compute it; `None` where they refuse the key.
pub uninterp spec fn hmac_sha256(key: Seq<u8>, message: Seq<u8>) -> Option<Seq<u8>>;

/// Computes an HMAC-SHA256 with `hmac::Hmac<sha2::Sha256>`: the key goes to
/// `Mac::new_from_slice`, the message to `Mac::update`, and the digest is
/// what `Mac::finalize` yields. The digest is only named.
#[verifier::external_body]
pub(crate) fn hmac_sha256_digest(key: &[u8], message: &[u8]) -> (digest: Option<Vec<u8>>)
    ensures
        match digest {
            Some(d) => hmac_sha256(key@, message@) == Some(d@),
            None => hmac_sha256(key@, message@).is_none(),
        },
{
    let mut mac = hmac::Hmac::<sha2::Sha256>::new_from_slice(key).ok()?;
    mac.update(message);
    Some(mac.finalize().into_bytes().to_vec())
}

/// Encodes bytes with `hex::encode`: two lowercase hexadecimal digits for
/// each byte, in order.
#[verifier::external_body]
pub(crate) fn hex_encode(bytes: &[u8]) -> (s: String)
    ensures
        s@ == hex_lower(bytes@),
{
    hex::encode(bytes)
}

/// The key of the field that carries the signature.
pub open spec fn signature_key() -> Seq<char> {
    "signature"@
}

/// The canonical payload of a form: for each field other than `signature`,
/// in the order of the fields, its key directly followed by its value.
pub open spec fn canonical_payload(fields: Seq<Field>) -> Seq<char>
    decreases fields.len(),
{
    if fields.len() == 0 {
        Seq::empty()
    } else if fields.last().0 == signature_key() {
        canonical_payload(fields.drop_last())
    } else {
        canonical_payload(fields.drop_last()) + fields.last().0 + fields.last().1
    }
}

/// The signature of `payload` under `secret`: the HMAC-SHA256 in lowercase
/// hexadecimal.
pub open spec fn signature_of(secret: Seq<u8>, payload: Seq<u8>) -> Option<Seq<char>> {
    match hmac_sha256(secret, payload) {
        Some(digest) => Some(hex_lower(digest)),
        None => None,
    }
}

/// Whether `signature` is the signature of `payload` under `secret`.
pub open spec fn signature_matches(secret: Seq<u8>, payload: Seq<u8>, signature: Seq<char>) -> bool {
    signature_of(secret, payload) == Some(signature)
}

/// The canonical payload of a form; see [`canonical_payload`].
pub fn create_signature_payload(form_data: &FormData) -> (payload: String)
    ensures
        payload@ == canonical_payload(form_data@),
{
    let mut payload = String::new();
    let n = form_data.len();
    let mut i: usize = 0;
    proof {
        assert(form_data@.take(0) =~= Seq::<Field>::empty());
    }
    while i < n
        invariant
            n == form_data@.len(),
            i <= n,
            payload@ == canonical_payload(form_data@.take(i as int)),
        decreases n - i,
    {
        let key = form_data.key_at(i);
        let value = form_data.value_at(i);
        proof {
            let next = form_data@.take(i + 1);
            assert(next.drop_last() =~= form_data@.take(i as int));
            assert(next.last() == form_data@[i as int]);
        }
        if !str_equal(key.as_str(), "signature") {
            payload.append(key.as_str());
            payload.append(value.as_str());
        }
        i += 1;
    }
    assert(form_data@.take(n as int) =~= form_data@);
    payload
}

/// The signature of `payload` under `secret`, or `None` where the key is
/// refused.
pub fn calculate_signature(secret: &str, payload: &[u8]) -> (signature: Option<String>)
    ensures
        match signature {
            Some(s) => signature_of(encode_utf8(secret@), payload@) == Some(s@),
            None => signature_of(encode_utf8(secret@), payload@).is_none(),
        },
{
    match hmac_sha256_digest(secret.as_bytes(), payload) {
        Some(digest) => Some(hex_encode(digest.as_slice())),
        None => None,
    }
}

/// Whether `signature` is the signature of `payload` under `secret`. All
/// of the payload is signed: the answer depends on every byte of it.
pub fn validate_signature(secret: &str, payload: &[u8], signature: &str) -> (valid: bool)
    ensures
        valid == signature_matches(encode_utf8(secret@), payload@, signature@),
{
    match calculate_signature(secret, payload) {
        Some(expected) => str_equal(expected.as_str(), signature),
        None => false,
    }
}

/// The signature is a function of the secret and the payload alone: equal
/// secrets and equal payloads have the same signature, and a signature
/// that matches is the only one that does.
pub proof fn signature_is_deterministic(
    secret: Seq<u8>,
    payload: Seq<u8>,
    first: Seq<char>,
    second: Seq<char>,
)
    requires
        signature_matches(secret, payload, first),
    ensures
        signature_matches(secret, payload, second) <==> second == first,
{
}

/// The canonical payload of two runs of fields, one after the other, is
/// the payload of the first followed by the payload of the second.
pub proof fn lemma_payload_concat(first: Seq<Field>, second: Seq<Field>)
    ensures
        canonical_payload(first + second) == canonical_payload(first) + canonical_payload(second),
    decreases second.len(),
{
    if second.len() == 0 {
        assert(first + second =~= first);
        assert(canonical_payload(first) + canonical_payload(second) =~= canonical_payload(first));
    } else {
        let all = first + second;
        assert(all.drop_last() =~= first + second.drop_last());
        assert(all.last() == second.last());
        lemma_payload_concat(first, second.drop_last());
        if second.last().0 != signature_key() {
            assert(canonical_payload(first) + canonical_payload(second.drop_last())
                + second.last().0 + second.last().1 =~= canonical_payload(first) + (
            canonical_payload(second.drop_last()) + second.last().0 + second.last().1));
        }
    }
}

/// The payload of a single field: its key and its value, or nothing for
/// the signature.
pub proof fn lemma_payload_of_one(key: Seq<char>, value: Seq<char>)
    ensures
        canonical_payload(seq![(key, value)]) == if key == signature_key() {
            Seq::<char>::empty()
        } else {
            key + value
        },
{
    let one = seq![(key, value)];
    let none = Seq::<Field>::empty();
    assert(one.drop_last() =~= none);
    assert(one.last() == (key, value));
    assert(canonical_payload(none) == Seq::<char>::empty());
    assert(canonical_payload(one) == if key == signature_key() {
        canonical_payload(none)
    } else {
        canonical_payload(none) + key + value
    });
    assert(Seq::<char>::empty() + key + value =~= key + value);
}

/// All of a form is signed: whatever field but the signature changes its
/// value, the canonical payload changes with it.
pub proof fn payload_changes_with_any_value(
    before: Seq<Field>,
    key: Seq<char>,
    value: Seq<char>,
    other_value: Seq<char>,
    after: Seq<Field>,
)
    requires
        key != signature_key(),
        value != other_value,
    ensures
        canonical_payload(before + seq![(key, value)] + after) != canonical_payload(
            before + seq![(key, other_value)] + after,
        ),
{
    let head = canonical_payload(before) + key;
    let tail = canonical_payload(after);
    lemma_payload_concat(before + seq![(key, value)], after);
    lemma_payload_concat(before, seq![(key, value)]);
    lemma_payload_of_one(key, value);
    lemma_payload_concat(before + seq![(key, other_value)], after);
    lemma_payload_concat(before, seq![(key, other_value)]);
    lemma_payload_of_one(key, other_value);
    let one = canonical_payload(before + seq![(key, value)] + after);
    let two = canonical_payload(before + seq![(key, other_value)] + after);
    assert(one =~= head + value + tail);
    assert(two =~= head + other_value + tail);
    if one == two {
        assert(one.len() == two.len());
        assert(value.len() == other_value.len());
        assert forall|i: int| 0 <= i < value.len() implies value[i] == other_value[i] by {
            assert(one[head.len() + i] == value[i]);
            assert(two[head.len() + i] == other_value[i]);
        }
        assert(value =~= other_value);
    }
}

/// The signature itself is not signed: the canonical payload of a form is
/// the same with and without its signature field.
pub proof fn payload_ignores_the_signature(
    before: Seq<Field>,
    signature: Seq<char>,
    after: Seq<Field>,
)
    ensures
        canonical_payload(before + seq![(signature_key(), signature)] + after)
            == canonical_payload(before + after),
{
    lemma_payload_concat(before + seq![(signature_key(), signature)], after);
    lemma_payload_concat(before, seq![(signature_key(), signature)]);
    lemma_payload_of_one(signature_key(), signature);
    lemma_payload_concat(before, after);
    assert(canonical_payload(before) + Seq::<char>::empty() =~= canonical_payload(before));
}

} // verus!
