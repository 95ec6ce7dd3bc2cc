//! Record identifiers and merchant transaction ids.
//!
//! A record is identified by a 128-bit number. A merchant transaction id is
//! the text the gateway echoes back: a fixed prefix followed by the 32
//! lowercase hexadecimal digits of a random 128-bit number.

use vstd::prelude::*;
use vstd::string::*;

verus! {

/// The identifier of a stored record.
#[derive(Clone, Copy, Debug, PartialEq, Eq, Structural)]
pub struct RecordId {
    pub value: u128,
}

/// The lowercase hexadecimal digit for `n`, where `0 <= n < 16`.
pub open spec fn hex_digit(n: int) -> char {
    seq!['0', '1', '2', '3', '4', '5', '6', '7', '8', '9', 'a', 'b', 'c', 'd', 'e', 'f'][n]
}

/// Two lowercase hexadecimal digits for each byte, high digit first.
pub open spec fn hex_lower(bytes: Seq<u8>) -> Seq<char> {
    Seq::new(
        2 * bytes.len(),
        |i: int|
            if i % 2 == 0 {
                hex_digit(bytes[i / 2] as int / 16)
            } else {
                hex_digit(bytes[i / 2] as int % 16)
            },
    )
}

/// The sixteen bytes of `v`, most significant first.
pub open spec fn be_bytes(v: u128) -> Seq<u8> {
    Seq::new(16, |i: int| ((v >> ((8 * (15 - i)) as u128)) & 0xff) as u8)
}

/// The 32 hexadecimal digits of `v`, most significant first.
pub open spec fn simple_hex(v: u128) -> Seq<char> {
    hex_lower(be_bytes(v))
}

/// Prefix of the merchant transaction id of a checkout.
pub open spec fn txn_prefix() -> Seq<char> {
    "TXN_"@
}

/// Prefix of the merchant transaction id of an automatic renewal charge.
pub open spec fn renewal_prefix() -> Seq<char> {
    "RENEWAL_"@
}

/// Prefix of the merchant transaction id of a payment-method registration.
pub open spec fn registration_prefix() -> Seq<char> {
    "REG_"@
}

/// Draws a random 128-bit number with `uuid::Uuid::new_v4` and reads it with
/// `Uuid::as_u128`. Nothing is claimed about the number drawn: that two
/// draws differ is a matter of chance, not of proof. `uuid` stops the
/// program where the operating system hands out no random bytes.
#[verifier::external_body]
pub(crate) fn random_u128() -> (v: u128) {
    uuid::Uuid::new_v4().as_u128()
}

/// Formats `v` as `uuid::Uuid::from_u128(v).simple()` does: the bytes of `v`
/// in big-endian order, two lowercase hexadecimal digits each, no hyphens.
#[verifier::external_body]
pub(crate) fn format_simple(v: u128) -> (s: String)
    ensures
        s@ == simple_hex(v),
{
    uuid::Uuid::from_u128(v).simple().to_string()
}

impl RecordId {
    pub fn from_u128(value: u128) -> (id: RecordId)
        ensures
            id.value == value,
    {
        RecordId { value }
    }

    /// A fresh random identifier.
    pub fn generate() -> RecordId {
        RecordId { value: random_u128() }
    }

    /// The identifier as 32 lowercase hexadecimal digits.
    pub fn to_simple_string(&self) -> (s: String)
        ensures
            s@ == simple_hex(self.value),
    {
        format_simple(self.value)
    }
}

/// The merchant transaction id of a checkout whose random part is `suffix`.
pub fn merchant_transaction_id_from(suffix: u128) -> (id: String)
    ensures
        id@ == txn_prefix() + simple_hex(suffix),
{
    let mut id = String::from_str("TXN_");
    let digits = format_simple(suffix);
    id.append(digits.as_str());
    id
}

/// The merchant transaction id of a renewal charge whose random part is
/// `suffix`.
pub fn renewal_transaction_id_from(suffix: u128) -> (id: String)
    ensures
        id@ == renewal_prefix() + simple_hex(suffix),
{
    let mut id = String::from_str("RENEWAL_");
    let digits = format_simple(suffix);
    id.append(digits.as_str());
    id
}

/// The merchant transaction id of a registration whose random part is
/// `suffix`.
pub fn registration_transaction_id_from(suffix: u128) -> (id: String)
    ensures
        id@ == registration_prefix() + simple_hex(suffix),
{
    let mut id = String::from_str("REG_");
    let digits = format_simple(suffix);
    id.append(digits.as_str());
    id
}

/// A fresh merchant transaction id for a checkout: the prefix `TXN_` and the
/// digits of a random number.
pub fn new_merchant_transaction_id() -> (id: String)
    ensures
        exists|suffix: u128| id@ == txn_prefix() + #[trigger] simple_hex(suffix),
{
    merchant_transaction_id_from(random_u128())
}

/// A fresh merchant transaction id for a renewal charge: the prefix
/// `RENEWAL_` and the digits of a random number.
pub fn new_renewal_transaction_id() -> (id: String)
    ensures
        exists|suffix: u128| id@ == renewal_prefix() + #[trigger] simple_hex(suffix),
{
    renewal_transaction_id_from(random_u128())
}

} // verus!
