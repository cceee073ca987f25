//! Identifiers as the service writes them.
use vstd::prelude::*;

verus! {

/// The lowercase hexadecimal digits.
pub open spec fn hex_char(d: nat) -> char {
    seq!['0', '1', '2', '3', '4', '5', '6', '7', '8', '9', 'a', 'b', 'c', 'd', 'e', 'f'][d as int]
}

/// The last `n` hexadecimal digits of `v`, most significant first.
pub open spec fn hex_digits(v: nat, n: nat) -> Seq<char>
    decreases n,
{
    if n == 0 {
        seq![]
    } else {
        hex_digits(v / 16, (n - 1) as nat).push(hex_char(v % 16))
    }
}

/// The hyphenated lowercase form of a 128-bit identifier:
/// 8-4-4-4-12 hexadecimal digits, most significant first.
pub open spec fn uuid_hyphenated(id: u128) -> Seq<char> {
    let h = hex_digits(id as nat, 32);
    h.subrange(0, 8) + seq!['-'] + h.subrange(8, 12) + seq!['-'] + h.subrange(12, 16) + seq![
        '-',
    ] + h.subrange(16, 20) + seq!['-'] + h.subrange(20, 32)
}

/// Calls `uuid::Uuid::from_u128(id).to_string()`. Trusted: the uuid crate
/// writes an identifier as its hyphenated lowercase form, the bytes of `id`
/// taken most significant first.
#[verifier::external_body]
pub(crate) fn uuid_text(id: u128) -> (r: String)
    ensures
        r@ == uuid_hyphenated(id),
{
    uuid::Uuid::from_u128(id).to_string()
}

/// Calls `uuid::Uuid::now_v7()` and reads it as a number. Trusted, with
/// nothing stated of the result: it rests on the clock and on chance.
#[verifier::external_body]
pub(crate) fn fresh_id() -> (r: u128) {
    uuid::Uuid::now_v7().as_u128()
}

} // verus!
