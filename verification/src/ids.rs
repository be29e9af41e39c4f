use vstd::prelude::*;

verus! {

// Identifiers are held as the 128 bits of a `uuid::Uuid` in big-endian order
// (`Uuid::as_u128` / `Uuid::from_u128`).

/// The lowercase hexadecimal digit for `d < 16`.
pub open spec fn hex_char(d: nat) -> char {
    if d < 10 {
        (d + 48) as char
    } else {
        (d + 87) as char
    }
}

/// The last `k` hexadecimal digits of `n`, most significant first.
pub open spec fn hex_digits(n: nat, k: nat) -> Seq<char>
    decreases k,
{
    if k == 0 {
        seq![]
    } else {
        hex_digits(n / 16, (k - 1) as nat).push(hex_char(n % 16))
    }
}

/// The 32 lowercase hex digits of an id (`Uuid::simple`).
pub open spec fn simple_text(id: u128) -> Seq<char> {
    hex_digits(id as nat, 32)
}

/// The hyphenated lowercase form of an id, 8-4-4-4-12 digits (`Uuid`'s `Display`).
pub open spec fn hyphenated_text(id: u128) -> Seq<char> {
    let s = simple_text(id);
    s.subrange(0, 8) + seq!['-'] + s.subrange(8, 12) + seq!['-'] + s.subrange(12, 16) + seq!['-']
        + s.subrange(16, 20) + seq!['-'] + s.subrange(20, 32)
}

pub proof fn lemma_hex_digits_len(n: nat, k: nat)
    ensures
        hex_digits(n, k).len() == k,
    decreases k,
{
    if k > 0 {
        lemma_hex_digits_len(n / 16, (k - 1) as nat);
    }
}

/// Formats an id with `uuid::Uuid`'s `Display` (hyphenated, lowercase).
#[verifier::external_body]
pub(crate) fn id_text(id: u128) -> (r: String)
    ensures
        r@ == hyphenated_text(id),
{
    uuid::Uuid::from_u128(id).to_string()
}

/// Formats an id with `uuid::Uuid::simple` (32 lowercase hex digits).
#[verifier::external_body]
pub(crate) fn id_simple_text(id: u128) -> (r: String)
    ensures
        r@ == simple_text(id),
{
    uuid::Uuid::from_u128(id).simple().to_string()
}

/// Draws a fresh time-ordered id with `uuid::Uuid::now_v7`; nothing is
/// promised of its value, which depends on the clock and on chance.
#[verifier::external_body]
pub(crate) fn new_time_ordered_id() -> (id: u128) {
    uuid::Uuid::now_v7().as_u128()
}

/// Draws a fresh random id with `uuid::Uuid::new_v4`; nothing is promised of
/// its value, which depends on chance.
#[verifier::external_body]
pub(crate) fn new_random_id() -> (id: u128) {
    uuid::Uuid::new_v4().as_u128()
}

} // verus!
