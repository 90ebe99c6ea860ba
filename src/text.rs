use vstd::prelude::*;
use vstd::string::*;
use vstd::arithmetic::power::pow;

verus! {

/// The text of decimal digit `d`.
pub open spec fn digit_text(d: int) -> Seq<char> {
    if d == 0 { "0"@ }
    else if d == 1 { "1"@ }
    else if d == 2 { "2"@ }
    else if d == 3 { "3"@ }
    else if d == 4 { "4"@ }
    else if d == 5 { "5"@ }
    else if d == 6 { "6"@ }
    else if d == 7 { "7"@ }
    else if d == 8 { "8"@ }
    else { "9"@ }
}

/// Decimal text of `n`, without leading zeros.
pub open spec fn decimal(n: nat) -> Seq<char>
    decreases n,
{
    if n < 10 {
        digit_text(n as int)
    } else {
        decimal(n / 10) + digit_text((n % 10) as int)
    }
}

fn digit(d: u64) -> (r: String)
    requires
        d < 10,
    ensures
        r@ == digit_text(d as int),
{
    if d == 0 { String::from_str("0") }
    else if d == 1 { String::from_str("1") }
    else if d == 2 { String::from_str("2") }
    else if d == 3 { String::from_str("3") }
    else if d == 4 { String::from_str("4") }
    else if d == 5 { String::from_str("5") }
    else if d == 6 { String::from_str("6") }
    else if d == 7 { String::from_str("7") }
    else if d == 8 { String::from_str("8") }
    else { String::from_str("9") }
}

/// Decimal text of `n`.
pub fn decimal_text(n: u64) -> (r: String)
    ensures
        r@ == decimal(n as nat),
    decreases n,
{
    if n < 10 {
        digit(n)
    } else {
        let head = decimal_text(n / 10);
        let tail = digit(n % 10);
        head.concat(tail.as_str())
    }
}

/// The `i`-th hexadecimal digit of `id`, most significant first (0 <= i < 32).
pub open spec fn nibble(id: u128, i: int) -> int {
    (id as int / pow(16, (31 - i) as nat)) % 16
}

/// Lowercase hexadecimal digits `from..to` of `id`.
pub open spec fn hex_digits(id: u128, from: int, to: int) -> Seq<char> {
    Seq::new((to - from) as nat, |k: int| "0123456789abcdef"@[nibble(id, from + k)])
}

/// The hyphenated UUID text of `id`: its 32 lowercase hex digits, big-endian, grouped
/// 8-4-4-4-12.
pub open spec fn uuid_text(id: u128) -> Seq<char> {
    hex_digits(id, 0, 8) + "-"@ + hex_digits(id, 8, 12) + "-"@ + hex_digits(id, 12, 16) + "-"@
        + hex_digits(id, 16, 20) + "-"@ + hex_digits(id, 20, 32)
}

/// Relies on uuid's `Uuid::from_u128` (the value's bytes, big-endian) and its
/// hyphenated `Display` (lowercase hex, grouped 8-4-4-4-12).
#[verifier::external_body]
pub(crate) fn id_text(id: u128) -> (r: String)
    ensures
        r@ == uuid_text(id),
{
    uuid::Uuid::from_u128(id).hyphenated().to_string()
}

} // verus!
