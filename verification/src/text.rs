//! Text renderings used in API messages: decimal numbers, UUIDs and HTTP
//! status lines, and the random ids handed out for transmissions and
//! queued files.

use vstd::prelude::*;
use vstd::arithmetic::power::pow;

verus! {

/// The character of a decimal digit.
pub open spec fn decimal_digit(d: int) -> char {
    (48 + d) as char
}

/// The decimal rendering of `n`, without sign or leading zeros.
pub open spec fn decimal(n: nat) -> Seq<char>
    decreases n,
{
    if n < 10 {
        seq![decimal_digit(n as int)]
    } else {
        decimal(n / 10).push(decimal_digit((n % 10) as int))
    }
}

/// The lower-case character of a hexadecimal digit.
pub open spec fn hex_digit(d: int) -> char {
    if d < 10 {
        (48 + d) as char
    } else {
        (87 + d) as char
    }
}

/// The `k`-th hexadecimal digit of a 128-bit value, counted from the most
/// significant one (`0 <= k < 32`).
pub open spec fn nibble(id: u128, k: int) -> int {
    (id as int / pow(16, (31 - k) as nat)) % 16
}

/// How many hyphens come before position `i` of a hyphenated UUID.
pub open spec fn hyphens_before(i: int) -> int {
    if i < 9 {
        0
    } else if i < 14 {
        1
    } else if i < 19 {
        2
    } else if i < 24 {
        3
    } else {
        4
    }
}

/// The hyphenated lower-case rendering of a UUID given by its 128-bit value:
/// 32 hexadecimal digits, most significant first, in groups of 8-4-4-4-12.
pub open spec fn uuid_text(id: u128) -> Seq<char> {
    Seq::new(
        36,
        |i: int|
            if i == 8 || i == 13 || i == 18 || i == 23 {
                '-'
            } else {
                hex_digit(nibble(id, i - hyphens_before(i)))
            },
    )
}

/// Whether a 128-bit value is that of a random (version-4, RFC 4122
/// variant) UUID: its version nibble is 4 and its variant bits are `10`.
pub open spec fn is_v4_id(id: u128) -> bool {
    id & 0x0000_0000_0000_f000_c000_0000_0000_0000u128 == 0x0000_0000_0000_4000_8000_0000_0000_0000u128
}

/// The reason phrase that the `http` crate pairs with a status number
/// ("OK", "Not Found", ... or "<unknown status code>").
pub uninterp spec fn http_reason_phrase(code: u16) -> Seq<char>;

/// `usize::to_string` (std's `Display` for `usize`): the decimal rendering.
#[verifier::external_body]
pub(crate) fn usize_text(n: usize) -> (text: String)
    ensures
        text@ == decimal(n as nat),
{
    n.to_string()
}

/// `Display` of `uuid::Uuid` built by `Uuid::from_u128`: its hyphenated
/// lower-case form, the value's digits most significant first.
#[verifier::external_body]
pub(crate) fn uuid_string(id: u128) -> (text: String)
    ensures
        text@ == uuid_text(id),
{
    uuid::Uuid::from_u128(id).to_string()
}

/// `Display` of `http::StatusCode` (as re-exported by axum) for a valid
/// status number: the number, a space and the reason phrase. The phrase
/// table is left to the `http` crate and only named here.
#[verifier::external_body]
pub(crate) fn status_line(code: u16) -> (text: String)
    requires
        100 <= code <= 999,
    ensures
        text@ == decimal(code as nat) + " "@ + http_reason_phrase(code),
{
    axum::http::StatusCode::from_u16(code).unwrap().to_string()
}

/// `uuid::Uuid::new_v4` taken as its 128-bit value. The value is random;
/// what holds of every outcome is that its version nibble is 4 and its
/// variant bits are `10`.
#[verifier::external_body]
pub(crate) fn fresh_uuid() -> (id: u128)
    ensures
        is_v4_id(id),
{
    uuid::Uuid::new_v4().as_u128()
}

/// Whether an HTTP status number is a success (200 to 299), as
/// `StatusCode::is_success` decides.
pub fn is_success_status(code: u16) -> (ok: bool)
    ensures
        ok == (200 <= code < 300),
{
    200 <= code && code < 300
}

} // verus!
