//! Identifiers and timestamps: UUIDs held as their 128-bit value, their
//! textual forms, trace ids and the current time.
use vstd::prelude::*;
use vstd::string::*;

verus! {

/// Lower-case hexadecimal digit for `d` in `0..16`.
pub open spec fn hex_char(d: int) -> char {
    seq!['0', '1', '2', '3', '4', '5', '6', '7', '8', '9', 'a', 'b', 'c', 'd', 'e', 'f'][d]
}

/// The low `n` hexadecimal digits of `v`, most significant first, in lower case.
pub open spec fn hex_digits(v: nat, n: nat) -> Seq<char>
    decreases n,
{
    if n == 0 {
        Seq::<char>::empty()
    } else {
        hex_digits(v / 16, (n - 1) as nat).push(hex_char((v % 16) as int))
    }
}

/// The 32-digit "simple" form of a UUID (`Uuid::simple`).
pub open spec fn uuid_simple_text(v: u128) -> Seq<char> {
    hex_digits(v as nat, 32)
}

/// The hyphenated 8-4-4-4-12 lower-case form in which a UUID displays.
pub open spec fn uuid_hyphenated_text(v: u128) -> Seq<char> {
    let x = v as nat;
    hex_digits(x / 0x1_0000_0000_0000_0000_0000_0000, 8) + seq!['-'] + hex_digits(
        x / 0x1_0000_0000_0000_0000_0000,
        4,
    ) + seq!['-'] + hex_digits(x / 0x1_0000_0000_0000_0000, 4) + seq!['-'] + hex_digits(
        x / 0x1_0000_0000_0000,
        4,
    ) + seq!['-'] + hex_digits(x, 12)
}

/// A trace id: `tr_` followed by the simple form of a UUID.
pub open spec fn trace_text(v: u128) -> Seq<char> {
    "tr_"@ + uuid_simple_text(v)
}

/// What `uuid::Uuid::parse_str` gives for a text, as the UUID's 128-bit value.
pub uninterp spec fn uuid_parse(s: Seq<char>) -> Option<u128>;

/// Calls `uuid::Uuid::parse_str` and keeps the value of the parsed UUID.
/// Claimed: the result is `uuid_parse` of the text, and a text in the
/// hyphenated form that the crate itself displays parses back to its value
/// (the crate documents that every form it generates is accepted).
#[verifier::external_body]
pub(crate) fn parse_uuid(s: &str) -> (r: Option<u128>)
    ensures
        r == uuid_parse(s@),
        forall|v: u128| #[trigger] uuid_hyphenated_text(v) == s@ ==> r == Some(v),
{
    match uuid::Uuid::parse_str(s) {
        Ok(u) => Some(u.as_u128()),
        Err(_) => None,
    }
}

/// Calls `uuid::Uuid::new_v4`. The value is random; claimed is only what the
/// crate's source sets on every outcome: version nibble 4 and the RFC 4122
/// variant bits `10`.
#[verifier::external_body]
pub(crate) fn random_uuid() -> (r: u128)
    ensures
        (r >> 76u128) & 0xfu128 == 4u128,
        (r >> 62u128) & 0x3u128 == 2u128,
{
    uuid::Uuid::new_v4().as_u128()
}

/// Calls `Display` of `uuid::Uuid` (through `to_string`); claimed: the
/// hyphenated lower-case form, which is how the crate's `Display` delegates
/// to `LowerHex` of the hyphenated adapter.
#[verifier::external_body]
pub(crate) fn uuid_to_hyphenated(v: u128) -> (r: String)
    ensures
        r@ == uuid_hyphenated_text(v),
{
    uuid::Uuid::from_u128(v).to_string()
}

/// Calls `uuid::Uuid::simple` and displays it; claimed: the 32 lower-case
/// hexadecimal digits of the value.
#[verifier::external_body]
pub(crate) fn uuid_to_simple(v: u128) -> (r: String)
    ensures
        r@ == uuid_simple_text(v),
{
    uuid::Uuid::from_u128(v).simple().to_string()
}

/// A decimal digit.
pub open spec fn is_digit(c: char) -> bool {
    '0' <= c <= '9'
}

/// Characters `from..to` of `s` are decimal digits.
pub open spec fn digits_between(s: Seq<char>, from: int, to: int) -> bool {
    forall|i: int| from <= i < to ==> #[trigger] is_digit(s[i])
}

/// The year of an RFC 3339 text: four digits, or `+` and at least four
/// digits for years past 9999.
pub open spec fn rfc3339_year(t: Seq<char>) -> bool {
    ||| t.len() == 4 && digits_between(t, 0, 4)
    ||| t.len() >= 5 && t[0] == '+' && digits_between(t, 1, t.len() as int)
}

/// What follows the year in a UTC RFC 3339 text: `-MM-DDTHH:MM:SS`, an
/// optional fraction of 3, 6 or 9 digits, and the offset `+00:00`.
pub open spec fn rfc3339_utc_tail(t: Seq<char>) -> bool {
    let f = t.len() - 21;
    &&& f == 0 || f == 4 || f == 7 || f == 10
    &&& t[0] == '-' && digits_between(t, 1, 3)
    &&& t[3] == '-' && digits_between(t, 4, 6)
    &&& t[6] == 'T' && digits_between(t, 7, 9)
    &&& t[9] == ':' && digits_between(t, 10, 12)
    &&& t[12] == ':' && digits_between(t, 13, 15)
    &&& f > 0 ==> t[15] == '.' && digits_between(t, 16, 15 + f)
    &&& t.subrange(t.len() - 6, t.len() as int) == "+00:00"@
}

/// A UTC date and time in the RFC 3339 form that `to_rfc3339` writes.
pub open spec fn rfc3339_utc_text(s: Seq<char>) -> bool {
    exists|y: int|
        4 <= y && y + 21 <= s.len() && rfc3339_year(#[trigger] s.subrange(0, y))
            && rfc3339_utc_tail(s.subrange(y, s.len() as int))
}

/// Calls `chrono::Utc::now` and formats it with `to_rfc3339`. Which instant
/// it names depends on the clock; claimed is only the form chrono's
/// `write_rfc3339` writes for a UTC time: year, `-MM-DDTHH:MM:SS`, a fraction
/// of 0, 3, 6 or 9 digits, and `+00:00`.
#[verifier::external_body]
pub(crate) fn now_rfc3339() -> (r: String)
    ensures
        rfc3339_utc_text(r@),
{
    chrono::Utc::now().to_rfc3339()
}

/// The version and variant bits of a random (version 4) UUID.
pub open spec fn is_v4(v: u128) -> bool {
    (v >> 76u128) & 0xfu128 == 4u128 && (v >> 62u128) & 0x3u128 == 2u128
}

/// A fresh trace id, `tr_` and the simple form of a random UUID.
pub fn new_trace_id() -> (r: String)
    ensures
        exists|v: u128| r@ == trace_text(v) && is_v4(v),
{
    let v = random_uuid();
    let digits = uuid_to_simple(v);
    let r = String::from_str("tr_").concat(digits.as_str());
    assert(r@ == trace_text(v) && is_v4(v));
    r
}

} // verus!
