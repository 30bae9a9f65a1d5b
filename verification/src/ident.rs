//! UUIDs, held as 128-bit integers, their text, and the `uuid` crate behind
//! them.
use vstd::prelude::*;

verus! {

/// The value of a hexadecimal digit, in either case.
pub open spec fn hex_value(c: char) -> Option<nat> {
    if '0' <= c && c <= '9' {
        Some((c as int - '0' as int) as nat)
    } else if 'a' <= c && c <= 'f' {
        Some((c as int - 'a' as int + 10) as nat)
    } else if 'A' <= c && c <= 'F' {
        Some((c as int - 'A' as int + 10) as nat)
    } else {
        None
    }
}

/// The value of a sequence of hexadecimal digits, the most significant
/// first; `None` where one of them is no digit.
pub open spec fn hex_number(s: Seq<char>) -> Option<nat>
    decreases s.len(),
{
    if s.len() == 0 {
        Some(0)
    } else {
        match (hex_number(s.drop_last()), hex_value(s.last())) {
            (Some(a), Some(d)) => Some(a * 16 + d),
            _ => None,
        }
    }
}

/// The 32 digits of the hyphenated form: 36 characters with hyphens at 8,
/// 13, 18 and 23.
pub open spec fn hyphenated_digits(s: Seq<char>) -> Option<Seq<char>> {
    if s.len() == 36 && s[8] == '-' && s[13] == '-' && s[18] == '-' && s[23] == '-' {
        Some(s.subrange(0, 8) + s.subrange(9, 13) + s.subrange(14, 18) + s.subrange(19, 23) + s.subrange(24, 36))
    } else {
        None
    }
}

/// Whether a character equals a lowercase ASCII pattern character, ignoring
/// ASCII case.
pub open spec fn ascii_eq_ignore_case(c: char, lower: char) -> bool {
    c == lower || ('a' <= lower && lower <= 'z' && c as int + 32 == lower as int)
}

/// Whether a text starts with `urn:uuid:`, in any ASCII case.
pub open spec fn has_urn_prefix(s: Seq<char>) -> bool {
    let p = seq!['u', 'r', 'n', ':', 'u', 'u', 'i', 'd', ':'];
    s.len() >= 9 && forall|i: int| 0 <= i < 9 ==> ascii_eq_ignore_case(#[trigger] s[i], p[i])
}

/// The 32 hexadecimal digits of a UUID text in one of the forms
/// `uuid::Uuid::parse_str` accepts: 32 digits; the hyphenated form; the
/// hyphenated form in braces; or `urn:uuid:` and the hyphenated form.
pub open spec fn uuid_hex(s: Seq<char>) -> Option<Seq<char>> {
    if s.len() == 32 {
        Some(s)
    } else if s.len() == 36 {
        hyphenated_digits(s)
    } else if s.len() == 38 && s[0] == '{' && s[37] == '}' {
        hyphenated_digits(s.subrange(1, 37))
    } else if s.len() == 45 && has_urn_prefix(s) {
        hyphenated_digits(s.subrange(9, 45))
    } else {
        None
    }
}

/// What `uuid::Uuid::parse_str` gives for a text, as the UUID's big-endian
/// 128-bit value: the value of its 32 hexadecimal digits, in either case,
/// where the text has one of the accepted forms.
pub open spec fn uuid_parse(text: Seq<char>) -> Option<u128> {
    match uuid_hex(text) {
        Some(h) => match hex_number(h) {
            Some(v) => Some(v as u128),
            None => None,
        },
        None => None,
    }
}

/// The lowercase hexadecimal digits.
pub open spec fn hex_digits() -> Seq<char> {
    seq!['0', '1', '2', '3', '4', '5', '6', '7', '8', '9', 'a', 'b', 'c', 'd', 'e', 'f']
}

/// The `i`-th of the 32 hexadecimal digits of a 128-bit value, the most
/// significant first.
pub open spec fn uuid_nibble(value: u128, i: int) -> u128 {
    (value >> ((124 - 4 * i) as u128)) & 0xfu128
}

/// Which digit stands at a position of the hyphenated text: the positions
/// 8, 13, 18 and 23 hold hyphens.
pub open spec fn uuid_digit_index(p: int) -> int {
    if p < 8 {
        p
    } else if p < 13 {
        p - 1
    } else if p < 18 {
        p - 2
    } else if p < 23 {
        p - 3
    } else {
        p - 4
    }
}

/// The hyphenated form of a UUID's 128-bit value, as the `Display` of
/// `uuid::Uuid` writes it: its 32 hexadecimal digits in lowercase, most
/// significant first, in groups of 8, 4, 4, 4 and 12 joined by hyphens.
pub open spec fn uuid_text(value: u128) -> Seq<char> {
    Seq::new(
        36,
        |p: int|
            if p == 8 || p == 13 || p == 18 || p == 23 {
                '-'
            } else {
                hex_digits()[uuid_nibble(value, uuid_digit_index(p)) as int]
            },
    )
}

/// Calls `uuid::Uuid::parse_str`. Claimed: the result is the big-endian value
/// that `uuid_parse` spells out, `None` where the crate reports an error. The
/// crate checks the lengths of the text in bytes; the accepted forms are all
/// ASCII, so counting characters accepts the same texts.
#[verifier::external_body]
pub(crate) fn parse_uuid(text: &str) -> (r: Option<u128>)
    ensures
        r == uuid_parse(text@),
{
    match uuid::Uuid::parse_str(text) {
        Ok(u) => Some(u.as_u128()),
        Err(_) => None,
    }
}

/// Calls `uuid::Uuid::new_v4`. Claimed: only that the version field (bits 76
/// to 79 of the 128-bit value) is 4, as the crate documents; the rest is
/// random and not stated.
#[verifier::external_body]
pub(crate) fn new_uuid_v4() -> (r: u128)
    ensures
        (r >> 76u128) & 0xfu128 == 4u128,
{
    uuid::Uuid::new_v4().as_u128()
}

/// Calls the `Display` of `uuid::Uuid` (through `to_string`) on the UUID whose
/// big-endian value is `value`. Claimed: the text is the hyphenated lowercase
/// form that `uuid_text` spells out.
#[verifier::external_body]
pub(crate) fn uuid_to_text(value: u128) -> (r: String)
    ensures
        r@ == uuid_text(value),
{
    uuid::Uuid::from_u128(value).to_string()
}

} // verus!
