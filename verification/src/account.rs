//! Account identifiers: UUIDs, and how they are written.
use vstd::arithmetic::power::pow;
use vstd::prelude::*;

use crate::hex::{all_hex, hex_number, hex_text, is_hex_digit, lemma_hex_text_reads_back};

verus! {

/// The 32 digits of a string in the hyphenated form.
pub open spec fn hyphenated_digits(s: Seq<char>) -> Seq<char> {
    s.subrange(0, 8) + s.subrange(9, 13) + s.subrange(14, 18) + s.subrange(19, 23) + s.subrange(24, 36)
}

/// Whether a string is a UUID in the hyphenated form: hexadecimal digits in groups of
/// 8, 4, 4, 4 and 12.
pub open spec fn is_hyphenated(s: Seq<char>) -> bool {
    &&& s.len() == 36
    &&& s[8] == '-' && s[13] == '-' && s[18] == '-' && s[23] == '-'
    &&& all_hex(hyphenated_digits(s))
}

/// Whether a string starts with `urn:uuid:`, in letters of either case.
pub open spec fn has_urn_prefix(s: Seq<char>) -> bool {
    &&& s.len() >= 9
    &&& s[0] == 'u' || s[0] == 'U'
    &&& s[1] == 'r' || s[1] == 'R'
    &&& s[2] == 'n' || s[2] == 'N'
    &&& s[3] == ':'
    &&& s[4] == 'u' || s[4] == 'U'
    &&& s[5] == 'u' || s[5] == 'U'
    &&& s[6] == 'i' || s[6] == 'I'
    &&& s[7] == 'd' || s[7] == 'D'
    &&& s[8] == ':'
}

/// The digits of a UUID in any of the forms in which one is written: bare digits,
/// hyphenated, hyphenated in braces, or hyphenated as a URN.
pub open spec fn uuid_digits(s: Seq<char>) -> Option<Seq<char>> {
    if s.len() == 32 && all_hex(s) {
        Some(s)
    } else if is_hyphenated(s) {
        Some(hyphenated_digits(s))
    } else if s.len() == 38 && s[0] == '{' && s[37] == '}' && is_hyphenated(s.subrange(1, 37)) {
        Some(hyphenated_digits(s.subrange(1, 37)))
    } else if s.len() == 45 && has_urn_prefix(s) && is_hyphenated(s.subrange(9, 45)) {
        Some(hyphenated_digits(s.subrange(9, 45)))
    } else {
        None
    }
}

/// The UUID that a string writes, as a number; nothing where it writes none.
pub open spec fn uuid_value(s: Seq<char>) -> Option<u128> {
    match uuid_digits(s) {
        Some(digits) => Some(hex_number(digits) as u128),
        None => None,
    }
}

/// A UUID in lower-case hyphenated form.
pub open spec fn uuid_text(uuid: u128) -> Seq<char> {
    let digits = hex_text(uuid as nat, 32);
    digits.subrange(0, 8).push('-') + digits.subrange(8, 12).push('-') + digits.subrange(12, 16).push('-')
        + digits.subrange(16, 20).push('-') + digits.subrange(20, 32)
}

/// Reads a UUID with `uuid::Uuid::parse_str`, which accepts the four forms of
/// [`uuid_digits`] and nothing else.
#[verifier::external_body]
pub(crate) fn parse_uuid(s: &str) -> (r: Option<u128>)
    ensures
        r == uuid_value(s@),
{
    uuid::Uuid::parse_str(s).ok().map(|uuid| uuid.as_u128())
}

/// Writes a UUID with the `Display` of `uuid::Uuid`, which is the lower-case hyphenated
/// form.
#[verifier::external_body]
pub(crate) fn format_uuid(uuid: u128) -> (r: String)
    ensures
        r@ == uuid_text(uuid),
{
    format!("{}", uuid::Uuid::from_u128(uuid))
}

/// No form of a UUID holds the letter `t`.
pub proof fn lemma_uuid_without_t(s: Seq<char>)
    requires
        uuid_value(s) is Some,
    ensures
        !s.contains('t'),
{
    if s.contains('t') {
        let i = choose|i: int| 0 <= i < s.len() && s[i] == 't';
        if s.len() == 32 {
            assert(is_hex_digit(s[i]));
        } else if s.len() == 36 {
            lemma_hyphenated_chars(s, i);
        } else if s.len() == 38 {
            assert(s.subrange(1, 37)[i - 1] == s[i]) by {
                assert(i != 0 && i != 37);
            }
            lemma_hyphenated_chars(s.subrange(1, 37), i - 1);
        } else {
            if i >= 9 {
                assert(s.subrange(9, 45)[i - 9] == s[i]);
                lemma_hyphenated_chars(s.subrange(9, 45), i - 9);
            }
        }
    }
}

/// Each character of the hyphenated form is a hyphen or a hexadecimal digit.
proof fn lemma_hyphenated_chars(s: Seq<char>, i: int)
    requires
        is_hyphenated(s),
        0 <= i < 36,
    ensures
        s[i] == '-' || is_hex_digit(s[i]),
{
    let d = hyphenated_digits(s);
    if i < 8 {
        assert(d[i] == s[i]);
    } else if 9 <= i < 13 {
        assert(d[i - 1] == s[i]);
    } else if 14 <= i < 18 {
        assert(d[i - 2] == s[i]);
    } else if 19 <= i < 23 {
        assert(d[i - 3] == s[i]);
    } else if 24 <= i {
        assert(d[i - 4] == s[i]);
    }
}

/// What is written for a UUID reads back as the same UUID.
pub proof fn lemma_uuid_text_reads_back(uuid: u128)
    ensures
        uuid_value(uuid_text(uuid)) == Some(uuid),
{
    let digits = hex_text(uuid as nat, 32);
    assert(pow(16, 32) == 0x1_0000_0000_0000_0000_0000_0000_0000_0000) by {
        reveal_with_fuel(pow, 33);
    }
    lemma_hex_text_reads_back(uuid as nat, 32);
    let s = uuid_text(uuid);
    assert(hyphenated_digits(s) =~= digits);
    assert(is_hyphenated(s));
}

} // verus!
