//! Hexadecimal digits.
use vstd::arithmetic::power::pow;
use vstd::prelude::*;

verus! {

/// Whether a character is a hexadecimal digit, in either case.
pub open spec fn is_hex_digit(c: char) -> bool {
    '0' <= c <= '9' || 'a' <= c <= 'f' || 'A' <= c <= 'F'
}

/// The value of a hexadecimal digit.
pub open spec fn hex_digit_value(c: char) -> nat
    recommends
        is_hex_digit(c),
{
    if '0' <= c <= '9' {
        (c as int - '0' as int) as nat
    } else if 'a' <= c <= 'f' {
        (c as int - 'a' as int + 10) as nat
    } else {
        (c as int - 'A' as int + 10) as nat
    }
}

/// Whether every character is a hexadecimal digit.
pub open spec fn all_hex(s: Seq<char>) -> bool {
    forall|i: int| 0 <= i < s.len() ==> is_hex_digit(#[trigger] s[i])
}

/// The number that hexadecimal digits write, the most significant first.
pub open spec fn hex_number(digits: Seq<char>) -> nat
    decreases digits.len(),
{
    if digits.len() == 0 {
        0
    } else {
        16 * hex_number(digits.drop_last()) + hex_digit_value(digits.last())
    }
}

/// The lower-case digit of a value below sixteen.
pub open spec fn hex_digit(value: nat) -> char
    recommends
        value < 16,
{
    if value < 10 {
        ('0' as int + value) as char
    } else {
        ('a' as int + value - 10) as char
    }
}

/// A number in lower-case hexadecimal, with as many digits as asked for.
pub open spec fn hex_text(n: nat, digits: nat) -> Seq<char>
    decreases digits,
{
    if digits == 0 {
        Seq::empty()
    } else {
        hex_text(n / 16, (digits - 1) as nat).push(hex_digit(n % 16))
    }
}

/// The value of a byte as a hexadecimal digit, if it is one.
pub fn digit_value(b: u8) -> (r: Option<u8>)
    requires
        b < 128,
    ensures
        r is Some <==> is_hex_digit(b as char),
        r matches Some(v) ==> v < 16 && v as nat == hex_digit_value(b as char),
{
    if b >= 48 && b <= 57 {
        Some((b - 48) as u8)
    } else if b >= 97 && b <= 102 {
        Some((b - 97 + 10) as u8)
    } else if b >= 65 && b <= 70 {
        Some((b - 65 + 10) as u8)
    } else {
        None
    }
}

/// A number written in hexadecimal reads back as itself, where the digits suffice for it.
pub proof fn lemma_hex_text_reads_back(n: nat, digits: nat)
    requires
        n < pow(16, digits),
    ensures
        hex_text(n, digits).len() == digits,
        all_hex(hex_text(n, digits)),
        hex_number(hex_text(n, digits)) == n,
    decreases digits,
{
    reveal(pow);
    if digits > 0 {
        let rest = (digits - 1) as nat;
        assert(n / 16 < pow(16, rest)) by {
            assert(pow(16, digits) == 16 * pow(16, rest));
        }
        lemma_hex_text_reads_back(n / 16, rest);
        assert(hex_text(n, digits).drop_last() =~= hex_text(n / 16, rest));
    }
}

} // verus!
