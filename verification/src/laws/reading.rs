//! How texts, bytes and addresses are read.
use vstd::prelude::*;

use crate::account::{hyphenated_digits, is_hyphenated, lemma_uuid_text_reads_back, uuid_text, uuid_value};
use crate::address::{
    address_script, decoded_address, lemma_address_script_reads_back, output_address, paid_address, Address,
    NetworkType, TransparentAddress,
};
use crate::error::{code_number, failure, outcome, LegacyCode, RpcError, RpcResult};
use crate::fromaddress::{classify_fromaddress, parse_fromaddress, FromAddressInput};
use crate::hex::{all_hex, digit_value, hex_digit, hex_digit_value, hex_number, hex_text, is_hex_digit};
use crate::params::{memo_bytes, parse_memo, MAX_MEMO_CHARS};
use crate::text::quoted_text;

verus! {

/// The hexadecimal digits are these sixteen, and the letters among them in upper case; each
/// is worth its place.
pub proof fn lemma_hex_digits(d: int, c: char)
    requires
        0 <= d < 16,
    ensures
        is_hex_digit("0123456789abcdef"@[d]) && hex_digit_value("0123456789abcdef"@[d]) == d,
        is_hex_digit("0123456789ABCDEF"@[d]) && hex_digit_value("0123456789ABCDEF"@[d]) == d,
        hex_digit(d as nat) == "0123456789abcdef"@[d],
        is_hex_digit(c) ==> hex_digit_value(c) < 16 && ("0123456789abcdef"@[hex_digit_value(c) as int] == c
            || "0123456789ABCDEF"@[hex_digit_value(c) as int] == c),
{
    reveal_strlit("0123456789abcdef");
    reveal_strlit("0123456789ABCDEF");
    if is_hex_digit(c) {
        let v = hex_digit_value(c) as int;
        assert(v == 0 || v == 1 || v == 2 || v == 3 || v == 4 || v == 5 || v == 6 || v == 7 || v == 8 || v == 9 || v
            == 10 || v == 11 || v == 12 || v == 13 || v == 14 || v == 15);
    }
    assert(d == 0 || d == 1 || d == 2 || d == 3 || d == 4 || d == 5 || d == 6 || d == 7 || d == 8 || d == 9 || d == 10
        || d == 11 || d == 12 || d == 13 || d == 14 || d == 15);
}

/// A byte is read as the digit that its character is.
pub proof fn lemma_digit_read(b: u8, r: Option<u8>)
    requires
        b < 128,
        call_ensures(digit_value, (b,), r),
    ensures
        call_requires(digit_value, (b,)),
        r is Some <==> (48 <= b <= 57 || 65 <= b <= 70 || 97 <= b <= 102),
        r matches Some(v) ==> v < 16 && (b == "0123456789abcdef"@[v as int] as int || b
            == "0123456789ABCDEF"@[v as int] as int),
{
    lemma_hex_digits(0, b as char);
}

/// The number that digits write grows by one digit at a time, sixteenfold.
pub proof fn lemma_hex_number_push(digits: Seq<char>, c: char)
    ensures
        hex_number(Seq::empty()) == 0,
        hex_number(digits.push(c)) == 16 * hex_number(digits) + hex_digit_value(c),
        hex_number(seq![c]) == hex_digit_value(c),
{
    reveal_with_fuel(hex_number, 2);
    assert(digits.push(c).drop_last() =~= digits);
    assert(seq![c].drop_last() =~= Seq::empty());
}

/// What a text writes as a memo: the bytes of its pairs of hexadecimal digits, where it is
/// made of at most 512 such pairs, and nothing otherwise.
pub proof fn lemma_memo_bytes(s: Seq<char>)
    ensures
        memo_bytes(s) is Some <==> {
            &&& s.len() <= 1024
            &&& s.len() % 2 == 0
            &&& forall|i: int|
                0 <= i < s.len() ==> ('0' <= #[trigger] s[i] <= '9' || 'a' <= s[i] <= 'f' || 'A' <= s[i] <= 'F')
        },
        memo_bytes(s) matches Some(bytes) ==> {
            &&& 2 * bytes.len() == s.len()
            &&& forall|i: int|
                0 <= i < bytes.len() ==> (#[trigger] bytes[i]) as nat == hex_number(s.subrange(2 * i, 2 * i + 2))
        },
{
    if all_hex(s) {
        assert forall|i: int| 0 <= i < s.len() implies ('0' <= #[trigger] s[i] <= '9' || 'a' <= s[i] <= 'f' || 'A'
            <= s[i] <= 'F') by {
            assert(is_hex_digit(s[i]));
        }
    }
    if let Some(bytes) = memo_bytes(s) {
        assert forall|i: int| 0 <= i < bytes.len() implies (#[trigger] bytes[i]) as nat == hex_number(
            s.subrange(2 * i, 2 * i + 2),
        ) by {
            assert(is_hex_digit(s[2 * i]) && is_hex_digit(s[2 * i + 1]));
            lemma_hex_number_push(seq![s[2 * i]], s[2 * i + 1]);
            lemma_hex_number_push(Seq::empty(), s[2 * i]);
            assert(s.subrange(2 * i, 2 * i + 2) =~= seq![s[2 * i]].push(s[2 * i + 1]));
        }
    }
}

/// A memo is accepted exactly where it is written in at most 512 pairs of hexadecimal
/// digits, and each pair writes its byte, the high digit first.
pub proof fn lemma_memo_read(memo: &str, r: RpcResult<Vec<u8>>)
    requires
        call_ensures(parse_memo, (memo,), r),
    ensures
        call_requires(parse_memo, (memo,)),
        r is Ok <==> {
            &&& memo@.len() <= 1024
            &&& memo@.len() % 2 == 0
            &&& forall|i: int|
                0 <= i < memo@.len() ==> ('0' <= #[trigger] memo@[i] <= '9' || 'a' <= memo@[i] <= 'f' || 'A' <= memo@[i]
                    <= 'F')
        },
        match r {
            Ok(bytes) => {
                &&& 2 * bytes@.len() == memo@.len()
                &&& forall|i: int|
                    0 <= i < bytes@.len() ==> (#[trigger] bytes@[i]) as nat == hex_number(
                        memo@.subrange(2 * i, 2 * i + 2),
                    )
                &&& forall|i: int|
                    0 <= i < bytes@.len() ==> (#[trigger] bytes@[i]) as int == 16 * hex_digit_value(memo@[2 * i])
                        + hex_digit_value(memo@[2 * i + 1])
            },
            Err(e) => e.code == LegacyCode::InvalidParameter && e.message@
                == "Invalid parameter, the memo must be a hex-encoded string of up to 1024 hex characters."@,
        },
{
    let s = memo@;
    if all_hex(s) {
        assert forall|i: int| 0 <= i < s.len() implies ('0' <= #[trigger] s[i] <= '9' || 'a' <= s[i] <= 'f' || 'A'
            <= s[i] <= 'F') by {
            assert(is_hex_digit(s[i]));
        }
    }
    if let Ok(bytes) = r {
        assert forall|i: int| 0 <= i < bytes@.len() implies {
            &&& (#[trigger] bytes@[i]) as nat == hex_number(s.subrange(2 * i, 2 * i + 2))
            &&& bytes@[i] as int == 16 * hex_digit_value(s[2 * i]) + hex_digit_value(s[2 * i + 1])
        } by {
            let two = s.subrange(2 * i, 2 * i + 2);
            assert(is_hex_digit(s[2 * i]) && is_hex_digit(s[2 * i + 1]));
            lemma_hex_number_push(seq![s[2 * i]], s[2 * i + 1]);
            lemma_hex_number_push(Seq::empty(), s[2 * i]);
            assert(two =~= seq![s[2 * i]].push(s[2 * i + 1]));
        }
    }
}

/// A memo reads the same in upper and in lower case.
pub proof fn lemma_memo_case(a: &str, b: &str, ra: RpcResult<Vec<u8>>, rb: RpcResult<Vec<u8>>)
    requires
        call_ensures(parse_memo, (a,), ra),
        call_ensures(parse_memo, (b,), rb),
        a@.len() == b@.len(),
        forall|i: int|
            0 <= i < a@.len() ==> (#[trigger] a@[i]) == b@[i] || ('A' <= a@[i] <= 'F' && b@[i] as int == a@[i] as int
                + 32),
    ensures
        ra is Ok <==> rb is Ok,
        ra matches Ok(bytes) ==> bytes@ == rb->Ok_0@,
{
    lemma_memo_read(a, ra);
    lemma_memo_read(b, rb);
    if ra is Ok {
        assert forall|i: int| 0 <= i < b@.len() implies ('0' <= #[trigger] b@[i] <= '9' || 'a' <= b@[i] <= 'f' || 'A'
            <= b@[i] <= 'F') by {
            let c = a@[i];
            assert('0' <= c <= '9' || 'a' <= c <= 'f' || 'A' <= c <= 'F');
            assert(c == b@[i] || ('A' <= c <= 'F' && b@[i] as int == c as int + 32));
        }
        let bytes = ra->Ok_0@;
        let other = rb->Ok_0@;
        assert forall|i: int| 0 <= i < bytes.len() implies bytes[i] == other[i] by {
            assert(a@[2 * i] == b@[2 * i] || a@[2 * i] != b@[2 * i]);
            assert(a@[2 * i + 1] == b@[2 * i + 1] || a@[2 * i + 1] != b@[2 * i + 1]);
            assert(bytes[i] as int == 16 * hex_digit_value(a@[2 * i]) + hex_digit_value(a@[2 * i + 1]));
            assert(other[i] as int == 16 * hex_digit_value(b@[2 * i]) + hex_digit_value(b@[2 * i + 1]));
        }
        assert(bytes =~= other);
    } else if rb is Ok {
        assert forall|i: int| 0 <= i < a@.len() implies ('0' <= #[trigger] a@[i] <= '9' || 'a' <= a@[i] <= 'f' || 'A'
            <= a@[i] <= 'F') by {
            let c = b@[i];
            assert('0' <= c <= '9' || 'a' <= c <= 'f' || 'A' <= c <= 'F');
        }
    }
}

/// Two memos written one after the other read as the two memos one after the other.
pub proof fn lemma_memo_concat(
    a: &str,
    b: &str,
    both: &str,
    ra: Vec<u8>,
    rb: Vec<u8>,
    r: RpcResult<Vec<u8>>,
)
    requires
        both@ == a@ + b@,
        call_ensures(parse_memo, (a,), Ok(ra)),
        call_ensures(parse_memo, (b,), Ok(rb)),
        call_ensures(parse_memo, (both,), r),
    ensures
        r is Ok <==> ra@.len() + rb@.len() <= 512,
        r matches Ok(bytes) ==> bytes@ == ra@ + rb@,
{
    lemma_memo_read(a, Ok(ra));
    lemma_memo_read(b, Ok(rb));
    lemma_memo_read(both, r);
    assert forall|i: int| 0 <= i < both@.len() implies ('0' <= #[trigger] both@[i] <= '9' || 'a' <= both@[i] <= 'f'
        || 'A' <= both@[i] <= 'F') by {
        if i < a@.len() {
            assert(both@[i] == a@[i]);
        } else {
            assert(both@[i] == b@[i - a@.len()]);
        }
    }
    if let Ok(bytes) = r {
        assert forall|i: int| 0 <= i < bytes@.len() implies bytes@[i] == (ra@ + rb@)[i] by {
            assert(bytes@[i] as int == 16 * hex_digit_value(both@[2 * i]) + hex_digit_value(both@[2 * i + 1]));
            if i < ra@.len() {
                assert(ra@[i] as int == 16 * hex_digit_value(a@[2 * i]) + hex_digit_value(a@[2 * i + 1]));
            } else {
                let j = i - ra@.len();
                assert(rb@[j] as int == 16 * hex_digit_value(b@[2 * j]) + hex_digit_value(b@[2 * j + 1]));
            }
        }
        assert(bytes@ =~= ra@ + rb@);
    }
}

/// A memo may have 1024 characters.
pub proof fn lemma_memo_limit()
    ensures
        MAX_MEMO_CHARS == 1024,
{
}

/// A number written in 32 hexadecimal digits has at most 128 bits.
proof fn lemma_hex_number_bound(digits: Seq<char>)
    requires
        all_hex(digits),
    ensures
        hex_number(digits) < vstd::arithmetic::power::pow(16, digits.len()),
    decreases digits.len(),
{
    reveal(vstd::arithmetic::power::pow);
    if digits.len() > 0 {
        let rest = digits.drop_last();
        assert forall|i: int| 0 <= i < rest.len() implies is_hex_digit(#[trigger] rest[i]) by {
            assert(is_hex_digit(digits[i]));
        }
        lemma_hex_number_bound(rest);
        assert(is_hex_digit(digits[digits.len() - 1]));
    }
}

/// A UUID can be written in four forms, which all mean the number that its 32 digits write:
/// the digits alone; with hyphens between groups of 8, 4, 4, 4 and 12; the same in braces; and
/// the same after `urn:uuid:`, in letters of either case.
pub proof fn lemma_uuid_forms(d: Seq<char>, hyphenated: Seq<char>, braced: Seq<char>, prefix: Seq<char>, urn: Seq<char>)
    requires
        d.len() == 32,
        forall|i: int|
            0 <= i < 32 ==> ('0' <= #[trigger] d[i] <= '9' || 'a' <= d[i] <= 'f' || 'A' <= d[i] <= 'F'),
        hyphenated == d.subrange(0, 8) + seq!['-'] + d.subrange(8, 12) + seq!['-'] + d.subrange(12, 16) + seq!['-']
            + d.subrange(16, 20) + seq!['-'] + d.subrange(20, 32),
        braced == seq!['{'] + hyphenated + seq!['}'],
        prefix.len() == 9,
        forall|i: int|
            0 <= i < 9 ==> #[trigger] prefix[i] == "urn:uuid:"@[i] || prefix[i] == "URN:UUID:"@[i],
        urn == prefix + hyphenated,
    ensures
        uuid_value(d) matches Some(uuid) && uuid as nat == hex_number(d),
        uuid_value(hyphenated) == uuid_value(d),
        uuid_value(braced) == uuid_value(d),
        uuid_value(urn) == uuid_value(d),
{
    assert forall|i: int| 0 <= i < d.len() implies is_hex_digit(#[trigger] d[i]) by {}
    assert(vstd::arithmetic::power::pow(16, 32) == 0x1_0000_0000_0000_0000_0000_0000_0000_0000) by {
        reveal_with_fuel(vstd::arithmetic::power::pow, 33);
    }
    lemma_hex_number_bound(d);
    assert(hyphenated_digits(hyphenated) =~= d);
    assert(is_hyphenated(hyphenated));
    assert(braced.subrange(1, 37) =~= hyphenated);
    reveal_strlit("urn:uuid:");
    reveal_strlit("URN:UUID:");
    assert forall|i: int| 0 <= i < 9 implies urn[i] == prefix[i] by {}
    assert(urn.subrange(9, 45) =~= hyphenated);
}

/// Nothing else is a UUID: neither another length, nor other characters at any place.
pub proof fn lemma_uuid_only_forms(s: Seq<char>, i: int)
    requires
        uuid_value(s) is Some,
        0 <= i < s.len(),
    ensures
        s.len() == 32 || s.len() == 36 || s.len() == 38 || s.len() == 45,
        s.len() == 32 ==> ('0' <= s[i] <= '9' || 'a' <= s[i] <= 'f' || 'A' <= s[i] <= 'F'),
        s.len() == 36 ==> if i == 8 || i == 13 || i == 18 || i == 23 {
            s[i] == '-'
        } else {
            '0' <= s[i] <= '9' || 'a' <= s[i] <= 'f' || 'A' <= s[i] <= 'F'
        },
        s.len() == 38 ==> s[0] == '{' && s[37] == '}' && uuid_value(s.subrange(1, 37)) == uuid_value(s),
        s.len() == 45 ==> s[3] == ':' && s[8] == ':' && uuid_value(s.subrange(9, 45)) == uuid_value(s),
        s.len() == 45 ==> (s[0] == 'u' || s[0] == 'U') && (s[1] == 'r' || s[1] == 'R') && (s[2] == 'n' || s[2] == 'N')
            && (s[4] == 'u' || s[4] == 'U') && (s[5] == 'u' || s[5] == 'U') && (s[6] == 'i' || s[6] == 'I') && (s[7]
            == 'd' || s[7] == 'D'),
{
    if s.len() == 32 {
        assert(is_hex_digit(s[i]));
    } else if s.len() == 36 {
        let d = hyphenated_digits(s);
        if i < 8 {
            assert(is_hex_digit(d[i]));
        } else if 9 <= i < 13 {
            assert(is_hex_digit(d[i - 1]));
        } else if 14 <= i < 18 {
            assert(is_hex_digit(d[i - 2]));
        } else if 19 <= i < 23 {
            assert(is_hex_digit(d[i - 3]));
        } else if 24 <= i {
            assert(is_hex_digit(d[i - 4]));
        }
    }
}

/// A UUID is written in 36 characters: four hyphens, and digits in lower case.
pub proof fn lemma_uuid_text_shape(uuid: u128, i: int)
    requires
        0 <= i < 36,
    ensures
        uuid_text(uuid).len() == 36,
        if i == 8 || i == 13 || i == 18 || i == 23 {
            uuid_text(uuid)[i] == '-'
        } else {
            '0' <= uuid_text(uuid)[i] <= '9' || 'a' <= uuid_text(uuid)[i] <= 'f'
        },
{
    lemma_uuid_text_reads_back(uuid);
    let digits = hex_text(uuid as nat, 32);
    lemma_hex_text_lower(uuid as nat, 32);
    let s = uuid_text(uuid);
    if i < 8 {
        assert(s[i] == digits[i]);
    } else if 9 <= i < 13 {
        assert(s[i] == digits[i - 1]);
    } else if 14 <= i < 18 {
        assert(s[i] == digits[i - 2]);
    } else if 19 <= i < 23 {
        assert(s[i] == digits[i - 3]);
    } else if 24 <= i {
        assert(s[i] == digits[i - 4]);
    }
}

/// Numbers are written with as many digits as asked for, in lower case.
pub proof fn lemma_hex_text_lower(n: nat, digits: nat)
    ensures
        hex_text(n, digits).len() == digits,
        forall|i: int|
            0 <= i < digits ==> ('0' <= #[trigger] hex_text(n, digits)[i] <= '9' || 'a' <= hex_text(n, digits)[i]
                <= 'f'),
    decreases digits,
{
    if digits > 0 {
        let rest = hex_text(n / 16, (digits - 1) as nat);
        lemma_hex_text_lower(n / 16, (digits - 1) as nat);
        assert forall|i: int| 0 <= i < digits implies ('0' <= #[trigger] hex_text(n, digits)[i] <= '9' || 'a'
            <= hex_text(n, digits)[i] <= 'f') by {
            if i < digits - 1 {
                assert(hex_text(n, digits)[i] == rest[i]);
            }
        }
    }
}

/// The script that pays to an address is the hash between the opcodes of its kind.
pub proof fn lemma_address_script_bytes(hash: [u8; 20])
    ensures
        address_script(TransparentAddress::PublicKeyHash(hash)) == seq![0x76u8, 0xa9u8, 20u8] + hash@ + seq![
            0x88u8,
            0xacu8,
        ],
        address_script(TransparentAddress::ScriptHash(hash)) == seq![0xa9u8, 20u8] + hash@ + seq![0x87u8],
{
}

/// A script pays to an address exactly where it is the script of that address.
pub proof fn lemma_output_address(script: Vec<u8>, r: Option<TransparentAddress>, address: TransparentAddress)
    requires
        call_ensures(output_address, (&script,), r),
    ensures
        call_requires(output_address, (&script,)),
        r == Some(address) <==> script@ == address_script(address),
        paid_address(script@) == Some(address) <==> script@ == address_script(address),
{
    if script@ == address_script(address) {
        lemma_address_script_reads_back(address);
    }
}

/// Two addresses are the same exactly where they are of one kind and have one hash.
pub proof fn lemma_address_same(a: TransparentAddress, b: TransparentAddress, r: bool)
    requires
        call_ensures(TransparentAddress::same, (&a, &b), r),
    ensures
        call_requires(TransparentAddress::same, (&a, &b)),
        r <==> match (a, b) {
            (TransparentAddress::PublicKeyHash(x), TransparentAddress::PublicKeyHash(y)) => x@ == y@,
            (TransparentAddress::ScriptHash(x), TransparentAddress::ScriptHash(y)) => x@ == y@,
            _ => false,
        },
{
    match (a, b) {
        (TransparentAddress::PublicKeyHash(x), TransparentAddress::PublicKeyHash(y)) => {
            assert(x@ == y@ ==> x =~= y);
        },
        (TransparentAddress::ScriptHash(x), TransparentAddress::ScriptHash(y)) => {
            assert(x@ == y@ ==> x =~= y);
        },
        _ => {},
    }
}

/// A source is accepted exactly where it reads as a UUID or as a transparent address, and then
/// it is that account or that address; otherwise the error says which of the two kinds of
/// refusal it is, and repeats the source.
pub proof fn lemma_source_classified(
    uuid: Option<u128>,
    address: Option<Address>,
    fromaddress: &str,
    r: RpcResult<FromAddressInput>,
)
    requires
        call_ensures(classify_fromaddress, (uuid, address, fromaddress), r),
    ensures
        call_requires(classify_fromaddress, (uuid, address, fromaddress)),
        uuid matches Some(id) ==> r == Ok::<FromAddressInput, RpcError>(FromAddressInput::AccountUuid(id)),
        uuid is None ==> match address {
            Some(Address::Transparent(addr)) => r == Ok::<FromAddressInput, RpcError>(
                FromAddressInput::TransparentAddress(addr),
            ),
            Some(_) => r matches Err(e) && e.code == LegacyCode::InvalidAddressOrKey && e.message@
                == "Invalid `fromaddress`: only transparent addresses are accepted (got a \
             non-transparent Zcash address): "@ + fromaddress@,
            None => r matches Err(e) && e.code == LegacyCode::InvalidParameter && e.message@
                == "Invalid `fromaddress`: expected a wallet-owned transparent address or an \
             account UUID, got "@ + quoted_text(fromaddress@),
        },
{
}

/// What is read as a UUID is that account, and what is read as a transparent address of the
/// network is that address; nothing is read as both, and anything else is refused, with the
/// source repeated.
pub proof fn lemma_source_read(network: NetworkType, fromaddress: &str, r: RpcResult<FromAddressInput>)
    requires
        call_ensures(parse_fromaddress, (network, fromaddress), r),
    ensures
        call_requires(parse_fromaddress, (network, fromaddress)),
        uuid_value(fromaddress@) matches Some(id) ==> r == Ok::<FromAddressInput, RpcError>(
            FromAddressInput::AccountUuid(id),
        ),
        decoded_address(network, fromaddress@) matches Some(Address::Transparent(addr)) ==> r == Ok::<
            FromAddressInput,
            RpcError,
        >(FromAddressInput::TransparentAddress(addr)),
        uuid_value(fromaddress@) is None && decoded_address(network, fromaddress@) is None ==> (r matches Err(e)
            && e.code == LegacyCode::InvalidParameter && e.message@
            == "Invalid `fromaddress`: expected a wallet-owned transparent address or an \
             account UUID, got "@ + quoted_text(fromaddress@)),
        uuid_value(fromaddress@) is None && decoded_address(network, fromaddress@) is Some && !(decoded_address(
            network,
            fromaddress@,
        ) matches Some(Address::Transparent(_))) ==> (r matches Err(e) && e.code == LegacyCode::InvalidAddressOrKey
            && e.message@ == "Invalid `fromaddress`: only transparent addresses are accepted (got a \
             non-transparent Zcash address): "@ + fromaddress@),
{
}

/// An error has the code and the text that it was made with, and that is all there is to it.
pub proof fn lemma_error_made(code: LegacyCode, message: String, fixed: &str, a: RpcError, b: RpcError)
    requires
        call_ensures(LegacyCode::with_message, (code, message), a),
        call_ensures(LegacyCode::with_static, (code, fixed), b),
    ensures
        call_requires(LegacyCode::with_message, (code, message)),
        call_requires(LegacyCode::with_static, (code, fixed)),
        a.code == code && a.message@ == message@,
        b.code == code && b.message@ == fixed@,
        a@ == failure(code, message@) && failure(code, message@).code == code && failure(code, message@).message
            == message@,
{
}

/// The outcome of an operation is its result, with the code and the text of its error.
pub proof fn lemma_outcome<T>(r: RpcResult<T>)
    ensures
        match r {
            Ok(value) => outcome(r) == Ok::<T, crate::error::Failure>(value),
            Err(e) => outcome(r) matches Err(f) && f.code == e.code && f.message == e.message@,
        },
{
}

/// The numbers of the codes on the wire.
pub proof fn lemma_code_numbers(e: RpcError, n: i32, m: i32)
    requires
        call_ensures(RpcError::code, (&e,), n),
        call_ensures(LegacyCode::number, (e.code,), m),
    ensures
        call_requires(RpcError::code, (&e,)),
        call_requires(LegacyCode::number, (e.code,)),
        n == m,
        code_number(e.code) == n,
        e.code is Wallet ==> n == -4,
        e.code is InvalidAddressOrKey ==> n == -5,
        e.code is InvalidParameter ==> n == -8,
        e.code is WalletUnlockNeeded ==> n == -13,
        e.code is Database ==> n == -20,
{
}

} // verus!
