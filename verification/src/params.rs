//! The parameters of the method.
use vstd::prelude::*;

use crate::account::uuid_value;
use crate::address::{decoded_address, is_zcash_address, zcash_address_readable, Address, NetworkType};
use crate::error::{failure, outcome, Failure, LegacyCode, RpcError, RpcResult};
use crate::fromaddress::{classified, parse_fromaddress, FromAddressInput};
use crate::hex::{all_hex, digit_value, hex_digit_value, hex_text, is_hex_digit};
use crate::text::joined;

verus! {

/// What the `fromaddress` parameter means.
pub const PARAM_FROMADDRESS_DESC: &'static str = "Source of coinbase UTXOs to shield. Either a single transparent address owned by this \
     wallet, or an account UUID to sweep every coinbase UTXO across that account's transparent \
     receivers.";

/// What the `toaddress` parameter means.
pub const PARAM_TOADDRESS_DESC: &'static str = "Any Zcash shielded address (Sapling, Orchard, or Unified with a shielded receiver) that \
     will receive the shielded funds. Need not belong to this wallet. Transparent or TEX \
     destinations are rejected.";

/// What the `fee` parameter means.
pub const PARAM_FEE_DESC: &'static str =
    "If provided, must be null. Zallet always calculates and applies the ZIP-317 fee internally.";

/// What the `limit` parameter means.
pub const PARAM_LIMIT_DESC: &'static str = "If supplied, caps the number of selected coinbase UTXOs to the highest-value `n` of those \
     eligible. Recommended for wallets with many eligible coinbase UTXOs: without it, a single \
     transaction is built containing all eligible UTXOs, which can exceed transaction-size \
     limits at broadcast time.";

/// What the `memo` parameter means.
pub const PARAM_MEMO_DESC: &'static str = "If supplied, stored in the memo field of the resulting shielded payment. Must be a \
     hex-encoded string (up to 1024 hex characters = 512 bytes).";

/// What the `privacy_policy` parameter means.
pub const PARAM_PRIVACY_POLICY_DESC: &'static str = "If set, it must be null.";

/// The largest number of hexadecimal characters in a memo.
pub const MAX_MEMO_CHARS: usize = 1024;

/// The memo that a string writes in hexadecimal; nothing where it writes none, or one that
/// is too long.
pub open spec fn memo_bytes(s: Seq<char>) -> Option<Seq<u8>> {
    if s.len() <= MAX_MEMO_CHARS && s.len() % 2 == 0 && all_hex(s) {
        Some(
            Seq::new(
                s.len() / 2,
                |i: int| (16 * hex_digit_value(s[2 * i]) + hex_digit_value(s[2 * i + 1])) as u8,
            ),
        )
    } else {
        None
    }
}

/// What is reported for a memo that cannot be read.
pub open spec fn memo_failure() -> Failure {
    failure(
        LegacyCode::InvalidParameter,
        "Invalid parameter, the memo must be a hex-encoded string of up to 1024 hex characters."@,
    )
}

fn memo_error() -> (e: RpcError)
    ensures
        e@ == memo_failure(),
{
    LegacyCode::InvalidParameter.with_static(
        "Invalid parameter, the memo must be a hex-encoded string of up to 1024 hex characters.",
    )
}

/// Reads the `memo` parameter.
pub fn parse_memo(memo: &str) -> (r: RpcResult<Vec<u8>>)
    ensures
        match (r, memo_bytes(memo@)) {
            (Ok(bytes), Some(expected)) => bytes@ == expected,
            (Err(e), None) => e@ == memo_failure(),
            _ => false,
        },
{
    if !memo.is_ascii() {
        assert(!all_hex(memo@));
        return Err(memo_error());
    }
    let n = memo.unicode_len();
    if n > MAX_MEMO_CHARS || n % 2 != 0 {
        return Err(memo_error());
    }
    let mut bytes: Vec<u8> = Vec::new();
    let mut i: usize = 0;
    while i < n
        invariant
            memo.is_ascii(),
            n == memo@.len(),
            n <= MAX_MEMO_CHARS,
            n % 2 == 0,
            i % 2 == 0,
            i <= n,
            bytes@.len() == i / 2,
            forall|j: int| 0 <= j < i ==> is_hex_digit(#[trigger] memo@[j]),
            forall|j: int|
                0 <= j < i / 2 ==> #[trigger] bytes@[j] == (16 * hex_digit_value(memo@[2 * j]) + hex_digit_value(
                    memo@[2 * j + 1],
                )) as u8,
        decreases n - i,
    {
        let high = digit_value(memo.get_ascii(i));
        let low = digit_value(memo.get_ascii(i + 1));
        match (high, low) {
            (Some(h), Some(l)) => {
                bytes.push(16 * h + l);
            },
            _ => {
                assert(!is_hex_digit(memo@[i as int]) || !is_hex_digit(memo@[i + 1]));
                return Err(memo_error());
            },
        }
        i += 2;
    }
    assert(all_hex(memo@));
    assert(bytes@ =~= memo_bytes(memo@)->0);
    Ok(bytes)
}

/// Bytes in hexadecimal, two characters for each.
pub open spec fn memo_text(bytes: Seq<u8>) -> Seq<char> {
    Seq::new(bytes.len() * 2, |i: int| hex_text(bytes[i / 2] as nat, 2)[i % 2])
}

/// A memo that fits, written in hexadecimal, is read back unchanged.
pub proof fn lemma_memo_reads_back(bytes: Seq<u8>)
    requires
        bytes.len() <= 512,
    ensures
        memo_bytes(memo_text(bytes)) == Some(bytes),
{
    let s = memo_text(bytes);
    assert forall|i: int| 0 <= i < s.len() implies is_hex_digit(#[trigger] s[i]) by {
        lemma_byte_digits(bytes[i / 2]);
    }
    assert forall|i: int| 0 <= i < bytes.len() implies #[trigger] bytes[i] == (16 * hex_digit_value(s[2 * i])
        + hex_digit_value(s[2 * i + 1])) as u8 by {
        lemma_byte_digits(bytes[i]);
        assert((2 * i) / 2 == i && (2 * i) % 2 == 0 && (2 * i + 1) / 2 == i && (2 * i + 1) % 2 == 1);
    }
    assert(memo_bytes(s)->0 =~= bytes);
}

/// A byte is written in two hexadecimal digits.
proof fn lemma_byte_digits(b: u8)
    ensures
        hex_text(b as nat, 2).len() == 2,
        is_hex_digit(hex_text(b as nat, 2)[0]),
        is_hex_digit(hex_text(b as nat, 2)[1]),
        16 * hex_digit_value(hex_text(b as nat, 2)[0]) + hex_digit_value(hex_text(b as nat, 2)[1]) == b,
{
    reveal_with_fuel(hex_text, 3);
}

/// What is shown of a running operation: the method and the parameters that it was called
/// with.
#[derive(Debug, PartialEq, Eq)]
pub struct ContextInfo {
    /// The name of the method.
    pub method: String,
    /// The `fromaddress` parameter.
    pub fromaddress: String,
    /// The `toaddress` parameter.
    pub toaddress: String,
    /// The `limit` parameter.
    pub limit: Option<u32>,
}

/// A call whose parameters have been accepted.
#[derive(Debug, PartialEq, Eq)]
pub struct Request {
    /// The network of the wallet.
    pub network: NetworkType,
    /// What is shown of the call.
    pub context: ContextInfo,
    /// The memo for the shielded payment.
    pub memo: Option<Vec<u8>>,
    /// Where the coinbase UTXOs are.
    pub source: FromAddressInput,
}

/// Why the parameters of a call are refused, if they are. The first reason counts: a fee, a
/// privacy policy, a destination that is no address, a memo that cannot be read, a
/// source that is neither an account nor a transparent address.
///
/// `to_readable` says whether `toaddress` can be read as an address, and `source` what
/// `fromaddress` was classified as.
pub open spec fn request_failure<J>(
    fee: Option<J>,
    privacy_policy: Option<String>,
    toaddress: Seq<char>,
    to_readable: bool,
    memo: Option<String>,
    source: Result<FromAddressInput, Failure>,
) -> Option<Failure> {
    if fee is Some {
        Some(
            failure(
                LegacyCode::InvalidParameter,
                "Zallet always calculates fees internally; the fee field must be null."@,
            ),
        )
    } else if privacy_policy is Some {
        Some(
            failure(
                LegacyCode::InvalidParameter,
                "Zallet does not support configuring the privacy policy for z_shieldcoinbase; \
             the privacy_policy field must be null."@,
            ),
        )
    } else if !to_readable {
        Some(
            failure(
                LegacyCode::InvalidParameter,
                "Invalid parameter, unknown address format: "@ + toaddress,
            ),
        )
    } else if memo is Some && memo_bytes(memo->0@) is None {
        Some(memo_failure())
    } else if source is Err {
        Some(source->Err_0)
    } else {
        None
    }
}

/// Whether a request is what was asked for.
pub open spec fn is_request(
    request: Request,
    network: NetworkType,
    fromaddress: String,
    toaddress: String,
    limit: Option<u32>,
    memo: Option<String>,
    source: FromAddressInput,
) -> bool {
    &&& request.network == network
    &&& request.context.method@ == "z_shieldcoinbase"@
    &&& request.context.fromaddress == fromaddress
    &&& request.context.toaddress == toaddress
    &&& request.context.limit == limit
    &&& request.memo is Some <==> memo is Some
    &&& memo matches Some(text) ==> memo_bytes(text@) == Some(request.memo->0@)
    &&& request.source == source
}

/// What `fromaddress` is classified as on a network.
pub open spec fn source_of(network: NetworkType, fromaddress: Seq<char>) -> Result<FromAddressInput, Failure> {
    classified(uuid_value(fromaddress), decoded_address(network, fromaddress), fromaddress)
}

impl Request {
    /// Accepts or refuses the parameters of a call, given whether `toaddress` can be read
    /// as an address and what `fromaddress` was classified as.
    ///
    /// `fee` and `privacy_policy` have their places in the list of parameters and nothing
    /// more: the fee is always computed here, and shielding is always done under a fixed
    /// privacy policy. Anything given for them is refused, so that no caller believes to be
    /// configuring either.
    pub fn from_parsed<J>(
        network: NetworkType,
        fromaddress: String,
        toaddress: String,
        fee: &Option<J>,
        limit: Option<u32>,
        memo: &Option<String>,
        privacy_policy: &Option<String>,
        to_readable: bool,
        source: RpcResult<FromAddressInput>,
    ) -> (r: RpcResult<Request>)
        ensures
            match r {
                Ok(request) => request_failure(
                    *fee,
                    *privacy_policy,
                    toaddress@,
                    to_readable,
                    *memo,
                    outcome(source),
                ) is None && is_request(request, network, fromaddress, toaddress, limit, *memo, source->Ok_0),
                Err(e) => request_failure(
                    *fee,
                    *privacy_policy,
                    toaddress@,
                    to_readable,
                    *memo,
                    outcome(source),
                ) == Some(e@),
            },
    {
        if fee.is_some() {
            return Err(
                LegacyCode::InvalidParameter.with_static(
                    "Zallet always calculates fees internally; the fee field must be null.",
                ),
            );
        }
        if privacy_policy.is_some() {
            return Err(
                LegacyCode::InvalidParameter.with_static(
                    "Zallet does not support configuring the privacy policy for z_shieldcoinbase; \
             the privacy_policy field must be null.",
                ),
            );
        }
        if !to_readable {
            return Err(
                LegacyCode::InvalidParameter.with_message(
                    joined("Invalid parameter, unknown address format: ", toaddress.as_str()),
                ),
            );
        }
        let memo_read: Option<Vec<u8>> = match memo {
            Some(text) => match parse_memo(text.as_str()) {
                Ok(bytes) => Some(bytes),
                Err(e) => {
                    return Err(e);
                },
            },
            None => None,
        };
        match source {
            Ok(source) => {
                let context = ContextInfo { method: "z_shieldcoinbase".to_owned(), fromaddress, toaddress, limit };
                Ok(Request { network, context, memo: memo_read, source })
            },
            Err(e) => Err(e),
        }
    }

    /// Accepts or refuses the parameters of a call.
    pub fn new<J>(
        network: NetworkType,
        fromaddress: String,
        toaddress: String,
        fee: &Option<J>,
        limit: Option<u32>,
        memo: &Option<String>,
        privacy_policy: &Option<String>,
    ) -> (r: RpcResult<Request>)
        ensures
            match r {
                Ok(request) => request_failure(
                    *fee,
                    *privacy_policy,
                    toaddress@,
                    zcash_address_readable(toaddress@),
                    *memo,
                    source_of(network, fromaddress@),
                ) is None && is_request(
                    request,
                    network,
                    fromaddress,
                    toaddress,
                    limit,
                    *memo,
                    source_of(network, fromaddress@)->Ok_0,
                ),
                Err(e) => request_failure(
                    *fee,
                    *privacy_policy,
                    toaddress@,
                    zcash_address_readable(toaddress@),
                    *memo,
                    source_of(network, fromaddress@),
                ) == Some(e@),
            },
            uuid_value(fromaddress@) is Some ==> !(decoded_address(network, fromaddress@) matches Some(
                Address::Transparent(_),
            )),
    {
        let to_readable = is_zcash_address(toaddress.as_str());
        let source = parse_fromaddress(network, fromaddress.as_str());
        Request::from_parsed(
            network,
            fromaddress,
            toaddress,
            fee,
            limit,
            memo,
            privacy_policy,
            to_readable,
            source,
        )
    }
}

} // verus!
