//! Which calls are accepted, and where their money comes from.
use vstd::prelude::*;

use crate::account::uuid_value;
use crate::address::{decoded_address, zcash_address_readable, Address, NetworkType, TransparentAddress};
use crate::call::{
    call, check_source, resolve_fromaddress, AccountFetch, AccountLookup, OwnerLookup, ReceiversLookup,
    SourceLookup,
};
use crate::error::{Failure, LegacyCode, RpcResult};
use crate::fromaddress::{check_account_known, resolve_account, resolve_address, FromAddressInput, ResolvedSource};
use crate::params::{memo_bytes, request_failure, source_of, Request};
use crate::text::quoted_text;

verus! {

/// The parameters of a call are in order exactly where there is neither a fee nor a privacy
/// policy, the destination is an address, the memo can be read, and the source was
/// recognised.
pub proof fn lemma_request_accepted<J>(
    fee: Option<J>,
    privacy_policy: Option<String>,
    toaddress: Seq<char>,
    to_readable: bool,
    memo: Option<String>,
    source: Result<FromAddressInput, Failure>,
)
    ensures
        request_failure(fee, privacy_policy, toaddress, to_readable, memo, source) is None <==> {
            &&& fee is None
            &&& privacy_policy is None
            &&& to_readable
            &&& memo matches Some(text) ==> memo_bytes(text@) is Some
            &&& source is Ok
        },
{
}

/// A source is recognised exactly where it reads as a UUID or as a transparent address of the
/// network, and then it is what it reads as.
pub proof fn lemma_source_recognised(network: NetworkType, fromaddress: Seq<char>)
    ensures
        source_of(network, fromaddress) is Ok <==> (uuid_value(fromaddress) is Some || (decoded_address(
            network,
            fromaddress,
        ) matches Some(Address::Transparent(_)))),
        uuid_value(fromaddress) matches Some(id) ==> source_of(network, fromaddress) == Ok::<FromAddressInput, Failure>(
            FromAddressInput::AccountUuid(id),
        ),
        uuid_value(fromaddress) is None ==> (decoded_address(network, fromaddress) matches Some(
            Address::Transparent(addr),
        ) ==> source_of(network, fromaddress) == Ok::<FromAddressInput, Failure>(
            FromAddressInput::TransparentAddress(addr),
        )),
{
}

/// A request is made exactly where its parameters are in order, and holds them as they were
/// given; otherwise the first parameter that is not in order is reported.
pub proof fn lemma_request_from_parsed<J>(
    network: NetworkType,
    fromaddress: String,
    toaddress: String,
    fee: &Option<J>,
    limit: Option<u32>,
    memo: &Option<String>,
    privacy_policy: &Option<String>,
    to_readable: bool,
    source: RpcResult<FromAddressInput>,
    r: RpcResult<Request>,
)
    requires
        call_ensures(
            Request::from_parsed::<J>,
            (network, fromaddress, toaddress, fee, limit, memo, privacy_policy, to_readable, source),
            r,
        ),
    ensures
        call_requires(
            Request::from_parsed::<J>,
            (network, fromaddress, toaddress, fee, limit, memo, privacy_policy, to_readable, source),
        ),
        r is Ok <==> {
            &&& *fee is None
            &&& *privacy_policy is None
            &&& to_readable
            &&& *memo matches Some(text) ==> memo_bytes(text@) is Some
            &&& source is Ok
        },
        match r {
            Ok(request) => {
                &&& request.network == network
                &&& request.source == source->Ok_0
                &&& request.context.method@ == "z_shieldcoinbase"@
                &&& request.context.fromaddress@ == fromaddress@
                &&& request.context.toaddress@ == toaddress@
                &&& request.context.limit == limit
                &&& match (request.memo, *memo) {
                    (Some(bytes), Some(text)) => memo_bytes(text@) == Some(bytes@),
                    (None, None) => true,
                    _ => false,
                }
            },
            Err(e) => if *fee is Some {
                e.code == LegacyCode::InvalidParameter && e.message@
                    == "Zallet always calculates fees internally; the fee field must be null."@
            } else if *privacy_policy is Some {
                e.code == LegacyCode::InvalidParameter && e.message@
                    == "Zallet does not support configuring the privacy policy for z_shieldcoinbase; \
             the privacy_policy field must be null."@
            } else if !to_readable {
                e.code == LegacyCode::InvalidParameter && e.message@ == "Invalid parameter, unknown address format: "@
                    + toaddress@
            } else if *memo matches Some(text) && memo_bytes(text@) is None {
                e.code == LegacyCode::InvalidParameter && e.message@
                    == "Invalid parameter, the memo must be a hex-encoded string of up to 1024 hex characters."@
            } else {
                source matches Err(refused) && e.code == refused.code && e.message@ == refused.message@
            },
        },
{
}

/// A request is made of raw parameters exactly where there is neither a fee nor a privacy
/// policy, the destination reads as an address, the memo can be read, and the source reads as
/// a UUID or as a transparent address of the network. It holds the parameters as they were
/// given, and the account or the address that the source reads as.
pub proof fn lemma_request_new<J>(
    network: NetworkType,
    fromaddress: String,
    toaddress: String,
    fee: &Option<J>,
    limit: Option<u32>,
    memo: &Option<String>,
    privacy_policy: &Option<String>,
    r: RpcResult<Request>,
)
    requires
        call_ensures(Request::new::<J>, (network, fromaddress, toaddress, fee, limit, memo, privacy_policy), r),
    ensures
        call_requires(Request::new::<J>, (network, fromaddress, toaddress, fee, limit, memo, privacy_policy)),
        r is Ok <==> {
            &&& *fee is None
            &&& *privacy_policy is None
            &&& zcash_address_readable(toaddress@)
            &&& *memo matches Some(text) ==> memo_bytes(text@) is Some
            &&& uuid_value(fromaddress@) is Some || (decoded_address(network, fromaddress@) matches Some(
                Address::Transparent(_),
            ))
        },
        r matches Ok(request) ==> {
            &&& request.network == network
            &&& request.context.method@ == "z_shieldcoinbase"@
            &&& request.context.fromaddress@ == fromaddress@
            &&& request.context.toaddress@ == toaddress@
            &&& request.context.limit == limit
            &&& match (request.memo, *memo) {
                (Some(bytes), Some(text)) => memo_bytes(text@) == Some(bytes@),
                (None, None) => true,
                _ => false,
            }
            &&& uuid_value(fromaddress@) matches Some(id) ==> request.source == FromAddressInput::AccountUuid(id)
            &&& decoded_address(network, fromaddress@) matches Some(Address::Transparent(addr)) ==> request.source
                == FromAddressInput::TransparentAddress(addr)
        },
{
}

/// A call is accepted exactly where there is neither a fee nor a privacy policy, the
/// destination reads as an address, the memo can be read, and the source reads as a UUID or
/// as a transparent address of the network. Then the wallet is asked about the account with
/// that UUID, or about the owner of that address, and about no other. Otherwise the first of
/// these that is not so is reported.
pub proof fn lemma_call_accepted<J>(
    network: NetworkType,
    fromaddress: String,
    toaddress: String,
    fee: &Option<J>,
    limit: Option<u32>,
    memo: &Option<String>,
    privacy_policy: &Option<String>,
    r: RpcResult<SourceLookup>,
)
    requires
        call_ensures(call::<J>, (network, fromaddress, toaddress, fee, limit, memo, privacy_policy), r),
    ensures
        call_requires(call::<J>, (network, fromaddress, toaddress, fee, limit, memo, privacy_policy)),
        r is Ok <==> {
            &&& *fee is None
            &&& *privacy_policy is None
            &&& zcash_address_readable(toaddress@)
            &&& *memo matches Some(text) ==> memo_bytes(text@) is Some
            &&& uuid_value(fromaddress@) is Some || (decoded_address(network, fromaddress@) matches Some(
                Address::Transparent(_),
            ))
        },
        match r {
            Ok(lookup) => {
                &&& uuid_value(fromaddress@) matches Some(id) ==> (lookup matches SourceLookup::Account(l)
                    && l.account_id == id)
                &&& decoded_address(network, fromaddress@) matches Some(Address::Transparent(addr)) ==> (
                lookup matches SourceLookup::Owner(l) && l.address == addr)
            },
            Err(e) => if *fee is Some {
                e.code == LegacyCode::InvalidParameter && e.message@
                    == "Zallet always calculates fees internally; the fee field must be null."@
            } else if *privacy_policy is Some {
                e.code == LegacyCode::InvalidParameter && e.message@
                    == "Zallet does not support configuring the privacy policy for z_shieldcoinbase; \
             the privacy_policy field must be null."@
            } else if !zcash_address_readable(toaddress@) {
                e.code == LegacyCode::InvalidParameter && e.message@ == "Invalid parameter, unknown address format: "@
                    + toaddress@
            } else if *memo matches Some(text) && memo_bytes(text@) is None {
                e.code == LegacyCode::InvalidParameter && e.message@
                    == "Invalid parameter, the memo must be a hex-encoded string of up to 1024 hex characters."@
            } else if decoded_address(network, fromaddress@) is Some {
                e.code == LegacyCode::InvalidAddressOrKey && e.message@
                    == "Invalid `fromaddress`: only transparent addresses are accepted (got a \
             non-transparent Zcash address): "@ + fromaddress@
            } else {
                e.code == LegacyCode::InvalidParameter && e.message@
                    == "Invalid `fromaddress`: expected a wallet-owned transparent address or an \
             account UUID, got "@ + quoted_text(fromaddress@)
            },
        },
{
}

/// An accepted call goes on with the parameters as they were given.
pub proof fn lemma_call_keeps_parameters<J>(
    network: NetworkType,
    fromaddress: String,
    toaddress: String,
    fee: &Option<J>,
    limit: Option<u32>,
    memo: &Option<String>,
    privacy_policy: &Option<String>,
    lookup: SourceLookup,
    request: Request,
)
    requires
        call_ensures(call::<J>, (network, fromaddress, toaddress, fee, limit, memo, privacy_policy), Ok(lookup)),
        match lookup {
            SourceLookup::Account(l) => l.request == request,
            SourceLookup::Owner(l) => l.request == request,
        },
    ensures
        request.network == network,
        request.context.method@ == "z_shieldcoinbase"@,
        request.context.fromaddress@ == fromaddress@,
        request.context.toaddress@ == toaddress@,
        request.context.limit == limit,
        match (request.memo, *memo) {
            (Some(bytes), Some(text)) => memo_bytes(text@) == Some(bytes@),
            (None, None) => true,
            _ => false,
        },
        match lookup {
            SourceLookup::Account(l) => request.source == FromAddressInput::AccountUuid(l.account_id),
            SourceLookup::Owner(l) => request.source == FromAddressInput::TransparentAddress(l.address),
        },
{
}

/// The wallet is asked about the account or the address that the request names.
pub proof fn lemma_source_asked_about(request: Request, r: SourceLookup)
    requires
        call_ensures(resolve_fromaddress, (request,), r),
    ensures
        call_requires(resolve_fromaddress, (request,)),
        match request.source {
            FromAddressInput::AccountUuid(id) => r matches SourceLookup::Account(l) && l.account_id == id && l.request
                == request,
            FromAddressInput::TransparentAddress(addr) => r matches SourceLookup::Owner(l) && l.address == addr
                && l.request == request,
        },
{
}

/// A call goes on with an account exactly where the wallet has it, and asks for all of its
/// transparent receivers.
pub proof fn lemma_account_lookup(lookup: AccountLookup, found: Result<bool, String>, r: RpcResult<ReceiversLookup>)
    requires
        call_ensures(AccountLookup::answered, (lookup, found), r),
    ensures
        call_requires(AccountLookup::answered, (lookup, found)),
        match found {
            Ok(true) => r matches Ok(next) && next.request == lookup.request && next.query.account_id
                == lookup.account_id && next.query.include_change && next.query.include_standalone,
            Ok(false) => r matches Err(e) && e.code == LegacyCode::InvalidParameter && e.message@
                == "Unknown account UUID: "@ + lookup.request.context.fromaddress@,
            Err(text) => r matches Err(e) && e.code == LegacyCode::Database && e.message@ == text@,
        },
{
}

/// A call on an account goes on exactly where the account has receivers, with all of them.
pub proof fn lemma_receivers_lookup(
    lookup: ReceiversLookup,
    receivers: Result<Vec<TransparentAddress>, String>,
    r: RpcResult<AccountFetch>,
)
    requires
        call_ensures(ReceiversLookup::answered, (lookup, receivers), r),
    ensures
        call_requires(ReceiversLookup::answered, (lookup, receivers)),
        match receivers {
            Ok(addrs) => if addrs@.len() > 0 {
                r matches Ok(next) && next.request == lookup.request && next.source.account_id
                    == lookup.query.account_id && next.source.from_addrs@ == addrs@
            } else {
                r matches Err(e) && e.code == LegacyCode::InvalidParameter && e.message@
                    == "No source transparent addresses resolved from `fromaddress`."@
            },
            Err(text) => r matches Err(e) && e.code == LegacyCode::Database && e.message@ == text@,
        },
{
}

/// A call on an address goes on exactly where an account owns the address, with that account
/// and that address alone.
pub proof fn lemma_owner_lookup(lookup: OwnerLookup, owner: Result<Option<u128>, String>, r: RpcResult<AccountFetch>)
    requires
        call_ensures(OwnerLookup::answered, (lookup, owner), r),
    ensures
        call_requires(OwnerLookup::answered, (lookup, owner)),
        match owner {
            Ok(Some(account_id)) => r matches Ok(next) && next.request == lookup.request && next.source.account_id
                == account_id && next.source.from_addrs@.len() == 1 && next.source.from_addrs@[0] == lookup.address,
            Ok(None) => r matches Err(e) && e.code == LegacyCode::InvalidAddressOrKey && e.message@
                == "Transparent address is not owned by any account in this wallet: "@
                + lookup.request.context.fromaddress@,
            Err(text) => r matches Err(e) && e.code == LegacyCode::Database && e.message@ == text@,
        },
{
}

/// An account that a caller named is known exactly where the wallet has it.
pub proof fn lemma_account_known(fromaddress: &str, found: Result<bool, String>, r: RpcResult<()>)
    requires
        call_ensures(check_account_known, (fromaddress, found), r),
    ensures
        call_requires(check_account_known, (fromaddress, found)),
        match found {
            Ok(true) => r is Ok,
            Ok(false) => r matches Err(e) && e.code == LegacyCode::InvalidParameter && e.message@
                == "Unknown account UUID: "@ + fromaddress@,
            Err(text) => r matches Err(e) && e.code == LegacyCode::Database && e.message@ == text@,
        },
{
}

/// An account resolves to all its receivers.
pub proof fn lemma_account_resolved(
    account_id: u128,
    receivers: Result<Vec<TransparentAddress>, String>,
    r: RpcResult<ResolvedSource>,
)
    requires
        call_ensures(resolve_account, (account_id, receivers), r),
    ensures
        call_requires(resolve_account, (account_id, receivers)),
        match receivers {
            Ok(addrs) => r matches Ok(source) && source.account_id == account_id && source.from_addrs@ == addrs@,
            Err(text) => r matches Err(e) && e.code == LegacyCode::Database && e.message@ == text@,
        },
{
}

/// An address resolves to its owner and to itself alone.
pub proof fn lemma_address_resolved(
    addr: TransparentAddress,
    fromaddress: &str,
    owner: Result<Option<u128>, String>,
    r: RpcResult<ResolvedSource>,
)
    requires
        call_ensures(resolve_address, (addr, fromaddress, owner), r),
    ensures
        call_requires(resolve_address, (addr, fromaddress, owner)),
        match owner {
            Ok(Some(account_id)) => r matches Ok(source) && source.account_id == account_id && source.from_addrs@.len()
                == 1 && source.from_addrs@[0] == addr,
            Ok(None) => r matches Err(e) && e.code == LegacyCode::InvalidAddressOrKey && e.message@
                == "Transparent address is not owned by any account in this wallet: "@ + fromaddress@,
            Err(text) => r matches Err(e) && e.code == LegacyCode::Database && e.message@ == text@,
        },
{
}

/// A call goes on with a source exactly where the source has an address.
pub proof fn lemma_source_checked(request: Request, source: ResolvedSource, r: RpcResult<AccountFetch>)
    requires
        call_ensures(check_source, (request, source), r),
    ensures
        call_requires(check_source, (request, source)),
        if source.from_addrs@.len() > 0 {
            r matches Ok(next) && next.request == request && next.source == source
        } else {
            r matches Err(e) && e.code == LegacyCode::InvalidParameter && e.message@
                == "No source transparent addresses resolved from `fromaddress`."@
        },
{
}

/// A transparent address is shielded from by itself: from the parameter to the source
/// addresses, a call that names it asks who owns it and draws on it alone.
pub proof fn lemma_named_address_shielded<J>(
    network: NetworkType,
    fromaddress: String,
    toaddress: String,
    fee: &Option<J>,
    limit: Option<u32>,
    memo: &Option<String>,
    privacy_policy: &Option<String>,
    addr: TransparentAddress,
    lookup: OwnerLookup,
    account_id: u128,
    r: RpcResult<AccountFetch>,
)
    requires
        decoded_address(network, fromaddress@) == Some(Address::Transparent(addr)),
        call_ensures(
            call::<J>,
            (network, fromaddress, toaddress, fee, limit, memo, privacy_policy),
            Ok(SourceLookup::Owner(lookup)),
        ),
        call_ensures(OwnerLookup::answered, (lookup, Ok(Some(account_id))), r),
    ensures
        r matches Ok(next) && next.source.account_id == account_id && next.source.from_addrs@ == seq![addr],
{
}

} // verus!
