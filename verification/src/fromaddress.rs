//! The `fromaddress` parameter: which coinbase UTXOs are to be shielded.
use vstd::prelude::*;

use crate::account::{lemma_uuid_without_t, parse_uuid, uuid_value};
use crate::address::{decode_address, decoded_address, Address, NetworkType, TransparentAddress};
use crate::error::{failure, outcome, Failure, LegacyCode, RpcError, RpcResult};
use crate::text::{joined, quoted, quoted_text};

verus! {

/// Classified form of the `fromaddress` parameter.
#[derive(Clone, Copy, Debug, PartialEq, Eq)]
pub enum FromAddressInput {
    /// An account UUID: sweep every transparent receiver in this account.
    AccountUuid(u128),
    /// A wallet-owned transparent address: shield coinbase UTXOs at exactly this address.
    TransparentAddress(TransparentAddress),
}

/// The class of a `fromaddress`, from the UUID and the address that can be read in it.
pub open spec fn classified(uuid: Option<u128>, address: Option<Address>, fromaddress: Seq<char>) -> Result<
    FromAddressInput,
    Failure,
> {
    match (uuid, address) {
        (Some(uuid), _) => Ok(FromAddressInput::AccountUuid(uuid)),
        (None, Some(Address::Transparent(addr))) => Ok(FromAddressInput::TransparentAddress(addr)),
        (None, Some(_)) => Err(
            failure(
                LegacyCode::InvalidAddressOrKey,
                "Invalid `fromaddress`: only transparent addresses are accepted (got a \
             non-transparent Zcash address): "@ + fromaddress,
            ),
        ),
        (None, None) => Err(
            failure(
                LegacyCode::InvalidParameter,
                "Invalid `fromaddress`: expected a wallet-owned transparent address or an \
             account UUID, got "@ + quoted_text(fromaddress),
            ),
        ),
    }
}

/// Classifies a `fromaddress`, given the UUID and the address that can be read in it.
pub fn classify_fromaddress(uuid: Option<u128>, address: Option<Address>, fromaddress: &str) -> (r: RpcResult<
    FromAddressInput,
>)
    ensures
        outcome(r) == classified(uuid, address, fromaddress@),
{
    match uuid {
        Some(uuid) => Ok(FromAddressInput::AccountUuid(uuid)),
        None => match address {
            Some(Address::Transparent(addr)) => Ok(FromAddressInput::TransparentAddress(addr)),
            Some(_) => Err(
                LegacyCode::InvalidAddressOrKey.with_message(
                    joined(
                        "Invalid `fromaddress`: only transparent addresses are accepted (got a \
             non-transparent Zcash address): ",
                        fromaddress,
                    ),
                ),
            ),
            None => Err(
                LegacyCode::InvalidParameter.with_message(
                    joined(
                        "Invalid `fromaddress`: expected a wallet-owned transparent address or an \
             account UUID, got ",
                        quoted(fromaddress).as_str(),
                    ),
                ),
            ),
        },
    }
}

/// Classifies the string form of `fromaddress` as either an account UUID or a transparent
/// address, without touching the wallet database.
///
/// UUIDs and transparent addresses use disjoint string forms, so it does not matter in
/// which order the two are tried: what is read as a transparent address of the network is
/// always taken for that address, and what is read as a UUID always for that account.
pub fn parse_fromaddress(network: NetworkType, fromaddress: &str) -> (r: RpcResult<FromAddressInput>)
    ensures
        outcome(r) == classified(
            uuid_value(fromaddress@),
            decoded_address(network, fromaddress@),
            fromaddress@,
        ),
        uuid_value(fromaddress@) is Some ==> !(decoded_address(network, fromaddress@) matches Some(
            Address::Transparent(_),
        )),
        decoded_address(network, fromaddress@) matches Some(Address::Transparent(addr)) ==> r == Ok::<
            FromAddressInput,
            RpcError,
        >(FromAddressInput::TransparentAddress(addr)),
        uuid_value(fromaddress@) matches Some(uuid) ==> r == Ok::<FromAddressInput, RpcError>(
            FromAddressInput::AccountUuid(uuid),
        ),
{
    let uuid = parse_uuid(fromaddress);
    let address = decode_address(network, fromaddress);
    proof {
        if uuid is Some {
            lemma_uuid_without_t(fromaddress@);
        }
    }
    classify_fromaddress(uuid, address, fromaddress)
}

/// Whether the wallet may be asked about an account that a caller named by its UUID.
pub open spec fn account_known(fromaddress: Seq<char>, found: Result<bool, String>) -> Result<(), Failure> {
    match found {
        Err(e) => Err(failure(LegacyCode::Database, e@)),
        Ok(false) => Err(failure(LegacyCode::InvalidParameter, "Unknown account UUID: "@ + fromaddress)),
        Ok(true) => Ok(()),
    }
}

/// Goes on with an account that a caller named by its UUID only if the wallet has it.
/// `found` is what the wallet database said of it.
pub fn check_account_known(fromaddress: &str, found: Result<bool, String>) -> (r: RpcResult<()>)
    ensures
        outcome(r) == account_known(fromaddress@, found),
{
    match found {
        Err(e) => Err(LegacyCode::Database.with_message(e)),
        Ok(known) => if known {
            Ok(())
        } else {
            Err(LegacyCode::InvalidParameter.with_message(joined("Unknown account UUID: ", fromaddress)))
        },
    }
}

/// An account, and the transparent addresses to draw coinbase UTXOs from.
#[derive(Debug, PartialEq, Eq)]
pub struct ResolvedSource {
    /// The source account.
    pub account_id: u128,
    /// Its source addresses.
    pub from_addrs: Vec<TransparentAddress>,
}

/// The source that an account UUID resolves to: every transparent receiver of the account.
/// `receivers` is what the wallet database listed.
pub fn resolve_account(account_id: u128, receivers: Result<Vec<TransparentAddress>, String>) -> (r: RpcResult<
    ResolvedSource,
>)
    ensures
        match (r, receivers) {
            (Ok(source), Ok(addrs)) => source.account_id == account_id && source.from_addrs == addrs,
            (Err(e), Err(text)) => e@ == failure(LegacyCode::Database, text@),
            _ => false,
        },
{
    match receivers {
        Err(e) => Err(LegacyCode::Database.with_message(e)),
        Ok(from_addrs) => Ok(ResolvedSource { account_id, from_addrs }),
    }
}

/// The source that a transparent address resolves to: the account that owns the address,
/// and that address alone. `owner` is what the wallet database said of the address.
pub fn resolve_address(addr: TransparentAddress, fromaddress: &str, owner: Result<Option<u128>, String>) -> (r:
    RpcResult<ResolvedSource>)
    ensures
        match owner {
            Ok(Some(account_id)) => r matches Ok(source) && source.account_id == account_id
                && source.from_addrs@ == seq![addr],
            Ok(None) => r matches Err(e) && e@ == failure(
                LegacyCode::InvalidAddressOrKey,
                "Transparent address is not owned by any account in this wallet: "@ + fromaddress@,
            ),
            Err(text) => r matches Err(e) && e@ == failure(LegacyCode::Database, text@),
        },
{
    match owner {
        Err(e) => Err(LegacyCode::Database.with_message(e)),
        Ok(None) => Err(
            LegacyCode::InvalidAddressOrKey.with_message(
                joined("Transparent address is not owned by any account in this wallet: ", fromaddress),
            ),
        ),
        Ok(Some(account_id)) => {
            let mut from_addrs: Vec<TransparentAddress> = Vec::new();
            from_addrs.push(addr);
            assert(from_addrs@ =~= seq![addr]);
            Ok(ResolvedSource { account_id, from_addrs })
        },
    }
}

} // verus!
