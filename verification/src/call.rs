//! The course of a call.
//!
//! A call alternates between decisions and work that only the wallet can do: looking things
//! up in its database, proposing a transaction, handing out secrets. Each type here is a
//! call that waits for the wallet to do one such thing. Its fields say what the wallet is
//! asked, and its method `answered` takes what came of it and says how the call goes on.
use vstd::prelude::*;
use zcash_keys::keys::UnifiedSpendingKey;

use crate::account::{format_uuid, uuid_text, uuid_value};
use crate::address::{decoded_address, zcash_address_readable, Address, NetworkType, TransparentAddress};
use crate::amount::{Zatoshis, MAX_MONEY};
use crate::error::{failure, Failure, LegacyCode, RpcError, RpcResult};
use crate::fromaddress::{
    account_known, check_account_known, resolve_account, resolve_address, FromAddressInput, ResolvedSource,
};
use crate::inputs::{
    all_inputs, eligible_values, enumerate_eligible, input_values, selected_overflow, sum_selected_inputs,
    total_value, totals_of, ProposalStep,
};
use crate::keys::{
    answered_in_turn, collect_standalone_keys, derive_spending_key, derived_spending_key, first_failure, handed_out,
    key_store_failure, keys_by_address, needed_keys, standalone_keys_needed, KeyStoreError, Receiver, StandaloneKeys,
};
use crate::params::{is_request, request_failure, source_of, ContextInfo, Request};
use crate::preflight::{is_preflight, preflight_failure, Preflight, UtxoTotals};
use crate::text::joined;

verus! {

/// A call whose source is to be resolved.
pub enum SourceLookup {
    /// The source is an account.
    Account(AccountLookup),
    /// The source is a transparent address.
    Owner(OwnerLookup),
}

/// Waits for the wallet to say whether it has an account.
pub struct AccountLookup {
    /// The call.
    pub request: Request,
    /// The account.
    pub account_id: u128,
}

/// Which transparent receivers the wallet is to list.
#[derive(Clone, Copy, Debug, PartialEq, Eq, Structural)]
pub struct ReceiverQuery {
    /// The account whose receivers they are.
    pub account_id: u128,
    /// Whether change addresses are listed too.
    pub include_change: bool,
    /// Whether imported addresses are listed too.
    pub include_standalone: bool,
}

/// The query for every transparent receiver of an account.
pub open spec fn every_receiver(account_id: u128) -> ReceiverQuery {
    ReceiverQuery { account_id, include_change: true, include_standalone: true }
}

impl ReceiverQuery {
    /// The query for every transparent receiver of an account.
    pub fn every(account_id: u128) -> (r: ReceiverQuery)
        ensures
            r == every_receiver(account_id),
    {
        ReceiverQuery { account_id, include_change: true, include_standalone: true }
    }
}

/// Waits for the wallet to list the transparent receivers of an account.
pub struct ReceiversLookup {
    /// The call.
    pub request: Request,
    /// What is to be listed.
    pub query: ReceiverQuery,
}

/// Waits for the wallet to say which account a transparent address belongs to.
pub struct OwnerLookup {
    /// The call.
    pub request: Request,
    /// The address.
    pub address: TransparentAddress,
}

/// How an account's keys are derived from a seed.
#[derive(Debug, PartialEq, Eq)]
pub struct KeyDerivation {
    seed_fingerprint: [u8; 32],
    account_index: u32,
}

impl KeyDerivation {
    #[verifier::type_invariant]
    spec fn wf(self) -> bool {
        self.account_index < 0x8000_0000
    }

    /// The fingerprint of the seed.
    pub closed spec fn fingerprint(self) -> [u8; 32] {
        self.seed_fingerprint
    }

    /// The index of the account.
    pub closed spec fn index(self) -> u32 {
        self.account_index
    }

    /// The derivation from the seed with the given fingerprint, for the account with the
    /// given index; nothing where the index has more than 31 bits.
    pub fn new(seed_fingerprint: [u8; 32], account_index: u32) -> (r: Option<KeyDerivation>)
        ensures
            r is Some <==> account_index < 0x8000_0000,
            r matches Some(d) ==> d.fingerprint() == seed_fingerprint && d.index() == account_index,
    {
        if account_index < 0x8000_0000 {
            Some(KeyDerivation { seed_fingerprint, account_index })
        } else {
            None
        }
    }

    /// The fingerprint of the seed.
    pub fn seed_fingerprint(&self) -> (r: [u8; 32])
        ensures
            r == self.fingerprint(),
    {
        self.seed_fingerprint
    }

    /// The index of the account.
    pub fn account_index(&self) -> (r: u32)
        ensures
            r == self.index(),
            r < 0x8000_0000,
    {
        proof {
            use_type_invariant(self);
        }
        self.account_index
    }
}

/// What the call needs to know of an account.
#[derive(Debug, PartialEq, Eq)]
pub struct AccountRecord {
    /// How the account's keys are derived, where the wallet can derive them.
    pub derivation: Option<KeyDerivation>,
}

/// Waits for the wallet's record of the source account.
pub struct AccountFetch {
    /// The call.
    pub request: Request,
    /// The account and its source addresses.
    pub source: ResolvedSource,
}

/// How the fee of a transaction is computed.
#[derive(Clone, Copy, Debug, PartialEq, Eq, Structural)]
pub enum FeeRule {
    /// The conventional fee of ZIP 317.
    Zip317,
}

/// What is asked of a shielding proposal.
#[derive(Debug, PartialEq, Eq)]
pub struct ProposalRequest {
    /// How the fee is computed.
    pub fee_rule: FeeRule,
    /// The smallest total worth shielding: nothing, so that everything available is shielded.
    pub shielding_threshold: Zatoshis,
    /// The addresses whose coinbase UTXOs are to be spent.
    pub from_addrs: Vec<TransparentAddress>,
    /// The destination, which can be read as an address.
    pub to_address: String,
    /// The memo for the payment.
    pub memo: Option<Vec<u8>>,
    /// The largest number of UTXOs to spend.
    pub limit: Option<usize>,
}

/// A call whose source account is known.
pub struct ActiveCall {
    /// The network of the wallet.
    pub network: NetworkType,
    /// What is shown of the call.
    pub context: ContextInfo,
    /// The source account.
    pub account_id: u128,
    /// The wallet's record of it.
    pub account: AccountRecord,
}

/// Waits for the wallet to propose a shielding transaction.
pub struct Proposing {
    /// The call.
    pub call: ActiveCall,
    /// What is asked for.
    pub proposal: ProposalRequest,
}

/// What the call needs to know of a proposal.
#[derive(Debug, PartialEq, Eq)]
pub struct ProposalSummary {
    /// What the steps spend.
    pub steps: Vec<ProposalStep>,
    /// The first block that the transaction can be mined in.
    pub min_target_height: u32,
}

/// What a transaction may reveal.
#[derive(Clone, Copy, Debug, PartialEq, Eq, Structural)]
pub enum PrivacyPolicy {
    /// It may reveal the senders and link addresses of the account on chain.
    AllowLinkingAccountAddresses,
}

/// Waits for the wallet to hold the proposal to a privacy policy.
pub struct PolicyCheck {
    /// The call.
    pub call: ActiveCall,
    /// The source addresses.
    pub from_addrs: Vec<TransparentAddress>,
    /// The proposal.
    pub proposal: ProposalSummary,
    /// The policy.
    pub policy: PrivacyPolicy,
}

/// How deep in the chain an output has to be.
#[derive(Clone, Copy, Debug, PartialEq, Eq, Structural)]
pub enum ConfirmationsPolicy {
    /// As deep as the wallet asks for at the least.
    Min,
}

/// Which transparent outputs count.
#[derive(Clone, Copy, Debug, PartialEq, Eq, Structural)]
pub enum TransparentOutputFilter {
    /// Only those of coinbase transactions.
    CoinbaseOnly,
}

/// Which spendable outputs the wallet is to list.
#[derive(Clone, Copy, Debug, PartialEq, Eq, Structural)]
pub struct OutputQuery {
    /// The block that they are to be spendable in.
    pub target_height: u32,
    /// How deep in the chain they have to be.
    pub confirmations: ConfirmationsPolicy,
    /// Which of them count.
    pub filter: TransparentOutputFilter,
}

/// The query for the coinbase outputs that are spendable in a block.
pub open spec fn spendable_coinbase(target_height: u32) -> OutputQuery {
    OutputQuery {
        target_height,
        confirmations: ConfirmationsPolicy::Min,
        filter: TransparentOutputFilter::CoinbaseOnly,
    }
}

/// Waits for the wallet to list the spendable coinbase UTXOs at each of the source
/// addresses in turn.
pub struct EligibleScan {
    /// The call.
    pub call: ActiveCall,
    /// The source addresses.
    pub from_addrs: Vec<TransparentAddress>,
    /// What is to be listed at each of them.
    pub query: OutputQuery,
    /// What the steps of the proposal spend.
    pub steps: Vec<ProposalStep>,
    /// What the proposal selected.
    pub selected: UtxoTotals,
}

/// A call whose numbers are known.
pub struct Counted {
    /// The call.
    pub call: ActiveCall,
    /// What the steps of the proposal spend.
    pub steps: Vec<ProposalStep>,
    /// The numbers to report.
    pub preflight: Preflight,
}

/// Waits for the key store to hand out a seed.
pub struct SeedFetch {
    /// The network of the wallet.
    pub network: NetworkType,
    /// What is shown of the call.
    pub context: ContextInfo,
    /// The source account.
    pub account_id: u128,
    /// Which seed, and for which account.
    pub derivation: KeyDerivation,
    /// What the steps of the proposal spend.
    pub steps: Vec<ProposalStep>,
    /// The numbers to report.
    pub preflight: Preflight,
}

/// Waits for the wallet to list the transparent receivers of the source account, with where
/// their keys come from.
pub struct ReceiverSources {
    /// What is shown of the call.
    pub context: ContextInfo,
    /// What is to be listed.
    pub query: ReceiverQuery,
    /// What the steps of the proposal spend.
    pub steps: Vec<ProposalStep>,
    /// The numbers to report.
    pub preflight: Preflight,
    /// The account's spending key.
    pub spending_key: UnifiedSpendingKey,
}

/// Waits for the key store to hand out the keys of imported addresses, one after the other.
pub struct KeyFetch {
    /// What is shown of the call.
    pub context: ContextInfo,
    /// The numbers to report.
    pub preflight: Preflight,
    /// The account's spending key.
    pub spending_key: UnifiedSpendingKey,
    /// The addresses.
    pub needed: Vec<TransparentAddress>,
}

/// Who can read the outgoing side of a transaction.
#[derive(Clone, Copy, Debug, PartialEq, Eq, Structural)]
pub enum OvkPolicy {
    /// The sender.
    Sender,
}

/// A call that is ready: what its caller is told, and the keys to build the transaction
/// with.
pub struct Prepared<K> {
    /// The numbers to report.
    pub preflight: Preflight,
    /// What is shown of the call.
    pub context: ContextInfo,
    /// The account's spending key.
    pub spending_key: UnifiedSpendingKey,
    /// The keys of imported addresses.
    pub standalone_keys: StandaloneKeys<K>,
    /// Who is to be able to read the outgoing side of the transaction.
    pub ovk_policy: OvkPolicy,
}

/// Starts a call: accepts or refuses its parameters, and asks what its source is.
pub fn call<J>(
    network: NetworkType,
    fromaddress: String,
    toaddress: String,
    fee: &Option<J>,
    limit: Option<u32>,
    memo: &Option<String>,
    privacy_policy: &Option<String>,
) -> (r: RpcResult<SourceLookup>)
    ensures
        match r {
            Ok(lookup) => request_failure(
                *fee,
                *privacy_policy,
                toaddress@,
                zcash_address_readable(toaddress@),
                *memo,
                source_of(network, fromaddress@),
            ) is None && is_request(
                lookup.request(),
                network,
                fromaddress,
                toaddress,
                limit,
                *memo,
                source_of(network, fromaddress@)->Ok_0,
            ) && lookup.source() == lookup.request().source,
            Err(e) => request_failure(
                *fee,
                *privacy_policy,
                toaddress@,
                zcash_address_readable(toaddress@),
                *memo,
                source_of(network, fromaddress@),
            ) == Some(e@),
        },
        uuid_value(fromaddress@) is Some ==> !(decoded_address(network, fromaddress@) matches Some(
            Address::Transparent(_),
        )),
{
    match Request::new(network, fromaddress, toaddress, fee, limit, memo, privacy_policy) {
        Ok(request) => Ok(resolve_fromaddress(request)),
        Err(e) => Err(e),
    }
}

impl SourceLookup {
    /// The call.
    pub open spec fn request(self) -> Request {
        match self {
            SourceLookup::Account(lookup) => lookup.request,
            SourceLookup::Owner(lookup) => lookup.request,
        }
    }

    /// What the wallet is asked about.
    pub open spec fn source(self) -> FromAddressInput {
        match self {
            SourceLookup::Account(lookup) => FromAddressInput::AccountUuid(lookup.account_id),
            SourceLookup::Owner(lookup) => FromAddressInput::TransparentAddress(lookup.address),
        }
    }
}

/// Asks for the source account and the transparent addresses to draw coinbase UTXOs from.
///
/// Accepted shapes:
/// * a wallet-owned transparent address: selects only that address.
/// * an account UUID: selects every transparent receiver in that account.
pub fn resolve_fromaddress(request: Request) -> (r: SourceLookup)
    ensures
        r.request() == request,
        r.source() == request.source,
{
    match request.source {
        FromAddressInput::AccountUuid(account_id) => SourceLookup::Account(AccountLookup { request, account_id }),
        FromAddressInput::TransparentAddress(address) => SourceLookup::Owner(OwnerLookup { request, address }),
    }
}

impl AccountLookup {
    /// How the call goes on, given whether the database has the account.
    pub open spec fn moves_to(self, found: Result<bool, String>, r: RpcResult<ReceiversLookup>) -> bool {
        match (r, account_known(self.request.context.fromaddress@, found)) {
            (Ok(next), Ok(_)) => next == (ReceiversLookup {
                request: self.request,
                query: every_receiver(self.account_id),
            }),
            (Err(e), Err(f)) => e@ == f,
            _ => false,
        }
    }

    /// Goes on where the wallet has the account. `found` is what the database said.
    pub fn answered(self, found: Result<bool, String>) -> (r: RpcResult<ReceiversLookup>)
        ensures
            self.moves_to(found, r),
    {
        match check_account_known(self.request.context.fromaddress.as_str(), found) {
            Ok(_) => Ok(ReceiversLookup { request: self.request, query: ReceiverQuery::every(self.account_id) }),
            Err(e) => Err(e),
        }
    }
}

/// What is reported where a source has no address.
pub open spec fn no_source_addresses() -> Failure {
    failure(LegacyCode::InvalidParameter, "No source transparent addresses resolved from `fromaddress`."@)
}

/// Goes on with a resolved source that has an address.
pub fn check_source(request: Request, source: ResolvedSource) -> (r: RpcResult<AccountFetch>)
    ensures
        match r {
            Ok(next) => source.from_addrs@.len() > 0 && next == (AccountFetch { request, source }),
            Err(e) => source.from_addrs@.len() == 0 && e@ == no_source_addresses(),
        },
{
    if source.from_addrs.len() == 0 {
        Err(
            LegacyCode::InvalidParameter.with_static(
                "No source transparent addresses resolved from `fromaddress`.",
            ),
        )
    } else {
        Ok(AccountFetch { request, source })
    }
}

impl ReceiversLookup {
    /// How the call goes on, given the receivers that the database listed.
    pub open spec fn moves_to(
        self,
        receivers: Result<Vec<TransparentAddress>, String>,
        r: RpcResult<AccountFetch>,
    ) -> bool {
        match receivers {
            Err(text) => r matches Err(e) && e@ == failure(LegacyCode::Database, text@),
            Ok(addrs) => if addrs@.len() == 0 {
                r matches Err(e) && e@ == no_source_addresses()
            } else {
                r matches Ok(next) && next.request == self.request && next.source.account_id
                    == self.query.account_id && next.source.from_addrs == addrs
            },
        }
    }

    /// Goes on with all the transparent receivers of the account, where it has any.
    /// `receivers` is what the database listed.
    pub fn answered(self, receivers: Result<Vec<TransparentAddress>, String>) -> (r: RpcResult<AccountFetch>)
        ensures
            self.moves_to(receivers, r),
    {
        match resolve_account(self.query.account_id, receivers) {
            Ok(source) => check_source(self.request, source),
            Err(e) => Err(e),
        }
    }
}

impl OwnerLookup {
    /// How the call goes on, given whose the address is.
    pub open spec fn moves_to(self, owner: Result<Option<u128>, String>, r: RpcResult<AccountFetch>) -> bool {
        match owner {
            Err(text) => r matches Err(e) && e@ == failure(LegacyCode::Database, text@),
            Ok(None) => r matches Err(e) && e@ == failure(
                LegacyCode::InvalidAddressOrKey,
                "Transparent address is not owned by any account in this wallet: "@
                    + self.request.context.fromaddress@,
            ),
            Ok(Some(account_id)) => r matches Ok(next) && next.request == self.request
                && next.source.account_id == account_id && next.source.from_addrs@ == seq![self.address],
        }
    }

    /// Goes on with the account that owns the address, and with the address alone. `owner`
    /// is what the database said.
    pub fn answered(self, owner: Result<Option<u128>, String>) -> (r: RpcResult<AccountFetch>)
        ensures
            self.moves_to(owner, r),
    {
        match resolve_address(self.address, self.request.context.fromaddress.as_str(), owner) {
            Ok(source) => check_source(self.request, source),
            Err(e) => Err(e),
        }
    }
}

/// What is reported where the source account has disappeared from the wallet.
pub open spec fn account_vanished(account_id: u128) -> Failure {
    failure(
        LegacyCode::Database,
        "Account vanished mid-call: AccountUuid("@ + uuid_text(account_id) + ")"@,
    )
}

/// Whether this is what is asked of the proposal for a call: to shield everything at the
/// source addresses to the destination, with the memo, within the limit.
pub open spec fn is_proposal_request(
    proposal: ProposalRequest,
    request: Request,
    from_addrs: Vec<TransparentAddress>,
) -> bool {
    &&& proposal.fee_rule == FeeRule::Zip317
    &&& proposal.shielding_threshold@ == 0
    &&& proposal.from_addrs == from_addrs
    &&& proposal.to_address@ == request.context.toaddress@
    &&& proposal.memo == request.memo
    &&& proposal.limit is Some <==> request.context.limit is Some
    &&& proposal.limit matches Some(n) ==> n == request.context.limit->0
}

impl AccountFetch {
    /// How the call goes on, given the record of the account.
    pub open spec fn moves_to(self, account: Result<Option<AccountRecord>, String>, r: RpcResult<Proposing>) -> bool {
        match account {
            Err(text) => r matches Err(e) && e@ == failure(LegacyCode::Database, text@),
            Ok(None) => r matches Err(e) && e@ == account_vanished(self.source.account_id),
            Ok(Some(record)) => r matches Ok(next) && next.call == (ActiveCall {
                network: self.request.network,
                context: self.request.context,
                account_id: self.source.account_id,
                account: record,
            }) && is_proposal_request(next.proposal, self.request, self.source.from_addrs),
        }
    }

    /// Asks for a proposal, where the wallet still has the account. `account` is what the
    /// database said.
    pub fn answered(self, account: Result<Option<AccountRecord>, String>) -> (r: RpcResult<Proposing>)
        ensures
            self.moves_to(account, r),
    {
        match account {
            Err(e) => Err(LegacyCode::Database.with_message(e)),
            Ok(None) => {
                let account_id = format_uuid(self.source.account_id);
                Err(
                    LegacyCode::Database.with_message(
                        joined("Account vanished mid-call: AccountUuid(", account_id.as_str()).concat(")"),
                    ),
                )
            },
            Ok(Some(account)) => {
                let Request { network, context, memo, source: _ } = self.request;
                let limit: Option<usize> = match context.limit {
                    Some(n) => Some(n as usize),
                    None => None,
                };
                let proposal = ProposalRequest {
                    fee_rule: FeeRule::Zip317,
                    shielding_threshold: Zatoshis::zero(),
                    from_addrs: self.source.from_addrs,
                    to_address: context.toaddress.clone(),
                    memo,
                    limit,
                };
                Ok(
                    Proposing {
                        call: ActiveCall { network, context, account_id: self.source.account_id, account },
                        proposal,
                    },
                )
            },
        }
    }
}

impl Proposing {
    /// How the call goes on, given what came of proposing.
    pub open spec fn moves_to(self, proposed: Result<ProposalSummary, String>, r: RpcResult<PolicyCheck>) -> bool {
        match proposed {
            Err(text) => r matches Err(e) && e@ == failure(
                LegacyCode::Wallet,
                "Failed to propose shielding transaction: "@ + text@,
            ),
            Ok(proposal) => r matches Ok(next) && next == (PolicyCheck {
                call: self.call,
                from_addrs: self.proposal.from_addrs,
                proposal,
                policy: PrivacyPolicy::AllowLinkingAccountAddresses,
            }),
        }
    }

    /// Asks for the proposal to be held to the privacy policy. `proposed` is what came of
    /// proposing.
    ///
    /// Shielding always reveals the transparent senders. Where an account has several
    /// receivers, the transaction also links them on chain, so that has to be allowed too.
    pub fn answered(self, proposed: Result<ProposalSummary, String>) -> (r: RpcResult<PolicyCheck>)
        ensures
            self.moves_to(proposed, r),
    {
        match proposed {
            Err(e) => Err(
                LegacyCode::Wallet.with_message(joined("Failed to propose shielding transaction: ", e.as_str())),
            ),
            Ok(proposal) => Ok(
                PolicyCheck {
                    call: self.call,
                    from_addrs: self.proposal.from_addrs,
                    proposal,
                    policy: PrivacyPolicy::AllowLinkingAccountAddresses,
                },
            ),
        }
    }
}

impl PolicyCheck {
    /// How the call goes on, given what came of the check.
    pub open spec fn moves_to(self, checked: RpcResult<()>, r: RpcResult<EligibleScan>) -> bool {
        match (checked, r) {
            (Err(refused), _) => r == Err::<EligibleScan, RpcError>(refused),
            (Ok(_), Ok(next)) => next.call == self.call && next.from_addrs == self.from_addrs && next.query
                == spendable_coinbase(self.proposal.min_target_height) && next.steps == self.proposal.steps
                && next.selected@ == totals_of(input_values(all_inputs(self.proposal.steps@)))
                && total_value(input_values(all_inputs(self.proposal.steps@))) <= MAX_MONEY,
            (Ok(_), Err(e)) => e@ == selected_overflow() && total_value(
                input_values(all_inputs(self.proposal.steps@)),
            ) > MAX_MONEY,
        }
    }

    /// Counts what the proposal selected, where the policy allows the proposal, and asks what
    /// was eligible. `checked` is what came of the check.
    pub fn answered(self, checked: RpcResult<()>) -> (r: RpcResult<EligibleScan>)
        ensures
            self.moves_to(checked, r),
    {
        match checked {
            Err(e) => Err(e),
            Ok(_) => match sum_selected_inputs(&self.proposal.steps) {
                Err(e) => Err(e),
                Ok(selected) => {
                    let query = OutputQuery {
                        target_height: self.proposal.min_target_height,
                        confirmations: ConfirmationsPolicy::Min,
                        filter: TransparentOutputFilter::CoinbaseOnly,
                    };
                    Ok(
                        EligibleScan {
                            call: self.call,
                            from_addrs: self.from_addrs,
                            query,
                            steps: self.proposal.steps,
                            selected,
                        },
                    )
                },
            },
        }
    }
}

impl EligibleScan {
    /// How the call goes on, given what was listed at the source addresses.
    pub open spec fn moves_to(self, lookups: Seq<Result<Vec<Zatoshis>, String>>, r: RpcResult<Counted>) -> bool {
        match eligible_values(lookups) {
            Err(f) => r matches Err(e) && e@ == f,
            Ok(values) => match r {
                Ok(next) => next.call == self.call && next.steps == self.steps && preflight_failure(
                    self.selected@,
                    totals_of(values),
                ) is None && is_preflight(next.preflight, self.selected@, totals_of(values)),
                Err(e) => preflight_failure(self.selected@, totals_of(values)) == Some(e@),
            },
        }
    }

    /// Computes the numbers to report. `lookups` is what the database listed at each of the
    /// source addresses in turn, up to its first failure.
    pub fn answered(self, lookups: &Vec<Result<Vec<Zatoshis>, String>>) -> (r: RpcResult<Counted>)
        requires
            answered_in_turn(self.from_addrs@.len(), lookups@),
        ensures
            self.moves_to(lookups@, r),
    {
        match enumerate_eligible(lookups) {
            Err(e) => Err(e),
            Ok(eligible) => match Preflight::compute(self.selected, eligible) {
                Err(e) => Err(e),
                Ok(preflight) => Ok(Counted { call: self.call, steps: self.steps, preflight }),
            },
        }
    }
}

impl Counted {
    /// How the call goes on.
    pub open spec fn moves_to(self, r: RpcResult<SeedFetch>) -> bool {
        match self.call.account.derivation {
            None => r matches Err(e) && e@ == failure(
                LegacyCode::InvalidAddressOrKey,
                "No payment source found for account "@ + uuid_text(self.call.account_id) + "."@,
            ),
            Some(derivation) => r matches Ok(next) && next == (SeedFetch {
                network: self.call.network,
                context: self.call.context,
                account_id: self.call.account_id,
                derivation,
                steps: self.steps,
                preflight: self.preflight,
            }),
        }
    }

    /// Asks for the seed of the source account, where its keys are derived from one.
    pub fn seed_fetch(self) -> (r: RpcResult<SeedFetch>)
        ensures
            self.moves_to(r),
    {
        match self.call.account.derivation {
            None => {
                let account_id = format_uuid(self.call.account_id);
                Err(
                    LegacyCode::InvalidAddressOrKey.with_message(
                        joined("No payment source found for account ", account_id.as_str()).concat("."),
                    ),
                )
            },
            Some(derivation) => Ok(
                SeedFetch {
                    network: self.call.network,
                    context: self.call.context,
                    account_id: self.call.account_id,
                    derivation,
                    steps: self.steps,
                    preflight: self.preflight,
                },
            ),
        }
    }
}

impl SeedFetch {
    /// The call with the spending key of its account.
    pub open spec fn with_key(self, spending_key: UnifiedSpendingKey) -> ReceiverSources {
        ReceiverSources {
            context: self.context,
            query: every_receiver(self.account_id),
            steps: self.steps,
            preflight: self.preflight,
            spending_key,
        }
    }

    /// How the call goes on, given the seed.
    pub open spec fn moves_to(self, seed: Result<Seq<u8>, KeyStoreError>, r: RpcResult<ReceiverSources>) -> bool {
        match seed {
            Err(failed) => r matches Err(e) && e@ == key_store_failure(failed),
            Ok(bytes) => match derived_spending_key(self.network, bytes, self.derivation.index()) {
                Err(text) => r matches Err(e) && e@ == failure(LegacyCode::InvalidAddressOrKey, text),
                Ok(key) => r == Ok::<ReceiverSources, RpcError>(self.with_key(key)),
            },
        }
    }

    /// Asks for the receivers of the source account, where its key could be derived.
    /// `derived` is what came of deriving it.
    pub fn derived(self, derived: Result<UnifiedSpendingKey, String>) -> (r: RpcResult<ReceiverSources>)
        ensures
            match derived {
                Err(text) => r matches Err(e) && e@ == failure(LegacyCode::InvalidAddressOrKey, text@),
                Ok(key) => r == Ok::<ReceiverSources, RpcError>(self.with_key(key)),
            },
    {
        match derived {
            Err(e) => Err(LegacyCode::InvalidAddressOrKey.with_message(e)),
            Ok(spending_key) => Ok(
                ReceiverSources {
                    context: self.context,
                    query: ReceiverQuery::every(self.account_id),
                    steps: self.steps,
                    preflight: self.preflight,
                    spending_key,
                },
            ),
        }
    }

    /// Derives the spending key of the source account from its seed, and asks for the
    /// receivers of the account. `seed` is what the key store answered.
    pub fn answered(self, seed: Result<&[u8], KeyStoreError>) -> (r: RpcResult<ReceiverSources>)
        requires
            seed matches Ok(bytes) ==> bytes@.len() >= 32,
        ensures
            self.moves_to(
                match seed {
                    Ok(bytes) => Ok(bytes@),
                    Err(failed) => Err(failed),
                },
                r,
            ),
    {
        match seed {
            Err(failed) => Err(failed.into_rpc()),
            Ok(bytes) => {
                let derived = derive_spending_key(self.network, bytes, self.derivation.account_index());
                self.derived(derived)
            },
        }
    }
}

impl ReceiverSources {
    /// How the call goes on, given the receivers that the database listed.
    pub open spec fn moves_to(self, receivers: Result<Vec<Receiver>, String>, r: RpcResult<KeyFetch>) -> bool {
        match receivers {
            Err(text) => r matches Err(e) && e@ == failure(LegacyCode::Database, text@),
            Ok(listed) => r matches Ok(next) && next.context == self.context && next.preflight == self.preflight
                && next.spending_key == self.spending_key && next.needed@ == needed_keys(
                all_inputs(self.steps@),
                listed@,
            ),
        }
    }

    /// Asks for the keys of the imported addresses that the proposal spends from.
    /// `receivers` is what the database listed.
    pub fn answered(self, receivers: Result<Vec<Receiver>, String>) -> (r: RpcResult<KeyFetch>)
        ensures
            self.moves_to(receivers, r),
    {
        match receivers {
            Err(e) => Err(LegacyCode::Database.with_message(e)),
            Ok(listed) => {
                let needed = standalone_keys_needed(&self.steps, &listed);
                Ok(
                    KeyFetch {
                        context: self.context,
                        preflight: self.preflight,
                        spending_key: self.spending_key,
                        needed,
                    },
                )
            },
        }
    }
}

impl KeyFetch {
    /// How the call goes on, given the keys that were handed out.
    pub open spec fn moves_to<K>(self, fetched: Seq<Result<K, KeyStoreError>>, r: RpcResult<Prepared<K>>) -> bool {
        match first_failure(fetched) {
            Some(failed) => r matches Err(e) && e@ == key_store_failure(failed),
            None => r matches Ok(ready) && ready.preflight == self.preflight && ready.context == self.context
                && ready.spending_key == self.spending_key && ready.standalone_keys@ == keys_by_address(
                self.needed@,
                handed_out(fetched),
            ) && ready.ovk_policy == OvkPolicy::Sender,
        }
    }

    /// Completes the preparation. `fetched` is what the key store answered for each of the
    /// needed addresses in turn, up to its first failure.
    pub fn answered<K>(self, fetched: Vec<Result<K, KeyStoreError>>) -> (r: RpcResult<Prepared<K>>)
        requires
            answered_in_turn(self.needed@.len(), fetched@),
        ensures
            self.moves_to(fetched@, r),
    {
        match collect_standalone_keys(&self.needed, fetched) {
            Err(e) => Err(e),
            Ok(standalone_keys) => Ok(
                Prepared {
                    preflight: self.preflight,
                    context: self.context,
                    spending_key: self.spending_key,
                    standalone_keys,
                    ovk_policy: OvkPolicy::Sender,
                },
            ),
        }
    }
}

/// What is reported where the shielding transaction could not be built.
pub open spec fn build_failure(text: Seq<char>) -> Failure {
    failure(LegacyCode::Wallet, "Failed to build shielding transaction: "@ + text)
}

/// The transactions to broadcast. `built` is what came of building them in the background:
/// the background work itself may have failed, or the building.
pub fn built_transactions<T>(built: Result<Result<T, String>, String>) -> (r: RpcResult<T>)
    ensures
        match built {
            Ok(Ok(txids)) => r == Ok::<T, RpcError>(txids),
            Ok(Err(text)) => r matches Err(e) && e@ == build_failure(text@),
            Err(text) => r matches Err(e) && e@ == build_failure(text@),
        },
{
    let failed = match built {
        Ok(Ok(txids)) => {
            return Ok(txids);
        },
        Ok(Err(e)) => e,
        Err(e) => e,
    };
    Err(LegacyCode::Wallet.with_message(joined("Failed to build shielding transaction: ", failed.as_str())))
}

} // verus!
