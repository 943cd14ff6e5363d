//! What holds of the method as a whole.
pub mod course;
pub mod imported;
pub mod money;
pub mod reading;
pub mod source;

use vstd::prelude::*;
use vstd::seq_lib::{lemma_multiset_commutative, to_multiset_contains, to_multiset_len, to_multiset_remove};
use zcash_keys::keys::UnifiedSpendingKey;

use crate::address::{paid_address, Address, NetworkType, TransparentAddress};
use crate::amount::Zatoshis;
use crate::call::{
    every_receiver, is_proposal_request, spendable_coinbase, AccountFetch, AccountLookup, AccountRecord, Counted,
    EligibleScan, FeeRule, KeyFetch, OvkPolicy, OwnerLookup, PolicyCheck, Prepared, ProposalRequest, ProposalSummary,
    Proposing, ReceiverSources, ReceiversLookup, SeedFetch,
};
use crate::error::{Failure, LegacyCode, RpcResult};
use crate::fromaddress::{classified, FromAddressInput};
use crate::inputs::{
    all_inputs, eligible_values, input_values, lemma_total_value_concat, saturated, total_value, totals_of,
    TransparentInput,
};
use crate::keys::{
    answered_in_turn, derived_spending_key, handed_out, lemma_keys_for_standalone_inputs, standalone_set,
    KeyStoreError, Receiver,
};
use crate::laws::imported::{lemma_answered_in_turn, lemma_first_failure, lemma_key_under_its_address};
use crate::params::{is_request, memo_bytes, request_failure, Request};
use crate::preflight::{is_preflight, preflight_failure, Preflight};

verus! {

/// The order in which amounts are added does not matter.
pub proof fn lemma_total_value_permutation(a: Seq<Zatoshis>, b: Seq<Zatoshis>)
    requires
        a.to_multiset() == b.to_multiset(),
    ensures
        a.len() == b.len(),
        total_value(a) == total_value(b),
    decreases a.len(),
{
    to_multiset_len(a);
    to_multiset_len(b);
    if a.len() > 0 {
        let x = a.last();
        assert(a[a.len() - 1] == x);
        to_multiset_contains(a, x);
        to_multiset_contains(b, x);
        let j = choose|j: int| 0 <= j < b.len() && b[j] == x;
        to_multiset_remove(a, a.len() - 1);
        to_multiset_remove(b, j);
        assert(a.remove(a.len() - 1) =~= a.drop_last());
        lemma_total_value_permutation(a.drop_last(), b.remove(j));
        let head = b.take(j);
        let tail = b.skip(j + 1);
        assert(b.remove(j) =~= head + tail);
        assert(b =~= head.push(x) + tail);
        lemma_total_value_concat(head, tail);
        lemma_total_value_concat(head.push(x), tail);
        assert(head.push(x).drop_last() =~= head);
    }
}

/// What is reported as remaining are the eligible UTXOs that were not selected, in number
/// and in value; and as long as what was selected is among what was eligible, there is
/// nothing wrong to report.
pub proof fn lemma_remaining_is_unselected(
    selected: Seq<Zatoshis>,
    unselected: Seq<Zatoshis>,
    eligible: Seq<Zatoshis>,
    p: Preflight,
)
    requires
        eligible.to_multiset() == selected.to_multiset().add(unselected.to_multiset()),
        eligible.len() <= u64::MAX,
    ensures
        preflight_failure(totals_of(selected), totals_of(eligible)) is None,
        is_preflight(p, totals_of(selected), totals_of(eligible)) ==> {
            &&& p.shielding_utxos == selected.len()
            &&& p.shielding_value@ == total_value(selected)
            &&& p.remaining_utxos == unselected.len()
            &&& p.remaining_value@ == total_value(unselected)
        },
{
    lemma_multiset_commutative(selected, unselected);
    lemma_total_value_permutation(eligible, selected + unselected);
    lemma_total_value_concat(selected, unselected);
}

/// A caller who gives a fee or a privacy policy is told that the parameter is invalid,
/// whatever the other parameters are.
pub proof fn lemma_fee_and_policy_refused<J>(
    fee: Option<J>,
    privacy_policy: Option<String>,
    toaddress: Seq<char>,
    to_readable: bool,
    memo: Option<String>,
    source: Result<FromAddressInput, Failure>,
)
    requires
        fee is Some || privacy_policy is Some,
    ensures
        request_failure(fee, privacy_policy, toaddress, to_readable, memo, source) matches Some(f) && f.code
            == LegacyCode::InvalidParameter,
{
}

/// What a proposal is asked for is what the caller asked for: the destination, the limit
/// and the memo are handed on unchanged, no amount is too small to be shielded, and the fee
/// is computed here.
pub proof fn lemma_proposal_as_asked(
    proposal: ProposalRequest,
    request: Request,
    network: NetworkType,
    fromaddress: String,
    toaddress: String,
    limit: Option<u32>,
    memo: Option<String>,
    source: FromAddressInput,
    from_addrs: Vec<TransparentAddress>,
)
    requires
        is_request(request, network, fromaddress, toaddress, limit, memo, source),
        is_proposal_request(proposal, request, from_addrs),
    ensures
        proposal.fee_rule == FeeRule::Zip317,
        proposal.shielding_threshold@ == 0,
        proposal.from_addrs == from_addrs,
        proposal.to_address@ == toaddress@,
        proposal.limit is Some <==> limit is Some,
        limit matches Some(n) ==> proposal.limit == Some(n as usize),
        proposal.memo is Some <==> memo is Some,
        memo matches Some(text) ==> memo_bytes(text@) == Some(proposal.memo->0@),
{
}

/// A refused source is blamed on the address where it is an address of the network, of
/// another kind, and on the parameter otherwise.
pub proof fn lemma_refused_source_code(uuid: Option<u128>, address: Option<Address>, fromaddress: Seq<char>)
    ensures
        match classified(uuid, address, fromaddress) {
            Ok(_) => uuid is Some || (address matches Some(Address::Transparent(_))),
            Err(f) => uuid is None && !(address matches Some(Address::Transparent(_))) && f.code == if address
                is Some {
                LegacyCode::InvalidAddressOrKey
            } else {
                LegacyCode::InvalidParameter
            },
        },
{
}

/// A source that is an account stands for every transparent receiver that the wallet lists
/// for that account, and for no account that the wallet does not have.
pub proof fn lemma_account_source(
    lookup: AccountLookup,
    found: Result<bool, String>,
    listing: ReceiversLookup,
    receivers: Result<Vec<TransparentAddress>, String>,
    fetch: AccountFetch,
)
    requires
        lookup.moves_to(found, Ok(listing)),
        listing.moves_to(receivers, Ok(fetch)),
    ensures
        found == Ok::<bool, String>(true),
        listing.query == every_receiver(lookup.account_id),
        fetch.request == lookup.request,
        fetch.source.account_id == lookup.account_id,
        receivers == Ok::<Vec<TransparentAddress>, String>(fetch.source.from_addrs),
        fetch.source.from_addrs@.len() > 0,
{
}

/// A source that is a transparent address stands for that address alone, in the account that
/// owns it.
pub proof fn lemma_address_source(lookup: OwnerLookup, owner: Result<Option<u128>, String>, fetch: AccountFetch)
    requires
        lookup.moves_to(owner, Ok(fetch)),
    ensures
        owner == Ok::<Option<u128>, String>(Some(fetch.source.account_id)),
        fetch.request == lookup.request,
        fetch.source.from_addrs@ == seq![lookup.address],
{
}

/// A call that got ready, with all the answers that it was given on the way, from the record
/// of its source account on.
pub struct Course<K> {
    pub fetch: AccountFetch,
    pub account: Result<Option<AccountRecord>, String>,
    pub proposing: Proposing,
    pub proposed: Result<ProposalSummary, String>,
    pub check: PolicyCheck,
    pub checked: RpcResult<()>,
    pub scan: EligibleScan,
    pub lookups: Seq<Result<Vec<Zatoshis>, String>>,
    pub counted: Counted,
    pub seed_fetch: SeedFetch,
    pub seed: Result<Seq<u8>, KeyStoreError>,
    pub sources: ReceiverSources,
    pub receivers: Result<Vec<Receiver>, String>,
    pub key_fetch: KeyFetch,
    pub keys: Seq<Result<K, KeyStoreError>>,
    pub ready: Prepared<K>,
}

impl<K> Course<K> {
    /// Whether each step follows from the one before and the answer to it, and each question
    /// of a step was asked, up to the first that failed.
    pub open spec fn wf(self) -> bool {
        &&& self.fetch.moves_to(self.account, Ok(self.proposing))
        &&& self.proposing.moves_to(self.proposed, Ok(self.check))
        &&& self.check.moves_to(self.checked, Ok(self.scan))
        &&& answered_in_turn(self.scan.from_addrs@.len(), self.lookups)
        &&& self.scan.moves_to(self.lookups, Ok(self.counted))
        &&& self.counted.moves_to(Ok(self.seed_fetch))
        &&& self.seed_fetch.moves_to(self.seed, Ok(self.sources))
        &&& self.sources.moves_to(self.receivers, Ok(self.key_fetch))
        &&& answered_in_turn(self.key_fetch.needed@.len(), self.keys)
        &&& self.key_fetch.moves_to(self.keys, Ok(self.ready))
    }

    /// The inputs of the proposal.
    pub open spec fn inputs(self) -> Seq<TransparentInput> {
        all_inputs(self.proposed->Ok_0.steps@)
    }
}

/// What holds of every call that gets ready:
/// * it is shown with the parameters that it was made with;
/// * its source addresses are those that it asked to be shielded, and spendable coinbase
///   UTXOs were counted at each of them;
/// * it reports the number and the value of the inputs of its proposal, and what is reported
///   as remaining adds up with that to what the database listed;
/// * its spending key is derived from the seed that was handed out, on the wallet's network,
///   with the index on record for its account;
/// * it has a key besides that for exactly the imported addresses that an input spends from,
///   out of every receiver of the account, and each key that was handed out stands under the
///   address that it was asked for, in the order of asking;
/// * its sender can read the outgoing side of the transaction.
pub proof fn lemma_prepared_call<K>(course: Course<K>, address: TransparentAddress)
    requires
        course.wf(),
    ensures
        course.ready.context == course.fetch.request.context,
        course.scan.from_addrs == course.fetch.source.from_addrs,
        course.lookups.len() == course.fetch.source.from_addrs@.len(),
        course.scan.query == spendable_coinbase(course.proposed->Ok_0.min_target_height),
        course.proposing.proposal.from_addrs == course.fetch.source.from_addrs,
        course.ready.preflight.shielding_utxos == saturated(course.inputs().len()),
        course.ready.preflight.shielding_value@ == total_value(input_values(course.inputs())),
        eligible_values(course.lookups) matches Ok(values) && {
            &&& course.ready.preflight.shielding_utxos + course.ready.preflight.remaining_utxos == saturated(
                values.len(),
            )
            &&& course.ready.preflight.shielding_value@ + course.ready.preflight.remaining_value@ == total_value(values)
        },
        course.account matches Ok(Some(record)) && record.derivation matches Some(derivation) && {
            &&& course.seed_fetch.derivation == derivation
            &&& course.seed is Ok
            &&& derived_spending_key(course.fetch.request.network, course.seed->Ok_0, derivation.index()) == Ok::<
                UnifiedSpendingKey,
                Seq<char>,
            >(course.ready.spending_key)
        },
        course.sources.query == every_receiver(course.fetch.source.account_id),
        course.keys.len() == course.key_fetch.needed@.len(),
        forall|i: int|
            0 <= i < course.keys.len() ==> {
                let address = #[trigger] course.key_fetch.needed@[i];
                let held = course.ready.standalone_keys@[address];
                let before = course.key_fetch.needed@.take(i).to_multiset().count(address);
                &&& held.len() == course.key_fetch.needed@.to_multiset().count(address)
                &&& before < held.len()
                &&& course.keys[i] == Ok::<K, KeyStoreError>(held[before as int])
            },
        course.ready.ovk_policy == OvkPolicy::Sender,
        course.receivers matches Ok(listed) && (course.ready.standalone_keys@.dom().contains(address) <==> (
        standalone_set(listed@).contains(address) && exists|i: int|
            0 <= i < course.inputs().len() && paid_address((#[trigger] course.inputs()[i]).script_pubkey@) == Some(
                address,
            ))),
{
    let listed = course.receivers->Ok_0;
    lemma_keys_for_standalone_inputs(course.inputs(), listed@, handed_out(course.keys), address);
    let needed = course.key_fetch.needed@;
    lemma_first_failure(course.keys);
    lemma_answered_in_turn(needed.len(), course.keys);
    assert forall|i: int| 0 <= i < course.keys.len() implies {
        let address = #[trigger] course.key_fetch.needed@[i];
        let held = course.ready.standalone_keys@[address];
        let before = course.key_fetch.needed@.take(i).to_multiset().count(address);
        &&& held.len() == course.key_fetch.needed@.to_multiset().count(address)
        &&& before < held.len()
        &&& course.keys[i] == Ok::<K, KeyStoreError>(held[before as int])
    } by {
        lemma_key_under_its_address(needed, handed_out(course.keys), i);
        assert(course.keys[i] is Ok);
    }
}

} // verus!
