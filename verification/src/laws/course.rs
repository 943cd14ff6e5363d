//! How a call whose source is known goes on, step by step.
use vstd::prelude::*;
use zcash_keys::keys::UnifiedSpendingKey;

use crate::account::uuid_text;
use crate::address::TransparentAddress;
use crate::amount::Zatoshis;
use crate::call::{
    built_transactions, every_receiver, AccountFetch, AccountRecord, ConfirmationsPolicy, Counted,
    EligibleScan, FeeRule, KeyDerivation, KeyFetch, OvkPolicy, PolicyCheck, Prepared, PrivacyPolicy, ProposalSummary,
    Proposing, ReceiverQuery, ReceiverSources, SeedFetch, TransparentOutputFilter,
};
use crate::error::{LegacyCode, RpcError, RpcResult};
use crate::inputs::{all_inputs, eligible_values, found_values, input_values, saturated, total_value};
use crate::keys::{derived_spending_key, handed_out, needed_keys, KeyStoreError, Receiver};
use crate::laws::imported::{
    lemma_answered_in_turn, lemma_first_failure, lemma_key_under_its_address, lemma_single_key_under_its_address,
};
use crate::laws::money::lemma_eligible_spec;

verus! {

/// The query for every receiver is about the account, and leaves out neither change nor
/// imported addresses.
pub proof fn lemma_every_receiver(account_id: u128, r: ReceiverQuery)
    requires
        call_ensures(ReceiverQuery::every, (account_id,), r),
    ensures
        call_requires(ReceiverQuery::every, (account_id,)),
        r.account_id == account_id,
        r.include_change,
        r.include_standalone,
        r == every_receiver(account_id),
{
}

/// A derivation can be made for every index of 31 bits, and holds what it was made of.
pub proof fn lemma_derivation_reads_back(
    fingerprint: [u8; 32],
    index: u32,
    made: Option<KeyDerivation>,
    read_fingerprint: [u8; 32],
    read_index: u32,
)
    requires
        call_ensures(KeyDerivation::new, (fingerprint, index), made),
        made matches Some(d) ==> call_ensures(KeyDerivation::seed_fingerprint, (&d,), read_fingerprint)
            && call_ensures(KeyDerivation::account_index, (&d,), read_index),
    ensures
        call_requires(KeyDerivation::new, (fingerprint, index)),
        made is Some <==> index < 0x8000_0000,
        made matches Some(d) ==> {
            &&& call_requires(KeyDerivation::seed_fingerprint, (&d,))
            &&& call_requires(KeyDerivation::account_index, (&d,))
            &&& read_fingerprint == fingerprint
            &&& read_index == index
            &&& d.index() == index
        },
{
}

/// A call goes on to a proposal exactly where the wallet still has the account. It asks for
/// everything at the source addresses to be shielded to the destination, within the limit
/// and with the memo of the call, and changes nothing of the call.
pub proof fn lemma_account_fetched(
    fetch: AccountFetch,
    account: Result<Option<AccountRecord>, String>,
    r: RpcResult<Proposing>,
)
    requires
        call_ensures(AccountFetch::answered, (fetch, account), r),
    ensures
        call_requires(AccountFetch::answered, (fetch, account)),
        match account {
            Ok(Some(record)) => r matches Ok(next) && {
                &&& next.call.network == fetch.request.network
                &&& next.call.context == fetch.request.context
                &&& next.call.account_id == fetch.source.account_id
                &&& next.call.account == record
                &&& next.proposal.fee_rule == FeeRule::Zip317
                &&& next.proposal.shielding_threshold@ == 0
                &&& next.proposal.from_addrs@ == fetch.source.from_addrs@
                &&& next.proposal.to_address@ == fetch.request.context.toaddress@
                &&& next.proposal.memo == fetch.request.memo
                &&& match (next.proposal.limit, fetch.request.context.limit) {
                    (Some(n), Some(m)) => n == m,
                    (None, None) => true,
                    _ => false,
                }
            },
            Ok(None) => r matches Err(e) && e.code == LegacyCode::Database && e.message@
                == "Account vanished mid-call: AccountUuid("@ + uuid_text(fetch.source.account_id) + ")"@,
            Err(text) => r matches Err(e) && e.code == LegacyCode::Database && e.message@ == text@,
        },
{
}

/// A call goes on with exactly the proposals that were made, under the policy that lets
/// addresses of the account be linked.
pub proof fn lemma_proposed(proposing: Proposing, proposed: Result<ProposalSummary, String>, r: RpcResult<PolicyCheck>)
    requires
        call_ensures(Proposing::answered, (proposing, proposed), r),
    ensures
        call_requires(Proposing::answered, (proposing, proposed)),
        match proposed {
            Ok(proposal) => r matches Ok(next) && {
                &&& next.call == proposing.call
                &&& next.from_addrs@ == proposing.proposal.from_addrs@
                &&& next.proposal == proposal
                &&& next.policy == PrivacyPolicy::AllowLinkingAccountAddresses
            },
            Err(text) => r matches Err(e) && e.code == LegacyCode::Wallet && e.message@
                == "Failed to propose shielding transaction: "@ + text@,
        },
{
}

/// A call goes on exactly where the policy allows the proposal and what it selects can exist.
/// It has counted what was selected, each UTXO in full, and asks for the coinbase outputs
/// that are spendable in the first block that the transaction can be mined in. A refusal
/// under the policy is handed on as it is.
pub proof fn lemma_policy_checked(check: PolicyCheck, checked: RpcResult<()>, r: RpcResult<EligibleScan>)
    requires
        call_ensures(PolicyCheck::answered, (check, checked), r),
    ensures
        call_requires(PolicyCheck::answered, (check, checked)),
        checked matches Err(refused) ==> r == Err::<EligibleScan, RpcError>(refused),
        checked is Ok ==> (r is Ok <==> total_value(input_values(all_inputs(check.proposal.steps@)))
            <= 2_100_000_000_000_000),
        checked is Ok ==> match r {
            Ok(next) => {
                let inputs = all_inputs(check.proposal.steps@);
                &&& next.call == check.call
                &&& next.from_addrs@ == check.from_addrs@
                &&& next.steps@ == check.proposal.steps@
                &&& next.query.target_height == check.proposal.min_target_height
                &&& next.query.confirmations == ConfirmationsPolicy::Min
                &&& next.query.filter == TransparentOutputFilter::CoinbaseOnly
                &&& inputs.len() <= u64::MAX ==> next.selected.utxos == inputs.len()
                &&& inputs.len() > u64::MAX ==> next.selected.utxos == u64::MAX
                &&& next.selected.value@ == total_value(input_values(inputs))
            },
            Err(e) => e.code == LegacyCode::Wallet && e.message@
                == "Internal error: shielding value sum overflowed Zatoshis bounds."@,
        },
{
}

/// A call goes on exactly where every source address could be looked up, what was found can
/// exist, and no more was selected than was found. Then it reports what was selected, and
/// what was found less that.
pub proof fn lemma_scanned(scan: EligibleScan, lookups: Vec<Result<Vec<Zatoshis>, String>>, r: RpcResult<Counted>)
    requires
        lookups@.len() == scan.from_addrs@.len() || (0 < lookups@.len() < scan.from_addrs@.len() && lookups@.last()
            is Err),
        call_ensures(EligibleScan::answered, (scan, &lookups), r),
    ensures
        call_requires(EligibleScan::answered, (scan, &lookups)),
        r is Ok <==> {
            &&& forall|j: int| 0 <= j < lookups@.len() ==> (#[trigger] lookups@[j]) is Ok
            &&& total_value(found_values(lookups@)) <= 2_100_000_000_000_000
            &&& scan.selected.utxos <= saturated(found_values(lookups@).len())
            &&& scan.selected.value@ <= total_value(found_values(lookups@))
        },
        match r {
            Ok(next) => {
                let p = next.preflight;
                &&& lookups@.len() == scan.from_addrs@.len()
                &&& next.call == scan.call
                &&& next.steps@ == scan.steps@
                &&& p.shielding_utxos == scan.selected.utxos
                &&& p.shielding_value.coins * 100_000_000 + p.shielding_value.fraction == scan.selected.value@
                &&& p.shielding_value.fraction < 100_000_000
                &&& p.remaining_utxos + scan.selected.utxos == saturated(found_values(lookups@).len())
                &&& p.remaining_value.coins * 100_000_000 + p.remaining_value.fraction + scan.selected.value@
                    == total_value(found_values(lookups@))
                &&& p.remaining_value.fraction < 100_000_000
            },
            Err(e) => if eligible_values(lookups@) is Ok {
                e.code == LegacyCode::Wallet && e.message@ == if scan.selected.utxos > saturated(
                    found_values(lookups@).len(),
                ) {
                    "Internal accounting error: proposal selected more UTXOs than \
             enumeration found (likely a chain race during shielding setup)."@
                } else {
                    "Internal accounting error: proposal value exceeds enumerated total \
             (likely a chain race during shielding setup)."@
                }
            } else {
                exists|k: int|
                    {
                        &&& 0 <= k < lookups@.len()
                        &&& forall|j: int| 0 <= j < k ==> (#[trigger] lookups@[j]) is Ok
                        &&& total_value(found_values(lookups@.take(k))) <= 2_100_000_000_000_000
                        &&& match #[trigger] lookups@[k] {
                            Err(text) => e.code == LegacyCode::Database && e.message@ == text@,
                            Ok(_) => total_value(found_values(lookups@.take(k + 1))) > 2_100_000_000_000_000 && e.code
                                == LegacyCode::Wallet && e.message@
                                == "Internal error: total transparent value overflowed Zatoshis bounds."@,
                        }
                    }
            },
        },
{
    lemma_eligible_spec(lookups@);
    lemma_answered_in_turn(scan.from_addrs@.len(), lookups@);
}

/// A call goes on to the seed exactly where the keys of its account are derived from one, and
/// asks for that seed.
pub proof fn lemma_counted(counted: Counted, r: RpcResult<SeedFetch>)
    requires
        call_ensures(Counted::seed_fetch, (counted,), r),
    ensures
        call_requires(Counted::seed_fetch, (counted,)),
        match counted.call.account.derivation {
            Some(derivation) => r matches Ok(next) && {
                &&& next.network == counted.call.network
                &&& next.context == counted.call.context
                &&& next.account_id == counted.call.account_id
                &&& next.derivation == derivation
                &&& next.steps@ == counted.steps@
                &&& next.preflight == counted.preflight
            },
            None => r matches Err(e) && e.code == LegacyCode::InvalidAddressOrKey && e.message@
                == "No payment source found for account "@ + uuid_text(counted.call.account_id) + "."@,
        },
{
}

/// A call goes on with the spending key that was derived, and asks for every receiver of its
/// account; a failure to derive the key is reported with its own text.
pub proof fn lemma_key_derived(
    fetch: SeedFetch,
    derived: Result<UnifiedSpendingKey, String>,
    r: RpcResult<ReceiverSources>,
)
    requires
        call_ensures(SeedFetch::derived, (fetch, derived), r),
    ensures
        call_requires(SeedFetch::derived, (fetch, derived)),
        match derived {
            Ok(key) => r matches Ok(next) && {
                &&& next.spending_key == key
                &&& next.context == fetch.context
                &&& next.query.account_id == fetch.account_id
                &&& next.query.include_change
                &&& next.query.include_standalone
                &&& next.steps@ == fetch.steps@
                &&& next.preflight == fetch.preflight
            },
            Err(text) => r matches Err(e) && e.code == LegacyCode::InvalidAddressOrKey && e.message@ == text@,
        },
{
}

/// The spending key of a call is derived from the seed that was handed out, on the network
/// and with the index of the call; a seed that was withheld is reported as such.
pub proof fn lemma_seed_fetched(
    fetch: SeedFetch,
    bytes: &[u8],
    failed: KeyStoreError,
    r: RpcResult<ReceiverSources>,
    withheld: RpcResult<ReceiverSources>,
)
    requires
        bytes@.len() >= 32,
        call_ensures(SeedFetch::answered, (fetch, Ok(bytes)), r),
        call_ensures(SeedFetch::answered, (fetch, Err(failed)), withheld),
    ensures
        call_requires(SeedFetch::answered, (fetch, Ok(bytes))),
        call_requires(SeedFetch::answered, (fetch, Err(failed))),
        match derived_spending_key(fetch.network, bytes@, fetch.derivation.index()) {
            Ok(key) => r matches Ok(next) && {
                &&& next.spending_key == key
                &&& next.context == fetch.context
                &&& next.query.account_id == fetch.account_id
                &&& next.query.include_change
                &&& next.query.include_standalone
                &&& next.steps@ == fetch.steps@
                &&& next.preflight == fetch.preflight
            },
            Err(text) => r matches Err(e) && e.code == LegacyCode::InvalidAddressOrKey && e.message@ == text,
        },
        withheld matches Err(e) && e.message@ == failed.message@ && e.code == if failed.generic && failed.message@
            == "Wallet is locked"@ {
            LegacyCode::WalletUnlockNeeded
        } else {
            LegacyCode::Database
        },
{
}

/// A call goes on exactly where the receivers could be listed, and asks for the keys that its
/// inputs need.
pub proof fn lemma_receivers_listed(
    sources: ReceiverSources,
    receivers: Result<Vec<Receiver>, String>,
    r: RpcResult<KeyFetch>,
)
    requires
        call_ensures(ReceiverSources::answered, (sources, receivers), r),
    ensures
        call_requires(ReceiverSources::answered, (sources, receivers)),
        match receivers {
            Ok(listed) => r matches Ok(next) && {
                &&& next.needed@ == needed_keys(all_inputs(sources.steps@), listed@)
                &&& next.context == sources.context
                &&& next.preflight == sources.preflight
                &&& next.spending_key == sources.spending_key
            },
            Err(text) => r matches Err(e) && e.code == LegacyCode::Database && e.message@ == text@,
        },
{
}

/// A call is ready exactly where the key store withheld no key. Each key stands under the
/// address that it was asked for, in the order of asking, and nothing else stands there;
/// otherwise the first failure of the key store is reported.
pub proof fn lemma_keys_fetched<K>(fetch: KeyFetch, fetched: Vec<Result<K, KeyStoreError>>, r: RpcResult<Prepared<K>>)
    requires
        fetched@.len() == fetch.needed@.len() || (0 < fetched@.len() < fetch.needed@.len() && fetched@.last() is Err),
        call_ensures(KeyFetch::answered::<K>, (fetch, fetched), r),
    ensures
        call_requires(KeyFetch::answered::<K>, (fetch, fetched)),
        r is Ok <==> forall|i: int| 0 <= i < fetched@.len() ==> (#[trigger] fetched@[i]) is Ok,
        match r {
            Ok(ready) => {
                let needed = fetch.needed@;
                let keys = ready.standalone_keys@;
                &&& ready.preflight == fetch.preflight
                &&& ready.context == fetch.context
                &&& ready.spending_key == fetch.spending_key
                &&& ready.ovk_policy == OvkPolicy::Sender
                &&& fetched@.len() == needed.len()
                &&& forall|a: TransparentAddress| #[trigger]
                    keys.dom().contains(a) <==> exists|i: int| 0 <= i < needed.len() && #[trigger] needed[i] == a
                &&& forall|i: int|
                    0 <= i < needed.len() ==> {
                        let before = needed.take(i).to_multiset().count(#[trigger] needed[i]);
                        &&& keys[needed[i]].len() == needed.to_multiset().count(needed[i])
                        &&& before < keys[needed[i]].len()
                        &&& fetched@[i] == Ok::<K, KeyStoreError>(keys[needed[i]][before as int])
                    }
            },
            Err(e) => exists|k: int|
                {
                    &&& 0 <= k < fetched@.len()
                    &&& forall|j: int| 0 <= j < k ==> (#[trigger] fetched@[j]) is Ok
                    &&& #[trigger] fetched@[k] matches Err(failed) && e.message@ == failed.message@ && e.code
                        == if failed.generic && failed.message@ == "Wallet is locked"@ {
                        LegacyCode::WalletUnlockNeeded
                    } else {
                        LegacyCode::Database
                    }
                },
        },
{
    lemma_first_failure(fetched@);
    if let Ok(ready) = r {
        let needed = fetch.needed@;
        let keys = ready.standalone_keys@;
        lemma_answered_in_turn(needed.len(), fetched@);
        assert forall|i: int| 0 <= i < needed.len() implies {
            let before = needed.take(i).to_multiset().count(#[trigger] needed[i]);
            &&& keys[needed[i]].len() == needed.to_multiset().count(needed[i])
            &&& before < keys[needed[i]].len()
            &&& fetched@[i] == Ok::<K, KeyStoreError>(keys[needed[i]][before as int])
        } by {
            lemma_key_under_its_address(needed, handed_out(fetched@), i);
            assert(fetched@[i] is Ok);
        }
    }
}

/// A key that is asked for once is the only key under its address.
pub proof fn lemma_single_key_fetched<K>(
    fetch: KeyFetch,
    fetched: Vec<Result<K, KeyStoreError>>,
    ready: Prepared<K>,
    i: int,
)
    requires
        fetched@.len() == fetch.needed@.len(),
        call_ensures(KeyFetch::answered::<K>, (fetch, fetched), Ok(ready)),
        0 <= i < fetch.needed@.len(),
        forall|j: int| 0 <= j < fetch.needed@.len() && j != i ==> #[trigger] fetch.needed@[j] != fetch.needed@[i],
    ensures
        fetched@[i] matches Ok(key) && ready.standalone_keys@.dom().contains(fetch.needed@[i])
            && ready.standalone_keys@[fetch.needed@[i]] == seq![key],
{
    lemma_keys_fetched(fetch, fetched, Ok(ready));
    assert(fetched@[i] is Ok);
    lemma_single_key_under_its_address(fetch.needed@, handed_out(fetched@), i);
}

/// Transactions are broadcast exactly where they were built; what went wrong otherwise is
/// reported, in the background work or in the building alike.
pub proof fn lemma_built<T>(built: Result<Result<T, String>, String>, r: RpcResult<T>)
    requires
        call_ensures(built_transactions::<T>, (built,), r),
    ensures
        call_requires(built_transactions::<T>, (built,)),
        match built {
            Ok(Ok(txids)) => r == Ok::<T, RpcError>(txids),
            Ok(Err(text)) => r matches Err(e) && e.code == LegacyCode::Wallet && e.message@
                == "Failed to build shielding transaction: "@ + text@,
            Err(text) => r matches Err(e) && e.code == LegacyCode::Wallet && e.message@
                == "Failed to build shielding transaction: "@ + text@,
        },
{
}

} // verus!
