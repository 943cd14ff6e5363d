//! Which keys of imported addresses a call asks for, and where it keeps them.
use vstd::prelude::*;
use vstd::seq_lib::to_multiset_build;

use crate::address::{paid_address, TransparentAddress};
use crate::error::{LegacyCode, RpcError, RpcResult};
use crate::inputs::{all_inputs, ProposalStep, TransparentInput};
use crate::keys::{
    answered_in_turn, collect_standalone_keys, distinct_addresses, first_failure, handed_out,
    is_standalone_address, keys_by_address, keys_for, needed_keys, standalone_keys_needed, standalone_set,
    KeyEntry, KeyStoreError, Receiver, StandaloneKeys,
};

verus! {

/// An address counts as imported exactly where it is among the receivers with a public key or
/// a script that was imported by itself.
pub proof fn lemma_imported_address(receivers: Vec<Receiver>, address: TransparentAddress, r: bool)
    requires
        call_ensures(is_standalone_address, (&receivers, &address), r),
    ensures
        call_requires(is_standalone_address, (&receivers, &address)),
        r <==> exists|i: int|
            0 <= i < receivers@.len() && (#[trigger] receivers@[i]).address == address && (receivers@[i].source
                is StandalonePubkey || receivers@[i].source is StandaloneScript),
        standalone_set(receivers@).contains(address) <==> r,
{
}

/// The keys that inputs need are those of each input, one input after the other: that of the
/// address which the input spends from, where its public key or script was imported by
/// itself, and none otherwise.
pub proof fn lemma_needed_by_input(
    a: Seq<TransparentInput>,
    b: Seq<TransparentInput>,
    input: TransparentInput,
    receivers: Seq<Receiver>,
)
    ensures
        needed_keys(Seq::empty(), receivers) == Seq::<TransparentAddress>::empty(),
        needed_keys(a + b, receivers) == needed_keys(a, receivers) + needed_keys(b, receivers),
        match paid_address(input.script_pubkey@) {
            Some(address) => needed_keys(seq![input], receivers) == if exists|i: int|
                0 <= i < receivers.len() && (#[trigger] receivers[i]).address == address && (receivers[i].source
                    is StandalonePubkey || receivers[i].source is StandaloneScript) {
                seq![address]
            } else {
                Seq::<TransparentAddress>::empty()
            },
            None => needed_keys(seq![input], receivers) == Seq::<TransparentAddress>::empty(),
        },
    decreases b.len(),
{
    reveal_with_fuel(needed_keys, 2);
    assert(seq![input].drop_last() =~= Seq::empty());
    assert(seq![input].last() == input);
    if let Some(address) = paid_address(input.script_pubkey@) {
        assert(Seq::<TransparentAddress>::empty().push(address) =~= seq![address]);
        assert(standalone_set(receivers).contains(address) <==> exists|i: int|
            0 <= i < receivers.len() && (#[trigger] receivers[i]).address == address && (receivers[i].source
                is StandalonePubkey || receivers[i].source is StandaloneScript));
    }
    if b.len() == 0 {
        assert(a + b =~= a);
        assert(needed_keys(a, receivers) + needed_keys(b, receivers) =~= needed_keys(a, receivers));
    } else {
        lemma_needed_by_input(a, b.drop_last(), input, receivers);
        assert((a + b).drop_last() =~= a + b.drop_last());
        assert(needed_keys(a + b, receivers) =~= needed_keys(a, receivers) + needed_keys(b, receivers));
    }
}

/// A proposal needs the keys of its inputs.
pub proof fn lemma_needed_by_proposal(steps: Vec<ProposalStep>, receivers: Vec<Receiver>, r: Vec<TransparentAddress>)
    requires
        call_ensures(standalone_keys_needed, (&steps, &receivers), r),
    ensures
        call_requires(standalone_keys_needed, (&steps, &receivers)),
        r@ == needed_keys(all_inputs(steps@), receivers@),
{
}

/// Answers are those to questions asked in turn where every question has an answer, or where
/// the last answer given is a failure.
pub proof fn lemma_answered_in_turn<T, E>(asked: nat, answers: Seq<Result<T, E>>)
    ensures
        answers.len() == asked ==> answered_in_turn(asked, answers),
        0 < answers.len() < asked && answers.last() is Err ==> answered_in_turn(asked, answers),
        answered_in_turn(asked, answers) && (forall|i: int|
            0 <= i < answers.len() ==> (#[trigger] answers[i]) is Ok) ==> answers.len() == asked,
{
    if answered_in_turn(asked, answers) && 0 < answers.len() < asked {
        assert(answers[answers.len() - 1] is Err);
    }
}

/// The first failure is the failure that has none before it, and there is none exactly where
/// nothing failed.
pub proof fn lemma_first_failure<T, E>(answers: Seq<Result<T, E>>)
    ensures
        first_failure(answers) is None <==> forall|i: int| 0 <= i < answers.len() ==> (#[trigger] answers[i]) is Ok,
        first_failure(answers) matches Some(e) ==> exists|k: int|
            {
                &&& 0 <= k < answers.len()
                &&& forall|j: int| 0 <= j < k ==> (#[trigger] answers[j]) is Ok
                &&& #[trigger] answers[k] == Err::<T, E>(e)
            },
    decreases answers.len(),
{
    if answers.len() > 0 {
        let n = answers.len() - 1;
        let less = answers.drop_last();
        lemma_first_failure(less);
        assert(forall|i: int| 0 <= i < n ==> less[i] == answers[i]);
        assert(answers[n] == answers.last());
        match first_failure(less) {
            Some(e) => {
                let k = choose|k: int|
                    {
                        &&& 0 <= k < less.len()
                        &&& forall|j: int| 0 <= j < k ==> (#[trigger] less[j]) is Ok
                        &&& #[trigger] less[k] == Err::<T, E>(e)
                    };
                assert(answers[k] == Err::<T, E>(e));
                assert forall|j: int| 0 <= j < k implies (#[trigger] answers[j]) is Ok by {
                    assert(less[j] is Ok);
                }
            },
            None => {
                assert forall|j: int| 0 <= j < n implies (#[trigger] answers[j]) is Ok by {
                    assert(less[j] is Ok);
                }
                if let Err(e) = answers.last() {
                    assert(answers[n] == Err::<T, E>(e));
                }
            },
        }
    }
}

/// What was handed out is each answer in its place.
pub proof fn lemma_handed_out<T, E>(answers: Seq<Result<T, E>>)
    ensures
        handed_out(answers).len() == answers.len(),
        forall|i: int|
            0 <= i < answers.len() && answers[i] is Ok ==> answers[i] == Ok::<T, E>(#[trigger] handed_out(answers)[i]),
{
}

/// Each key that was handed out stands under the address that it was asked for, after the
/// keys that were handed out before for the same address, and nothing else stands there.
pub proof fn lemma_key_under_its_address<K>(addresses: Seq<TransparentAddress>, keys: Seq<K>, i: int)
    requires
        addresses.len() == keys.len(),
        0 <= i < addresses.len(),
    ensures
        keys_by_address(addresses, keys).dom().contains(addresses[i]),
        keys_by_address(addresses, keys)[addresses[i]].len() == addresses.to_multiset().count(addresses[i]),
        addresses.take(i).to_multiset().count(addresses[i]) < addresses.to_multiset().count(addresses[i]),
        keys_by_address(addresses, keys)[addresses[i]][addresses.take(i).to_multiset().count(addresses[i]) as int]
            == keys[i],
{
    assert(addresses.contains(addresses[i]));
    lemma_keys_for_positions(addresses, keys, addresses[i], i);
}

/// The keys for an address are as many as it was asked for, and that for a position of the
/// address comes after those for earlier positions.
proof fn lemma_keys_for_positions<K>(
    addresses: Seq<TransparentAddress>,
    keys: Seq<K>,
    address: TransparentAddress,
    i: int,
)
    requires
        addresses.len() == keys.len(),
    ensures
        keys_for(addresses, keys, address).len() == addresses.to_multiset().count(address),
        0 <= i < addresses.len() && addresses[i] == address ==> {
            &&& addresses.take(i).to_multiset().count(address) < addresses.to_multiset().count(address)
            &&& keys_for(addresses, keys, address)[addresses.take(i).to_multiset().count(address) as int] == keys[i]
        },
    decreases addresses.len(),
{
    broadcast use vstd::seq_lib::group_to_multiset_ensures;

    if addresses.len() > 0 {
        let less = addresses.drop_last();
        lemma_keys_for_positions(less, keys.drop_last(), address, i);
        assert(addresses =~= less.push(addresses.last()));
        to_multiset_build(less, addresses.last());
        if 0 <= i < less.len() {
            assert(less.take(i) =~= addresses.take(i));
        }
        if i == less.len() {
            assert(addresses.take(i) =~= less);
        }
    } else {
        assert(addresses.to_multiset().len() == 0);
    }
}

/// The only key asked for at an address is the only key that stands there.
pub proof fn lemma_single_key_under_its_address<K>(addresses: Seq<TransparentAddress>, keys: Seq<K>, i: int)
    requires
        addresses.len() == keys.len(),
        0 <= i < addresses.len(),
        forall|j: int| 0 <= j < addresses.len() && j != i ==> #[trigger] addresses[j] != addresses[i],
    ensures
        keys_by_address(addresses, keys)[addresses[i]] == seq![keys[i]],
{
    broadcast use vstd::seq_lib::group_to_multiset_ensures;

    let a = addresses[i];
    let head = addresses.take(i);
    let tail = addresses.skip(i + 1);
    lemma_key_under_its_address(addresses, keys, i);
    assert(!head.contains(a)) by {
        if head.contains(a) {
            let j = choose|j: int| 0 <= j < head.len() && head[j] == a;
            assert(addresses[j] == a);
        }
    }
    assert(!tail.contains(a)) by {
        if tail.contains(a) {
            let j = choose|j: int| 0 <= j < tail.len() && tail[j] == a;
            assert(addresses[i + 1 + j] == a);
        }
    }
    assert(addresses =~= head.push(a) + tail);
    vstd::seq_lib::lemma_multiset_commutative(head.push(a), tail);
    to_multiset_build(head, a);
    vstd::seq_lib::to_multiset_contains(head, a);
    vstd::seq_lib::to_multiset_contains(tail, a);
    assert(addresses.to_multiset().count(a) == 1);
    assert(keys_by_address(addresses, keys)[a] =~= seq![keys[i]]);
}

/// Exactly the addresses that were asked for have keys.
pub proof fn lemma_addresses_with_keys<K>(
    addresses: Seq<TransparentAddress>,
    keys: Seq<K>,
    address: TransparentAddress,
)
    ensures
        keys_by_address(addresses, keys).dom().contains(address) <==> exists|i: int|
            0 <= i < addresses.len() && #[trigger] addresses[i] == address,
{
}

/// Keys are collected exactly where the key store withheld none. Each is kept under the
/// address that it was asked for, in the order of asking, and nothing else is kept; otherwise
/// the first failure of the key store is reported.
pub proof fn lemma_keys_collected<K>(
    needed: Vec<TransparentAddress>,
    fetched: Vec<Result<K, KeyStoreError>>,
    r: RpcResult<StandaloneKeys<K>>,
)
    requires
        fetched@.len() == needed@.len() || (0 < fetched@.len() < needed@.len() && fetched@.last() is Err),
        call_ensures(collect_standalone_keys::<K>, (&needed, fetched), r),
    ensures
        call_requires(collect_standalone_keys::<K>, (&needed, fetched)),
        r is Ok <==> forall|i: int| 0 <= i < fetched@.len() ==> (#[trigger] fetched@[i]) is Ok,
        match r {
            Ok(keys) => {
                &&& fetched@.len() == needed@.len()
                &&& forall|a: TransparentAddress| #[trigger]
                    keys@.dom().contains(a) <==> exists|i: int| 0 <= i < needed@.len() && #[trigger] needed@[i] == a
                &&& forall|i: int|
                    0 <= i < needed@.len() ==> {
                        let before = needed@.take(i).to_multiset().count(#[trigger] needed@[i]);
                        &&& keys@[needed@[i]].len() == needed@.to_multiset().count(needed@[i])
                        &&& before < keys@[needed@[i]].len()
                        &&& fetched@[i] == Ok::<K, KeyStoreError>(keys@[needed@[i]][before as int])
                    }
            },
            Err(e) => exists|k: int|
                {
                    &&& 0 <= k < fetched@.len()
                    &&& forall|j: int| 0 <= j < k ==> (#[trigger] fetched@[j]) is Ok
                    &&& #[trigger] fetched@[k] matches Err(failed) && e.message@ == failed.message@ && e.code
                        == if failed.generic && failed.message@ == "Wallet is locked"@ {
                        LegacyCode::WalletUnlockNeeded
                    } else {
                        LegacyCode::Database
                    }
                },
        },
{
    lemma_first_failure(fetched@);
    if let Ok(keys) = r {
        lemma_answered_in_turn(needed@.len(), fetched@);
        assert forall|i: int| 0 <= i < needed@.len() implies {
            let before = needed@.take(i).to_multiset().count(#[trigger] needed@[i]);
            &&& keys@[needed@[i]].len() == needed@.to_multiset().count(needed@[i])
            &&& before < keys@[needed@[i]].len()
            &&& fetched@[i] == Ok::<K, KeyStoreError>(keys@[needed@[i]][before as int])
        } by {
            lemma_key_under_its_address(needed@, handed_out(fetched@), i);
            assert(fetched@[i] is Ok);
        }
    }
}

/// A failure of the key store is reported with its own text, and with a call to unlock the
/// wallet exactly where the wallet is locked.
pub proof fn lemma_key_store_failure(failed: KeyStoreError, e: RpcError)
    requires
        call_ensures(KeyStoreError::into_rpc, (failed,), e),
    ensures
        call_requires(KeyStoreError::into_rpc, (failed,)),
        e.message@ == failed.message@,
        e.code is WalletUnlockNeeded <==> failed.generic && failed.message@ == "Wallet is locked"@,
        e.code is Database <==> !(failed.generic && failed.message@ == "Wallet is locked"@),
{
}

/// Keys start with none, and one more key goes behind those of its address and changes no
/// other.
pub proof fn lemma_key_kept<K>(
    none: StandaloneKeys<K>,
    keys: StandaloneKeys<K>,
    address: TransparentAddress,
    key: K,
    more: StandaloneKeys<K>,
    other: TransparentAddress,
)
    requires
        call_ensures(StandaloneKeys::<K>::new, (), none),
        call_ensures(StandaloneKeys::<K>::with_key, (keys, address, key), more),
    ensures
        call_requires(StandaloneKeys::<K>::new, ()),
        call_requires(StandaloneKeys::<K>::with_key, (keys, address, key)),
        !none@.dom().contains(other),
        more@.dom().contains(address),
        more@[address].len() > 0 && more@[address].last() == key,
        keys@.dom().contains(address) ==> more@[address].drop_last() == keys@[address],
        !keys@.dom().contains(address) ==> more@[address].len() == 1,
        other != address ==> more@.dom().contains(other) == keys@.dom().contains(other),
        other != address && keys@.dom().contains(other) ==> more@[other] == keys@[other],
{
    if keys@.dom().contains(address) {
        assert(more@[address].drop_last() =~= keys@[address]);
    }
}

/// The entries of keys are the keys: each entry holds what stands under its address, every
/// address with keys has an entry, and none has two.
pub proof fn lemma_entries_are_the_keys<K>(
    keys: StandaloneKeys<K>,
    entries: Vec<KeyEntry<K>>,
    i: int,
    address: TransparentAddress,
)
    requires
        call_ensures(StandaloneKeys::<K>::into_entries, (keys,), entries),
    ensures
        call_requires(StandaloneKeys::<K>::into_entries, (keys,)),
        0 <= i < entries@.len() ==> {
            &&& keys@.dom().contains(entries@[i].address)
            &&& keys@[entries@[i].address] == entries@[i].keys@
            &&& forall|j: int|
                0 <= j < entries@.len() && j != i ==> (#[trigger] entries@[j]).address != entries@[i].address
        },
        keys@.dom().contains(address) ==> exists|j: int|
            0 <= j < entries@.len() && (#[trigger] entries@[j]).address == address,
{
    assert(distinct_addresses(entries@));
    if 0 <= i < entries@.len() {
        let at = entries@[i].address;
        let k = choose|k: int| 0 <= k < entries@.len() && (#[trigger] entries@[k]).address == at;
        assert(entries@[i].address == at);
        assert(k == i);
    }
}

} // verus!
