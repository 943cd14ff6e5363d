//! The keys that the shielding transaction needs besides those of the account: the keys of
//! addresses that were imported one by one.
use vstd::prelude::*;
use zcash_keys::keys::UnifiedSpendingKey;
use zcash_protocol::consensus::{MAIN_NETWORK, TEST_NETWORK};
use zcash_protocol::local_consensus::LocalNetwork;

use crate::address::{output_address, paid_address, NetworkType, TransparentAddress};
use crate::error::{failure, Failure, LegacyCode, RpcError, RpcResult};
use crate::inputs::{all_inputs, ProposalStep, TransparentInput};

verus! {

/// Where the key of a transparent receiver comes from.
#[derive(Clone, Copy, Debug, PartialEq, Eq, Structural)]
pub enum AddressSource {
    /// The key is derived from the account's.
    Derived,
    /// A public key was imported by itself.
    StandalonePubkey,
    /// A script was imported by itself.
    StandaloneScript,
    /// Only the address was imported: there is no key.
    StandaloneAddress,
}

impl AddressSource {
    /// Whether the key or the script was imported by itself.
    pub open spec fn is_standalone(self) -> bool {
        self is StandalonePubkey || self is StandaloneScript
    }
}

/// A transparent receiver of an account.
#[derive(Clone, Copy, Debug, PartialEq, Eq)]
pub struct Receiver {
    /// The address.
    pub address: TransparentAddress,
    /// Where its key comes from.
    pub source: AddressSource,
}

/// The addresses among the receivers whose key or script was imported by itself.
pub open spec fn standalone_set(receivers: Seq<Receiver>) -> Set<TransparentAddress> {
    Set::new(
        |address: TransparentAddress|
            exists|i: int|
                0 <= i < receivers.len() && (#[trigger] receivers[i]).address == address
                    && receivers[i].source.is_standalone(),
    )
}

/// Whether an address is among the receivers whose key or script was imported by itself.
pub fn is_standalone_address(receivers: &Vec<Receiver>, address: &TransparentAddress) -> (r: bool)
    ensures
        r == standalone_set(receivers@).contains(*address),
{
    let mut i: usize = 0;
    while i < receivers.len()
        invariant
            i <= receivers.len(),
            forall|j: int|
                0 <= j < i ==> !((#[trigger] receivers@[j]).address == *address
                    && receivers@[j].source.is_standalone()),
        decreases receivers.len() - i,
    {
        let standalone = match receivers[i].source {
            AddressSource::StandalonePubkey => true,
            AddressSource::StandaloneScript => true,
            AddressSource::Derived => false,
            AddressSource::StandaloneAddress => false,
        };
        if standalone && receivers[i].address.same(address) {
            assert(receivers@[i as int].address == *address);
            return true;
        }
        i += 1;
    }
    false
}

/// The address whose key an input needs besides the account's keys, if it needs one: the
/// address that it spends from, where its key or script was imported by itself.
pub open spec fn needed_key(input: TransparentInput, receivers: Seq<Receiver>) -> Option<TransparentAddress> {
    match paid_address(input.script_pubkey@) {
        Some(address) => if standalone_set(receivers).contains(address) {
            Some(address)
        } else {
            None
        },
        None => None,
    }
}

/// The addresses whose keys a list of inputs needs, in the order of the inputs; an address
/// stands in it as often as an input spends from it.
pub open spec fn needed_keys(inputs: Seq<TransparentInput>, receivers: Seq<Receiver>) -> Seq<TransparentAddress>
    decreases inputs.len(),
{
    if inputs.len() == 0 {
        Seq::empty()
    } else {
        let before = needed_keys(inputs.drop_last(), receivers);
        match needed_key(inputs.last(), receivers) {
            Some(address) => before.push(address),
            None => before,
        }
    }
}

/// The addresses whose keys a proposal needs besides the account's keys, given the
/// receivers of the account: one for each input that spends from an imported address.
pub fn standalone_keys_needed(steps: &Vec<ProposalStep>, receivers: &Vec<Receiver>) -> (r: Vec<TransparentAddress>)
    ensures
        r@ == needed_keys(all_inputs(steps@), receivers@),
{
    let mut needed: Vec<TransparentAddress> = Vec::new();
    let mut s: usize = 0;
    assert(steps@.take(0) =~= Seq::empty());
    while s < steps.len()
        invariant
            s <= steps.len(),
            needed@ == needed_keys(all_inputs(steps@.take(s as int)), receivers@),
        decreases steps.len() - s,
    {
        let inputs = &steps[s].transparent_inputs;
        let ghost before = all_inputs(steps@.take(s as int));
        let mut i: usize = 0;
        assert(before + inputs@.take(0) =~= before);
        while i < inputs.len()
            invariant
                i <= inputs.len(),
                needed@ == needed_keys(before + inputs@.take(i as int), receivers@),
            decreases inputs.len() - i,
        {
            proof {
                let next = before + inputs@.take(i + 1);
                assert(next.drop_last() =~= before + inputs@.take(i as int));
                assert(next.last() == inputs@[i as int]);
            }
            match output_address(&inputs[i].script_pubkey) {
                Some(address) => {
                    if is_standalone_address(receivers, &address) {
                        needed.push(address);
                    }
                },
                None => {},
            }
            i += 1;
        }
        proof {
            assert(inputs@.take(inputs@.len() as int) =~= inputs@);
            assert(steps@.take(s + 1).drop_last() =~= steps@.take(s as int));
            assert(steps@.take(s + 1).last() == steps@[s as int]);
        }
        s += 1;
    }
    assert(steps@.take(steps@.len() as int) =~= steps@);
    needed
}

/// Why the key store did not hand out a secret.
#[derive(Debug, PartialEq, Eq)]
pub struct KeyStoreError {
    /// Whether the error is of no special kind.
    pub generic: bool,
    /// The error's text.
    pub message: String,
}

/// What a caller is told of an error of the key store: that the wallet has to be unlocked,
/// where it is locked, and that the database failed otherwise.
pub open spec fn key_store_failure(e: KeyStoreError) -> Failure {
    if e.generic && e.message@ == "Wallet is locked"@ {
        failure(LegacyCode::WalletUnlockNeeded, e.message@)
    } else {
        failure(LegacyCode::Database, e.message@)
    }
}

impl KeyStoreError {
    /// What a caller is told of this error.
    pub fn into_rpc(self) -> (e: RpcError)
        ensures
            e@ == key_store_failure(self),
    {
        if self.generic && self.message == "Wallet is locked".to_owned() {
            LegacyCode::WalletUnlockNeeded.with_message(self.message)
        } else {
            LegacyCode::Database.with_message(self.message)
        }
    }
}

/// The keys for one address, out of keys handed out for a list of addresses.
pub open spec fn keys_for<K>(addresses: Seq<TransparentAddress>, keys: Seq<K>, address: TransparentAddress) -> Seq<K>
    decreases addresses.len(),
{
    if addresses.len() == 0 {
        Seq::empty()
    } else {
        let before = keys_for(addresses.drop_last(), keys.drop_last(), address);
        if addresses.last() == address {
            before.push(keys.last())
        } else {
            before
        }
    }
}

/// Keys by address, out of keys handed out for a list of addresses.
pub open spec fn keys_by_address<K>(addresses: Seq<TransparentAddress>, keys: Seq<K>) -> Map<
    TransparentAddress,
    Seq<K>,
> {
    Map::new(
        |address: TransparentAddress| addresses.contains(address),
        |address: TransparentAddress| keys_for(addresses, keys, address),
    )
}

/// The keys of an address.
#[derive(Debug, PartialEq, Eq)]
pub struct KeyEntry<K> {
    /// The address.
    pub address: TransparentAddress,
    /// Its keys.
    pub keys: Vec<K>,
}

/// Whether no address has two entries.
pub open spec fn distinct_addresses<K>(entries: Seq<KeyEntry<K>>) -> bool {
    forall|i: int, j: int|
        0 <= i < j < entries.len() ==> (#[trigger] entries[i]).address != (#[trigger] entries[j]).address
}

/// What a list of entries holds for each address.
pub open spec fn entries_map<K>(entries: Seq<KeyEntry<K>>) -> Map<TransparentAddress, Seq<K>> {
    Map::new(
        |address: TransparentAddress|
            exists|i: int| 0 <= i < entries.len() && (#[trigger] entries[i]).address == address,
        |address: TransparentAddress|
            entries[choose|i: int| 0 <= i < entries.len() && (#[trigger] entries[i]).address == address].keys@,
    )
}

/// Secret keys by the address that they belong to.
#[derive(Debug)]
pub struct StandaloneKeys<K> {
    entries: Vec<KeyEntry<K>>,
}

impl<K> View for StandaloneKeys<K> {
    type V = Map<TransparentAddress, Seq<K>>;

    closed spec fn view(&self) -> Map<TransparentAddress, Seq<K>> {
        entries_map(self.entries@)
    }
}

/// The entry at a position is what its address maps to.
proof fn lemma_entry_at<K>(entries: Seq<KeyEntry<K>>, i: int)
    requires
        distinct_addresses(entries),
        0 <= i < entries.len(),
    ensures
        entries_map(entries).dom().contains(entries[i].address),
        entries_map(entries)[entries[i].address] == entries[i].keys@,
{
    let address = entries[i].address;
    let k = choose|k: int| 0 <= k < entries.len() && (#[trigger] entries[k]).address == address;
    assert(k == i);
}

/// Adding a key at the entry of its address, or in a new entry where the address has none,
/// adds the key to what the address maps to and changes nothing else.
proof fn lemma_key_added<K>(
    before: Seq<KeyEntry<K>>,
    after: Seq<KeyEntry<K>>,
    at: int,
    address: TransparentAddress,
    key: K,
)
    requires
        distinct_addresses(before),
        0 <= at <= before.len(),
        forall|j: int| 0 <= j < at ==> (#[trigger] before[j]).address != address,
        after.len() == if at < before.len() {
            before.len()
        } else {
            before.len() + 1
        },
        forall|j: int| 0 <= j < before.len() && j != at ==> #[trigger] after[j] == before[j],
        after[at].address == address,
        at < before.len() ==> before[at].address == address && after[at].keys@ == before[at].keys@.push(key),
        at == before.len() ==> after[at].keys@ == Seq::<K>::empty().push(key),
    ensures
        distinct_addresses(after),
        entries_map(after) == entries_map(before).insert(
            address,
            (if entries_map(before).dom().contains(address) {
                entries_map(before)[address]
            } else {
                Seq::<K>::empty()
            }).push(key),
        ),
{
    assert(distinct_addresses(after)) by {
        assert forall|i: int, j: int| 0 <= i < j < after.len() implies (#[trigger] after[i]).address != (
        #[trigger] after[j]).address by {
            if i != at {
                assert(after[i] == before[i]);
            }
            if j != at {
                assert(after[j] == before[j]);
            }
            if i != at && j != at {
                assert(before[i].address != before[j].address);
            } else if i == at {
                assert(before[i].address != before[j].address);
            }
        }
    }
    let expected = entries_map(before).insert(
        address,
        (if entries_map(before).dom().contains(address) {
            entries_map(before)[address]
        } else {
            Seq::<K>::empty()
        }).push(key),
    );
    lemma_entry_at(after, at);
    if at < before.len() {
        lemma_entry_at(before, at);
    }
    assert forall|a: TransparentAddress| #[trigger]
        entries_map(after).dom().contains(a) == expected.dom().contains(a) by {
        if a != address {
            if entries_map(after).dom().contains(a) {
                let i = choose|i: int| 0 <= i < after.len() && (#[trigger] after[i]).address == a;
                assert(before[i].address == a);
            }
            if entries_map(before).dom().contains(a) {
                let i = choose|i: int| 0 <= i < before.len() && (#[trigger] before[i]).address == a;
                assert(after[i].address == a);
            }
        }
    }
    assert forall|a: TransparentAddress| #[trigger] entries_map(after).dom().contains(a) implies entries_map(after)[a]
        == expected[a] by {
        if a != address {
            let i = choose|i: int| 0 <= i < after.len() && (#[trigger] after[i]).address == a;
            lemma_entry_at(after, i);
            assert(before[i] == after[i]);
            lemma_entry_at(before, i);
        }
    }
    assert(entries_map(after) =~= expected);
}

impl<K> StandaloneKeys<K> {
    #[verifier::type_invariant]
    spec fn wf(self) -> bool {
        distinct_addresses(self.entries@)
    }

    /// No keys.
    pub fn new() -> (r: StandaloneKeys<K>)
        ensures
            r@ == Map::<TransparentAddress, Seq<K>>::empty(),
    {
        let r = StandaloneKeys { entries: Vec::new() };
        assert(r@ =~= Map::<TransparentAddress, Seq<K>>::empty());
        r
    }

    /// These keys and one more for the given address, after those that it has.
    pub fn with_key(self, address: TransparentAddress, key: K) -> (r: StandaloneKeys<K>)
        ensures
            r@ == self@.insert(
                address,
                (if self@.dom().contains(address) {
                    self@[address]
                } else {
                    Seq::<K>::empty()
                }).push(key),
            ),
    {
        proof {
            use_type_invariant(&self);
        }
        let ghost old_entries = self.entries@;
        let mut entries = self.entries;
        let mut i: usize = 0;
        while i < entries.len()
            invariant
                i <= entries.len(),
                entries@ == old_entries,
                forall|j: int| 0 <= j < i ==> (#[trigger] old_entries[j]).address != address,
            ensures
                i < entries.len() ==> old_entries[i as int].address == address,
            decreases entries.len() - i,
        {
            if entries[i].address.same(&address) {
                break;
            }
            i += 1;
        }
        if i < entries.len() {
            entries[i].keys.push(key);
        } else {
            let mut keys: Vec<K> = Vec::new();
            keys.push(key);
            entries.push(KeyEntry { address, keys });
        }
        proof {
            lemma_key_added(old_entries, entries@, i as int, address, key);
        }
        StandaloneKeys { entries }
    }

    /// The keys of each address, an entry for each address that has any.
    pub fn into_entries(self) -> (r: Vec<KeyEntry<K>>)
        ensures
            distinct_addresses(r@),
            entries_map(r@) == self@,
    {
        proof {
            use_type_invariant(&self);
        }
        self.entries
    }
}

/// Whether answers were given to a number of questions asked in turn, up to the first that
/// failed: to all of them, or to fewer where the last answer is a failure.
pub open spec fn answered_in_turn<T, E>(asked: nat, answers: Seq<Result<T, E>>) -> bool {
    &&& answers.len() <= asked
    &&& answers.len() < asked ==> answers.len() > 0 && answers.last() is Err
}

/// The first failure among answers, if there is one.
pub open spec fn first_failure<T, E>(answers: Seq<Result<T, E>>) -> Option<E>
    decreases answers.len(),
{
    if answers.len() == 0 {
        None
    } else {
        match (first_failure(answers.drop_last()), answers.last()) {
            (Some(e), _) => Some(e),
            (None, Err(e)) => Some(e),
            (None, Ok(_)) => None,
        }
    }
}

/// What was answered.
pub open spec fn handed_out<T, E>(answers: Seq<Result<T, E>>) -> Seq<T> {
    answers.map_values(|answer: Result<T, E>| answer->Ok_0)
}

/// A failure among the first answers is the first failure of all.
proof fn lemma_first_failure_stays<T, E>(answers: Seq<Result<T, E>>, n: int)
    requires
        0 <= n <= answers.len(),
        first_failure(answers.take(n)) is Some,
    ensures
        first_failure(answers) == first_failure(answers.take(n)),
    decreases answers.len(),
{
    if n == answers.len() {
        assert(answers.take(n) =~= answers);
    } else {
        assert(answers.drop_last().take(n) =~= answers.take(n));
        lemma_first_failure_stays(answers.drop_last(), n);
    }
}

/// One more key goes to its address, and to no other.
proof fn lemma_keys_by_address_push<K>(
    addresses: Seq<TransparentAddress>,
    keys: Seq<K>,
    address: TransparentAddress,
    key: K,
)
    requires
        addresses.len() == keys.len(),
    ensures
        keys_by_address(addresses.push(address), keys.push(key)) == keys_by_address(addresses, keys).insert(
            address,
            (if keys_by_address(addresses, keys).dom().contains(address) {
                keys_by_address(addresses, keys)[address]
            } else {
                Seq::<K>::empty()
            }).push(key),
        ),
{
    let more = addresses.push(address);
    assert(more.drop_last() =~= addresses);
    assert(keys.push(key).drop_last() =~= keys);
    assert forall|a: TransparentAddress| #[trigger] more.contains(a) == (addresses.contains(a) || a == address) by {
        if addresses.contains(a) {
            let i = choose|i: int| 0 <= i < addresses.len() && addresses[i] == a;
            assert(more[i] == a);
        }
        if a == address {
            assert(more[addresses.len() as int] == a);
        }
    }
    if !addresses.contains(address) {
        lemma_keys_for_absent(addresses, keys, address);
    }
    assert(keys_by_address(more, keys.push(key)) =~= keys_by_address(addresses, keys).insert(
        address,
        (if keys_by_address(addresses, keys).dom().contains(address) {
            keys_by_address(addresses, keys)[address]
        } else {
            Seq::<K>::empty()
        }).push(key),
    ));
}

/// An address for which no key was asked gets none.
proof fn lemma_keys_for_absent<K>(addresses: Seq<TransparentAddress>, keys: Seq<K>, address: TransparentAddress)
    requires
        addresses.len() == keys.len(),
        !addresses.contains(address),
    ensures
        keys_for(addresses, keys, address) == Seq::<K>::empty(),
    decreases addresses.len(),
{
    if addresses.len() > 0 {
        assert(addresses[addresses.len() - 1] == addresses.last());
        assert(!addresses.drop_last().contains(address)) by {
            if addresses.drop_last().contains(address) {
                let i = choose|i: int| 0 <= i < addresses.len() - 1 && addresses.drop_last()[i] == address;
                assert(addresses[i] == address);
            }
        }
        lemma_keys_for_absent(addresses.drop_last(), keys.drop_last(), address);
    }
}

/// Puts the keys that the key store handed out with the addresses that they belong to.
/// `fetched` is what the key store answered for each of the `needed` addresses in turn, up
/// to its first failure.
pub fn collect_standalone_keys<K>(
    needed: &Vec<TransparentAddress>,
    fetched: Vec<Result<K, KeyStoreError>>,
) -> (r: RpcResult<StandaloneKeys<K>>)
    requires
        answered_in_turn(needed@.len(), fetched@),
    ensures
        match (r, first_failure(fetched@)) {
            (Ok(keys), None) => keys@ == keys_by_address(needed@, handed_out(fetched@)),
            (Err(e), Some(failed)) => e@ == key_store_failure(failed),
            _ => false,
        },
{
    let mut keys: StandaloneKeys<K> = StandaloneKeys::new();
    let ghost answers = fetched@;
    let mut n: usize = 0;
    proof {
        assert(answers.take(0) =~= Seq::empty());
        assert(keys@ =~= keys_by_address(needed@.take(0), handed_out(answers.take(0))));
    }
    for answer in it: fetched.into_iter()
        invariant
            it.seq() == answers,
            n == it.index(),
            answered_in_turn(needed@.len(), answers),
            first_failure(answers.take(n as int)) is None,
            keys@ == keys_by_address(needed@.take(n as int), handed_out(answers.take(n as int))),
    {
        let ghost through = answers.take(n + 1);
        proof {
            assert(answer == answers[n as int]);
            assert(through.drop_last() =~= answers.take(n as int));
            assert(through.last() == answer);
        }
        match answer {
            Err(e) => {
                proof {
                    lemma_first_failure_stays(answers, n + 1);
                }
                return Err(e.into_rpc());
            },
            Ok(key) => {
                assert(n < needed.len());
                keys = keys.with_key(needed[n], key);
                proof {
                    lemma_keys_by_address_push(
                        needed@.take(n as int),
                        handed_out(answers.take(n as int)),
                        needed@[n as int],
                        key,
                    );
                    assert(needed@.take(n + 1) =~= needed@.take(n as int).push(needed@[n as int]));
                    assert(handed_out(through) =~= handed_out(answers.take(n as int)).push(key));
                }
                n += 1;
            },
        }
    }
    proof {
        assert(answers.take(answers.len() as int) =~= answers);
        if answers.len() < needed@.len() {
            assert(answers.last() is Err);
        }
        assert(needed@.take(needed@.len() as int) =~= needed@);
    }
    Ok(keys)
}

/// Exactly the addresses whose key or script was imported by itself and that an input spends
/// from have keys.
pub proof fn lemma_keys_for_standalone_inputs<K>(
    inputs: Seq<TransparentInput>,
    receivers: Seq<Receiver>,
    keys: Seq<K>,
    address: TransparentAddress,
)
    ensures
        keys_by_address(needed_keys(inputs, receivers), keys).dom().contains(address) <==> (standalone_set(
            receivers,
        ).contains(address) && exists|i: int|
            0 <= i < inputs.len() && paid_address((#[trigger] inputs[i]).script_pubkey@) == Some(address)),
    decreases inputs.len(),
{
    let needed = needed_keys(inputs, receivers);
    if inputs.len() > 0 {
        let less = inputs.drop_last();
        let before = needed_keys(less, receivers);
        lemma_keys_for_standalone_inputs(less, receivers, keys, address);
        assert(needed.contains(address) <==> before.contains(address) || needed_key(inputs.last(), receivers) == Some(
            address,
        )) by {
            if before.contains(address) {
                let i = choose|i: int| 0 <= i < before.len() && before[i] == address;
                assert(needed[i] == address);
            }
            if needed_key(inputs.last(), receivers) == Some(address) {
                assert(needed[before.len() as int] == address);
            }
        }
        if exists|i: int| 0 <= i < less.len() && paid_address((#[trigger] less[i]).script_pubkey@) == Some(address) {
            let i = choose|i: int|
                0 <= i < less.len() && paid_address((#[trigger] less[i]).script_pubkey@) == Some(address);
            assert(paid_address(inputs[i].script_pubkey@) == Some(address));
        }
        if exists|i: int|
            0 <= i < inputs.len() && paid_address((#[trigger] inputs[i]).script_pubkey@) == Some(address) {
            let i = choose|i: int|
                0 <= i < inputs.len() && paid_address((#[trigger] inputs[i]).script_pubkey@) == Some(address);
            if i < less.len() {
                assert(paid_address(less[i].script_pubkey@) == Some(address));
            }
        }
        assert(inputs[inputs.len() - 1] == inputs.last());
    }
}

/// The unified spending key of an account.
#[verifier::external_type_specification]
#[verifier::external_body]
pub struct ExUnifiedSpendingKey(UnifiedSpendingKey);

/// What `zcash_keys::keys::UnifiedSpendingKey::from_seed` derives from a seed for an account
/// of a network: the account's key, or the text of the error.
pub uninterp spec fn derived_spending_key(network: NetworkType, seed: Seq<u8>, account_index: u32) -> Result<
    UnifiedSpendingKey,
    Seq<char>,
>;

/// Derives the spending key of an account with
/// `zcash_keys::keys::UnifiedSpendingKey::from_seed`, which reads of the network's parameters
/// only the network's type. What it derives, or the text of its error, is
/// [`derived_spending_key`]. It panics on a seed of less than 32 bytes, and an account
/// index has 31 bits.
#[verifier::external_body]
pub(crate) fn derive_spending_key(network: NetworkType, seed: &[u8], account_index: u32) -> (r: Result<
    UnifiedSpendingKey,
    String,
>)
    requires
        seed@.len() >= 32,
        account_index < 0x8000_0000,
    ensures
        match r {
            Ok(key) => derived_spending_key(network, seed@, account_index) == Ok::<UnifiedSpendingKey, Seq<char>>(key),
            Err(text) => derived_spending_key(network, seed@, account_index) == Err::<UnifiedSpendingKey, Seq<char>>(
                text@,
            ),
        },
{
    let account = account_index.try_into().expect("an account index has 31 bits");
    let derived = match network {
        NetworkType::Main => UnifiedSpendingKey::from_seed(&MAIN_NETWORK, seed, account),
        NetworkType::Test => UnifiedSpendingKey::from_seed(&TEST_NETWORK, seed, account),
        NetworkType::Regtest => UnifiedSpendingKey::from_seed(&LocalNetwork { overwinter: None, sapling: None,
            blossom: None, heartwood: None, canopy: None, nu5: None, nu6: None, nu6_1: None, nu6_2: None, nu6_3: None,
            nu7: None }, seed, account),
    };
    derived.map_err(|e| e.to_string())
}

} // verus!
