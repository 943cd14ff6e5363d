//! Amounts, and how UTXOs are counted and added up.
use vstd::prelude::*;

use crate::amount::{value_from_zatoshis, JsonZec, Zatoshis, COIN, MAX_MONEY};
use crate::error::{LegacyCode, RpcResult};
use crate::inputs::{
    all_inputs, eligible_values, enumerate_eligible, found_values, input_values, lemma_total_value_concat,
    saturated, sum_selected_inputs, total_value, totals_of, ProposalStep, TransparentInput,
};
use crate::preflight::{
    OperationId, Preflight, ShieldCoinbaseResult, UtxoTotals, COINBASE_INPUTS_WARN_THRESHOLD,
};

verus! {

/// A coin has a hundred million parts, there are at most 21 million coins, and a warning is
/// due above 400 UTXOs.
pub proof fn lemma_money_constants()
    ensures
        COIN == 100_000_000,
        MAX_MONEY == 21_000_000 * COIN,
        COINBASE_INPUTS_WARN_THRESHOLD == 400,
{
}

/// An amount can be made of every number of zatoshis that can exist, and of no other, and
/// is that number.
pub proof fn lemma_amount_reads_back(zats: u64, made: Option<Zatoshis>, read: u64)
    requires
        call_ensures(Zatoshis::from_u64, (zats,), made),
        made matches Some(z) ==> call_ensures(Zatoshis::into_u64, (z,), read),
    ensures
        call_requires(Zatoshis::from_u64, (zats,)),
        made is Some <==> zats <= 2_100_000_000_000_000,
        made matches Some(z) ==> z@ == zats && read == zats,
{
}

/// The number of an amount is at most what can exist, and it is the amount.
pub proof fn lemma_amount_number(z: Zatoshis, n: u64)
    requires
        call_ensures(Zatoshis::into_u64, (z,), n),
    ensures
        call_requires(Zatoshis::into_u64, (z,)),
        n == z@,
        n <= 2_100_000_000_000_000,
{
}

/// No money is zero zatoshis, and adding it changes nothing.
pub proof fn lemma_amount_zero(zero: Zatoshis, z: Zatoshis, sum: Option<Zatoshis>)
    requires
        call_ensures(Zatoshis::zero, (), zero),
        call_ensures(Zatoshis::plus, (z, zero), sum),
        z@ <= 2_100_000_000_000_000,
    ensures
        call_requires(Zatoshis::zero, ()),
        zero@ == 0,
        sum matches Some(s) && s@ == z@,
{
}

/// Amounts add up as numbers do, as long as the sum can exist.
pub proof fn lemma_amount_plus(a: Zatoshis, b: Zatoshis, sum: Option<Zatoshis>)
    requires
        call_ensures(Zatoshis::plus, (a, b), sum),
    ensures
        call_requires(Zatoshis::plus, (a, b)),
        sum is Some <==> a@ + b@ <= 2_100_000_000_000_000,
        sum matches Some(s) ==> s@ == a@ + b@,
{
}

/// Amounts subtract as numbers do, as long as nothing is owed.
pub proof fn lemma_amount_minus(a: Zatoshis, b: Zatoshis, difference: Option<Zatoshis>)
    requires
        call_ensures(Zatoshis::minus, (a, b), difference),
    ensures
        call_requires(Zatoshis::minus, (a, b)),
        difference is Some <==> b@ <= a@,
        difference matches Some(d) ==> d@ + b@ == a@,
{
}

/// Taking away what was added gives back what was there.
pub proof fn lemma_amount_minus_undoes_plus(a: Zatoshis, b: Zatoshis, sum: Zatoshis, back: Option<Zatoshis>)
    requires
        call_ensures(Zatoshis::plus, (a, b), Some(sum)),
        call_ensures(Zatoshis::minus, (sum, b), back),
    ensures
        back matches Some(z) && z@ == a@,
{
}

/// A reply stands for its coins and its hundred-millionths of a coin.
pub proof fn lemma_json_zec_value(value: JsonZec)
    ensures
        value@ == value.coins * 100_000_000 + value.fraction,
        value.wf() <==> value.fraction < 100_000_000,
{
}

/// An amount is replied in full: to the zatoshi, with less than a coin in the fraction.
pub proof fn lemma_amount_replied_in_full(value: Zatoshis, reply: JsonZec)
    requires
        call_ensures(value_from_zatoshis, (value,), reply),
    ensures
        call_requires(value_from_zatoshis, (value,)),
        reply.coins * 100_000_000 + reply.fraction == value@,
        reply.fraction < 100_000_000,
{
}

/// Nothing sums to zero, one amount to itself, and one more amount adds itself; so the sum of
/// a list is that of all its amounts, each in full.
pub proof fn lemma_total_value_of_one(z: Zatoshis, rest: Seq<Zatoshis>)
    ensures
        total_value(Seq::empty()) == 0,
        total_value(seq![z]) == z@,
        total_value(rest.push(z)) == total_value(rest) + z@,
{
    reveal_with_fuel(total_value, 2);
    assert(seq![z].drop_last() =~= Seq::empty());
    assert(rest.push(z).drop_last() =~= rest);
}

/// No amount in a list is worth more than the list.
pub proof fn lemma_total_value_covers(values: Seq<Zatoshis>, i: int)
    requires
        0 <= i < values.len(),
    ensures
        values[i]@ <= total_value(values),
{
    let head = values.take(i);
    let tail = values.skip(i + 1);
    assert(values =~= head.push(values[i]) + tail);
    lemma_total_value_concat(head.push(values[i]), tail);
    lemma_total_value_of_one(values[i], head);
}

/// A count is the number itself where that fits, and the largest count otherwise.
pub proof fn lemma_saturated_count(n: nat)
    ensures
        n <= 0xffff_ffff_ffff_ffff ==> saturated(n) == n,
        n > 0xffff_ffff_ffff_ffff ==> saturated(n) == 0xffff_ffff_ffff_ffff,
{
}

/// The totals of a list are its length and its sum.
pub proof fn lemma_totals(values: Seq<Zatoshis>)
    ensures
        values.len() <= 0xffff_ffff_ffff_ffff ==> totals_of(values).utxos == values.len(),
        values.len() > 0xffff_ffff_ffff_ffff ==> totals_of(values).utxos == 0xffff_ffff_ffff_ffff,
        totals_of(values).value == total_value(values),
{
}

/// What a pair of totals stands for is the pair.
pub proof fn lemma_totals_view(totals: UtxoTotals)
    ensures
        totals@.utxos == totals.utxos,
        totals@.value == totals.value@,
{
}

/// The inputs of a proposal are those of its steps, one step after the other.
pub proof fn lemma_inputs_of_steps(a: Seq<ProposalStep>, b: Seq<ProposalStep>, step: ProposalStep)
    ensures
        all_inputs(Seq::empty()) == Seq::<TransparentInput>::empty(),
        all_inputs(seq![step]) == step.transparent_inputs@,
        all_inputs(a + b) == all_inputs(a) + all_inputs(b),
    decreases b.len(),
{
    reveal_with_fuel(all_inputs, 2);
    assert(seq![step].drop_last() =~= Seq::empty());
    assert(Seq::<TransparentInput>::empty() + step.transparent_inputs@ =~= step.transparent_inputs@);
    if b.len() == 0 {
        assert(a + b =~= a);
        assert(all_inputs(a) + all_inputs(b) =~= all_inputs(a));
    } else {
        lemma_inputs_of_steps(a, b.drop_last(), step);
        assert((a + b).drop_last() =~= a + b.drop_last());
        assert(all_inputs(a + b) =~= all_inputs(a) + all_inputs(b));
    }
}

/// The value of each input is in the list of values, at the place of the input.
pub proof fn lemma_values_of_inputs(inputs: Seq<TransparentInput>)
    ensures
        input_values(inputs).len() == inputs.len(),
        forall|i: int| 0 <= i < inputs.len() ==> (#[trigger] input_values(inputs)[i]) == inputs[i].value,
{
}

/// What a proposal selected is counted input by input, and added up in full; there is an
/// error exactly where the sum cannot exist.
pub proof fn lemma_selected_totals(steps: Vec<ProposalStep>, r: RpcResult<UtxoTotals>)
    requires
        call_ensures(sum_selected_inputs, (&steps,), r),
    ensures
        call_requires(sum_selected_inputs, (&steps,)),
        r is Ok <==> total_value(input_values(all_inputs(steps@))) <= 2_100_000_000_000_000,
        match r {
            Ok(totals) => {
                &&& all_inputs(steps@).len() <= u64::MAX ==> totals.utxos == all_inputs(steps@).len()
                &&& all_inputs(steps@).len() > u64::MAX ==> totals.utxos == u64::MAX
                &&& totals.value@ == total_value(input_values(all_inputs(steps@)))
            },
            Err(e) => e.code == LegacyCode::Wallet && e.message@
                == "Internal error: shielding value sum overflowed Zatoshis bounds."@,
        },
{
}

/// A proposal of a single input selects one UTXO, worth the value of the input.
pub proof fn lemma_selected_one(steps: Vec<ProposalStep>, r: RpcResult<UtxoTotals>)
    requires
        steps@.len() == 1,
        steps@[0].transparent_inputs@.len() == 1,
        steps@[0].transparent_inputs@[0].value@ <= 2_100_000_000_000_000,
        call_ensures(sum_selected_inputs, (&steps,), r),
    ensures
        r matches Ok(totals) && totals.utxos == 1 && totals.value@ == steps@[0].transparent_inputs@[0].value@,
{
    let step = steps@[0];
    let z = step.transparent_inputs@[0].value;
    lemma_inputs_of_steps(Seq::empty(), Seq::empty(), step);
    assert(steps@ =~= seq![step]);
    assert(input_values(all_inputs(steps@)) =~= seq![z]);
    lemma_total_value_of_one(z, Seq::empty());
}

/// Two proposals together select as many UTXOs, and as much, as they do one by one.
pub proof fn lemma_selected_additive(
    a: Vec<ProposalStep>,
    b: Vec<ProposalStep>,
    both: Vec<ProposalStep>,
    ra: UtxoTotals,
    rb: UtxoTotals,
    r: RpcResult<UtxoTotals>,
)
    requires
        both@ == a@ + b@,
        call_ensures(sum_selected_inputs, (&a,), Ok(ra)),
        call_ensures(sum_selected_inputs, (&b,), Ok(rb)),
        call_ensures(sum_selected_inputs, (&both,), r),
    ensures
        r is Ok <==> ra.value@ + rb.value@ <= 2_100_000_000_000_000,
        r matches Ok(totals) ==> {
            &&& ra.utxos + rb.utxos <= u64::MAX ==> totals.utxos == ra.utxos + rb.utxos
            &&& totals.value@ == ra.value@ + rb.value@
        },
{
    lemma_inputs_of_steps(a@, b@, arbitrary());
    let va = input_values(all_inputs(a@));
    let vb = input_values(all_inputs(b@));
    assert(input_values(all_inputs(both@)) =~= va + vb);
    lemma_total_value_concat(va, vb);
}

/// What lookups found is what each of them found, one lookup after the other.
pub proof fn lemma_found_by_lookups(
    a: Seq<Result<Vec<Zatoshis>, String>>,
    b: Seq<Result<Vec<Zatoshis>, String>>,
    utxos: Vec<Zatoshis>,
)
    ensures
        found_values(Seq::empty()) == Seq::<Zatoshis>::empty(),
        found_values(seq![Ok(utxos)]) == utxos@,
        found_values(a + b) == found_values(a) + found_values(b),
    decreases b.len(),
{
    reveal_with_fuel(found_values, 2);
    let one = seq![Ok::<Vec<Zatoshis>, String>(utxos)];
    assert(one.drop_last() =~= Seq::empty());
    assert(Seq::<Zatoshis>::empty() + utxos@ =~= utxos@);
    if b.len() == 0 {
        assert(a + b =~= a);
        assert(found_values(a) + found_values(b) =~= found_values(a));
    } else {
        lemma_found_by_lookups(a, b.drop_last(), utxos);
        assert((a + b).drop_last() =~= a + b.drop_last());
        assert(found_values(a + b) =~= found_values(a) + found_values(b));
    }
}

/// Whether the lookups before a position succeeded and found no more than can exist.
spec fn fine_before(lookups: Seq<Result<Vec<Zatoshis>, String>>, k: int) -> bool {
    &&& forall|j: int| 0 <= j < k ==> (#[trigger] lookups[j]) is Ok
    &&& total_value(found_values(lookups.take(k))) <= 2_100_000_000_000_000
}

/// Lookups are eligible exactly where all of them succeed and find no more than can exist;
/// otherwise the first that fails, or that finds too much, is reported.
proof fn lemma_eligible_exactly(lookups: Seq<Result<Vec<Zatoshis>, String>>)
    ensures
        eligible_values(lookups) is Ok <==> fine_before(lookups, lookups.len() as int),
        eligible_values(lookups) matches Ok(values) ==> values == found_values(lookups),
        eligible_values(lookups) matches Err(f) ==> exists|k: int|
            {
                &&& 0 <= k < lookups.len()
                &&& #[trigger] fine_before(lookups, k)
                &&& match lookups[k] {
                    Err(text) => f.code == LegacyCode::Database && f.message == text@,
                    Ok(_) => total_value(found_values(lookups.take(k + 1))) > 2_100_000_000_000_000 && f.code
                        == LegacyCode::Wallet && f.message
                        == "Internal error: total transparent value overflowed Zatoshis bounds."@,
                }
            },
    decreases lookups.len(),
{
    assert(lookups.take(lookups.len() as int) =~= lookups);
    if lookups.len() > 0 {
        let n = lookups.len() - 1;
        let less = lookups.drop_last();
        lemma_eligible_exactly(less);
        assert(less.take(n) =~= less);
        assert(lookups.take(n) =~= less);
        assert(forall|j: int| 0 <= j < n ==> less[j] == lookups[j]);
        assert(lookups[n] == lookups.last());
        match eligible_values(less) {
            Err(f) => {
                let k = choose|k: int|
                    {
                        &&& 0 <= k < less.len()
                        &&& #[trigger] fine_before(less, k)
                        &&& match less[k] {
                            Err(text) => f.code == LegacyCode::Database && f.message == text@,
                            Ok(_) => total_value(found_values(less.take(k + 1))) > 2_100_000_000_000_000 && f.code
                                == LegacyCode::Wallet && f.message
                                == "Internal error: total transparent value overflowed Zatoshis bounds."@,
                        }
                    };
                assert(less.take(k) =~= lookups.take(k));
                assert(less.take(k + 1) =~= lookups.take(k + 1));
                assert(fine_before(lookups, k));
                if fine_before(lookups, lookups.len() as int) {
                    lemma_total_value_concat(found_values(less), lookups.last()->Ok_0@);
                    assert forall|j: int| 0 <= j < n implies (#[trigger] less[j]) is Ok by {
                        assert(lookups[j] is Ok);
                    }
                    assert(fine_before(less, n));
                }
            },
            Ok(values) => {
                assert(fine_before(lookups, n));
                lemma_total_value_concat(values, lookups.last()->Ok_0@);
                if lookups.last() is Ok {
                    assert(found_values(lookups) == values + lookups.last()->Ok_0@);
                }
            },
        }
    }
}

/// What is eligible is everything that was found, where every lookup succeeded and what was
/// found can exist; otherwise the first lookup that failed, or that found too much, decides.
pub proof fn lemma_eligible_spec(lookups: Seq<Result<Vec<Zatoshis>, String>>)
    ensures
        eligible_values(lookups) is Ok <==> {
            &&& forall|j: int| 0 <= j < lookups.len() ==> (#[trigger] lookups[j]) is Ok
            &&& total_value(found_values(lookups)) <= 2_100_000_000_000_000
        },
        eligible_values(lookups) matches Ok(values) ==> values == found_values(lookups),
        eligible_values(lookups) matches Err(f) ==> exists|k: int|
            {
                &&& 0 <= k < lookups.len()
                &&& forall|j: int| 0 <= j < k ==> (#[trigger] lookups[j]) is Ok
                &&& total_value(found_values(lookups.take(k))) <= 2_100_000_000_000_000
                &&& match #[trigger] lookups[k] {
                    Err(text) => f.code == LegacyCode::Database && f.message == text@,
                    Ok(_) => total_value(found_values(lookups.take(k + 1))) > 2_100_000_000_000_000 && f.code
                        == LegacyCode::Wallet && f.message
                        == "Internal error: total transparent value overflowed Zatoshis bounds."@,
                }
            },
{
    lemma_eligible_exactly(lookups);
    assert(lookups.take(lookups.len() as int) =~= lookups);
    if let Err(f) = eligible_values(lookups) {
        let k = choose|k: int|
            {
                &&& 0 <= k < lookups.len()
                &&& #[trigger] fine_before(lookups, k)
                &&& match lookups[k] {
                    Err(text) => f.code == LegacyCode::Database && f.message == text@,
                    Ok(_) => total_value(found_values(lookups.take(k + 1))) > 2_100_000_000_000_000 && f.code
                        == LegacyCode::Wallet && f.message
                        == "Internal error: total transparent value overflowed Zatoshis bounds."@,
                }
            };
        assert(lookups[k] == lookups[k]);
    }
}

/// What is eligible is counted UTXO by UTXO at all the addresses, and added up in full;
/// there is an error exactly where a lookup fails or the sum cannot exist, and the first of
/// these is reported.
pub proof fn lemma_eligible_totals(lookups: Vec<Result<Vec<Zatoshis>, String>>, r: RpcResult<UtxoTotals>)
    requires
        call_ensures(enumerate_eligible, (&lookups,), r),
    ensures
        call_requires(enumerate_eligible, (&lookups,)),
        r is Ok <==> {
            &&& forall|j: int| 0 <= j < lookups@.len() ==> (#[trigger] lookups@[j]) is Ok
            &&& total_value(found_values(lookups@)) <= 2_100_000_000_000_000
        },
        match r {
            Ok(totals) => {
                &&& found_values(lookups@).len() <= u64::MAX ==> totals.utxos == found_values(lookups@).len()
                &&& found_values(lookups@).len() > u64::MAX ==> totals.utxos == u64::MAX
                &&& totals.value@ == total_value(found_values(lookups@))
            },
            Err(e) => exists|k: int|
                {
                    &&& 0 <= k < lookups@.len()
                    &&& forall|j: int| 0 <= j < k ==> (#[trigger] lookups@[j]) is Ok
                    &&& total_value(found_values(lookups@.take(k))) <= 2_100_000_000_000_000
                    &&& match #[trigger] lookups@[k] {
                        Err(text) => e.code == LegacyCode::Database && e.message@ == text@,
                        Ok(_) => total_value(found_values(lookups@.take(k + 1))) > 2_100_000_000_000_000 && e.code
                            == LegacyCode::Wallet && e.message@
                            == "Internal error: total transparent value overflowed Zatoshis bounds."@,
                    }
                },
        },
{
    lemma_eligible_spec(lookups@);
}

/// A single UTXO at a single address is one eligible UTXO, worth its value.
pub proof fn lemma_eligible_one(lookups: Vec<Result<Vec<Zatoshis>, String>>, z: Zatoshis, r: RpcResult<UtxoTotals>)
    requires
        lookups@.len() == 1,
        lookups@[0] matches Ok(utxos) && utxos@ == seq![z],
        z@ <= 2_100_000_000_000_000,
        call_ensures(enumerate_eligible, (&lookups,), r),
    ensures
        r matches Ok(totals) && totals.utxos == 1 && totals.value@ == z@,
{
    let utxos = lookups@[0]->Ok_0;
    assert(lookups@ =~= seq![Ok::<Vec<Zatoshis>, String>(utxos)]);
    lemma_found_by_lookups(Seq::empty(), Seq::empty(), utxos);
    lemma_total_value_of_one(z, Seq::empty());
    lemma_eligible_totals(lookups, r);
}

/// The numbers to report: what was selected, in full, and what was eligible less that;
/// there is an error exactly where more was selected than was eligible, in number or in
/// value.
pub proof fn lemma_preflight_numbers(selected: UtxoTotals, eligible: UtxoTotals, r: RpcResult<Preflight>)
    requires
        call_ensures(Preflight::compute, (selected, eligible), r),
    ensures
        call_requires(Preflight::compute, (selected, eligible)),
        r is Ok <==> selected.utxos <= eligible.utxos && selected.value@ <= eligible.value@,
        match r {
            Ok(p) => {
                &&& p.shielding_utxos == selected.utxos
                &&& p.shielding_value.coins * 100_000_000 + p.shielding_value.fraction == selected.value@
                &&& p.shielding_value.fraction < 100_000_000
                &&& p.remaining_utxos + selected.utxos == eligible.utxos
                &&& p.remaining_value.coins * 100_000_000 + p.remaining_value.fraction + selected.value@
                    == eligible.value@
                &&& p.remaining_value.fraction < 100_000_000
            },
            Err(e) => e.code == LegacyCode::Wallet && e.message@ == if selected.utxos > eligible.utxos {
                "Internal accounting error: proposal selected more UTXOs than \
             enumeration found (likely a chain race during shielding setup)."@
            } else {
                "Internal accounting error: proposal value exceeds enumerated total \
             (likely a chain race during shielding setup)."@
            },
        },
{
}

/// A warning is due exactly where more than 400 UTXOs are shielded.
pub proof fn lemma_warning_due(p: Preflight, r: bool)
    requires
        call_ensures(Preflight::exceeds_warn_threshold, (&p,), r),
    ensures
        call_requires(Preflight::exceeds_warn_threshold, (&p,)),
        r <==> p.shielding_utxos > 400,
{
}

/// The result holds the pre-flight numbers and the identifier, each in its place.
pub proof fn lemma_result_fields(p: Preflight, opid: OperationId, r: ShieldCoinbaseResult)
    requires
        call_ensures(ShieldCoinbaseResult::new, (p, opid), r),
    ensures
        call_requires(ShieldCoinbaseResult::new, (p, opid)),
        r.shielding_utxos == p.shielding_utxos,
        r.shielding_value == p.shielding_value,
        r.remaining_utxos == p.remaining_utxos,
        r.remaining_value == p.remaining_value,
        r.opid == opid,
{
}

/// From the UTXOs to the reply: where the selected UTXOs are among the eligible ones, and all
/// of them can exist, the numbers are reported, and what remains are the others.
pub proof fn lemma_report_from_utxos(
    steps: Vec<ProposalStep>,
    lookups: Vec<Result<Vec<Zatoshis>, String>>,
    unselected: Seq<Zatoshis>,
    selected: UtxoTotals,
    eligible: UtxoTotals,
    r: RpcResult<Preflight>,
)
    requires
        call_ensures(sum_selected_inputs, (&steps,), Ok(selected)),
        call_ensures(enumerate_eligible, (&lookups,), Ok(eligible)),
        call_ensures(Preflight::compute, (selected, eligible), r),
        found_values(lookups@).len() <= u64::MAX,
        found_values(lookups@).to_multiset() == input_values(all_inputs(steps@)).to_multiset().add(
            unselected.to_multiset(),
        ),
    ensures
        r matches Ok(p) && {
            &&& p.shielding_utxos == all_inputs(steps@).len()
            &&& p.shielding_value@ == total_value(input_values(all_inputs(steps@)))
            &&& p.remaining_utxos == unselected.len()
            &&& p.remaining_value@ == total_value(unselected)
        },
{
    let p = r->Ok_0;
    lemma_eligible_totals(lookups, Ok(eligible));
    super::lemma_remaining_is_unselected(input_values(all_inputs(steps@)), unselected, found_values(lookups@), p);
}

} // verus!
