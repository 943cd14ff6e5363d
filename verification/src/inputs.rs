//! Counting and adding up UTXOs: those that a proposal selected, and those that were
//! eligible.
use vstd::prelude::*;

use crate::amount::{Zatoshis, MAX_MONEY};
use crate::error::{failure, Failure, LegacyCode, RpcResult};
use crate::preflight::{Totals, UtxoTotals};

verus! {

/// A transparent input of a proposed transaction: the UTXO that it spends.
#[derive(Debug, PartialEq, Eq)]
pub struct TransparentInput {
    /// The value of the UTXO.
    pub value: Zatoshis,
    /// The script that says who can spend it.
    pub script_pubkey: Vec<u8>,
}

/// A step of a proposal, as far as it spends transparent UTXOs.
#[derive(Debug, PartialEq, Eq)]
pub struct ProposalStep {
    /// The UTXOs that the step spends.
    pub transparent_inputs: Vec<TransparentInput>,
}

/// All the inputs of the steps of a proposal, in order.
pub open spec fn all_inputs(steps: Seq<ProposalStep>) -> Seq<TransparentInput>
    decreases steps.len(),
{
    if steps.len() == 0 {
        Seq::empty()
    } else {
        all_inputs(steps.drop_last()) + steps.last().transparent_inputs@
    }
}

/// The values of inputs.
pub open spec fn input_values(inputs: Seq<TransparentInput>) -> Seq<Zatoshis> {
    inputs.map_values(|input: TransparentInput| input.value)
}

/// The sum of amounts.
pub open spec fn total_value(values: Seq<Zatoshis>) -> nat
    decreases values.len(),
{
    if values.len() == 0 {
        0
    } else {
        total_value(values.drop_last()) + values.last()@
    }
}

/// A count that stays at the largest number it can hold.
pub open spec fn saturated(n: nat) -> u64 {
    if n <= u64::MAX {
        n as u64
    } else {
        u64::MAX
    }
}

/// The number and the sum of the given amounts.
pub open spec fn totals_of(values: Seq<Zatoshis>) -> Totals {
    Totals { utxos: saturated(values.len()), value: total_value(values) }
}

/// The sum of two lists of amounts is the sum of their sums.
pub proof fn lemma_total_value_concat(a: Seq<Zatoshis>, b: Seq<Zatoshis>)
    ensures
        total_value(a + b) == total_value(a) + total_value(b),
    decreases b.len(),
{
    if b.len() == 0 {
        assert(a + b =~= a);
    } else {
        lemma_total_value_concat(a, b.drop_last());
        assert((a + b).drop_last() =~= a + b.drop_last());
        assert((a + b).last() == b.last());
    }
}

/// The inputs of the first steps, and then the first inputs of the next, are the first
/// inputs of the whole proposal.
proof fn lemma_inputs_prefix(steps: Seq<ProposalStep>, n: int)
    requires
        0 <= n <= steps.len(),
    ensures
        all_inputs(steps.take(n)).len() <= all_inputs(steps).len(),
        all_inputs(steps).take(all_inputs(steps.take(n)).len() as int) == all_inputs(steps.take(n)),
        n < steps.len() ==> all_inputs(steps.take(n + 1)) == all_inputs(steps.take(n))
            + steps[n].transparent_inputs@,
    decreases steps.len(),
{
    if n == steps.len() {
        assert(steps.take(n) =~= steps);
        assert(all_inputs(steps).take(all_inputs(steps).len() as int) =~= all_inputs(steps));
    } else {
        lemma_inputs_prefix(steps.drop_last(), n);
        assert(steps.drop_last().take(n) =~= steps.take(n));
        let whole = all_inputs(steps);
        let less = all_inputs(steps.drop_last());
        let part = all_inputs(steps.take(n));
        assert(whole.take(part.len() as int) =~= less.take(part.len() as int));
        assert(steps.take(n + 1).drop_last() =~= steps.take(n));
        assert(steps.take(n + 1).last() == steps[n]);
    }
}

/// A part of a list of amounts is worth no more than the whole.
proof fn lemma_total_value_prefix(values: Seq<Zatoshis>, n: int)
    requires
        0 <= n <= values.len(),
    ensures
        total_value(values.take(n)) <= total_value(values),
{
    lemma_total_value_concat(values.take(n), values.skip(n));
    assert(values.take(n) + values.skip(n) =~= values);
}

/// What is reported when the selected UTXOs are worth more than can exist.
pub open spec fn selected_overflow() -> Failure {
    failure(
        LegacyCode::Wallet,
        "Internal error: shielding value sum overflowed Zatoshis bounds."@,
    )
}

/// The number and the total value of the UTXOs that a proposal selected.
pub fn sum_selected_inputs(steps: &Vec<ProposalStep>) -> (r: RpcResult<UtxoTotals>)
    ensures
        match r {
            Ok(totals) => totals@ == totals_of(input_values(all_inputs(steps@))) && total_value(
                input_values(all_inputs(steps@)),
            ) <= MAX_MONEY,
            Err(e) => e@ == selected_overflow() && total_value(input_values(all_inputs(steps@))) > MAX_MONEY,
        },
{
    let mut count: u64 = 0;
    let mut sum = Zatoshis::zero();
    let ghost all = input_values(all_inputs(steps@));
    let mut s: usize = 0;
    assert(all_inputs(steps@.take(0)) =~= Seq::empty());
    assert(input_values(all_inputs(steps@.take(0))) =~= Seq::empty());
    while s < steps.len()
        invariant
            s <= steps.len(),
            all == input_values(all_inputs(steps@)),
            count == saturated(all_inputs(steps@.take(s as int)).len()),
            sum@ == total_value(input_values(all_inputs(steps@.take(s as int)))),
            sum@ <= MAX_MONEY,
        decreases steps.len() - s,
    {
        let inputs = &steps[s].transparent_inputs;
        let ghost before = all_inputs(steps@.take(s as int));
        let mut i: usize = 0;
        assert(before + inputs@.take(0) =~= before);
        while i < inputs.len()
            invariant
                s < steps.len(),
                i <= inputs.len(),
                all == input_values(all_inputs(steps@)),
                before == all_inputs(steps@.take(s as int)),
                *inputs == steps@[s as int].transparent_inputs,
                count == saturated((before + inputs@.take(i as int)).len()),
                sum@ == total_value(input_values(before + inputs@.take(i as int))),
                sum@ <= MAX_MONEY,
            decreases inputs.len() - i,
        {
            let ghost here = before + inputs@.take(i as int);
            let ghost next = before + inputs@.take(i + 1);
            count = count.saturating_add(1);
            proof {
                assert(input_values(next).drop_last() =~= input_values(here));
                assert(input_values(next).last() == inputs@[i as int].value);
                lemma_inputs_prefix(steps@, s as int);
                lemma_inputs_prefix(steps@, s + 1);
                let through = all_inputs(steps@.take(s + 1));
                assert(next =~= through.take(next.len() as int));
                assert(next =~= all_inputs(steps@).take(next.len() as int));
                assert(input_values(next) =~= all.take(next.len() as int));
                lemma_total_value_prefix(all, next.len() as int);
            }
            match sum.plus(inputs[i].value) {
                Some(z) => {
                    sum = z;
                },
                None => {
                    return Err(
                        LegacyCode::Wallet.with_static(
                            "Internal error: shielding value sum overflowed Zatoshis bounds.",
                        ),
                    );
                },
            }
            i += 1;
        }
        proof {
            lemma_inputs_prefix(steps@, s as int);
            assert(inputs@.take(inputs@.len() as int) =~= inputs@);
        }
        s += 1;
    }
    assert(steps@.take(steps@.len() as int) =~= steps@);
    Ok(UtxoTotals { utxos: count, value: sum })
}

/// What is reported when the eligible UTXOs are worth more than can exist.
pub open spec fn eligible_overflow() -> Failure {
    failure(
        LegacyCode::Wallet,
        "Internal error: total transparent value overflowed Zatoshis bounds."@,
    )
}

/// The values of the eligible UTXOs at a number of addresses, from what the wallet
/// database answered for each of the addresses in turn; the first failure where there is
/// one.
pub open spec fn eligible_values(lookups: Seq<Result<Vec<Zatoshis>, String>>) -> Result<Seq<Zatoshis>, Failure>
    decreases lookups.len(),
{
    if lookups.len() == 0 {
        Ok(Seq::empty())
    } else {
        match (eligible_values(lookups.drop_last()), lookups.last()) {
            (Err(f), _) => Err(f),
            (Ok(_), Err(text)) => Err(failure(LegacyCode::Database, text@)),
            (Ok(values), Ok(utxos)) => if total_value(values + utxos@) <= MAX_MONEY {
                Ok(values + utxos@)
            } else {
                Err(eligible_overflow())
            },
        }
    }
}

/// All the values of lookups that succeeded, in order.
pub open spec fn found_values(lookups: Seq<Result<Vec<Zatoshis>, String>>) -> Seq<Zatoshis>
    decreases lookups.len(),
{
    if lookups.len() == 0 {
        Seq::empty()
    } else {
        found_values(lookups.drop_last()) + lookups.last()->Ok_0@
    }
}

/// A failure among the first lookups is the failure of all.
proof fn lemma_eligible_failure_stays(lookups: Seq<Result<Vec<Zatoshis>, String>>, n: int)
    requires
        0 <= n <= lookups.len(),
        eligible_values(lookups.take(n)) is Err,
    ensures
        eligible_values(lookups) == eligible_values(lookups.take(n)),
    decreases lookups.len(),
{
    if n == lookups.len() {
        assert(lookups.take(n) =~= lookups);
    } else {
        assert(lookups.drop_last().take(n) =~= lookups.take(n));
        lemma_eligible_failure_stays(lookups.drop_last(), n);
    }
}

/// Where every lookup succeeds and everything found is worth no more than can exist,
/// everything found is eligible: no UTXO is left out, and none is counted twice.
pub proof fn lemma_eligible_complete(lookups: Seq<Result<Vec<Zatoshis>, String>>)
    requires
        forall|i: int| 0 <= i < lookups.len() ==> (#[trigger] lookups[i]) is Ok,
        total_value(found_values(lookups)) <= MAX_MONEY,
    ensures
        eligible_values(lookups) == Ok::<Seq<Zatoshis>, Failure>(found_values(lookups)),
    decreases lookups.len(),
{
    if lookups.len() > 0 {
        lemma_total_value_concat(found_values(lookups.drop_last()), lookups.last()->Ok_0@);
        lemma_eligible_complete(lookups.drop_last());
    }
}

/// The number and the total value of the eligible UTXOs, from what the wallet database
/// answered for each of the source addresses in turn: the values of the spendable coinbase
/// UTXOs there, or why they could not be listed.
pub fn enumerate_eligible(lookups: &Vec<Result<Vec<Zatoshis>, String>>) -> (r: RpcResult<UtxoTotals>)
    ensures
        match (r, eligible_values(lookups@)) {
            (Ok(totals), Ok(values)) => totals@ == totals_of(values),
            (Err(e), Err(f)) => e@ == f,
            _ => false,
        },
{
    let mut total_utxos: u64 = 0;
    let mut total_value_zats = Zatoshis::zero();
    let mut n: usize = 0;
    let ghost mut values: Seq<Zatoshis> = Seq::empty();
    assert(lookups@.take(0) =~= Seq::empty());
    while n < lookups.len()
        invariant
            n <= lookups.len(),
            eligible_values(lookups@.take(n as int)) == Ok::<Seq<Zatoshis>, Failure>(values),
            total_utxos == saturated(values.len()),
            total_value_zats@ == total_value(values),
            total_value_zats@ <= MAX_MONEY,
        decreases lookups.len() - n,
    {
        let ghost through = lookups@.take(n + 1);
        proof {
            assert(through.drop_last() =~= lookups@.take(n as int));
            assert(through.last() == lookups@[n as int]);
            if eligible_values(through) is Err {
                lemma_eligible_failure_stays(lookups@, n + 1);
            }
        }
        match &lookups[n] {
            Err(e) => {
                return Err(LegacyCode::Database.with_message(e.clone()));
            },
            Ok(utxos) => {
                total_utxos = total_utxos.saturating_add(utxos.len() as u64);
                let mut i: usize = 0;
                assert(values + utxos@.take(0) =~= values);
                while i < utxos.len()
                    invariant
                        n < lookups.len(),
                        i <= utxos.len(),
                        through == lookups@.take(n + 1),
                        through.drop_last() == lookups@.take(n as int),
                        through.last() == Ok::<Vec<Zatoshis>, String>(*utxos),
                        eligible_values(through) is Err ==> eligible_values(lookups@) == eligible_values(through),
                        eligible_values(lookups@.take(n as int)) == Ok::<Seq<Zatoshis>, Failure>(values),
                        total_value_zats@ == total_value(values + utxos@.take(i as int)),
                        total_value_zats@ <= MAX_MONEY,
                    decreases utxos.len() - i,
                {
                    let ghost here = values + utxos@.take(i as int);
                    let ghost next = values + utxos@.take(i + 1);
                    proof {
                        assert(next.drop_last() =~= here);
                        assert(next.last() == utxos@[i as int]);
                        assert(next =~= (values + utxos@).take(next.len() as int));
                        lemma_total_value_prefix(values + utxos@, next.len() as int);
                    }
                    match total_value_zats.plus(utxos[i]) {
                        Some(z) => {
                            total_value_zats = z;
                        },
                        None => {
                            return Err(
                                LegacyCode::Wallet.with_static(
                                    "Internal error: total transparent value overflowed Zatoshis bounds.",
                                ),
                            );
                        },
                    }
                    i += 1;
                }
                proof {
                    assert(utxos@.take(utxos@.len() as int) =~= utxos@);
                    values = values + utxos@;
                }
            },
        }
        n += 1;
    }
    assert(lookups@.take(lookups@.len() as int) =~= lookups@);
    Ok(UtxoTotals { utxos: total_utxos, value: total_value_zats })
}

} // verus!
