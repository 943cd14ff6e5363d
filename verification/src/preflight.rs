//! The numbers that the method reports before its transaction is built.
use vstd::prelude::*;

use crate::amount::{value_from_zatoshis, JsonZec, Zatoshis};
use crate::error::{failure, Failure, LegacyCode, RpcResult};

verus! {

/// The number of selected coinbase UTXOs above which the resulting transaction may be too
/// large to be broadcast.
pub const COINBASE_INPUTS_WARN_THRESHOLD: u64 = 400;

/// Pre-flight numeric fields, computed before the asynchronous part of the method runs.
///
/// Held apart from [`ShieldCoinbaseResult`] because the [`OperationId`] is only known once
/// the asynchronous operation is registered.
#[derive(Clone, Copy, Debug, PartialEq, Eq, Structural)]
pub struct Preflight {
    /// See [`ShieldCoinbaseResult::remaining_utxos`].
    pub remaining_utxos: u64,
    /// See [`ShieldCoinbaseResult::remaining_value`].
    pub remaining_value: JsonZec,
    /// See [`ShieldCoinbaseResult::shielding_utxos`].
    pub shielding_utxos: u64,
    /// See [`ShieldCoinbaseResult::shielding_value`].
    pub shielding_value: JsonZec,
}

/// The identifier of a registered asynchronous operation.
#[derive(Debug, PartialEq, Eq)]
pub struct OperationId {
    /// The identifier's text.
    pub id: String,
}

/// The result of a pre-flight call.
#[derive(Debug, PartialEq, Eq)]
pub struct ShieldCoinbaseResult {
    /// Number of coinbase UTXOs that were eligible for shielding but were not selected by
    /// this operation. Non-zero when the caller supplied a limit that was smaller than the
    /// count of eligible coinbase UTXOs.
    pub remaining_utxos: u64,
    /// Total value of coinbase UTXOs that were eligible for shielding but were not selected
    /// by this operation.
    pub remaining_value: JsonZec,
    /// Number of coinbase UTXOs being shielded by this operation.
    pub shielding_utxos: u64,
    /// Total value of coinbase UTXOs being shielded by this operation.
    pub shielding_value: JsonZec,
    /// The identifier with which the final result can be asked for.
    pub opid: OperationId,
}

impl ShieldCoinbaseResult {
    /// Combines the pre-flight numbers with the identifier of the registered operation.
    pub fn new(preflight: Preflight, opid: OperationId) -> (r: ShieldCoinbaseResult)
        ensures
            r == (ShieldCoinbaseResult {
                remaining_utxos: preflight.remaining_utxos,
                remaining_value: preflight.remaining_value,
                shielding_utxos: preflight.shielding_utxos,
                shielding_value: preflight.shielding_value,
                opid,
            }),
    {
        ShieldCoinbaseResult {
            remaining_utxos: preflight.remaining_utxos,
            remaining_value: preflight.remaining_value,
            shielding_utxos: preflight.shielding_utxos,
            shielding_value: preflight.shielding_value,
            opid,
        }
    }
}

/// A number of UTXOs and their total value.
#[derive(Clone, Copy, Debug, PartialEq, Eq)]
pub struct UtxoTotals {
    /// How many.
    pub utxos: u64,
    /// How much.
    pub value: Zatoshis,
}

/// A number of UTXOs and their total value, as a mathematical value.
pub struct Totals {
    pub utxos: u64,
    pub value: nat,
}

impl View for UtxoTotals {
    type V = Totals;

    open spec fn view(&self) -> Totals {
        Totals { utxos: self.utxos, value: self.value@ }
    }
}

/// Why the pre-flight numbers cannot be computed, if they cannot: the UTXOs that the
/// proposal selected are among the eligible ones, so they are no more in number and in
/// value, unless the chain changed in between.
pub open spec fn preflight_failure(selected: Totals, eligible: Totals) -> Option<Failure> {
    if selected.utxos > eligible.utxos {
        Some(
            failure(
                LegacyCode::Wallet,
                "Internal accounting error: proposal selected more UTXOs than \
             enumeration found (likely a chain race during shielding setup)."@,
            ),
        )
    } else if selected.value > eligible.value {
        Some(
            failure(
                LegacyCode::Wallet,
                "Internal accounting error: proposal value exceeds enumerated total \
             (likely a chain race during shielding setup)."@,
            ),
        )
    } else {
        None
    }
}

/// Whether these are the pre-flight numbers for what was selected out of what was eligible.
pub open spec fn is_preflight(p: Preflight, selected: Totals, eligible: Totals) -> bool {
    &&& p.shielding_utxos == selected.utxos
    &&& p.shielding_value.wf() && p.shielding_value@ == selected.value
    &&& p.remaining_utxos == eligible.utxos - selected.utxos
    &&& p.remaining_value.wf() && p.remaining_value@ == eligible.value - selected.value
}

impl Preflight {
    /// The pre-flight numbers, from what the proposal selected and what was eligible.
    pub fn compute(selected: UtxoTotals, eligible: UtxoTotals) -> (r: RpcResult<Preflight>)
        ensures
            match r {
                Ok(p) => preflight_failure(selected@, eligible@) is None && is_preflight(p, selected@, eligible@),
                Err(e) => preflight_failure(selected@, eligible@) == Some(e@),
            },
    {
        let remaining_utxos: u64 = match eligible.utxos.checked_sub(selected.utxos) {
            Some(n) => n,
            None => {
                return Err(
                    LegacyCode::Wallet.with_static(
                        "Internal accounting error: proposal selected more UTXOs than \
             enumeration found (likely a chain race during shielding setup).",
                    ),
                );
            },
        };
        let remaining_value = match eligible.value.minus(selected.value) {
            Some(z) => z,
            None => {
                return Err(
                    LegacyCode::Wallet.with_static(
                        "Internal accounting error: proposal value exceeds enumerated total \
             (likely a chain race during shielding setup).",
                    ),
                );
            },
        };
        Ok(
            Preflight {
                remaining_utxos,
                remaining_value: value_from_zatoshis(remaining_value),
                shielding_utxos: selected.utxos,
                shielding_value: value_from_zatoshis(selected.value),
            },
        )
    }

    /// Whether so many UTXOs were selected that the caller should be warned about the size
    /// of the transaction.
    pub fn exceeds_warn_threshold(&self) -> (r: bool)
        ensures
            r == (self.shielding_utxos > COINBASE_INPUTS_WARN_THRESHOLD),
    {
        self.shielding_utxos > COINBASE_INPUTS_WARN_THRESHOLD
    }
}

/// Nothing gets lost: what is shielded and what remains add up to what was eligible, in
/// number and in value.
pub proof fn lemma_preflight_conserves(p: Preflight, selected: Totals, eligible: Totals)
    requires
        preflight_failure(selected, eligible) is None,
        is_preflight(p, selected, eligible),
    ensures
        p.shielding_utxos + p.remaining_utxos == eligible.utxos,
        p.shielding_value@ + p.remaining_value@ == eligible.value,
{
}

/// Something remains exactly when not everything eligible was selected.
pub proof fn lemma_remaining_nonzero(p: Preflight, selected: Totals, eligible: Totals)
    requires
        preflight_failure(selected, eligible) is None,
        is_preflight(p, selected, eligible),
    ensures
        p.remaining_utxos != 0 <==> selected.utxos < eligible.utxos,
        p.remaining_value@ != 0 <==> selected.value < eligible.value,
{
}

/// Where a limit caps the selection below the number of eligible UTXOs, something remains.
pub proof fn lemma_limit_leaves_remaining(p: Preflight, selected: Totals, eligible: Totals, limit: u32)
    requires
        is_preflight(p, selected, eligible),
        selected.utxos <= limit < eligible.utxos,
    ensures
        p.remaining_utxos != 0,
        p.remaining_utxos >= eligible.utxos - limit,
{
}

/// The pre-flight numbers are determined by what was selected and what was eligible.
pub proof fn lemma_preflight_unique(a: Preflight, b: Preflight, selected: Totals, eligible: Totals)
    requires
        is_preflight(a, selected, eligible),
        is_preflight(b, selected, eligible),
    ensures
        a == b,
{
}

} // verus!
