use shieldcoinbase::amount::{value_from_zatoshis, JsonZec, Zatoshis, MAX_MONEY};
use shieldcoinbase::error::LegacyCode;
use shieldcoinbase::inputs::{enumerate_eligible, sum_selected_inputs, ProposalStep, TransparentInput};
use shieldcoinbase::preflight::{
    OperationId, Preflight, ShieldCoinbaseResult, UtxoTotals, COINBASE_INPUTS_WARN_THRESHOLD,
};

fn zats(n: u64) -> Zatoshis {
    Zatoshis::from_u64(n).unwrap()
}

fn step(values: &[u64]) -> ProposalStep {
    ProposalStep {
        transparent_inputs: values
            .iter()
            .map(|n| TransparentInput { value: zats(*n), script_pubkey: vec![] })
            .collect(),
    }
}

fn totals(utxos: u64, value: u64) -> UtxoTotals {
    UtxoTotals { utxos, value: zats(value) }
}

#[test]
fn amounts_stay_in_range() {
    assert_eq!(Zatoshis::zero().into_u64(), 0);
    assert_eq!(zats(MAX_MONEY).into_u64(), 2_100_000_000_000_000);
    assert_eq!(Zatoshis::from_u64(MAX_MONEY + 1), None);
    assert_eq!(zats(3).plus(zats(4)), Some(zats(7)));
    assert_eq!(zats(MAX_MONEY).plus(zats(0)), Some(zats(MAX_MONEY)));
    assert_eq!(zats(MAX_MONEY).plus(zats(1)), None);
    assert_eq!(zats(4).minus(zats(3)), Some(zats(1)));
    assert_eq!(zats(4).minus(zats(4)), Some(Zatoshis::zero()));
    assert_eq!(zats(3).minus(zats(4)), None);
}

#[test]
fn range_is_that_of_the_protocol() {
    assert_eq!(MAX_MONEY, zcash_protocol::value::MAX_MONEY);
    assert_eq!(shieldcoinbase::amount::COIN, zcash_protocol::value::COIN);
}

#[test]
fn amounts_in_zec() {
    assert_eq!(value_from_zatoshis(zats(0)), JsonZec { coins: 0, fraction: 0 });
    assert_eq!(
        value_from_zatoshis(zats(312_500_001)),
        JsonZec { coins: 3, fraction: 12_500_001 }
    );
}

#[test]
fn selected_inputs_are_counted_and_added() {
    let steps = vec![step(&[5, 7]), step(&[]), step(&[1])];
    assert_eq!(sum_selected_inputs(&steps), Ok(totals(3, 13)));
    assert_eq!(sum_selected_inputs(&vec![]), Ok(totals(0, 0)));
}

#[test]
fn selected_overflow_is_reported() {
    let steps = vec![step(&[MAX_MONEY]), step(&[0, 1])];
    let err = sum_selected_inputs(&steps).unwrap_err();
    assert_eq!(err.code, LegacyCode::Wallet);
    assert_eq!(
        err.message,
        "Internal error: shielding value sum overflowed Zatoshis bounds."
    );
    assert_eq!(
        sum_selected_inputs(&vec![step(&[MAX_MONEY, 0])]),
        Ok(totals(2, MAX_MONEY))
    );
}

#[test]
fn eligible_utxos_are_counted_and_added() {
    let lookups = vec![Ok(vec![zats(5), zats(7)]), Ok(vec![]), Ok(vec![zats(1)])];
    assert_eq!(enumerate_eligible(&lookups), Ok(totals(3, 13)));
    assert_eq!(enumerate_eligible(&vec![]), Ok(totals(0, 0)));
}

#[test]
fn first_eligible_failure_is_reported() {
    let failed = || Err("no such table".to_string());
    let err = enumerate_eligible(&vec![Ok(vec![zats(1)]), failed()]).unwrap_err();
    assert_eq!((err.code, err.message.as_str()), (LegacyCode::Database, "no such table"));

    // What comes first counts.
    let err = enumerate_eligible(&vec![Ok(vec![zats(MAX_MONEY), zats(1)]), failed()]).unwrap_err();
    assert_eq!(err.code, LegacyCode::Wallet);
    assert_eq!(
        err.message,
        "Internal error: total transparent value overflowed Zatoshis bounds."
    );
    let err = enumerate_eligible(&vec![failed(), Ok(vec![zats(MAX_MONEY), zats(1)])]).unwrap_err();
    assert_eq!(err.code, LegacyCode::Database);
}

#[test]
fn numbers_add_up() {
    let p = Preflight::compute(totals(2, 150_000_000), totals(5, 400_000_000)).unwrap();
    assert_eq!(p.shielding_utxos, 2);
    assert_eq!(p.shielding_value, JsonZec { coins: 1, fraction: 50_000_000 });
    assert_eq!(p.remaining_utxos, 3);
    assert_eq!(p.remaining_value, JsonZec { coins: 2, fraction: 50_000_000 });
    assert!(!p.exceeds_warn_threshold());
}

#[test]
fn nothing_remains_when_everything_is_selected() {
    let p = Preflight::compute(totals(5, 4), totals(5, 4)).unwrap();
    assert_eq!((p.remaining_utxos, p.remaining_value), (0, JsonZec { coins: 0, fraction: 0 }));
}

#[test]
fn chain_race_is_reported() {
    let err = Preflight::compute(totals(3, 1), totals(2, 5)).unwrap_err();
    assert_eq!(err.code, LegacyCode::Wallet);
    assert_eq!(
        err.message,
        "Internal accounting error: proposal selected more UTXOs than enumeration found \
         (likely a chain race during shielding setup)."
    );
    let err = Preflight::compute(totals(2, 6), totals(2, 5)).unwrap_err();
    assert_eq!(err.code, LegacyCode::Wallet);
    assert_eq!(
        err.message,
        "Internal accounting error: proposal value exceeds enumerated total \
         (likely a chain race during shielding setup)."
    );
    // The count is looked at first.
    let err = Preflight::compute(totals(3, 6), totals(2, 5)).unwrap_err();
    assert!(err.message.contains("more UTXOs"));
}

#[test]
fn warning_above_the_threshold_only() {
    assert_eq!(COINBASE_INPUTS_WARN_THRESHOLD, 400);
    let at = Preflight::compute(totals(400, 1), totals(500, 1)).unwrap();
    assert!(!at.exceeds_warn_threshold());
    let above = Preflight::compute(totals(401, 1), totals(500, 1)).unwrap();
    assert!(above.exceeds_warn_threshold());
}

#[test]
fn result_joins_numbers_and_identifier() {
    let p = Preflight::compute(totals(2, 150_000_000), totals(5, 400_000_000)).unwrap();
    let r = ShieldCoinbaseResult::new(p, OperationId { id: "opid-1".to_string() });
    assert_eq!(r.remaining_utxos, 3);
    assert_eq!(r.remaining_value, JsonZec { coins: 2, fraction: 50_000_000 });
    assert_eq!(r.shielding_utxos, 2);
    assert_eq!(r.shielding_value, JsonZec { coins: 1, fraction: 50_000_000 });
    assert_eq!(r.opid.id, "opid-1");
}

#[test]
fn code_numbers() {
    assert_eq!(LegacyCode::Wallet.number(), -4);
    assert_eq!(LegacyCode::InvalidAddressOrKey.number(), -5);
    assert_eq!(LegacyCode::InvalidParameter.number(), -8);
    assert_eq!(LegacyCode::WalletUnlockNeeded.number(), -13);
    assert_eq!(LegacyCode::Database.number(), -20);
}
