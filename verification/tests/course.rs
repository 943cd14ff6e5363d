use shieldcoinbase::address::{NetworkType, TransparentAddress};
use shieldcoinbase::amount::{JsonZec, Zatoshis, MAX_MONEY};
use shieldcoinbase::call::{
    built_transactions, call, AccountFetch, AccountRecord, ConfirmationsPolicy, FeeRule, KeyDerivation, OvkPolicy,
    PolicyCheck, PrivacyPolicy, ProposalSummary, Proposing, ReceiverQuery, SeedFetch, SourceLookup,
    TransparentOutputFilter,
};
use shieldcoinbase::error::{LegacyCode, RpcError};
use shieldcoinbase::fromaddress::FromAddressInput;
use shieldcoinbase::inputs::{ProposalStep, TransparentInput};
use shieldcoinbase::keys::{AddressSource, KeyStoreError, Receiver};
use shieldcoinbase::params::{parse_memo, Request};
use zcash_keys::keys::UnifiedSpendingKey;
use zcash_protocol::consensus::{MAIN_NETWORK, TEST_NETWORK};

const FROM: &str = "t1VydNnkjBzfL1iAMyUbwGKJAF7PgvuCfMY";
const TO: &str = "zs1z7rejlpsa98s2rrrfkwmaxu53e4ue0ulcrw0h4x5g8jl04tak0d3mm47vdtahatqrlkngh9slya";
const ACCOUNT: &str = "123e4567-e89b-12d3-a456-426614174000";
const ACCOUNT_ID: u128 = 0x123e4567_e89b_12d3_a456_426614174000;

fn zats(n: u64) -> Zatoshis {
    Zatoshis::from_u64(n).unwrap()
}

fn start(from: &str, to: &str, fee: Option<u8>, memo: Option<&str>, policy: Option<&str>) -> Result<SourceLookup, RpcError> {
    call(
        NetworkType::Main,
        from.to_string(),
        to.to_string(),
        &fee,
        Some(50),
        &memo.map(|m| m.to_string()),
        &policy.map(|p| p.to_string()),
    )
}

fn refused(r: Result<SourceLookup, RpcError>) -> RpcError {
    match r {
        Ok(_) => panic!("expected a refusal"),
        Err(e) => e,
    }
}

fn failed<T>(r: Result<T, RpcError>) -> (LegacyCode, String) {
    match r {
        Ok(_) => panic!("expected a failure"),
        Err(e) => (e.code, e.message),
    }
}

fn from_account() -> AccountFetch {
    let lookup = match start(ACCOUNT, TO, None, Some("00ff"), None) {
        Ok(SourceLookup::Account(lookup)) => lookup,
        _ => panic!("expected an account"),
    };
    let receivers = vec![TransparentAddress::PublicKeyHash([1; 20]), TransparentAddress::ScriptHash([2; 20])];
    let listing = lookup.answered(Ok(true)).ok().unwrap();
    listing.answered(Ok(receivers)).ok().unwrap()
}

fn proposing(derivation: Option<KeyDerivation>) -> Proposing {
    from_account().answered(Ok(Some(AccountRecord { derivation }))).ok().unwrap()
}

fn script_hash_script(n: u8) -> Vec<u8> {
    let mut bytes = vec![0xa9, 0x14];
    bytes.extend([n; 20]);
    bytes.push(0x87);
    bytes
}

fn policy_check(values: &[u64], derivation: Option<KeyDerivation>) -> PolicyCheck {
    let transparent_inputs = values
        .iter()
        .map(|n| TransparentInput { value: zats(*n), script_pubkey: script_hash_script(2) })
        .collect();
    let summary = ProposalSummary { steps: vec![ProposalStep { transparent_inputs }], min_target_height: 100 };
    proposing(derivation).answered(Ok(summary)).ok().unwrap()
}

fn seed_fetch() -> SeedFetch {
    let scan = policy_check(&[30, 20], KeyDerivation::new([9; 32], 3)).answered(Ok(())).ok().unwrap();
    let lookups = vec![Ok(vec![zats(10), zats(20)]), Ok(vec![zats(30)])];
    scan.answered(&lookups).ok().unwrap().seed_fetch().ok().unwrap()
}

#[test]
fn fee_is_refused_before_anything_else() {
    let err = refused(start("garbage", "garbage", Some(1), Some("x"), Some("FullPrivacy")));
    assert_eq!(err.code, LegacyCode::InvalidParameter);
    assert_eq!(
        err.message,
        "Zallet always calculates fees internally; the fee field must be null."
    );
}

#[test]
fn privacy_policy_is_refused() {
    let err = refused(start(FROM, TO, None, None, Some("FullPrivacy")));
    assert_eq!(err.code, LegacyCode::InvalidParameter);
    assert_eq!(
        err.message,
        "Zallet does not support configuring the privacy policy for z_shieldcoinbase; \
         the privacy_policy field must be null."
    );
}

#[test]
fn destination_has_to_be_an_address() {
    let err = refused(start("garbage", "nowhere", None, Some("x"), None));
    assert_eq!(err.code, LegacyCode::InvalidParameter);
    assert_eq!(err.message, "Invalid parameter, unknown address format: nowhere");
}

#[test]
fn memo_has_to_be_hexadecimal() {
    let err = refused(start("garbage", TO, None, Some("0g"), None));
    assert_eq!(err.code, LegacyCode::InvalidParameter);
    assert!(err.message.contains("memo"));
    let err = refused(start("garbage", TO, None, None, None));
    assert!(err.message.contains("`fromaddress`"));
}

#[test]
fn memos_are_read() {
    assert_eq!(parse_memo(""), Ok(vec![]));
    assert_eq!(parse_memo("00Ffa9"), Ok(vec![0x00, 0xff, 0xa9]));
    assert_eq!(parse_memo(&"ab".repeat(512)), Ok(vec![0xab; 512]));
    assert!(parse_memo(&"ab".repeat(513)).is_err());
    assert!(parse_memo("abc").is_err());
    assert!(parse_memo("0x").is_err());
    assert!(parse_memo("éé").is_err());
}

#[test]
fn source_is_looked_up() {
    match start(FROM, TO, None, None, None) {
        Ok(SourceLookup::Owner(lookup)) => {
            assert_eq!(lookup.request.source, FromAddressInput::TransparentAddress(lookup.address));
            assert_eq!(lookup.request.context.method, "z_shieldcoinbase");
            assert_eq!(lookup.request.context.fromaddress, FROM);
            assert_eq!(lookup.request.context.toaddress, TO);
            assert_eq!(lookup.request.context.limit, Some(50));
            assert_eq!(lookup.request.memo, None);
        }
        _ => panic!("expected an address"),
    }
    match start(ACCOUNT, TO, None, None, None) {
        Ok(SourceLookup::Account(lookup)) => assert_eq!(lookup.account_id, ACCOUNT_ID),
        _ => panic!("expected an account"),
    }
}

#[test]
fn request_from_what_was_read() {
    let source = FromAddressInput::AccountUuid(8);
    let request = |to_readable, source| {
        Request::from_parsed::<u8>(
            NetworkType::Test,
            "a".to_string(),
            "b".to_string(),
            &None,
            None,
            &None,
            &None,
            to_readable,
            source,
        )
    };
    let accepted = request(true, Ok(source)).unwrap();
    assert_eq!((accepted.network, accepted.source), (NetworkType::Test, source));
    assert_eq!(
        failed(request(false, Ok(source))).1,
        "Invalid parameter, unknown address format: b"
    );
    let err = LegacyCode::InvalidAddressOrKey.with_static("no");
    assert_eq!(failed(request(true, Err(err))).0, LegacyCode::InvalidAddressOrKey);
}

#[test]
fn account_has_to_be_known_and_to_have_receivers() {
    let lookup = || match start(ACCOUNT, TO, None, None, None) {
        Ok(SourceLookup::Account(lookup)) => lookup,
        _ => panic!("expected an account"),
    };
    assert_eq!(
        failed(lookup().answered(Ok(false))),
        (LegacyCode::InvalidParameter, format!("Unknown account UUID: {ACCOUNT}"))
    );
    assert_eq!(
        failed(lookup().answered(Err("e".to_string()))),
        (LegacyCode::Database, "e".to_string())
    );
    let listing = || lookup().answered(Ok(true)).ok().unwrap();
    assert_eq!(
        listing().query,
        ReceiverQuery { account_id: ACCOUNT_ID, include_change: true, include_standalone: true }
    );
    assert_eq!(
        failed(listing().answered(Ok(vec![]))),
        (
            LegacyCode::InvalidParameter,
            "No source transparent addresses resolved from `fromaddress`.".to_string()
        )
    );
    assert_eq!(
        failed(listing().answered(Err("e".to_string()))),
        (LegacyCode::Database, "e".to_string())
    );
}

#[test]
fn address_has_to_be_owned() {
    let lookup = || match start(FROM, TO, None, None, None) {
        Ok(SourceLookup::Owner(lookup)) => lookup,
        _ => panic!("expected an address"),
    };
    let address = lookup().address;
    let fetch = lookup().answered(Ok(Some(ACCOUNT_ID))).ok().unwrap();
    assert_eq!(fetch.source.account_id, ACCOUNT_ID);
    assert_eq!(fetch.source.from_addrs, vec![address]);
    assert_eq!(failed(lookup().answered(Ok(None))).0, LegacyCode::InvalidAddressOrKey);
    assert_eq!(failed(lookup().answered(Err("e".to_string()))).0, LegacyCode::Database);
}

#[test]
fn account_may_vanish() {
    assert_eq!(
        failed(from_account().answered(Ok(None))),
        (
            LegacyCode::Database,
            format!("Account vanished mid-call: AccountUuid({ACCOUNT})")
        )
    );
    assert_eq!(
        failed(from_account().answered(Err("e".to_string()))),
        (LegacyCode::Database, "e".to_string())
    );
}

#[test]
fn proposal_is_asked_for_as_given() {
    let asked = proposing(None).proposal;
    assert_eq!(asked.fee_rule, FeeRule::Zip317);
    assert_eq!(asked.shielding_threshold, Zatoshis::zero());
    assert_eq!(asked.to_address, TO);
    assert_eq!(asked.memo, Some(vec![0x00, 0xff]));
    assert_eq!(asked.limit, Some(50));
    assert_eq!(asked.from_addrs.len(), 2);
}

#[test]
fn proposal_may_fail() {
    assert_eq!(
        failed(proposing(None).answered(Err("insufficient funds".to_string()))),
        (
            LegacyCode::Wallet,
            "Failed to propose shielding transaction: insufficient funds".to_string()
        )
    );
}

#[test]
fn policy_has_to_allow_the_proposal() {
    let check = policy_check(&[30], None);
    assert_eq!(check.policy, PrivacyPolicy::AllowLinkingAccountAddresses);
    let err = LegacyCode::InvalidParameter.with_static("too revealing");
    assert_eq!(
        failed(check.answered(Err(err))),
        (LegacyCode::InvalidParameter, "too revealing".to_string())
    );
}

#[test]
fn selected_inputs_may_be_worth_too_much() {
    let check = policy_check(&[MAX_MONEY, 1], None);
    assert_eq!(failed(check.answered(Ok(()))).0, LegacyCode::Wallet);
}

#[test]
fn numbers_are_reported() {
    let scan = policy_check(&[30, 20], None).answered(Ok(())).ok().unwrap();
    assert_eq!(scan.query.target_height, 100);
    assert_eq!(scan.query.confirmations, ConfirmationsPolicy::Min);
    assert_eq!(scan.query.filter, TransparentOutputFilter::CoinbaseOnly);
    let lookups = vec![Ok(vec![zats(10), zats(20)]), Ok(vec![zats(30)])];
    let counted = scan.answered(&lookups).ok().unwrap();
    assert_eq!(counted.preflight.shielding_utxos, 2);
    assert_eq!(counted.preflight.shielding_value, JsonZec { coins: 0, fraction: 50 });
    assert_eq!(counted.preflight.remaining_utxos, 1);
    assert_eq!(counted.preflight.remaining_value, JsonZec { coins: 0, fraction: 10 });
}

#[test]
fn scan_may_fail() {
    let scan = || policy_check(&[30, 20], None).answered(Ok(())).ok().unwrap();
    assert_eq!(
        failed(scan().answered(&vec![Err("e".to_string())])),
        (LegacyCode::Database, "e".to_string())
    );
    assert_eq!(
        failed(scan().answered(&vec![Ok(vec![]), Ok(vec![zats(20)])])).0,
        LegacyCode::Wallet
    );
}

#[test]
fn keys_have_to_be_derivable() {
    let scan = policy_check(&[30], None).answered(Ok(())).ok().unwrap();
    let counted = scan.answered(&vec![Ok(vec![zats(30)]), Ok(vec![])]).ok().unwrap();
    assert_eq!(
        failed(counted.seed_fetch()),
        (
            LegacyCode::InvalidAddressOrKey,
            format!("No payment source found for account {ACCOUNT}.")
        )
    );
    assert_eq!(KeyDerivation::new([9; 32], 1 << 31), None);
    let derivation = KeyDerivation::new([9; 32], 7).unwrap();
    assert_eq!((derivation.seed_fingerprint(), derivation.account_index()), ([9; 32], 7));
}

#[test]
fn spending_key_is_that_of_the_account() {
    let seed = [7u8; 32];
    let ready = seed_fetch().answered(Ok(&seed)).ok().unwrap();
    let viewing = |key: &UnifiedSpendingKey| key.to_unified_full_viewing_key().encode(&MAIN_NETWORK);
    let key = |index: u32| UnifiedSpendingKey::from_seed(&MAIN_NETWORK, &seed, index.try_into().unwrap()).unwrap();
    assert_eq!(viewing(&ready.spending_key), viewing(&key(3)));
    assert_ne!(viewing(&ready.spending_key), viewing(&key(4)));

    let mut on_test = seed_fetch();
    on_test.network = NetworkType::Test;
    let ready = on_test.answered(Ok(&seed)).ok().unwrap();
    let expected = UnifiedSpendingKey::from_seed(&TEST_NETWORK, &seed, 3u32.try_into().unwrap()).unwrap();
    assert_eq!(viewing(&ready.spending_key), viewing(&expected));
}

#[test]
fn regtest_keys_are_those_of_the_test_coin() {
    let seed = [7u8; 32];
    let mut fetch = seed_fetch();
    fetch.network = NetworkType::Regtest;
    let ready = fetch.answered(Ok(&seed)).ok().unwrap();
    let expected = UnifiedSpendingKey::from_seed(&TEST_NETWORK, &seed, 3u32.try_into().unwrap()).unwrap();
    let viewing = |key: &UnifiedSpendingKey| key.to_unified_full_viewing_key().encode(&TEST_NETWORK);
    assert_eq!(viewing(&ready.spending_key), viewing(&expected));
}

#[test]
fn seed_may_be_withheld_or_unusable() {
    let locked = KeyStoreError { generic: true, message: "Wallet is locked".to_string() };
    assert_eq!(
        failed(seed_fetch().answered(Err(locked))),
        (LegacyCode::WalletUnlockNeeded, "Wallet is locked".to_string())
    );
    // No seed of the transparent key hierarchy has 33 bytes.
    let unusable = [7u8; 33];
    let expected = match UnifiedSpendingKey::from_seed(&MAIN_NETWORK, &unusable, 3u32.try_into().unwrap()) {
        Ok(_) => panic!("expected an error"),
        Err(e) => e.to_string(),
    };
    assert_eq!(
        failed(seed_fetch().answered(Ok(&unusable))),
        (LegacyCode::InvalidAddressOrKey, expected)
    );
    assert_eq!(
        failed(seed_fetch().derived(Err("bad seed".to_string()))),
        (LegacyCode::InvalidAddressOrKey, "bad seed".to_string())
    );
}

#[test]
fn imported_keys_are_fetched() {
    let sources = || seed_fetch().answered(Ok(&[7u8; 32])).ok().unwrap();
    let imported = TransparentAddress::ScriptHash([2; 20]);
    let listed = vec![Receiver { address: imported, source: AddressSource::StandaloneScript }];
    assert_eq!(
        sources().query,
        ReceiverQuery { account_id: ACCOUNT_ID, include_change: true, include_standalone: true }
    );
    let fetch = sources().answered(Ok(listed)).ok().unwrap();
    assert_eq!(fetch.needed, vec![imported, imported]);
    let ready = fetch.answered(vec![Ok(1u32), Ok(1)]).ok().unwrap();
    assert_eq!(ready.preflight.shielding_utxos, 2);
    assert_eq!(ready.context.toaddress, TO);
    assert_eq!(ready.ovk_policy, OvkPolicy::Sender);
    let entries = ready.standalone_keys.into_entries();
    assert_eq!(entries.len(), 1);
    assert_eq!((entries[0].address, entries[0].keys.clone()), (imported, vec![1, 1]));

    let derived = vec![Receiver { address: imported, source: AddressSource::Derived }];
    assert_eq!(sources().answered(Ok(derived)).ok().unwrap().needed, vec![]);
    assert_eq!(failed(sources().answered(Err("e".to_string()))).0, LegacyCode::Database);
}

#[test]
fn imported_key_may_be_withheld() {
    let sources = seed_fetch().answered(Ok(&[7u8; 32])).ok().unwrap();
    let imported = TransparentAddress::ScriptHash([2; 20]);
    let listed = vec![Receiver { address: imported, source: AddressSource::StandaloneScript }];
    let fetch = sources.answered(Ok(listed)).ok().unwrap();
    let broken = KeyStoreError { generic: true, message: "corrupt".to_string() };
    assert_eq!(
        failed(fetch.answered::<u32>(vec![Ok(1), Err(broken)])),
        (LegacyCode::Database, "corrupt".to_string())
    );
}

#[test]
fn building_may_fail() {
    assert_eq!(built_transactions(Ok(Ok(5))), Ok(5));
    let expected = |text: &str| (LegacyCode::Wallet, format!("Failed to build shielding transaction: {text}"));
    assert_eq!(failed(built_transactions::<u8>(Ok(Err("proof".to_string())))), expected("proof"));
    assert_eq!(failed(built_transactions::<u8>(Err("panicked".to_string()))), expected("panicked"));
}
