use shieldcoinbase::address::{Address, NetworkType, TransparentAddress};
use shieldcoinbase::error::LegacyCode;
use shieldcoinbase::fromaddress::{
    check_account_known, classify_fromaddress, parse_fromaddress, resolve_account, resolve_address, FromAddressInput,
};
use uuid::Uuid;

fn mainnet() -> NetworkType {
    NetworkType::Main
}

fn testnet() -> NetworkType {
    NetworkType::Test
}

const MAINNET_P2PKH: &str = "t1VydNnkjBzfL1iAMyUbwGKJAF7PgvuCfMY";
const MAINNET_P2SH: &str = "t3Vz22vK5z2LcKEdg16Yv4FFneEL1zg9ojd";
const TESTNET_P2PKH: &str = "tmGqwWtL7RsbxikDSN26gsbicxVr2xJNe86";
const MAINNET_SAPLING: &str = "zs1z7rejlpsa98s2rrrfkwmaxu53e4ue0ulcrw0h4x5g8jl04tak0d3mm47vdtahatqrlkngh9slya";
const MAINNET_TEX: &str = "tex1s2rt77ggv6q989lr49rkgzmh5slsksa9khdgte";

const VALID_UUID: &str = "123e4567-e89b-12d3-a456-426614174000";

#[test]
fn uuid_classified_as_account_uuid() {
    let parsed = parse_fromaddress(mainnet(), VALID_UUID).unwrap();
    let expected_uuid = Uuid::parse_str(VALID_UUID).unwrap();
    assert_eq!(parsed, FromAddressInput::AccountUuid(expected_uuid.as_u128()));
}

#[test]
fn p2pkh_taddr_classified_as_transparent_address() {
    let parsed = parse_fromaddress(mainnet(), MAINNET_P2PKH).unwrap();
    match parsed {
        FromAddressInput::TransparentAddress(TransparentAddress::PublicKeyHash(_)) => {}
        other => panic!("Expected P2PKH TransparentAddress, got {other:?}"),
    }
}

#[test]
fn p2sh_taddr_classified_as_transparent_address() {
    let parsed = parse_fromaddress(mainnet(), MAINNET_P2SH).unwrap();
    match parsed {
        FromAddressInput::TransparentAddress(TransparentAddress::ScriptHash(_)) => {}
        other => panic!("Expected P2SH TransparentAddress, got {other:?}"),
    }
}

#[test]
fn testnet_taddr_classified_on_testnet() {
    let parsed = parse_fromaddress(testnet(), TESTNET_P2PKH).unwrap();
    match parsed {
        FromAddressInput::TransparentAddress(TransparentAddress::PublicKeyHash(_)) => {}
        other => panic!("Expected testnet P2PKH TransparentAddress, got {other:?}"),
    }
}

#[test]
fn mainnet_taddr_on_testnet_rejected() {
    // Wrong network: a mainnet t1 address is no address of the test network, so the
    // parameter is blamed rather than the address.
    let err = parse_fromaddress(testnet(), MAINNET_P2PKH).unwrap_err();
    assert_eq!(err.code(), LegacyCode::InvalidParameter.number());
}

#[test]
fn sapling_shielded_address_rejected_as_non_transparent() {
    let err = parse_fromaddress(mainnet(), MAINNET_SAPLING).unwrap_err();
    assert_eq!(err.code(), LegacyCode::InvalidAddressOrKey.number());
}

#[test]
fn garbage_string_rejected() {
    let err = parse_fromaddress(mainnet(), "not-a-thing").unwrap_err();
    assert_eq!(err.code(), LegacyCode::InvalidParameter.number());
}

#[test]
fn empty_string_rejected() {
    let err = parse_fromaddress(mainnet(), "").unwrap_err();
    assert_eq!(err.code(), LegacyCode::InvalidParameter.number());
}

#[test]
fn uuid_accepted_in_every_form() {
    let expected = Ok(FromAddressInput::AccountUuid(0x123e4567_e89b_12d3_a456_426614174000));
    for form in [
        "123e4567e89b12d3a456426614174000",
        "123E4567-E89B-12D3-A456-426614174000",
        "{123e4567-e89b-12d3-a456-426614174000}",
        "urn:uuid:123e4567-e89b-12d3-a456-426614174000",
        "URN:Uuid:123e4567-e89b-12d3-a456-426614174000",
    ] {
        assert_eq!(parse_fromaddress(mainnet(), form), expected);
    }
}

#[test]
fn near_uuids_rejected() {
    for text in [
        "123e4567-e89b-12d3-a456-42661417400",
        "123e4567-e89b-12d3-a4564-26614174000",
        "123e4567-e89b-12d3-a456-42661417400g",
        "{123e4567-e89b-12d3-a456-426614174000",
        "uuid:urn:123e4567-e89b-12d3-a456-426614174000",
        " 123e4567-e89b-12d3-a456-426614174000",
        "123e4567-e89b-12d3-a456-4266141740é",
    ] {
        assert!(parse_fromaddress(mainnet(), text).is_err());
    }
}

#[test]
fn hash_of_the_address_is_kept() {
    // The address of the all-zero hash.
    let parsed = parse_fromaddress(mainnet(), "t1Hsc1LR8yKnbbe3twRp88p6vFfC5t7DLbs");
    assert_eq!(
        parsed,
        Ok(FromAddressInput::TransparentAddress(TransparentAddress::PublicKeyHash([0; 20])))
    );
    let parsed = parse_fromaddress(testnet(), "t26YoyZ1iPgiMEWL4zGUm74eVWfhyDMXzY2");
    assert_eq!(
        parsed,
        Ok(FromAddressInput::TransparentAddress(TransparentAddress::ScriptHash([0; 20])))
    );
}

#[test]
fn testnet_taddr_accepted_on_regtest() {
    let parsed = parse_fromaddress(NetworkType::Regtest, TESTNET_P2PKH);
    assert_eq!(parsed, parse_fromaddress(testnet(), TESTNET_P2PKH));
    assert!(parsed.is_ok());
    assert!(parse_fromaddress(NetworkType::Regtest, MAINNET_P2PKH).is_err());
}

#[test]
fn surrounding_space_does_not_hide_an_address() {
    let spaced = " t1VydNnkjBzfL1iAMyUbwGKJAF7PgvuCfMY ";
    assert_eq!(
        parse_fromaddress(mainnet(), spaced),
        parse_fromaddress(mainnet(), MAINNET_P2PKH)
    );
}

#[test]
fn tex_address_rejected_as_non_transparent() {
    let err = parse_fromaddress(mainnet(), MAINNET_TEX).unwrap_err();
    assert_eq!(err.code, LegacyCode::InvalidAddressOrKey);
    assert_eq!(
        err.message,
        "Invalid `fromaddress`: only transparent addresses are accepted (got a non-transparent Zcash address): \
         tex1s2rt77ggv6q989lr49rkgzmh5slsksa9khdgte"
    );
}

#[test]
fn refused_text_is_quoted() {
    let err = parse_fromaddress(mainnet(), "a\"b\n").unwrap_err();
    assert_eq!(
        err.message,
        "Invalid `fromaddress`: expected a wallet-owned transparent address or an account UUID, got \"a\\\"b\\n\""
    );
}

#[test]
fn classification_by_what_was_read() {
    let address = TransparentAddress::ScriptHash([3; 20]);
    assert_eq!(
        classify_fromaddress(Some(5), None, "x"),
        Ok(FromAddressInput::AccountUuid(5))
    );
    assert_eq!(
        classify_fromaddress(None, Some(Address::Transparent(address)), "x"),
        Ok(FromAddressInput::TransparentAddress(address))
    );
    for other in [Address::Sapling, Address::Unified, Address::Tex] {
        let err = classify_fromaddress(None, Some(other), "x").unwrap_err();
        assert_eq!(err.code, LegacyCode::InvalidAddressOrKey);
    }
    let err = classify_fromaddress(None, None, "x").unwrap_err();
    assert_eq!(err.code, LegacyCode::InvalidParameter);
}

#[test]
fn account_must_be_known() {
    assert_eq!(check_account_known("u", Ok(true)), Ok(()));
    let err = check_account_known("u", Ok(false)).unwrap_err();
    assert_eq!((err.code, err.message.as_str()), (LegacyCode::InvalidParameter, "Unknown account UUID: u"));
    let err = check_account_known("u", Err("disk full".to_string())).unwrap_err();
    assert_eq!((err.code, err.message.as_str()), (LegacyCode::Database, "disk full"));
}

#[test]
fn account_resolves_to_all_its_receivers() {
    let a = TransparentAddress::PublicKeyHash([1; 20]);
    let b = TransparentAddress::ScriptHash([2; 20]);
    let source = resolve_account(9, Ok(vec![a, b])).unwrap();
    assert_eq!((source.account_id, source.from_addrs), (9, vec![a, b]));
    let err = resolve_account(9, Err("gone".to_string())).unwrap_err();
    assert_eq!((err.code, err.message.as_str()), (LegacyCode::Database, "gone"));
}

#[test]
fn address_resolves_to_its_owner_and_itself() {
    let a = TransparentAddress::PublicKeyHash([1; 20]);
    let source = resolve_address(a, "t", Ok(Some(4))).unwrap();
    assert_eq!((source.account_id, source.from_addrs), (4, vec![a]));
    let err = resolve_address(a, "t", Ok(None)).unwrap_err();
    assert_eq!(err.code, LegacyCode::InvalidAddressOrKey);
    assert_eq!(
        err.message,
        "Transparent address is not owned by any account in this wallet: t"
    );
    let err = resolve_address(a, "t", Err("gone".to_string())).unwrap_err();
    assert_eq!(err.code, LegacyCode::Database);
}
