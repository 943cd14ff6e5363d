use shieldcoinbase::address::{output_address, TransparentAddress};
use shieldcoinbase::amount::Zatoshis;
use shieldcoinbase::error::LegacyCode;
use shieldcoinbase::inputs::{ProposalStep, TransparentInput};
use shieldcoinbase::keys::{
    collect_standalone_keys, is_standalone_address, standalone_keys_needed, AddressSource, KeyStoreError, Receiver,
    StandaloneKeys,
};

fn p2pkh(n: u8) -> TransparentAddress {
    TransparentAddress::PublicKeyHash([n; 20])
}

fn p2sh(n: u8) -> TransparentAddress {
    TransparentAddress::ScriptHash([n; 20])
}

fn script(address: TransparentAddress) -> Vec<u8> {
    let mut bytes;
    match address {
        TransparentAddress::PublicKeyHash(hash) => {
            bytes = vec![0x76, 0xa9, 0x14];
            bytes.extend(hash);
            bytes.extend([0x88, 0xac]);
        }
        TransparentAddress::ScriptHash(hash) => {
            bytes = vec![0xa9, 0x14];
            bytes.extend(hash);
            bytes.push(0x87);
        }
    }
    bytes
}

fn step(scripts: Vec<Vec<u8>>) -> ProposalStep {
    ProposalStep {
        transparent_inputs: scripts
            .into_iter()
            .map(|script_pubkey| TransparentInput { value: Zatoshis::zero(), script_pubkey })
            .collect(),
    }
}

fn receivers() -> Vec<Receiver> {
    vec![
        Receiver { address: p2pkh(1), source: AddressSource::Derived },
        Receiver { address: p2pkh(2), source: AddressSource::StandalonePubkey },
        Receiver { address: p2sh(3), source: AddressSource::StandaloneScript },
        Receiver { address: p2pkh(4), source: AddressSource::StandaloneAddress },
    ]
}

fn entries(keys: StandaloneKeys<u32>) -> Vec<(TransparentAddress, Vec<u32>)> {
    keys.into_entries().into_iter().map(|e| (e.address, e.keys)).collect()
}

fn locked() -> KeyStoreError {
    KeyStoreError { generic: true, message: "Wallet is locked".to_string() }
}

#[test]
fn scripts_are_read_back() {
    assert_eq!(output_address(&script(p2pkh(4))), Some(p2pkh(4)));
    assert_eq!(output_address(&script(p2sh(7))), Some(p2sh(7)));
}

#[test]
fn other_scripts_pay_to_no_address() {
    assert_eq!(output_address(&vec![]), None);
    assert_eq!(output_address(&vec![0x6a]), None);
    // A truncated push.
    assert_eq!(output_address(&vec![0x76, 0xa9, 0x14, 1, 2]), None);
    // The same hash, pushed with a longer opcode.
    let mut long = vec![0xa9, 0x4c, 0x14];
    long.extend([9u8; 20]);
    long.push(0x87);
    assert_eq!(output_address(&long), None);
    // Something after the script.
    let mut more = script(p2pkh(4));
    more.push(0x61);
    assert_eq!(output_address(&more), None);
    // A hash of another length.
    let mut short = vec![0xa9, 0x13];
    short.extend([9u8; 19]);
    short.push(0x87);
    assert_eq!(output_address(&short), None);
}

#[test]
fn imported_addresses_are_standalone() {
    let listed = receivers();
    assert!(!is_standalone_address(&listed, &p2pkh(1)));
    assert!(is_standalone_address(&listed, &p2pkh(2)));
    assert!(is_standalone_address(&listed, &p2sh(3)));
    assert!(!is_standalone_address(&listed, &p2sh(2)));
    assert!(!is_standalone_address(&listed, &p2pkh(4)));
}

#[test]
fn keys_needed_for_imported_inputs_in_order() {
    let steps = vec![
        step(vec![script(p2sh(3)), script(p2pkh(1)), vec![0x51]]),
        step(vec![script(p2pkh(2)), script(p2sh(3)), script(p2sh(2))]),
    ];
    assert_eq!(
        standalone_keys_needed(&steps, &receivers()),
        vec![p2sh(3), p2pkh(2), p2sh(3)]
    );
}

#[test]
fn keys_are_collected_by_address() {
    let needed = vec![p2sh(3), p2pkh(2), p2sh(3)];
    let keys = collect_standalone_keys(&needed, vec![Ok(10), Ok(20), Ok(30)]).unwrap();
    assert_eq!(entries(keys), vec![(p2sh(3), vec![10, 30]), (p2pkh(2), vec![20])]);
    let none = collect_standalone_keys(&vec![], vec![]).unwrap();
    assert_eq!(entries(none), vec![]);
}

#[test]
fn locked_wallet_has_to_be_unlocked() {
    let needed = vec![p2sh(3), p2pkh(2)];
    let err = collect_standalone_keys(&needed, vec![Ok(10), Err(locked())]).unwrap_err();
    assert_eq!(err.code, LegacyCode::WalletUnlockNeeded);
    assert_eq!(err.message, "Wallet is locked");
    let err = collect_standalone_keys::<u32>(&needed, vec![Err(locked())]).unwrap_err();
    assert_eq!(err.code, LegacyCode::WalletUnlockNeeded);
}

#[test]
fn other_key_store_errors_are_database_errors() {
    let special = KeyStoreError { generic: false, message: "Wallet is locked".to_string() };
    assert_eq!(special.into_rpc().code, LegacyCode::Database);
    let other = KeyStoreError { generic: true, message: "Wallet is locked.".to_string() }.into_rpc();
    assert_eq!((other.code, other.message.as_str()), (LegacyCode::Database, "Wallet is locked."));
    assert_eq!(locked().into_rpc().code, LegacyCode::WalletUnlockNeeded);
}

#[test]
fn a_key_goes_to_its_address_only() {
    let keys = StandaloneKeys::new()
        .with_key(p2pkh(1), 1)
        .with_key(p2sh(1), 2)
        .with_key(p2pkh(1), 3);
    assert_eq!(entries(keys), vec![(p2pkh(1), vec![1, 3]), (p2sh(1), vec![2])]);
}
