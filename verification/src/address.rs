//! Transparent addresses, and what of the other kinds of address matters here.
use vstd::prelude::*;
use zcash_keys::address::Address as KeysAddress;
use zcash_protocol::consensus::{MAIN_NETWORK, TEST_NETWORK};
use zcash_protocol::local_consensus::LocalNetwork;
use zcash_transparent::address::TransparentAddress as ChainAddress;

verus! {

/// The network that a wallet is on.
#[derive(Clone, Copy, Debug, PartialEq, Eq, Structural)]
pub enum NetworkType {
    /// The main network.
    Main,
    /// The test network.
    Test,
    /// A private network for integration tests.
    Regtest,
}

/// A transparent address: the hash of a public key, or of a script.
#[derive(Clone, Copy, Debug, PartialEq, Eq, Hash)]
pub enum TransparentAddress {
    /// Money that the holder of a key can spend (P2PKH).
    PublicKeyHash([u8; 20]),
    /// Money that whoever satisfies a script can spend (P2SH).
    ScriptHash([u8; 20]),
}

/// A decoded Zcash address. Of a kind that is not transparent nothing but the kind is kept.
#[derive(Clone, Copy, Debug, PartialEq, Eq)]
pub enum Address {
    /// A Sapling payment address.
    Sapling,
    /// A transparent address.
    Transparent(TransparentAddress),
    /// A unified address.
    Unified,
    /// A transparent-source-only (TEX) address.
    Tex,
}

/// Whether two hashes are equal.
fn same_hash(a: &[u8; 20], b: &[u8; 20]) -> (r: bool)
    ensures
        r == (*a == *b),
{
    let mut i: usize = 0;
    while i < 20
        invariant
            i <= 20,
            forall|j: int| 0 <= j < i ==> a@[j] == b@[j],
        decreases 20 - i,
    {
        if a[i] != b[i] {
            assert(a@[i as int] != b@[i as int]);
            return false;
        }
        i += 1;
    }
    assert(a@ =~= b@);
    assert(*a =~= *b);
    true
}

impl TransparentAddress {
    /// Whether this is the given address.
    pub fn same(&self, other: &TransparentAddress) -> (r: bool)
        ensures
            r == (*self == *other),
    {
        match (self, other) {
            (TransparentAddress::PublicKeyHash(a), TransparentAddress::PublicKeyHash(b)) => same_hash(a, b),
            (TransparentAddress::ScriptHash(a), TransparentAddress::ScriptHash(b)) => same_hash(a, b),
            _ => false,
        }
    }
}

/// The address that `zcash_keys::address::Address::decode` reads in a string, for the
/// parameters of a network; nothing where it reads none.
pub uninterp spec fn decoded_address(network: NetworkType, s: Seq<char>) -> Option<Address>;

/// Decodes an address of the given network with `zcash_keys::address::Address::decode`,
/// which reads of the parameters only the network's type. What it reads is
/// [`decoded_address`]. The claim beyond the name is that a string read as a transparent
/// address holds the letter `t`: the Base58Check text of the prefixes that `zcash_address`
/// accepts for 20-byte hashes always starts with `t1`, `t2`, `t3` or `tm`.
#[verifier::external_body]
pub(crate) fn decode_address(network: NetworkType, s: &str) -> (r: Option<Address>)
    ensures
        r == decoded_address(network, s@),
        r matches Some(Address::Transparent(_)) ==> s@.contains('t'),
{
    let address = match network {
        NetworkType::Main => KeysAddress::decode(&MAIN_NETWORK, s),
        NetworkType::Test => KeysAddress::decode(&TEST_NETWORK, s),
        NetworkType::Regtest => KeysAddress::decode(&LocalNetwork { overwinter: None, sapling: None, blossom: None,
            heartwood: None, canopy: None, nu5: None, nu6: None, nu6_1: None, nu6_2: None, nu6_3: None, nu7: None }, s),
    };
    address.map(|a| match a {
        KeysAddress::Sapling(_) => Address::Sapling,
        KeysAddress::Transparent(ChainAddress::PublicKeyHash(h)) => Address::Transparent(TransparentAddress::PublicKeyHash(h)),
        KeysAddress::Transparent(ChainAddress::ScriptHash(h)) => Address::Transparent(TransparentAddress::ScriptHash(h)),
        KeysAddress::Unified(_) => Address::Unified,
        KeysAddress::Tex(_) => Address::Tex,
    })
}

/// Whether a string can be read as a Zcash address of any kind, on any network.
pub uninterp spec fn zcash_address_readable(s: Seq<char>) -> bool;

/// Whether `zcash_address::ZcashAddress` can be parsed from a string with its `FromStr`;
/// the answer is named [`zcash_address_readable`].
#[verifier::external_body]
pub(crate) fn is_zcash_address(s: &str) -> (r: bool)
    ensures
        r == zcash_address_readable(s@),
{
    s.parse::<zcash_address::ZcashAddress>().is_ok()
}

/// The output script that pays the holder of the key with the given hash:
/// `OP_DUP OP_HASH160 <hash> OP_EQUALVERIFY OP_CHECKSIG`.
pub open spec fn p2pkh_script(hash: Seq<u8>) -> Seq<u8> {
    seq![0x76u8, 0xa9u8, 0x14u8] + hash + seq![0x88u8, 0xacu8]
}

/// The output script that pays whoever satisfies the script with the given hash:
/// `OP_HASH160 <hash> OP_EQUAL`.
pub open spec fn p2sh_script(hash: Seq<u8>) -> Seq<u8> {
    seq![0xa9u8, 0x14u8] + hash + seq![0x87u8]
}

/// The output script that pays to an address.
pub open spec fn address_script(address: TransparentAddress) -> Seq<u8> {
    match address {
        TransparentAddress::PublicKeyHash(hash) => p2pkh_script(hash@),
        TransparentAddress::ScriptHash(hash) => p2sh_script(hash@),
    }
}

/// The address that an output script pays to, read with `zcash_script`'s
/// `script::FromChain::parse` and `zcash_transparent`'s
/// `TransparentAddress::from_script_from_chain`. They recognise the two standard scripts
/// that pay to an address and no other: the result is the address whose
/// [`address_script`] the bytes are, and nothing where the bytes are the script of no
/// address.
#[verifier::external_body]
pub(crate) fn script_address(script_pubkey: &[u8]) -> (r: Option<TransparentAddress>)
    ensures
        r matches Some(address) ==> script_pubkey@ == address_script(address),
        r is None ==> forall|address: TransparentAddress| script_pubkey@ != #[trigger] address_script(address),
{
    let code = zcash_script::script::Code(script_pubkey.to_vec());
    let script = zcash_script::script::FromChain::parse(&code).ok()?;
    ChainAddress::from_script_from_chain(&script).map(|address| match address {
        ChainAddress::PublicKeyHash(h) => TransparentAddress::PublicKeyHash(h),
        ChainAddress::ScriptHash(h) => TransparentAddress::ScriptHash(h),
    })
}

/// A script pays to at most one address, so what an output pays to is determined.
pub proof fn lemma_address_script_injective(a: TransparentAddress, b: TransparentAddress)
    requires
        address_script(a) == address_script(b),
    ensures
        a == b,
{
    let sa = address_script(a);
    let sb = address_script(b);
    match (a, b) {
        (TransparentAddress::PublicKeyHash(x), TransparentAddress::PublicKeyHash(y)) => {
            assert(x@ =~= sa.subrange(3, 23));
            assert(y@ =~= sb.subrange(3, 23));
            assert(x =~= y);
        },
        (TransparentAddress::ScriptHash(x), TransparentAddress::ScriptHash(y)) => {
            assert(x@ =~= sa.subrange(2, 22));
            assert(y@ =~= sb.subrange(2, 22));
            assert(x =~= y);
        },
        (TransparentAddress::PublicKeyHash(x), TransparentAddress::ScriptHash(y)) => {
            assert(sa.len() == 25 && sb.len() == 23);
        },
        (TransparentAddress::ScriptHash(x), TransparentAddress::PublicKeyHash(y)) => {
            assert(sa.len() == 23 && sb.len() == 25);
        },
    }
}

/// The address that an output script pays to, if it pays to one.
pub open spec fn paid_address(script_pubkey: Seq<u8>) -> Option<TransparentAddress> {
    if exists|address: TransparentAddress| script_pubkey == #[trigger] address_script(address) {
        Some(choose|address: TransparentAddress| script_pubkey == #[trigger] address_script(address))
    } else {
        None
    }
}

/// The script that pays to an address is read as paying to that address.
pub proof fn lemma_address_script_reads_back(address: TransparentAddress)
    ensures
        paid_address(address_script(address)) == Some(address),
{
    let script = address_script(address);
    let read = choose|a: TransparentAddress| script == #[trigger] address_script(a);
    lemma_address_script_injective(read, address);
}

/// The address that an output script pays to, if it pays to one.
pub fn output_address(script_pubkey: &Vec<u8>) -> (r: Option<TransparentAddress>)
    ensures
        r == paid_address(script_pubkey@),
{
    let r = script_address(script_pubkey.as_slice());
    proof {
        if let Some(address) = r {
            lemma_address_script_reads_back(address);
        }
    }
    r
}

} // verus!
