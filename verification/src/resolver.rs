//! What a query is, and the receiving addresses of an extended public key.

use vstd::prelude::*;
use crate::text::{has_prefix, starts_with};

verus! {

/// What a query string is.
#[derive(Debug, Clone, Copy, PartialEq, Eq, Structural)]
pub enum Query {
    /// One address.
    SingleAddress,
    /// An extended public key, which stands for a run of addresses.
    ExtendedPublicKey,
    /// Neither.
    Invalid,
}

/// The kind of address that an extended key's family pays to.
#[derive(Debug, Clone, Copy, PartialEq, Eq, Structural)]
pub enum ScriptKind {
    /// Pay to public key hash.
    Legacy,
    /// Witness public key hash inside a script hash.
    NestedSegwit,
    /// Witness public key hash.
    NativeSegwit,
}

/// The family of an extended public key, as its version says: the kind of address and
/// the network.
#[derive(Debug, Clone, Copy, PartialEq, Eq, Structural)]
pub struct KeyFamily {
    pub script: ScriptKind,
    pub mainnet: bool,
}

/// The extended key could not be used: it fails its checksum or its format, or one of
/// the addresses asked for does not exist.
#[derive(Debug, Clone, Copy, PartialEq, Eq, Structural)]
pub struct DerivationError;

/// Whether `bitcoin::Address` reads the text as an address of any network.
pub uninterp spec fn is_address_text(text: Seq<char>) -> bool;

/// The bytes that `bitcoin::base58::decode_check` reads from a text, without the
/// checksum; `None` where it reports an error.
pub uninterp spec fn base58check_payload(text: Seq<char>) -> Option<Seq<u8>>;

/// The compressed public key at `chain/index` below the extended public key that
/// `bitcoin::bip32::Xpub::decode` reads from `payload`; `None` where the payload is no
/// such key or the child does not exist.
pub uninterp spec fn receive_key(payload: Seq<u8>, chain: u32, index: u32) -> Option<Seq<u8>>;

/// The text of the pay-to-public-key-hash address of a compressed public key.
pub uninterp spec fn p2pkh_text(pubkey: Seq<u8>, mainnet: bool) -> Option<Seq<char>>;

/// The text of the nested witness address of a compressed public key.
pub uninterp spec fn p2shwpkh_text(pubkey: Seq<u8>, mainnet: bool) -> Option<Seq<char>>;

/// The text of the native witness address of a compressed public key.
pub uninterp spec fn p2wpkh_text(pubkey: Seq<u8>, mainnet: bool) -> Option<Seq<char>>;

/// Parses the text with `bitcoin::Address`'s `FromStr`, for an address whose network
/// is left open, and says whether that succeeded.
#[verifier::external_body]
fn address_parses(text: &str) -> (r: bool)
    ensures
        r == is_address_text(text@),
{
    text.parse::<bitcoin::Address<bitcoin::address::NetworkUnchecked>>().is_ok()
}

/// Calls `bitcoin::base58::decode_check`, which decodes base58 and verifies the four
/// checksum bytes at the end.
#[verifier::external_body]
fn base58check_decode(text: &str) -> (r: Option<Vec<u8>>)
    ensures
        match r {
            Some(bytes) => base58check_payload(text@) == Some(bytes@),
            None => base58check_payload(text@) is None,
        },
{
    bitcoin::base58::decode_check(text).ok()
}

/// Calls `bitcoin::bip32::Xpub::decode` on the payload and `Xpub::derive_pub` with the
/// two unhardened steps `chain` and `index`, and hands out the child's compressed
/// public key.
#[verifier::external_body]
fn child_key(payload: &Vec<u8>, chain: u32, index: u32) -> (r: Option<Vec<u8>>)
    ensures
        match r {
            Some(key) => receive_key(payload@, chain, index) == Some(key@),
            None => receive_key(payload@, chain, index) is None,
        },
{
    let secp = bitcoin::secp256k1::Secp256k1::verification_only();
    let parent = bitcoin::bip32::Xpub::decode(payload).ok()?;
    let first = bitcoin::bip32::ChildNumber::from_normal_idx(chain).ok()?;
    let second = bitcoin::bip32::ChildNumber::from_normal_idx(index).ok()?;
    let key = parent.derive_pub(&secp, &[first, second]).ok()?;
    Some(key.public_key.serialize().to_vec())
}

/// Calls `bitcoin::Address::p2pkh` on the key that `CompressedPublicKey::from_slice`
/// reads, and writes the address as text.
#[verifier::external_body]
fn p2pkh_address(pubkey: &Vec<u8>, mainnet: bool) -> (r: Option<String>)
    ensures
        match r {
            Some(a) => p2pkh_text(pubkey@, mainnet) == Some(a@),
            None => p2pkh_text(pubkey@, mainnet) is None,
        },
{
    let network = if mainnet { bitcoin::Network::Bitcoin } else { bitcoin::Network::Testnet };
    let key = bitcoin::CompressedPublicKey::from_slice(pubkey).ok()?;
    Some(bitcoin::Address::p2pkh(key, network).to_string())
}

/// Calls `bitcoin::Address::p2shwpkh` on the key that `CompressedPublicKey::from_slice`
/// reads, and writes the address as text.
#[verifier::external_body]
fn p2shwpkh_address(pubkey: &Vec<u8>, mainnet: bool) -> (r: Option<String>)
    ensures
        match r {
            Some(a) => p2shwpkh_text(pubkey@, mainnet) == Some(a@),
            None => p2shwpkh_text(pubkey@, mainnet) is None,
        },
{
    let network = if mainnet { bitcoin::Network::Bitcoin } else { bitcoin::Network::Testnet };
    let key = bitcoin::CompressedPublicKey::from_slice(pubkey).ok()?;
    Some(bitcoin::Address::p2shwpkh(&key, network).to_string())
}

/// Calls `bitcoin::Address::p2wpkh` on the key that `CompressedPublicKey::from_slice`
/// reads, and writes the address as text.
#[verifier::external_body]
fn p2wpkh_address(pubkey: &Vec<u8>, mainnet: bool) -> (r: Option<String>)
    ensures
        match r {
            Some(a) => p2wpkh_text(pubkey@, mainnet) == Some(a@),
            None => p2wpkh_text(pubkey@, mainnet) is None,
        },
{
    let network = if mainnet { bitcoin::Network::Bitcoin } else { bitcoin::Network::Testnet };
    let key = bitcoin::CompressedPublicKey::from_slice(pubkey).ok()?;
    Some(bitcoin::Address::p2wpkh(&key, network).to_string())
}

/// The chain of an extended public key on which its receiving addresses lie: the
/// external chain.
pub const RECEIVE_CHAIN: u32 = 0;

/// Whether the text begins as the extended public keys of a known family do.
pub open spec fn is_extended_key_text(q: Seq<char>) -> bool {
    starts_with(q, "xpub"@) || starts_with(q, "ypub"@) || starts_with(q, "zpub"@) || starts_with(
        q,
        "tpub"@,
    ) || starts_with(q, "upub"@) || starts_with(q, "vpub"@)
}

/// What a query is: an extended public key where it begins as one, else an address
/// where it reads as one, else invalid.
pub open spec fn classified(q: Seq<char>) -> Query {
    if is_extended_key_text(q) {
        Query::ExtendedPublicKey
    } else if is_address_text(q) {
        Query::SingleAddress
    } else {
        Query::Invalid
    }
}

/// What `query` is, given whether it reads as an address.
pub fn classify_with(query: &str, reads_as_address: bool) -> (r: Query)
    ensures
        r == if is_extended_key_text(query@) {
            Query::ExtendedPublicKey
        } else if reads_as_address {
            Query::SingleAddress
        } else {
            Query::Invalid
        },
{
    if has_prefix(query, "xpub") || has_prefix(query, "ypub") || has_prefix(query, "zpub")
        || has_prefix(query, "tpub") || has_prefix(query, "upub") || has_prefix(query, "vpub") {
        Query::ExtendedPublicKey
    } else if reads_as_address {
        Query::SingleAddress
    } else {
        Query::Invalid
    }
}

/// Classifies a query. Every text is exactly one of the three.
pub fn classify(query: &str) -> (r: Query)
    ensures
        r == classified(query@),
{
    classify_with(query, address_parses(query))
}

/// The family that four version bytes stand for.
pub open spec fn family_of_version(b0: u8, b1: u8, b2: u8, b3: u8) -> Option<KeyFamily> {
    if b0 == 0x04 && b1 == 0x88 && b2 == 0xB2 && b3 == 0x1E {
        Some(KeyFamily { script: ScriptKind::Legacy, mainnet: true })
    } else if b0 == 0x04 && b1 == 0x9D && b2 == 0x7C && b3 == 0xB2 {
        Some(KeyFamily { script: ScriptKind::NestedSegwit, mainnet: true })
    } else if b0 == 0x04 && b1 == 0xB2 && b2 == 0x47 && b3 == 0x46 {
        Some(KeyFamily { script: ScriptKind::NativeSegwit, mainnet: true })
    } else if b0 == 0x04 && b1 == 0x35 && b2 == 0x87 && b3 == 0xCF {
        Some(KeyFamily { script: ScriptKind::Legacy, mainnet: false })
    } else if b0 == 0x04 && b1 == 0x4A && b2 == 0x52 && b3 == 0x62 {
        Some(KeyFamily { script: ScriptKind::NestedSegwit, mainnet: false })
    } else if b0 == 0x04 && b1 == 0x5F && b2 == 0x1C && b3 == 0xF6 {
        Some(KeyFamily { script: ScriptKind::NativeSegwit, mainnet: false })
    } else {
        None
    }
}

/// The family of a decoded extended key: it has 78 bytes, of which the first four are
/// a known version.
pub open spec fn family_of(payload: Seq<u8>) -> Option<KeyFamily> {
    if payload.len() == 78 {
        family_of_version(payload[0], payload[1], payload[2], payload[3])
    } else {
        None
    }
}

/// The version that the network's plain extended public keys carry.
pub open spec fn plain_version(mainnet: bool) -> Seq<u8> {
    if mainnet {
        seq![0x04u8, 0x88u8, 0xB2u8, 0x1Eu8]
    } else {
        seq![0x04u8, 0x35u8, 0x87u8, 0xCFu8]
    }
}

/// The same key under the plain version of its network: the bytes behind the first
/// four, with the plain version before them.
pub open spec fn plain_payload(payload: Seq<u8>, mainnet: bool) -> Seq<u8> {
    if payload.len() >= 4 {
        plain_version(mainnet) + payload.subrange(4, payload.len() as int)
    } else {
        plain_version(mainnet)
    }
}

/// The text of the address of `pubkey` in the way of `family`.
pub open spec fn family_address(pubkey: Seq<u8>, family: KeyFamily) -> Option<Seq<char>> {
    match family.script {
        ScriptKind::Legacy => p2pkh_text(pubkey, family.mainnet),
        ScriptKind::NestedSegwit => p2shwpkh_text(pubkey, family.mainnet),
        ScriptKind::NativeSegwit => p2wpkh_text(pubkey, family.mainnet),
    }
}

/// The receiving address number `index` of a decoded extended key.
pub open spec fn payload_address(payload: Seq<u8>, index: u32) -> Option<Seq<char>> {
    match family_of(payload) {
        Some(family) => match receive_key(
            plain_payload(payload, family.mainnet),
            RECEIVE_CHAIN,
            index,
        ) {
            Some(key) => family_address(key, family),
            None => None,
        },
        None => None,
    }
}

/// The receiving address number `index` of an extended public key: on the external
/// chain, and of the kind that the key's family pays to.
pub open spec fn derived_address(xkey: Seq<char>, index: u32) -> Option<Seq<char>> {
    match base58check_payload(xkey) {
        Some(payload) => payload_address(payload, index),
        None => None,
    }
}

/// Whether every one of the first `count` receiving addresses of a decoded key exists,
/// and the first of all too.
pub open spec fn payload_derivable(payload: Seq<u8>, count: u32) -> bool {
    &&& payload_address(payload, 0) is Some
    &&& forall|i: u32| i < count ==> (#[trigger] payload_address(payload, i)) is Some
}

/// Whether the first `count` receiving addresses of the extended key can be had: the
/// key passes its checksum, is of a known family and holds a public key, and each of
/// the addresses exists.
pub open spec fn derivable(xkey: Seq<char>, count: u32) -> bool {
    match base58check_payload(xkey) {
        Some(payload) => payload_derivable(payload, count),
        None => false,
    }
}

/// The family of a decoded extended key.
pub fn key_family(payload: &Vec<u8>) -> (r: Option<KeyFamily>)
    ensures
        r == family_of(payload@),
{
    if payload.len() != 78 {
        return None;
    }
    let b0: u8 = payload[0];
    let b1: u8 = payload[1];
    let b2: u8 = payload[2];
    let b3: u8 = payload[3];
    if b0 == 0x04 && b1 == 0x88 && b2 == 0xB2 && b3 == 0x1E {
        Some(KeyFamily { script: ScriptKind::Legacy, mainnet: true })
    } else if b0 == 0x04 && b1 == 0x9D && b2 == 0x7C && b3 == 0xB2 {
        Some(KeyFamily { script: ScriptKind::NestedSegwit, mainnet: true })
    } else if b0 == 0x04 && b1 == 0xB2 && b2 == 0x47 && b3 == 0x46 {
        Some(KeyFamily { script: ScriptKind::NativeSegwit, mainnet: true })
    } else if b0 == 0x04 && b1 == 0x35 && b2 == 0x87 && b3 == 0xCF {
        Some(KeyFamily { script: ScriptKind::Legacy, mainnet: false })
    } else if b0 == 0x04 && b1 == 0x4A && b2 == 0x52 && b3 == 0x62 {
        Some(KeyFamily { script: ScriptKind::NestedSegwit, mainnet: false })
    } else if b0 == 0x04 && b1 == 0x5F && b2 == 0x1C && b3 == 0xF6 {
        Some(KeyFamily { script: ScriptKind::NativeSegwit, mainnet: false })
    } else {
        None
    }
}

/// The same key under the plain version of its network.
pub fn to_plain_payload(payload: &Vec<u8>, mainnet: bool) -> (r: Vec<u8>)
    ensures
        r@ == plain_payload(payload@, mainnet),
{
    let mut out: Vec<u8> = Vec::new();
    out.push(0x04);
    if mainnet {
        out.push(0x88);
        out.push(0xB2);
        out.push(0x1E);
    } else {
        out.push(0x35);
        out.push(0x87);
        out.push(0xCF);
    }
    assert(out@ == plain_version(mainnet));
    if payload.len() < 4 {
        return out;
    }
    let mut i: usize = 4;
    while i < payload.len()
        invariant
            4 <= i <= payload.len(),
            out@ == plain_version(mainnet) + payload@.subrange(4, i as int),
        decreases payload.len() - i,
    {
        out.push(payload[i]);
        assert(payload@.subrange(4, i + 1) == payload@.subrange(4, i as int).push(payload@[i as int]));
        i = i + 1;
    }
    out
}

fn address_of_key(key: &Vec<u8>, family: KeyFamily) -> (r: Option<String>)
    ensures
        match r {
            Some(a) => family_address(key@, family) == Some(a@),
            None => family_address(key@, family) is None,
        },
{
    match family.script {
        ScriptKind::Legacy => p2pkh_address(key, family.mainnet),
        ScriptKind::NestedSegwit => p2shwpkh_address(key, family.mainnet),
        ScriptKind::NativeSegwit => p2wpkh_address(key, family.mainnet),
    }
}

fn address_at(plain: &Vec<u8>, family: KeyFamily, chain: u32, index: u32) -> (r: Option<String>)
    ensures
        match r {
            Some(a) => (match receive_key(plain@, chain, index) {
                Some(key) => family_address(key, family),
                None => None,
            }) == Some(a@),
            None => (match receive_key(plain@, chain, index) {
                Some(key) => family_address(key, family),
                None => None,
            }) is None,
        },
{
    match child_key(plain, chain, index) {
        Some(key) => address_of_key(&key, family),
        None => None,
    }
}

/// The first `count` receiving addresses of a decoded extended key, in order, or the
/// error where the key is of no known family, holds no public key, or lacks one of
/// the addresses.
pub fn derive_from_payload(payload: &Vec<u8>, count: u32) -> (r: Result<Vec<String>, DerivationError>)
    ensures
        r is Ok <==> payload_derivable(payload@, count),
        r matches Ok(v) ==> v@.len() == count && forall|i: u32|
            i < count ==> payload_address(payload@, i) == Some(#[trigger] v@[i as int]@),
{
    let family = match key_family(payload) {
        Some(f) => f,
        None => { return Err(DerivationError); },
    };
    let plain = to_plain_payload(payload, family.mainnet);
    if address_at(&plain, family, RECEIVE_CHAIN, 0).is_none() {
        return Err(DerivationError);
    }
    let mut out: Vec<String> = Vec::new();
    let mut i: u32 = 0;
    while i < count
        invariant
            i <= count,
            family_of(payload@) == Some(family),
            plain@ == plain_payload(payload@, family.mainnet),
            payload_address(payload@, 0) is Some,
            out@.len() == i,
            forall|k: u32| k < i ==> payload_address(payload@, k) == Some(#[trigger] out@[k as int]@),
        decreases count - i,
    {
        match address_at(&plain, family, RECEIVE_CHAIN, i) {
            Some(a) => {
                out.push(a);
            },
            None => {
                assert(payload_address(payload@, i) is None);
                return Err(DerivationError);
            },
        }
        i = i + 1;
    }
    assert forall|k: u32| k < count implies (#[trigger] payload_address(payload@, k)) is Some by {
        assert(payload_address(payload@, k) == Some(out@[k as int]@));
    }
    Ok(out)
}

/// Derivation is deterministic: two runs of addresses that both are what the first
/// `count` receiving addresses of a key are, are the same run.
pub proof fn lemma_derivation_is_deterministic(
    xkey: Seq<char>,
    count: u32,
    first: Seq<Seq<char>>,
    second: Seq<Seq<char>>,
)
    requires
        first.len() == count,
        second.len() == count,
        forall|i: u32| i < count ==> derived_address(xkey, i) == Some(#[trigger] first[i as int]),
        forall|i: u32| i < count ==> derived_address(xkey, i) == Some(#[trigger] second[i as int]),
    ensures
        first == second,
{
    assert forall|k: int| 0 <= k < count implies first[k] == second[k] by {
        let i = k as u32;
        assert(derived_address(xkey, i) == Some(first[i as int]));
        assert(derived_address(xkey, i) == Some(second[i as int]));
    }
    assert(first =~= second);
}

/// The first `gap_limit` receiving addresses of an extended public key, in the order
/// of their index. The same key and limit give the same addresses.
pub fn derive(xkey: &str, gap_limit: u32) -> (r: Result<Vec<String>, DerivationError>)
    ensures
        r is Ok <==> derivable(xkey@, gap_limit),
        r matches Ok(v) ==> v@.len() == gap_limit && forall|i: u32|
            i < gap_limit ==> derived_address(xkey@, i) == Some(#[trigger] v@[i as int]@),
{
    match base58check_decode(xkey) {
        Some(payload) => derive_from_payload(&payload, gap_limit),
        None => Err(DerivationError),
    }
}

} // verus!
