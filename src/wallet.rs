//! Wallet derivation: seed phrase to spending key, viewing key and addresses.

use vstd::prelude::*;
use vstd::string::StringExecFns;
use zcash_keys::encoding::AddressCodec;
use zcash_transparent::keys::IncomingViewingKey;
use crate::network::{network_label, network_name, Network};
use crate::scanner::text_of;

verus! {

/// Errors of wallet derivation.
#[derive(Debug, Clone)]
pub enum WalletError {
    InvalidSeedPhrase(String),
    MnemonicGeneration(String),
    SpendingKeyDerivation(String),
    AddressGeneration(String),
}

/// The credentials derived for account zero of a seed.
#[derive(Debug, Clone)]
pub struct WalletInfo {
    /// The BIP39 seed phrase, as the mnemonic writes it.
    pub seed_phrase: String,
    /// The network: "mainnet" or "testnet".
    pub network: String,
    /// The unified address with every receiver the key supports.
    pub unified_address: String,
    /// The default transparent address, when it could be derived.
    pub transparent_address: Option<String>,
    /// The encoded unified full viewing key.
    pub unified_full_viewing_key: String,
}

/// Whether `s` is a valid English BIP39 phrase.
pub uninterp spec fn phrase_valid(s: Seq<char>) -> bool;

/// The mnemonic that a valid English phrase parses to.
pub uninterp spec fn mnemonic_of_phrase(s: Seq<char>) -> bip39::Mnemonic;

/// The English mnemonic of 32 bytes of entropy.
pub uninterp spec fn mnemonic_of_entropy(e: Seq<u8>) -> bip39::Mnemonic;

/// The words of a mnemonic, separated by single spaces.
pub uninterp spec fn phrase_text(m: bip39::Mnemonic) -> Seq<char>;

/// The 64-byte seed of a mnemonic under the empty passphrase.
pub uninterp spec fn seed_of(m: bip39::Mnemonic) -> Seq<u8>;

/// Whether account zero's unified spending key derives from `seed` on `network`.
pub uninterp spec fn spending_key_derivable(seed: Seq<u8>, network: Network) -> bool;

/// Account zero's unified spending key for `seed` on `network`.
pub uninterp spec fn usk_of(seed: Seq<u8>, network: Network) -> zcash_keys::keys::UnifiedSpendingKey;

/// The unified full viewing key of a spending key.
pub uninterp spec fn ufvk_of(usk: zcash_keys::keys::UnifiedSpendingKey) -> zcash_keys::keys::UnifiedFullViewingKey;

/// The encoding of a unified full viewing key on a network.
pub uninterp spec fn ufvk_text(ufvk: zcash_keys::keys::UnifiedFullViewingKey, network: Network) -> Seq<char>;

/// The unified address of a viewing key at its smallest valid diversifier
/// index, with every receiver it supports.
pub uninterp spec fn default_ua_of(ufvk: zcash_keys::keys::UnifiedFullViewingKey) -> Option<zcash_keys::address::UnifiedAddress>;

/// The encoding of a unified address on a network.
pub uninterp spec fn ua_text(ua: zcash_keys::address::UnifiedAddress, network: Network) -> Seq<char>;

/// The transparent account key of a unified full viewing key, if it has one.
pub uninterp spec fn transparent_key_of(ufvk: zcash_keys::keys::UnifiedFullViewingKey) -> Option<zcash_transparent::keys::AccountPubKey>;

/// The external incoming viewing key of a transparent account key, if it derives.
pub uninterp spec fn external_tivk_of(k: zcash_transparent::keys::AccountPubKey) -> Option<zcash_transparent::keys::ExternalIvk>;

/// The default address of a transparent external incoming viewing key.
pub uninterp spec fn default_taddr_of(ivk: zcash_transparent::keys::ExternalIvk) -> zcash_transparent::address::TransparentAddress;

/// The encoding of a transparent address on a network.
pub uninterp spec fn taddr_text(a: zcash_transparent::address::TransparentAddress, network: Network) -> Seq<char>;

/// The characters with the Unicode White_Space property.
pub open spec fn is_white_space(c: char) -> bool {
    ('\u{9}' <= c && c <= '\u{d}') || c == ' ' || c == '\u{85}' || c == '\u{a0}' || c == '\u{1680}'
        || ('\u{2000}' <= c && c <= '\u{200a}') || c == '\u{2028}' || c == '\u{2029}'
        || c == '\u{202f}' || c == '\u{205f}' || c == '\u{3000}'
}

pub open spec fn trim_start_ws(s: Seq<char>) -> Seq<char>
    decreases s.len(),
{
    if s.len() > 0 && is_white_space(s[0]) {
        trim_start_ws(s.drop_first())
    } else {
        s
    }
}

pub open spec fn trim_end_ws(s: Seq<char>) -> Seq<char>
    decreases s.len(),
{
    if s.len() > 0 && is_white_space(s.last()) {
        trim_end_ws(s.drop_last())
    } else {
        s
    }
}

/// `s` without leading and trailing white space.
pub open spec fn trimmed(s: Seq<char>) -> Seq<char> {
    trim_end_ws(trim_start_ws(s))
}

pub open spec fn starts_with(s: Seq<char>, p: Seq<char>) -> bool {
    p.len() <= s.len() && s.subrange(0, p.len() as int) == p
}

/// The text that every unified full viewing key encoding on `n` starts with.
pub open spec fn ufvk_prefix(n: Network) -> Seq<char> {
    match n {
        Network::MainNetwork => seq!['u', 'v', 'i', 'e', 'w', '1'],
        Network::TestNetwork => seq!['u', 'v', 'i', 'e', 'w', 't', 'e', 's', 't', '1'],
    }
}

/// The text that every unified address encoding on `n` starts with.
pub open spec fn ua_prefix(n: Network) -> Seq<char> {
    match n {
        Network::MainNetwork => seq!['u', '1'],
        Network::TestNetwork => seq!['u', 't', 'e', 's', 't', '1'],
    }
}

#[verifier::external_type_specification]
#[verifier::external_body]
pub struct ExMnemonic(bip39::Mnemonic);

#[verifier::external_type_specification]
#[verifier::external_body]
pub struct ExUnifiedSpendingKey(zcash_keys::keys::UnifiedSpendingKey);

#[verifier::external_type_specification]
#[verifier::external_body]
pub struct ExUnifiedFullViewingKey(zcash_keys::keys::UnifiedFullViewingKey);

#[verifier::external_type_specification]
#[verifier::external_body]
pub struct ExUnifiedAddress(zcash_keys::address::UnifiedAddress);

#[verifier::external_type_specification]
#[verifier::external_body]
pub struct ExAccountPubKey(zcash_transparent::keys::AccountPubKey);

#[verifier::external_type_specification]
#[verifier::external_body]
pub struct ExExternalIvk(zcash_transparent::keys::ExternalIvk);

#[verifier::external_type_specification]
#[verifier::external_body]
pub struct ExTransparentAddress(zcash_transparent::address::TransparentAddress);

/// Relies on `str::trim`: leading and trailing White_Space removed.
#[verifier::external_body]
fn trim_text(s: &str) -> (r: &str)
    ensures
        r@ == trimmed(s@),
{
    s.trim()
}

/// Relies on `Mnemonic::from_entropy_in` of bip39: 32 bytes of entropy is a
/// valid length, the only thing it checks, and the mnemonic's words parse
/// back to it.
#[verifier::external_body]
fn mnemonic_from_entropy(entropy: &[u8; 32]) -> (r: Result<bip39::Mnemonic, String>)
    ensures
        r is Ok,
        r is Ok ==> r->Ok_0 == mnemonic_of_entropy(entropy@),
        r is Ok ==> phrase_valid(phrase_text(r->Ok_0)) && mnemonic_of_phrase(phrase_text(r->Ok_0)) == r->Ok_0,
{
    bip39::Mnemonic::from_entropy_in(bip39::Language::English, entropy).map_err(|e| e.to_string())
}

/// Relies on `Mnemonic::parse_in_normalized` of bip39 for English: the
/// result depends on the phrase alone, and the parsed words read back to it.
#[verifier::external_body]
fn parse_mnemonic(s: &str) -> (r: Result<bip39::Mnemonic, String>)
    ensures
        r is Ok <==> phrase_valid(s@),
        r is Ok ==> r->Ok_0 == mnemonic_of_phrase(s@),
        r is Ok ==> phrase_valid(phrase_text(r->Ok_0)) && mnemonic_of_phrase(phrase_text(r->Ok_0)) == r->Ok_0,
{
    bip39::Mnemonic::parse_in_normalized(bip39::Language::English, s).map_err(|e| e.to_string())
}

/// Relies on the `Display` of `bip39::Mnemonic`: its words (at least twelve,
/// none empty or holding white space), separated by single spaces.
#[verifier::external_body]
fn mnemonic_phrase(m: &bip39::Mnemonic) -> (r: String)
    ensures
        r@ == phrase_text(*m),
        r@.len() > 0,
        !is_white_space(r@[0]),
        !is_white_space(r@.last()),
{
    m.to_string()
}

/// Relies on `Mnemonic::to_seed` of bip39, with an empty passphrase.
#[verifier::external_body]
fn mnemonic_seed(m: &bip39::Mnemonic) -> (r: [u8; 64])
    ensures
        r@ == seed_of(*m),
{
    m.to_seed("")
}

/// Relies on `UnifiedSpendingKey::from_seed` of zcash_keys for account zero,
/// which panics on seeds shorter than 32 bytes.
#[verifier::external_body]
fn spending_key(seed: &[u8], network: Network) -> (r: Result<zcash_keys::keys::UnifiedSpendingKey, String>)
    requires
        seed@.len() >= 32,
    ensures
        r is Ok <==> spending_key_derivable(seed@, network),
        r is Ok ==> r->Ok_0 == usk_of(seed@, network),
{
    let params = match network {
        Network::MainNetwork => zcash_protocol::consensus::Network::MainNetwork,
        Network::TestNetwork => zcash_protocol::consensus::Network::TestNetwork,
    };
    zcash_keys::keys::UnifiedSpendingKey::from_seed(&params, seed, zip32::AccountId::ZERO)
        .map_err(|e| format!("{:?}", e))
}

/// Relies on `UnifiedSpendingKey::to_unified_full_viewing_key` of zcash_keys.
#[verifier::external_body]
fn full_viewing_key(usk: &zcash_keys::keys::UnifiedSpendingKey) -> (r: zcash_keys::keys::UnifiedFullViewingKey)
    ensures
        r == ufvk_of(*usk),
{
    usk.to_unified_full_viewing_key()
}

/// Relies on `UnifiedFullViewingKey::encode` of zcash_keys: Bech32m with the
/// network's unified full viewing key prefix ("uview" or "uviewtest") and
/// the separator "1".
#[verifier::external_body]
fn encode_full_viewing_key(ufvk: &zcash_keys::keys::UnifiedFullViewingKey, network: Network) -> (r: String)
    ensures
        r@ == ufvk_text(*ufvk, network),
        starts_with(r@, ufvk_prefix(network)),
{
    let params = match network {
        Network::MainNetwork => zcash_protocol::consensus::Network::MainNetwork,
        Network::TestNetwork => zcash_protocol::consensus::Network::TestNetwork,
    };
    ufvk.encode(&params)
}

/// Relies on `UnifiedFullViewingKey::default_address` of zcash_keys, asking
/// for every receiver the key supports.
#[verifier::external_body]
fn default_unified_address(
    ufvk: &zcash_keys::keys::UnifiedFullViewingKey,
) -> (r: Result<zcash_keys::address::UnifiedAddress, String>)
    ensures
        r is Ok <==> default_ua_of(*ufvk) is Some,
        r is Ok ==> r->Ok_0 == default_ua_of(*ufvk)->0,
{
    ufvk.default_address(zcash_keys::keys::UnifiedAddressRequest::AllAvailableKeys)
        .map(|(ua, _)| ua)
        .map_err(|e| format!("{:?}", e))
}

/// Relies on `UnifiedAddress::encode` of zcash_keys: Bech32m with the
/// network's unified address prefix ("u" or "utest") and the separator "1".
#[verifier::external_body]
fn encode_unified_address(ua: &zcash_keys::address::UnifiedAddress, network: Network) -> (r: String)
    ensures
        r@ == ua_text(*ua, network),
        starts_with(r@, ua_prefix(network)),
{
    let params = match network {
        Network::MainNetwork => zcash_protocol::consensus::Network::MainNetwork,
        Network::TestNetwork => zcash_protocol::consensus::Network::TestNetwork,
    };
    ua.encode(&params)
}

/// Relies on `UnifiedFullViewingKey::transparent` of zcash_keys.
#[verifier::external_body]
fn transparent_key(ufvk: &zcash_keys::keys::UnifiedFullViewingKey) -> (r: Option<zcash_transparent::keys::AccountPubKey>)
    ensures
        r == transparent_key_of(*ufvk),
{
    ufvk.transparent().cloned()
}

/// Relies on `AccountPubKey::derive_external_ivk` of zcash_transparent.
#[verifier::external_body]
fn external_transparent_ivk(k: &zcash_transparent::keys::AccountPubKey) -> (r: Option<zcash_transparent::keys::ExternalIvk>)
    ensures
        r == external_tivk_of(*k),
{
    k.derive_external_ivk().ok()
}

/// Relies on `IncomingViewingKey::default_address` of zcash_transparent.
#[verifier::external_body]
fn default_transparent_address(ivk: &zcash_transparent::keys::ExternalIvk) -> (r: zcash_transparent::address::TransparentAddress)
    ensures
        r == default_taddr_of(*ivk),
{
    ivk.default_address().0
}

/// Relies on the `AddressCodec::encode` of zcash_keys for transparent addresses.
#[verifier::external_body]
fn encode_transparent_address(a: &zcash_transparent::address::TransparentAddress, network: Network) -> (r: String)
    ensures
        r@ == taddr_text(*a, network),
{
    let params = match network {
        Network::MainNetwork => zcash_protocol::consensus::Network::MainNetwork,
        Network::TestNetwork => zcash_protocol::consensus::Network::TestNetwork,
    };
    a.encode(&params)
}

/// The unified full viewing key of account zero of `seed` on `n`.
pub open spec fn wallet_ufvk(seed: Seq<u8>, n: Network) -> zcash_keys::keys::UnifiedFullViewingKey {
    ufvk_of(usk_of(seed, n))
}

/// The default transparent address text of a viewing key, when it has
/// transparent key material and the derivation succeeds.
pub open spec fn transparent_text(ufvk: zcash_keys::keys::UnifiedFullViewingKey, n: Network) -> Option<Seq<char>> {
    match transparent_key_of(ufvk) {
        None => None,
        Some(k) => match external_tivk_of(k) {
            None => None,
            Some(ivk) => Some(taddr_text(default_taddr_of(ivk), n)),
        },
    }
}

/// What deriving the credentials of `seed` with phrase `phrase` on `n` returns.
pub open spec fn derived_is(r: Result<WalletInfo, WalletError>, seed: Seq<u8>, phrase: Seq<char>, n: Network) -> bool {
    let ufvk = wallet_ufvk(seed, n);
    &&& (r matches Err(WalletError::SpendingKeyDerivation(_))) <==> !spending_key_derivable(seed, n)
    &&& (r matches Err(WalletError::AddressGeneration(_))) <==> spending_key_derivable(seed, n)
        && default_ua_of(ufvk) is None
    &&& r is Err ==> (r matches Err(WalletError::SpendingKeyDerivation(_))) || (r matches Err(
        WalletError::AddressGeneration(_),
    ))
    &&& r is Ok ==> {
        let w = r->Ok_0;
        &&& w.seed_phrase@ == phrase
        &&& w.network@ == network_label(n)
        &&& w.unified_full_viewing_key@ == ufvk_text(ufvk, n)
        &&& w.unified_address@ == ua_text(default_ua_of(ufvk)->0, n)
        &&& text_of(w.transparent_address) == transparent_text(ufvk, n)
        &&& starts_with(w.unified_full_viewing_key@, ufvk_prefix(n))
        &&& starts_with(w.unified_address@, ua_prefix(n))
    }
}

/// The default transparent address of a viewing key, when it has transparent
/// key material and the derivation succeeds.
fn transparent_address_of(ufvk: &zcash_keys::keys::UnifiedFullViewingKey, network: Network) -> (r: Option<String>)
    ensures
        text_of(r) == transparent_text(*ufvk, network),
{
    let k = match transparent_key(ufvk) {
        Some(k) => k,
        None => return None,
    };
    let ivk = match external_transparent_ivk(&k) {
        Some(i) => i,
        None => return None,
    };
    Some(encode_transparent_address(&default_transparent_address(&ivk), network))
}

/// Derives the credentials of account zero from a seed of at least 32 bytes.
pub fn derive_wallet(seed: &[u8], seed_phrase: String, network: Network) -> (r: Result<WalletInfo, WalletError>)
    requires
        seed@.len() >= 32,
    ensures
        derived_is(r, seed@, seed_phrase@, network),
{
    let usk = match spending_key(seed, network) {
        Ok(k) => k,
        Err(e) => return Err(WalletError::SpendingKeyDerivation(e)),
    };
    let ufvk = full_viewing_key(&usk);
    let ufvk_encoded = encode_full_viewing_key(&ufvk, network);
    let ua = match default_unified_address(&ufvk) {
        Ok(a) => a,
        Err(e) => return Err(WalletError::AddressGeneration(e)),
    };
    let ua_encoded = encode_unified_address(&ua, network);
    let transparent_address = transparent_address_of(&ufvk, network);
    Ok(WalletInfo {
        seed_phrase,
        network: String::from_str(network_name(network)),
        unified_address: ua_encoded,
        transparent_address,
        unified_full_viewing_key: ufvk_encoded,
    })
}

/// What generating from `entropy` on `n` returns: the credentials of the
/// entropy's mnemonic, whose phrase parses back to it.
pub open spec fn generated_is(r: Result<WalletInfo, WalletError>, entropy: Seq<u8>, n: Network) -> bool {
    let m = mnemonic_of_entropy(entropy);
    &&& derived_is(r, seed_of(m), phrase_text(m), n)
    &&& canonical_phrase_of(phrase_text(m), m)
}

/// Generates a wallet from 32 bytes of entropy.
pub fn generate_wallet(entropy: &[u8; 32], network: Network) -> (r: Result<WalletInfo, WalletError>)
    ensures
        generated_is(r, entropy@, network),
{
    let mnemonic = match mnemonic_from_entropy(entropy) {
        Ok(m) => m,
        Err(e) => return Err(WalletError::MnemonicGeneration(e)),
    };
    let seed_phrase = mnemonic_phrase(&mnemonic);
    let seed = mnemonic_seed(&mnemonic);
    derive_wallet(&seed, seed_phrase, network)
}

/// A phrase is the canonical one of mnemonic `m`: valid, parsing back to
/// `m`, without leading or trailing white space.
pub open spec fn canonical_phrase_of(p: Seq<char>, m: bip39::Mnemonic) -> bool {
    &&& p == phrase_text(m)
    &&& phrase_valid(p)
    &&& mnemonic_of_phrase(p) == m
    &&& p.len() > 0 && !is_white_space(p[0]) && !is_white_space(p.last())
}

/// What restoring from phrase `s` on `n` returns: `InvalidSeedPhrase`
/// exactly when the trimmed phrase is not valid, else the credentials of
/// its mnemonic under the mnemonic's canonical phrase.
pub open spec fn restored_is(r: Result<WalletInfo, WalletError>, s: Seq<char>, n: Network) -> bool {
    let t = trimmed(s);
    let m = mnemonic_of_phrase(t);
    &&& (r matches Err(WalletError::InvalidSeedPhrase(_))) <==> !phrase_valid(t)
    &&& phrase_valid(t) ==> derived_is(r, seed_of(m), phrase_text(m), n)
    &&& phrase_valid(t) ==> canonical_phrase_of(phrase_text(m), m)
}

/// Restores a wallet from a seed phrase; surrounding white space is ignored.
pub fn restore_wallet(seed_phrase: &str, network: Network) -> (r: Result<WalletInfo, WalletError>)
    ensures
        restored_is(r, seed_phrase@, network),
{
    let mnemonic = match parse_mnemonic(trim_text(seed_phrase)) {
        Ok(m) => m,
        Err(e) => return Err(WalletError::InvalidSeedPhrase(e)),
    };
    let seed = mnemonic_seed(&mnemonic);
    derive_wallet(&seed, mnemonic_phrase(&mnemonic), network)
}

/// Two credential bundles hold the same text in every field.
pub open spec fn same_fields(a: WalletInfo, b: WalletInfo) -> bool {
    &&& a.seed_phrase@ == b.seed_phrase@
    &&& a.network@ == b.network@
    &&& a.unified_address@ == b.unified_address@
    &&& text_of(a.transparent_address) == text_of(b.transparent_address)
    &&& a.unified_full_viewing_key@ == b.unified_full_viewing_key@
}

proof fn lemma_derived_same(r1: Result<WalletInfo, WalletError>, r2: Result<WalletInfo, WalletError>, seed: Seq<u8>, p: Seq<char>, n: Network)
    requires
        derived_is(r1, seed, p, n),
        derived_is(r2, seed, p, n),
    ensures
        r1 is Ok <==> r2 is Ok,
        r1 is Ok ==> same_fields(r1->Ok_0, r2->Ok_0),
{
}

/// Restoring two phrases that differ at most in surrounding white space (in
/// particular the same phrase twice) on the same network gives the same
/// outcome, and on success the same text in every field.
pub proof fn lemma_restore_deterministic(
    s1: Seq<char>,
    s2: Seq<char>,
    n: Network,
    r1: Result<WalletInfo, WalletError>,
    r2: Result<WalletInfo, WalletError>,
)
    requires
        trimmed(s1) == trimmed(s2),
        restored_is(r1, s1, n),
        restored_is(r2, s2, n),
    ensures
        r1 is Ok <==> r2 is Ok,
        r1 is Ok ==> same_fields(r1->Ok_0, r2->Ok_0),
{
    let t = trimmed(s1);
    if phrase_valid(t) {
        let m = mnemonic_of_phrase(t);
        lemma_derived_same(r1, r2, seed_of(m), phrase_text(m), n);
    }
}

proof fn lemma_trimmed_unchanged(p: Seq<char>)
    requires
        p.len() > 0,
        !is_white_space(p[0]),
        !is_white_space(p.last()),
    ensures
        trimmed(p) == p,
{
    assert(trim_start_ws(p) == p);
    assert(trim_end_ws(p) == p);
}

/// The phrase of a generated wallet restores, on the same network, to a
/// wallet with the same text in every field.
pub proof fn lemma_generate_then_restore(
    entropy: Seq<u8>,
    n: Network,
    g: Result<WalletInfo, WalletError>,
    r: Result<WalletInfo, WalletError>,
)
    requires
        generated_is(g, entropy, n),
        g is Ok,
        restored_is(r, g->Ok_0.seed_phrase@, n),
    ensures
        r is Ok,
        same_fields(g->Ok_0, r->Ok_0),
{
    let m = mnemonic_of_entropy(entropy);
    let p = phrase_text(m);
    lemma_trimmed_unchanged(p);
    lemma_derived_same(g, r, seed_of(m), p, n);
}

/// The phrase of a restored wallet restores, on the same network, to a
/// wallet with the same text in every field.
pub proof fn lemma_restore_returned_phrase(
    s: Seq<char>,
    n: Network,
    r: Result<WalletInfo, WalletError>,
    again: Result<WalletInfo, WalletError>,
)
    requires
        restored_is(r, s, n),
        r is Ok,
        restored_is(again, r->Ok_0.seed_phrase@, n),
    ensures
        again is Ok,
        same_fields(r->Ok_0, again->Ok_0),
{
    let m = mnemonic_of_phrase(trimmed(s));
    let p = phrase_text(m);
    lemma_trimmed_unchanged(p);
    lemma_derived_same(r, again, seed_of(m), p, n);
}

/// The same phrase restored on the two networks gives different unified
/// addresses and viewing keys, with the main network's prefixes ("u1",
/// "uview1") on one and the test network's ("utest1", "uviewtest1") on the other.
pub proof fn lemma_network_separation(
    s: Seq<char>,
    main: Result<WalletInfo, WalletError>,
    test: Result<WalletInfo, WalletError>,
)
    requires
        restored_is(main, s, Network::MainNetwork),
        restored_is(test, s, Network::TestNetwork),
        main is Ok,
        test is Ok,
    ensures
        starts_with(main->Ok_0.unified_address@, ua_prefix(Network::MainNetwork)),
        starts_with(main->Ok_0.unified_full_viewing_key@, ufvk_prefix(Network::MainNetwork)),
        starts_with(test->Ok_0.unified_address@, ua_prefix(Network::TestNetwork)),
        starts_with(test->Ok_0.unified_full_viewing_key@, ufvk_prefix(Network::TestNetwork)),
        main->Ok_0.unified_address@ != test->Ok_0.unified_address@,
        main->Ok_0.unified_full_viewing_key@ != test->Ok_0.unified_full_viewing_key@,
        main->Ok_0.network@ != test->Ok_0.network@,
{
    let a = main->Ok_0.unified_address@;
    let b = test->Ok_0.unified_address@;
    assert(a.subrange(0, 2)[1] == '1');
    assert(b.subrange(0, 6)[1] == 't');
    assert(a[1] != b[1]);
    let c = main->Ok_0.unified_full_viewing_key@;
    let d = test->Ok_0.unified_full_viewing_key@;
    assert(c.subrange(0, 6)[5] == '1');
    assert(d.subrange(0, 10)[5] == 't');
    assert(c[5] != d[5]);
    assert(network_label(Network::MainNetwork)[0] != network_label(Network::TestNetwork)[0]);
}

} // verus!
