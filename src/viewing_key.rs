//! Viewing-key strings: which pools they open, and the Orchard key they carry.

use vstd::prelude::*;
use zcash_address::unified::{Container, Encoding};

verus! {

/// One item of a unified full viewing key.
#[derive(Debug)]
pub enum FvkItem {
    Orchard([u8; 96]),
    Sapling([u8; 128]),
    P2pkh([u8; 65]),
    Unknown(u32, Vec<u8>),
}

/// One item of a unified incoming viewing key.
#[derive(Debug)]
pub enum IvkItem {
    Orchard([u8; 64]),
    Sapling([u8; 64]),
    P2pkh([u8; 65]),
    Unknown(u32, Vec<u8>),
}

/// Which pools a viewing key opens.
#[derive(Clone, Copy, Debug, PartialEq, Eq, Structural)]
pub struct Capabilities {
    pub sapling: bool,
    pub orchard: bool,
    pub transparent: bool,
}

/// Errors of scanning.
#[derive(Clone, Copy, Debug, PartialEq, Eq, Structural)]
pub enum ScanError {
    /// The transaction text is not hex.
    InvalidEncoding,
    /// No known consensus branch reads the transaction bytes.
    UnknownProtocolVersion,
    /// The viewing key is in none of the known formats.
    UnrecognizedViewingKeyFormat,
    /// The transparent outputs add up to more than a `u64` holds.
    ValueOverflow,
}

/// The items of `s` when it decodes as a unified full viewing key.
pub uninterp spec fn ufvk_items(s: Seq<char>) -> Option<Seq<FvkItem>>;

/// The items of `s` when it decodes as a unified incoming viewing key.
pub uninterp spec fn uivk_items(s: Seq<char>) -> Option<Seq<IvkItem>>;

/// Whether the 64 bytes are a valid Orchard incoming viewing key encoding.
pub uninterp spec fn orchard_ivk_valid(b: Seq<u8>) -> bool;

/// The Orchard incoming viewing key that valid bytes encode.
pub uninterp spec fn orchard_ivk_of(b: Seq<u8>) -> orchard::keys::IncomingViewingKey;

/// The Orchard full viewing key that valid bytes encode.
pub uninterp spec fn orchard_fvk_of(b: Seq<u8>) -> orchard::keys::FullViewingKey;

/// Whether the 96 bytes are a valid Orchard full viewing key encoding.
pub uninterp spec fn orchard_fvk_valid(b: Seq<u8>) -> bool;

/// Relies on `Ufvk::decode` and `Container::items` of zcash_address: the items
/// of a unified full viewing key, which depend on the text alone.
#[verifier::external_body]
fn decode_ufvk(s: &str) -> (r: Option<Vec<FvkItem>>)
    ensures
        r is Some <==> ufvk_items(s@) is Some,
        r is Some ==> r->0@ == ufvk_items(s@)->0,
{
    let (_, ufvk) = zcash_address::unified::Ufvk::decode(s).ok()?;
    Some(ufvk.items().into_iter().map(|item| match item {
        zcash_address::unified::Fvk::Orchard(b) => FvkItem::Orchard(b),
        zcash_address::unified::Fvk::Sapling(b) => FvkItem::Sapling(b),
        zcash_address::unified::Fvk::P2pkh(b) => FvkItem::P2pkh(b),
        zcash_address::unified::Fvk::Unknown { typecode, data } => FvkItem::Unknown(typecode, data),
    }).collect())
}

/// Relies on `Uivk::decode` and `Container::items` of zcash_address: the items
/// of a unified incoming viewing key, which depend on the text alone.
#[verifier::external_body]
fn decode_uivk(s: &str) -> (r: Option<Vec<IvkItem>>)
    ensures
        r is Some <==> uivk_items(s@) is Some,
        r is Some ==> r->0@ == uivk_items(s@)->0,
{
    let (_, uivk) = zcash_address::unified::Uivk::decode(s).ok()?;
    Some(uivk.items().into_iter().map(|item| match item {
        zcash_address::unified::Ivk::Orchard(b) => IvkItem::Orchard(b),
        zcash_address::unified::Ivk::Sapling(b) => IvkItem::Sapling(b),
        zcash_address::unified::Ivk::P2pkh(b) => IvkItem::P2pkh(b),
        zcash_address::unified::Ivk::Unknown { typecode, data } => IvkItem::Unknown(typecode, data),
    }).collect())
}

#[verifier::external_type_specification]
#[verifier::external_body]
pub struct ExOrchardFvk(orchard::keys::FullViewingKey);

/// Relies on `orchard::keys::FullViewingKey::from_bytes`: whether the bytes
/// are a valid key depends on the bytes alone.
#[verifier::external_body]
fn orchard_fvk_from_bytes(b: &[u8; 96]) -> (r: Option<orchard::keys::FullViewingKey>)
    ensures
        r is Some <==> orchard_fvk_valid(b@),
        r is Some ==> r->0 == orchard_fvk_of(b@),
{
    orchard::keys::FullViewingKey::from_bytes(b)
}

/// Relies on `orchard::keys::IncomingViewingKey::from_bytes`: whether the
/// bytes are a valid key depends on the bytes alone.
#[verifier::external_body]
fn orchard_ivk_from_bytes(b: &[u8; 64]) -> (r: Option<orchard::keys::IncomingViewingKey>)
    ensures
        r is Some <==> orchard_ivk_valid(b@),
        r is Some ==> r->0 == orchard_ivk_of(b@),
{
    orchard::keys::IncomingViewingKey::from_bytes(b).into()
}

pub open spec fn fvk_capabilities(items: Seq<FvkItem>) -> Capabilities {
    Capabilities {
        sapling: exists|i: int| 0 <= i < items.len() && items[i] is Sapling,
        orchard: exists|i: int| 0 <= i < items.len() && items[i] is Orchard,
        transparent: exists|i: int| 0 <= i < items.len() && items[i] is P2pkh,
    }
}

pub open spec fn ivk_capabilities(items: Seq<IvkItem>) -> Capabilities {
    Capabilities {
        sapling: exists|i: int| 0 <= i < items.len() && items[i] is Sapling,
        orchard: exists|i: int| 0 <= i < items.len() && items[i] is Orchard,
        transparent: exists|i: int| 0 <= i < items.len() && items[i] is P2pkh,
    }
}

/// The prefix of a legacy Sapling extended full viewing key.
pub open spec fn legacy_prefix() -> Seq<char> {
    seq!['z', 'x', 'v', 'i', 'e', 'w']
}

pub open spec fn has_legacy_prefix(s: Seq<char>) -> bool {
    s.len() >= legacy_prefix().len() && s.subrange(0, legacy_prefix().len() as int)
        == legacy_prefix()
}

/// What a viewing key opens: a unified full viewing key by its items, else a
/// unified incoming viewing key by its items, else a legacy Sapling key.
pub open spec fn key_capabilities(s: Seq<char>) -> Option<Capabilities> {
    if ufvk_items(s) is Some {
        Some(fvk_capabilities(ufvk_items(s)->0))
    } else if uivk_items(s) is Some {
        Some(ivk_capabilities(uivk_items(s)->0))
    } else if has_legacy_prefix(s) {
        Some(Capabilities { sapling: true, orchard: false, transparent: false })
    } else {
        None
    }
}

/// The capabilities granted by the items of a unified full viewing key.
pub fn capabilities_of_fvk_items(items: &Vec<FvkItem>) -> (c: Capabilities)
    ensures
        c == fvk_capabilities(items@),
{
    let mut c = Capabilities { sapling: false, orchard: false, transparent: false };
    let mut i: usize = 0;
    while i < items.len()
        invariant
            i <= items@.len(),
            c == fvk_capabilities(items@.subrange(0, i as int)),
        decreases items@.len() - i,
    {
        match &items[i] {
            FvkItem::Sapling(_) => c.sapling = true,
            FvkItem::Orchard(_) => c.orchard = true,
            FvkItem::P2pkh(_) => c.transparent = true,
            FvkItem::Unknown(_, _) => {},
        }
        proof {
            let s = items@.subrange(0, i as int);
            let t = items@.subrange(0, i + 1);
            assert(t[i as int] == items@[i as int]);
            assert forall|j: int| 0 <= j < s.len() implies s[j] == t[j] by {}
        }
        i = i + 1;
    }
    assert(items@.subrange(0, items@.len() as int) == items@);
    c
}

/// The capabilities granted by the items of a unified incoming viewing key.
pub fn capabilities_of_ivk_items(items: &Vec<IvkItem>) -> (c: Capabilities)
    ensures
        c == ivk_capabilities(items@),
{
    let mut c = Capabilities { sapling: false, orchard: false, transparent: false };
    let mut i: usize = 0;
    while i < items.len()
        invariant
            i <= items@.len(),
            c == ivk_capabilities(items@.subrange(0, i as int)),
        decreases items@.len() - i,
    {
        match &items[i] {
            IvkItem::Sapling(_) => c.sapling = true,
            IvkItem::Orchard(_) => c.orchard = true,
            IvkItem::P2pkh(_) => c.transparent = true,
            IvkItem::Unknown(_, _) => {},
        }
        proof {
            let s = items@.subrange(0, i as int);
            let t = items@.subrange(0, i + 1);
            assert(t[i as int] == items@[i as int]);
            assert forall|j: int| 0 <= j < s.len() implies s[j] == t[j] by {}
        }
        i = i + 1;
    }
    assert(items@.subrange(0, items@.len() as int) == items@);
    c
}

/// Whether the text starts with the legacy Sapling viewing-key prefix.
pub fn starts_with_legacy_prefix(s: &str) -> (r: bool)
    ensures
        r == has_legacy_prefix(s@),
{
    let prefix: &str = "zxview";
    proof {
        reveal_strlit("zxview");
    }
    assert(prefix@ == legacy_prefix());
    let n = s.unicode_len();
    if n < 6 {
        return false;
    }
    let mut i: usize = 0;
    while i < 6
        invariant
            i <= 6 <= s@.len(),
            prefix@ == legacy_prefix(),
            forall|j: int| 0 <= j < i ==> s@[j] == legacy_prefix()[j],
        decreases 6 - i,
    {
        if s.get_char(i) != prefix.get_char(i) {
            assert(s@.subrange(0, 6)[i as int] != legacy_prefix()[i as int]);
            return false;
        }
        i = i + 1;
    }
    assert(s@.subrange(0, 6) == legacy_prefix());
    true
}

/// Parses a viewing key and reports which pools it opens, as
/// `(sapling, orchard, transparent)`.
pub fn parse_viewing_key_capabilities(viewing_key: &str) -> (r: Result<(bool, bool, bool), ScanError>)
    ensures
        r is Err <==> key_capabilities(viewing_key@) is None,
        r is Err ==> r->Err_0 == ScanError::UnrecognizedViewingKeyFormat,
        r is Ok ==> ({
            let c = key_capabilities(viewing_key@)->0;
            r->Ok_0 == (c.sapling, c.orchard, c.transparent)
        }),
{
    let c = viewing_key_capabilities(viewing_key)?;
    Ok((c.sapling, c.orchard, c.transparent))
}

/// The capabilities of a viewing key, as `key_capabilities` defines them.
pub fn viewing_key_capabilities(viewing_key: &str) -> (r: Result<Capabilities, ScanError>)
    ensures
        r is Err <==> key_capabilities(viewing_key@) is None,
        r is Err ==> r->Err_0 == ScanError::UnrecognizedViewingKeyFormat,
        r is Ok ==> r->Ok_0 == key_capabilities(viewing_key@)->0,
{
    if let Some(items) = decode_ufvk(viewing_key) {
        return Ok(capabilities_of_fvk_items(&items));
    }
    if let Some(items) = decode_uivk(viewing_key) {
        return Ok(capabilities_of_ivk_items(&items));
    }
    if starts_with_legacy_prefix(viewing_key) {
        return Ok(Capabilities { sapling: true, orchard: false, transparent: false });
    }
    Err(ScanError::UnrecognizedViewingKeyFormat)
}

/// Whether an item list holds a valid Orchard key at position `i`.
pub open spec fn valid_orchard_item(items: Seq<FvkItem>, i: int) -> bool {
    0 <= i < items.len() && (items[i] matches FvkItem::Orchard(b) && orchard_fvk_valid(b@))
}

/// The key of the first valid Orchard item at position `k` or later.
pub open spec fn first_orchard_fvk(items: Seq<FvkItem>, k: int) -> Option<orchard::keys::FullViewingKey>
    decreases items.len() - k,
{
    if k < 0 || k >= items.len() {
        None
    } else if valid_orchard_item(items, k) {
        Some(orchard_fvk_of(items[k]->Orchard_0@))
    } else {
        first_orchard_fvk(items, k + 1)
    }
}

/// The Orchard full viewing key of `s`: that of the first valid Orchard item,
/// when `s` is a unified full viewing key.
pub open spec fn key_orchard_fvk(s: Seq<char>) -> Option<orchard::keys::FullViewingKey> {
    if ufvk_items(s) is Some {
        first_orchard_fvk(ufvk_items(s)->0, 0)
    } else {
        None
    }
}

/// The Orchard full viewing key of a unified full viewing key, if it carries
/// a valid one.
pub fn extract_orchard_fvk(viewing_key: &str) -> (r: Option<orchard::keys::FullViewingKey>)
    ensures
        r == key_orchard_fvk(viewing_key@),
{
    let items = match decode_ufvk(viewing_key) {
        Some(items) => items,
        None => return None,
    };
    let mut i: usize = 0;
    while i < items.len()
        invariant
            i <= items@.len(),
            ufvk_items(viewing_key@) == Some(items@),
            key_orchard_fvk(viewing_key@) == first_orchard_fvk(items@, i as int),
        decreases items@.len() - i,
    {
        if let FvkItem::Orchard(b) = &items[i] {
            let fvk = orchard_fvk_from_bytes(b);
            if fvk.is_some() {
                assert(items@[i as int] == FvkItem::Orchard(*b));
                return fvk;
            }
        }
        i = i + 1;
    }
    None
}

/// Whether an incoming-key item list holds a valid Orchard key at position `i`.
pub open spec fn valid_orchard_ivk_item(items: Seq<IvkItem>, i: int) -> bool {
    0 <= i < items.len() && (items[i] matches IvkItem::Orchard(b) && orchard_ivk_valid(b@))
}

/// The key of the first valid Orchard item at position `k` or later.
pub open spec fn first_orchard_ivk(items: Seq<IvkItem>, k: int) -> Option<orchard::keys::IncomingViewingKey>
    decreases items.len() - k,
{
    if k < 0 || k >= items.len() {
        None
    } else if valid_orchard_ivk_item(items, k) {
        Some(orchard_ivk_of(items[k]->Orchard_0@))
    } else {
        first_orchard_ivk(items, k + 1)
    }
}

/// The Orchard incoming viewing key of `s`: that of the first valid Orchard
/// item, when `s` is a unified incoming viewing key and not a full one.
pub open spec fn key_orchard_ivk(s: Seq<char>) -> Option<orchard::keys::IncomingViewingKey> {
    if ufvk_items(s) is None && uivk_items(s) is Some {
        first_orchard_ivk(uivk_items(s)->0, 0)
    } else {
        None
    }
}

/// The Orchard incoming viewing key of a unified incoming viewing key, as
/// `key_orchard_ivk` defines it.
pub fn extract_orchard_ivk(viewing_key: &str) -> (r: Option<orchard::keys::IncomingViewingKey>)
    ensures
        r == key_orchard_ivk(viewing_key@),
{
    if decode_ufvk(viewing_key).is_some() {
        return None;
    }
    let items = match decode_uivk(viewing_key) {
        Some(items) => items,
        None => return None,
    };
    let mut i: usize = 0;
    while i < items.len()
        invariant
            i <= items@.len(),
            key_orchard_ivk(viewing_key@) == first_orchard_ivk(items@, i as int),
        decreases items@.len() - i,
    {
        if let IvkItem::Orchard(b) = &items[i] {
            let ivk = orchard_ivk_from_bytes(b);
            if ivk.is_some() {
                assert(items@[i as int] == IvkItem::Orchard(*b));
                return ivk;
            }
        }
        i = i + 1;
    }
    None
}

} // verus!
