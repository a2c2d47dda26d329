//! Trial decryption of Orchard actions.

use vstd::prelude::*;
use crate::scanner::DecryptedNote;

verus! {

/// The Orchard actions of a transaction's bundle, in order. The action type
/// carries a signature type that cannot be declared, so the list is held
/// here and read through the functions below.
#[verifier::external_body]
pub struct OrchardActions {
    actions: Vec<
        orchard::Action<
            orchard::primitives::redpallas::Signature<orchard::primitives::redpallas::SpendAuth>,
        >,
    >,
}

/// The number of actions in the list.
pub uninterp spec fn action_count(a: OrchardActions) -> nat;

/// The Orchard actions of a transaction, when it has an Orchard bundle.
pub uninterp spec fn tx_orchard_actions(tx: zcash_primitives::transaction::Transaction) -> Option<OrchardActions>;

/// The extracted note commitment of action `i`.
pub uninterp spec fn action_cmx(a: OrchardActions, i: int) -> [u8; 32];

/// The nullifier that action `i` reveals.
pub uninterp spec fn action_nf(a: OrchardActions, i: int) -> [u8; 32];

/// What trial decryption of action `i` with a prepared key recovers: the
/// note, its recipient and its memo field.
pub uninterp spec fn trial_decryption(
    a: OrchardActions,
    i: int,
    ivk: orchard::keys::PreparedIncomingViewingKey,
) -> Option<(orchard::Note, orchard::Address, Seq<u8>)>;

/// The value of a note.
pub uninterp spec fn note_value_of(n: orchard::Note) -> u64;

/// The nullifier of a note under a full viewing key.
pub uninterp spec fn note_nullifier_of(n: orchard::Note, fvk: orchard::keys::FullViewingKey) -> [u8; 32];

/// The text of a recipient address.
pub uninterp spec fn recipient_text_of(a: orchard::Address) -> Seq<char>;

/// The external-scope incoming viewing key of a full viewing key.
pub uninterp spec fn external_ivk_of(fvk: orchard::keys::FullViewingKey) -> orchard::keys::IncomingViewingKey;

/// An incoming viewing key prepared for trial decryption.
pub uninterp spec fn prepared_of(ivk: orchard::keys::IncomingViewingKey) -> orchard::keys::PreparedIncomingViewingKey;

/// Relies on `Bundle::actions` of orchard, reached through
/// `Transaction::orchard_bundle` of zcash_primitives: the bundle's actions, in order.
#[verifier::external_body]
pub(crate) fn orchard_actions(tx: &zcash_primitives::transaction::Transaction) -> (r: Option<OrchardActions>)
    ensures
        r == tx_orchard_actions(*tx),
{
    tx.orchard_bundle().map(|b| OrchardActions { actions: b.actions().iter().cloned().collect() })
}

/// Relies on `Vec::len`: the number of actions held.
#[verifier::external_body]
pub(crate) fn actions_len(a: &OrchardActions) -> (r: usize)
    ensures
        r == action_count(*a),
{
    a.actions.len()
}

#[verifier::external_type_specification]
#[verifier::external_body]
pub struct ExIncomingViewingKey(orchard::keys::IncomingViewingKey);

#[verifier::external_type_specification]
#[verifier::external_body]
pub struct ExPreparedIncomingViewingKey(orchard::keys::PreparedIncomingViewingKey);

#[verifier::external_type_specification]
#[verifier::external_body]
pub struct ExNote(orchard::Note);

#[verifier::external_type_specification]
#[verifier::external_body]
pub struct ExAddress(orchard::Address);

/// Relies on `Action::cmx` of orchard: the extracted note commitment of action `i`.
#[verifier::external_body]
pub(crate) fn action_commitment(a: &OrchardActions, i: usize) -> (r: [u8; 32])
    requires
        i < action_count(*a),
    ensures
        r == action_cmx(*a, i as int),
{
    a.actions[i].cmx().to_bytes()
}

/// Relies on `Action::nullifier` of orchard: the nullifier that action `i` reveals.
#[verifier::external_body]
pub(crate) fn action_nullifier(a: &OrchardActions, i: usize) -> (r: [u8; 32])
    requires
        i < action_count(*a),
    ensures
        r == action_nf(*a, i as int),
{
    a.actions[i].nullifier().to_bytes()
}

/// Relies on `FullViewingKey::to_ivk` of orchard, for the external scope.
#[verifier::external_body]
fn external_ivk(fvk: &orchard::keys::FullViewingKey) -> (r: orchard::keys::IncomingViewingKey)
    ensures
        r == external_ivk_of(*fvk),
{
    fvk.to_ivk(orchard::keys::Scope::External)
}

/// Relies on `PreparedIncomingViewingKey::new` of orchard.
#[verifier::external_body]
pub(crate) fn prepare_ivk(ivk: &orchard::keys::IncomingViewingKey) -> (r: orchard::keys::PreparedIncomingViewingKey)
    ensures
        r == prepared_of(*ivk),
{
    orchard::keys::PreparedIncomingViewingKey::new(ivk)
}

/// Relies on `zcash_note_encryption::try_note_decryption` with the Orchard
/// domain of action `i`: the note, its recipient and its memo field when the
/// action is addressed to the key.
#[verifier::external_body]
fn try_decrypt(
    a: &OrchardActions,
    i: usize,
    ivk: &orchard::keys::PreparedIncomingViewingKey,
) -> (r: Option<(orchard::Note, orchard::Address, [u8; 512])>)
    requires
        i < action_count(*a),
    ensures
        r is Some <==> trial_decryption(*a, i as int, *ivk) is Some,
        r is Some ==> ({
            let t = trial_decryption(*a, i as int, *ivk)->0;
            (r->0).0 == t.0 && (r->0).1 == t.1 && (r->0).2@ == t.2
        }),
{
    let domain = orchard::note_encryption::OrchardDomain::for_action(&a.actions[i]);
    zcash_note_encryption::try_note_decryption(&domain, ivk, &a.actions[i])
}

/// Relies on `Note::value` of orchard.
#[verifier::external_body]
fn note_value(n: &orchard::Note) -> (r: u64)
    ensures
        r == note_value_of(*n),
{
    n.value().inner()
}

/// Relies on `Note::nullifier` of orchard: the note's nullifier under the key.
#[verifier::external_body]
fn note_nullifier(n: &orchard::Note, fvk: &orchard::keys::FullViewingKey) -> (r: [u8; 32])
    ensures
        r == note_nullifier_of(*n, *fvk),
{
    n.nullifier(fvk).to_bytes()
}

/// Relies on the `Debug` format of `orchard::Address`.
#[verifier::external_body]
fn recipient_text(a: &orchard::Address) -> (r: String)
    ensures
        r@ == recipient_text_of(*a),
{
    format!("{:?}", a)
}

/// Copies a memo field into a vector.
fn memo_bytes(m: &[u8; 512]) -> (r: Vec<u8>)
    ensures
        r@ == m@,
{
    let mut r: Vec<u8> = Vec::new();
    let mut i: usize = 0;
    while i < 512
        invariant
            i <= 512,
            m@.len() == 512,
            r@ == m@.subrange(0, i as int),
        decreases 512 - i,
    {
        r.push(m[i]);
        i = i + 1;
        assert(r@ == m@.subrange(0, i as int));
    }
    assert(m@.subrange(0, 512) == m@);
    r
}

/// The external-scope incoming viewing key of `fvk`, prepared for repeated
/// trial decryption.
pub fn prepared_external_ivk(fvk: &orchard::keys::FullViewingKey) -> (r: orchard::keys::PreparedIncomingViewingKey)
    ensures
        r == prepared_of(external_ivk_of(*fvk)),
{
    prepare_ivk(&external_ivk(fvk))
}

/// What trial decryption of action `i` gives as a decrypted note: value,
/// memo and recipient of the recovered note, and its nullifier when a full
/// viewing key is given.
pub open spec fn decryption_is(
    r: Option<DecryptedNote>,
    a: OrchardActions,
    i: int,
    ivk: orchard::keys::PreparedIncomingViewingKey,
    fvk: Option<orchard::keys::FullViewingKey>,
) -> bool {
    match trial_decryption(a, i, ivk) {
        None => r is None,
        Some(t) => r is Some && {
            let d = r->0;
            &&& d.value == note_value_of(t.0)
            &&& d.memo@ == t.2
            &&& d.recipient@ == recipient_text_of(t.1)
            &&& d.nullifier == match fvk {
                Some(k) => Some(note_nullifier_of(t.0, k)),
                None => None::<[u8; 32]>,
            }
        },
    }
}

/// Trial decryption of one action with a prepared incoming viewing key; on
/// success the note's nullifier is computed when a full viewing key is given.
pub fn decrypt_action(
    a: &OrchardActions,
    i: usize,
    ivk: &orchard::keys::PreparedIncomingViewingKey,
    fvk: &Option<orchard::keys::FullViewingKey>,
) -> (r: Option<DecryptedNote>)
    requires
        i < action_count(*a),
    ensures
        decryption_is(r, *a, i as int, *ivk, *fvk),
{
    match try_decrypt(a, i, ivk) {
        Some((note, recipient, memo)) => Some(DecryptedNote {
            value: note_value(&note),
            memo: memo_bytes(&memo),
            nullifier: match fvk {
                Some(k) => Some(note_nullifier(&note, k)),
                None => None,
            },
            recipient: recipient_text(&recipient),
        }),
        None => None,
    }
}

} // verus!
