//! Reading a transaction under an unknown consensus branch, and scanning it.

use vstd::prelude::*;
use zcash_protocol::consensus::BranchId;
use crate::decrypt::{
    action_cmx, action_commitment, action_count, action_nf, action_nullifier, actions_len,
    decrypt_action, decryption_is, external_ivk_of, note_nullifier_of, note_value_of,
    orchard_actions, prepare_ivk, prepared_external_ivk, prepared_of, recipient_text_of,
    trial_decryption, tx_orchard_actions, OrchardActions,
};
use crate::encoding::{hex_bytes, hex_decode, hex_text, is_hex_text, memo_text};
use crate::network::Network;
use crate::scanner::{
    entries, lemma_spent_lists_agree, lemma_transparent_total, nullifier_records, nullifiers_are,
    opt_seq, orchard_note_is, orchard_tag, same_spent, scan_contents, scan_is, shown_orchard,
    shown_sapling, shown_transparent, spent_list_is, sum_outputs, sum_values, text_of,
    DecryptedNote, ScanResult, ScannedNote, SpentNullifier, TransactionContents,
};
use crate::viewing_key::{
    extract_orchard_fvk, extract_orchard_ivk, key_orchard_fvk, key_orchard_ivk,
    key_capabilities, viewing_key_capabilities, ScanError,
};

verus! {

/// A consensus branch under which transaction bytes can be read.
#[derive(Clone, Copy, Debug, PartialEq, Eq, Structural)]
pub enum Branch {
    Nu6,
    Nu5,
    Canopy,
    Heartwood,
}

/// The branches tried when reading a transaction, newest first.
pub open spec fn branch_order() -> Seq<Branch> {
    seq![Branch::Nu6, Branch::Nu5, Branch::Canopy, Branch::Heartwood]
}

/// Whether `bytes` read as a transaction under `branch`.
pub uninterp spec fn reads_under(bytes: Seq<u8>, branch: Branch) -> bool;

/// The transaction that `bytes` read as under `branch`, where they do.
pub uninterp spec fn tx_read(bytes: Seq<u8>, branch: Branch) -> zcash_primitives::transaction::Transaction;

/// The reading of `bytes` under the first branch, from position `k` of the
/// newest-first order on, that accepts them.
pub open spec fn first_reading(bytes: Seq<u8>, k: int) -> Option<zcash_primitives::transaction::Transaction>
    decreases 4 - k,
{
    if k < 0 || k >= 4 {
        None
    } else if reads_under(bytes, branch_order()[k]) {
        Some(tx_read(bytes, branch_order()[k]))
    } else {
        first_reading(bytes, k + 1)
    }
}

#[verifier::external_type_specification]
#[verifier::external_body]
pub struct ExTransaction(zcash_primitives::transaction::Transaction);

/// Relies on `Transaction::read` of zcash_primitives: whether the bytes read
/// under a branch depends on the bytes and the branch alone.
#[verifier::external_body]
fn read_transaction(bytes: &[u8], branch: Branch) -> (r: Option<zcash_primitives::transaction::Transaction>)
    ensures
        r is Some <==> reads_under(bytes@, branch),
        r is Some ==> r->0 == tx_read(bytes@, branch),
{
    let id = match branch {
        Branch::Nu6 => BranchId::Nu6,
        Branch::Nu5 => BranchId::Nu5,
        Branch::Canopy => BranchId::Canopy,
        Branch::Heartwood => BranchId::Heartwood,
    };
    zcash_primitives::transaction::Transaction::read(bytes, id).ok()
}

/// The transaction id of a transaction, as text.
pub uninterp spec fn tx_txid(tx: zcash_primitives::transaction::Transaction) -> Seq<char>;

/// The values of a transaction's transparent outputs, when it has a transparent bundle.
pub uninterp spec fn tx_transparent_values(tx: zcash_primitives::transaction::Transaction) -> Option<Seq<u64>>;

/// The note commitments of a transaction's Sapling outputs, when it has a Sapling bundle.
pub uninterp spec fn tx_sapling_commitments(tx: zcash_primitives::transaction::Transaction) -> Option<Seq<[u8; 32]>>;

/// The nullifiers of a transaction's Sapling spends, when it has a Sapling bundle.
pub uninterp spec fn tx_sapling_nullifiers(tx: zcash_primitives::transaction::Transaction) -> Option<Seq<[u8; 32]>>;

/// Relies on `Transaction::txid` of zcash_primitives and the `Display` of `TxId`.
#[verifier::external_body]
fn transaction_id(tx: &zcash_primitives::transaction::Transaction) -> (r: String)
    ensures
        r@ == tx_txid(*tx),
{
    tx.txid().to_string()
}

/// Relies on `Transaction::transparent_bundle` of zcash_primitives: the value
/// of each transparent output, in order.
#[verifier::external_body]
fn transparent_values(tx: &zcash_primitives::transaction::Transaction) -> (r: Option<Vec<u64>>)
    ensures
        opt_seq(r) == tx_transparent_values(*tx),
{
    tx.transparent_bundle().map(|b| b.vout.iter().map(|o| u64::from(o.value())).collect())
}

/// Relies on `Transaction::sapling_bundle` of zcash_primitives: the note
/// commitment of each Sapling output, in order.
#[verifier::external_body]
fn sapling_commitments(tx: &zcash_primitives::transaction::Transaction) -> (r: Option<Vec<[u8; 32]>>)
    ensures
        opt_seq(r) == tx_sapling_commitments(*tx),
{
    tx.sapling_bundle().map(|b| b.shielded_outputs().iter().map(|o| o.cmu().to_bytes()).collect())
}

/// Relies on `Transaction::sapling_bundle` of zcash_primitives: the nullifier
/// of each Sapling spend, in order.
#[verifier::external_body]
fn sapling_nullifiers(tx: &zcash_primitives::transaction::Transaction) -> (r: Option<Vec<[u8; 32]>>)
    ensures
        opt_seq(r) == tx_sapling_nullifiers(*tx),
{
    tx.sapling_bundle().map(|b| b.shielded_spends().iter().map(|s| s.nullifier().0).collect())
}

/// The commitments of a list of Orchard actions, in order.
pub open spec fn action_cmxs(a: OrchardActions) -> Seq<[u8; 32]> {
    Seq::new(action_count(a), |i: int| action_cmx(a, i))
}

/// The nullifiers of a list of Orchard actions, in order.
pub open spec fn action_nfs(a: OrchardActions) -> Seq<[u8; 32]> {
    Seq::new(action_count(a), |i: int| action_nf(a, i))
}

/// `c` holds the public contents of `tx`.
pub open spec fn contents_of(c: TransactionContents, tx: zcash_primitives::transaction::Transaction) -> bool {
    &&& c.txid@ == tx_txid(tx)
    &&& opt_seq(c.transparent_values) == tx_transparent_values(tx)
    &&& opt_seq(c.sapling_commitments) == tx_sapling_commitments(tx)
    &&& opt_seq(c.sapling_nullifiers) == tx_sapling_nullifiers(tx)
    &&& match tx_orchard_actions(tx) {
        None => c.orchard_commitments is None && c.orchard_nullifiers is None,
        Some(a) => opt_seq(c.orchard_commitments) == Some(action_cmxs(a))
            && opt_seq(c.orchard_nullifiers) == Some(action_nfs(a)),
    }
}

/// Reads transaction bytes under the first branch, newest first, that accepts them.
pub fn read_with_fallback(bytes: &[u8]) -> (r: Result<zcash_primitives::transaction::Transaction, ScanError>)
    ensures
        r is Ok <==> exists|i: int| 0 <= i < 4 && reads_under(bytes@, #[trigger] branch_order()[i]),
        r is Ok <==> first_reading(bytes@, 0) is Some,
        r is Ok ==> r->Ok_0 == first_reading(bytes@, 0)->0,
        r is Err ==> r->Err_0 == ScanError::UnknownProtocolVersion,
{
    let branches: [Branch; 4] = [Branch::Nu6, Branch::Nu5, Branch::Canopy, Branch::Heartwood];
    assert(branches@ == branch_order());
    let mut i: usize = 0;
    while i < 4
        invariant
            i <= 4,
            branches@ == branch_order(),
            forall|j: int| 0 <= j < i ==> !reads_under(bytes@, #[trigger] branch_order()[j]),
            first_reading(bytes@, 0) == first_reading(bytes@, i as int),
        decreases 4 - i,
    {
        if let Some(tx) = read_transaction(bytes, branches[i]) {
            return Ok(tx);
        }
        i = i + 1;
    }
    assert(first_reading(bytes@, 4) is None);
    Err(ScanError::UnknownProtocolVersion)
}

/// Decodes a hex-encoded transaction. The network does not change the outcome.
pub fn parse_transaction(tx_hex: &str, _network: Network) -> (r: Result<zcash_primitives::transaction::Transaction, ScanError>)
    ensures
        !is_hex_text(tx_hex@) <==> r == Err::<zcash_primitives::transaction::Transaction, ScanError>(ScanError::InvalidEncoding),
        r is Ok <==> is_hex_text(tx_hex@) && exists|i: int|
            0 <= i < 4 && reads_under(hex_bytes(tx_hex@), #[trigger] branch_order()[i]),
        r is Ok ==> r->Ok_0 == first_reading(hex_bytes(tx_hex@), 0)->0,
        r is Err ==> r->Err_0 == ScanError::InvalidEncoding || r->Err_0 == ScanError::UnknownProtocolVersion,
{
    let bytes = match hex_decode(tx_hex) {
        Ok(b) => b,
        Err(_) => return Err(ScanError::InvalidEncoding),
    };
    read_with_fallback(bytes.as_slice())
}

/// The commitment and nullifier of each Orchard action.
fn action_records(actions: &OrchardActions) -> (r: (Vec<[u8; 32]>, Vec<[u8; 32]>))
    ensures
        r.0@ == action_cmxs(*actions),
        r.1@ == action_nfs(*actions),
{
    let n = actions_len(actions);
    let mut cmxs: Vec<[u8; 32]> = Vec::new();
    let mut nfs: Vec<[u8; 32]> = Vec::new();
    let mut i: usize = 0;
    while i < n
        invariant
            i <= n == action_count(*actions),
            cmxs@ == Seq::new(i as nat, |j: int| action_cmx(*actions, j)),
            nfs@ == Seq::new(i as nat, |j: int| action_nf(*actions, j)),
        decreases n - i,
    {
        cmxs.push(action_commitment(actions, i));
        nfs.push(action_nullifier(actions, i));
        i = i + 1;
        assert(cmxs@ =~= Seq::new(i as nat, |j: int| action_cmx(*actions, j)));
        assert(nfs@ =~= Seq::new(i as nat, |j: int| action_nf(*actions, j)));
    }
    assert(cmxs@ =~= action_cmxs(*actions));
    assert(nfs@ =~= action_nfs(*actions));
    (cmxs, nfs)
}

/// The public contents of a transaction, with its Orchard actions.
pub fn transaction_contents(tx: &zcash_primitives::transaction::Transaction) -> (r: (TransactionContents, Option<OrchardActions>))
    ensures
        r.0.wf(),
        contents_of(r.0, *tx),
        r.1 == tx_orchard_actions(*tx),
        r.1 is Some ==> entries(r.0.orchard_commitments).len() == action_count(r.1->0),
{
    let actions = orchard_actions(tx);
    let (orchard_commitments, orchard_nullifiers) = match &actions {
        Some(a) => {
            let (c, n) = action_records(a);
            (Some(c), Some(n))
        },
        None => (None, None),
    };
    let contents = TransactionContents {
        txid: transaction_id(tx),
        transparent_values: transparent_values(tx),
        sapling_commitments: sapling_commitments(tx),
        sapling_nullifiers: sapling_nullifiers(tx),
        orchard_commitments,
        orchard_nullifiers,
    };
    (contents, actions)
}

/// Tries each Orchard action against the prepared incoming viewing key, when
/// there is one; nullifiers of decrypted notes are computed when the full
/// viewing key is given too.
pub fn decrypt_actions(
    actions: &OrchardActions,
    ivk: &Option<orchard::keys::PreparedIncomingViewingKey>,
    fvk: &Option<orchard::keys::FullViewingKey>,
) -> (r: Vec<Option<DecryptedNote>>)
    ensures
        r@.len() == action_count(*actions),
        ivk is None ==> forall|i: int| 0 <= i < r@.len() ==> r@[i] is None,
        ivk is Some ==> forall|i: int| 0 <= i < r@.len() ==> decryption_is(#[trigger] r@[i], *actions, i, ivk->0, *fvk),
        forall|i: int| 0 <= i < r@.len() ==> (#[trigger] r@[i] is Some ==> (r@[i]->0.nullifier is Some <==> fvk is Some)),
{
    let n = actions_len(actions);
    let mut out: Vec<Option<DecryptedNote>> = Vec::new();
    let mut i: usize = 0;
    while i < n
        invariant
            i <= n == action_count(*actions),
            out@.len() == i,
            ivk is None ==> forall|j: int| 0 <= j < i ==> out@[j] is None,
            ivk is Some ==> forall|j: int| 0 <= j < i ==> decryption_is(#[trigger] out@[j], *actions, j, ivk->0, *fvk),
            forall|j: int| 0 <= j < i ==> (#[trigger] out@[j] is Some ==> (out@[j]->0.nullifier is Some <==> fvk is Some)),
        decreases n - i,
    {
        let found = match ivk {
            Some(prepared) => decrypt_action(actions, i, prepared, fvk),
            None => None,
        };
        out.push(found);
        i = i + 1;
    }
    out
}

/// The Orchard key that a scan with viewing key `vk` decrypts with, when the
/// key opens Orchard: the prepared external-scope incoming viewing key of its
/// Orchard full viewing key together with that key, or else its Orchard
/// incoming viewing key, prepared, with no full viewing key.
pub open spec fn scan_key(vk: Seq<char>) -> Option<(orchard::keys::PreparedIncomingViewingKey, Option<orchard::keys::FullViewingKey>)> {
    if key_capabilities(vk) is None || !key_capabilities(vk)->0.orchard {
        None
    } else if key_orchard_fvk(vk) is Some {
        let f = key_orchard_fvk(vk)->0;
        Some((prepared_of(external_ivk_of(f)), Some(f)))
    } else if key_orchard_ivk(vk) is Some {
        Some((prepared_of(key_orchard_ivk(vk)->0), None))
    } else {
        None
    }
}

/// `found` holds, for each Orchard action of `tx`, what trial decryption with
/// the scan key of `vk` gave, and nothing where there is no such key.
pub open spec fn found_by_key(
    found: Seq<Option<DecryptedNote>>,
    tx: zcash_primitives::transaction::Transaction,
    vk: Seq<char>,
) -> bool {
    match tx_orchard_actions(tx) {
        None => found.len() == 0,
        Some(a) => {
            &&& found.len() == action_count(a)
            &&& forall|k: int|
                0 <= k < found.len() ==> match scan_key(vk) {
                    Some(key) => decryption_is(#[trigger] found[k], a, k, key.0, key.1),
                    None => found[k] is None,
                }
        },
    }
}

/// What a scan with viewing key `vk` returns: the scan of contents `c` with
/// the key's capabilities, where `found[i]` is what decrypting Orchard
/// action `i` gave.
pub open spec fn scan_with_key(r: ScanResult, vk: Seq<char>, c: TransactionContents, found: Seq<Option<DecryptedNote>>) -> bool {
    &&& c.wf()
    &&& found.len() == entries(c.orchard_commitments).len()
    &&& scan_is(r, c, key_capabilities(vk)->0, found)
}

pub open spec fn empty_note(n: ScannedNote) -> bool {
    n.value == 0 && n.nullifier is None && n.memo is None && n.address is None
}

/// The note of Orchard action `k` of `a` carries what trial decryption with
/// the scan key of `vk` recovers: the value, the memo text, the recipient,
/// and the nullifier when the key is a full viewing key. Without a key, or
/// where decryption fails, the note is empty.
pub open spec fn orchard_note_decrypted(n: ScannedNote, a: OrchardActions, k: int, vk: Seq<char>) -> bool {
    match scan_key(vk) {
        None => empty_note(n),
        Some(key) => match trial_decryption(a, k, key.0) {
            None => empty_note(n),
            Some(t) => {
                &&& n.value == note_value_of(t.0)
                &&& text_of(n.memo) == memo_text(t.2)
                &&& text_of(n.address) == Some(recipient_text_of(t.1))
                &&& text_of(n.nullifier) == match key.1 {
                    Some(f) => Some(hex_text(note_nullifier_of(t.0, f)@)),
                    None => None::<Seq<char>>,
                }
            },
        },
    }
}

/// Whether the key is recognized and opens the transparent pool, and the
/// transaction's transparent outputs add up to more than a `u64` holds.
pub open spec fn overflows(tx: zcash_primitives::transaction::Transaction, vk: Seq<char>) -> bool {
    &&& key_capabilities(vk) is Some
    &&& key_capabilities(vk)->0.transparent
    &&& tx_transparent_values(tx) is Some
    &&& sum_values(tx_transparent_values(tx)->0) > u64::MAX
}

/// The nullifiers of the Sapling spends of `tx`.
pub open spec fn tx_sapling_nfs(tx: zcash_primitives::transaction::Transaction) -> Seq<[u8; 32]> {
    match tx_sapling_nullifiers(tx) {
        Some(v) => v,
        None => Seq::empty(),
    }
}

/// The nullifiers of the Orchard actions of `tx`.
pub open spec fn tx_orchard_nfs(tx: zcash_primitives::transaction::Transaction) -> Seq<[u8; 32]> {
    match tx_orchard_actions(tx) {
        Some(a) => action_nfs(a),
        None => Seq::empty(),
    }
}

/// The nullifiers that `tx` reveals, as spent-nullifier records: every
/// Sapling spend, then every Orchard action.
pub open spec fn tx_nullifiers_are(s: Seq<SpentNullifier>, tx: zcash_primitives::transaction::Transaction) -> bool {
    spent_list_is(s, tx_sapling_nfs(tx), tx_orchard_nfs(tx))
}

/// The position of the first Orchard note in a scan of `tx` with `vk`: the
/// number of Sapling notes before it.
pub open spec fn first_orchard_note(tx: zcash_primitives::transaction::Transaction, vk: Seq<char>) -> int {
    if key_capabilities(vk)->0.sapling {
        match tx_sapling_commitments(tx) {
            Some(v) => v.len() as int,
            None => 0,
        }
    } else {
        0
    }
}

/// With a key that opens Orchard, the scan of `tx` holds one Orchard note
/// per action after the Sapling notes, each with the action's commitment and
/// what trial decryption of the action with the key recovered.
pub open spec fn orchard_notes_of_tx(r: ScanResult, tx: zcash_primitives::transaction::Transaction, vk: Seq<char>) -> bool {
    let caps = key_capabilities(vk)->0;
    let first = first_orchard_note(tx, vk);
    caps.orchard && tx_orchard_actions(tx) is Some ==> {
        let a = tx_orchard_actions(tx)->0;
        &&& r.notes@.len() == first + action_count(a)
        &&& forall|k: int|
            0 <= k < action_count(a) ==> {
                &&& (#[trigger] r.notes@[first + k]).pool@ == orchard_tag()
                &&& r.notes@[first + k].output_index == k
                &&& r.notes@[first + k].commitment@ == hex_text(action_cmx(a, k)@)
                &&& orchard_note_decrypted(r.notes@[first + k], a, k, vk)
            }
    }
}

/// Scans a transaction for what a viewing key can see. The network and the
/// height do not change the outcome.
pub fn scan_transaction(
    tx: &zcash_primitives::transaction::Transaction,
    viewing_key: &str,
    _network: Network,
    _height: Option<u32>,
) -> (r: Result<ScanResult, ScanError>)
    ensures
        key_capabilities(viewing_key@) is None <==> r == Err::<ScanResult, ScanError>(ScanError::UnrecognizedViewingKeyFormat),
        r == Err::<ScanResult, ScanError>(ScanError::ValueOverflow) <==> overflows(*tx, viewing_key@),
        r is Err ==> r->Err_0 == ScanError::UnrecognizedViewingKeyFormat || r->Err_0 == ScanError::ValueOverflow,
        r is Ok ==> exists|c: TransactionContents, found: Seq<Option<DecryptedNote>>|
            #[trigger] scan_with_key(r->Ok_0, viewing_key@, c, found) && contents_of(c, *tx)
                && found_by_key(found, *tx, viewing_key@),
        r is Ok ==> r->Ok_0.txid@ == tx_txid(*tx),
        r is Ok ==> r->Ok_0.transparent_received == sum_outputs(r->Ok_0.transparent_outputs@),
        r is Ok ==> tx_nullifiers_are(r->Ok_0.spent_nullifiers@, *tx),
        r is Ok ==> orchard_notes_of_tx(r->Ok_0, *tx, viewing_key@),
{
    let caps = viewing_key_capabilities(viewing_key)?;
    let fvk = if caps.orchard { extract_orchard_fvk(viewing_key) } else { None };
    let ivk = match &fvk {
        Some(k) => Some(prepared_external_ivk(k)),
        None => if caps.orchard {
            match extract_orchard_ivk(viewing_key) {
                Some(k) => Some(prepare_ivk(&k)),
                None => None,
            }
        } else {
            None
        },
    };
    let (contents, actions) = transaction_contents(tx);
    let found = match &actions {
        Some(a) => decrypt_actions(a, &ivk, &fvk),
        None => Vec::new(),
    };
    assert(ivk is Some <==> scan_key(viewing_key@) is Some);
    assert(ivk is Some ==> ivk->0 == (scan_key(viewing_key@)->0).0 && fvk == (scan_key(viewing_key@)->0).1);
    assert(found_by_key(found@, *tx, viewing_key@));
    let r = scan_contents(&contents, caps, &found);
    assert(shown_transparent(contents, caps) == (if caps.transparent {
        match tx_transparent_values(*tx) { Some(v) => v, None => Seq::empty() }
    } else { Seq::empty() }));
    if let Ok(res) = &r {
        assert(scan_with_key(*res, viewing_key@, contents, found@) && contents_of(contents, *tx)
            && found_by_key(found@, *tx, viewing_key@));
        proof {
            lemma_transparent_total(*res, contents, caps, found@);
            lemma_contents_nullifiers(res.spent_nullifiers@, contents, *tx);
            lemma_contents_orchard_notes(*res, contents, found@, *tx, viewing_key@);
        }
    }
    r
}

/// With a key that opens Orchard and carries an Orchard full viewing key,
/// when every action that decrypts under the key holds a note of non-zero
/// value, the scan has one Orchard note per action, and such a note has a
/// nullifier exactly when its value is non-zero.
pub proof fn lemma_scan_nullifier_iff_value(
    r: ScanResult,
    tx: zcash_primitives::transaction::Transaction,
    vk: Seq<char>,
)
    requires
        orchard_notes_of_tx(r, tx, vk),
        key_capabilities(vk) is Some,
        key_capabilities(vk)->0.orchard,
        key_orchard_fvk(vk) is Some,
        tx_orchard_actions(tx) is Some,
        forall|k: int|
            0 <= k < action_count(tx_orchard_actions(tx)->0)
                && (#[trigger] trial_decryption(tx_orchard_actions(tx)->0, k, (scan_key(vk)->0).0)) is Some
                ==> note_value_of((trial_decryption(tx_orchard_actions(tx)->0, k, (scan_key(vk)->0).0)->0).0) != 0,
    ensures
        r.notes@.len() == first_orchard_note(tx, vk) + action_count(tx_orchard_actions(tx)->0),
        forall|k: int|
            0 <= k < action_count(tx_orchard_actions(tx)->0) ==> ((#[trigger] r.notes@[first_orchard_note(tx, vk) + k]).nullifier is Some
                <==> r.notes@[first_orchard_note(tx, vk) + k].value != 0),
{
    let a = tx_orchard_actions(tx)->0;
    let first = first_orchard_note(tx, vk);
    let key = scan_key(vk)->0;
    assert forall|k: int| 0 <= k < action_count(a) implies ((#[trigger] r.notes@[first + k]).nullifier is Some
        <==> r.notes@[first + k].value != 0) by {
        assert(orchard_note_decrypted(r.notes@[first + k], a, k, vk));
        if trial_decryption(a, k, key.0) is Some {
            assert(key.1 is Some);
        }
    }
}

proof fn lemma_contents_nullifiers(s: Seq<SpentNullifier>, c: TransactionContents, tx: zcash_primitives::transaction::Transaction)
    requires
        nullifiers_are(s, c),
        contents_of(c, tx),
    ensures
        tx_nullifiers_are(s, tx),
{
    assert(entries(c.sapling_nullifiers) == tx_sapling_nfs(tx));
    assert(entries(c.orchard_nullifiers) == tx_orchard_nfs(tx));
}

proof fn lemma_contents_orchard_notes(
    r: ScanResult,
    c: TransactionContents,
    found: Seq<Option<DecryptedNote>>,
    tx: zcash_primitives::transaction::Transaction,
    vk: Seq<char>,
)
    requires
        scan_with_key(r, vk, c, found),
        contents_of(c, tx),
        found_by_key(found, tx, vk),
    ensures
        orchard_notes_of_tx(r, tx, vk),
{
    let caps = key_capabilities(vk)->0;
    if caps.orchard && tx_orchard_actions(tx) is Some {
        let a = tx_orchard_actions(tx)->0;
        let sap = shown_sapling(c, caps);
        let orc = shown_orchard(c, caps);
        assert(orc == action_cmxs(a));
        let first = first_orchard_note(tx, vk);
        assert(sap.len() == first);
        assert forall|k: int| 0 <= k < action_count(a) implies {
            &&& (#[trigger] r.notes@[first + k]).pool@ == orchard_tag()
            &&& r.notes@[first + k].output_index == k
            &&& r.notes@[first + k].commitment@ == hex_text(action_cmx(a, k)@)
            &&& orchard_note_decrypted(r.notes@[first + k], a, k, vk)
        } by {
            assert(orchard_note_is(r.notes@[sap.len() + k], k, orc[k], found[k]));
            if let Some(key) = scan_key(vk) {
                assert(decryption_is(found[k], a, k, key.0, key.1));
            }
        }
    }
}

/// Two scans of the same transaction that succeed, with any two viewing
/// keys, report the same spent nullifiers.
pub proof fn lemma_scan_nullifiers_independent_of_key(
    tx: zcash_primitives::transaction::Transaction,
    r1: ScanResult,
    r2: ScanResult,
)
    requires
        tx_nullifiers_are(r1.spent_nullifiers@, tx),
        tx_nullifiers_are(r2.spent_nullifiers@, tx),
    ensures
        same_spent(r1.spent_nullifiers@, r2.spent_nullifiers@),
{
    lemma_spent_lists_agree(r1.spent_nullifiers@, r2.spent_nullifiers@, tx_sapling_nfs(tx), tx_orchard_nfs(tx));
}

/// Nullifiers revealed by a transaction: every Sapling spend, then every
/// Orchard action.
pub fn extract_nullifiers(tx: &zcash_primitives::transaction::Transaction) -> (r: Vec<SpentNullifier>)
    ensures
        tx_nullifiers_are(r@, *tx),
{
    let (contents, _) = transaction_contents(tx);
    let r = nullifier_records(&contents);
    proof {
        lemma_contents_nullifiers(r@, contents, *tx);
    }
    r
}

} // verus!
