//! What a scan reports, and the scan itself over plain transaction contents.

use vstd::prelude::*;
use vstd::string::StringExecFns;
use crate::encoding::{decode_memo, hex_encode, hex_text, memo_text};
use crate::viewing_key::{Capabilities, ScanError};

verus! {

/// A shielded output seen in a transaction.
#[derive(Debug, Clone)]
pub struct ScannedNote {
    pub output_index: usize,
    pub pool: String,
    pub value: u64,
    pub commitment: String,
    pub nullifier: Option<String>,
    pub memo: Option<String>,
    pub address: Option<String>,
}

/// A nullifier revealed by a transaction, marking some note as spent.
#[derive(Debug, Clone)]
pub struct SpentNullifier {
    pub pool: String,
    pub nullifier: String,
}

/// A transparent output of a transaction.
#[derive(Debug, Clone)]
pub struct TransparentOutput {
    pub index: usize,
    pub value: u64,
    pub address: Option<String>,
}

/// Everything a scan found in one transaction.
#[derive(Debug)]
pub struct ScanResult {
    pub txid: String,
    pub notes: Vec<ScannedNote>,
    pub spent_nullifiers: Vec<SpentNullifier>,
    pub transparent_received: u64,
    pub transparent_outputs: Vec<TransparentOutput>,
}

/// What trial decryption of one Orchard action recovered.
#[derive(Debug, Clone)]
pub struct DecryptedNote {
    pub value: u64,
    /// The raw memo field.
    pub memo: Vec<u8>,
    /// The note's nullifier, when a full viewing key was at hand.
    pub nullifier: Option<[u8; 32]>,
    pub recipient: String,
}

/// The public data of a transaction that a scan reads. A pool's entry is
/// `None` when the transaction has no bundle of that pool.
#[derive(Debug, Clone)]
pub struct TransactionContents {
    pub txid: String,
    pub transparent_values: Option<Vec<u64>>,
    pub sapling_commitments: Option<Vec<[u8; 32]>>,
    pub sapling_nullifiers: Option<Vec<[u8; 32]>>,
    pub orchard_commitments: Option<Vec<[u8; 32]>>,
    pub orchard_nullifiers: Option<Vec<[u8; 32]>>,
}

pub open spec fn sapling_tag() -> Seq<char> {
    seq!['s', 'a', 'p', 'l', 'i', 'n', 'g']
}

pub open spec fn orchard_tag() -> Seq<char> {
    seq!['o', 'r', 'c', 'h', 'a', 'r', 'd']
}

pub open spec fn text_of(o: Option<String>) -> Option<Seq<char>> {
    match o {
        Some(s) => Some(s@),
        None => None,
    }
}

pub open spec fn hex_of(o: Option<[u8; 32]>) -> Option<Seq<char>> {
    match o {
        Some(b) => Some(hex_text(b@)),
        None => None,
    }
}

pub open spec fn opt_seq<T>(o: Option<Vec<T>>) -> Option<Seq<T>> {
    match o {
        Some(v) => Some(v@),
        None => None,
    }
}

pub open spec fn entries<T>(o: Option<Vec<T>>) -> Seq<T> {
    match o {
        Some(v) => v@,
        None => Seq::empty(),
    }
}

/// Sum of a sequence of values, as an unbounded integer.
pub open spec fn sum_values(v: Seq<u64>) -> int
    decreases v.len(),
{
    if v.len() == 0 {
        0
    } else {
        sum_values(v.drop_last()) + v.last()
    }
}

/// Sum of the values of transparent outputs.
pub open spec fn sum_outputs(v: Seq<TransparentOutput>) -> int
    decreases v.len(),
{
    if v.len() == 0 {
        0
    } else {
        sum_outputs(v.drop_last()) + v.last().value
    }
}

impl TransactionContents {
    /// Orchard commitments and nullifiers come from the same actions.
    pub open spec fn wf(&self) -> bool {
        (self.orchard_commitments is Some <==> self.orchard_nullifiers is Some)
            && entries(self.orchard_commitments).len() == entries(self.orchard_nullifiers).len()
    }
}

pub open spec fn shown_transparent(c: TransactionContents, caps: Capabilities) -> Seq<u64> {
    if caps.transparent { entries(c.transparent_values) } else { Seq::empty() }
}

pub open spec fn shown_sapling(c: TransactionContents, caps: Capabilities) -> Seq<[u8; 32]> {
    if caps.sapling { entries(c.sapling_commitments) } else { Seq::empty() }
}

pub open spec fn shown_orchard(c: TransactionContents, caps: Capabilities) -> Seq<[u8; 32]> {
    if caps.orchard { entries(c.orchard_commitments) } else { Seq::empty() }
}

pub open spec fn transparent_output_is(o: TransparentOutput, i: int, value: u64) -> bool {
    o.index == i && o.value == value && o.address is None
}

pub open spec fn sapling_note_is(n: ScannedNote, i: int, cmu: [u8; 32]) -> bool {
    &&& n.output_index == i
    &&& n.pool@ == sapling_tag()
    &&& n.value == 0
    &&& n.commitment@ == hex_text(cmu@)
    &&& n.nullifier is None
    &&& n.memo is None
    &&& n.address is None
}

pub open spec fn orchard_note_is(n: ScannedNote, i: int, cmx: [u8; 32], found: Option<DecryptedNote>) -> bool {
    &&& n.output_index == i
    &&& n.pool@ == orchard_tag()
    &&& n.commitment@ == hex_text(cmx@)
    &&& match found {
        None => n.value == 0 && n.nullifier is None && n.memo is None && n.address is None,
        Some(d) => {
            &&& n.value == d.value
            &&& text_of(n.nullifier) == hex_of(d.nullifier)
            &&& text_of(n.memo) == memo_text(d.memo@)
            &&& text_of(n.address) == Some(d.recipient@)
        },
    }
}

pub open spec fn spent_is(s: SpentNullifier, tag: Seq<char>, nf: [u8; 32]) -> bool {
    s.pool@ == tag && s.nullifier@ == hex_text(nf@)
}

/// Spent-nullifier records for the Sapling nullifiers `sap`, then the
/// Orchard nullifiers `orc`.
pub open spec fn spent_list_is(s: Seq<SpentNullifier>, sap: Seq<[u8; 32]>, orc: Seq<[u8; 32]>) -> bool {
    &&& s.len() == sap.len() + orc.len()
    &&& forall|i: int| 0 <= i < sap.len() ==> spent_is(#[trigger] s[i], sapling_tag(), sap[i])
    &&& forall|i: int|
        0 <= i < orc.len() ==> spent_is(#[trigger] s[sap.len() + i], orchard_tag(), orc[i])
}

/// The spent nullifiers of a transaction: Sapling spends, then Orchard actions.
pub open spec fn nullifiers_are(s: Seq<SpentNullifier>, c: TransactionContents) -> bool {
    spent_list_is(s, entries(c.sapling_nullifiers), entries(c.orchard_nullifiers))
}

/// Two lists of records for the same nullifiers hold the same text.
pub open spec fn same_spent(s1: Seq<SpentNullifier>, s2: Seq<SpentNullifier>) -> bool {
    &&& s1.len() == s2.len()
    &&& forall|i: int| 0 <= i < s1.len() ==> {
        &&& (#[trigger] s1[i]).pool@ == s2[i].pool@
        &&& s1[i].nullifier@ == s2[i].nullifier@
    }
}

pub proof fn lemma_spent_lists_agree(
    s1: Seq<SpentNullifier>,
    s2: Seq<SpentNullifier>,
    sap: Seq<[u8; 32]>,
    orc: Seq<[u8; 32]>,
)
    requires
        spent_list_is(s1, sap, orc),
        spent_list_is(s2, sap, orc),
    ensures
        same_spent(s1, s2),
{
    assert forall|i: int| 0 <= i < s1.len() implies {
        &&& (#[trigger] s1[i]).pool@ == s2[i].pool@
        &&& s1[i].nullifier@ == s2[i].nullifier@
    } by {
        if i < sap.len() {
            assert(spent_is(s1[i], sapling_tag(), sap[i]));
            assert(spent_is(s2[i], sapling_tag(), sap[i]));
        } else {
            let k = i - sap.len();
            assert(spent_is(s1[sap.len() + k], orchard_tag(), orc[k]));
            assert(spent_is(s2[sap.len() + k], orchard_tag(), orc[k]));
        }
    }
}

/// The notes of a scan: Sapling outputs, then Orchard actions, of the pools
/// that the key opens.
pub open spec fn notes_are(
    n: Seq<ScannedNote>,
    c: TransactionContents,
    caps: Capabilities,
    found: Seq<Option<DecryptedNote>>,
) -> bool {
    let sap = shown_sapling(c, caps);
    let orc = shown_orchard(c, caps);
    &&& n.len() == sap.len() + orc.len()
    &&& forall|i: int| 0 <= i < sap.len() ==> sapling_note_is(#[trigger] n[i], i, sap[i])
    &&& forall|i: int|
        0 <= i < orc.len() ==> orchard_note_is(#[trigger] n[sap.len() + i], i, orc[i], found[i])
}

pub open spec fn transparent_outputs_are(o: Seq<TransparentOutput>, values: Seq<u64>) -> bool {
    &&& o.len() == values.len()
    &&& forall|i: int| 0 <= i < values.len() ==> transparent_output_is(#[trigger] o[i], i, values[i])
}

/// The result of scanning contents `c` with capabilities `caps`, where
/// `found[i]` is what trial decryption of Orchard action `i` gave.
pub open spec fn scan_is(
    r: ScanResult,
    c: TransactionContents,
    caps: Capabilities,
    found: Seq<Option<DecryptedNote>>,
) -> bool {
    &&& r.txid@ == c.txid@
    &&& notes_are(r.notes@, c, caps, found)
    &&& transparent_outputs_are(r.transparent_outputs@, shown_transparent(c, caps))
    &&& r.transparent_received == sum_values(shown_transparent(c, caps))
    &&& nullifiers_are(r.spent_nullifiers@, c)
}

proof fn lemma_sum_prefix_le(v: Seq<u64>, i: int)
    requires
        0 <= i <= v.len(),
    ensures
        sum_values(v.subrange(0, i)) <= sum_values(v),
    decreases v.len() - i,
{
    if i < v.len() {
        lemma_sum_prefix_le(v, i + 1);
        assert(v.subrange(0, i + 1).drop_last() == v.subrange(0, i));
    } else {
        assert(v.subrange(0, i) == v);
    }
}

/// The transparent outputs for the given values, and their total; `None`
/// when the total does not fit in a `u64`.
pub fn transparent_outputs_of(values: &Vec<u64>) -> (r: Option<(Vec<TransparentOutput>, u64)>)
    ensures
        r is None <==> sum_values(values@) > u64::MAX,
        r is Some ==> transparent_outputs_are((r->0).0@, values@) && (r->0).1 == sum_values(values@),
{
    let mut outputs: Vec<TransparentOutput> = Vec::new();
    let mut total: u64 = 0;
    let mut i: usize = 0;
    while i < values.len()
        invariant
            i <= values@.len(),
            total == sum_values(values@.subrange(0, i as int)),
            transparent_outputs_are(outputs@, values@.subrange(0, i as int)),
        decreases values@.len() - i,
    {
        let value = values[i];
        assert(values@.subrange(0, i + 1).drop_last() == values@.subrange(0, i as int));
        match total.checked_add(value) {
            Some(t) => {
                total = t;
            },
            None => {
                proof {
                    lemma_sum_prefix_le(values@, i + 1);
                }
                return None;
            },
        }
        outputs.push(TransparentOutput { index: i, value, address: None });
        i = i + 1;
    }
    assert(values@.subrange(0, values@.len() as int) == values@);
    Some((outputs, total))
}

/// Appends one note per Sapling output commitment; Sapling outputs are not
/// decrypted, so only the commitment is reported.
pub fn push_sapling_notes(notes: &mut Vec<ScannedNote>, cmus: &Vec<[u8; 32]>)
    ensures
        final(notes)@.len() == old(notes)@.len() + cmus@.len(),
        forall|i: int| 0 <= i < old(notes)@.len() ==> final(notes)@[i] == old(notes)@[i],
        forall|i: int|
            0 <= i < cmus@.len() ==> sapling_note_is(
                #[trigger] final(notes)@[old(notes)@.len() + i],
                i,
                cmus@[i],
            ),
{
    let ghost start = notes@;
    let mut i: usize = 0;
    while i < cmus.len()
        invariant
            i <= cmus@.len(),
            notes@.len() == start.len() + i,
            forall|j: int| 0 <= j < start.len() ==> notes@[j] == start[j],
            forall|j: int| 0 <= j < i ==> sapling_note_is(#[trigger] notes@[start.len() + j], j, cmus@[j]),
        decreases cmus@.len() - i,
    {
        let commitment = hex_encode(&cmus[i]);
        let pool = String::from_str("sapling");
        proof {
            reveal_strlit("sapling");
        }
        assert(pool@ =~= sapling_tag());
        notes.push(ScannedNote {
            output_index: i,
            pool,
            value: 0,
            commitment,
            nullifier: None,
            memo: None,
            address: None,
        });
        assert(sapling_note_is(notes@[start.len() + i], i as int, cmus@[i as int]));
        i = i + 1;
    }
}

/// The note for Orchard action `index`, given what its trial decryption gave.
pub fn orchard_note(index: usize, cmx: &[u8; 32], found: &Option<DecryptedNote>) -> (n: ScannedNote)
    ensures
        orchard_note_is(n, index as int, *cmx, *found),
{
    let commitment = hex_encode(cmx);
    let pool = String::from_str("orchard");
    proof {
        reveal_strlit("orchard");
    }
    assert(pool@ =~= orchard_tag());
    match found {
        None => ScannedNote {
            output_index: index,
            pool,
            value: 0,
            commitment,
            nullifier: None,
            memo: None,
            address: None,
        },
        Some(d) => {
            let nullifier = match &d.nullifier {
                Some(nf) => Some(hex_encode(nf)),
                None => None,
            };
            let memo = decode_memo(d.memo.as_slice());
            ScannedNote {
                output_index: index,
                pool,
                value: d.value,
                commitment,
                nullifier,
                memo,
                address: Some(d.recipient.clone()),
            }
        },
    }
}

/// Appends one note per Orchard action.
pub fn push_orchard_notes(
    notes: &mut Vec<ScannedNote>,
    cmxs: &Vec<[u8; 32]>,
    found: &Vec<Option<DecryptedNote>>,
)
    requires
        found@.len() == cmxs@.len(),
    ensures
        final(notes)@.len() == old(notes)@.len() + cmxs@.len(),
        forall|i: int| 0 <= i < old(notes)@.len() ==> final(notes)@[i] == old(notes)@[i],
        forall|i: int|
            0 <= i < cmxs@.len() ==> orchard_note_is(
                #[trigger] final(notes)@[old(notes)@.len() + i],
                i,
                cmxs@[i],
                found@[i],
            ),
{
    let ghost start = notes@;
    let mut i: usize = 0;
    while i < cmxs.len()
        invariant
            i <= cmxs@.len() == found@.len(),
            notes@.len() == start.len() + i,
            forall|j: int| 0 <= j < start.len() ==> notes@[j] == start[j],
            forall|j: int|
                0 <= j < i ==> orchard_note_is(#[trigger] notes@[start.len() + j], j, cmxs@[j], found@[j]),
        decreases cmxs@.len() - i,
    {
        let note = orchard_note(i, &cmxs[i], &found[i]);
        notes.push(note);
        i = i + 1;
    }
}

/// Appends one spent-nullifier record per nullifier, under the pool tag given.
fn push_nullifiers(out: &mut Vec<SpentNullifier>, nfs: &Vec<[u8; 32]>, sapling: bool)
    ensures
        final(out)@.len() == old(out)@.len() + nfs@.len(),
        forall|i: int| 0 <= i < old(out)@.len() ==> final(out)@[i] == old(out)@[i],
        forall|i: int|
            0 <= i < nfs@.len() ==> spent_is(
                #[trigger] final(out)@[old(out)@.len() + i],
                if sapling { sapling_tag() } else { orchard_tag() },
                nfs@[i],
            ),
{
    let ghost start = out@;
    let ghost tag = if sapling { sapling_tag() } else { orchard_tag() };
    let mut i: usize = 0;
    while i < nfs.len()
        invariant
            i <= nfs@.len(),
            tag == (if sapling { sapling_tag() } else { orchard_tag() }),
            out@.len() == start.len() + i,
            forall|j: int| 0 <= j < start.len() ==> out@[j] == start[j],
            forall|j: int| 0 <= j < i ==> spent_is(#[trigger] out@[start.len() + j], tag, nfs@[j]),
        decreases nfs@.len() - i,
    {
        let pool = if sapling {
            proof {
                reveal_strlit("sapling");
            }
            let p = String::from_str("sapling");
            assert(p@ =~= sapling_tag());
            p
        } else {
            proof {
                reveal_strlit("orchard");
            }
            let p = String::from_str("orchard");
            assert(p@ =~= orchard_tag());
            p
        };
        out.push(SpentNullifier { pool, nullifier: hex_encode(&nfs[i]) });
        i = i + 1;
    }
}

/// The nullifiers that a transaction reveals: every Sapling spend, then every
/// Orchard action. They are public, so no key is needed.
pub fn nullifier_records(c: &TransactionContents) -> (r: Vec<SpentNullifier>)
    ensures
        nullifiers_are(r@, *c),
{
    let mut out: Vec<SpentNullifier> = Vec::new();
    if let Some(nfs) = &c.sapling_nullifiers {
        push_nullifiers(&mut out, nfs, true);
    }
    let ghost mid = out@;
    if let Some(nfs) = &c.orchard_nullifiers {
        push_nullifiers(&mut out, nfs, false);
    }
    let ghost sap = entries(c.sapling_nullifiers);
    assert(mid.len() == sap.len());
    assert forall|i: int| 0 <= i < sap.len() implies spent_is(#[trigger] out@[i], sapling_tag(), sap[i]) by {
        assert(mid[0 + i] == mid[i]);
        assert(out@[i] == mid[i]);
    }
    out
}

/// Scans the contents of a transaction with the pools that a key opens.
/// `found[i]` is what trial decryption of Orchard action `i` gave.
pub fn scan_contents(
    c: &TransactionContents,
    caps: Capabilities,
    found: &Vec<Option<DecryptedNote>>,
) -> (r: Result<ScanResult, ScanError>)
    requires
        c.wf(),
        found@.len() == entries(c.orchard_commitments).len(),
    ensures
        r is Err <==> sum_values(shown_transparent(*c, caps)) > u64::MAX,
        r is Err ==> r->Err_0 == ScanError::ValueOverflow,
        r is Ok ==> scan_is(r->Ok_0, *c, caps, found@),
{
    let mut transparent_received: u64 = 0;
    let mut transparent_outputs: Vec<TransparentOutput> = Vec::new();
    if caps.transparent {
        if let Some(values) = &c.transparent_values {
            match transparent_outputs_of(values) {
                Some((outs, total)) => {
                    transparent_outputs = outs;
                    transparent_received = total;
                },
                None => return Err(ScanError::ValueOverflow),
            }
        }
    }
    let mut notes: Vec<ScannedNote> = Vec::new();
    if caps.sapling {
        if let Some(cmus) = &c.sapling_commitments {
            push_sapling_notes(&mut notes, cmus);
        }
    }
    let ghost mid = notes@;
    if caps.orchard {
        if let Some(cmxs) = &c.orchard_commitments {
            push_orchard_notes(&mut notes, cmxs, found);
        }
    }
    let ghost sap = shown_sapling(*c, caps);
    assert(mid.len() == sap.len());
    assert forall|i: int| 0 <= i < sap.len() implies sapling_note_is(#[trigger] notes@[i], i, sap[i]) by {
        assert(mid[0 + i] == mid[i]);
        assert(notes@[i] == mid[i]);
    }
    let spent_nullifiers = nullifier_records(c);
    Ok(ScanResult {
        txid: c.txid.clone(),
        notes,
        spent_nullifiers,
        transparent_received,
        transparent_outputs,
    })
}

proof fn lemma_sum_outputs(o: Seq<TransparentOutput>, values: Seq<u64>)
    requires
        transparent_outputs_are(o, values),
    ensures
        sum_outputs(o) == sum_values(values),
    decreases values.len(),
{
    if values.len() > 0 {
        let o2 = o.drop_last();
        let v2 = values.drop_last();
        assert forall|i: int| 0 <= i < v2.len() implies transparent_output_is(#[trigger] o2[i], i, v2[i]) by {
            assert(transparent_output_is(o[i], i, values[i]));
        }
        lemma_sum_outputs(o2, v2);
        assert(transparent_output_is(o[values.len() - 1], values.len() - 1, values[values.len() - 1]));
    }
}

/// The transparent total of a scan is the sum of the values of the
/// transparent outputs it reports.
pub proof fn lemma_transparent_total(
    r: ScanResult,
    c: TransactionContents,
    caps: Capabilities,
    found: Seq<Option<DecryptedNote>>,
)
    requires
        scan_is(r, c, caps, found),
    ensures
        r.transparent_received == sum_outputs(r.transparent_outputs@),
{
    lemma_sum_outputs(r.transparent_outputs@, shown_transparent(c, caps));
}

/// Two scans of the same transaction report the same spent nullifiers,
/// whatever keys and decryption outcomes they had.
pub proof fn lemma_nullifiers_independent_of_key(
    r1: ScanResult,
    r2: ScanResult,
    c: TransactionContents,
    caps1: Capabilities,
    caps2: Capabilities,
    found1: Seq<Option<DecryptedNote>>,
    found2: Seq<Option<DecryptedNote>>,
)
    requires
        scan_is(r1, c, caps1, found1),
        scan_is(r2, c, caps2, found2),
    ensures
        same_spent(r1.spent_nullifiers@, r2.spent_nullifiers@),
{
    lemma_spent_lists_agree(
        r1.spent_nullifiers@,
        r2.spent_nullifiers@,
        entries(c.sapling_nullifiers),
        entries(c.orchard_nullifiers),
    );
}

/// With a key that opens Orchard, a scan reports exactly one Orchard note per
/// action, after the Sapling notes; when every decrypted note carries its
/// nullifier and a non-zero value, the notes with a nullifier are exactly
/// those with a non-zero value.
pub proof fn lemma_orchard_notes_complete(
    r: ScanResult,
    c: TransactionContents,
    caps: Capabilities,
    found: Seq<Option<DecryptedNote>>,
)
    requires
        scan_is(r, c, caps, found),
        caps.orchard,
        found.len() == entries(c.orchard_commitments).len(),
        forall|i: int| 0 <= i < found.len() && (#[trigger] found[i]) is Some ==> found[i]->0.nullifier is Some
            && found[i]->0.value != 0,
    ensures
        ({
            let first = shown_sapling(c, caps).len();
            &&& r.notes@.len() == first + entries(c.orchard_commitments).len()
            &&& forall|i: int| first <= i < r.notes@.len() ==> {
                &&& (#[trigger] r.notes@[i]).pool@ == orchard_tag()
                &&& r.notes@[i].output_index == i - first
                &&& (r.notes@[i].nullifier is Some <==> r.notes@[i].value != 0)
            }
        }),
{
    let first = shown_sapling(c, caps).len();
    let orc = shown_orchard(c, caps);
    assert forall|i: int| first <= i < r.notes@.len() implies {
        &&& (#[trigger] r.notes@[i]).pool@ == orchard_tag()
        &&& r.notes@[i].output_index == i - first
        &&& (r.notes@[i].nullifier is Some <==> r.notes@[i].value != 0)
    } by {
        let k = i - first;
        assert(orchard_note_is(r.notes@[first + k], k, orc[k], found[k]));
        if found[k] is Some {
            assert(found[k]->0.nullifier is Some);
        }
    }
}

} // verus!
