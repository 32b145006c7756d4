//! Events carried between the ingestor and the processor, and the
//! deduplication ids under which they are published.
use vstd::prelude::*;

use crate::bytes::{AddressBytes, HashBytes};
use crate::text::{
    decimal, hex_lower, lemma_decimal_injective, lemma_decimal_len, lemma_hex_injective, lemma_hex_len,
    prefixed_hex, push_char, push_decimal, push_hex,
};

verus! {

/// L1 header.
#[derive(Debug, Clone, Copy)]
pub struct L1Header {
    /// Block number.
    pub number: u64,
    /// Block hash.
    pub hash: HashBytes,
    /// Block slot.
    pub slot: u64,
    /// Block timestamp.
    pub timestamp: u64,
}

/// L2 header.
#[derive(Debug, Clone, Copy)]
pub struct L2Header {
    /// Block number.
    pub number: u64,
    /// Block hash.
    pub hash: HashBytes,
    /// Parent block hash.
    pub parent_hash: HashBytes,
    /// Block timestamp.
    pub timestamp: u64,
    /// Gas used.
    pub gas_used: u64,
    /// Beneficiary (sequencer).
    pub beneficiary: AddressBytes,
    /// Base fee per gas.
    pub base_fee_per_gas: u64,
}

/// A proposed batch, with the L1 transaction that proposed it.
#[derive(Debug, Clone, Copy)]
pub struct BatchProposedWrapper {
    /// Batch id.
    pub batch_id: u64,
    /// Id of the last L2 block of the batch.
    pub last_block_id: u64,
    /// L1 block the batch was proposed in.
    pub proposed_in: u64,
    /// Hash of the proposing L1 transaction.
    pub l1_tx_hash: HashBytes,
}

/// Batches proved together, with the L1 block and transaction of the proof.
#[derive(Debug, Clone)]
pub struct BatchesProvedWrapper {
    /// Ids of the proved batches.
    pub batch_ids: Vec<u64>,
    /// L1 block of the proving transaction.
    pub l1_block_number: u64,
    /// Hash of the proving L1 transaction.
    pub l1_tx_hash: HashBytes,
}

/// A verified batch, with the L1 block and transaction of the verification.
#[derive(Debug, Clone, Copy)]
pub struct BatchesVerifiedWrapper {
    /// Id of the last verified batch.
    pub batch_id: u64,
    /// Verified block hash.
    pub block_hash: HashBytes,
    /// L1 block of the verifying transaction.
    pub l1_block_number: u64,
    /// Hash of the verifying L1 transaction.
    pub l1_tx_hash: HashBytes,
}

/// A processed forced inclusion.
#[derive(Debug, Clone, Copy)]
pub struct ForcedInclusionProcessedWrapper {
    /// Hash of the blob of the forced inclusion.
    pub blob_hash: HashBytes,
}

/// An event published by the ingestor.
#[derive(Debug, Clone)]
pub enum TaikoEvent {
    /// A new L1 header.
    L1Header(L1Header),
    /// A new L2 header.
    L2Header(L2Header),
    /// A batch was proposed.
    BatchProposed(BatchProposedWrapper),
    /// Batches were proved.
    BatchesProved(BatchesProvedWrapper),
    /// Batches were verified.
    BatchesVerified(BatchesVerifiedWrapper),
    /// A forced inclusion was processed.
    ForcedInclusionProcessed(ForcedInclusionProcessedWrapper),
}

/// `{a}:{hash}-{kind}`, with `a` in decimal and the hash in `0x`-prefixed hex.
pub open spec fn id_text(a: u64, hash: HashBytes, kind: Seq<char>) -> Seq<char> {
    decimal(a as nat) + seq![':'] + prefixed_hex(hash@) + kind
}

/// The deduplication id of an event.
pub open spec fn dedup_id_of(e: TaikoEvent) -> Seq<char> {
    match e {
        TaikoEvent::L1Header(h) => id_text(h.number, h.hash, "-l1_header"@),
        TaikoEvent::L2Header(h) => id_text(h.number, h.hash, "-l2_header"@),
        TaikoEvent::BatchProposed(b) => id_text(b.last_block_id, b.l1_tx_hash, "-batch_proposed"@),
        TaikoEvent::BatchesProved(p) => id_text(
            if p.batch_ids@.len() > 0 { p.batch_ids@[0] } else { 0 },
            p.l1_tx_hash,
            "-batches_proved"@,
        ),
        TaikoEvent::BatchesVerified(v) => id_text(v.batch_id, v.l1_tx_hash, "-batches_verified"@),
        TaikoEvent::ForcedInclusionProcessed(f) => prefixed_hex(f.blob_hash@)
            + "-forced_inclusion_processed"@,
    }
}

/// Appends `0x` and the hex rendering of a hash.
fn push_prefixed_hex(s: &mut String, h: &HashBytes)
    ensures
        final(s)@ == old(s)@ + prefixed_hex(h@),
{
    push_char(s, '0');
    push_char(s, 'x');
    push_hex(s, &h.0);
    proof {
        assert(final(s)@ =~= old(s)@ + prefixed_hex(h@));
    }
}

/// Builds `{a}:{hash}{kind}`.
fn id_string(a: u64, hash: &HashBytes, kind: &str) -> (r: String)
    ensures
        r@ == id_text(a, *hash, kind@),
{
    let mut s = String::new();
    push_decimal(&mut s, a);
    push_char(&mut s, ':');
    push_prefixed_hex(&mut s, hash);
    s.append(kind);
    proof {
        assert(s@ =~= id_text(a, *hash, kind@));
    }
    s
}

impl TaikoEvent {
    /// The id under which the event is published, so that the same event
    /// published twice is stored once.
    pub fn dedup_id(&self) -> (r: String)
        ensures
            r@ == dedup_id_of(*self),
    {
        match self {
            TaikoEvent::L1Header(h) => id_string(h.number, &h.hash, "-l1_header"),
            TaikoEvent::L2Header(h) => id_string(h.number, &h.hash, "-l2_header"),
            TaikoEvent::BatchProposed(b) => id_string(b.last_block_id, &b.l1_tx_hash, "-batch_proposed"),
            TaikoEvent::BatchesProved(p) => {
                let first = if p.batch_ids.len() > 0 { p.batch_ids[0] } else { 0 };
                id_string(first, &p.l1_tx_hash, "-batches_proved")
            },
            TaikoEvent::BatchesVerified(v) => id_string(v.batch_id, &v.l1_tx_hash, "-batches_verified"),
            TaikoEvent::ForcedInclusionProcessed(f) => {
                let mut s = String::new();
                push_prefixed_hex(&mut s, &f.blob_hash);
                s.append("-forced_inclusion_processed");
                s
            },
        }
    }
}

/// Which kind of event `e` is, in the order of the variants.
pub open spec fn kind_index(e: TaikoEvent) -> int {
    match e {
        TaikoEvent::L1Header(_) => 0,
        TaikoEvent::L2Header(_) => 1,
        TaikoEvent::BatchProposed(_) => 2,
        TaikoEvent::BatchesProved(_) => 3,
        TaikoEvent::BatchesVerified(_) => 4,
        TaikoEvent::ForcedInclusionProcessed(_) => 5,
    }
}

/// The number written into an event's deduplication id (zero for a
/// processed forced inclusion, whose id holds none).
pub open spec fn id_number(e: TaikoEvent) -> u64 {
    match e {
        TaikoEvent::L1Header(h) => h.number,
        TaikoEvent::L2Header(h) => h.number,
        TaikoEvent::BatchProposed(b) => b.last_block_id,
        TaikoEvent::BatchesProved(p) => if p.batch_ids@.len() > 0 { p.batch_ids@[0] } else { 0 },
        TaikoEvent::BatchesVerified(v) => v.batch_id,
        TaikoEvent::ForcedInclusionProcessed(_) => 0,
    }
}

/// The hash written into an event's deduplication id.
pub open spec fn id_hash(e: TaikoEvent) -> HashBytes {
    match e {
        TaikoEvent::L1Header(h) => h.hash,
        TaikoEvent::L2Header(h) => h.hash,
        TaikoEvent::BatchProposed(b) => b.l1_tx_hash,
        TaikoEvent::BatchesProved(p) => p.l1_tx_hash,
        TaikoEvent::BatchesVerified(v) => v.l1_tx_hash,
        TaikoEvent::ForcedInclusionProcessed(f) => f.blob_hash,
    }
}

/// The suffix that names the kind of event in its deduplication id.
spec fn kind_suffix(e: TaikoEvent) -> Seq<char> {
    match e {
        TaikoEvent::L1Header(_) => "-l1_header"@,
        TaikoEvent::L2Header(_) => "-l2_header"@,
        TaikoEvent::BatchProposed(_) => "-batch_proposed"@,
        TaikoEvent::BatchesProved(_) => "-batches_proved"@,
        TaikoEvent::BatchesVerified(_) => "-batches_verified"@,
        TaikoEvent::ForcedInclusionProcessed(_) => "-forced_inclusion_processed"@,
    }
}

/// What precedes the kind suffix in an event's deduplication id.
spec fn id_body(e: TaikoEvent) -> Seq<char> {
    match e {
        TaikoEvent::ForcedInclusionProcessed(f) => prefixed_hex(f.blob_hash@),
        _ => decimal(id_number(e) as nat) + seq![':'] + prefixed_hex(id_hash(e)@),
    }
}

proof fn lemma_dedup_id_parts(e: TaikoEvent)
    ensures
        dedup_id_of(e) == id_body(e) + kind_suffix(e),
        kind_suffix(e).len() > 0,
        kind_suffix(e)[0] == '-',
        forall|i: int| 1 <= i < kind_suffix(e).len() ==> kind_suffix(e)[i] != '-',
{
    reveal_strlit("-l1_header");
    reveal_strlit("-l2_header");
    reveal_strlit("-batch_proposed");
    reveal_strlit("-batches_proved");
    reveal_strlit("-batches_verified");
    reveal_strlit("-forced_inclusion_processed");
}

proof fn lemma_kinds_have_distinct_suffixes(e1: TaikoEvent, e2: TaikoEvent)
    requires
        kind_suffix(e1) == kind_suffix(e2),
    ensures
        kind_index(e1) == kind_index(e2),
{
    reveal_strlit("-l1_header");
    reveal_strlit("-l2_header");
    reveal_strlit("-batch_proposed");
    reveal_strlit("-batches_proved");
    reveal_strlit("-batches_verified");
    reveal_strlit("-forced_inclusion_processed");
    let k1 = kind_suffix(e1);
    let k2 = kind_suffix(e2);
    assert(k1.len() == k2.len());
    assert(k1[2] == k2[2]);
    assert(k1[6] == k2[6]);
}

/// Two texts that end in suffixes which start with `-`, where the longer
/// suffix holds no other `-`, end in the same suffix.
proof fn lemma_suffixes_align(x1: Seq<char>, k1: Seq<char>, x2: Seq<char>, k2: Seq<char>)
    requires
        x1 + k1 == x2 + k2,
        0 < k1.len() <= k2.len(),
        k1[0] == '-',
        forall|i: int| 1 <= i < k2.len() ==> k2[i] != '-',
    ensures
        k1 == k2,
        x1 == x2,
{
    let s = x1 + k1;
    assert(s.len() == x2.len() + k2.len());
    if k1.len() < k2.len() {
        let j = k2.len() - k1.len();
        assert(s[x1.len() as int] == k1[0]);
        assert(s[x2.len() + j] == k2[j]);
        assert(false);
    }
    assert(k1 =~= s.subrange(x1.len() as int, s.len() as int));
    assert(k2 =~= (x2 + k2).subrange(x2.len() as int, s.len() as int));
    assert(x1 =~= s.subrange(0, x1.len() as int));
    assert(x2 =~= (x2 + k2).subrange(0, x2.len() as int));
}

/// `0x` and the hex of a hash: 66 characters, from which the hash is read back.
proof fn lemma_prefixed_hex_injective(h1: HashBytes, h2: HashBytes)
    ensures
        prefixed_hex(h1@).len() == 66,
        prefixed_hex(h1@) == prefixed_hex(h2@) ==> h1@ == h2@,
{
    lemma_hex_len(h1@);
    if prefixed_hex(h1@) == prefixed_hex(h2@) {
        lemma_hex_len(h2@);
        assert(hex_lower(h1@) =~= prefixed_hex(h1@).subrange(2, 66));
        assert(hex_lower(h2@) =~= prefixed_hex(h2@).subrange(2, 66));
        lemma_hex_injective(h1@, h2@);
    }
}

/// Law: two events share a deduplication id exactly when they are of the
/// same kind and carry the same number and hash in it, so deduplication
/// drops repeats of an event and never a different event.
pub proof fn law_dedup_ids_identify_events(e1: TaikoEvent, e2: TaikoEvent)
    ensures
        dedup_id_of(e1) == dedup_id_of(e2) <==> (kind_index(e1) == kind_index(e2) && id_number(e1)
            == id_number(e2) && id_hash(e1)@ == id_hash(e2)@),
{
    lemma_dedup_id_parts(e1);
    lemma_dedup_id_parts(e2);
    lemma_prefixed_hex_injective(id_hash(e1), id_hash(e2));
    lemma_prefixed_hex_injective(id_hash(e2), id_hash(e1));
    let b1 = id_body(e1);
    let b2 = id_body(e2);
    let k1 = kind_suffix(e1);
    let k2 = kind_suffix(e2);
    if dedup_id_of(e1) == dedup_id_of(e2) {
        if k1.len() <= k2.len() {
            lemma_suffixes_align(b1, k1, b2, k2);
        } else {
            lemma_suffixes_align(b2, k2, b1, k1);
        }
        lemma_kinds_have_distinct_suffixes(e1, e2);
        if kind_index(e1) != 5 {
            let d1 = decimal(id_number(e1) as nat);
            let d2 = decimal(id_number(e2) as nat);
            let p1 = prefixed_hex(id_hash(e1)@);
            let p2 = prefixed_hex(id_hash(e2)@);
            assert(b1.len() == d1.len() + 1 + 66);
            assert(b2.len() == d2.len() + 1 + 66);
            assert(d1 =~= b1.subrange(0, d1.len() as int));
            assert(d2 =~= b2.subrange(0, d2.len() as int));
            lemma_decimal_injective(id_number(e1) as nat, id_number(e2) as nat);
            assert(p1 =~= b1.subrange(d1.len() + 1int, b1.len() as int));
            assert(p2 =~= b2.subrange(d2.len() + 1int, b2.len() as int));
        }
    }
    if kind_index(e1) == kind_index(e2) && id_number(e1) == id_number(e2) && id_hash(e1)@
        == id_hash(e2)@ {
        assert(k1 == k2);
        assert(b1 == b2);
    }
}

} // verus!
