//! Finalized leaves and the block summaries derived from them.

use vstd::prelude::*;
use crate::bits::{VoterBits, bits_of};

verus! {

/// The earliest second that `time`'s `OffsetDateTime` can hold
/// (-9999-01-01 00:00:00 UTC).
pub const MIN_UNIX_SECONDS: i64 = -377705116800;

/// The latest second that `time`'s `OffsetDateTime` can hold
/// (9999-12-31 23:59:59 UTC).
pub const MAX_UNIX_SECONDS: i64 = 253402300799;

/// One transaction of a block: the namespace it was sent to and its bytes.
pub struct Transaction {
    pub namespace: u32,
    pub payload: Vec<u8>,
}

/// The transactions of a block.
pub struct Payload {
    pub transactions: Vec<Transaction>,
}

/// The header fields that a block summary is built from.
pub struct Header {
    pub commitment: Vec<u8>,
    pub height: u64,
    pub timestamp: u64,
    pub proposer_id: Vec<u8>,
    pub fee_info_balance: u128,
    pub fee_info_account: Vec<u8>,
}

/// The certificate that finalized a leaf: the bitmap, in stake-table order,
/// of the validators whose signatures it counts.  A genesis leaf has none.
pub struct QuorumCertificate {
    pub signatures: Option<VoterBits>,
}

/// One finalized unit of consensus output.
pub struct Leaf {
    pub block_header: Header,
    pub block_payload: Option<Payload>,
    pub justify_qc: QuorumCertificate,
}

/// The summary of one finalized block.  `time` is in seconds since the Unix
/// epoch.
pub struct BlockDetail {
    pub hash: Vec<u8>,
    pub height: u64,
    pub time: i64,
    pub proposer_id: Vec<u8>,
    pub num_transactions: u64,
    pub block_reward: Vec<u128>,
    pub fee_recipient: Vec<u8>,
    pub size: u64,
}

/// Whether `time` can represent the instant `secs` seconds after the epoch.
pub open spec fn representable(secs: int) -> bool {
    MIN_UNIX_SECONDS <= secs <= MAX_UNIX_SECONDS
}

/// The timestamp shown for a raw header timestamp: the value itself where
/// it is representable, the epoch otherwise.
pub open spec fn shown_time(raw: u64) -> i64 {
    if representable(raw as int) {
        raw as i64
    } else {
        0
    }
}

/// The transactions of a leaf; a leaf without payload has none.
pub open spec fn leaf_transactions(leaf: Leaf) -> Seq<Transaction> {
    match leaf.block_payload {
        Some(p) => p.transactions@,
        None => Seq::empty(),
    }
}

/// The number of payload bytes in `txs`.
pub open spec fn total_size(txs: Seq<Transaction>) -> nat
    decreases txs.len(),
{
    if txs.len() == 0 {
        0
    } else {
        total_size(txs.drop_last()) + txs.last().payload@.len()
    }
}

/// `n` where it fits in a `u64`, the largest `u64` otherwise.
pub open spec fn clamp_u64(n: nat) -> u64 {
    if n <= u64::MAX {
        n as u64
    } else {
        u64::MAX
    }
}

/// The voter bitmap that a leaf's certificate carries; none is empty.
pub open spec fn raw_voters(leaf: Leaf) -> Seq<bool> {
    match leaf.justify_qc.signatures {
        Some(b) => bits_of(b),
        None => Seq::empty(),
    }
}

/// `d` summarizes `leaf`.
pub open spec fn summarizes(d: BlockDetail, leaf: Leaf) -> bool {
    let h = leaf.block_header;
    &&& d.hash@ == h.commitment@
    &&& d.height == h.height
    &&& d.time == shown_time(h.timestamp)
    &&& d.proposer_id@ == h.proposer_id@
    &&& d.num_transactions == leaf_transactions(leaf).len()
    &&& d.block_reward@ == seq![h.fee_info_balance]
    &&& d.fee_recipient@ == h.fee_info_account@
    &&& d.size == clamp_u64(total_size(leaf_transactions(leaf)))
}

/// Relies on `time::OffsetDateTime::from_unix_timestamp`, which accepts the
/// seconds of years -9999 to 9999 and refuses the rest, and on
/// `OffsetDateTime::unix_timestamp`, which gives the same seconds back.
#[verifier::external_body]
fn checked_unix_seconds(secs: i64) -> (r: Option<i64>)
    ensures
        r == (if representable(secs as int) { Some(secs) } else { None::<i64> }),
{
    match time::OffsetDateTime::from_unix_timestamp(secs) {
        Ok(t) => Some(t.unix_timestamp()),
        Err(_) => None,
    }
}

fn copy_bytes(v: &Vec<u8>) -> (r: Vec<u8>)
    ensures
        r@ == v@,
{
    let r = v.clone();
    assert(r@ =~= v@);
    r
}

/// The payload bytes of `txs`, or the largest `u64` where they exceed it.
pub fn payload_size(txs: &Vec<Transaction>) -> (r: u64)
    ensures
        r == clamp_u64(total_size(txs@)),
{
    let mut acc: u64 = 0;
    let mut i: usize = 0;
    while i < txs.len()
        invariant
            i <= txs.len(),
            acc == clamp_u64(total_size(txs@.take(i as int))),
        decreases txs.len() - i,
    {
        assert(txs@.take(i + 1).drop_last() =~= txs@.take(i as int));
        let len = txs[i].payload.len() as u64;
        acc = acc.saturating_add(len);
        i = i + 1;
    }
    assert(txs@.take(i as int) =~= txs@);
    acc
}

/// Builds the summary of a leaf's block.  A leaf without payload counts as
/// one with no transactions; a timestamp that `time` cannot represent is
/// shown as the epoch.
pub fn create_block_detail_from_leaf(leaf: &Leaf) -> (r: BlockDetail)
    ensures
        summarizes(r, *leaf),
{
    let h = &leaf.block_header;
    let (num_transactions, size) = match &leaf.block_payload {
        Some(p) => (p.transactions.len() as u64, payload_size(&p.transactions)),
        None => {
            assert(total_size(Seq::<Transaction>::empty()) == 0);
            (0u64, 0u64)
        },
    };
    let time: i64 = if h.timestamp <= i64::MAX as u64 {
        match checked_unix_seconds(h.timestamp as i64) {
            Some(t) => t,
            None => 0,
        }
    } else {
        0
    };
    let mut block_reward: Vec<u128> = Vec::new();
    block_reward.push(h.fee_info_balance);
    assert(block_reward@ =~= seq![h.fee_info_balance]);
    BlockDetail {
        hash: copy_bytes(&h.commitment),
        height: h.height,
        time,
        proposer_id: copy_bytes(&h.proposer_id),
        num_transactions,
        block_reward,
        fee_recipient: copy_bytes(&h.fee_info_account),
        size,
    }
}

} // verus!
