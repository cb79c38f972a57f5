//! The shared state of the service: recent block summaries and voter
//! bitmaps, the current stake table and the node identity registry.

use vstd::prelude::*;
use circular_buffer::CircularBuffer;
use crate::bits::{VoterBits, bits_of};
use crate::block::{BlockDetail, Leaf, create_block_detail_from_leaf, raw_voters, summarizes};
use crate::history::{
    MAX_HISTORY, bounded_push, blocks_held, voters_held, new_block_history, new_voter_history,
    push_block, push_voters, lemma_bounded_push_len,
};
use crate::voters::{
    NodeIdentity, StakeTable, remap_voters, remapped, registry_keys,
    snapshot_keys,
};

verus! {

/// `after` is `before` with a summary of `leaf` appended as a history
/// appends.
pub open spec fn appended_summary(before: Seq<BlockDetail>, after: Seq<BlockDetail>, leaf: Leaf) -> bool {
    &&& after.len() > 0
    &&& summarizes(after.last(), leaf)
    &&& after == bounded_push(before, after.last())
}

/// The state of the data that the service keeps.
pub struct DataState {
    latest_blocks: CircularBuffer<MAX_HISTORY, BlockDetail>,
    latest_voters: CircularBuffer<MAX_HISTORY, VoterBits>,
    stake_table: StakeTable,
    node_identity: Vec<(Vec<u8>, NodeIdentity)>,
}

impl DataState {
    /// The block summaries held, oldest first.
    pub closed spec fn blocks(&self) -> Seq<BlockDetail> {
        blocks_held(self.latest_blocks)
    }

    /// The identity-order voter bitmaps held, oldest first.
    pub closed spec fn voters(&self) -> Seq<Seq<bool>> {
        voters_held(self.latest_voters)
    }

    /// Neither history holds more than `MAX_HISTORY` records.
    pub open spec fn bounded(&self) -> bool {
        self.blocks().len() <= MAX_HISTORY && self.voters().len() <= MAX_HISTORY
    }

    /// The stake table as currently known.
    pub closed spec fn table(&self) -> StakeTable {
        self.stake_table
    }

    /// The node identity registry, in registration order.
    pub closed spec fn identities(&self) -> Seq<(Vec<u8>, NodeIdentity)> {
        self.node_identity@
    }

    pub fn new(
        latest_blocks: CircularBuffer<MAX_HISTORY, BlockDetail>,
        latest_voters: CircularBuffer<MAX_HISTORY, VoterBits>,
        stake_table: StakeTable,
        node_identity: Vec<(Vec<u8>, NodeIdentity)>,
    ) -> (r: Self)
        ensures
            r.blocks() == blocks_held(latest_blocks),
            r.voters() == voters_held(latest_voters),
            r.table() == stake_table,
            r.identities() == node_identity@,
    {
        DataState { latest_blocks, latest_voters, stake_table, node_identity }
    }

    pub fn latest_blocks(&self) -> (r: &CircularBuffer<MAX_HISTORY, BlockDetail>)
        ensures
            blocks_held(*r) == self.blocks(),
    {
        &self.latest_blocks
    }

    pub fn latest_voters(&self) -> (r: &CircularBuffer<MAX_HISTORY, VoterBits>)
        ensures
            voters_held(*r) == self.voters(),
    {
        &self.latest_voters
    }

    pub fn stake_table(&self) -> (r: &StakeTable)
        ensures
            *r == self.table(),
    {
        &self.stake_table
    }

    pub fn node_identity(&self) -> (r: &Vec<(Vec<u8>, NodeIdentity)>)
        ensures
            r@ == self.identities(),
    {
        &self.node_identity
    }

    /// Swaps in a new stake table; the stored history is left as it is.
    pub fn replace_stake_table(&mut self, stake_table: StakeTable)
        ensures
            final(self).table() == stake_table,
            final(self).blocks() == old(self).blocks(),
            final(self).voters() == old(self).voters(),
            final(self).identities() == old(self).identities(),
            old(self).bounded() ==> final(self).bounded(),
    {
        self.stake_table = stake_table;
    }

    /// Appends a block summary, dropping the oldest once the history is full.
    pub fn add_latest_block(&mut self, block: BlockDetail)
        ensures
            final(self).blocks() == bounded_push(old(self).blocks(), block),
            final(self).voters() == old(self).voters(),
            final(self).table() == old(self).table(),
            final(self).identities() == old(self).identities(),
            old(self).bounded() ==> final(self).bounded(),
    {
        push_block(&mut self.latest_blocks, block);
    }

    /// Appends a voter bitmap, dropping the oldest once the history is full.
    pub fn add_latest_voters(&mut self, voters: VoterBits)
        ensures
            final(self).voters() == bounded_push(old(self).voters(), bits_of(voters)),
            final(self).blocks() == old(self).blocks(),
            final(self).table() == old(self).table(),
            final(self).identities() == old(self).identities(),
            old(self).bounded() ==> final(self).bounded(),
    {
        push_voters(&mut self.latest_voters, voters);
    }

    /// Registers an identity under its public key, at the end of the
    /// registry.  A key already present is not looked for.
    pub fn add_node_identity(&mut self, identity: NodeIdentity)
        ensures
            final(self).identities().len() == old(self).identities().len() + 1,
            final(self).identities().drop_last() == old(self).identities(),
            final(self).identities().last().0@ == identity.public_key@,
            final(self).identities().last().1 == identity,
            final(self).blocks() == old(self).blocks(),
            final(self).voters() == old(self).voters(),
            final(self).table() == old(self).table(),
            old(self).bounded() ==> final(self).bounded(),
    {
        let key = identity.public_key().clone();
        assert(key@ =~= identity.public_key@);
        self.node_identity.push((key, identity));
        assert(self.node_identity@.drop_last() =~= old(self).node_identity@);
    }

    /// The voter bitmap, in identity order, of a raw stake-table-order bitmap
    /// read against the current stake table and registry.  An unavailable
    /// snapshot enumerates no entries.
    pub fn identity_order_voters(&self, raw: &VoterBits) -> (r: VoterBits)
        ensures
            bits_of(r) == remapped(bits_of(*raw), snapshot_keys(self.table()),
                registry_keys(self.identities())),
    {
        match &self.stake_table.last_epoch_start {
            Some(entries) => remap_voters(raw, entries, &self.node_identity),
            None => {
                let empty: Vec<crate::voters::StakeTableEntry> = Vec::new();
                let r = remap_voters(raw, &empty, &self.node_identity);
                assert(crate::voters::entry_keys(empty@) =~= Seq::<Seq<u8>>::empty());
                r
            },
        }
    }

    /// Records a finalized leaf: appends its summary to the block history
    /// and its voters, remapped into identity order against the current
    /// stake table and registry, to the voter history.  Returns a copy of
    /// each, to be sent on to subscribers.
    pub fn record_leaf(&mut self, leaf: &Leaf) -> (r: (BlockDetail, VoterBits))
        ensures
            summarizes(r.0, *leaf),
            bits_of(r.1) == remapped(raw_voters(*leaf), snapshot_keys(old(self).table()),
                registry_keys(old(self).identities())),
            appended_summary(old(self).blocks(), final(self).blocks(), *leaf),
            final(self).voters() == bounded_push(old(self).voters(), bits_of(r.1)),
            old(self).blocks().len() == old(self).voters().len() ==> final(self).blocks().len()
                == final(self).voters().len(),
            final(self).table() == old(self).table(),
            final(self).identities() == old(self).identities(),
            old(self).bounded() ==> final(self).bounded(),
    {
        let block_detail = create_block_detail_from_leaf(leaf);
        let block_detail_copy = create_block_detail_from_leaf(leaf);
        let voters = match &leaf.justify_qc.signatures {
            Some(raw) => self.identity_order_voters(raw),
            None => {
                let raw = crate::bits::empty_bits(0);
                self.identity_order_voters(&raw)
            },
        };
        let voters_copy = crate::bits::copy_bits(&voters);
        let ghost pushed_block = block_detail;
        let ghost pushed_bits = bits_of(voters);
        self.add_latest_block(block_detail);
        self.add_latest_voters(voters);
        proof {
            if old(self).blocks().len() == old(self).voters().len() {
                lemma_bounded_push_len(old(self).blocks(), pushed_block, old(self).voters(), pushed_bits);
            }
        }
        (block_detail_copy, voters_copy)
    }
}

impl Default for DataState {
    /// Empty histories, an unavailable stake table snapshot and an empty
    /// registry.
    fn default() -> (r: Self)
        ensures
            r.blocks() == Seq::<BlockDetail>::empty(),
            r.voters() == Seq::<Seq<bool>>::empty(),
            r.bounded(),
            r.table().last_epoch_start is None,
            r.identities() == Seq::<(Vec<u8>, NodeIdentity)>::empty(),
    {
        let r = DataState {
            latest_blocks: new_block_history(),
            latest_voters: new_voter_history(),
            stake_table: StakeTable { last_epoch_start: None },
            node_identity: Vec::new(),
        };
        assert(r.node_identity@ =~= Seq::<(Vec<u8>, NodeIdentity)>::empty());
        r
    }
}

} // verus!
