use futures::channel::mpsc;
use futures::executor::block_on;
use futures::{SinkExt, StreamExt};
use node_metrics::bits::VoterBits;
use node_metrics::block::{
    create_block_detail_from_leaf, payload_size, BlockDetail, Header, Leaf, Payload,
    QuorumCertificate, Transaction, MAX_UNIX_SECONDS, MIN_UNIX_SECONDS,
};
use node_metrics::data_state::DataState;
use node_metrics::history::MAX_HISTORY;
use node_metrics::pipeline::{
    is_terminated, next_step, send_event, send_result, start, PipelineAction, PipelineEvent,
    PipelineState, ProcessLeafError, Termination,
};
use node_metrics::voters::{contains_key, keys_equal, NodeIdentity, StakeTable, StakeTableEntry};

fn header(height: u64, timestamp: u64) -> Header {
    Header {
        commitment: vec![0xab, 0xcd, height as u8],
        height,
        timestamp,
        proposer_id: vec![7, 7],
        fee_info_balance: 1_000,
        fee_info_account: vec![9, 8, 7],
    }
}

fn genesis_leaf() -> Leaf {
    Leaf {
        block_header: header(0, 0),
        block_payload: None,
        justify_qc: QuorumCertificate { signatures: None },
    }
}

fn leaf_with_voters(height: u64, bits: &[bool]) -> Leaf {
    Leaf {
        block_header: header(height, 1_700_000_000),
        block_payload: Some(Payload { transactions: vec![] }),
        justify_qc: QuorumCertificate { signatures: Some(VoterBits::from_bools(&bits.to_vec())) },
    }
}

fn entry(key: &[u8]) -> StakeTableEntry {
    StakeTableEntry { key: key.to_vec(), stake: 10, state_key: vec![0] }
}

fn identity(key: &[u8]) -> NodeIdentity {
    NodeIdentity { public_key: key.to_vec(), name: None }
}

fn state_with(table: &[&[u8]], registry: &[&[u8]]) -> DataState {
    let mut state: DataState = Default::default();
    state.replace_stake_table(StakeTable {
        last_epoch_start: Some(table.iter().map(|k| entry(k)).collect()),
    });
    for k in registry {
        state.add_node_identity(identity(k));
    }
    state
}

fn remap(state: &DataState, raw: &[bool]) -> Vec<bool> {
    state.identity_order_voters(&VoterBits::from_bools(&raw.to_vec())).to_bools()
}

fn detail(height: u64) -> BlockDetail {
    create_block_detail_from_leaf(&leaf_with_voters(height, &[]))
}

#[test]
fn test_process_leaf_error_debug() {
    let (mut sender, receiver) = mpsc::channel(1);
    // deliberately close the receiver.
    drop(receiver);

    let receive_result = block_on(sender.send(1));

    assert!(receive_result.is_err());
    let err = receive_result.unwrap_err();

    let process_leaf_err = ProcessLeafError::SendError(err);

    assert_eq!(
        format!("{:?}", process_leaf_err),
        "SendError(SendError { kind: Disconnected })"
    );
}

#[test]
fn test_process_leaf_stream() {
    let mut data_state: DataState = Default::default();
    let (mut block_sender, block_receiver) = mpsc::channel::<BlockDetail>(1);
    let (mut voters_sender, voters_receiver) = mpsc::channel::<Vec<bool>>(1);

    // Latest blocks and voters should be empty
    assert_eq!(data_state.latest_blocks().iter().count(), 0);
    assert_eq!(data_state.latest_voters().iter().count(), 0);

    let mut leaves = vec![genesis_leaf()].into_iter();
    let mut leaf: Option<Leaf> = None;
    let mut outgoing: Option<(BlockDetail, VoterBits)> = None;
    let mut state = start();
    let mut event = match leaves.next() {
        Some(l) => {
            leaf = Some(l);
            PipelineEvent::LeafArrived
        }
        None => PipelineEvent::StreamEnded,
    };
    let mut block_receiver = block_receiver;
    let mut voters_receiver = voters_receiver;
    let mut received_blocks = 0;
    let mut received_voters = 0;
    loop {
        let (next, action) = next_step(state, event);
        state = next;
        event = match action {
            PipelineAction::RecordAndSendBlock => {
                let (block, voters) = data_state.record_leaf(leaf.as_ref().unwrap());
                let r = send_result(block_on(block_sender.send(block)));
                outgoing = Some((create_block_detail_from_leaf(leaf.as_ref().unwrap()), voters));
                send_event(&r)
            }
            PipelineAction::SendVoters => {
                let (_, voters) = outgoing.take().unwrap();
                let r = send_result(block_on(voters_sender.send(voters.to_bools())));
                send_event(&r)
            }
            PipelineAction::AwaitLeaf => {
                if block_on(block_receiver.next()).is_some() {
                    received_blocks += 1;
                }
                if block_on(voters_receiver.next()).is_some() {
                    received_voters += 1;
                }
                match leaves.next() {
                    Some(l) => {
                        leaf = Some(l);
                        PipelineEvent::LeafArrived
                    }
                    None => PipelineEvent::StreamEnded,
                }
            }
            PipelineAction::Stop | PipelineAction::Ignore => break,
        };
    }

    // We should receive a Block Detail and a BitVec of voters.
    assert_eq!(received_blocks, 1);
    assert_eq!(received_voters, 1);

    // Latest blocks and voters should now have a single entry
    assert_eq!(data_state.latest_blocks().iter().count(), 1);
    assert_eq!(data_state.latest_voters().iter().count(), 1);

    drop(block_receiver);
    assert_eq!(state, PipelineState::Terminated(Termination::EndOfStream));
    assert!(is_terminated(state));
}

#[test]
fn remap_follows_identity_order() {
    let state = state_with(&[b"A", b"B", b"C"], &[b"C", b"A", b"B"]);
    assert_eq!(remap(&state, &[true, false, true]), vec![true, true, false]);
}

#[test]
fn remap_of_empty_bitmap_is_all_false() {
    let state = state_with(&[b"A", b"B", b"C"], &[b"C", b"A", b"B"]);
    assert_eq!(remap(&state, &[]), vec![false, false, false]);
}

#[test]
fn remap_ignores_bits_beyond_the_table() {
    let state = state_with(&[b"A", b"B"], &[b"A", b"B", b"C"]);
    assert_eq!(remap(&state, &[false, true, true, true, true]), vec![false, true, false]);
}

#[test]
fn remap_ignores_entries_beyond_the_bitmap() {
    let state = state_with(&[b"A", b"B", b"C"], &[b"C", b"B", b"A"]);
    assert_eq!(remap(&state, &[true]), vec![false, false, true]);
}

#[test]
fn remap_without_snapshot_is_all_false() {
    let mut state: DataState = Default::default();
    state.add_node_identity(identity(b"A"));
    state.add_node_identity(identity(b"B"));
    assert_eq!(remap(&state, &[true, true]), vec![false, false]);
}

#[test]
fn remap_uses_the_current_stake_table() {
    let mut state = state_with(&[b"A", b"B"], &[b"A", b"B"]);
    assert_eq!(remap(&state, &[true, false]), vec![true, false]);
    state.replace_stake_table(StakeTable { last_epoch_start: Some(vec![entry(b"B"), entry(b"A")]) });
    assert_eq!(remap(&state, &[true, false]), vec![false, true]);
    assert_eq!(state.stake_table().last_epoch_start.as_ref().unwrap()[0].key, b"B".to_vec());
}

#[test]
fn remap_of_duplicate_table_keys_counts_membership() {
    let state = state_with(&[b"A", b"A", b"B"], &[b"B", b"A"]);
    assert_eq!(remap(&state, &[false, true, false]), vec![false, true]);
}

#[test]
fn history_keeps_fewer_than_capacity() {
    let mut state: DataState = Default::default();
    state.add_latest_block(detail(1));
    assert_eq!(state.latest_blocks().len(), 1);
    for h in 2..=MAX_HISTORY as u64 {
        state.add_latest_block(detail(h));
    }
    assert_eq!(state.latest_blocks().len(), 50);
    assert_eq!(state.latest_blocks().front().unwrap().height, 1);
}

#[test]
fn history_keeps_the_last_fifty_in_order() {
    let mut state: DataState = Default::default();
    for h in 0..60u64 {
        state.add_latest_block(detail(h));
    }
    let heights: Vec<u64> = state.latest_blocks().iter().map(|b| b.height).collect();
    assert_eq!(heights, (10..60u64).collect::<Vec<u64>>());
}

#[test]
fn voter_history_is_bounded() {
    let mut state: DataState = Default::default();
    for i in 0..55usize {
        state.add_latest_voters(VoterBits::from_bools(&vec![true; i]));
    }
    let lens: Vec<usize> = state.latest_voters().iter().map(|v| v.len()).collect();
    assert_eq!(lens, (5..55usize).collect::<Vec<usize>>());
}

#[test]
fn histories_advance_in_lockstep() {
    let mut state = state_with(&[b"A"], &[b"A"]);
    for h in 0..53u64 {
        state.record_leaf(&leaf_with_voters(h, &[true]));
        assert_eq!(state.latest_blocks().len(), state.latest_voters().len());
    }
    assert_eq!(state.latest_blocks().len(), 50);
    assert_eq!(state.latest_blocks().back().unwrap().height, 52);
    assert_eq!(state.latest_voters().back().unwrap().to_bools(), vec![true]);
}

#[test]
fn failed_send_terminates_after_one_record() {
    let mut data_state: DataState = Default::default();
    let (mut block_sender, block_receiver) = mpsc::channel::<BlockDetail>(1);
    let (_voters_sender, voters_receiver) = mpsc::channel::<Vec<bool>>(1);
    drop(block_receiver);
    drop(voters_receiver);

    let (state, action) = next_step(start(), PipelineEvent::LeafArrived);
    assert_eq!(action, PipelineAction::RecordAndSendBlock);
    let (block, _voters) = data_state.record_leaf(&genesis_leaf());
    let r = send_result(block_on(block_sender.send(block)));
    assert!(r.is_err());
    let (state, action) = next_step(state, send_event(&r));
    assert_eq!(state, PipelineState::Terminated(Termination::SendFailed));
    assert_eq!(action, PipelineAction::Stop);
    assert_eq!(data_state.latest_blocks().len(), 1);
    assert_eq!(data_state.latest_voters().len(), 1);

    for e in [PipelineEvent::LeafArrived, PipelineEvent::Sent, PipelineEvent::StreamEnded] {
        assert_eq!(next_step(state, e), (state, PipelineAction::Stop));
    }
}

#[test]
fn failed_voter_send_terminates() {
    let (state, _) = next_step(start(), PipelineEvent::LeafArrived);
    let (state, action) = next_step(state, PipelineEvent::Sent);
    assert_eq!(action, PipelineAction::SendVoters);
    let (state, action) = next_step(state, PipelineEvent::SendFailed);
    assert_eq!(state, PipelineState::Terminated(Termination::SendFailed));
    assert_eq!(action, PipelineAction::Stop);
}

#[test]
fn clean_shutdown_leaves_store_unchanged() {
    let data_state: DataState = Default::default();
    let (state, action) = next_step(start(), PipelineEvent::StreamEnded);
    assert_eq!(state, PipelineState::Terminated(Termination::EndOfStream));
    assert_eq!(action, PipelineAction::Stop);
    assert_eq!(data_state.latest_blocks().len(), 0);
    assert_eq!(data_state.latest_voters().len(), 0);
}

#[test]
fn unexpected_events_are_ignored() {
    assert_eq!(next_step(start(), PipelineEvent::Sent), (start(), PipelineAction::Ignore));
    let (sending, _) = next_step(start(), PipelineEvent::LeafArrived);
    assert_eq!(next_step(sending, PipelineEvent::LeafArrived), (sending, PipelineAction::Ignore));
    let (voting, _) = next_step(sending, PipelineEvent::Sent);
    let (back, action) = next_step(voting, PipelineEvent::Sent);
    assert_eq!((back, action), (PipelineState::AwaitingLeaf, PipelineAction::AwaitLeaf));
    assert!(!is_terminated(back));
}

#[test]
fn genesis_leaf_end_to_end() {
    let mut state: DataState = Default::default();
    state.add_node_identity(identity(b"A"));
    state.add_node_identity(identity(b"B"));
    let (block, voters) = state.record_leaf(&genesis_leaf());
    assert_eq!(block.height, 0);
    assert_eq!(block.num_transactions, 0);
    assert_eq!(block.size, 0);
    assert_eq!(voters.to_bools(), vec![false, false]);
    assert_eq!(state.latest_blocks().len(), 1);
    assert_eq!(state.latest_voters().len(), 1);
    assert_eq!(state.latest_voters().front().unwrap().to_bools(), vec![false, false]);
    assert_eq!(state.node_identity().len(), 2);
    assert_eq!(state.node_identity()[1].0, b"B".to_vec());
}

#[test]
fn block_detail_fields() {
    let leaf = Leaf {
        block_header: header(42, 1_700_000_000),
        block_payload: Some(Payload {
            transactions: vec![
                Transaction { namespace: 1, payload: vec![1, 2, 3] },
                Transaction { namespace: 2, payload: vec![4; 10] },
            ],
        }),
        justify_qc: QuorumCertificate { signatures: None },
    };
    let d = create_block_detail_from_leaf(&leaf);
    assert_eq!(d.hash, vec![0xab, 0xcd, 42]);
    assert_eq!(d.height, 42);
    assert_eq!(d.time, 1_700_000_000);
    assert_eq!(d.proposer_id, vec![7, 7]);
    assert_eq!(d.num_transactions, 2);
    assert_eq!(d.block_reward, vec![1_000u128]);
    assert_eq!(d.fee_recipient, vec![9, 8, 7]);
    assert_eq!(d.size, 13);
}

#[test]
fn block_time_falls_back_to_epoch() {
    let time_of = |ts: u64| {
        let mut leaf = genesis_leaf();
        leaf.block_header.timestamp = ts;
        create_block_detail_from_leaf(&leaf).time
    };
    assert_eq!(time_of(MAX_UNIX_SECONDS as u64), MAX_UNIX_SECONDS);
    assert_eq!(time_of(MAX_UNIX_SECONDS as u64 + 1), 0);
    assert_eq!(time_of(u64::MAX), 0);
    assert_eq!(time_of(i64::MAX as u64 + 1), 0);
    assert_eq!(time_of(12_345), 12_345);
    assert!(MIN_UNIX_SECONDS < 0);
}

#[test]
fn payload_size_sums_transactions() {
    assert_eq!(payload_size(&vec![]), 0);
    let txs = vec![
        Transaction { namespace: 0, payload: vec![0; 5] },
        Transaction { namespace: 0, payload: vec![] },
        Transaction { namespace: 3, payload: vec![0; 7] },
    ];
    assert_eq!(payload_size(&txs), 12);
}

#[test]
fn key_helpers() {
    assert!(keys_equal(&vec![1, 2], &vec![1, 2]));
    assert!(!keys_equal(&vec![1, 2], &vec![1, 3]));
    assert!(!keys_equal(&vec![1], &vec![1, 2]));
    let a = vec![1u8];
    let b = vec![2u8];
    let set = vec![&a, &b];
    assert!(contains_key(&set, &vec![2]));
    assert!(!contains_key(&set, &vec![3]));
}

#[test]
fn voter_bits_round_trip() {
    let bits = vec![true, false, false, true];
    let v = VoterBits::from_bools(&bits);
    assert_eq!(v.len(), 4);
    assert_eq!(v.to_bools(), bits);
}

#[test]
fn process_leaf_error_describes_cause() {
    let (mut sender, receiver) = mpsc::channel::<u8>(1);
    drop(receiver);
    let err = send_result(block_on(sender.send(1))).unwrap_err();
    assert_eq!(
        err.to_string(),
        "error sending block detail to sender: send failed because receiver is gone"
    );
    assert!(send_result(Ok(())).is_ok());
}
