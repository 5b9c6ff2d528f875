use consensus::adapter::OverlordAdapter;
use consensus::exec_result::default_resp;
use consensus::executor::{exec_params, metadata_call};
use consensus::fetch::{
    advance_fetch, compute_fetch, settle_fetch, FetchEvent, FetchRequest, FetchStep,
};
use consensus::save::{
    advance_save, compute_save, save_and_exec_block_with_proof, settle_save, SaveEvent,
    SaveRequest, SaveStep,
};
use consensus::{
    Aggregates, AuthConfig, Block, BlockHeader, BlockState, Bloom, Bytes, ChainCodec, ExecResp,
    ExecResult, ExecutorResp, FullBlock, Metadata, OverlordConfig, Pill, Proof, ProtoAddress,
    ProtoHash, ProtoProof, SelectMode, TimeConfig, Vote, WrappedPill,
};

/// A codec that answers as little as the flows need.
struct Small;

impl ChainCodec for Small {
    type Error = String;
    type Transaction = u32;
    type Receipt = u8;

    fn encode_pill(_pill: &Pill) -> Result<Bytes, String> {
        Err("unused".to_owned())
    }

    fn decode_pill(_data: &Bytes) -> Result<Pill, String> {
        Err("unused".to_owned())
    }

    fn encode_block(block: &Block) -> Result<Bytes, String> {
        if block.header.height == 404 {
            Err("block without encoding".to_owned())
        } else {
            Ok(vec![block.header.height as u8])
        }
    }

    fn encode_full_block(full_block: &FullBlock<u32>) -> Result<Bytes, String> {
        if full_block.ordered_txs.iter().any(|tx| *tx > 255) {
            return Err("transaction too large".to_owned());
        }
        let mut data = vec![full_block.block.header.height as u8];
        data.extend(full_block.ordered_txs.iter().map(|tx| *tx as u8));
        Ok(data)
    }

    fn decode_full_block(data: &Bytes) -> Result<FullBlock<u32>, String> {
        if data.is_empty() {
            return Err("empty full block".to_owned());
        }
        let mut block = blank_block(data[0] as u64);
        block.header.timestamp = 50;
        block.header.order_root = hash(&[0x0d]);
        block.ordered_tx_hashes = vec![hash(&[0x77])];
        Ok(FullBlock { block, ordered_txs: data[1..].iter().map(|b| *b as u32).collect() })
    }

    fn encode_hash(hash: &ProtoHash) -> Bytes {
        hash.bytes.clone()
    }

    fn encode_receipt(receipt: &u8) -> Bytes {
        vec![*receipt, *receipt]
    }

    fn digest(data: &Bytes) -> ProtoHash {
        let mut bytes = vec![0xd0];
        bytes.extend_from_slice(data);
        ProtoHash { bytes }
    }

    fn empty_hash() -> ProtoHash {
        hash(&[0xff])
    }

    fn hash_from_bytes(data: &Bytes) -> Result<ProtoHash, String> {
        if data.len() == 2 {
            Ok(ProtoHash { bytes: data.clone() })
        } else {
            Err("no hash".to_owned())
        }
    }

    fn merkle_root(leaves: &Vec<ProtoHash>) -> Option<ProtoHash> {
        if leaves.is_empty() {
            return None;
        }
        Some(ProtoHash { bytes: leaves.iter().flat_map(|leaf| leaf.bytes.clone()).collect() })
    }

    fn default_hash() -> ProtoHash {
        hash(&[0, 0])
    }

    fn default_bloom() -> Bloom {
        Bloom { bytes: vec![0] }
    }

    fn default_exec_result(state: ExecResp) -> ExecResult {
        ExecResult {
            consensus_config: OverlordConfig {
                max_exec_behind: 6,
                auth_config: AuthConfig {
                    common_ref: "default".to_owned(),
                    mode: SelectMode::InTurn,
                    auth_list: vec![],
                },
                time_config: TimeConfig {
                    interval: 1,
                    propose_ratio: 2,
                    pre_vote_ratio: 3,
                    pre_commit_ratio: 4,
                    brake_ratio: 5,
                },
            },
            block_states: BlockState { height: 8, state },
        }
    }
}

type Fetch = FetchStep<u32, String>;
type Save = SaveStep<u32, u8, String>;

fn hash(bytes: &[u8]) -> ProtoHash {
    ProtoHash { bytes: bytes.to_vec() }
}

/// A block of `height` with nothing else set.
fn blank_block(height: u64) -> Block {
    Block {
        header: BlockHeader {
            chain_id: hash(&[0]),
            height,
            exec_height: 0,
            pre_hash: hash(&[0]),
            timestamp: 0,
            logs_bloom: vec![],
            order_root: hash(&[0]),
            confirm_root: vec![],
            state_root: hash(&[0]),
            receipt_root: vec![],
            cycles_used: vec![],
            proposer: ProtoAddress { bytes: vec![0] },
            pre_proof: ProtoProof {
                height: 0,
                round: 0,
                block_hash: hash(&[0]),
                signature: vec![],
                bitmap: vec![],
            },
            validator_version: 0,
            validators: vec![],
        },
        ordered_tx_hashes: vec![],
    }
}

fn error<T>(text: &str) -> Result<T, String> {
    Err(text.to_owned())
}

fn adapter() -> OverlordAdapter {
    OverlordAdapter::new(hash(&[1]), ProtoAddress { bytes: vec![2] })
}

fn pill(height: u64) -> WrappedPill {
    let mut block = blank_block(height);
    block.ordered_tx_hashes = vec![hash(&[8])];
    WrappedPill(Pill { block, propose_hashes: vec![] })
}

fn compute_next_fetch(step: Fetch) -> Fetch {
    let event = compute_fetch::<Small>(&step).unwrap();
    step.next(event)
}

#[test]
fn transactions_of_others_are_ensured_first() {
    let step = adapter().fetch_full_block::<Small>(pill(3));
    assert_eq!(step, Fetch::EnsureOrderTxs(pill(3)));
    assert!(compute_fetch::<Small>(&step).is_none());
    let step = step.next(FetchEvent::OrderTxsEnsured(Ok(())));
    assert_eq!(step, Fetch::GetFullTxs(pill(3)));
    let step = step.next(FetchEvent::FullTxs(Ok(vec![5, 6])));
    assert_eq!(
        step,
        Fetch::Encode(FullBlock { block: pill(3).0.block, ordered_txs: vec![5, 6] })
    );
    let step = compute_next_fetch(step);
    assert_eq!(step, Fetch::Finished(vec![3, 5, 6]));
    let step = step.next(FetchEvent::OrderTxsEnsured(error("late")));
    assert_eq!(step, Fetch::Finished(vec![3, 5, 6]));
}

#[test]
fn own_transactions_are_not_ensured() {
    let mut node = adapter();
    node.status.from_myself.insert(vec![0xd0, 3]);
    let step = node.fetch_full_block::<Small>(pill(3));
    assert_eq!(step, Fetch::GetFullTxs(pill(3)));
    node.commit();
    let step = node.fetch_full_block::<Small>(pill(3));
    assert_eq!(step, Fetch::EnsureOrderTxs(pill(3)));
}

#[test]
fn fetching_stops_at_an_error() {
    let step = adapter().fetch_full_block::<Small>(pill(404));
    assert_eq!(step, Fetch::Failed("block without encoding".to_owned()));

    let step = adapter().fetch_full_block::<Small>(pill(3));
    let step = step.next(FetchEvent::OrderTxsEnsured(error("no peers")));
    assert_eq!(step, Fetch::Failed("no peers".to_owned()));
    let step = step.next(FetchEvent::OrderTxsEnsured(Ok(())));
    assert_eq!(step, Fetch::Failed("no peers".to_owned()));

    let step = Fetch::GetFullTxs(pill(3)).next(FetchEvent::FullTxs(error("gone")));
    assert_eq!(step, Fetch::Failed("gone".to_owned()));

    let full_block = FullBlock { block: pill(3).0.block, ordered_txs: vec![] };
    let step = Fetch::Encode(full_block).next(FetchEvent::Encoded(error("too large")));
    assert_eq!(step, Fetch::Failed("too large".to_owned()));
}

#[test]
fn answers_to_no_request_change_nothing() {
    let step = Fetch::EnsureOrderTxs(pill(3)).next(FetchEvent::FullTxs(Ok(vec![1])));
    assert_eq!(step, Fetch::EnsureOrderTxs(pill(3)));
    let step = started(10).next(SaveEvent::Flushed(Ok(())));
    assert_eq!(step, started(10));
}

fn quorum(block_hash: Bytes) -> Proof {
    Proof::new(Vote::new(10, 1, block_hash), Aggregates::new(vec![3], vec![4]))
}

fn started(height: u64) -> Save {
    let mut last_exec = default_resp::<Small>();
    last_exec.state_root = hash(&[0x5e]);
    last_exec.cycles_limit = 1;
    let mut last_commit = default_resp::<Small>();
    last_commit.state_root = hash(&[0x5c]);
    last_commit.cycles_limit = 900;
    save_and_exec_block_with_proof(height, vec![10, 21, 22], quorum(vec![7, 7]), last_exec, last_commit)
}

fn executed() -> ExecutorResp<u8> {
    ExecutorResp {
        receipts: vec![1, 2],
        all_cycles_used: 33,
        logs_bloom: Bloom { bytes: vec![0xb1] },
        state_root: hash(&[0x5f]),
    }
}

fn metadata() -> Metadata {
    Metadata {
        common_ref: "ref".to_owned(),
        cycles_limit: 1,
        interval: 2,
        verifier_list: vec![],
        propose_ratio: 3,
        prevote_ratio: 4,
        precommit_ratio: 5,
        brake_ratio: 6,
        tx_num_limit: 7,
        max_tx_size: 8,
    }
}

fn compute_next_save(step: Save) -> Save {
    let event = compute_save::<Small>(&step).unwrap();
    step.next(event)
}

/// The step after so many requests have been answered well.
fn advanced(answered: usize) -> Save {
    let mut step = started(10);
    for i in 0..answered {
        step = match i {
            0 => step.next(SaveEvent::LatestHeight(Ok(9))),
            1 | 4 | 6 => compute_next_save(step),
            2 => step.next(SaveEvent::Executed(Ok(executed()))),
            3 => step.next(SaveEvent::MetadataRead(Ok(metadata()))),
            5 => step.next(SaveEvent::ReceiptsInserted(Ok(()))),
            7 => step.next(SaveEvent::ProofUpdated(Ok(()))),
            8 => step.next(SaveEvent::BlockInserted(Ok(()))),
            9 => step.next(SaveEvent::TransactionsInserted(Ok(()))),
            _ => step.next(SaveEvent::Flushed(Ok(()))),
        };
    }
    step
}

#[test]
fn a_block_is_executed_and_saved() {
    match advanced(2) {
        Save::Exec(order) => {
            let params = order.exec_params();
            assert_eq!(params.state_root, hash(&[0x5e]));
            assert_eq!(params.height, 10);
            assert_eq!(params.timestamp, 50);
            assert_eq!(params.cycles_limit, 900);
            assert_eq!(order.full_block.ordered_txs, vec![21, 22]);
        }
        other => panic!("{:?}", other),
    }
    match advanced(3) {
        Save::ReadMetadata(order, resp) => {
            let call = order.metadata_call(&resp);
            assert_eq!(call.params.state_root, hash(&[0x5f]));
            assert_eq!(call.params.height, 10);
            assert_eq!(call.params.timestamp, 50);
            assert_eq!(call.params.cycles_limit, u64::MAX);
        }
        other => panic!("{:?}", other),
    }
    match advanced(5) {
        Save::InsertReceipts(done, proof) => {
            assert_eq!(done.resp.receipts, vec![1, 2]);
            assert_eq!(done.receipt_root, hash(&[0xd0, 1, 1, 0xd0, 2, 2]));
            assert_eq!(proof, quorum(vec![7, 7]));
        }
        other => panic!("{:?}", other),
    }
    match advanced(7) {
        Save::UpdateLatestProof(_, stored) => {
            assert_eq!(stored.height, 10);
            assert_eq!(stored.round, 1);
            assert_eq!(stored.block_hash, hash(&[7, 7]));
            assert_eq!(stored.signature, vec![4]);
            assert_eq!(stored.bitmap, vec![3]);
        }
        other => panic!("{:?}", other),
    }
    assert!(matches!(advanced(8), Save::InsertBlock(_)));
    assert!(matches!(advanced(9), Save::InsertTransactions(_)));
    match advanced(10) {
        Save::Flush(done) => {
            assert_eq!(done.full_block.block.ordered_tx_hashes, vec![hash(&[0x77])]);
        }
        other => panic!("{:?}", other),
    }
    match advanced(11) {
        Save::Finished(done) => {
            let result = done.exec_result();
            assert_eq!(result.block_states.height, 10);
            assert_eq!(result.block_states.state.state_root, hash(&[0x5e]));
            assert_eq!(result.block_states.state.order_root, hash(&[0x0d]));
            assert_eq!(
                result.block_states.state.receipt_root,
                hash(&[0xd0, 1, 1, 0xd0, 2, 2])
            );
            assert_eq!(result.block_states.state.cycles_used, 33);
            assert_eq!(result.block_states.state.logs_bloom, Bloom { bytes: vec![0xb1] });
            assert_eq!(result.block_states.state.cycles_limit, 1);
            assert_eq!(result.consensus_config.time_config.interval, 2);
        }
        other => panic!("{:?}", other),
    }
}

#[test]
fn the_next_header_confirms_a_saved_block() {
    let result = match advanced(11) {
        Save::Finished(done) => done.exec_result(),
        other => panic!("{:?}", other),
    };
    let pill = adapter()
        .create_block::<Small>(
            11,
            10,
            60,
            vec![7, 7],
            quorum(vec![7, 7]),
            vec![],
            vec![],
            vec![result.block_states],
            default_resp::<Small>(),
        )
        .unwrap();
    let header = &pill.0.block.header;
    assert_eq!(header.confirm_root, vec![hash(&[0x0d])]);
    assert_eq!(header.receipt_root, vec![hash(&[0xd0, 1, 1, 0xd0, 2, 2])]);
    assert_eq!(header.logs_bloom, vec![Bloom { bytes: vec![0xb1] }]);
    assert_eq!(header.cycles_used, vec![33]);
    assert_eq!(header.state_root, hash(&[0x5e]));
}

#[test]
fn a_block_without_receipts_has_the_empty_receipt_root() {
    let mut resp = executed();
    resp.receipts.clear();
    let step = advanced(2).next(SaveEvent::Executed(Ok(resp)));
    let step = step.next(SaveEvent::MetadataRead(Ok(metadata())));
    match compute_next_save(step) {
        Save::InsertReceipts(done, _) => assert_eq!(done.receipt_root, hash(&[0xff])),
        other => panic!("{:?}", other),
    }
}

#[test]
fn only_the_block_after_the_latest_is_saved() {
    assert_eq!(
        started(10).next(SaveEvent::LatestHeight(Ok(10))),
        Save::WrongHeight { latest_height: 10, height: 10 }
    );
    assert_eq!(
        started(10).next(SaveEvent::LatestHeight(Ok(8))),
        Save::WrongHeight { latest_height: 8, height: 10 }
    );
    assert_eq!(
        started(0).next(SaveEvent::LatestHeight(Ok(u64::MAX))),
        Save::WrongHeight { latest_height: u64::MAX, height: 0 }
    );
    let step = Save::WrongHeight { latest_height: 8, height: 10 };
    assert_eq!(
        step.next(SaveEvent::LatestHeight(Ok(9))),
        Save::WrongHeight { latest_height: 8, height: 10 }
    );
}

#[test]
fn saving_stops_at_an_error() {
    let failed = |text: &str| Save::Failed(text.to_owned());
    assert_eq!(advanced(0).next(SaveEvent::LatestHeight(error("a"))), failed("a"));
    assert_eq!(advanced(1).next(SaveEvent::Decoded(error("b"))), failed("b"));
    assert_eq!(advanced(2).next(SaveEvent::Executed(error("c"))), failed("c"));
    assert_eq!(advanced(3).next(SaveEvent::MetadataRead(error("d"))), failed("d"));
    assert_eq!(advanced(5).next(SaveEvent::ReceiptsInserted(error("e"))), failed("e"));
    assert_eq!(advanced(6).next(SaveEvent::ProofHashRead(error("f"))), failed("f"));
    assert_eq!(advanced(7).next(SaveEvent::ProofUpdated(error("g"))), failed("g"));
    assert_eq!(advanced(8).next(SaveEvent::BlockInserted(error("h"))), failed("h"));
    assert_eq!(advanced(9).next(SaveEvent::TransactionsInserted(error("i"))), failed("i"));
    assert_eq!(advanced(10).next(SaveEvent::Flushed(error("j"))), failed("j"));
    assert_eq!(failed("k").next(SaveEvent::LatestHeight(Ok(9))), failed("k"));
}

#[test]
fn a_proof_without_hash_is_found_after_the_receipts() {
    let step: Save = save_and_exec_block_with_proof(
        10,
        vec![10],
        quorum(vec![7]),
        default_resp::<Small>(),
        default_resp::<Small>(),
    );
    let step = compute_next_save(step.next(SaveEvent::LatestHeight(Ok(9))));
    let step = step.next(SaveEvent::Executed(Ok(executed())));
    let step = compute_next_save(step.next(SaveEvent::MetadataRead(Ok(metadata()))));
    let step = step.next(SaveEvent::ReceiptsInserted(Ok(())));
    assert_eq!(compute_next_save(step), Save::Failed("no hash".to_owned()));
}

#[test]
fn an_empty_full_block_cannot_be_decoded() {
    let step: Save = save_and_exec_block_with_proof(
        10,
        vec![],
        quorum(vec![7, 7]),
        default_resp::<Small>(),
        default_resp::<Small>(),
    );
    let step = step.next(SaveEvent::LatestHeight(Ok(9)));
    assert_eq!(compute_next_save(step), Save::Failed("empty full block".to_owned()));
}

#[test]
fn requests_to_services_are_not_computed() {
    for answered in [0, 2, 3, 5, 7, 8, 9, 10, 11] {
        assert!(compute_save::<Small>(&advanced(answered)).is_none());
    }
}

#[test]
fn the_metadata_is_read_without_a_limit() {
    let call = metadata_call(&hash(&[1]), 4, 5);
    assert_eq!(call.params, {
        let mut params = exec_params(&hash(&[1]), 4, 5, 0);
        params.cycles_limit = u64::MAX;
        params
    });
    assert_eq!(call.caller, "0x0000000000000000000000000000000000000000");
    assert_eq!(call.cycles_price, 1);
    assert_eq!(call.request.service_name, "metadata");
    assert_eq!(call.request.method, "get_metadata");
    assert_eq!(call.request.payload, "");
}

#[test]
fn the_pool_is_asked_for_the_transactions_of_the_block() {
    let hashes = vec![hash(&[8])];
    assert_eq!(
        Fetch::EnsureOrderTxs(pill(3)).request(),
        Some(FetchRequest::EnsureOrderTxs(&hashes))
    );
    assert_eq!(Fetch::GetFullTxs(pill(3)).request(), Some(FetchRequest::GetFullTxs(&hashes)));
    assert_eq!(Fetch::Finished(vec![]).request(), None);
    assert_eq!(Fetch::Failed(String::new()).request(), None);
    let full_block = FullBlock { block: pill(3).0.block, ordered_txs: vec![] };
    assert_eq!(Fetch::Encode(full_block).request(), None);
}

#[test]
fn fetching_runs_on_answers_of_the_pool_alone() {
    let step = adapter().fetch_full_block::<Small>(pill(3));
    let step = advance_fetch::<Small>(step, FetchEvent::OrderTxsEnsured(Ok(())));
    assert_eq!(step, Fetch::GetFullTxs(pill(3)));
    let step = advance_fetch::<Small>(step, FetchEvent::FullTxs(Ok(vec![5, 6])));
    assert_eq!(step, Fetch::Finished(vec![3, 5, 6]));
    assert_eq!(settle_fetch::<Small>(step), Fetch::Finished(vec![3, 5, 6]));
}

#[test]
fn created_blocks_are_fetched_at_once_until_the_commit() {
    let mut node = adapter();
    let created = node
        .create_block::<Small>(
            3,
            2,
            0,
            vec![7, 7],
            quorum(vec![7, 7]),
            vec![hash(&[8])],
            vec![],
            vec![],
            default_resp::<Small>(),
        )
        .unwrap();
    node.create_block::<Small>(
        4,
        3,
        0,
        vec![7, 7],
        quorum(vec![7, 7]),
        vec![],
        vec![],
        vec![],
        default_resp::<Small>(),
    )
    .unwrap();
    assert_eq!(
        node.fetch_full_block::<Small>(created.clone()),
        Fetch::GetFullTxs(created.clone())
    );
    node.commit();
    assert_eq!(
        node.fetch_full_block::<Small>(created.clone()),
        Fetch::EnsureOrderTxs(created)
    );
}

#[test]
fn proposals_for_later_do_not_enter_hash_or_fetching() {
    let mut other = pill(3);
    other.0.propose_hashes = vec![hash(&[1])];
    assert_eq!(pill(3).get_block_hash::<Small>(), other.get_block_hash::<Small>());
    let left = Fetch::GetFullTxs(pill(3)).next(FetchEvent::FullTxs(Ok(vec![5])));
    let right = Fetch::GetFullTxs(other).next(FetchEvent::FullTxs(Ok(vec![5])));
    assert_eq!(left, right);

    let mut other = pill(404);
    other.0.propose_hashes = vec![hash(&[1])];
    let left = adapter().fetch_full_block::<Small>(pill(404));
    assert_eq!(left, Fetch::Failed("block without encoding".to_owned()));
    assert_eq!(adapter().fetch_full_block::<Small>(other), left);
}

#[test]
fn services_are_asked_for_what_was_ordered() {
    assert_eq!(advanced(0).request(), Some(SaveRequest::GetLatestBlock));
    assert_eq!(
        advanced(2).request(),
        Some(SaveRequest::Exec(exec_params(&hash(&[0x5e]), 10, 50, 900), &vec![21, 22]))
    );
    assert_eq!(
        advanced(3).request(),
        Some(SaveRequest::ReadMetadata(metadata_call(&hash(&[0x5f]), 10, 50)))
    );
    assert_eq!(advanced(5).request(), Some(SaveRequest::InsertReceipts(&vec![1, 2])));
    match advanced(7).request() {
        Some(SaveRequest::UpdateLatestProof(stored)) => {
            assert_eq!(stored.block_hash, hash(&[7, 7]))
        }
        other => panic!("{:?}", other),
    }
    match advanced(8).request() {
        Some(SaveRequest::InsertBlock(block)) => {
            assert_eq!(*block, Small::decode_full_block(&vec![10]).unwrap().block)
        }
        other => panic!("{:?}", other),
    }
    assert_eq!(advanced(9).request(), Some(SaveRequest::InsertTransactions(&vec![21, 22])));
    assert_eq!(advanced(10).request(), Some(SaveRequest::Flush(&vec![hash(&[0x77])])));
    for answered in [1, 4, 6, 11] {
        assert_eq!(advanced(answered).request(), None);
    }
    assert_eq!(Save::Failed(String::new()).request(), None);
    assert_eq!(Save::WrongHeight { latest_height: 1, height: 1 }.request(), None);
}

#[test]
fn saving_runs_on_answers_of_the_services_alone() {
    let step = advance_save::<Small>(started(10), SaveEvent::LatestHeight(Ok(9)));
    assert_eq!(step, advanced(2));
    let step = advance_save::<Small>(step, SaveEvent::Executed(Ok(executed())));
    assert_eq!(step, advanced(3));
    let step = advance_save::<Small>(step, SaveEvent::MetadataRead(Ok(metadata())));
    assert_eq!(step, advanced(5));
    let step = advance_save::<Small>(step, SaveEvent::ReceiptsInserted(Ok(())));
    assert_eq!(step, advanced(7));
    let step = advance_save::<Small>(step, SaveEvent::ProofUpdated(Ok(())));
    let step = advance_save::<Small>(step, SaveEvent::BlockInserted(Ok(())));
    let step = advance_save::<Small>(step, SaveEvent::TransactionsInserted(Ok(())));
    let step = advance_save::<Small>(step, SaveEvent::Flushed(Ok(())));
    assert_eq!(step, advanced(11));
    assert_eq!(settle_save::<Small>(step), advanced(11));
    assert_eq!(
        advance_save::<Small>(started(10), SaveEvent::LatestHeight(Ok(3))),
        Save::WrongHeight { latest_height: 3, height: 10 }
    );
}

#[test]
fn runs_fail_with_what_was_reported_or_computed() {
    let step: Save = save_and_exec_block_with_proof(
        10,
        vec![],
        quorum(vec![7]),
        default_resp::<Small>(),
        default_resp::<Small>(),
    );
    assert_eq!(
        advance_save::<Small>(step, SaveEvent::LatestHeight(Ok(9))),
        Save::Failed("empty full block".to_owned())
    );
    let step: Save = save_and_exec_block_with_proof(
        10,
        vec![10],
        quorum(vec![7]),
        default_resp::<Small>(),
        default_resp::<Small>(),
    );
    let step = advance_save::<Small>(step, SaveEvent::LatestHeight(Ok(9)));
    let step = advance_save::<Small>(step, SaveEvent::Executed(Ok(executed())));
    let step = advance_save::<Small>(step, SaveEvent::MetadataRead(Ok(metadata())));
    assert_eq!(
        advance_save::<Small>(step, SaveEvent::ReceiptsInserted(Ok(()))),
        Save::Failed("no hash".to_owned())
    );
    assert_eq!(
        advance_save::<Small>(advanced(10), SaveEvent::Flushed(error("pool is down"))),
        Save::Failed("pool is down".to_owned())
    );

    assert_eq!(
        advance_fetch::<Small>(Fetch::GetFullTxs(pill(3)), FetchEvent::FullTxs(error("gone"))),
        Fetch::Failed("gone".to_owned())
    );
    assert_eq!(
        advance_fetch::<Small>(Fetch::GetFullTxs(pill(3)), FetchEvent::FullTxs(Ok(vec![256]))),
        Fetch::Failed("transaction too large".to_owned())
    );
}
