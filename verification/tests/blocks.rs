use consensus::adapter::OverlordAdapter;
use consensus::order::height_order;
use consensus::{
    create_exec_result, into_proof, into_proto_proof, to_overlord_auth_list, to_validator_list,
    AdapterError, Aggregates, AuthConfig, Block, BlockHashSet, BlockHeader, BlockState, Bloom,
    Bytes, ChainCodec, ConsensusError, ExecResp, ExecResult, FullBlock, Metadata, OverlordConfig,
    Pill, Proof, ProtoAddress, ProtoHash, ProtoProof, SelectMode, TimeConfig, Validator,
    ValidatorExtend, Vote, WrappedPill,
};

/// A codec whose hashes are readable: a digest is its input behind a mark.
struct Plain;

const HASH_LEN: usize = 3;

impl ChainCodec for Plain {
    type Error = &'static str;
    type Transaction = u32;
    type Receipt = u8;

    fn encode_pill(pill: &Pill) -> Result<Bytes, Self::Error> {
        let mut data = Self::encode_block(&pill.block)?;
        data.push(pill.propose_hashes.len() as u8);
        Ok(data)
    }

    fn decode_pill(data: &Bytes) -> Result<Pill, Self::Error> {
        if data.is_empty() {
            return Err("empty pill");
        }
        Ok(Pill { block: blank_block(data[0] as u64), propose_hashes: vec![] })
    }

    fn encode_block(block: &Block) -> Result<Bytes, Self::Error> {
        if block.header.height == 404 {
            return Err("block without encoding");
        }
        Ok(vec![
            block.header.height as u8,
            block.ordered_tx_hashes.len() as u8,
            block.header.timestamp as u8,
        ])
    }

    fn encode_full_block(full_block: &FullBlock<u32>) -> Result<Bytes, Self::Error> {
        Ok(vec![full_block.ordered_txs.len() as u8])
    }

    fn decode_full_block(_data: &Bytes) -> Result<FullBlock<u32>, Self::Error> {
        Err("unused")
    }

    fn encode_hash(hash: &ProtoHash) -> Bytes {
        let mut data = vec![0xe0];
        data.extend_from_slice(&hash.bytes);
        data
    }

    fn encode_receipt(receipt: &u8) -> Bytes {
        vec![*receipt]
    }

    fn digest(data: &Bytes) -> ProtoHash {
        let mut bytes = vec![0xd0];
        bytes.extend_from_slice(data);
        ProtoHash { bytes }
    }

    fn empty_hash() -> ProtoHash {
        hash(&[0xff])
    }

    fn hash_from_bytes(data: &Bytes) -> Result<ProtoHash, Self::Error> {
        if data.len() == HASH_LEN {
            Ok(ProtoHash { bytes: data.clone() })
        } else {
            Err("no hash")
        }
    }

    fn merkle_root(leaves: &Vec<ProtoHash>) -> Option<ProtoHash> {
        if leaves.is_empty() {
            return None;
        }
        let mut bytes = vec![0xa0];
        for leaf in leaves {
            bytes.extend_from_slice(&leaf.bytes);
        }
        Some(ProtoHash { bytes })
    }

    fn default_hash() -> ProtoHash {
        hash(&[0, 0, 0])
    }

    fn default_bloom() -> Bloom {
        bloom(&[0, 0])
    }

    fn default_exec_result(state: ExecResp) -> ExecResult {
        ExecResult {
            consensus_config: OverlordConfig {
                max_exec_behind: 6,
                auth_config: AuthConfig {
                    common_ref: "default".to_owned(),
                    mode: SelectMode::InTurn,
                    auth_list: vec![],
                },
                time_config: TimeConfig {
                    interval: 1,
                    propose_ratio: 2,
                    pre_vote_ratio: 3,
                    pre_commit_ratio: 4,
                    brake_ratio: 5,
                },
            },
            block_states: BlockState { height: 8, state },
        }
    }
}

/// A block of `height` with nothing else set.
fn blank_block(height: u64) -> Block {
    Block {
        header: BlockHeader {
            chain_id: hash(&[0]),
            height,
            exec_height: 0,
            pre_hash: hash(&[0]),
            timestamp: 0,
            logs_bloom: vec![],
            order_root: hash(&[0]),
            confirm_root: vec![],
            state_root: hash(&[0]),
            receipt_root: vec![],
            cycles_used: vec![],
            proposer: ProtoAddress { bytes: vec![0] },
            pre_proof: ProtoProof {
                height: 0,
                round: 0,
                block_hash: hash(&[0]),
                signature: vec![],
                bitmap: vec![],
            },
            validator_version: 0,
            validators: vec![],
        },
        ordered_tx_hashes: vec![],
    }
}

fn hash(bytes: &[u8]) -> ProtoHash {
    ProtoHash { bytes: bytes.to_vec() }
}

fn bloom(bytes: &[u8]) -> Bloom {
    Bloom { bytes: bytes.to_vec() }
}

fn address(bytes: &[u8]) -> ProtoAddress {
    ProtoAddress { bytes: bytes.to_vec() }
}

fn validator(tag: u8) -> Validator {
    Validator { address: address(&[tag]), propose_weight: 1, vote_weight: 2 }
}

fn resp(tag: u8) -> ExecResp {
    ExecResp {
        order_root: hash(&[tag, 1]),
        state_root: hash(&[tag, 2]),
        receipt_root: hash(&[tag, 3]),
        cycles_used: tag as u64 * 10,
        logs_bloom: bloom(&[tag, 4]),
        cycles_limit: 99,
        tx_num_limit: 20,
        max_tx_size: 1024,
        validators: vec![validator(7), validator(8)],
    }
}

fn state(height: u64, tag: u8) -> BlockState {
    BlockState { height, state: resp(tag) }
}

fn adapter() -> OverlordAdapter {
    OverlordAdapter::new(hash(&[1, 1, 1]), address(&[2, 2]))
}

fn quorum() -> Proof {
    Proof::new(
        Vote::new(9, 3, vec![5, 5, 5]),
        Aggregates::new(vec![0b101], vec![6, 6]),
    )
}

fn stored_quorum() -> ProtoProof {
    ProtoProof {
        height: 9,
        round: 3,
        block_hash: hash(&[5, 5, 5]),
        signature: vec![6, 6],
        bitmap: vec![0b101],
    }
}

/// A pill that `adapter()` proposes over the outcomes of heights 8 and 9, without transactions.
fn proposed(node: &mut OverlordAdapter) -> WrappedPill {
    node.create_block::<Plain>(
        10,
        9,
        77,
        vec![4, 4, 4],
        quorum(),
        vec![],
        vec![hash(&[3, 3, 3])],
        vec![state(9, 9), state(8, 8)],
        resp(7),
    )
    .unwrap()
}

fn outcomes() -> Vec<BlockState> {
    vec![state(9, 9), state(8, 8)]
}

fn verdict(pill: &WrappedPill) -> Result<(), AdapterError<&'static str>> {
    adapter().check_block::<Plain>(pill, &outcomes(), &resp(7))
}

fn refused(reason: &str) -> Result<(), AdapterError<&'static str>> {
    Err(AdapterError::Consensus(ConsensusError::CheckBlock(reason.to_owned())))
}

#[test]
fn created_header_says_what_is_known() {
    let pill = proposed(&mut adapter());
    let header = &pill.0.block.header;
    assert_eq!(header.chain_id, hash(&[1, 1, 1]));
    assert_eq!(header.height, 10);
    assert_eq!(header.exec_height, 9);
    assert_eq!(header.timestamp, 77);
    assert_eq!(header.pre_hash, hash(&[4, 4, 4]));
    assert_eq!(header.pre_proof, stored_quorum());
    assert_eq!(header.order_root, hash(&[0xff]));
    assert_eq!(header.logs_bloom, vec![bloom(&[8, 4]), bloom(&[9, 4])]);
    assert_eq!(header.confirm_root, vec![hash(&[8, 1]), hash(&[9, 1])]);
    assert_eq!(header.receipt_root, vec![hash(&[8, 3]), hash(&[9, 3])]);
    assert_eq!(header.cycles_used, vec![80, 90]);
    assert_eq!(header.state_root, hash(&[9, 2]));
    assert_eq!(header.proposer, address(&[2, 2]));
    assert_eq!(header.validator_version, 0);
    assert_eq!(header.validators, vec![validator(7), validator(8)]);
    assert_eq!(pill.0.propose_hashes, vec![hash(&[3, 3, 3])]);
}

#[test]
fn created_header_without_outcomes_takes_the_last_commit() {
    let pill = adapter()
        .create_block::<Plain>(1, 0, 0, vec![4, 4, 4], quorum(), vec![], vec![], vec![], resp(7))
        .unwrap();
    let header = &pill.0.block.header;
    assert_eq!(header.state_root, hash(&[7, 2]));
    assert!(header.logs_bloom.is_empty());
    assert!(header.confirm_root.is_empty());
    assert!(header.receipt_root.is_empty());
    assert!(header.cycles_used.is_empty());
}

#[test]
fn created_order_root_is_over_the_hashes_themselves() {
    let txs = vec![hash(&[1, 2]), hash(&[3])];
    let pill = adapter()
        .create_block::<Plain>(1, 0, 0, vec![4, 4, 4], quorum(), txs.clone(), vec![], vec![], resp(7))
        .unwrap();
    assert_eq!(pill.0.block.header.order_root, hash(&[0xa0, 1, 2, 3]));
    assert_eq!(pill.0.block.ordered_tx_hashes, txs);
}

#[test]
fn expected_order_root_is_over_the_digests_of_encodings() {
    let node = adapter();
    let mut pill = proposed(&mut adapter());
    pill.0.block.ordered_tx_hashes = vec![hash(&[1, 2]), hash(&[3])];
    pill.0.block.header.order_root = hash(&[0xa0, 1, 2, 3]);
    assert_eq!(
        node.check_block::<Plain>(&pill, &outcomes(), &resp(7)),
        refused("block.order_root != expect.order_root")
    );
    pill.0.block.header.order_root = hash(&[0xa0, 0xd0, 0xe0, 1, 2, 0xd0, 0xe0, 3]);
    assert_eq!(node.check_block::<Plain>(&pill, &outcomes(), &resp(7)), Ok(()));
}

#[test]
fn a_parent_that_is_no_hash_stops_the_creation() {
    let mut node = adapter();
    let bad = Proof::new(Vote::new(0, 0, vec![]), Aggregates::new(vec![], vec![]));
    let created =
        node.create_block::<Plain>(404, 0, 0, vec![4], bad, vec![], vec![], vec![], resp(7));
    assert_eq!(created, Err("no hash"));
    assert!(!node.status.from_myself.contains(&vec![0xd0, 148, 0, 0]));
}

#[test]
fn a_proof_without_hash_stops_the_creation() {
    let bad = Proof::new(Vote::new(0, 0, vec![1]), Aggregates::new(vec![], vec![]));
    let created =
        adapter().create_block::<Plain>(404, 0, 0, vec![4, 4, 4], bad, vec![], vec![], vec![], resp(7));
    assert_eq!(created, Err("no hash"));
}

#[test]
fn a_block_without_encoding_is_neither_created_nor_checked() {
    let mut node = adapter();
    let created =
        node.create_block::<Plain>(404, 0, 0, vec![4, 4, 4], quorum(), vec![], vec![], vec![], resp(7));
    assert_eq!(created, Err("block without encoding"));

    let mut pill = proposed(&mut adapter());
    pill.0.block.header.height = 404;
    assert_eq!(verdict(&pill), Err(AdapterError::Protocol("block without encoding")));
}

#[test]
fn a_proposed_block_passes_elsewhere() {
    let pill = proposed(&mut adapter());
    assert_eq!(verdict(&pill), Ok(()));
}

#[test]
fn outcomes_may_arrive_in_any_order() {
    let pill = proposed(&mut adapter());
    let shuffled = vec![state(8, 8), state(9, 9)];
    assert_eq!(adapter().check_block::<Plain>(&pill, &shuffled, &resp(7)), Ok(()));
}

#[test]
fn outcomes_of_one_height_keep_their_order() {
    let states = vec![state(5, 1), state(4, 2), state(5, 3), state(4, 4), state(3, 5)];
    assert_eq!(height_order(&states), vec![4, 1, 3, 0, 2]);
    assert_eq!(height_order(&[]), Vec::<usize>::new());

    let pill = adapter()
        .create_block::<Plain>(6, 5, 0, vec![4, 4, 4], quorum(), vec![], vec![], states, resp(7))
        .unwrap();
    assert_eq!(pill.0.block.header.cycles_used, vec![50, 20, 40, 10, 30]);
    assert_eq!(pill.0.block.header.state_root, hash(&[3, 2]));
}

#[test]
fn own_blocks_pass_unseen_until_the_commit() {
    let mut node = adapter();
    let mut pill = proposed(&mut node);
    pill.0.block.header.chain_id = hash(&[9]);
    assert_eq!(node.check_block::<Plain>(&pill, &[], &resp(1)), Ok(()));
    node.commit();
    assert_eq!(
        node.check_block::<Plain>(&pill, &outcomes(), &resp(7)),
        refused("block.chain_id != self.chain_id")
    );
}

#[test]
fn a_second_proposal_keeps_the_first() {
    let mut node = adapter();
    let first = proposed(&mut node);
    node.create_block::<Plain>(11, 9, 0, vec![4, 4, 4], quorum(), vec![], vec![], vec![], resp(7))
        .unwrap();
    assert_eq!(node.check_block::<Plain>(&first, &[], &resp(1)), Ok(()));
}

#[test]
fn another_order_root_is_refused() {
    let mut pill = proposed(&mut adapter());
    pill.0.block.header.order_root = hash(&[0]);
    assert_eq!(verdict(&pill), refused("block.order_root != expect.order_root"));
}

#[test]
fn another_chain_is_refused() {
    let mut pill = proposed(&mut adapter());
    pill.0.block.header.chain_id = hash(&[1, 1]);
    assert_eq!(verdict(&pill), refused("block.chain_id != self.chain_id"));
}

#[test]
fn another_state_root_is_refused() {
    let mut pill = proposed(&mut adapter());
    pill.0.block.header.state_root = hash(&[8, 2]);
    assert_eq!(verdict(&pill), refused("block.state_root != expect.state_root"));
}

#[test]
fn other_validators_are_refused() {
    let mut pill = proposed(&mut adapter());
    pill.0.block.header.validators[1].vote_weight = 3;
    assert_eq!(verdict(&pill), refused("block.validators != expect.validators"));
    pill.0.block.header.validators.pop();
    assert_eq!(verdict(&pill), refused("block.validators != expect.validators"));
}

#[test]
fn validators_of_the_last_outcome_are_expected() {
    let mut changed = outcomes();
    changed[0].state.validators = vec![validator(7)];
    let pill = proposed(&mut adapter());
    assert_eq!(
        adapter().check_block::<Plain>(&pill, &changed, &resp(7)),
        refused("block.validators != expect.validators")
    );
}

#[test]
fn another_log_filter_is_refused() {
    let mut pill = proposed(&mut adapter());
    pill.0.block.header.logs_bloom.swap(0, 1);
    assert_eq!(verdict(&pill), refused("block.log_bloom != expect.log_bloom"));
    pill.0.block.header.logs_bloom.pop();
    assert_eq!(verdict(&pill), refused("block.log_bloom != expect.log_bloom"));
}

#[test]
fn another_receipt_root_is_refused() {
    let mut pill = proposed(&mut adapter());
    pill.0.block.header.receipt_root[1] = hash(&[0]);
    assert_eq!(verdict(&pill), refused("block.receipt_root != expect.receipt_root"));
    pill.0.block.header.receipt_root.clear();
    assert_eq!(verdict(&pill), refused("block.receipt_root != expect.receipt_root"));
}

#[test]
fn other_cycles_are_refused() {
    let mut pill = proposed(&mut adapter());
    pill.0.block.header.cycles_used[0] = 81;
    assert_eq!(verdict(&pill), refused("block.cycles_used != expect.cycles_used"));
    pill.0.block.header.cycles_used = vec![80, 90, 100];
    assert_eq!(verdict(&pill), refused("block.cycles_used != expect.cycles_used"));
}

#[test]
fn another_confirm_root_is_refused() {
    let mut pill = proposed(&mut adapter());
    pill.0.block.header.confirm_root[0] = hash(&[0]);
    assert_eq!(verdict(&pill), refused("block.confirm_root != expect.confirm_root"));
    pill.0.block.header.confirm_root.push(hash(&[0]));
    assert_eq!(verdict(&pill), refused("block.confirm_root != expect.confirm_root"));
}

#[test]
fn the_first_difference_is_the_reason() {
    let mut pill = proposed(&mut adapter());
    pill.0.block.header.confirm_root.clear();
    pill.0.block.header.cycles_used.clear();
    assert_eq!(verdict(&pill), refused("block.cycles_used != expect.cycles_used"));
    pill.0.block.header.state_root = hash(&[0]);
    assert_eq!(verdict(&pill), refused("block.state_root != expect.state_root"));
}

#[test]
fn fields_that_are_not_compared_do_not_decide() {
    let mut pill = proposed(&mut adapter());
    pill.0.block.header.height = 3;
    pill.0.block.header.exec_height = 3;
    pill.0.block.header.pre_hash = hash(&[]);
    pill.0.block.header.timestamp = 3;
    pill.0.block.header.proposer = address(&[]);
    pill.0.block.header.pre_proof = blank_block(0).header.pre_proof;
    pill.0.block.header.validator_version = 3;
    pill.0.propose_hashes.clear();
    assert_eq!(verdict(&pill), Ok(()));
}

#[test]
fn errors_read_as_text() {
    let error = ConsensusError::CheckBlock("block.chain_id != self.chain_id".to_owned());
    assert_eq!(error.display(), "check block failed, block.chain_id != self.chain_id");
}

#[test]
fn proofs_go_to_the_engine_and_back() {
    assert_eq!(into_proof(stored_quorum()), quorum());
    assert_eq!(into_proto_proof::<Plain>(quorum()), Ok(stored_quorum()));
    let bad = Proof::new(Vote::new(1, 1, vec![1]), Aggregates::new(vec![], vec![]));
    assert_eq!(into_proto_proof::<Plain>(bad), Err("no hash"));
}

#[test]
fn pills_tell_what_they_hold() {
    let pill = proposed(&mut adapter());
    assert_eq!(pill.get_height(), 10);
    assert_eq!(pill.get_exec_height(), 9);
    assert_eq!(pill.get_pre_hash(), vec![4, 4, 4]);
    assert_eq!(pill.get_proof(), quorum());
    assert_eq!(pill.get_block_hash::<Plain>(), Ok(vec![0xd0, 10, 0, 77]));
    assert_eq!(pill.fixed_encode::<Plain>(), Ok(vec![10, 0, 77, 1]));
    let decoded = WrappedPill::fixed_decode::<Plain>(&vec![12]).unwrap();
    assert_eq!(decoded.get_height(), 12);
    assert_eq!(WrappedPill::fixed_decode::<Plain>(&vec![]), Err("empty pill"));
}

fn verifiers() -> Vec<ValidatorExtend> {
    vec![
        ValidatorExtend {
            bls_pub_key: "0xaa".to_owned(),
            address: address(&[1]),
            propose_weight: 1,
            vote_weight: 2,
        },
        ValidatorExtend {
            bls_pub_key: "0xbb".to_owned(),
            address: address(&[2]),
            propose_weight: 3,
            vote_weight: 4,
        },
    ]
}

#[test]
fn authorities_and_validators_are_the_verifiers() {
    let nodes = to_overlord_auth_list(&verifiers());
    let list = to_validator_list(&verifiers());
    assert_eq!(nodes.len(), 2);
    assert_eq!(nodes[1].address, vec![2]);
    assert_eq!(nodes[1].party_pub_key, "0xbb");
    assert_eq!((nodes[1].propose_weight, nodes[1].vote_weight), (3, 4));
    assert_eq!(
        list,
        vec![
            Validator { address: address(&[1]), propose_weight: 1, vote_weight: 2 },
            Validator { address: address(&[2]), propose_weight: 3, vote_weight: 4 },
        ]
    );
}

#[test]
fn results_carry_the_configuration_and_the_outcome() {
    let metadata = Metadata {
        common_ref: "ref".to_owned(),
        cycles_limit: 1,
        interval: 2,
        verifier_list: verifiers(),
        propose_ratio: 3,
        prevote_ratio: 4,
        precommit_ratio: 5,
        brake_ratio: 6,
        tx_num_limit: 7,
        max_tx_size: 8,
    };
    let result =
        create_exec_result(11, metadata, hash(&[1]), hash(&[2]), hash(&[3]), bloom(&[4]), 12);
    let config = &result.consensus_config;
    assert_eq!(config.max_exec_behind, 5);
    assert_eq!(config.auth_config.common_ref, "ref");
    assert_eq!(config.auth_config.mode, SelectMode::InTurn);
    assert_eq!(config.auth_config.auth_list, to_overlord_auth_list(&verifiers()));
    assert_eq!(config.time_config.interval, 2);
    assert_eq!(config.time_config.propose_ratio, 3);
    assert_eq!(config.time_config.pre_vote_ratio, 4);
    assert_eq!(config.time_config.pre_commit_ratio, 5);
    assert_eq!(config.time_config.brake_ratio, 6);
    assert_eq!(result.block_states.height, 11);
    assert_eq!(
        result.block_states.state,
        ExecResp {
            order_root: hash(&[2]),
            state_root: hash(&[1]),
            receipt_root: hash(&[3]),
            cycles_used: 12,
            logs_bloom: bloom(&[4]),
            cycles_limit: 1,
            tx_num_limit: 7,
            max_tx_size: 8,
            validators: to_validator_list(&verifiers()),
        }
    );
}

#[test]
fn the_pool_is_asked_within_the_limits_of_the_last_commit() {
    assert_eq!(OverlordAdapter::package_limits(&resp(7)), (99, 20));
}

#[test]
fn what_the_adapter_does_not_keep() {
    let node = adapter();
    let given = node.get_block_exec_result::<Plain>(4).unwrap();
    assert_eq!(given.consensus_config.max_exec_behind, 6);
    assert_eq!(given.consensus_config.auth_config.common_ref, "default");
    assert_eq!(
        given.block_states,
        BlockState {
            height: 8,
            state: ExecResp {
                order_root: hash(&[0, 0, 0]),
                state_root: hash(&[0, 0, 0]),
                receipt_root: hash(&[0, 0, 0]),
                cycles_used: 0,
                logs_bloom: bloom(&[0, 0]),
                cycles_limit: 0,
                tx_num_limit: 0,
                max_tx_size: 0,
                validators: vec![],
            },
        }
    );
    assert_eq!(node.get_block_exec_result::<Plain>(5), Ok(given));
    assert_eq!(node.get_block_with_proofs::<()>(), Ok(vec![]));
    assert_eq!(node.get_latest_height::<()>(), Ok(0));
}

#[test]
fn own_block_hashes_are_a_set() {
    let mut set = BlockHashSet::new();
    assert!(!set.contains(&vec![1]));
    assert!(set.insert(vec![1]));
    assert!(!set.insert(vec![1]));
    assert!(set.insert(vec![]));
    assert!(set.contains(&vec![1]));
    assert!(set.contains(&vec![]));
    assert!(!set.contains(&vec![1, 1]));
    set.clear();
    assert!(!set.contains(&vec![1]));
}
