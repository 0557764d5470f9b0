#![allow(dead_code)]

use alloy_consensus::constants::EMPTY_ROOT_HASH;
use alloy_consensus::{SignableTransaction, TxEip1559};
use alloy_eips::eip2718::Encodable2718;
use op_alloy_consensus::OpTxEnvelope;
use op_rbuilder::actions::builder_tx::{block_message, builder_tx, estimate_gas_for_builder_tx, TxKind};
use op_rbuilder::actions::payload::{
    block_header, create_payload, seal_block, BlockRoots, OpBuiltPayload, StateRoots,
};
use op_rbuilder::actions::pre_block::{ensure_create2_deployer_exists, PreBlock, PreBlockAction};
use op_rbuilder::builder_flashblocks::build_block;
use op_rbuilder::chain::{
    BaseFeeParams, BlockEnv, ChainSpec, Header, OpPayloadBuilderAttributes, PayloadAttributes,
    PayloadConfig, PayloadId, SealedHeader,
};
use op_rbuilder::components::payload_context::OpPayloadBuilderCtx;
use op_rbuilder::components::tx_executor::ExecutionResult;
use op_rbuilder::chain::Withdrawal;
use op_rbuilder::components::execution_info::ExecutionInfo;
use op_rbuilder::components::tx_executor::OpExecutionResult;
use op_rbuilder::errors::{
    EIP1559ParamError, EVMError, InternalError, OpPayloadBuilderError, OtherError,
    PayloadBuilderError,
};
use op_rbuilder::primitives::{
    Address, Bloom, Log, OpTransactionSigned, OpTxType, Recovered, TxType, B256, B64,
};
use op_rbuilder::u256::U256;

fn address(byte: u8) -> Address {
    Address { bytes: [byte; 20] }
}

fn hash(byte: u8) -> B256 {
    B256 { bytes: [byte; 32] }
}

fn transaction(tx_type: TxType, nonce: u64, gas_limit: u64) -> OpTransactionSigned {
    OpTransactionSigned {
        tx_type,
        nonce,
        gas_limit,
        max_fee_per_gas: if matches!(tx_type, TxType::Deposit) { 0 } else { 100 },
        max_priority_fee_per_gas: match tx_type {
            TxType::Legacy | TxType::Eip2930 | TxType::Deposit => None,
            _ => Some(2),
        },
        encoded: vec![nonce as u8, gas_limit as u8, 1],
    }
}

fn context(transactions: Vec<OpTransactionSigned>, no_tx_pool: bool) -> OpPayloadBuilderCtx {
    OpPayloadBuilderCtx {
        chain_spec: ChainSpec {
            chain_id: 10,
            shanghai: Some(0),
            regolith: Some(0),
            canyon: Some(0),
            ecotone: Some(0),
            holocene: None,
        },
        config: PayloadConfig {
            parent_header: SealedHeader {
                header: Header {
                    parent_hash: hash(1),
                    ommers_hash: hash(2),
                    beneficiary: address(3),
                    state_root: hash(4),
                    transactions_root: hash(5),
                    receipts_root: hash(6),
                    logs_bloom: Bloom { bytes: [0; 256] },
                    difficulty: U256::zero(),
                    number: 41,
                    gas_limit: 30_000_000,
                    gas_used: 0,
                    timestamp: 1_000,
                    extra_data: vec![],
                    mix_hash: hash(7),
                    nonce: 0,
                    base_fee_per_gas: Some(7),
                    withdrawals_root: None,
                    blob_gas_used: None,
                    excess_blob_gas: None,
                    parent_beacon_block_root: None,
                    requests_hash: None,
                },
                hash: hash(9),
            },
            attributes: OpPayloadBuilderAttributes {
                payload_attributes: PayloadAttributes {
                    id: PayloadId { id: B64 { bytes: [8; 8] } },
                    parent: hash(9),
                    timestamp: 1_002,
                    suggested_fee_recipient: address(10),
                    prev_randao: hash(11),
                    withdrawals: vec![],
                    parent_beacon_block_root: Some(hash(13)),
                },
                no_tx_pool,
                transactions,
                gas_limit: Some(1_000_000),
                eip_1559_params: None,
            },
        },
        initialized_block_env: BlockEnv {
            number: U256::from_u64(42),
            coinbase: address(14),
            gas_limit: U256::from_u64(20_000_000),
            basefee: U256::from_u64(50),
            blob_gasprice: None,
        },
        base_fee_params: BaseFeeParams { max_change_denominator: 250, elasticity_multiplier: 6 },
        builder_signer: None,
    }
}

fn success(gas_used: u64) -> Result<ExecutionResult, EVMError> {
    Ok(ExecutionResult::Success {
        gas_used,
        logs: vec![Log { address: address(1), topics: vec![hash(2)], data: vec![3] }],
    })
}

const ROOTS: StateRoots = StateRoots {
    state_root: B256 { bytes: [0xaa; 32] },
    receipts_root: B256 { bytes: [0xbb; 32] },
};

/// A signed transaction of alloy.
fn envelope(nonce: u64) -> OpTxEnvelope {
    let tx = TxEip1559 {
        chain_id: 10,
        nonce,
        gas_limit: 21_000,
        max_fee_per_gas: 100,
        max_priority_fee_per_gas: 2,
        ..Default::default()
    };
    let signature = alloy_primitives::PrimitiveSignature::test_signature();
    OpTxEnvelope::Eip1559(tx.into_signed(signature))
}

/// The same transaction in the library.
fn encoded(nonce: u64) -> OpTransactionSigned {
    OpTransactionSigned { encoded: envelope(nonce).encoded_2718(), ..transaction(TxType::Eip1559, nonce, 21_000) }
}

fn info(nonces: Vec<u64>) -> ExecutionInfo {
    let mut info = ExecutionInfo::with_capacity(nonces.len());
    for (i, nonce) in nonces.into_iter().enumerate() {
        let result = OpExecutionResult {
            nonce: None,
            cumulative_gas_used: 21_000 * (i as u64 + 1),
            tx_type: OpTxType::Eip1559,
            canyon_active: true,
            result: success(21_000).unwrap(),
        };
        info.add(Recovered { tx: encoded(nonce), signer: address(nonce as u8) }, result, 0);
    }
    info
}

fn outside_header(payload: &OpBuiltPayload) -> alloy_consensus::Header {
    let header = &payload.block.header.header;
    alloy_consensus::Header {
        parent_hash: header.parent_hash.bytes.into(),
        ommers_hash: header.ommers_hash.bytes.into(),
        beneficiary: header.beneficiary.bytes.into(),
        state_root: header.state_root.bytes.into(),
        transactions_root: header.transactions_root.bytes.into(),
        receipts_root: header.receipts_root.bytes.into(),
        logs_bloom: header.logs_bloom.bytes.into(),
        difficulty: alloy_primitives::U256::from(header.difficulty.to_u64()),
        number: header.number,
        gas_limit: header.gas_limit,
        gas_used: header.gas_used,
        timestamp: header.timestamp,
        extra_data: header.extra_data.clone().into(),
        mix_hash: header.mix_hash.bytes.into(),
        nonce: header.nonce.into(),
        base_fee_per_gas: header.base_fee_per_gas,
        withdrawals_root: header.withdrawals_root.map(|root| root.bytes.into()),
        blob_gas_used: header.blob_gas_used,
        excess_blob_gas: header.excess_blob_gas,
        parent_beacon_block_root: header.parent_beacon_block_root.map(|root| root.bytes.into()),
        requests_hash: header.requests_hash.map(|root| root.bytes.into()),
    }
}

#[test]
fn block_message_names_the_block() {
    let mut ctx = context(vec![], false);
    assert_eq!(block_message(&ctx), b"Block Number: 42".to_vec());
    for (number, message) in [
        (0, "Block Number: 0"),
        (9, "Block Number: 9"),
        (10, "Block Number: 10"),
        (1_000_205, "Block Number: 1000205"),
        (u64::MAX, "Block Number: 18446744073709551615"),
    ] {
        ctx.initialized_block_env.number = U256::from_u64(number);
        assert_eq!(block_message(&ctx), message.as_bytes().to_vec());
    }
}

#[test]
fn builder_gas_counts_zero_bytes_apart() {
    assert_eq!(estimate_gas_for_builder_tx(&vec![]), 21_000);
    assert_eq!(estimate_gas_for_builder_tx(&vec![0]), 21_004);
    assert_eq!(estimate_gas_for_builder_tx(&vec![1]), 21_016);
    assert_eq!(estimate_gas_for_builder_tx(&vec![0, 5, 0, 255, 0]), 21_044);
    // 16 for each of the 16 bytes of the message
    assert_eq!(estimate_gas_for_builder_tx(&block_message(&context(vec![], false))), 21_256);
}

#[test]
fn builder_transaction_pays_the_base_fee_alone() {
    let tx = builder_tx(&context(vec![], false), 3, 21_016, vec![1]);
    assert_eq!((tx.chain_id, tx.nonce, tx.gas_limit), (10, 3, 21_016));
    assert_eq!((tx.max_fee_per_gas, tx.max_priority_fee_per_gas), (50, 0));
    assert_eq!(tx.to, TxKind::Call(address(0)));
    assert_eq!(tx.value, U256::zero());
    assert_eq!(tx.input, vec![1]);
}

#[test]
fn pre_block_actions_in_order() {
    let ctx = context(vec![], false);
    let mut stage = PreBlock::BeaconRoot;
    assert_eq!(
        stage.next(&ctx),
        PreBlockAction::BeaconRootCall { parent_beacon_block_root: Some(hash(13)) },
    );
    stage.on_beacon_root(&ctx, Ok(()));
    assert_eq!(stage.next(&ctx), PreBlockAction::EnsureCreate2Deployer { timestamp: 1_002 });
    stage.on_create2_deployer(&ctx, Ok(()));
    assert_eq!(stage, PreBlock::Ended { outcome: Ok(()) });
    assert_eq!(stage.next(&ctx), PreBlockAction::Done);
}

#[test]
fn pre_block_actions_that_fail() {
    let ctx = context(vec![], false);
    let mut stage = PreBlock::BeaconRoot;
    stage.on_beacon_root(&ctx, Err(String::from("revert")));
    assert_eq!(
        stage,
        PreBlock::Ended {
            outcome: Err(PayloadBuilderError::Internal(InternalError::Execution(String::from(
                "revert",
            )))),
        },
    );
    let missing = PayloadBuilderError::Other(OtherError::Op(
        OpPayloadBuilderError::ForceCreate2DeployerFail,
    ));
    let mut stage = PreBlock::Create2Deployer;
    stage.on_create2_deployer(&ctx, Err(String::from("db")));
    assert_eq!(stage, PreBlock::Ended { outcome: Err(missing) });
    assert!(ensure_create2_deployer_exists(&ctx, Ok(())).is_ok());
}

#[test]
fn empty_block_has_the_empty_roots() {
    let block = seal_block(&context(vec![], false), vec![], &vec![], 0, None, ROOTS, None).unwrap();
    let header = &block.header.header;
    assert_eq!(header.transactions_root.bytes, EMPTY_ROOT_HASH.0);
    assert_eq!(header.ommers_hash.bytes, alloy_consensus::EMPTY_OMMER_ROOT_HASH.0);
    assert_eq!(header.logs_bloom, Bloom { bytes: [0; 256] });
    assert_eq!(block.body.withdrawals, None);
    assert_eq!(block.body.ommers, vec![]);
}

#[test]
fn transaction_root_is_that_of_the_encodings() {
    let ctx = context(vec![], false);
    for nonces in [vec![1], vec![1, 2], (0..200).collect::<Vec<u64>>()] {
        let outside: Vec<OpTxEnvelope> = nonces.iter().map(|nonce| envelope(*nonce)).collect();
        let txs: Vec<OpTransactionSigned> = nonces.iter().map(|nonce| encoded(*nonce)).collect();
        let block = seal_block(&ctx, txs, &vec![], 0, None, ROOTS, None).unwrap();
        assert_eq!(
            block.header.header.transactions_root.bytes,
            alloy_consensus::proofs::calculate_transaction_root(&outside).0,
        );
    }
}

#[test]
fn bloom_takes_in_addresses_and_topics() {
    let ctx = context(vec![], false);
    let payload = build_block(&ctx, &info(vec![1, 2]), None, ROOTS).unwrap();
    let mut bloom = alloy_primitives::Bloom::ZERO;
    bloom.accrue_raw_log([1; 20].into(), &[[2; 32].into()]);
    assert_eq!(payload.block.header.header.logs_bloom.bytes, bloom.0 .0);
    assert_ne!(payload.block.header.header.logs_bloom, Bloom { bytes: [0; 256] });
}

#[test]
fn hash_is_that_of_the_header() {
    let mut ctx = context(vec![], false);
    let payload = build_block(&ctx, &info(vec![1]), Some(hash(0xcc)), ROOTS).unwrap();
    assert_eq!(payload.block.header.hash.bytes, outside_header(&payload).hash_slow().0);
    ctx.chain_spec.ecotone = None;
    ctx.config.attributes.payload_attributes.parent_beacon_block_root = None;
    let earlier = build_block(&ctx, &info(vec![1]), None, ROOTS).unwrap();
    assert_eq!(earlier.block.header.hash.bytes, outside_header(&earlier).hash_slow().0);
    assert_ne!(earlier.block.header.hash, payload.block.header.hash);
}

#[test]
fn header_says_what_the_context_says() {
    let ctx = context(vec![], false);
    let payload = build_block(&ctx, &info(vec![1, 2]), Some(hash(0xcc)), ROOTS).unwrap();
    let header = &payload.block.header.header;
    assert_eq!(header.parent_hash, hash(9));
    assert_eq!(header.beneficiary, address(14));
    assert_eq!(header.state_root, ROOTS.state_root);
    assert_eq!(header.receipts_root, ROOTS.receipts_root);
    assert_eq!(header.withdrawals_root, Some(hash(0xcc)));
    assert_eq!(header.timestamp, 1_002);
    assert_eq!(header.mix_hash, hash(11));
    assert_eq!(header.nonce, 0);
    assert_eq!(header.base_fee_per_gas, Some(50));
    assert_eq!(header.number, 42);
    assert_eq!(header.gas_limit, 1_000_000);
    assert_eq!(header.difficulty, U256::zero());
    assert_eq!(header.gas_used, 42_000);
    assert_eq!(header.extra_data, Vec::<u8>::new());
    assert_eq!(header.parent_beacon_block_root, Some(hash(13)));
    assert_eq!((header.blob_gas_used, header.excess_blob_gas), (Some(0), Some(0)));
    assert_eq!(header.requests_hash, None);
}

#[test]
fn header_takes_the_roots_that_it_is_given() {
    let mut ctx = context(vec![], false);
    let roots = BlockRoots {
        state_root: hash(0x11),
        transactions_root: hash(0x22),
        receipts_root: hash(0x33),
        withdrawals_root: Some(hash(0x44)),
        logs_bloom: Bloom { bytes: [0x55; 256] },
    };
    let header = block_header(&ctx, 7, roots).unwrap();
    assert_eq!(header.state_root, hash(0x11));
    assert_eq!(header.transactions_root, hash(0x22));
    assert_eq!(header.receipts_root, hash(0x33));
    assert_eq!(header.withdrawals_root, Some(hash(0x44)));
    assert_eq!(header.logs_bloom, Bloom { bytes: [0x55; 256] });
    assert_eq!(header.gas_used, 7);
    assert_eq!(header.number, 42);
    assert_eq!(header.gas_limit, 1_000_000);
    ctx.chain_spec.holocene = Some(0);
    assert!(block_header(&ctx, 7, roots).is_err());
}

#[test]
fn payload_keeps_the_execution() {
    let mut ctx = context(vec![], false);
    ctx.config.attributes.payload_attributes.withdrawals =
        vec![Withdrawal { index: 0, validator_index: 1, address: address(2), amount: 3 }];
    let payload = create_payload(&ctx, info(vec![5, 6]), None, ROOTS).unwrap();
    assert_eq!(payload.id, ctx.payload_id());
    assert_eq!(payload.fees, U256::from_u64(84_000));
    assert_eq!(payload.chain_spec, ctx.chain_spec);
    assert_eq!(payload.attributes, ctx.config.attributes);
    assert_eq!(payload.block.body.transactions, vec![encoded(5), encoded(6)]);
    assert_eq!(payload.block.body.withdrawals.as_ref().unwrap().len(), 1);
    let executed = payload.executed_block.unwrap();
    assert_eq!(executed.block, payload.block);
    assert_eq!(executed.number, 42);
    assert_eq!(executed.senders, vec![address(5), address(6)]);
    assert_eq!(executed.receipts.len(), 2);
}

#[test]
fn withdrawals_of_payloads_and_growing_blocks() {
    let mut ctx = context(vec![], false);
    ctx.chain_spec.shanghai = None;
    let payload = create_payload(&ctx, info(vec![5]), None, ROOTS).unwrap();
    assert_eq!(payload.block.body.withdrawals, None);
    let growing = build_block(&ctx, &info(vec![5]), None, ROOTS).unwrap();
    assert_eq!(growing.block.body.withdrawals, Some(vec![]));
    assert_eq!(growing.executed_block, None);
    assert_eq!(growing.block.body.transactions, vec![encoded(5)]);
}

#[test]
fn payload_without_extra_data_is_an_error() {
    let mut ctx = context(vec![], false);
    ctx.chain_spec.holocene = Some(0);
    let missing = PayloadBuilderError::Other(OtherError::ExtraData(
        EIP1559ParamError::NoEIP1559Params,
    ));
    assert_eq!(create_payload(&ctx, info(vec![]), None, ROOTS).as_ref().err(), Some(&missing));
    assert_eq!(build_block(&ctx, &info(vec![]), None, ROOTS).err(), Some(missing));
    ctx.config.attributes.eip_1559_params = Some(B64 { bytes: [1; 8] });
    let payload = create_payload(&ctx, info(vec![]), None, ROOTS).unwrap();
    assert_eq!(payload.block.header.header.extra_data, vec![0, 1, 1, 1, 1, 1, 1, 1, 1]);
    assert_eq!(payload.block.header.hash.bytes, outside_header(&payload).hash_slow().0);
}
