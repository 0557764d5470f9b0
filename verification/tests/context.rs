use op_rbuilder::chain::{
    BaseFeeParams, BlockEnv, ChainSpec, Header, OpPayloadBuilderAttributes, PayloadAttributes,
    PayloadConfig, PayloadId, SealedHeader, Signer, Withdrawal,
};
use op_rbuilder::components::payload_context::OpPayloadBuilderCtx;
use op_rbuilder::components::payload_transactions::BestPoolTransactions;
use op_rbuilder::errors::{
    EIP1559ParamError, InternalError, OpPayloadBuilderError, OtherError, PayloadBuilderError,
};
use op_rbuilder::primitives::{Address, Bloom, B256, B64};
use op_rbuilder::u256::U256;

fn header(number: u64) -> Header {
    Header {
        parent_hash: B256 { bytes: [1; 32] },
        ommers_hash: B256 { bytes: [2; 32] },
        beneficiary: Address { bytes: [3; 20] },
        state_root: B256 { bytes: [4; 32] },
        transactions_root: B256 { bytes: [5; 32] },
        receipts_root: B256 { bytes: [6; 32] },
        logs_bloom: Bloom { bytes: [0; 256] },
        difficulty: U256::zero(),
        number,
        gas_limit: 30_000_000,
        gas_used: 0,
        timestamp: 1_000,
        extra_data: vec![],
        mix_hash: B256 { bytes: [7; 32] },
        nonce: 0,
        base_fee_per_gas: Some(7),
        withdrawals_root: None,
        blob_gas_used: None,
        excess_blob_gas: None,
        parent_beacon_block_root: None,
        requests_hash: None,
    }
}

fn context() -> OpPayloadBuilderCtx {
    OpPayloadBuilderCtx {
        chain_spec: ChainSpec {
            chain_id: 10,
            shanghai: Some(100),
            regolith: Some(200),
            canyon: Some(300),
            ecotone: Some(400),
            holocene: None,
        },
        config: PayloadConfig {
            parent_header: SealedHeader { header: header(41), hash: B256 { bytes: [9; 32] } },
            attributes: OpPayloadBuilderAttributes {
                payload_attributes: PayloadAttributes {
                    id: PayloadId { id: B64 { bytes: [8; 8] } },
                    parent: B256 { bytes: [9; 32] },
                    timestamp: 400,
                    suggested_fee_recipient: Address { bytes: [10; 20] },
                    prev_randao: B256 { bytes: [11; 32] },
                    withdrawals: vec![Withdrawal {
                        index: 1,
                        validator_index: 2,
                        address: Address { bytes: [12; 20] },
                        amount: 3,
                    }],
                    parent_beacon_block_root: Some(B256 { bytes: [13; 32] }),
                },
                no_tx_pool: false,
                transactions: vec![],
                gas_limit: None,
                eip_1559_params: None,
            },
        },
        initialized_block_env: BlockEnv {
            number: U256::from_u64(42),
            coinbase: Address { bytes: [14; 20] },
            gas_limit: U256::from_u64(20_000_000),
            basefee: U256::from_u64(5),
            blob_gasprice: None,
        },
        base_fee_params: BaseFeeParams { max_change_denominator: 250, elasticity_multiplier: 6 },
        builder_signer: Some(Signer { address: Address { bytes: [15; 20] } }),
    }
}

#[test]
fn hardforks_start_at_their_timestamp_and_stay() {
    let mut ctx = context();
    for (timestamp, shanghai, regolith, canyon, ecotone) in [
        (99, false, false, false, false),
        (100, true, false, false, false),
        (200, true, true, false, false),
        (299, true, true, false, false),
        (300, true, true, true, false),
        (400, true, true, true, true),
        (u64::MAX, true, true, true, true),
    ] {
        ctx.config.attributes.payload_attributes.timestamp = timestamp;
        assert_eq!(ctx.withdrawals().is_some(), shanghai);
        assert_eq!(ctx.is_regolith_active(), regolith);
        assert_eq!(ctx.is_canyon_active(), canyon);
        assert_eq!(ctx.is_ecotone_active(), ecotone);
        assert!(!ctx.is_holocene_active());
    }
}

#[test]
fn withdrawals_are_there_from_shanghai_on() {
    let mut ctx = context();
    assert_eq!(ctx.withdrawals().unwrap().len(), 1);
    assert_eq!(ctx.withdrawals().unwrap()[0].amount, 3);
    ctx.chain_spec.shanghai = None;
    assert_eq!(ctx.withdrawals(), None);
}

#[test]
fn blob_fields_are_zero_after_ecotone() {
    let mut ctx = context();
    assert_eq!(ctx.blob_fields(), (Some(0), Some(0)));
    ctx.config.attributes.payload_attributes.timestamp = 399;
    assert_eq!(ctx.blob_fields(), (None, None));
}

#[test]
fn gas_limit_of_the_attributes_comes_first() {
    let mut ctx = context();
    assert_eq!(ctx.block_gas_limit(), 20_000_000);
    ctx.config.attributes.gas_limit = Some(9);
    assert_eq!(ctx.block_gas_limit(), 9);
    ctx.config.attributes.gas_limit = None;
    ctx.initialized_block_env.gas_limit = U256 { l0: 1, l1: 1, l2: 0, l3: 0 };
    assert_eq!(ctx.block_gas_limit(), u64::MAX);
}

#[test]
fn plain_values_of_the_context() {
    let ctx = context();
    assert!(ctx.is_wf());
    assert_eq!(ctx.block_number(), 42);
    assert_eq!(ctx.base_fee(), 5);
    assert_eq!(ctx.chain_id(), 10);
    assert_eq!(ctx.payload_id(), PayloadId { id: B64 { bytes: [8; 8] } });
    assert_eq!(ctx.parent().header.number, 41);
    assert_eq!(ctx.attributes().transactions.len(), 0);
    assert_eq!(ctx.builder_signer().unwrap().address, Address { bytes: [15; 20] });
}

#[test]
fn numbers_that_do_not_fit_are_noticed() {
    let mut ctx = context();
    ctx.initialized_block_env.number = U256 { l0: 0, l1: 1, l2: 0, l3: 0 };
    assert!(!ctx.is_wf());
    ctx = context();
    ctx.initialized_block_env.basefee = U256 { l0: 0, l1: 0, l2: 1, l3: 0 };
    assert!(!ctx.is_wf());
}

#[test]
fn blob_price_keeps_its_low_bits() {
    let mut ctx = context();
    assert_eq!(ctx.get_blob_gasprice(), None);
    ctx.initialized_block_env.blob_gasprice = Some(3);
    assert_eq!(ctx.get_blob_gasprice(), Some(3));
    ctx.initialized_block_env.blob_gasprice = Some((1 << 64) + 4);
    assert_eq!(ctx.get_blob_gasprice(), Some(4));
    let attributes = ctx.best_transaction_attributes();
    assert_eq!(attributes.basefee, 5);
    assert_eq!(attributes.blob_fee, Some(4));
    assert_eq!(BestPoolTransactions.best_transactions(attributes), attributes);
}

#[test]
fn extra_data_is_empty_before_holocene() {
    assert_eq!(context().extra_data(), Ok(vec![]));
}

#[test]
fn extra_data_takes_the_parameters_of_the_payload() {
    let mut ctx = context();
    ctx.chain_spec.holocene = Some(400);
    ctx.config.attributes.eip_1559_params = Some(B64 { bytes: [0, 0, 1, 2, 0, 0, 0, 9] });
    assert_eq!(ctx.extra_data(), Ok(vec![0, 0, 0, 1, 2, 0, 0, 0, 9]));
}

#[test]
fn extra_data_falls_back_to_the_defaults() {
    let mut ctx = context();
    ctx.chain_spec.holocene = Some(0);
    ctx.config.attributes.eip_1559_params = Some(B64 { bytes: [0; 8] });
    assert_eq!(ctx.extra_data(), Ok(vec![0, 0, 0, 0, 250, 0, 0, 0, 6]));
    ctx.base_fee_params.max_change_denominator = 0x0102_0304;
    assert_eq!(ctx.extra_data(), Ok(vec![0, 1, 2, 3, 4, 0, 0, 0, 6]));
}

#[test]
fn extra_data_that_cannot_be_encoded() {
    let mut ctx = context();
    ctx.chain_spec.holocene = Some(0);
    let other = |err| Err(PayloadBuilderError::Other(OtherError::ExtraData(err)));
    assert_eq!(ctx.extra_data(), other(EIP1559ParamError::NoEIP1559Params));
    ctx.config.attributes.eip_1559_params = Some(B64 { bytes: [0; 8] });
    ctx.base_fee_params.elasticity_multiplier = 1 << 32;
    assert_eq!(ctx.extra_data(), other(EIP1559ParamError::ElasticityOverflow));
    ctx.base_fee_params.max_change_denominator = 1 << 32;
    assert_eq!(ctx.extra_data(), other(EIP1559ParamError::DenominatorOverflow));
    ctx.config.attributes.eip_1559_params = Some(B64 { bytes: [1; 8] });
    assert_eq!(ctx.extra_data(), Ok(vec![0, 1, 1, 1, 1, 1, 1, 1, 1]));
}

#[test]
fn outcomes_of_the_node_become_payload_errors() {
    let ctx = context();
    assert_eq!(ctx.commit_withdrawals(Ok(None)), Ok(None));
    assert_eq!(
        ctx.commit_withdrawals(Err(String::from("disk"))),
        Err(PayloadBuilderError::Internal(InternalError::Provider(String::from("disk")))),
    );
    assert_eq!(ctx.ensure_create2_deployer(Ok(())), Ok(()));
    assert_eq!(
        ctx.ensure_create2_deployer(Err(String::from("any"))),
        Err(PayloadBuilderError::Other(OtherError::Op(
            OpPayloadBuilderError::ForceCreate2DeployerFail
        ))),
    );
    assert_eq!(ctx.apply_pre_beacon_root_contract_call(Ok(())), Ok(()));
    assert_eq!(
        ctx.apply_pre_beacon_root_contract_call(Err(String::from("call"))),
        Err(PayloadBuilderError::Internal(InternalError::Execution(String::from("call")))),
    );
}

#[test]
fn attributes_are_copied_whole() {
    let ctx = context();
    assert_eq!(ctx.attributes().clone(), ctx.config.attributes);
}
