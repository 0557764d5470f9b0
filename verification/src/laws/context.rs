//! What the context of a payload says of its block, and what the chain asks for.

use vstd::prelude::*;

use crate::chain::{
    active_at, be_bytes, holocene_extra_data, BaseFeeParams, BestTransactionsAttributes, ChainSpec,
    OpPayloadBuilderAttributes, PayloadId, SealedHeader, Signer, Withdrawal,
};
use crate::components::payload_context::OpPayloadBuilderCtx;
use crate::components::payload_transactions::BestPoolTransactions;
use crate::errors::{
    EIP1559ParamError, InternalError, OpPayloadBuilderError, OtherError, PayloadBuilderError,
};
use crate::laws::receipts::in_force;
use crate::primitives::{B256, B64};

verus! {

/// A hardfork is in force from its own timestamp on, and never before it. One without a timestamp
/// is never in force.
pub proof fn law_hardfork_begins(activation: u64, timestamp: u64)
    ensures
        active_at(Some(activation), activation),
        activation <= timestamp ==> active_at(Some(activation), timestamp),
        timestamp < activation ==> !active_at(Some(activation), timestamp),
        !active_at(None, timestamp),
{
}

/// Each hardfork is in force by its own timestamp, and by no other.
pub proof fn law_hardforks_of_the_chain(
    chain: ChainSpec,
    timestamp: u64,
    shanghai: bool,
    regolith: bool,
    canyon: bool,
    ecotone: bool,
    holocene: bool,
)
    requires
        call_ensures(ChainSpec::is_shanghai_active_at_timestamp, (&chain, timestamp), shanghai),
        call_ensures(ChainSpec::is_regolith_active_at_timestamp, (&chain, timestamp), regolith),
        call_ensures(ChainSpec::is_canyon_active_at_timestamp, (&chain, timestamp), canyon),
        call_ensures(ChainSpec::is_ecotone_active_at_timestamp, (&chain, timestamp), ecotone),
        call_ensures(ChainSpec::is_holocene_active_at_timestamp, (&chain, timestamp), holocene),
    ensures
        shanghai <==> in_force(chain.shanghai, timestamp),
        regolith <==> in_force(chain.regolith, timestamp),
        canyon <==> in_force(chain.canyon, timestamp),
        ecotone <==> in_force(chain.ecotone, timestamp),
        holocene <==> in_force(chain.holocene, timestamp),
{
}

/// The same for the timestamp of a payload.
pub proof fn law_hardforks_of_the_payload(
    ctx: OpPayloadBuilderCtx,
    regolith: bool,
    canyon: bool,
    ecotone: bool,
    holocene: bool,
)
    requires
        call_ensures(OpPayloadBuilderCtx::is_regolith_active, (&ctx,), regolith),
        call_ensures(OpPayloadBuilderCtx::is_canyon_active, (&ctx,), canyon),
        call_ensures(OpPayloadBuilderCtx::is_ecotone_active, (&ctx,), ecotone),
        call_ensures(OpPayloadBuilderCtx::is_holocene_active, (&ctx,), holocene),
    ensures
        ({
            let timestamp = ctx.config.attributes.payload_attributes.timestamp;
            &&& regolith <==> in_force(ctx.chain_spec.regolith, timestamp)
            &&& canyon <==> in_force(ctx.chain_spec.canyon, timestamp)
            &&& ecotone <==> in_force(ctx.chain_spec.ecotone, timestamp)
            &&& holocene <==> in_force(ctx.chain_spec.holocene, timestamp)
        }),
{
}

/// The gas limit to target is the one that the sequencer sets; else that of the environment, as far
/// as 64 bits go.
pub proof fn law_gas_limit_to_target(ctx: OpPayloadBuilderCtx, limit: u64)
    requires
        call_ensures(OpPayloadBuilderCtx::block_gas_limit, (&ctx,), limit),
    ensures
        match ctx.config.attributes.gas_limit {
            Some(set) => limit == set,
            None => {
                let env = ctx.initialized_block_env.gas_limit@;
                &&& limit <= env
                &&& limit == env || (limit == u64::MAX && limit < env)
            },
        },
{
}

/// The number and the base fee are those of the environment, and the fees for the pool are the base
/// fee and the low 64 bits of the price of blob gas, where there is one.
pub proof fn law_fees_of_the_environment(
    ctx: OpPayloadBuilderCtx,
    number: u64,
    base_fee: u64,
    price: Option<u64>,
    attributes: BestTransactionsAttributes,
    handed_on: BestTransactionsAttributes,
)
    requires
        call_ensures(OpPayloadBuilderCtx::block_number, (&ctx,), number),
        call_ensures(OpPayloadBuilderCtx::base_fee, (&ctx,), base_fee),
        call_ensures(OpPayloadBuilderCtx::get_blob_gasprice, (&ctx,), price),
        call_ensures(OpPayloadBuilderCtx::best_transaction_attributes, (&ctx,), attributes),
        call_ensures(
            BestPoolTransactions::best_transactions,
            (&BestPoolTransactions, attributes),
            handed_on,
        ),
    ensures
        number == ctx.initialized_block_env.number@,
        base_fee == ctx.initialized_block_env.basefee@,
        price is Some <==> ctx.initialized_block_env.blob_gasprice is Some,
        price matches Some(low) ==> (ctx.initialized_block_env.blob_gasprice->0 - low)
            % 0x1_0000_0000_0000_0000 == 0,
        attributes.basefee == base_fee,
        attributes.blob_fee == price,
        handed_on == attributes,
{
}

/// The context hands out its parts as they are.
pub proof fn law_context_hands_out(
    ctx: OpPayloadBuilderCtx,
    parent: &SealedHeader,
    attributes: &OpPayloadBuilderAttributes,
    id: PayloadId,
    chain_id: u64,
    signer: Option<Signer>,
    fits: bool,
)
    requires
        call_ensures(OpPayloadBuilderCtx::parent, (&ctx,), parent),
        call_ensures(OpPayloadBuilderCtx::attributes, (&ctx,), attributes),
        call_ensures(OpPayloadBuilderCtx::payload_id, (&ctx,), id),
        call_ensures(OpPayloadBuilderCtx::chain_id, (&ctx,), chain_id),
        call_ensures(OpPayloadBuilderCtx::builder_signer, (&ctx,), signer),
        call_ensures(OpPayloadBuilderCtx::is_wf, (&ctx,), fits),
    ensures
        *parent == ctx.config.parent_header,
        *attributes == ctx.config.attributes,
        id == ctx.config.attributes.payload_attributes.id,
        chain_id == ctx.chain_spec.chain_id,
        signer == ctx.builder_signer,
        fits <==> ctx.initialized_block_env.number@ <= u64::MAX
            && ctx.initialized_block_env.basefee@ <= u64::MAX,
{
}

/// The withdrawals are those of the attributes once Shanghai is in force, and there are none
/// before. The blob fields are there once Ecotone is in force, both zero, and neither is before.
pub proof fn law_fields_by_hardfork(
    ctx: OpPayloadBuilderCtx,
    withdrawals: Option<&Vec<Withdrawal>>,
    blob_fields: (Option<u64>, Option<u64>),
)
    requires
        call_ensures(OpPayloadBuilderCtx::withdrawals, (&ctx,), withdrawals),
        call_ensures(OpPayloadBuilderCtx::blob_fields, (&ctx,), blob_fields),
    ensures
        ({
            let timestamp = ctx.config.attributes.payload_attributes.timestamp;
            &&& withdrawals is Some <==> in_force(ctx.chain_spec.shanghai, timestamp)
            &&& withdrawals matches Some(list) ==> *list
                == ctx.config.attributes.payload_attributes.withdrawals
            &&& blob_fields.0 is Some <==> in_force(ctx.chain_spec.ecotone, timestamp)
            &&& blob_fields.1 is Some <==> in_force(ctx.chain_spec.ecotone, timestamp)
            &&& blob_fields.0 matches Some(excess) ==> excess == 0
            &&& blob_fields.1 matches Some(used) ==> used == 0
        }),
{
}

/// The number that four bytes stand for, most significant first.
pub open spec fn read_be(bytes: Seq<u8>) -> int {
    0x100_0000 * bytes[0] + 0x1_0000 * bytes[1] + 0x100 * bytes[2] + bytes[3]
}

/// Four bytes stand for the number that they were made of.
pub proof fn law_big_endian(x: u32)
    ensures
        be_bytes(x).len() == 4,
        read_be(be_bytes(x)) == x,
{
}

/// The extra data of a Holocene block is nine bytes, of which the first says version zero. The
/// parameters of the payload follow as they stand, unless all are zero: then the defaults of the
/// chain follow, the denominator before the elasticity. Only where a default is called for and does
/// not fit is it an error, and the denominator is looked at first.
pub proof fn law_holocene_extra_data(params: B64, defaults: BaseFeeParams)
    ensures
        ({
            let given = exists|i: int| 0 <= i < 8 && #[trigger] params.bytes@[i] != 0;
            let denominator = defaults.max_change_denominator;
            let elasticity = defaults.elasticity_multiplier;
            match holocene_extra_data(params, defaults) {
                Ok(bytes) => {
                    &&& bytes.len() == 9
                    &&& bytes[0] == 0
                    &&& given ==> forall|i: int|
                        0 <= i < 8 ==> bytes[1 + i] == #[trigger] params.bytes@[i]
                    &&& !given ==> read_be(bytes.subrange(1, 5)) == denominator && read_be(
                        bytes.subrange(5, 9),
                    ) == elasticity
                },
                Err(err) => {
                    &&& !given
                    &&& denominator > u32::MAX || elasticity > u32::MAX
                    &&& err is DenominatorOverflow <==> denominator > u32::MAX
                    &&& err is ElasticityOverflow <==> denominator <= u32::MAX
                },
            }
        }),
        (exists|i: int| 0 <= i < 8 && #[trigger] params.bytes@[i] != 0) ==> holocene_extra_data(
            params,
            defaults,
        ) is Ok,
        defaults.max_change_denominator <= u32::MAX && defaults.elasticity_multiplier <= u32::MAX
            ==> holocene_extra_data(params, defaults) is Ok,
{
    let denominator = defaults.max_change_denominator as u32;
    let elasticity = defaults.elasticity_multiplier as u32;
    law_big_endian(denominator);
    law_big_endian(elasticity);
    let given = exists|i: int| 0 <= i < 8 && #[trigger] params.bytes@[i] != 0;
    if holocene_extra_data(params, defaults) is Ok {
        let bytes = holocene_extra_data(params, defaults)->Ok_0;
        if !given {
            assert(forall|i: int| 0 <= i < 8 ==> params.bytes@[i] == 0);
            assert(bytes.subrange(1, 5) =~= be_bytes(denominator));
            assert(bytes.subrange(5, 9) =~= be_bytes(elasticity));
        } else {
            assert(!(forall|i: int| 0 <= i < 8 ==> params.bytes@[i] == 0));
            assert(params.bytes@.len() == 8);
        }
    }
}

/// The extra data of a block is empty before Holocene. Once it is in force, the payload must bring
/// parameters, and the extra data is that of a Holocene block of them.
pub proof fn law_extra_data(
    ctx: OpPayloadBuilderCtx,
    extra_data: Result<Vec<u8>, PayloadBuilderError>,
)
    requires
        call_ensures(OpPayloadBuilderCtx::extra_data, (&ctx,), extra_data),
    ensures
        ({
            let holocene = in_force(
                ctx.chain_spec.holocene,
                ctx.config.attributes.payload_attributes.timestamp,
            );
            let wrong = |err: EIP1559ParamError|
                extra_data == Err::<Vec<u8>, PayloadBuilderError>(
                    PayloadBuilderError::Other(OtherError::ExtraData(err)),
                );
            match ctx.config.attributes.eip_1559_params {
                _ if !holocene => extra_data matches Ok(bytes) && bytes@.len() == 0,
                None => wrong(EIP1559ParamError::NoEIP1559Params),
                Some(params) => match holocene_extra_data(params, ctx.base_fee_params) {
                    Ok(expected) => extra_data matches Ok(bytes) && bytes@ == expected,
                    Err(err) => wrong(err),
                },
            }
        }),
{
}

/// The parameters of the payload are what the extra data of a Holocene block is made of; without
/// them it is an error.
pub proof fn law_payload_parameters(
    attributes: OpPayloadBuilderAttributes,
    defaults: BaseFeeParams,
    extra_data: Result<Vec<u8>, EIP1559ParamError>,
)
    requires
        call_ensures(
            OpPayloadBuilderAttributes::get_holocene_extra_data,
            (&attributes, defaults),
            extra_data,
        ),
    ensures
        match attributes.eip_1559_params {
            None => extra_data == Err::<Vec<u8>, EIP1559ParamError>(
                EIP1559ParamError::NoEIP1559Params,
            ),
            Some(params) => match (extra_data, holocene_extra_data(params, defaults)) {
                (Ok(bytes), Ok(expected)) => bytes@ == expected,
                (Err(err), Err(expected)) => err == expected,
                _ => false,
            },
        },
{
}

/// What the node reports of the withdrawals, the deployer and the beacon root is passed on: what
/// went well as such, and each failure as the error that it stands for.
pub proof fn law_reports_of_the_node(
    ctx: OpPayloadBuilderCtx,
    committed: Result<Option<B256>, String>,
    withdrawals: Result<Option<B256>, PayloadBuilderError>,
    deployed: Result<(), String>,
    deployer: Result<(), PayloadBuilderError>,
    called: Result<(), String>,
    beacon_root: Result<(), PayloadBuilderError>,
)
    requires
        call_ensures(OpPayloadBuilderCtx::commit_withdrawals, (&ctx, committed), withdrawals),
        call_ensures(OpPayloadBuilderCtx::ensure_create2_deployer, (&ctx, deployed), deployer),
        call_ensures(
            OpPayloadBuilderCtx::apply_pre_beacon_root_contract_call,
            (&ctx, called),
            beacon_root,
        ),
    ensures
        match committed {
            Ok(root) => withdrawals == Ok::<Option<B256>, PayloadBuilderError>(root),
            Err(err) => withdrawals == Err::<Option<B256>, PayloadBuilderError>(
                PayloadBuilderError::Internal(InternalError::Provider(err)),
            ),
        },
        deployer is Ok <==> deployed is Ok,
        deployer matches Err(err) ==> err == PayloadBuilderError::Other(
            OtherError::Op(OpPayloadBuilderError::ForceCreate2DeployerFail),
        ),
        match called {
            Ok(()) => beacon_root is Ok,
            Err(err) => beacon_root == Err::<(), PayloadBuilderError>(
                PayloadBuilderError::Internal(InternalError::Execution(err)),
            ),
        },
{
}

} // verus!
