//! What can go wrong while a block is built.

use vstd::prelude::*;

use crate::primitives::Address;

verus! {

/// Why EIP-1559 parameters cannot be used.
#[derive(Clone, Copy, Debug, PartialEq, Eq, Structural)]
pub enum EIP1559ParamError {
    InvalidVersion(u8),
    NoEIP1559Params,
    DenominatorOverflow,
    ElasticityOverflow,
}

/// Why a transaction may not be executed at all.
#[derive(Debug, PartialEq, Eq)]
pub enum InvalidTransaction {
    /// The account has already used the nonce of the transaction.
    NonceTooLow { tx: u64, state: u64 },
    /// Any other reason, in words.
    Other(String),
}

/// Why the EVM did not execute a transaction.
#[derive(Debug, PartialEq, Eq)]
pub enum EVMError {
    /// The transaction is invalid; the block can go on without it.
    Transaction(InvalidTransaction),
    Header(String),
    Database(String),
    Custom(String),
    Precompile(String),
}

/// Why a transaction of the block was not executed.
#[derive(Debug, PartialEq, Eq)]
pub enum OpTxExecutorError {
    /// The account could not be loaded.
    AccountLoad(Address),
    EVMError(EVMError),
}

/// Why an Optimism payload cannot be built.
#[derive(Clone, Copy, Debug, PartialEq, Eq)]
pub enum OpPayloadBuilderError {
    TransactionEcRecoverFailed,
    ForceCreate2DeployerFail,
    BlobTransactionRejected,
    AccountLoadFailed(Address),
}

/// A failure of the node that the builder runs in.
#[derive(Debug, PartialEq, Eq)]
pub enum InternalError {
    /// A system call of the block failed.
    Execution(String),
    /// The state could not be read or written.
    Provider(String),
}

/// A failure that has no variant of its own in [`PayloadBuilderError`].
#[derive(Debug, PartialEq, Eq)]
pub enum OtherError {
    Op(OpPayloadBuilderError),
    Executor(OpTxExecutorError),
    ExtraData(EIP1559ParamError),
    EvmConfig(String),
}

/// Why no payload was built.
#[derive(Debug, PartialEq, Eq)]
pub enum PayloadBuilderError {
    MissingPayload,
    Internal(InternalError),
    EvmExecutionError(EVMError),
    Other(OtherError),
}

/// What a failed execution means for the payload.
pub open spec fn payload_error(err: OpTxExecutorError) -> PayloadBuilderError {
    match err {
        OpTxExecutorError::AccountLoad(_) => PayloadBuilderError::Other(OtherError::Executor(err)),
        OpTxExecutorError::EVMError(err) => PayloadBuilderError::EvmExecutionError(err),
    }
}

impl vstd::std_specs::convert::FromSpecImpl<OpTxExecutorError> for PayloadBuilderError {
    open spec fn obeys_from_spec() -> bool {
        true
    }

    open spec fn from_spec(err: OpTxExecutorError) -> PayloadBuilderError {
        payload_error(err)
    }
}

impl From<OpTxExecutorError> for PayloadBuilderError {
    fn from(err: OpTxExecutorError) -> (r: PayloadBuilderError) {
        match err {
            OpTxExecutorError::AccountLoad(address) => PayloadBuilderError::Other(
                OtherError::Executor(OpTxExecutorError::AccountLoad(address)),
            ),
            OpTxExecutorError::EVMError(err) => PayloadBuilderError::EvmExecutionError(err),
        }
    }
}

impl PayloadBuilderError {
    /// An Optimism-specific failure.
    pub fn other(err: OpPayloadBuilderError) -> (r: PayloadBuilderError)
        ensures
            r == PayloadBuilderError::Other(OtherError::Op(err)),
    {
        PayloadBuilderError::Other(OtherError::Op(err))
    }
}

} // verus!
