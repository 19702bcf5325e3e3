//! The errors of the ingest service and the status that a caller is told.

use vstd::prelude::*;

verus! {

/// The ledger could not tell its block count.
#[derive(Clone, Copy, Debug, PartialEq, Eq, Structural)]
pub enum LedgerError {
    /// Reading the ledger failed.
    Unreadable,
}

/// The enclave could not make a key pair.
#[derive(Clone, Copy, Debug, PartialEq, Eq, Structural)]
pub enum EnclaveError {
    /// Key generation failed.
    KeyGeneration,
}

/// The persistence layer could not store what it was asked to.
#[derive(Clone, Copy, Debug, PartialEq, Eq, Structural)]
pub enum StorageError {
    /// A write was not made durable.
    WriteFailed,
}

/// Why an operation of the ingest service failed.
#[derive(Clone, Copy, Debug, PartialEq, Eq, Structural)]
pub enum IngestServiceError {
    /// The operation is legal only while the node is idle.
    NotIdle,
    /// The operation is legal only while the node is active.
    NotActive,
    /// A block range that holds no block.
    InvalidBlockRange,
    /// A peer address that does not follow the addressing grammar.
    InvalidPeerUri,
    /// The enclave handed out the key that is already in use.
    KeyNotFresh,
    /// The enclave failed.
    Enclave(EnclaveError),
    /// The persistence layer failed.
    Storage(StorageError),
    /// The ledger failed.
    Ledger(LedgerError),
}

/// The classes of failure that a caller can tell apart.
#[derive(Clone, Copy, Debug, PartialEq, Eq, Structural)]
pub enum StatusCode {
    /// The caller's data is malformed; it must be corrected.
    InvalidArgument,
    /// The node's state forbids the operation.
    FailedPrecondition,
    /// The enclave or the persistence layer failed.
    Internal,
    /// The ledger height could not be read.
    Unavailable,
}

/// The operations of the ingest service.
#[derive(Clone, Copy, Debug, PartialEq, Eq, Structural)]
pub enum Operation {
    GetStatus,
    NewKeys,
    SetPubkeyExpiryWindow,
    SetPeers,
    Activate,
    Retire,
    ReportMissedBlockRange,
    GetMissedBlockRanges,
}

/// A classified failure: its class, the operation that failed, and the cause.
#[derive(Clone, Copy, Debug, PartialEq, Eq, Structural)]
pub struct RpcStatus {
    pub code: StatusCode,
    pub operation: Operation,
    pub cause: IngestServiceError,
}

/// The class of each error.
pub open spec fn status_code_of(e: IngestServiceError) -> StatusCode {
    match e {
        IngestServiceError::NotIdle | IngestServiceError::NotActive =>
            StatusCode::FailedPrecondition,
        IngestServiceError::InvalidBlockRange | IngestServiceError::InvalidPeerUri =>
            StatusCode::InvalidArgument,
        IngestServiceError::KeyNotFresh
        | IngestServiceError::Enclave(_)
        | IngestServiceError::Storage(_) => StatusCode::Internal,
        IngestServiceError::Ledger(_) => StatusCode::Unavailable,
    }
}

/// The status that reports the failure `cause` of the operation `operation`.
pub open spec fn status_of(operation: Operation, cause: IngestServiceError) -> RpcStatus {
    RpcStatus { code: status_code_of(cause), operation, cause }
}

/// Whether `res` is the failure `cause` of the operation `operation`.
pub open spec fn fails_with<T>(
    res: Result<T, RpcStatus>,
    operation: Operation,
    cause: IngestServiceError,
) -> bool {
    res matches Err(status) && status == status_of(operation, cause)
}

impl IngestServiceError {
    /// The class of this error.
    pub fn status_code(&self) -> (code: StatusCode)
        ensures
            code == status_code_of(*self),
    {
        match self {
            IngestServiceError::NotIdle => StatusCode::FailedPrecondition,
            IngestServiceError::NotActive => StatusCode::FailedPrecondition,
            IngestServiceError::InvalidBlockRange => StatusCode::InvalidArgument,
            IngestServiceError::InvalidPeerUri => StatusCode::InvalidArgument,
            IngestServiceError::KeyNotFresh => StatusCode::Internal,
            IngestServiceError::Enclave(_) => StatusCode::Internal,
            IngestServiceError::Storage(_) => StatusCode::Internal,
            IngestServiceError::Ledger(_) => StatusCode::Unavailable,
        }
    }
}

impl RpcStatus {
    /// The status that reports the failure `cause` of the operation
    /// `operation`.
    pub fn new(operation: Operation, cause: IngestServiceError) -> (status: RpcStatus)
        ensures
            status == status_of(operation, cause),
    {
        RpcStatus { code: cause.status_code(), operation, cause }
    }
}

} // verus!
