//! TiKV-specific errors.

use vstd::prelude::*;
use crate::text::{contains_seq, contains_str, owned};

verus! {

/// TiKV-specific error type.
#[derive(Debug, Clone)]
pub enum TikvError {
    /// Connection failed to TiKV cluster.
    ConnectionFailed(String),
    /// Transaction aborted.
    TransactionAborted(String),
    /// Key not found.
    KeyNotFound(String),
    /// Serialization error.
    Serialization(String),
    /// Deserialization error.
    Deserialization(String),
    /// CAS (Compare-And-Swap) operation failed.
    CasFailed { expected: u64, got: u64 },
    /// Lock acquisition failed.
    LockAcquisitionFailed(String),
    /// Invalid configuration.
    InvalidConfig(String),
    /// Timeout.
    Timeout(String),
    /// Write conflict detected (should be retried).
    WriteConflict,
    /// Wrapped TiKV client error.
    ClientError(String),
    /// Retryable error with context.
    Retryable { attempt: u32, max: u32, message: String },
    /// The circuit breaker rejected the call.
    CircuitOpen { failures: u32 },
    /// Generic error with context.
    Other(String),
}

/// A message that reports a write conflict or a key version clash.
pub open spec fn conflict_message(m: Seq<char>) -> bool {
    contains_seq(m, "WriteConflict"@) || contains_seq(m, "Write Conflict"@) || contains_seq(
        m,
        "key_version"@,
    )
}

/// Whether `m` names a write conflict or a key version clash (the spelling
/// `Write Conflict` is not counted here).
pub open spec fn names_write_conflict(m: Seq<char>) -> bool {
    contains_seq(m, "WriteConflict"@) || contains_seq(m, "key_version"@)
}

impl TikvError {
    /// Errors worth retrying: write conflicts, retryable errors, timeouts,
    /// connection failures and lock acquisition failures, and aborted
    /// transactions or client errors whose message reports a conflict.
    pub open spec fn retryable_spec(&self) -> bool {
        match self {
            TikvError::WriteConflict => true,
            TikvError::Retryable { .. } => true,
            TikvError::Timeout(_) => true,
            TikvError::ConnectionFailed(_) => true,
            TikvError::TransactionAborted(m) => conflict_message(m@),
            TikvError::ClientError(m) => conflict_message(m@),
            TikvError::LockAcquisitionFailed(_) => true,
            _ => false,
        }
    }

    /// A write conflict, or an aborted transaction or client error whose
    /// message names one.
    pub open spec fn write_conflict_spec(&self) -> bool {
        match self {
            TikvError::WriteConflict => true,
            TikvError::TransactionAborted(m) => names_write_conflict(m@),
            TikvError::ClientError(m) => names_write_conflict(m@),
            _ => false,
        }
    }

    /// Check if this error is retryable.
    ///
    /// Write conflicts, timeouts, connection failures, and transaction aborts
    /// are all considered retryable. Lock acquisition failures can be retried
    /// with backoff as the lock may become available.
    pub fn is_retryable(&self) -> (r: bool)
        ensures
            r == self.retryable_spec(),
    {
        match self {
            TikvError::WriteConflict => true,
            TikvError::Retryable { .. } => true,
            TikvError::Timeout(_) => true,
            TikvError::ConnectionFailed(_) => true,
            TikvError::TransactionAborted(msg) => message_reports_conflict(msg),
            TikvError::ClientError(msg) => message_reports_conflict(msg),
            TikvError::LockAcquisitionFailed(_) => true,
            _ => false,
        }
    }

    /// Check if this error is a write conflict.
    pub fn is_write_conflict(&self) -> (r: bool)
        ensures
            r == self.write_conflict_spec(),
    {
        proof {
            reveal_strlit("WriteConflict");
            reveal_strlit("key_version");
        }
        match self {
            TikvError::WriteConflict => true,
            TikvError::TransactionAborted(msg) => contains_str(msg.as_str(), "WriteConflict")
                || contains_str(msg.as_str(), "key_version"),
            TikvError::ClientError(msg) => contains_str(msg.as_str(), "WriteConflict")
                || contains_str(msg.as_str(), "key_version"),
            _ => false,
        }
    }

    /// Create a retryable error.
    pub fn retryable(attempt: u32, max: u32, message: &str) -> (r: Self)
        ensures
            r matches TikvError::Retryable { attempt: a, max: m, message: s } && a == attempt && m
                == max && s@ == message@,
    {
        TikvError::Retryable { attempt, max, message: owned(message) }
    }
}

/// Whether `msg` reports a write conflict or a key version clash.
/// Which errors are worth retrying: every retryable error (whatever its
/// attempt, limit and message), every timeout, connection failure, lock
/// acquisition failure and write conflict; an aborted transaction or a
/// client error exactly when its message mentions "WriteConflict",
/// "Write Conflict" or "key_version"; no missing key, (de)serialization
/// failure, failed compare-and-swap, invalid configuration, open circuit or
/// other error. Every write conflict is retryable.
pub proof fn law_retryable(e: TikvError, attempt: u32, max: u32, m: String)
    ensures
        (TikvError::Retryable { attempt, max, message: m }).retryable_spec(),
        (TikvError::Timeout(m)).retryable_spec(),
        (TikvError::ConnectionFailed(m)).retryable_spec(),
        (TikvError::LockAcquisitionFailed(m)).retryable_spec(),
        (TikvError::WriteConflict).retryable_spec(),
        (TikvError::TransactionAborted(m)).retryable_spec() == (contains_seq(m@, "WriteConflict"@)
            || contains_seq(m@, "Write Conflict"@) || contains_seq(m@, "key_version"@)),
        (TikvError::ClientError(m)).retryable_spec() == (contains_seq(m@, "WriteConflict"@)
            || contains_seq(m@, "Write Conflict"@) || contains_seq(m@, "key_version"@)),
        !(TikvError::KeyNotFound(m)).retryable_spec(),
        !(TikvError::Serialization(m)).retryable_spec(),
        !(TikvError::Deserialization(m)).retryable_spec(),
        !(TikvError::CasFailed { expected: attempt as u64, got: max as u64 }).retryable_spec(),
        !(TikvError::InvalidConfig(m)).retryable_spec(),
        !(TikvError::CircuitOpen { failures: attempt }).retryable_spec(),
        !(TikvError::Other(m)).retryable_spec(),
        e.write_conflict_spec() ==> e.retryable_spec(),
{
}

fn message_reports_conflict(msg: &String) -> (r: bool)
    ensures
        r == conflict_message(msg@),
{
    contains_str(msg.as_str(), "WriteConflict") || contains_str(msg.as_str(), "Write Conflict")
        || contains_str(msg.as_str(), "key_version")
}

} // verus!
