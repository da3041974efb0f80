use vstd::prelude::*;

verus! {

/// Outcome of one ledger or adapter operation.
pub type TxResult<T> = Result<T, TxError>;

/// The error taxonomy of the engine: a value that violates a business rule at
/// its point of use, a structurally valid request that the current state
/// cannot honor, and a transport failure.
#[derive(Debug, Clone)]
pub enum TxError {
    InvalidArgument(String),
    InvalidOperation(String),
    IoError(String),
}

} // verus!
