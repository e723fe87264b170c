use vstd::prelude::*;

verus! {

/// The reasons for which the service itself refuses or abandons an invocation.
#[derive(Clone, Copy, Debug, PartialEq, Eq, Structural)]
pub enum ContractError {
    /// An administrator record already exists.
    AlreadyInitialized,
    /// No administrator record exists yet.
    NotInitialized,
    /// The batch names no recipient.
    EmptyBatch,
    /// The batch has a different number of recipients and amounts.
    LengthMismatch,
    /// Some amount of the batch is zero or negative.
    NonPositiveAmount,
    /// The account that has to authorise the invocation did not.
    AuthorizationFailure,
    /// The token refused one of the transfers.
    TransferFailure,
    /// The host could not do what was asked of it.
    HostResourceFailure,
}

impl ContractError {
    /// The words in which the error is reported.
    pub open spec fn text(self) -> Seq<char> {
        match self {
            ContractError::AlreadyInitialized => "already initialized"@,
            ContractError::NotInitialized => "not initialized"@,
            ContractError::EmptyBatch => "no recipients provided"@,
            ContractError::LengthMismatch => "recipients and amounts length mismatch"@,
            ContractError::NonPositiveAmount => "amount must be positive"@,
            ContractError::AuthorizationFailure => "not authorized"@,
            ContractError::TransferFailure => "transfer failed"@,
            ContractError::HostResourceFailure => "host failure"@,
        }
    }

    /// The words in which the error is reported.
    pub fn message(&self) -> (message: &'static str)
        ensures
            message@ == self.text(),
    {
        match self {
            ContractError::AlreadyInitialized => "already initialized",
            ContractError::NotInitialized => "not initialized",
            ContractError::EmptyBatch => "no recipients provided",
            ContractError::LengthMismatch => "recipients and amounts length mismatch",
            ContractError::NonPositiveAmount => "amount must be positive",
            ContractError::AuthorizationFailure => "not authorized",
            ContractError::TransferFailure => "transfer failed",
            ContractError::HostResourceFailure => "host failure",
        }
    }
}

} // verus!
