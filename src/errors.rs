use vstd::prelude::*;

verus! {

/// Failures of the escrow engine. Each is an expected business condition.
#[derive(Clone, Copy, Debug, PartialEq, Eq, Structural)]
pub enum EscrowError {
    /// Caller is not authorized to perform this action
    NotAuthorized,
    /// Escrow is in an invalid state for this operation
    InvalidState,
    /// Insufficient funds for the operation
    InsufficientFunds,
    /// Signer has already approved this release
    AlreadySigned,
    /// Signer is not a valid party to this escrow
    InvalidSigner,
    /// Escrow is actively under dispute
    DisputeActive,
    /// Invalid release target address
    InvalidRelease,
    /// Invalid escrow ID
    InvalidEscrowId,
    /// Escrow does not exist
    EscrowNotFound,
    /// Dispute reason string is empty
    EmptyDisputeReason,
    /// Invalid approval target (neither beneficiary nor depositor)
    InvalidApprovalTarget,
}

impl EscrowError {
    /// The stable numeric code of the error.
    pub fn code(&self) -> (r: u32)
        ensures
            1 <= r <= 11,
            r == self.spec_code(),
    {
        match self {
            EscrowError::NotAuthorized => 1,
            EscrowError::InvalidState => 2,
            EscrowError::InsufficientFunds => 3,
            EscrowError::AlreadySigned => 4,
            EscrowError::InvalidSigner => 5,
            EscrowError::DisputeActive => 6,
            EscrowError::InvalidRelease => 7,
            EscrowError::InvalidEscrowId => 8,
            EscrowError::EscrowNotFound => 9,
            EscrowError::EmptyDisputeReason => 10,
            EscrowError::InvalidApprovalTarget => 11,
        }
    }

    pub open spec fn spec_code(&self) -> u32 {
        match self {
            EscrowError::NotAuthorized => 1,
            EscrowError::InvalidState => 2,
            EscrowError::InsufficientFunds => 3,
            EscrowError::AlreadySigned => 4,
            EscrowError::InvalidSigner => 5,
            EscrowError::DisputeActive => 6,
            EscrowError::InvalidRelease => 7,
            EscrowError::InvalidEscrowId => 8,
            EscrowError::EscrowNotFound => 9,
            EscrowError::EmptyDisputeReason => 10,
            EscrowError::InvalidApprovalTarget => 11,
        }
    }
}

/// Failures of the rent-agreement and profile records.
#[derive(Clone, Copy, Debug, PartialEq, Eq, Structural)]
pub enum Error {
    AgreementAlreadyExists,
    InvalidAmount,
    InvalidDate,
    InvalidCommissionRate,
    PaymentNotFound,
    InvalidAccountType,
    InvalidDataHash,
    ProfileNotFound,
    RateLimited,
}

impl Error {
    /// The stable numeric code of the error.
    pub fn code(&self) -> (r: u32)
        ensures
            r == self.spec_code(),
    {
        match self {
            Error::AgreementAlreadyExists => 4,
            Error::InvalidAmount => 5,
            Error::InvalidDate => 6,
            Error::InvalidCommissionRate => 7,
            Error::PaymentNotFound => 11,
            Error::InvalidAccountType => 12,
            Error::InvalidDataHash => 13,
            Error::ProfileNotFound => 14,
            Error::RateLimited => 15,
        }
    }

    pub open spec fn spec_code(&self) -> u32 {
        match self {
            Error::AgreementAlreadyExists => 4,
            Error::InvalidAmount => 5,
            Error::InvalidDate => 6,
            Error::InvalidCommissionRate => 7,
            Error::PaymentNotFound => 11,
            Error::InvalidAccountType => 12,
            Error::InvalidDataHash => 13,
            Error::ProfileNotFound => 14,
            Error::RateLimited => 15,
        }
    }
}

} // verus!
