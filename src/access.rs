use vstd::prelude::*;
use crate::errors::EscrowError;
use crate::types::{Escrow, EscrowStatus, PartyId};

verus! {

/// The state-changing actions a party can request on an escrow.
#[derive(Clone, Copy, Debug, PartialEq, Eq, Structural)]
pub enum Action {
    Fund,
    ApproveRelease,
    InitiateDispute,
    ResolveDispute,
}

/// Decides whether a caller may perform an action on an escrow in its current
/// state. Pure: it reads the record and changes nothing.
pub struct AccessControl;

/// The status an action is legal from.
pub open spec fn status_allows(action: Action, status: EscrowStatus) -> bool {
    match action {
        Action::Fund => status == EscrowStatus::Pending,
        Action::ApproveRelease => status == EscrowStatus::Funded,
        Action::InitiateDispute => status == EscrowStatus::Funded,
        Action::ResolveDispute => status == EscrowStatus::Disputed,
    }
}

/// The roles that may request an action.
pub open spec fn role_allows(e: Escrow, caller: PartyId, action: Action) -> bool {
    match action {
        Action::Fund => caller == e.depositor,
        Action::ApproveRelease => e.is_party(caller),
        Action::InitiateDispute => caller == e.depositor || caller == e.beneficiary,
        Action::ResolveDispute => caller == e.arbiter,
    }
}

/// Outcome of the authorization check. A caller outside the three parties is
/// an invalid signer; then the status decides; then the caller's role.
pub open spec fn authorization(e: Escrow, caller: PartyId, action: Action) -> Result<(), EscrowError> {
    if !e.is_party(caller) {
        Err(EscrowError::InvalidSigner)
    } else if !status_allows(action, e.status) {
        if action == Action::InitiateDispute && e.status == EscrowStatus::Disputed {
            Err(EscrowError::DisputeActive)
        } else {
            Err(EscrowError::InvalidState)
        }
    } else if !role_allows(e, caller, action) {
        Err(EscrowError::NotAuthorized)
    } else {
        Ok(())
    }
}

impl AccessControl {
    pub fn is_party(escrow: &Escrow, caller: PartyId) -> (r: bool)
        ensures
            r == escrow.is_party(caller),
    {
        caller == escrow.depositor || caller == escrow.beneficiary || caller == escrow.arbiter
    }

    pub fn authorize(escrow: &Escrow, caller: PartyId, action: Action) -> (r: Result<(), EscrowError>)
        ensures
            r == authorization(*escrow, caller, action),
    {
        if !Self::is_party(escrow, caller) {
            return Err(EscrowError::InvalidSigner);
        }
        let status_ok = match action {
            Action::Fund => escrow.status == EscrowStatus::Pending,
            Action::ApproveRelease => escrow.status == EscrowStatus::Funded,
            Action::InitiateDispute => escrow.status == EscrowStatus::Funded,
            Action::ResolveDispute => escrow.status == EscrowStatus::Disputed,
        };
        if !status_ok {
            if action == Action::InitiateDispute && escrow.status == EscrowStatus::Disputed {
                return Err(EscrowError::DisputeActive);
            }
            return Err(EscrowError::InvalidState);
        }
        let role_ok = match action {
            Action::Fund => caller == escrow.depositor,
            Action::ApproveRelease => true,
            Action::InitiateDispute => caller == escrow.depositor || caller == escrow.beneficiary,
            Action::ResolveDispute => caller == escrow.arbiter,
        };
        if !role_ok {
            return Err(EscrowError::NotAuthorized);
        }
        Ok(())
    }
}

} // verus!
