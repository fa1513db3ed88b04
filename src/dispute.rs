use vstd::prelude::*;
use crate::access::{authorization, AccessControl, Action};
use crate::errors::EscrowError;
use crate::types::{Escrow, EscrowStatus, Movement, PartyId};

verus! {

/// The dispute path: a depositor or beneficiary moves a funded escrow into
/// dispute, and the arbiter alone decides where the funds go, bypassing quorum.
pub struct DisputeHandler;

/// Exact outcome of raising a dispute: the new record on success.
pub open spec fn initiate_outcome(e: Escrow, caller: PartyId, reason: String) -> Result<Escrow, EscrowError> {
    match authorization(e, caller, Action::InitiateDispute) {
        Err(x) => Err(x),
        Ok(_) => if reason@.len() == 0 {
            Err(EscrowError::EmptyDisputeReason)
        } else {
            Ok(Escrow { status: EscrowStatus::Disputed, dispute_reason: Some(reason), ..e })
        },
    }
}

/// Exact outcome of the arbiter's decision: the new record and the payout.
pub open spec fn resolve_outcome(e: Escrow, caller: PartyId, target: PartyId) -> Result<(Escrow, Movement), EscrowError> {
    match authorization(e, caller, Action::ResolveDispute) {
        Err(x) => Err(x),
        Ok(_) => if !e.is_target(target) {
            Err(EscrowError::InvalidRelease)
        } else {
            Ok(
                (
                    Escrow {
                        status: EscrowStatus::Released,
                        dispute_reason: None,
                        released_to: Some(target),
                        ..e
                    },
                    Movement::Payout { to: target, token: e.token, amount: e.amount },
                ),
            )
        },
    }
}

impl DisputeHandler {
    /// Moves a funded escrow into dispute. No funds move.
    pub fn initiate_dispute(escrow: &mut Escrow, caller: PartyId, reason: String) -> (r: Result<(), EscrowError>)
        ensures
            match initiate_outcome(*old(escrow), caller, reason) {
                Ok(next) => r is Ok && *final(escrow) == next,
                Err(x) => r == Err::<(), EscrowError>(x) && *final(escrow) == *old(escrow),
            },
    {
        if let Err(x) = AccessControl::authorize(escrow, caller, Action::InitiateDispute) {
            return Err(x);
        }
        if reason.as_str().is_empty() {
            return Err(EscrowError::EmptyDisputeReason);
        }
        escrow.status = EscrowStatus::Disputed;
        escrow.dispute_reason = Some(reason);
        Ok(())
    }

    /// The arbiter's final decision on a disputed escrow: the whole amount goes
    /// to `target`, and the escrow is released whichever party that is.
    pub fn resolve_dispute(escrow: &mut Escrow, caller: PartyId, target: PartyId) -> (r: Result<Movement, EscrowError>)
        ensures
            match resolve_outcome(*old(escrow), caller, target) {
                Ok((next, m)) => r == Ok::<Movement, EscrowError>(m) && *final(escrow) == next,
                Err(x) => r == Err::<Movement, EscrowError>(x) && *final(escrow) == *old(escrow),
            },
    {
        if let Err(x) = AccessControl::authorize(escrow, caller, Action::ResolveDispute) {
            return Err(x);
        }
        if !(target == escrow.beneficiary || target == escrow.depositor) {
            return Err(EscrowError::InvalidRelease);
        }
        escrow.status = EscrowStatus::Released;
        escrow.dispute_reason = None;
        escrow.released_to = Some(target);
        Ok(Movement::Payout { to: target, token: escrow.token, amount: escrow.amount })
    }
}

} // verus!
