//! Laws of the escrow state machine, proved over the exact outcomes that the
//! operations' contracts are stated in.
use vstd::prelude::*;
use crate::dispute::{initiate_outcome, resolve_outcome};
use crate::errors::EscrowError;
use crate::escrow_impl::{approve_outcome, fund_outcome, EscrowContract};
use crate::types::{Escrow, EscrowStatus, Movement, PartyId};

verus! {

/// A successful transition keeps the amount and the three parties.
pub open spec fn keeps_terms(before: Escrow, after: Escrow) -> bool {
    &&& after.amount == before.amount
    &&& after.id == before.id
    &&& after.depositor == before.depositor
    &&& after.beneficiary == before.beneficiary
    &&& after.arbiter == before.arbiter
    &&& after.token == before.token
}

/// The amount and the parties of an escrow never change, and every
/// successful transition moves exactly the funds that take custody from what
/// the old status says is held to what the new status says is held: the
/// amount while Funded or Disputed, nothing otherwise.
pub proof fn lemma_transitions_conserve_custody(
    e: Escrow,
    caller: PartyId,
    target: PartyId,
    reason: String,
)
    requires
        e.wf(),
    ensures
        fund_outcome(e, caller) matches Ok((next, m)) ==> next.wf() && keeps_terms(e, next)
            && next.held() == e.held() + m.custody_delta(),
        approve_outcome(e, caller, target) matches Ok((next, m)) ==> next.wf() && keeps_terms(
            e,
            next,
        ) && next.held() == e.held() + crate::types::custody_delta_of(m),
        initiate_outcome(e, caller, reason) matches Ok(next) ==> next.wf() && keeps_terms(e, next)
            && next.held() == e.held(),
        resolve_outcome(e, caller, target) matches Ok((next, m)) ==> next.wf() && keeps_terms(
            e,
            next,
        ) && next.held() == e.held() + m.custody_delta(),
{
}

/// In every reachable state the custodian holds for an escrow exactly its
/// amount while it is Funded or Disputed, and nothing otherwise.
pub proof fn lemma_custody_matches_status(c: EscrowContract, i: int)
    requires
        c.wf(),
        0 <= i < c@.len(),
    ensures
        c@[i].amount > 0,
        (c@[i].status == EscrowStatus::Funded || c@[i].status == EscrowStatus::Disputed) ==> c.custody_of(i) == c@[i].amount,
        (c@[i].status == EscrowStatus::Pending || c@[i].status == EscrowStatus::Released) ==> c.custody_of(i) == 0,
{
    c.lemma_wf_records(i);
}

/// Release happens once: on a released escrow no party can approve a release
/// or resolve a dispute any more.
pub proof fn lemma_release_exactly_once(e: Escrow, caller: PartyId, target: PartyId)
    requires
        e.status == EscrowStatus::Released,
        e.is_party(caller),
    ensures
        approve_outcome(e, caller, target) == Err::<(Escrow, Option<Movement>), EscrowError>(
            EscrowError::InvalidState,
        ),
        resolve_outcome(e, caller, target) == Err::<(Escrow, Movement), EscrowError>(
            EscrowError::InvalidState,
        ),
{
}

/// The record after a successful approval.
pub open spec fn approved(e: Escrow, caller: PartyId, target: PartyId) -> Escrow {
    approve_outcome(e, caller, target)->Ok_0.0
}

/// A party that approved a target cannot approve it again; after a first
/// approval, a different party's approval of the same target reaches quorum,
/// releases the escrow and pays the whole amount to the target.
pub proof fn lemma_quorum_of_distinct_parties(e: Escrow, first: PartyId, second: PartyId, target: PartyId)
    requires
        e.wf(),
        e.status == EscrowStatus::Funded,
        e.is_party(first),
        e.is_party(second),
        first != second,
        e.is_target(target),
        e.approvals_for(target).spec_count() == 0,
    ensures
        approve_outcome(e, first, target) == Ok::<(Escrow, Option<Movement>), EscrowError>(
            (approved(e, first, target), None),
        ),
        approved(e, first, target).status == EscrowStatus::Funded,
        approved(e, first, target).approvers(target) == set![first],
        approve_outcome(approved(e, first, target), first, target) == Err::<
            (Escrow, Option<Movement>),
            EscrowError,
        >(EscrowError::AlreadySigned),
        approve_outcome(approved(e, first, target), second, target) matches Ok((twice, p))
            && twice.status == EscrowStatus::Released && twice.released_to == Some(target) && p
            == Some(Movement::Payout { to: target, token: e.token, amount: e.amount }),
{
    assert(approved(e, first, target).approvers(target) =~= set![first]);
}

/// A caller outside the three parties is refused every action.
pub proof fn lemma_non_party_refused(e: Escrow, caller: PartyId, target: PartyId, reason: String)
    requires
        !e.is_party(caller),
    ensures
        fund_outcome(e, caller) == Err::<(Escrow, Movement), EscrowError>(
            EscrowError::InvalidSigner,
        ),
        approve_outcome(e, caller, target) == Err::<(Escrow, Option<Movement>), EscrowError>(
            EscrowError::InvalidSigner,
        ),
        initiate_outcome(e, caller, reason) == Err::<Escrow, EscrowError>(
            EscrowError::InvalidSigner,
        ),
        resolve_outcome(e, caller, target) == Err::<(Escrow, Movement), EscrowError>(
            EscrowError::InvalidSigner,
        ),
{
}

/// Only the arbiter resolves a dispute; the arbiter's resolution of a
/// disputed escrow in favour of either party always releases it and pays that
/// party exactly the amount.
pub proof fn lemma_arbiter_resolves(e: Escrow, caller: PartyId, target: PartyId)
    ensures
        caller != e.arbiter ==> (resolve_outcome(e, caller, target) is Err),
        e.status == EscrowStatus::Disputed && caller == e.arbiter && e.is_target(target)
            ==> (resolve_outcome(e, caller, target) matches Ok((next, m)) && next.status
            == EscrowStatus::Released && next.released_to == Some(target) && m
            == (Movement::Payout { to: target, token: e.token, amount: e.amount })),
{
}

} // verus!
