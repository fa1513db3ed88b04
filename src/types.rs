use vstd::prelude::*;

verus! {

/// Identity of a party (depositor, beneficiary or arbiter) as proven by the host.
pub type PartyId = u64;

/// Where an escrow stands. `Pending -> Funded -> Released` is the happy path,
/// `Funded -> Disputed -> Released` the dispute path; `Released` is terminal.
#[derive(Clone, Copy, Debug, PartialEq, Eq, Structural)]
pub enum EscrowStatus {
    Pending,
    Funded,
    Released,
    Disputed,
}

/// Which of the three parties approved releasing the funds to one target.
#[derive(Clone, Copy, Debug, PartialEq, Eq, Structural)]
pub struct ReleaseApproval {
    pub by_depositor: bool,
    pub by_beneficiary: bool,
    pub by_arbiter: bool,
}

impl ReleaseApproval {
    pub open spec fn flag(b: bool) -> nat {
        if b {
            1
        } else {
            0
        }
    }

    /// Number of distinct parties that approved.
    pub open spec fn spec_count(&self) -> nat {
        Self::flag(self.by_depositor) + Self::flag(self.by_beneficiary) + Self::flag(
            self.by_arbiter,
        )
    }

    pub fn none() -> (r: ReleaseApproval)
        ensures
            r.spec_count() == 0,
            !r.by_depositor && !r.by_beneficiary && !r.by_arbiter,
    {
        ReleaseApproval { by_depositor: false, by_beneficiary: false, by_arbiter: false }
    }

    pub fn count(&self) -> (r: u32)
        ensures
            r == self.spec_count(),
    {
        let mut n: u32 = 0;
        if self.by_depositor {
            n = n + 1;
        }
        if self.by_beneficiary {
            n = n + 1;
        }
        if self.by_arbiter {
            n = n + 1;
        }
        n
    }
}

/// A custody record binding three parties around a fixed amount.
#[derive(Debug)]
pub struct Escrow {
    pub id: u64,
    pub depositor: PartyId,
    pub beneficiary: PartyId,
    pub arbiter: PartyId,
    /// The custody amount; fixed at creation.
    pub amount: i128,
    /// Identifier of the asset held in custody.
    pub token: u64,
    pub status: EscrowStatus,
    /// Set only while the escrow is disputed.
    pub dispute_reason: Option<String>,
    /// Approvals for releasing the funds to the beneficiary.
    pub release_approvals: ReleaseApproval,
    /// Approvals for releasing the funds back to the depositor.
    pub refund_approvals: ReleaseApproval,
    /// The party that received the funds, once released.
    pub released_to: Option<PartyId>,
}

/// A movement of value that the host's custodian performs for a transition.
#[derive(Clone, Copy, Debug, PartialEq, Eq, Structural)]
pub enum Movement {
    /// Custody receives `amount` of `token` from `from`.
    Deposit { from: PartyId, token: u64, amount: i128 },
    /// Custody pays `amount` of `token` out to `to`.
    Payout { to: PartyId, token: u64, amount: i128 },
}

impl Movement {
    /// Change of the custodian's holdings that the movement causes.
    pub open spec fn custody_delta(self) -> int {
        match self {
            Movement::Deposit { amount, .. } => amount as int,
            Movement::Payout { amount, .. } => -(amount as int),
        }
    }
}

/// Change of custody for an optional movement.
pub open spec fn custody_delta_of(m: Option<Movement>) -> int {
    match m {
        Some(mv) => mv.custody_delta(),
        None => 0,
    }
}

impl Escrow {
    pub open spec fn is_party(&self, who: PartyId) -> bool {
        who == self.depositor || who == self.beneficiary || who == self.arbiter
    }

    /// Funds the custodian holds for this escrow in its current state.
    pub open spec fn held(&self) -> int {
        match self.status {
            EscrowStatus::Funded | EscrowStatus::Disputed => self.amount as int,
            _ => 0,
        }
    }

    /// The approval record kept for a release target.
    pub open spec fn approvals_for(&self, target: PartyId) -> ReleaseApproval {
        if target == self.beneficiary {
            self.release_approvals
        } else {
            self.refund_approvals
        }
    }

    /// Number of distinct parties that approved releasing to `target`; none
    /// for a party that cannot receive the funds.
    pub open spec fn approval_count_spec(&self, target: PartyId) -> nat {
        if self.is_target(target) {
            self.approvals_for(target).spec_count()
        } else {
            0
        }
    }

    /// The set of distinct parties that approved releasing to `target`.
    pub open spec fn approvers(&self, target: PartyId) -> Set<PartyId> {
        let ap = self.approvals_for(target);
        Set::new(
            |p: PartyId|
                self.is_target(target) && ((ap.by_depositor && p == self.depositor) || (
                ap.by_beneficiary && p == self.beneficiary) || (ap.by_arbiter && p == self.arbiter)),
        )
    }

    /// A legitimate release target: the beneficiary or the depositor.
    pub open spec fn is_target(&self, target: PartyId) -> bool {
        target == self.beneficiary || target == self.depositor
    }

    pub open spec fn wf(&self) -> bool {
        &&& self.amount > 0
        &&& self.depositor != self.beneficiary
        &&& self.depositor != self.arbiter
        &&& self.beneficiary != self.arbiter
        &&& (self.status == EscrowStatus::Disputed <==> self.dispute_reason.is_some())
        &&& (self.status == EscrowStatus::Released <==> self.released_to.is_some())
        &&& (self.released_to matches Some(t) ==> self.is_target(t))
    }
}

} // verus!
