use vstd::prelude::*;
use crate::access::{authorization, AccessControl, Action};
use crate::dispute::{initiate_outcome, resolve_outcome, DisputeHandler};
use crate::errors::EscrowError;
use crate::types::{custody_delta_of, Escrow, EscrowStatus, Movement, PartyId, ReleaseApproval};

verus! {

/// Exact outcome of funding: the new record and the deposit into custody.
pub open spec fn fund_outcome(e: Escrow, caller: PartyId) -> Result<(Escrow, Movement), EscrowError> {
    match authorization(e, caller, Action::Fund) {
        Err(x) => Err(x),
        Ok(_) => Ok(
            (
                Escrow { status: EscrowStatus::Funded, ..e },
                Movement::Deposit { from: e.depositor, token: e.token, amount: e.amount },
            ),
        ),
    }
}

/// Whether `party` is already among the approvers recorded in `ap`.
pub open spec fn has_approved(e: Escrow, ap: ReleaseApproval, party: PartyId) -> bool {
    if party == e.depositor {
        ap.by_depositor
    } else if party == e.beneficiary {
        ap.by_beneficiary
    } else {
        ap.by_arbiter
    }
}

/// `ap` with `party`'s approval added.
pub open spec fn with_approval(e: Escrow, ap: ReleaseApproval, party: PartyId) -> ReleaseApproval {
    if party == e.depositor {
        ReleaseApproval { by_depositor: true, ..ap }
    } else if party == e.beneficiary {
        ReleaseApproval { by_beneficiary: true, ..ap }
    } else {
        ReleaseApproval { by_arbiter: true, ..ap }
    }
}

/// `e` with the approval record of `target` replaced by `ap`.
pub open spec fn with_approvals_for(e: Escrow, target: PartyId, ap: ReleaseApproval) -> Escrow {
    if target == e.beneficiary {
        Escrow { release_approvals: ap, ..e }
    } else {
        Escrow { refund_approvals: ap, ..e }
    }
}

/// Quorum: two of the three parties.
pub open spec fn quorum_reached(ap: ReleaseApproval) -> bool {
    ap.spec_count() >= 2
}

/// Exact outcome of an approval: the new record, and the payout when the
/// approval completes the quorum.
pub open spec fn approve_outcome(e: Escrow, caller: PartyId, target: PartyId) -> Result<(Escrow, Option<Movement>), EscrowError> {
    match authorization(e, caller, Action::ApproveRelease) {
        Err(x) => Err(x),
        Ok(_) => if !e.is_target(target) {
            Err(EscrowError::InvalidApprovalTarget)
        } else if has_approved(e, e.approvals_for(target), caller) {
            Err(EscrowError::AlreadySigned)
        } else {
            let ap = with_approval(e, e.approvals_for(target), caller);
            let next = with_approvals_for(e, target, ap);
            if quorum_reached(ap) {
                Ok(
                    (
                        Escrow { status: EscrowStatus::Released, released_to: Some(target), ..next },
                        Some(Movement::Payout { to: target, token: e.token, amount: e.amount }),
                    ),
                )
            } else {
                Ok((next, None))
            }
        },
    }
}

/// Why the terms of a new escrow are refused, if they are: the amount must
/// be positive and the three parties pairwise distinct.
pub open spec fn open_error(depositor: PartyId, beneficiary: PartyId, arbiter: PartyId, amount: i128) -> Option<EscrowError> {
    if amount <= 0 {
        Some(EscrowError::InsufficientFunds)
    } else if depositor == beneficiary || depositor == arbiter || beneficiary == arbiter {
        Some(EscrowError::InvalidSigner)
    } else {
        None
    }
}

impl Escrow {
    /// A new escrow: Pending, with no approvals, no dispute and no release.
    pub open spec fn opened(
        id: u64,
        depositor: PartyId,
        beneficiary: PartyId,
        arbiter: PartyId,
        amount: i128,
        token: u64,
    ) -> Escrow {
        Escrow {
            id,
            depositor,
            beneficiary,
            arbiter,
            amount,
            token,
            status: EscrowStatus::Pending,
            dispute_reason: None,
            release_approvals: ReleaseApproval {
                by_depositor: false,
                by_beneficiary: false,
                by_arbiter: false,
            },
            refund_approvals: ReleaseApproval {
                by_depositor: false,
                by_beneficiary: false,
                by_arbiter: false,
            },
            released_to: None,
        }
    }

    /// Opens escrow `id` at Pending; no funds move.
    pub fn open(
        id: u64,
        depositor: PartyId,
        beneficiary: PartyId,
        arbiter: PartyId,
        amount: i128,
        token: u64,
    ) -> (r: Result<Escrow, EscrowError>)
        ensures
            match open_error(depositor, beneficiary, arbiter, amount) {
                Some(x) => r == Err::<Escrow, EscrowError>(x),
                None => r == Ok::<Escrow, EscrowError>(
                    Escrow::opened(id, depositor, beneficiary, arbiter, amount, token),
                ),
            },
            r matches Ok(e) ==> e.wf() && e.held() == 0,
    {
        if amount <= 0 {
            return Err(EscrowError::InsufficientFunds);
        }
        if depositor == beneficiary || depositor == arbiter || beneficiary == arbiter {
            return Err(EscrowError::InvalidSigner);
        }
        Ok(
            Escrow {
                id,
                depositor,
                beneficiary,
                arbiter,
                amount,
                token,
                status: EscrowStatus::Pending,
                dispute_reason: None,
                release_approvals: ReleaseApproval::none(),
                refund_approvals: ReleaseApproval::none(),
                released_to: None,
            },
        )
    }

    /// Moves a pending escrow to Funded; the host must deposit the returned
    /// movement into custody for the transition to stand.
    pub fn fund(&mut self, caller: PartyId) -> (r: Result<Movement, EscrowError>)
        ensures
            match fund_outcome(*old(self), caller) {
                Ok((next, m)) => r == Ok::<Movement, EscrowError>(m) && *final(self) == next,
                Err(x) => r == Err::<Movement, EscrowError>(x) && *final(self) == *old(self),
            },
    {
        if let Err(x) = AccessControl::authorize(self, caller, Action::Fund) {
            return Err(x);
        }
        self.status = EscrowStatus::Funded;
        Ok(Movement::Deposit { from: self.depositor, token: self.token, amount: self.amount })
    }

    fn approval_of(&self, ap: &ReleaseApproval, party: PartyId) -> (r: bool)
        ensures
            r == has_approved(*self, *ap, party),
    {
        if party == self.depositor {
            ap.by_depositor
        } else if party == self.beneficiary {
            ap.by_beneficiary
        } else {
            ap.by_arbiter
        }
    }

    fn record_approval(&self, ap: ReleaseApproval, party: PartyId) -> (r: ReleaseApproval)
        ensures
            r == with_approval(*self, ap, party),
    {
        let mut r = ap;
        if party == self.depositor {
            r.by_depositor = true;
        } else if party == self.beneficiary {
            r.by_beneficiary = true;
        } else {
            r.by_arbiter = true;
        }
        r
    }

    /// Number of distinct parties that approved releasing to `target`.
    pub fn approval_count(&self, target: PartyId) -> (r: u32)
        ensures
            r == self.approval_count_spec(target),
    {
        if target == self.beneficiary {
            self.release_approvals.count()
        } else if target == self.depositor {
            self.refund_approvals.count()
        } else {
            0
        }
    }

    /// Records `caller`'s approval of releasing the funds to `target`. When two
    /// distinct parties have approved the same target the escrow is released
    /// and the payout to `target` is returned.
    pub fn approve_release(&mut self, caller: PartyId, target: PartyId) -> (r: Result<Option<Movement>, EscrowError>)
        ensures
            match approve_outcome(*old(self), caller, target) {
                Ok((next, m)) => r == Ok::<Option<Movement>, EscrowError>(m) && *final(self) == next,
                Err(x) => r == Err::<Option<Movement>, EscrowError>(x) && *final(self) == *old(self),
            },
    {
        if let Err(x) = AccessControl::authorize(self, caller, Action::ApproveRelease) {
            return Err(x);
        }
        if !(target == self.beneficiary || target == self.depositor) {
            return Err(EscrowError::InvalidApprovalTarget);
        }
        let ap = if target == self.beneficiary {
            self.release_approvals
        } else {
            self.refund_approvals
        };
        if self.approval_of(&ap, caller) {
            return Err(EscrowError::AlreadySigned);
        }
        let ap = self.record_approval(ap, caller);
        if target == self.beneficiary {
            self.release_approvals = ap;
        } else {
            self.refund_approvals = ap;
        }
        if ap.count() >= 2 {
            self.status = EscrowStatus::Released;
            self.released_to = Some(target);
            Ok(Some(Movement::Payout { to: target, token: self.token, amount: self.amount }))
        } else {
            Ok(None)
        }
    }
}

/// Look-up of an escrow identifier: ids start at 1 and are handed out in
/// order of creation, so id `n` is the `n - 1`-th record.
pub open spec fn lookup(s: Seq<Escrow>, id: u64) -> Result<int, EscrowError> {
    if id == 0 {
        Err(EscrowError::InvalidEscrowId)
    } else if id > s.len() {
        Err(EscrowError::EscrowNotFound)
    } else {
        Ok(id - 1)
    }
}

/// The escrow records of the host, kept in order of creation, together with
/// a ledger of the net amount the custodian has received for each of them
/// through the movements handed out.
pub struct EscrowContract {
    escrows: Vec<Escrow>,
    custody: Ghost<Seq<int>>,
}

impl View for EscrowContract {
    type V = Seq<Escrow>;

    closed spec fn view(&self) -> Seq<Escrow> {
        self.escrows@
    }
}

impl EscrowContract {
    /// Net amount that the custodian received for the record at `i` through
    /// the movements handed out: deposits minus payouts.
    pub closed spec fn custody_of(&self, i: int) -> int {
        self.custody@[i]
    }

    pub closed spec fn wf(&self) -> bool {
        &&& self.custody@.len() == self.escrows@.len()
        &&& forall|i: int|
            0 <= i < self.escrows@.len() ==> {
                &&& (#[trigger] self.escrows@[i]).wf()
                &&& self.escrows@[i].id == i + 1
                &&& self.custody@[i] == self.escrows@[i].held()
            }
    }

    /// Every record is well formed, carries its identifier, and the custodian
    /// holds for it exactly what its status says.
    pub proof fn lemma_wf_records(&self, i: int)
        requires
            self.wf(),
            0 <= i < self@.len(),
        ensures
            self@[i].wf(),
            self@[i].id == i + 1,
            self.custody_of(i) == self@[i].held(),
    {
    }

    pub fn new() -> (r: EscrowContract)
        ensures
            r.wf(),
            r@.len() == 0,
    {
        EscrowContract { escrows: Vec::new(), custody: Ghost(Seq::empty()) }
    }

    fn index_of(&self, id: u64) -> (r: Result<usize, EscrowError>)
        ensures
            match r {
                Ok(i) => lookup(self@, id) == Ok::<int, EscrowError>(i as int) && i < self@.len(),
                Err(x) => lookup(self@, id) == Err::<int, EscrowError>(x),
            },
    {
        if id == 0 {
            return Err(EscrowError::InvalidEscrowId);
        }
        if id > self.escrows.len() as u64 {
            return Err(EscrowError::EscrowNotFound);
        }
        Ok((id - 1) as usize)
    }

    /// Opens a new escrow at Pending; no funds move. The depositor must have
    /// authenticated. Returns the fresh identifier.
    pub fn create(
        &mut self,
        depositor: PartyId,
        beneficiary: PartyId,
        arbiter: PartyId,
        amount: i128,
        token: u64,
    ) -> (r: Result<u64, EscrowError>)
        requires
            old(self).wf(),
            old(self)@.len() < usize::MAX,
        ensures
            final(self).wf(),
            match open_error(depositor, beneficiary, arbiter, amount) {
                Some(x) => r == Err::<u64, EscrowError>(x) && final(self)@ == old(self)@
                    && ledger_after(*old(self), *final(self), -1, 0),
                None => r == Ok::<u64, EscrowError>((old(self)@.len() + 1) as u64) && final(self)@
                    == old(self)@.push(
                    Escrow::opened(
                        (old(self)@.len() + 1) as u64,
                        depositor,
                        beneficiary,
                        arbiter,
                        amount,
                        token,
                    ),
                ) && final(self).custody_of(old(self)@.len() as int) == 0 && forall|j: int|
                    0 <= j < old(self)@.len() ==> #[trigger] final(self).custody_of(j) == old(
                        self,
                    ).custody_of(j),
            },
    {
        let id = self.escrows.len() as u64 + 1;
        let escrow = match Escrow::open(id, depositor, beneficiary, arbiter, amount, token) {
            Ok(e) => e,
            Err(x) => return Err(x),
        };
        self.escrows.push(escrow);
        self.custody = Ghost(self.custody@.push(0));
        Ok(id)
    }

    /// Reads an escrow record.
    pub fn get_escrow(&self, id: u64) -> (r: Result<&Escrow, EscrowError>)
        ensures
            match lookup(self@, id) {
                Ok(i) => r == Ok::<&Escrow, EscrowError>(&self@[i]),
                Err(x) => r == Err::<&Escrow, EscrowError>(x),
            },
    {
        match self.index_of(id) {
            Ok(i) => Ok(&self.escrows[i]),
            Err(x) => Err(x),
        }
    }

    /// Number of distinct parties that approved releasing escrow `id` to `target`.
    pub fn get_approval_count(&self, id: u64, target: PartyId) -> (r: Result<u32, EscrowError>)
        ensures
            match lookup(self@, id) {
                Ok(i) => r == Ok::<u32, EscrowError>(
                    self@[i].approval_count_spec(target) as u32,
                ),
                Err(x) => r == Err::<u32, EscrowError>(x),
            },
    {
        match self.index_of(id) {
            Ok(i) => Ok(self.escrows[i].approval_count(target)),
            Err(x) => Err(x),
        }
    }

    /// Funds escrow `id`: only its depositor, only while Pending. The returned
    /// deposit must be performed by the host's custodian; if it fails, the
    /// host discards this call's change to the records.
    pub fn fund_escrow(&mut self, id: u64, caller: PartyId) -> (r: Result<Movement, EscrowError>)
        requires
            old(self).wf(),
        ensures
            final(self).wf(),
            match lookup(old(self)@, id) {
                Err(x) => r == Err::<Movement, EscrowError>(x) && final(self)@ == old(self)@
                    && ledger_after(*old(self), *final(self), -1, 0),
                Ok(i) => match fund_outcome(old(self)@[i], caller) {
                    Ok((next, m)) => r == Ok::<Movement, EscrowError>(m) && final(self)@ == old(
                        self,
                    )@.update(i, next) && ledger_after(*old(self), *final(self), i, m.custody_delta()),
                    Err(x) => r == Err::<Movement, EscrowError>(x) && final(self)@ == old(self)@
                        && ledger_after(*old(self), *final(self), -1, 0),
                },
            },
    {
        let i = match self.index_of(id) {
            Ok(i) => i,
            Err(x) => return Err(x),
        };
        let r = self.escrows[i].fund(caller);
        if let Ok(m) = r {
            self.custody = Ghost(self.custody@.update(i as int, self.custody@[i as int] + m.custody_delta()));
        }
        proof {
            assert forall|j: int| 0 <= j < self.escrows@.len() implies {
                &&& (#[trigger] self.escrows@[j]).wf()
                &&& self.escrows@[j].id == j + 1
                &&& self.custody@[j] == self.escrows@[j].held()
            } by {
                if j != i as int {
                    assert(self.escrows@[j] == old(self).escrows@[j]);
                }
            }
        }
        r
    }

    /// Records `caller`'s approval of releasing escrow `id` to `target`; on
    /// the second distinct approval for the same target the escrow is
    /// released and the payout to perform is returned.
    pub fn approve_release(&mut self, id: u64, caller: PartyId, target: PartyId) -> (r: Result<Option<Movement>, EscrowError>)
        requires
            old(self).wf(),
        ensures
            final(self).wf(),
            match lookup(old(self)@, id) {
                Err(x) => r == Err::<Option<Movement>, EscrowError>(x) && final(self)@ == old(self)@
                    && ledger_after(*old(self), *final(self), -1, 0),
                Ok(i) => match approve_outcome(old(self)@[i], caller, target) {
                    Ok((next, m)) => r == Ok::<Option<Movement>, EscrowError>(m) && final(self)@
                        == old(self)@.update(i, next) && ledger_after(
                        *old(self),
                        *final(self),
                        i,
                        custody_delta_of(m),
                    ),
                    Err(x) => r == Err::<Option<Movement>, EscrowError>(x) && final(self)@ == old(
                        self,
                    )@ && ledger_after(*old(self), *final(self), -1, 0),
                },
            },
    {
        let i = match self.index_of(id) {
            Ok(i) => i,
            Err(x) => return Err(x),
        };
        let r = self.escrows[i].approve_release(caller, target);
        if let Ok(m) = r {
            self.custody = Ghost(self.custody@.update(i as int, self.custody@[i as int] + custody_delta_of(m)));
        }
        proof {
            assert forall|j: int| 0 <= j < self.escrows@.len() implies {
                &&& (#[trigger] self.escrows@[j]).wf()
                &&& self.escrows@[j].id == j + 1
                &&& self.custody@[j] == self.escrows@[j].held()
            } by {
                if j != i as int {
                    assert(self.escrows@[j] == old(self).escrows@[j]);
                }
            }
        }
        r
    }

    /// Moves funded escrow `id` into dispute on behalf of its depositor or
    /// beneficiary, with a non-empty reason. No funds move.
    pub fn initiate_dispute(&mut self, id: u64, caller: PartyId, reason: String) -> (r: Result<(), EscrowError>)
        requires
            old(self).wf(),
        ensures
            final(self).wf(),
            ledger_after(*old(self), *final(self), -1, 0),
            match lookup(old(self)@, id) {
                Err(x) => r == Err::<(), EscrowError>(x) && final(self)@ == old(self)@,
                Ok(i) => match initiate_outcome(old(self)@[i], caller, reason) {
                    Ok(next) => r is Ok && final(self)@ == old(self)@.update(i, next),
                    Err(x) => r == Err::<(), EscrowError>(x) && final(self)@ == old(self)@,
                },
            },
    {
        let i = match self.index_of(id) {
            Ok(i) => i,
            Err(x) => return Err(x),
        };
        let r = DisputeHandler::initiate_dispute(&mut self.escrows[i], caller, reason);
        proof {
            assert forall|j: int| 0 <= j < self.escrows@.len() implies {
                &&& (#[trigger] self.escrows@[j]).wf()
                &&& self.escrows@[j].id == j + 1
                &&& self.custody@[j] == self.escrows@[j].held()
            } by {
                if j != i as int {
                    assert(self.escrows@[j] == old(self).escrows@[j]);
                }
            }
        }
        r
    }

    /// The arbiter's decision on disputed escrow `id`: the escrow is released
    /// and the whole amount is paid to `target`.
    pub fn resolve_dispute(&mut self, id: u64, caller: PartyId, target: PartyId) -> (r: Result<Movement, EscrowError>)
        requires
            old(self).wf(),
        ensures
            final(self).wf(),
            match lookup(old(self)@, id) {
                Err(x) => r == Err::<Movement, EscrowError>(x) && final(self)@ == old(self)@
                    && ledger_after(*old(self), *final(self), -1, 0),
                Ok(i) => match resolve_outcome(old(self)@[i], caller, target) {
                    Ok((next, m)) => r == Ok::<Movement, EscrowError>(m) && final(self)@ == old(
                        self,
                    )@.update(i, next) && ledger_after(*old(self), *final(self), i, m.custody_delta()),
                    Err(x) => r == Err::<Movement, EscrowError>(x) && final(self)@ == old(self)@
                        && ledger_after(*old(self), *final(self), -1, 0),
                },
            },
    {
        let i = match self.index_of(id) {
            Ok(i) => i,
            Err(x) => return Err(x),
        };
        let r = DisputeHandler::resolve_dispute(&mut self.escrows[i], caller, target);
        if let Ok(m) = r {
            self.custody = Ghost(self.custody@.update(i as int, self.custody@[i as int] + m.custody_delta()));
        }
        proof {
            assert forall|j: int| 0 <= j < self.escrows@.len() implies {
                &&& (#[trigger] self.escrows@[j]).wf()
                &&& self.escrows@[j].id == j + 1
                &&& self.custody@[j] == self.escrows@[j].held()
            } by {
                if j != i as int {
                    assert(self.escrows@[j] == old(self).escrows@[j]);
                }
            }
        }
        r
    }
}

/// The custodian's ledger of `after` is that of `before`, with `delta` added
/// for the record at `i` (no record when `i` is out of range).
pub open spec fn ledger_after(before: EscrowContract, after: EscrowContract, i: int, delta: int) -> bool {
    &&& after@.len() == before@.len()
    &&& forall|j: int|
        0 <= j < before@.len() ==> #[trigger] after.custody_of(j) == before.custody_of(j) + if j
            == i {
            delta
        } else {
            0
        }
}

} // verus!
