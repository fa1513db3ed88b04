use chioma_escrow::{DisputeHandler, Escrow, EscrowContract, EscrowError, EscrowStatus, Movement};

const DEPOSITOR: u64 = 10;
const BENEFICIARY: u64 = 20;
const ARBITER: u64 = 30;
const STRANGER: u64 = 99;
const TOKEN: u64 = 7;

/// Token balances of the three parties and of custody, moved the way the
/// host's custodian would move them.
struct Ledger {
    depositor: i128,
    beneficiary: i128,
    custody: i128,
}

impl Ledger {
    fn apply(&mut self, m: Movement) {
        match m {
            Movement::Deposit { from, amount, .. } => {
                assert_eq!(from, DEPOSITOR);
                self.depositor -= amount;
                self.custody += amount;
            }
            Movement::Payout { to, amount, .. } => {
                self.custody -= amount;
                if to == DEPOSITOR {
                    self.depositor += amount;
                } else {
                    assert_eq!(to, BENEFICIARY);
                    self.beneficiary += amount;
                }
            }
        }
    }
}

fn setup_funded(amount: i128) -> (EscrowContract, u64) {
    let mut client = EscrowContract::new();
    let id = client.create(DEPOSITOR, BENEFICIARY, ARBITER, amount, TOKEN).unwrap();
    client.fund_escrow(id, DEPOSITOR).unwrap();
    (client, id)
}

#[test]
fn test_escrow_lifecycle() {
    let mut client = EscrowContract::new();
    let amount = 1000i128;

    let escrow_id = client.create(DEPOSITOR, BENEFICIARY, ARBITER, amount, TOKEN).unwrap();
    let escrow = client.get_escrow(escrow_id).unwrap();
    assert_eq!(escrow.status, EscrowStatus::Pending);
    assert_eq!(escrow.amount, amount);

    let mut ledger = Ledger { depositor: amount, beneficiary: 0, custody: 0 };
    assert_eq!(ledger.depositor, amount);
    assert_eq!(ledger.custody, 0);

    let deposit = client.fund_escrow(escrow_id, DEPOSITOR).unwrap();
    assert_eq!(deposit, Movement::Deposit { from: DEPOSITOR, token: TOKEN, amount });
    ledger.apply(deposit);

    let escrow = client.get_escrow(escrow_id).unwrap();
    assert_eq!(escrow.status, EscrowStatus::Funded);
    assert_eq!(ledger.depositor, 0);
    assert_eq!(ledger.custody, amount);

    let first = client.approve_release(escrow_id, DEPOSITOR, BENEFICIARY).unwrap();
    assert_eq!(first, None);
    assert_eq!(client.get_approval_count(escrow_id, BENEFICIARY), Ok(1));
    assert_eq!(client.get_escrow(escrow_id).unwrap().status, EscrowStatus::Funded);

    let second = client.approve_release(escrow_id, ARBITER, BENEFICIARY).unwrap();
    ledger.apply(second.unwrap());

    let escrow = client.get_escrow(escrow_id).unwrap();
    assert_eq!(escrow.status, EscrowStatus::Released);
    assert_eq!(escrow.released_to, Some(BENEFICIARY));
    assert_eq!(ledger.beneficiary, amount);
    assert_eq!(ledger.custody, 0);
}

#[test]
fn test_dispute_resolution() {
    let amount = 1000i128;
    let (mut client, escrow_id) = setup_funded(amount);
    let mut ledger = Ledger { depositor: 0, beneficiary: 0, custody: amount };

    let reason = String::from("Service not delivered");
    client.initiate_dispute(escrow_id, BENEFICIARY, reason.clone()).unwrap();

    let escrow = client.get_escrow(escrow_id).unwrap();
    assert_eq!(escrow.status, EscrowStatus::Disputed);
    assert_eq!(escrow.dispute_reason, Some(reason));

    let payout = client.resolve_dispute(escrow_id, ARBITER, DEPOSITOR).unwrap();
    assert_eq!(payout, Movement::Payout { to: DEPOSITOR, token: TOKEN, amount });
    ledger.apply(payout);

    let escrow = client.get_escrow(escrow_id).unwrap();
    assert_eq!(escrow.status, EscrowStatus::Released);
    assert_eq!(escrow.released_to, Some(DEPOSITOR));
    assert_eq!(ledger.depositor, amount);
    assert_eq!(ledger.custody, 0);
}

#[test]
fn test_unauthorized_funding() {
    let mut client = EscrowContract::new();
    let amount = 1000i128;
    let escrow_id = client.create(DEPOSITOR, BENEFICIARY, ARBITER, amount, TOKEN).unwrap();

    let result = client.fund_escrow(escrow_id, BENEFICIARY);
    assert!(result.is_err());
    assert_eq!(result, Err(EscrowError::NotAuthorized));
    assert_eq!(client.get_escrow(escrow_id).unwrap().status, EscrowStatus::Pending);
}

#[test]
fn approval_is_refused_while_disputed() {
    let (mut client, id) = setup_funded(1000);
    client.initiate_dispute(id, BENEFICIARY, String::from("reason")).unwrap();
    assert_eq!(client.approve_release(id, DEPOSITOR, BENEFICIARY), Err(EscrowError::InvalidState));
    assert_eq!(
        client.initiate_dispute(id, DEPOSITOR, String::from("again")),
        Err(EscrowError::DisputeActive)
    );
    assert_eq!(
        client.resolve_dispute(id, ARBITER, DEPOSITOR),
        Ok(Movement::Payout { to: DEPOSITOR, token: TOKEN, amount: 1000 })
    );
    assert_eq!(client.get_escrow(id).unwrap().dispute_reason, None);
}

#[test]
fn duplicate_approval_is_already_signed() {
    let (mut client, id) = setup_funded(500);
    assert_eq!(client.approve_release(id, BENEFICIARY, BENEFICIARY), Ok(None));
    assert_eq!(client.approve_release(id, BENEFICIARY, BENEFICIARY), Err(EscrowError::AlreadySigned));
    assert_eq!(client.get_approval_count(id, BENEFICIARY), Ok(1));
    assert_eq!(client.get_escrow(id).unwrap().status, EscrowStatus::Funded);
    assert_eq!(
        client.approve_release(id, DEPOSITOR, BENEFICIARY),
        Ok(Some(Movement::Payout { to: BENEFICIARY, token: TOKEN, amount: 500 }))
    );
    assert_eq!(client.get_approval_count(id, BENEFICIARY), Ok(2));
}

#[test]
fn approvals_for_different_targets_are_counted_apart() {
    let (mut client, id) = setup_funded(300);
    assert_eq!(client.approve_release(id, DEPOSITOR, DEPOSITOR), Ok(None));
    assert_eq!(client.approve_release(id, BENEFICIARY, BENEFICIARY), Ok(None));
    assert_eq!(client.get_approval_count(id, DEPOSITOR), Ok(1));
    assert_eq!(client.get_approval_count(id, BENEFICIARY), Ok(1));
    assert_eq!(
        client.approve_release(id, ARBITER, DEPOSITOR),
        Ok(Some(Movement::Payout { to: DEPOSITOR, token: TOKEN, amount: 300 }))
    );
    assert_eq!(client.get_escrow(id).unwrap().released_to, Some(DEPOSITOR));
}

#[test]
fn release_happens_once() {
    let (mut client, id) = setup_funded(1000);
    client.approve_release(id, DEPOSITOR, BENEFICIARY).unwrap();
    client.approve_release(id, ARBITER, BENEFICIARY).unwrap();
    for caller in [DEPOSITOR, BENEFICIARY, ARBITER] {
        assert_eq!(client.approve_release(id, caller, BENEFICIARY), Err(EscrowError::InvalidState));
        assert_eq!(client.resolve_dispute(id, caller, BENEFICIARY), Err(EscrowError::InvalidState));
    }
    assert_eq!(client.fund_escrow(id, DEPOSITOR), Err(EscrowError::InvalidState));
}

#[test]
fn non_party_is_refused_every_action() {
    let mut client = EscrowContract::new();
    let id = client.create(DEPOSITOR, BENEFICIARY, ARBITER, 1000, TOKEN).unwrap();
    assert_eq!(client.fund_escrow(id, STRANGER), Err(EscrowError::InvalidSigner));
    client.fund_escrow(id, DEPOSITOR).unwrap();
    assert_eq!(client.approve_release(id, STRANGER, BENEFICIARY), Err(EscrowError::InvalidSigner));
    assert_eq!(
        client.initiate_dispute(id, STRANGER, String::from("x")),
        Err(EscrowError::InvalidSigner)
    );
    client.initiate_dispute(id, DEPOSITOR, String::from("x")).unwrap();
    assert_eq!(client.resolve_dispute(id, STRANGER, BENEFICIARY), Err(EscrowError::InvalidSigner));
}

#[test]
fn only_the_arbiter_resolves() {
    let (mut client, id) = setup_funded(750);
    client.initiate_dispute(id, DEPOSITOR, String::from("late")).unwrap();
    assert_eq!(client.resolve_dispute(id, DEPOSITOR, DEPOSITOR), Err(EscrowError::NotAuthorized));
    assert_eq!(client.resolve_dispute(id, BENEFICIARY, BENEFICIARY), Err(EscrowError::NotAuthorized));
    assert_eq!(client.resolve_dispute(id, ARBITER, ARBITER), Err(EscrowError::InvalidRelease));
    assert_eq!(client.get_escrow(id).unwrap().status, EscrowStatus::Disputed);
    assert_eq!(
        client.resolve_dispute(id, ARBITER, BENEFICIARY),
        Ok(Movement::Payout { to: BENEFICIARY, token: TOKEN, amount: 750 })
    );
    assert_eq!(client.get_escrow(id).unwrap().status, EscrowStatus::Released);
}

#[test]
fn arbiter_cannot_raise_a_dispute() {
    let (mut client, id) = setup_funded(10);
    assert_eq!(
        client.initiate_dispute(id, ARBITER, String::from("x")),
        Err(EscrowError::NotAuthorized)
    );
    assert_eq!(
        client.initiate_dispute(id, DEPOSITOR, String::new()),
        Err(EscrowError::EmptyDisputeReason)
    );
    assert_eq!(client.get_escrow(id).unwrap().status, EscrowStatus::Funded);
}

#[test]
fn approval_target_must_be_depositor_or_beneficiary() {
    let (mut client, id) = setup_funded(10);
    assert_eq!(client.approve_release(id, DEPOSITOR, ARBITER), Err(EscrowError::InvalidApprovalTarget));
    assert_eq!(client.approve_release(id, DEPOSITOR, STRANGER), Err(EscrowError::InvalidApprovalTarget));
    assert_eq!(client.get_approval_count(id, STRANGER), Ok(0));
}

#[test]
fn approval_needs_a_funded_escrow() {
    let mut client = EscrowContract::new();
    let id = client.create(DEPOSITOR, BENEFICIARY, ARBITER, 10, TOKEN).unwrap();
    assert_eq!(client.approve_release(id, DEPOSITOR, BENEFICIARY), Err(EscrowError::InvalidState));
    assert_eq!(
        client.initiate_dispute(id, DEPOSITOR, String::from("x")),
        Err(EscrowError::InvalidState)
    );
}

#[test]
fn create_rejects_bad_terms() {
    let mut client = EscrowContract::new();
    assert_eq!(client.create(DEPOSITOR, BENEFICIARY, ARBITER, 0, TOKEN), Err(EscrowError::InsufficientFunds));
    assert_eq!(client.create(DEPOSITOR, BENEFICIARY, ARBITER, -5, TOKEN), Err(EscrowError::InsufficientFunds));
    assert_eq!(client.create(DEPOSITOR, DEPOSITOR, ARBITER, 5, TOKEN), Err(EscrowError::InvalidSigner));
    assert_eq!(client.create(DEPOSITOR, BENEFICIARY, BENEFICIARY, 5, TOKEN), Err(EscrowError::InvalidSigner));
    assert_eq!(client.create(ARBITER, BENEFICIARY, ARBITER, 5, TOKEN), Err(EscrowError::InvalidSigner));
    assert_eq!(client.create(DEPOSITOR, BENEFICIARY, ARBITER, 5, TOKEN), Ok(1));
    assert_eq!(client.create(DEPOSITOR, BENEFICIARY, ARBITER, i128::MAX, TOKEN), Ok(2));
}

#[test]
fn unknown_ids_are_reported() {
    let mut client = EscrowContract::new();
    assert_eq!(client.get_escrow(0).err(), Some(EscrowError::InvalidEscrowId));
    assert_eq!(client.get_escrow(1).err(), Some(EscrowError::EscrowNotFound));
    assert_eq!(client.fund_escrow(3, DEPOSITOR), Err(EscrowError::EscrowNotFound));
    assert_eq!(client.get_approval_count(0, BENEFICIARY), Err(EscrowError::InvalidEscrowId));
    let id = client.create(DEPOSITOR, BENEFICIARY, ARBITER, 5, TOKEN).unwrap();
    assert_eq!(client.get_escrow(id).unwrap().id, id);
    assert_eq!(client.get_escrow(id + 1).err(), Some(EscrowError::EscrowNotFound));
}

#[test]
fn escrows_are_independent() {
    let mut client = EscrowContract::new();
    let a = client.create(DEPOSITOR, BENEFICIARY, ARBITER, 100, TOKEN).unwrap();
    let b = client.create(BENEFICIARY, DEPOSITOR, ARBITER, 200, TOKEN).unwrap();
    client.fund_escrow(a, DEPOSITOR).unwrap();
    assert_eq!(client.get_escrow(b).unwrap().status, EscrowStatus::Pending);
    assert_eq!(
        client.fund_escrow(b, BENEFICIARY),
        Ok(Movement::Deposit { from: BENEFICIARY, token: TOKEN, amount: 200 })
    );
    assert_eq!(client.get_escrow(a).unwrap().amount, 100);
    assert_eq!(client.get_escrow(b).unwrap().amount, 200);
}

#[test]
fn error_codes_are_stable() {
    assert_eq!(EscrowError::NotAuthorized.code(), 1);
    assert_eq!(EscrowError::DisputeActive.code(), 6);
    assert_eq!(EscrowError::InvalidApprovalTarget.code(), 11);
}

#[test]
fn approval_count_is_zero_for_a_non_target() {
    let (mut client, id) = setup_funded(40);
    client.approve_release(id, BENEFICIARY, DEPOSITOR).unwrap();
    assert_eq!(client.get_approval_count(id, DEPOSITOR), Ok(1));
    assert_eq!(client.get_approval_count(id, ARBITER), Ok(0));
    assert_eq!(client.get_approval_count(id, BENEFICIARY), Ok(0));
}

#[test]
fn single_record_transitions() {
    assert_eq!(Escrow::open(4, 1, 2, 3, 0, TOKEN).err(), Some(EscrowError::InsufficientFunds));
    assert_eq!(Escrow::open(4, 1, 1, 3, 9, TOKEN).err(), Some(EscrowError::InvalidSigner));
    let mut e = Escrow::open(4, 1, 2, 3, 9, TOKEN).unwrap();
    assert_eq!(e.id, 4);
    assert_eq!(e.status, EscrowStatus::Pending);
    assert_eq!(e.approval_count(2), 0);
    assert_eq!(e.fund(1), Ok(Movement::Deposit { from: 1, token: TOKEN, amount: 9 }));
    assert_eq!(DisputeHandler::initiate_dispute(&mut e, 2, String::from("broken")), Ok(()));
    assert_eq!(e.dispute_reason, Some(String::from("broken")));
    assert_eq!(DisputeHandler::resolve_dispute(&mut e, 1, 1), Err(EscrowError::NotAuthorized));
    assert_eq!(
        DisputeHandler::resolve_dispute(&mut e, 3, 2),
        Ok(Movement::Payout { to: 2, token: TOKEN, amount: 9 })
    );
    assert_eq!(e.status, EscrowStatus::Released);
    assert_eq!(e.released_to, Some(2));
}
