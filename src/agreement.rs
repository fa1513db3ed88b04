//! Rent agreements and account profiles: keyed records with validation.
use vstd::prelude::*;
use crate::errors::Error;
use crate::types::PartyId;

verus! {

/// Longest data hash a profile may carry, in bytes.
pub const MAX_DATA_HASH_LEN: usize = 128;

/// Shortest time between two updates of one profile, in seconds.
pub const MIN_UPDATE_INTERVAL: u64 = 60;

/// Highest agent commission rate, in percent.
pub const MAX_COMMISSION_RATE: u32 = 100;

#[derive(Clone, Copy, Debug, PartialEq, Eq, Structural)]
pub enum AgreementStatus {
    Draft,
    Active,
    Terminated,
}

/// A rent agreement between a landlord and a tenant, with an optional agent.
#[derive(Debug)]
pub struct RentAgreement {
    pub agreement_id: String,
    pub landlord: PartyId,
    pub tenant: PartyId,
    pub agent: Option<PartyId>,
    pub monthly_rent: i128,
    pub security_deposit: i128,
    pub start_date: u64,
    pub end_date: u64,
    pub agent_commission_rate: u32,
    pub status: AgreementStatus,
}

/// A payment made under an agreement.
#[derive(Debug)]
pub struct PaymentRecord {
    pub agreement_id: String,
    pub amount: i128,
}

/// The profile an account keeps next to its agreements.
#[derive(Debug)]
pub struct UserProfile {
    pub account_id: PartyId,
    pub account_type: u8,
    pub data_hash: Vec<u8>,
    pub last_updated: u64,
    pub is_verified: bool,
}

/// Why agreement terms are refused, if they are: the rent must be positive
/// and the deposit not negative, the term must end after it starts, and the
/// commission is a percentage.
pub open spec fn params_error(
    monthly_rent: i128,
    security_deposit: i128,
    start_date: u64,
    end_date: u64,
    agent_commission_rate: u32,
) -> Option<Error> {
    if monthly_rent <= 0 || security_deposit < 0 {
        Some(Error::InvalidAmount)
    } else if start_date >= end_date {
        Some(Error::InvalidDate)
    } else if agent_commission_rate > MAX_COMMISSION_RATE {
        Some(Error::InvalidCommissionRate)
    } else {
        None
    }
}

pub open spec fn as_result(e: Option<Error>) -> Result<(), Error> {
    match e {
        Some(x) => Err(x),
        None => Ok(()),
    }
}

/// Account types are numbered 1 to 3.
pub open spec fn valid_account_type(account_type: u8) -> bool {
    1 <= account_type <= 3
}

pub open spec fn valid_data_hash(data_hash: Seq<u8>) -> bool {
    0 < data_hash.len() <= MAX_DATA_HASH_LEN
}

/// Sum of the amounts paid under agreement `id`.
pub open spec fn paid_sum(payments: Seq<PaymentRecord>, id: Seq<char>) -> int
    decreases payments.len(),
{
    if payments.len() == 0 {
        0
    } else {
        paid_sum(payments.drop_last(), id) + if payments.last().agreement_id@ == id {
            payments.last().amount as int
        } else {
            0
        }
    }
}

/// Every running total over a prefix of the payments fits in an `i128`.
pub open spec fn running_totals_fit(payments: Seq<PaymentRecord>, id: Seq<char>) -> bool {
    forall|k: int|
        0 <= k <= payments.len() ==> i128::MIN <= #[trigger] paid_sum(payments.subrange(0, k), id)
            <= i128::MAX
}

/// Agreement and profile records of the host, each keyed by its identifier.
pub struct Contract {
    agreements: Vec<RentAgreement>,
    profiles: Vec<UserProfile>,
}

impl Contract {
    pub closed spec fn agreements(&self) -> Seq<RentAgreement> {
        self.agreements@
    }

    pub closed spec fn profiles(&self) -> Seq<UserProfile> {
        self.profiles@
    }

    pub open spec fn has_agreement_spec(&self, id: Seq<char>) -> bool {
        exists|i: int| 0 <= i < self.agreements().len() && (#[trigger] self.agreements()[i]).agreement_id@ == id
    }

    pub open spec fn has_profile_spec(&self, account: PartyId) -> bool {
        exists|i: int| 0 <= i < self.profiles().len() && (#[trigger] self.profiles()[i]).account_id == account
    }

    /// Position of the profile of `account`.
    pub open spec fn profile_at(&self, account: PartyId) -> int {
        choose|i: int| 0 <= i < self.profiles().len() && (#[trigger] self.profiles()[i]).account_id == account
    }

    /// Identifiers are unique among agreements and among profiles, and the
    /// agreement count fits its counter.
    pub open spec fn wf(&self) -> bool {
        &&& self.agreements().len() <= u32::MAX
        &&& forall|i: int, j: int|
            0 <= i < j < self.agreements().len() ==> (#[trigger] self.agreements()[i]).agreement_id@
                != (#[trigger] self.agreements()[j]).agreement_id@
        &&& forall|i: int, j: int|
            0 <= i < j < self.profiles().len() ==> (#[trigger] self.profiles()[i]).account_id
                != (#[trigger] self.profiles()[j]).account_id
    }

    pub fn new() -> (r: Contract)
        ensures
            r.wf(),
            r.agreements().len() == 0,
            r.profiles().len() == 0,
    {
        Contract { agreements: Vec::new(), profiles: Vec::new() }
    }

    pub fn validate_agreement_params(
        monthly_rent: &i128,
        security_deposit: &i128,
        start_date: &u64,
        end_date: &u64,
        agent_commission_rate: &u32,
    ) -> (r: Result<(), Error>)
        ensures
            r == as_result(
                params_error(
                    *monthly_rent,
                    *security_deposit,
                    *start_date,
                    *end_date,
                    *agent_commission_rate,
                ),
            ),
    {
        if *monthly_rent <= 0 || *security_deposit < 0 {
            return Err(Error::InvalidAmount);
        }
        if *start_date >= *end_date {
            return Err(Error::InvalidDate);
        }
        if *agent_commission_rate > MAX_COMMISSION_RATE {
            return Err(Error::InvalidCommissionRate);
        }
        Ok(())
    }

    pub fn validate_account_type(account_type: &u8) -> (r: Result<(), Error>)
        ensures
            r is Ok <==> valid_account_type(*account_type),
            r is Err ==> r == Err::<(), Error>(Error::InvalidAccountType),
    {
        if !(1 <= *account_type && *account_type <= 3) {
            return Err(Error::InvalidAccountType);
        }
        Ok(())
    }

    pub fn validate_data_hash(data_hash: &Vec<u8>) -> (r: Result<(), Error>)
        ensures
            r is Ok <==> valid_data_hash(data_hash@),
            r is Err ==> r == Err::<(), Error>(Error::InvalidDataHash),
    {
        if data_hash.len() == 0 || data_hash.len() > MAX_DATA_HASH_LEN {
            return Err(Error::InvalidDataHash);
        }
        Ok(())
    }

    fn find_agreement(&self, agreement_id: &String) -> (r: Option<usize>)
        ensures
            match r {
                Some(i) => i < self.agreements().len() && self.agreements()[i as int].agreement_id@
                    == agreement_id@,
                None => !self.has_agreement_spec(agreement_id@),
            },
    {
        let mut i: usize = 0;
        while i < self.agreements.len()
            invariant
                i <= self.agreements@.len(),
                forall|k: int| 0 <= k < i ==> (#[trigger] self.agreements@[k]).agreement_id@ != agreement_id@,
            decreases self.agreements@.len() - i,
        {
            if self.agreements[i].agreement_id == *agreement_id {
                return Some(i);
            }
            i = i + 1;
        }
        None
    }

    fn find_profile(&self, account: PartyId) -> (r: Option<usize>)
        ensures
            match r {
                Some(i) => i < self.profiles().len() && self.profiles()[i as int].account_id == account,
                None => !self.has_profile_spec(account),
            },
    {
        let mut i: usize = 0;
        while i < self.profiles.len()
            invariant
                i <= self.profiles@.len(),
                forall|k: int| 0 <= k < i ==> (#[trigger] self.profiles@[k]).account_id != account,
            decreases self.profiles@.len() - i,
        {
            if self.profiles[i].account_id == account {
                return Some(i);
            }
            i = i + 1;
        }
        None
    }

    /// Stores a new agreement in Draft status. The tenant must have
    /// authenticated. Terms are validated first, then the identifier must be new.
    pub fn create_agreement(
        &mut self,
        agreement_id: String,
        landlord: PartyId,
        tenant: PartyId,
        agent: Option<PartyId>,
        monthly_rent: i128,
        security_deposit: i128,
        start_date: u64,
        end_date: u64,
        agent_commission_rate: u32,
    ) -> (r: Result<(), Error>)
        requires
            old(self).wf(),
            old(self).agreements().len() < u32::MAX,
        ensures
            final(self).wf(),
            final(self).profiles() == old(self).profiles(),
            match params_error(
                monthly_rent,
                security_deposit,
                start_date,
                end_date,
                agent_commission_rate,
            ) {
                Some(x) => r == Err::<(), Error>(x) && final(self).agreements() == old(
                    self,
                ).agreements(),
                None => if old(self).has_agreement_spec(agreement_id@) {
                    r == Err::<(), Error>(Error::AgreementAlreadyExists) && final(self).agreements()
                        == old(self).agreements()
                } else {
                    r is Ok && final(self).agreements() == old(self).agreements().push(
                        RentAgreement {
                            agreement_id,
                            landlord,
                            tenant,
                            agent,
                            monthly_rent,
                            security_deposit,
                            start_date,
                            end_date,
                            agent_commission_rate,
                            status: AgreementStatus::Draft,
                        },
                    )
                },
            },
    {
        if let Err(x) = Self::validate_agreement_params(
            &monthly_rent,
            &security_deposit,
            &start_date,
            &end_date,
            &agent_commission_rate,
        ) {
            return Err(x);
        }
        if self.find_agreement(&agreement_id).is_some() {
            return Err(Error::AgreementAlreadyExists);
        }
        let agreement = RentAgreement {
            agreement_id,
            landlord,
            tenant,
            agent,
            monthly_rent,
            security_deposit,
            start_date,
            end_date,
            agent_commission_rate,
            status: AgreementStatus::Draft,
        };
        self.agreements.push(agreement);
        proof {
            let n = old(self).agreements@.len() as int;
            assert(self.profiles() == old(self).profiles());
            assert forall|i: int, j: int| 0 <= i < j < self.agreements@.len() implies
                (#[trigger] self.agreements@[i]).agreement_id@ != (#[trigger] self.agreements@[j]).agreement_id@ by {
                if j == n {
                    assert(old(self).agreements@[i] == self.agreements@[i]);
                    assert(old(self).agreements()[i].agreement_id@ != self.agreements@[j].agreement_id@);
                } else {
                    assert(old(self).agreements@[i] == self.agreements@[i]);
                    assert(old(self).agreements@[j] == self.agreements@[j]);
                }
            }
        }
        Ok(())
    }

    /// The agreement stored under `agreement_id`, if any.
    pub fn get_agreement(&self, agreement_id: &String) -> (r: Option<&RentAgreement>)
        requires
            self.wf(),
        ensures
            r is None <==> !self.has_agreement_spec(agreement_id@),
            r matches Some(a) ==> a.agreement_id@ == agreement_id@ && exists|i: int|
                0 <= i < self.agreements().len() && self.agreements()[i] == *a,
    {
        match self.find_agreement(agreement_id) {
            Some(i) => Some(&self.agreements[i]),
            None => None,
        }
    }

    pub fn has_agreement(&self, agreement_id: &String) -> (r: bool)
        ensures
            r == self.has_agreement_spec(agreement_id@),
    {
        self.find_agreement(agreement_id).is_some()
    }

    /// Number of agreements created.
    pub fn get_agreement_count(&self) -> (r: u32)
        requires
            self.wf(),
        ensures
            r == self.agreements().len(),
    {
        self.agreements.len() as u32
    }

    /// Total paid under `agreement_id` over the given payment records.
    pub fn get_total_paid(payments: &Vec<PaymentRecord>, agreement_id: &String) -> (r: Result<i128, Error>)
        requires
            running_totals_fit(payments@, agreement_id@),
        ensures
            r == Ok::<i128, Error>(paid_sum(payments@, agreement_id@) as i128),
    {
        let mut total: i128 = 0;
        let mut i: usize = 0;
        while i < payments.len()
            invariant
                i <= payments@.len(),
                running_totals_fit(payments@, agreement_id@),
                total == paid_sum(payments@.subrange(0, i as int), agreement_id@),
            decreases payments@.len() - i,
        {
            proof {
                assert(payments@.subrange(0, i as int + 1).drop_last() =~= payments@.subrange(0, i as int));
                assert(i128::MIN <= paid_sum(payments@.subrange(0, i as int + 1), agreement_id@) <= i128::MAX);
            }
            if payments[i].agreement_id == *agreement_id {
                total = total + payments[i].amount;
            }
            i = i + 1;
        }
        proof {
            assert(payments@.subrange(0, payments@.len() as int) =~= payments@);
        }
        Ok(total)
    }

    /// Creates or replaces the profile of `account` at time `now`. The
    /// account must have authenticated. A profile keeps its verification, and
    /// cannot be changed again within the minimum update interval.
    pub fn update_profile(&mut self, account: PartyId, account_type: u8, data_hash: Vec<u8>, now: u64) -> (r: Result<(), Error>)
        requires
            old(self).wf(),
        ensures
            final(self).wf(),
            final(self).agreements() == old(self).agreements(),
            !valid_account_type(account_type) ==> r == Err::<(), Error>(Error::InvalidAccountType),
            valid_account_type(account_type) && !valid_data_hash(data_hash@) ==> r == Err::<(), Error>(Error::InvalidDataHash),
            r is Err ==> final(self).profiles() == old(self).profiles(),
            valid_account_type(account_type) && valid_data_hash(data_hash@) ==> if old(self).has_profile_spec(account) {
                let p = old(self).profiles()[old(self).profile_at(account)];
                if (if now >= p.last_updated { now - p.last_updated } else { 0 }) < MIN_UPDATE_INTERVAL {
                    r == Err::<(), Error>(Error::RateLimited)
                } else {
                    r is Ok && final(self).profiles() == old(self).profiles().update(
                        old(self).profile_at(account),
                        UserProfile { account_id: account, account_type, data_hash, last_updated: now, is_verified: p.is_verified },
                    )
                }
            } else {
                r is Ok && final(self).profiles() == old(self).profiles().push(
                    UserProfile { account_id: account, account_type, data_hash, last_updated: now, is_verified: false },
                )
            },
    {
        if let Err(x) = Self::validate_account_type(&account_type) {
            return Err(x);
        }
        if let Err(x) = Self::validate_data_hash(&data_hash) {
            return Err(x);
        }
        match self.find_profile(account) {
            Some(i) => {
                proof {
                    let j = self.profile_at(account);
                    assert(self.profiles@[j].account_id == account);
                    assert(j == i as int);
                }
                if now.saturating_sub(self.profiles[i].last_updated) < MIN_UPDATE_INTERVAL {
                    return Err(Error::RateLimited);
                }
                let is_verified = self.profiles[i].is_verified;
                let profile = UserProfile { account_id: account, account_type, data_hash, last_updated: now, is_verified };
                self.profiles.set(i, profile);
                proof {
                    assert forall|a: int, b: int| 0 <= a < b < self.profiles@.len() implies
                        (#[trigger] self.profiles@[a]).account_id != (#[trigger] self.profiles@[b]).account_id by {
                        assert(old(self).profiles@[a].account_id == self.profiles@[a].account_id);
                        assert(old(self).profiles@[b].account_id == self.profiles@[b].account_id);
                    }
                }
            },
            None => {
                let profile = UserProfile { account_id: account, account_type, data_hash, last_updated: now, is_verified: false };
                self.profiles.push(profile);
            },
        }
        Ok(())
    }

    /// The profile of `account`.
    pub fn get_profile(&self, account: PartyId) -> (r: Result<&UserProfile, Error>)
        requires
            self.wf(),
        ensures
            r is Err <==> !self.has_profile_spec(account),
            r is Err ==> r == Err::<&UserProfile, Error>(Error::ProfileNotFound),
            r matches Ok(p) ==> *p == self.profiles()[self.profile_at(account)],
    {
        match self.find_profile(account) {
            Some(i) => {
                proof {
                    let j = self.profile_at(account);
                    assert(self.profiles@[j].account_id == account);
                    assert(j == i as int);
                }
                Ok(&self.profiles[i])
            },
            None => Err(Error::ProfileNotFound),
        }
    }

    /// Removes the profile of `account`. The account must have authenticated.
    pub fn delete_profile(&mut self, account: PartyId) -> (r: Result<(), Error>)
        requires
            old(self).wf(),
        ensures
            final(self).wf(),
            final(self).agreements() == old(self).agreements(),
            r is Err <==> !old(self).has_profile_spec(account),
            r is Err ==> r == Err::<(), Error>(Error::ProfileNotFound) && final(self).profiles() == old(self).profiles(),
            r is Ok ==> final(self).profiles() == old(self).profiles().remove(old(self).profile_at(account)),
            !final(self).has_profile_spec(account),
    {
        match self.find_profile(account) {
            Some(i) => {
                proof {
                    let j = self.profile_at(account);
                    assert(self.profiles@[j].account_id == account);
                    assert(j == i as int);
                }
                let _ = self.profiles.remove(i);
                proof {
                    let o = old(self).profiles@;
                    assert forall|k: int| 0 <= k < self.profiles@.len() implies
                        #[trigger] self.profiles@[k] == o[if k < i { k } else { k + 1 }] by {}
                    assert forall|a: int, b: int| 0 <= a < b < self.profiles@.len() implies
                        (#[trigger] self.profiles@[a]).account_id != (#[trigger] self.profiles@[b]).account_id by {
                        assert(self.profiles@[a] == o[if a < i { a } else { a + 1 }]);
                        assert(self.profiles@[b] == o[if b < i { b } else { b + 1 }]);
                    }
                    assert forall|k: int| 0 <= k < self.profiles@.len() implies
                        (#[trigger] self.profiles@[k]).account_id != account by {
                        assert(self.profiles@[k] == o[if k < i { k } else { k + 1 }]);
                    }
                }
                Ok(())
            },
            None => Err(Error::ProfileNotFound),
        }
    }
}

} // verus!
