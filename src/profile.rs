//! On-chain user profiles with an admin who verifies them.
use vstd::prelude::*;
use crate::types::PartyId;

verus! {

/// Version of the profile layout written by this library.
pub const PROFILE_VERSION: u32 = 1;

#[derive(Clone, Copy, Debug, PartialEq, Eq, Structural)]
pub enum AccountType {
    Tenant,
    Landlord,
    Agent,
}

#[derive(Debug)]
pub struct UserProfile {
    pub owner: PartyId,
    pub version: u32,
    pub account_type: AccountType,
    pub last_updated: u64,
    pub data_hash: Vec<u8>,
    pub is_verified: bool,
}

/// Profiles keyed by owner, and the admin set once at initialization.
pub struct ProfileContract {
    admin: Option<PartyId>,
    profiles: Vec<UserProfile>,
}

impl ProfileContract {
    pub closed spec fn admin_spec(&self) -> Option<PartyId> {
        self.admin
    }

    pub closed spec fn profiles(&self) -> Seq<UserProfile> {
        self.profiles@
    }

    pub open spec fn has_profile_spec(&self, owner: PartyId) -> bool {
        exists|i: int| 0 <= i < self.profiles().len() && (#[trigger] self.profiles()[i]).owner == owner
    }

    /// Position of the profile of `owner`.
    pub open spec fn profile_at(&self, owner: PartyId) -> int {
        choose|i: int| 0 <= i < self.profiles().len() && (#[trigger] self.profiles()[i]).owner == owner
    }

    /// Owners are unique.
    pub open spec fn wf(&self) -> bool {
        forall|i: int, j: int|
            0 <= i < j < self.profiles().len() ==> (#[trigger] self.profiles()[i]).owner
                != (#[trigger] self.profiles()[j]).owner
    }

    pub fn new() -> (r: ProfileContract)
        ensures
            r.wf(),
            r.admin_spec() is None,
            r.profiles().len() == 0,
    {
        ProfileContract { admin: None, profiles: Vec::new() }
    }

    fn find(&self, owner: PartyId) -> (r: Option<usize>)
        requires
            self.wf(),
        ensures
            match r {
                Some(i) => i < self.profiles().len() && self.profiles()[i as int].owner == owner
                    && i == self.profile_at(owner),
                None => !self.has_profile_spec(owner),
            },
    {
        let mut i: usize = 0;
        while i < self.profiles.len()
            invariant
                self.wf(),
                i <= self.profiles@.len(),
                forall|k: int| 0 <= k < i ==> (#[trigger] self.profiles@[k]).owner != owner,
            decreases self.profiles@.len() - i,
        {
            if self.profiles[i].owner == owner {
                proof {
                    assert(self.profiles()[i as int].owner == owner);
                    assert(self.has_profile_spec(owner));
                    let j = self.profile_at(owner);
                    assert(0 <= j < self.profiles().len() && self.profiles()[j].owner == owner);
                    if j < i as int {
                        assert(self.profiles()[j].owner != self.profiles()[i as int].owner);
                    } else if j > i as int {
                        assert(self.profiles()[i as int].owner != self.profiles()[j].owner);
                    }
                }
                return Some(i);
            }
            i = i + 1;
        }
        None
    }

    /// Whether the admin has been set.
    pub fn is_initialized(&self) -> (r: bool)
        ensures
            r == self.admin_spec() is Some,
    {
        self.admin.is_some()
    }

    /// Sets the admin; only once.
    pub fn init_profiles(&mut self, admin: PartyId)
        requires
            old(self).admin_spec() is None,
        ensures
            final(self).admin_spec() == Some(admin),
            final(self).profiles() == old(self).profiles(),
    {
        self.admin = Some(admin);
    }

    /// Creates the profile of `owner` at time `now`, unverified. The owner
    /// must have authenticated and have no profile yet.
    pub fn create_profile(&mut self, owner: PartyId, account_type: AccountType, data_hash: Vec<u8>, now: u64) -> (r: &UserProfile)
        requires
            old(self).wf(),
            !old(self).has_profile_spec(owner),
        ensures
            final(self).wf(),
            final(self).admin_spec() == old(self).admin_spec(),
            *r == (UserProfile {
                owner,
                version: PROFILE_VERSION,
                account_type,
                last_updated: now,
                data_hash,
                is_verified: false,
            }),
            final(self).profiles() == old(self).profiles().push(*r),
    {
        let profile = UserProfile {
            owner,
            version: PROFILE_VERSION,
            account_type,
            last_updated: now,
            data_hash,
            is_verified: false,
        };
        self.profiles.push(profile);
        proof {
            let n = old(self).profiles@.len() as int;
            assert forall|i: int, j: int| 0 <= i < j < self.profiles@.len() implies
                (#[trigger] self.profiles@[i]).owner != (#[trigger] self.profiles@[j]).owner by {
                assert(old(self).profiles@[i] == self.profiles@[i]);
                if j == n {
                    assert(old(self).profiles()[i].owner != owner);
                } else {
                    assert(old(self).profiles@[j] == self.profiles@[j]);
                }
            }
        }
        let last = self.profiles.len() - 1;
        &self.profiles[last]
    }

    /// Changes the given fields of `owner`'s profile and stamps it with `now`.
    /// The owner must have authenticated and have a profile.
    pub fn update_profile(
        &mut self,
        owner: PartyId,
        account_type: Option<AccountType>,
        data_hash: Option<Vec<u8>>,
        now: u64,
    ) -> (r: &UserProfile)
        requires
            old(self).wf(),
            old(self).has_profile_spec(owner),
        ensures
            final(self).wf(),
            final(self).admin_spec() == old(self).admin_spec(),
            ({
                let p = old(self).profiles()[old(self).profile_at(owner)];
                *r == UserProfile {
                    account_type: match account_type {
                        Some(t) => t,
                        None => p.account_type,
                    },
                    data_hash: match data_hash {
                        Some(h) => h,
                        None => p.data_hash,
                    },
                    last_updated: now,
                    ..p
                }
            }),
            final(self).profiles() == old(self).profiles().update(old(self).profile_at(owner), *r),
    {
        let i = self.find(owner).unwrap();
        let p = &mut self.profiles[i];
        if let Some(t) = account_type {
            p.account_type = t;
        }
        if let Some(h) = data_hash {
            p.data_hash = h;
        }
        p.last_updated = now;
        proof {
            assert forall|a: int, b: int| 0 <= a < b < self.profiles@.len() implies
                (#[trigger] self.profiles@[a]).owner != (#[trigger] self.profiles@[b]).owner by {
                assert(old(self).profiles@[a].owner == self.profiles@[a].owner);
                assert(old(self).profiles@[b].owner == self.profiles@[b].owner);
            }
        }
        &self.profiles[i]
    }

    pub fn get_profile(&self, owner: PartyId) -> (r: Option<&UserProfile>)
        requires
            self.wf(),
        ensures
            r is None <==> !self.has_profile_spec(owner),
            r matches Some(p) ==> *p == self.profiles()[self.profile_at(owner)],
    {
        match self.find(owner) {
            Some(i) => Some(&self.profiles[i]),
            None => None,
        }
    }

    pub fn has_profile(&self, owner: PartyId) -> (r: bool)
        requires
            self.wf(),
        ensures
            r == self.has_profile_spec(owner),
    {
        self.find(owner).is_some()
    }

    /// Marks `owner`'s profile verified at time `now`. Only the admin may, and
    /// only once the admin is set and the profile exists.
    pub fn verify_profile(&mut self, admin: PartyId, owner: PartyId, now: u64) -> (r: &UserProfile)
        requires
            old(self).wf(),
            old(self).admin_spec() == Some(admin),
            old(self).has_profile_spec(owner),
        ensures
            final(self).wf(),
            final(self).admin_spec() == old(self).admin_spec(),
            *r == (UserProfile {
                is_verified: true,
                last_updated: now,
                ..old(self).profiles()[old(self).profile_at(owner)]
            }),
            final(self).profiles() == old(self).profiles().update(old(self).profile_at(owner), *r),
    {
        let i = self.find(owner).unwrap();
        let p = &mut self.profiles[i];
        p.is_verified = true;
        p.last_updated = now;
        proof {
            assert forall|a: int, b: int| 0 <= a < b < self.profiles@.len() implies
                (#[trigger] self.profiles@[a]).owner != (#[trigger] self.profiles@[b]).owner by {
                assert(old(self).profiles@[a].owner == self.profiles@[a].owner);
                assert(old(self).profiles@[b].owner == self.profiles@[b].owner);
            }
        }
        &self.profiles[i]
    }

    /// The admin; it must have been set.
    pub fn get_admin(&self) -> (r: PartyId)
        requires
            self.admin_spec() is Some,
        ensures
            Some(r) == self.admin_spec(),
    {
        match self.admin {
            Some(a) => a,
            None => 0,
        }
    }
}

} // verus!
