//! Provider registry: the set of accounts allowed to act as backup storage
//! providers.
//!
//! Registration and removal are privileged operations (root origin only).
//! The storage-request ledger consults the registry through
//! [`ProviderRegistry::is_registered`] and never mutates it.

use vstd::prelude::*;
use crate::types::AccountId;

verus! {

/// The origin of a privileged call.
#[derive(PartialEq, Eq, Structural)]
pub enum Origin {
    /// The system's root origin.
    Root,
    /// An ordinary signed caller.
    Signed(AccountId),
}

/// Notifications the registry emits on success.
#[derive(PartialEq, Eq, Structural, Debug)]
pub enum IdentityEvent {
    NewUser { user: AccountId },
    RemovedUser { user: AccountId },
}

/// Rejections of registry operations.
#[derive(PartialEq, Eq, Structural, Debug)]
pub enum IdentityError {
    /// The caller is not the root origin.
    BadOrigin,
    /// The registry already holds as many users as it may.
    MaximumOfUsersReached,
    /// The account to remove is not registered.
    NotRegistered,
}

/// The set of registered provider accounts, bounded by `max_users`.
pub struct ProviderRegistry {
    users: Vec<AccountId>,
    max_users: u32,
}

impl ProviderRegistry {
    /// Each account is listed at most once and the bound is kept.
    pub closed spec fn wf(self) -> bool {
        &&& self.users@.len() <= self.max_users
        &&& forall|i: int, j: int|
            0 <= i < j < self.users@.len() ==> self.users@[i] != self.users@[j]
    }

    /// The accounts currently registered.
    pub closed spec fn registered(self) -> Seq<AccountId> {
        self.users@
    }

    /// The registry's capacity.
    pub closed spec fn capacity(self) -> u32 {
        self.max_users
    }

    /// An empty registry that can hold up to `max_users` accounts.
    pub fn new(max_users: u32) -> (r: ProviderRegistry)
        ensures
            r.wf(),
            r.registered() == Seq::<AccountId>::empty(),
            r.capacity() == max_users,
    {
        let r = ProviderRegistry { users: Vec::new(), max_users };
        proof {
            assert(r.users@ =~= Seq::<AccountId>::empty());
        }
        r
    }

    /// Whether `who` may act as a storage provider.
    pub fn is_registered(&self, who: AccountId) -> (r: bool)
        ensures
            r == self.registered().contains(who),
    {
        let mut i: usize = 0;
        while i < self.users.len()
            invariant
                i <= self.users@.len(),
                forall|j: int| 0 <= j < i ==> self.users@[j] != who,
            decreases self.users@.len() - i,
        {
            if self.users[i] == who {
                return true;
            }
            i += 1;
        }
        false
    }

    /// The registered marker for `who`, if any.
    pub fn users(&self, who: AccountId) -> (r: Option<()>)
        ensures
            r == if self.registered().contains(who) {
                Option::Some(())
            } else {
                Option::<()>::None
            },
    {
        if self.is_registered(who) {
            Some(())
        } else {
            None
        }
    }

    /// Registers `who` as a provider. Only the root origin may do so;
    /// registering an account twice changes nothing; a full registry admits
    /// no new account.
    pub fn register_user(&mut self, origin: Origin, who: AccountId) -> (r: Result<
        IdentityEvent,
        IdentityError,
    >)
        requires
            old(self).wf(),
        ensures
            final(self).wf(),
            final(self).capacity() == old(self).capacity(),
            origin != Origin::Root ==> r == Err::<IdentityEvent, _>(IdentityError::BadOrigin)
                && final(self).registered() == old(self).registered(),
            origin == Origin::Root && old(self).registered().contains(who) ==> r == Ok::<
                _,
                IdentityError,
            >(IdentityEvent::NewUser { user: who }) && final(self).registered() == old(
                self,
            ).registered(),
            origin == Origin::Root && !old(self).registered().contains(who) && old(
                self,
            ).registered().len() == old(self).capacity() ==> r == Err::<IdentityEvent, _>(
                IdentityError::MaximumOfUsersReached,
            ) && final(self).registered() == old(self).registered(),
            origin == Origin::Root && !old(self).registered().contains(who) && old(
                self,
            ).registered().len() < old(self).capacity() ==> r == Ok::<_, IdentityError>(
                IdentityEvent::NewUser { user: who },
            ) && final(self).registered() == old(self).registered().push(who),
    {
        if !matches!(origin, Origin::Root) {
            return Err(IdentityError::BadOrigin);
        }
        if self.is_registered(who) {
            return Ok(IdentityEvent::NewUser { user: who });
        }
        if self.users.len() >= self.max_users as usize {
            return Err(IdentityError::MaximumOfUsersReached);
        }
        self.users.push(who);
        Ok(IdentityEvent::NewUser { user: who })
    }

    /// Removes `who` from the registry. Only the root origin may do so;
    /// removing an unregistered account is rejected.
    #[verifier::loop_isolation(false)]
    pub fn remove_user(&mut self, origin: Origin, who: AccountId) -> (r: Result<
        IdentityEvent,
        IdentityError,
    >)
        requires
            old(self).wf(),
        ensures
            final(self).wf(),
            final(self).capacity() == old(self).capacity(),
            origin != Origin::Root ==> r == Err::<IdentityEvent, _>(IdentityError::BadOrigin)
                && final(self).registered() == old(self).registered(),
            origin == Origin::Root && !old(self).registered().contains(who) ==> r == Err::<
                IdentityEvent,
                _,
            >(IdentityError::NotRegistered) && final(self).registered() == old(self).registered(),
            origin == Origin::Root && old(self).registered().contains(who) ==> r == Ok::<
                _,
                IdentityError,
            >(IdentityEvent::RemovedUser { user: who }) && !final(self).registered().contains(who)
                && final(self).registered().len() == old(self).registered().len() - 1 && (forall|
                w: AccountId,
            |
                w != who ==> final(self).registered().contains(w) == old(
                    self,
                ).registered().contains(w)),
    {
        if !matches!(origin, Origin::Root) {
            return Err(IdentityError::BadOrigin);
        }
        let ghost old_users = self.users@;
        let mut i: usize = 0;
        while i < self.users.len()
            invariant
                self.users@ == old_users,
                self.max_users == old(self).max_users,
                old_users.len() <= self.max_users,
                forall|p: int, q: int|
                    0 <= p < q < old_users.len() ==> old_users[p] != old_users[q],
                i <= old_users.len(),
                forall|j: int| 0 <= j < i ==> old_users[j] != who,
            decreases old_users.len() - i,
        {
            if self.users[i] == who {
                self.users.remove(i);
                proof {
                    assert(forall|k: int|
                        0 <= k < self.users@.len() ==> self.users@[k] == if k < i {
                            old_users[k]
                        } else {
                            old_users[k + 1]
                        });
                    assert(!self.users@.contains(who)) by {
                        assert forall|k: int|
                            0 <= k < self.users@.len() implies self.users@[k] != who by {
                            if k >= i {
                                assert(old_users[i as int] != old_users[k + 1]);
                            }
                        }
                    }
                    assert(forall|w: AccountId|
                        w != who && old_users.contains(w) ==> self.users@.contains(w)) by {
                        assert forall|w: AccountId|
                            w != who && old_users.contains(w) implies self.users@.contains(w) by {
                            let k = choose|k: int| 0 <= k < old_users.len() && old_users[k] == w;
                            if k < i {
                                assert(self.users@[k] == w);
                            } else {
                                assert(k != i);
                                assert(self.users@[k - 1] == w);
                            }
                        }
                    }
                    assert(forall|w: AccountId|
                        self.users@.contains(w) ==> old_users.contains(w)) by {
                        assert forall|w: AccountId| self.users@.contains(w) implies old_users.contains(
                            w,
                        ) by {
                            let k = choose|k: int|
                                0 <= k < self.users@.len() && self.users@[k] == w;
                            if k < i {
                                assert(old_users[k] == w);
                            } else {
                                assert(old_users[k + 1] == w);
                            }
                        }
                    }
                }
                return Ok(IdentityEvent::RemovedUser { user: who });
            }
            i += 1;
        }
        Err(IdentityError::NotRegistered)
    }
}

} // verus!
