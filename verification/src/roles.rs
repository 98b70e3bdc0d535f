//! Role assignment state and the authorization rules over it.
//!
//! Each address holds exactly one role at a time: a later grant overwrites,
//! it does not union. At most one address holds `SuperAdmin` at any instant;
//! the only path that moves it is an atomic transfer (or a grant of
//! `SuperAdmin` by the current holder, which moves it the same way), so there
//! is no observable moment with two super admins, nor one with none after
//! initialization.

use vstd::prelude::*;

use crate::errors::Error;
use crate::types::Address;

verus! {

/// The role variants forming the authorization hierarchy.
///
/// `SuperAdmin` outranks `Admin`; `ProjectManager` and `Oracle` are peer
/// capabilities gated separately per operation.
#[derive(Clone, Copy, Debug, PartialEq, Eq, Structural)]
pub enum Role {
    SuperAdmin,
    Admin,
    ProjectManager,
    Oracle,
}

/// One address together with the single role it holds.
#[derive(Clone, Copy, Debug, PartialEq, Eq, Structural)]
pub struct RoleEntry {
    pub addr: Address,
    pub role: Role,
}

/// The role a sequence of entries assigns to `a`: the first matching entry.
pub open spec fn lookup(entries: Seq<RoleEntry>, a: Address) -> Option<Role>
    decreases entries.len(),
{
    if entries.len() == 0 {
        None
    } else if entries[0].addr == a {
        Some(entries[0].role)
    } else {
        lookup(entries.skip(1), a)
    }
}

/// No address appears in two entries.
pub open spec fn unique_addrs(entries: Seq<RoleEntry>) -> bool {
    forall|i: int, j: int|
        0 <= i < entries.len() && 0 <= j < entries.len() && i != j
            ==> (#[trigger] entries[i]).addr != (#[trigger] entries[j]).addr
}

/// At most one entry carries `SuperAdmin`.
pub open spec fn single_super_admin(entries: Seq<RoleEntry>) -> bool {
    forall|i: int, j: int|
        0 <= i < entries.len() && 0 <= j < entries.len()
            && (#[trigger] entries[i]).role == Role::SuperAdmin
            && (#[trigger] entries[j]).role == Role::SuperAdmin ==> i == j
}

pub proof fn lemma_lookup_at(entries: Seq<RoleEntry>, a: Address, k: int)
    requires
        0 <= k < entries.len(),
        entries[k].addr == a,
        forall|j: int| 0 <= j < k ==> (#[trigger] entries[j]).addr != a,
    ensures
        lookup(entries, a) == Some(entries[k].role),
    decreases k,
{
    if k > 0 {
        lemma_lookup_at(entries.skip(1), a, k - 1);
    }
}

pub proof fn lemma_lookup_absent(entries: Seq<RoleEntry>, a: Address)
    requires
        forall|j: int| 0 <= j < entries.len() ==> (#[trigger] entries[j]).addr != a,
    ensures
        lookup(entries, a) == None::<Role>,
    decreases entries.len(),
{
    if entries.len() > 0 {
        lemma_lookup_absent(entries.skip(1), a);
    }
}

pub proof fn lemma_lookup_found(entries: Seq<RoleEntry>, a: Address)
    requires
        lookup(entries, a) is Some,
    ensures
        exists|k: int|
            0 <= k < entries.len() && (#[trigger] entries[k]).addr == a && entries[k].role
                == lookup(entries, a)->0,
    decreases entries.len(),
{
    if entries.len() > 0 && entries[0].addr != a {
        lemma_lookup_found(entries.skip(1), a);
        let k0 = choose|k: int|
            0 <= k < entries.skip(1).len() && (#[trigger] entries.skip(1)[k]).addr == a
                && entries.skip(1)[k].role == lookup(entries.skip(1), a)->0;
        assert(entries[k0 + 1] == entries.skip(1)[k0]);
    }
}

/// With one entry per address, every entry is the one its address looks up.
pub proof fn lemma_entry_role(entries: Seq<RoleEntry>, i: int)
    requires
        unique_addrs(entries),
        0 <= i < entries.len(),
    ensures
        lookup(entries, entries[i].addr) == Some(entries[i].role),
{
    lemma_lookup_at(entries, entries[i].addr, i);
}

/// Role assignment state: the `address -> role` mapping and the
/// one-shot initialization flag.
pub struct RoleRegistry {
    pub initialized: bool,
    pub entries: Vec<RoleEntry>,
}

impl RoleRegistry {
    /// Internal consistency: one entry per address, at most one super admin,
    /// and no entry before initialization.
    pub open spec fn wf(self) -> bool {
        &&& unique_addrs(self.entries@)
        &&& single_super_admin(self.entries@)
        &&& (!self.initialized ==> self.entries@.len() == 0)
    }

    /// The role `a` currently holds, if any.
    pub open spec fn role_spec(self, a: Address) -> Option<Role> {
        lookup(self.entries@, a)
    }

    pub open spec fn holds(self, a: Address, r: Role) -> bool {
        self.role_spec(a) == Some(r)
    }

    /// SuperAdmin or Admin: may grant and revoke roles.
    pub open spec fn admin_or_above(self, a: Address) -> bool {
        self.holds(a, Role::SuperAdmin) || self.holds(a, Role::Admin)
    }

    /// SuperAdmin, Admin or ProjectManager: may register projects.
    pub open spec fn can_register(self, a: Address) -> bool {
        self.admin_or_above(a) || self.holds(a, Role::ProjectManager)
    }

    pub fn new() -> (r: RoleRegistry)
        ensures
            r.wf(),
            !r.initialized,
            forall|a: Address| r.role_spec(a) == None::<Role>,
    {
        let r = RoleRegistry { initialized: false, entries: Vec::new() };
        proof {
            assert forall|a: Address| r.role_spec(a) == None::<Role> by {
                lemma_lookup_absent(r.entries@, a);
            }
        }
        r
    }

    /// The index of the entry for `a`, if one exists.
    fn find_index(&self, a: Address) -> (r: Option<usize>)
        ensures
            match r {
                Some(k) => k < self.entries@.len() && self.entries@[k as int].addr == a
                    && forall|j: int| 0 <= j < k ==> (#[trigger] self.entries@[j]).addr != a,
                None => forall|j: int|
                    0 <= j < self.entries@.len() ==> (#[trigger] self.entries@[j]).addr != a,
            },
    {
        let n = self.entries.len();
        let mut k: usize = 0;
        while k < n
            invariant
                n == self.entries@.len(),
                k <= n,
                forall|j: int| 0 <= j < k ==> (#[trigger] self.entries@[j]).addr != a,
            decreases n - k,
        {
            if self.entries[k].addr == a {
                return Some(k);
            }
            k = k + 1;
        }
        None
    }

    /// Establish the sole initial super admin; callable exactly once.
    pub fn init_super_admin(&mut self, super_admin: Address) -> (r: Result<(), Error>)
        requires
            old(self).wf(),
        ensures
            final(self).wf(),
            old(self).initialized ==> r == Err::<(), Error>(Error::AlreadyInitialized)
                && *final(self) == *old(self),
            !old(self).initialized ==> {
                &&& r == Ok::<(), Error>(())
                &&& final(self).initialized
                &&& final(self).role_spec(super_admin) == Some(Role::SuperAdmin)
                &&& forall|b: Address|
                    b != super_admin ==> final(self).role_spec(b) == None::<Role>
            },
    {
        if self.initialized {
            return Err(Error::AlreadyInitialized);
        }
        self.initialized = true;
        self.entries.push(RoleEntry { addr: super_admin, role: Role::SuperAdmin });
        proof {
            assert(self.entries@[0].addr == super_admin);
            lemma_lookup_at(self.entries@, super_admin, 0);
            assert forall|b: Address| b != super_admin implies self.role_spec(b)
                == None::<Role> by {
                lemma_lookup_absent(self.entries@, b);
            }
        }
        Ok(())
    }

    /// The role held by `address`, or `None`.
    pub fn role_of(&self, address: Address) -> (r: Option<Role>)
        ensures
            r == self.role_spec(address),
    {
        match self.find_index(address) {
            Some(k) => {
                proof {
                    lemma_lookup_at(self.entries@, address, k as int);
                }
                Some(self.entries[k].role)
            },
            None => {
                proof {
                    lemma_lookup_absent(self.entries@, address);
                }
                None
            },
        }
    }

    /// Whether `address` holds exactly `role`.
    pub fn has_role(&self, address: Address, role: Role) -> (r: bool)
        ensures
            r == self.holds(address, role),
    {
        match self.role_of(address) {
            Some(held) => held == role,
            None => false,
        }
    }

    /// Insert or overwrite the entry for `a`. Internal; callers keep the
    /// super-admin count in bounds via the precondition.
    fn put(&mut self, a: Address, role: Role)
        requires
            old(self).wf(),
            old(self).initialized,
            role == Role::SuperAdmin ==> forall|b: Address|
                b != a ==> !old(self).holds(b, Role::SuperAdmin),
        ensures
            final(self).wf(),
            final(self).role_spec(a) == Some(role),
            forall|b: Address| b != a ==> final(self).role_spec(b) == old(self).role_spec(b),
            final(self).initialized == old(self).initialized,
            final(self).entries@.len() > 0,
    {
        let ghost olds = self.entries@;
        match self.find_index(a) {
            Some(k) => {
                proof {
                    if role == Role::SuperAdmin {
                        assert forall|i: int|
                            0 <= i < olds.len() && i != k implies (#[trigger] olds[i]).role
                            != Role::SuperAdmin by {
                            lemma_entry_role(olds, i);
                            assert(olds[i].addr != olds[k as int].addr);
                            assert(!old(self).holds(olds[i].addr, Role::SuperAdmin));
                        }
                    }
                }
                self.entries[k] = RoleEntry { addr: a, role };
                proof {
                    let news = self.entries@;
                    assert forall|j: int| 0 <= j < news.len() implies (#[trigger] news[j]).addr
                        == olds[j].addr by {
                        if j != k {
                            assert(news[j] == olds[j]);
                        }
                    }
                    lemma_lookup_at(news, a, k as int);
                    assert forall|b: Address| b != a implies lookup(news, b) == lookup(
                        olds,
                        b,
                    ) by {
                        if lookup(olds, b) is Some {
                            lemma_lookup_found(olds, b);
                            let i = choose|i: int|
                                0 <= i < olds.len() && (#[trigger] olds[i]).addr == b
                                    && olds[i].role == lookup(olds, b)->0;
                            assert(i != k);
                            assert(news[i] == olds[i]);
                            lemma_lookup_at(news, b, i);
                        } else {
                            assert forall|j: int|
                                0 <= j < news.len() implies (#[trigger] news[j]).addr != b by {
                                if olds[j].addr == b {
                                    lemma_entry_role(olds, j);
                                }
                            }
                            lemma_lookup_absent(news, b);
                        }
                    }
                }
            },
            None => {
                proof {
                    if role == Role::SuperAdmin {
                        assert forall|i: int|
                            0 <= i < olds.len() implies (#[trigger] olds[i]).role
                            != Role::SuperAdmin by {
                            lemma_entry_role(olds, i);
                            if olds[i].addr == a {
                                lemma_lookup_absent(olds, a);
                            } else {
                                assert(!old(self).holds(olds[i].addr, Role::SuperAdmin));
                            }
                        }
                    }
                }
                self.entries.push(RoleEntry { addr: a, role });
                proof {
                    let news = self.entries@;
                    let n = olds.len() as int;
                    lemma_lookup_at(news, a, n);
                    assert forall|b: Address| b != a implies lookup(news, b) == lookup(
                        olds,
                        b,
                    ) by {
                        if lookup(olds, b) is Some {
                            lemma_lookup_found(olds, b);
                            let i = choose|i: int|
                                0 <= i < olds.len() && (#[trigger] olds[i]).addr == b
                                    && olds[i].role == lookup(olds, b)->0;
                            assert(news[i] == olds[i]);
                            lemma_lookup_at(news, b, i);
                        } else {
                            assert forall|j: int|
                                0 <= j < news.len() implies (#[trigger] news[j]).addr != b by {
                                if j < n && olds[j].addr == b {
                                    lemma_entry_role(olds, j);
                                }
                            }
                            lemma_lookup_absent(news, b);
                        }
                    }
                }
            },
        }
    }

    /// Remove the entry for `a`, which must exist. Internal.
    fn drop_entry(&mut self, a: Address)
        requires
            old(self).wf(),
            old(self).role_spec(a) is Some,
        ensures
            final(self).wf(),
            final(self).role_spec(a) == None::<Role>,
            forall|b: Address| b != a ==> final(self).role_spec(b) == old(self).role_spec(b),
            final(self).initialized == old(self).initialized,
    {
        let ghost olds = self.entries@;
        match self.find_index(a) {
            Some(k) => {
                self.entries.remove(k);
                proof {
                    let news = self.entries@;
                    assert forall|j: int| 0 <= j < news.len() implies (#[trigger] news[j]).addr
                        != a by {
                        if j < k {
                            assert(news[j] == olds[j]);
                        } else {
                            assert(news[j] == olds[j + 1]);
                        }
                    }
                    lemma_lookup_absent(news, a);
                    assert forall|b: Address| b != a implies lookup(news, b) == lookup(olds, b) by {
                        if lookup(olds, b) is Some {
                            lemma_lookup_found(olds, b);
                            let i = choose|i: int|
                                0 <= i < olds.len() && (#[trigger] olds[i]).addr == b
                                    && olds[i].role == lookup(olds, b)->0;
                            if i < k {
                                assert(news[i] == olds[i]);
                                lemma_lookup_at(news, b, i);
                            } else {
                                assert(i != k);
                                assert(news[i - 1] == olds[i]);
                                lemma_lookup_at(news, b, i - 1);
                            }
                        } else {
                            assert forall|j: int|
                                0 <= j < news.len() implies (#[trigger] news[j]).addr != b by {
                                let o = if j < k {
                                    olds[j]
                                } else {
                                    olds[j + 1]
                                };
                                assert(news[j] == o);
                                if o.addr == b {
                                    lemma_lookup_at(olds, b, if j < k { j } else { j + 1 });
                                }
                            }
                            lemma_lookup_absent(news, b);
                        }
                    }
                }
            },
            None => {
                proof {
                    lemma_lookup_absent(olds, a);
                }
            },
        }
    }

    /// Grant `role` to `target`, overwriting any role `target` held.
    ///
    /// The caller must hold `SuperAdmin` or `Admin`; granting `SuperAdmin`
    /// itself is restricted to the current `SuperAdmin`, and moves the role:
    /// the caller loses it as `target` receives it, keeping the holder unique.
    pub fn grant_role(&mut self, caller: Address, target: Address, role: Role) -> (r: Result<
        (),
        Error,
    >)
        requires
            old(self).wf(),
        ensures
            final(self).wf(),
            final(self).initialized == old(self).initialized,
            !old(self).admin_or_above(caller) ==> r == Err::<(), Error>(Error::NotAuthorized)
                && *final(self) == *old(self),
            old(self).admin_or_above(caller) && role == Role::SuperAdmin && !old(self).holds(
                caller,
                Role::SuperAdmin,
            ) ==> r == Err::<(), Error>(Error::NotAuthorized) && *final(self) == *old(self),
            old(self).admin_or_above(caller) && (role != Role::SuperAdmin || old(self).holds(
                caller,
                Role::SuperAdmin,
            )) ==> {
                &&& r == Ok::<(), Error>(())
                &&& final(self).role_spec(target) == Some(role)
                &&& (role == Role::SuperAdmin && caller != target ==> final(self).role_spec(caller)
                    == None::<Role>)
                &&& forall|b: Address|
                    b != target && !(role == Role::SuperAdmin && b == caller)
                        ==> final(self).role_spec(b) == old(self).role_spec(b)
            },
    {
        let caller_role = self.role_of(caller);
        let authorized = match caller_role {
            Some(Role::SuperAdmin) => true,
            Some(Role::Admin) => true,
            _ => false,
        };
        if !authorized {
            return Err(Error::NotAuthorized);
        }
        proof {
            if !self.initialized {
                assert(lookup(self.entries@, caller) == None::<Role>);
            }
        }
        if role == Role::SuperAdmin {
            if caller_role != Some(Role::SuperAdmin) {
                return Err(Error::NotAuthorized);
            }
            if caller != target {
                let ghost pre = *self;
                self.drop_entry(caller);
                proof {
                    assert forall|b: Address| b != target implies !self.holds(
                        b,
                        Role::SuperAdmin,
                    ) by {
                        if b == caller {
                            assert(self.role_spec(caller) == None::<Role>);
                        } else if self.holds(b, Role::SuperAdmin) {
                            assert(pre.holds(b, Role::SuperAdmin));
                            lemma_lookup_found(pre.entries@, b);
                            lemma_lookup_found(pre.entries@, caller);
                        }
                    }
                }
                self.put(target, role);
                return Ok(());
            }
        }
        proof {
            if role == Role::SuperAdmin {
                assert forall|b: Address| b != target implies !self.holds(b, Role::SuperAdmin) by {
                    if self.holds(b, Role::SuperAdmin) {
                        lemma_lookup_found(self.entries@, b);
                        lemma_lookup_found(self.entries@, caller);
                    }
                }
            }
        }
        self.put(target, role);
        Ok(())
    }

    /// Revoke any role from `target`.
    ///
    /// The caller must hold `SuperAdmin` or `Admin`. Fails with
    /// `RoleNotFound` when `target` holds no role. Cannot strip the current
    /// super admin: that path is exclusively the atomic transfer.
    pub fn revoke_role(&mut self, caller: Address, target: Address) -> (r: Result<(), Error>)
        requires
            old(self).wf(),
        ensures
            final(self).wf(),
            final(self).initialized == old(self).initialized,
            !old(self).admin_or_above(caller) ==> r == Err::<(), Error>(Error::NotAuthorized)
                && *final(self) == *old(self),
            old(self).admin_or_above(caller) && old(self).role_spec(target) == None::<Role> ==> r
                == Err::<(), Error>(Error::RoleNotFound) && *final(self) == *old(self),
            old(self).admin_or_above(caller) && old(self).holds(target, Role::SuperAdmin) ==> r
                == Err::<(), Error>(Error::NotAuthorized) && *final(self) == *old(self),
            old(self).admin_or_above(caller) && old(self).role_spec(target) is Some
                && !old(self).holds(target, Role::SuperAdmin) ==> {
                &&& r == Ok::<(), Error>(())
                &&& final(self).role_spec(target) == None::<Role>
                &&& forall|b: Address|
                    b != target ==> final(self).role_spec(b) == old(self).role_spec(b)
            },
    {
        let caller_role = self.role_of(caller);
        let authorized = match caller_role {
            Some(Role::SuperAdmin) => true,
            Some(Role::Admin) => true,
            _ => false,
        };
        if !authorized {
            return Err(Error::NotAuthorized);
        }
        match self.role_of(target) {
            None => Err(Error::RoleNotFound),
            Some(Role::SuperAdmin) => Err(Error::NotAuthorized),
            Some(_) => {
                self.drop_entry(target);
                Ok(())
            },
        }
    }

    /// Atomically move `SuperAdmin` from `current` to `new_admin`: no
    /// observable state holds two super admins, nor none.
    pub fn transfer_super_admin(&mut self, current: Address, new_admin: Address) -> (r: Result<
        (),
        Error,
    >)
        requires
            old(self).wf(),
        ensures
            final(self).wf(),
            final(self).initialized == old(self).initialized,
            !old(self).holds(current, Role::SuperAdmin) ==> r == Err::<(), Error>(
                Error::NotAuthorized,
            ) && *final(self) == *old(self),
            old(self).holds(current, Role::SuperAdmin) ==> {
                &&& r == Ok::<(), Error>(())
                &&& final(self).role_spec(new_admin) == Some(Role::SuperAdmin)
                &&& (current != new_admin ==> final(self).role_spec(current) == None::<Role>)
                &&& forall|b: Address|
                    b != current && b != new_admin
                        ==> final(self).role_spec(b) == old(self).role_spec(b)
            },
    {
        if !self.has_role(current, Role::SuperAdmin) {
            return Err(Error::NotAuthorized);
        }
        if current == new_admin {
            return Ok(());
        }
        proof {
            if !self.initialized {
                assert(lookup(self.entries@, current) == None::<Role>);
            }
        }
        let ghost pre = *self;
        self.drop_entry(current);
        proof {
            assert forall|b: Address| b != new_admin implies !self.holds(
                b,
                Role::SuperAdmin,
            ) by {
                if b == current {
                    assert(self.role_spec(current) == None::<Role>);
                } else if self.holds(b, Role::SuperAdmin) {
                    assert(pre.holds(b, Role::SuperAdmin));
                    lemma_lookup_found(pre.entries@, b);
                    lemma_lookup_found(pre.entries@, current);
                }
            }
        }
        self.put(new_admin, Role::SuperAdmin);
        Ok(())
    }

    /// Guard: passes for SuperAdmin, Admin and ProjectManager.
    pub fn require_can_register(&self, a: Address) -> (r: Result<(), Error>)
        ensures
            r is Ok <==> self.can_register(a),
            r is Err ==> r == Err::<(), Error>(Error::NotAuthorized),
    {
        match self.role_of(a) {
            Some(Role::SuperAdmin) => Ok(()),
            Some(Role::Admin) => Ok(()),
            Some(Role::ProjectManager) => Ok(()),
            _ => Err(Error::NotAuthorized),
        }
    }

    /// Guard: passes for SuperAdmin and Admin.
    pub fn require_admin_or_above(&self, a: Address) -> (r: Result<(), Error>)
        ensures
            r is Ok <==> self.admin_or_above(a),
            r is Err ==> r == Err::<(), Error>(Error::NotAuthorized),
    {
        match self.role_of(a) {
            Some(Role::SuperAdmin) => Ok(()),
            Some(Role::Admin) => Ok(()),
            _ => Err(Error::NotAuthorized),
        }
    }

    /// Guard: passes for the Oracle role only.
    pub fn require_oracle(&self, a: Address) -> (r: Result<(), Error>)
        ensures
            r is Ok <==> self.holds(a, Role::Oracle),
            r is Err ==> r == Err::<(), Error>(Error::NotAuthorized),
    {
        match self.role_of(a) {
            Some(Role::Oracle) => Ok(()),
            _ => Err(Error::NotAuthorized),
        }
    }
}

/// Law: at most one address holds `SuperAdmin` at any instant.
pub proof fn lemma_super_admin_unique(r: RoleRegistry, a: Address, b: Address)
    requires
        r.wf(),
        r.holds(a, Role::SuperAdmin),
        r.holds(b, Role::SuperAdmin),
    ensures
        a == b,
{
    lemma_lookup_found(r.entries@, a);
    lemma_lookup_found(r.entries@, b);
}

} // verus!
