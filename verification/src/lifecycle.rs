//! The public operation surface of the protocol: registration, deposits and
//! verification, each gated by the role registry and persisted through the
//! record store.
//!
//! Every operation is one atomic unit: when a check fails it aborts with
//! zero mutation of records, balances and the notification stream. (Reads
//! performed before the failing check may still have renewed the retention
//! lifetime of the entries they touched; renewal only ever extends
//! retention and never changes a record's value.)

use vstd::prelude::*;

use crate::errors::{Abort, Error};
use crate::host::{HostEnv, Notification};
use crate::invariants::{valid_config, valid_state_for};
use crate::roles::{Role, RoleRegistry};
use crate::storage::ProjectStore;
use crate::types::{
    Address, Project, ProjectBalances, ProjectConfigView, ProjectStateView, ProjectStatus,
    ProjectConfig, ProjectState, ProjectView, ProofHash, TokenBalance, TokenId, copy_vec,
    project_of,
};

verus! {

/// What registration demands of its inputs, beyond authorization: a
/// positive goal, a deadline strictly after the current time, and a
/// non-empty accepted token list without repeats.
pub open spec fn register_input_ok(
    tokens: Seq<TokenId>,
    goal: i128,
    deadline: u64,
    now: u64,
) -> bool {
    &&& goal > 0
    &&& deadline > now
    &&& tokens.len() > 0
    &&& crate::invariants::distinct_tokens(tokens)
}

/// Whether no token identifier repeats in `v`.
fn tokens_distinct(v: &Vec<TokenId>) -> (r: bool)
    ensures
        r == crate::invariants::distinct_tokens(v@),
{
    let n = v.len();
    let mut i: usize = 0;
    while i < n
        invariant
            n == v@.len(),
            i <= n,
            forall|a: int, b: int| 0 <= a < i && a < b < n ==> v@[a] != v@[b],
        decreases n - i,
    {
        let mut j: usize = i + 1;
        while j < n
            invariant
                n == v@.len(),
                i < n,
                i < j <= n,
                forall|b: int| i < b < j ==> v@[i as int] != v@[b],
            decreases n - j,
        {
            if v[i] == v[j] {
                return false;
            }
            j = j + 1;
        }
        i = i + 1;
    }
    true
}

/// Byte-for-byte equality of two proof hashes.
fn hash_eq(a: &ProofHash, b: &ProofHash) -> (r: bool)
    ensures
        r == (a@ == b@),
{
    let mut i: usize = 0;
    while i < 32
        invariant
            i <= 32,
            forall|j: int| 0 <= j < i ==> a@[j] == b@[j],
        decreases 32 - i,
    {
        if a[i] != b[i] {
            return false;
        }
        i = i + 1;
    }
    proof {
        assert(a@ =~= b@);
    }
    true
}

/// The first position of `t` among the accepted tokens, if any.
fn find_token(v: &Vec<TokenId>, t: TokenId) -> (r: Option<usize>)
    ensures
        match r {
            Some(j) => j < v@.len() && v@[j as int] == t,
            None => !v@.contains(t),
        },
{
    let n = v.len();
    let mut k: usize = 0;
    while k < n
        invariant
            n == v@.len(),
            k <= n,
            forall|j: int| 0 <= j < k ==> v@[j] != t,
        decreases n - k,
    {
        if v[k] == t {
            return Some(k);
        }
        k = k + 1;
    }
    None
}

/// Whether the pair `(d, t)` already deposited into this project.
fn donors_contains(v: &Vec<(Address, TokenId)>, d: Address, t: TokenId) -> (r: bool)
    ensures
        r == v@.contains((d, t)),
{
    let n = v.len();
    let mut k: usize = 0;
    while k < n
        invariant
            n == v@.len(),
            k <= n,
            forall|j: int| 0 <= j < k ==> v@[j] != (d, t),
        decreases n - k,
    {
        let (vd, vt) = v[k];
        if vd == d && vt == t {
            return true;
        }
        k = k + 1;
    }
    false
}

/// Crediting `amount` to the project's balance for `token` stays within
/// the 128-bit range.
pub open spec fn deposit_fits(
    cfg: ProjectConfigView,
    st: ProjectStateView,
    token: TokenId,
    amount: i128,
) -> bool {
    forall|j: int|
        0 <= j < st.balances.len() && cfg.accepted_tokens[j] == token ==> st.balances[j] + amount
            <= i128::MAX
}

/// The external asset interface accepts this transfer into custody: a
/// non-negative amount the donator owns, and no overflow at the custodian.
pub open spec fn deposit_transfer_ok(
    tokens: crate::host::TokenLedger,
    contract: Address,
    donator: Address,
    token: TokenId,
    amount: i128,
) -> bool {
    &&& amount >= 0
    &&& tokens.balance_spec(token, donator) >= amount
    &&& (donator != contract ==> tokens.balance_spec(token, contract) + amount <= i128::MAX)
}

/// The external asset interface can release every per-token balance from
/// custody to the creator: the custodian owns each amount, and crediting
/// the creator overflows nowhere.
pub open spec fn release_ok(
    tokens: crate::host::TokenLedger,
    contract: Address,
    creator: Address,
    cfg: ProjectConfigView,
    st: ProjectStateView,
) -> bool {
    forall|j: int|
        0 <= j < st.balances.len() ==> {
            &&& tokens.balance_spec(#[trigger] cfg.accepted_tokens[j], contract) >= st.balances[j]
            &&& (creator != contract ==> tokens.balance_spec(cfg.accepted_tokens[j], creator)
                + st.balances[j] <= i128::MAX)
        }
}

/// The deployed protocol: its own contract address (the custodian of
/// deposited funds), the role registry, and the record store.
pub struct PifpProtocol {
    /// The address deposits are held at until release.
    pub contract: Address,
    pub roles: RoleRegistry,
    pub store: ProjectStore,
}

impl PifpProtocol {
    pub open spec fn wf(self) -> bool {
        &&& self.roles.wf()
        &&& self.store.wf()
    }

    /// How many projects have been registered; also the next id.
    pub open spec fn project_count(self) -> u64 {
        self.store.project_count
    }

    pub open spec fn config_view(self, i: int) -> ProjectConfigView {
        self.store.config_view(i)
    }

    pub open spec fn state_view(self, i: int) -> ProjectStateView {
        self.store.state_view(i)
    }

    pub open spec fn status_of(self, i: int) -> ProjectStatus {
        self.state_view(i).status
    }

    /// Whether a project with this id has been registered.
    pub open spec fn has_project(self, id: u64) -> bool {
        (id as int) < self.store.num_projects()
    }

    /// Whether project `id` accepts deposits in `token`.
    pub open spec fn accepts(self, id: u64, token: TokenId) -> bool {
        self.config_view(id as int).accepted_tokens.contains(token)
    }

    /// The records of two protocol states agree everywhere.
    pub open spec fn same_records(self, other: PifpProtocol) -> bool {
        &&& self.store.configs@ == other.store.configs@
        &&& self.store.states@ == other.store.states@
        &&& self.store.project_count == other.store.project_count
        &&& self.store.oracle == other.store.oracle
        &&& self.roles == other.roles
        &&& self.contract == other.contract
    }

    /// Deploy: no roles assigned, no projects, counter at zero.
    pub fn new(contract: Address) -> (r: PifpProtocol)
        ensures
            r.wf(),
            r.contract == contract,
            !r.roles.initialized,
            forall|a: Address| r.roles.role_spec(a) == None::<Role>,
            r.project_count() == 0,
            r.store.num_projects() == 0,
    {
        PifpProtocol { contract, roles: RoleRegistry::new(), store: ProjectStore::new() }
    }

    /// Initialise the deployment and set the first SuperAdmin. Callable
    /// exactly once; later calls fail with `AlreadyInitialized`.
    pub fn init(&mut self, super_admin: Address) -> (r: Result<(), Abort>)
        requires
            old(self).wf(),
        ensures
            final(self).wf(),
            final(self).store == old(self).store,
            final(self).contract == old(self).contract,
            old(self).roles.initialized ==> r == Err::<(), Abort>(
                Abort::Code(Error::AlreadyInitialized),
            ) && *final(self) == *old(self),
            !old(self).roles.initialized ==> {
                &&& r == Ok::<(), Abort>(())
                &&& final(self).roles.initialized
                &&& final(self).roles.role_spec(super_admin) == Some(Role::SuperAdmin)
                &&& forall|b: Address|
                    b != super_admin ==> final(self).roles.role_spec(b) == None::<Role>
            },
    {
        match self.roles.init_super_admin(super_admin) {
            Ok(()) => Ok(()),
            Err(e) => Err(Abort::Code(e)),
        }
    }

    /// Grant `role` to `target`; see [`RoleRegistry::grant_role`] for the
    /// authorization rules. Emits a `role_set` notification on success.
    pub fn grant_role(
        &mut self,
        env: &mut HostEnv,
        caller: Address,
        target: Address,
        role: Role,
    ) -> (r: Result<(), Abort>)
        requires
            old(self).wf(),
        ensures
            final(self).wf(),
            final(self).store == old(self).store,
            final(self).contract == old(self).contract,
            final(env).timestamp == old(env).timestamp,
            final(env).tokens == old(env).tokens,
            !old(self).roles.admin_or_above(caller) ==> r == Err::<(), Abort>(
                Abort::Code(Error::NotAuthorized),
            ) && *final(self) == *old(self) && *final(env) == *old(env),
            old(self).roles.admin_or_above(caller) && role == Role::SuperAdmin && !old(
                self,
            ).roles.holds(caller, Role::SuperAdmin) ==> r == Err::<(), Abort>(
                Abort::Code(Error::NotAuthorized),
            ) && *final(self) == *old(self) && *final(env) == *old(env),
            old(self).roles.admin_or_above(caller) && (role != Role::SuperAdmin || old(
                self,
            ).roles.holds(caller, Role::SuperAdmin)) ==> {
                &&& r == Ok::<(), Abort>(())
                &&& final(self).roles.role_spec(target) == Some(role)
                &&& (role == Role::SuperAdmin && caller != target ==> final(self).roles.role_spec(
                    caller,
                ) == None::<Role>)
                &&& forall|b: Address|
                    b != target && !(role == Role::SuperAdmin && b == caller)
                        ==> final(self).roles.role_spec(b) == old(self).roles.role_spec(b)
                &&& final(env).events@ == old(env).events@.push(
                    Notification::RoleSet { target, role, caller },
                )
            },
    {
        match self.roles.grant_role(caller, target, role) {
            Ok(()) => {
                env.events.push(Notification::RoleSet { target, role, caller });
                Ok(())
            },
            Err(e) => Err(Abort::Code(e)),
        }
    }

    /// Revoke any role from `target`; see [`RoleRegistry::revoke_role`].
    /// Emits a `role_del` notification on success.
    pub fn revoke_role(&mut self, env: &mut HostEnv, caller: Address, target: Address) -> (r:
        Result<(), Abort>)
        requires
            old(self).wf(),
        ensures
            final(self).wf(),
            final(self).store == old(self).store,
            final(self).contract == old(self).contract,
            final(env).timestamp == old(env).timestamp,
            final(env).tokens == old(env).tokens,
            !old(self).roles.admin_or_above(caller) ==> r == Err::<(), Abort>(
                Abort::Code(Error::NotAuthorized),
            ) && *final(self) == *old(self) && *final(env) == *old(env),
            old(self).roles.admin_or_above(caller) && old(self).roles.role_spec(target)
                == None::<Role> ==> r == Err::<(), Abort>(Abort::Code(Error::RoleNotFound))
                && *final(self) == *old(self) && *final(env) == *old(env),
            old(self).roles.admin_or_above(caller) && old(self).roles.holds(
                target,
                Role::SuperAdmin,
            ) ==> r == Err::<(), Abort>(Abort::Code(Error::NotAuthorized)) && *final(self) == *old(
                self,
            ) && *final(env) == *old(env),
            old(self).roles.admin_or_above(caller) && old(self).roles.role_spec(target) is Some
                && !old(self).roles.holds(target, Role::SuperAdmin) ==> {
                &&& r == Ok::<(), Abort>(())
                &&& final(self).roles.role_spec(target) == None::<Role>
                &&& forall|b: Address|
                    b != target ==> final(self).roles.role_spec(b) == old(self).roles.role_spec(b)
                &&& final(env).events@ == old(env).events@.push(
                    Notification::RoleDel { target, caller },
                )
            },
    {
        match self.roles.revoke_role(caller, target) {
            Ok(()) => {
                env.events.push(Notification::RoleDel { target, caller });
                Ok(())
            },
            Err(e) => Err(Abort::Code(e)),
        }
    }

    /// Atomically move SuperAdmin from `current` to `new_admin`; see
    /// [`RoleRegistry::transfer_super_admin`]. Emits `role_del` for the
    /// outgoing holder and `role_set` for the incoming one.
    pub fn transfer_super_admin(
        &mut self,
        env: &mut HostEnv,
        current: Address,
        new_admin: Address,
    ) -> (r: Result<(), Abort>)
        requires
            old(self).wf(),
        ensures
            final(self).wf(),
            final(self).store == old(self).store,
            final(self).contract == old(self).contract,
            final(env).timestamp == old(env).timestamp,
            final(env).tokens == old(env).tokens,
            !old(self).roles.holds(current, Role::SuperAdmin) ==> r == Err::<(), Abort>(
                Abort::Code(Error::NotAuthorized),
            ) && *final(self) == *old(self) && *final(env) == *old(env),
            old(self).roles.holds(current, Role::SuperAdmin) ==> {
                &&& r == Ok::<(), Abort>(())
                &&& final(self).roles.role_spec(new_admin) == Some(Role::SuperAdmin)
                &&& (current != new_admin ==> final(self).roles.role_spec(current)
                    == None::<Role>)
                &&& forall|b: Address|
                    b != current && b != new_admin ==> final(self).roles.role_spec(b) == old(
                        self,
                    ).roles.role_spec(b)
                &&& final(env).events@ == old(env).events@.push(
                    Notification::RoleDel { target: current, caller: current },
                ).push(
                    Notification::RoleSet {
                        target: new_admin,
                        role: Role::SuperAdmin,
                        caller: current,
                    },
                )
            },
    {
        match self.roles.transfer_super_admin(current, new_admin) {
            Ok(()) => {
                env.events.push(Notification::RoleDel { target: current, caller: current });
                env.events.push(
                    Notification::RoleSet {
                        target: new_admin,
                        role: Role::SuperAdmin,
                        caller: current,
                    },
                );
                Ok(())
            },
            Err(e) => Err(Abort::Code(e)),
        }
    }

    /// The role held by `address`, or `None`. Pure read.
    pub fn role_of(&self, address: Address) -> (r: Option<Role>)
        ensures
            r == self.roles.role_spec(address),
    {
        self.roles.role_of(address)
    }

    /// Whether `address` holds exactly `role`. Pure read.
    pub fn has_role(&self, address: Address, role: Role) -> (r: bool)
        ensures
            r == self.roles.holds(address, role),
    {
        self.roles.has_role(address, role)
    }

    /// Grant the Oracle role to `oracle`.
    ///
    /// The caller must hold SuperAdmin or Admin. Does not revoke any
    /// existing oracle: addresses already holding the role keep it until
    /// explicitly revoked.
    pub fn set_oracle(&mut self, env: &mut HostEnv, caller: Address, oracle: Address) -> (r:
        Result<(), Abort>)
        requires
            old(self).wf(),
        ensures
            final(self).wf(),
            final(self).store == old(self).store,
            final(self).contract == old(self).contract,
            final(env).timestamp == old(env).timestamp,
            final(env).tokens == old(env).tokens,
            !old(self).roles.admin_or_above(caller) ==> r == Err::<(), Abort>(
                Abort::Code(Error::NotAuthorized),
            ) && *final(self) == *old(self) && *final(env) == *old(env),
            old(self).roles.admin_or_above(caller) ==> {
                &&& r == Ok::<(), Abort>(())
                &&& final(self).roles.role_spec(oracle) == Some(Role::Oracle)
                &&& forall|b: Address|
                    b != oracle ==> final(self).roles.role_spec(b) == old(self).roles.role_spec(b)
                &&& final(env).events@ == old(env).events@.push(
                    Notification::RoleSet { target: oracle, role: Role::Oracle, caller },
                )
            },
    {
        if let Err(e) = self.roles.require_admin_or_above(caller) {
            return Err(Abort::Code(e));
        }
        match self.roles.grant_role(caller, oracle, Role::Oracle) {
            Ok(()) => {
                env.events.push(
                    Notification::RoleSet { target: oracle, role: Role::Oracle, caller },
                );
                Ok(())
            },
            Err(e) => Err(Abort::Code(e)),
        }
    }

    /// Register a new funding project.
    ///
    /// `creator` must hold ProjectManager, Admin or SuperAdmin. The goal
    /// must be strictly positive, the deadline strictly in the future, and
    /// the accepted token list non-empty without repeats; any other input
    /// fails with `InvalidMilestones`. On success the project gets the next
    /// sequential id, status `Funding`, all balances zero, and a `created`
    /// notification keyed by its id; on failure nothing is persisted.
    pub fn register_project(
        &mut self,
        env: &mut HostEnv,
        creator: Address,
        tokens: Vec<TokenId>,
        goal: i128,
        proof_hash: ProofHash,
        deadline: u64,
    ) -> (r: Result<Project, Abort>)
        requires
            old(self).wf(),
        ensures
            final(self).wf(),
            final(self).contract == old(self).contract,
            final(self).roles == old(self).roles,
            final(env).timestamp == old(env).timestamp,
            final(env).tokens == old(env).tokens,
            !old(self).roles.can_register(creator) ==> r == Err::<Project, Abort>(
                Abort::Code(Error::NotAuthorized),
            ) && *final(self) == *old(self) && *final(env) == *old(env),
            old(self).roles.can_register(creator) && !register_input_ok(
                tokens@,
                goal,
                deadline,
                old(env).timestamp,
            ) ==> r == Err::<Project, Abort>(Abort::Code(Error::InvalidMilestones)) && *final(self)
                == *old(self) && *final(env) == *old(env),
            old(self).roles.can_register(creator) && register_input_ok(
                tokens@,
                goal,
                deadline,
                old(env).timestamp,
            ) && old(self).project_count() == u64::MAX ==> r == Err::<Project, Abort>(Abort::Panic)
                && *final(self) == *old(self) && *final(env) == *old(env),
            old(self).roles.can_register(creator) && register_input_ok(
                tokens@,
                goal,
                deadline,
                old(env).timestamp,
            ) && old(self).project_count() < u64::MAX ==> {
                &&& r matches Ok(p) && p@ == (ProjectView {
                    id: old(self).project_count(),
                    creator,
                    accepted_tokens: tokens@,
                    goal,
                    proof_hash: proof_hash@,
                    deadline,
                    status: ProjectStatus::Funding,
                    donation_count: 0,
                })
                &&& final(self).project_count() == old(self).project_count() + 1
                &&& final(self).store.num_projects() == old(self).store.num_projects() + 1
                &&& final(self).config_view(old(self).project_count() as int)
                    == (ProjectConfigView {
                    id: old(self).project_count(),
                    creator,
                    accepted_tokens: tokens@,
                    goal,
                    proof_hash: proof_hash@,
                    deadline,
                })
                &&& final(self).state_view(old(self).project_count() as int)
                    == (ProjectStateView {
                    balances: Seq::new(tokens@.len(), |i: int| 0i128),
                    status: ProjectStatus::Funding,
                    donors: Seq::empty(),
                })
                &&& forall|i: int|
                    0 <= i < old(self).store.num_projects() ==> #[trigger] final(self).config_view(
                        i,
                    ) == old(self).config_view(i) && final(self).state_view(i) == old(
                        self,
                    ).state_view(i)
                &&& final(env).events@ == old(env).events@.push(
                    Notification::Created {
                        project_id: old(self).project_count(),
                        creator,
                        token: tokens@[0],
                        goal,
                    },
                )
            },
    {
        if let Err(e) = self.roles.require_can_register(creator) {
            return Err(Abort::Code(e));
        }
        if goal <= 0 {
            return Err(Abort::Code(Error::InvalidMilestones));
        }
        if deadline <= env.timestamp {
            return Err(Abort::Code(Error::InvalidMilestones));
        }
        if tokens.len() == 0 || !tokens_distinct(&tokens) {
            return Err(Abort::Code(Error::InvalidMilestones));
        }
        if self.store.project_count == u64::MAX {
            return Err(Abort::Panic);
        }
        let first_token = tokens[0];
        let id = self.store.get_and_increment_project_id();
        let config = ProjectConfig {
            id,
            creator,
            accepted_tokens: copy_vec(&tokens),
            goal,
            proof_hash,
            deadline,
        };
        let zeros: Vec<i128> = vec![0i128; tokens.len()];
        let state = ProjectState {
            balances: zeros,
            status: ProjectStatus::Funding,
            donors: Vec::new(),
        };
        let ghost gconfig = config;
        let ghost gstate = state;
        let ghost mid_store = self.store;
        self.store.save_project(config, state);
        proof {
            ProjectStore::lemma_same_records_wf(old(self).store, mid_store);
            ProjectStore::lemma_push_records_wf(mid_store, self.store, gconfig, gstate);
            assert(gstate@.balances =~= Seq::new(tokens@.len(), |i: int| 0i128));
            assert(gstate@.donors =~= Seq::<(Address, TokenId)>::empty());
        }
        env.events.push(
            Notification::Created { project_id: id, creator, token: first_token, goal },
        );
        Ok(
            Project {
                id,
                creator,
                accepted_tokens: tokens,
                goal,
                proof_hash,
                deadline,
                status: ProjectStatus::Funding,
                donation_count: 0,
            },
        )
    }

    /// Deposit `amount` of `token` into project `project_id`.
    ///
    /// Loads the config (for the accepted tokens) and the state (for the
    /// balance), hands the value to the external asset interface, and only
    /// then rewrites the small state entry: the balance for that token
    /// grows by exactly `amount`, and the (donator, token) pair is counted
    /// once if new. A `funded` notification keyed by the project id carries
    /// the donator and amount. Any failure — unknown project, a token the
    /// project does not accept, a refused transfer, or an arithmetic trap —
    /// aborts with no change to records, balances or notifications.
    pub fn deposit(
        &mut self,
        env: &mut HostEnv,
        project_id: u64,
        donator: Address,
        token: TokenId,
        amount: i128,
    ) -> (r: Result<(), Abort>)
        requires
            old(self).wf(),
            old(env).wf(),
        ensures
            final(self).wf(),
            final(env).wf(),
            final(self).roles == old(self).roles,
            final(self).contract == old(self).contract,
            final(self).project_count() == old(self).project_count(),
            final(self).store.num_projects() == old(self).store.num_projects(),
            final(env).timestamp == old(env).timestamp,
            forall|i: int|
                0 <= i < old(self).store.num_projects() ==> #[trigger] final(self).config_view(i)
                    == old(self).config_view(i),
            !old(self).has_project(project_id) ==> r == Err::<(), Abort>(
                Abort::Code(Error::ProjectNotFound),
            ) && *final(self) == *old(self) && *final(env) == *old(env),
            old(self).has_project(project_id) && !old(self).accepts(project_id, token) ==> r
                == Err::<(), Abort>(Abort::Code(Error::GoalMismatch)) && final(self).same_records(
                *old(self),
            ) && *final(env) == *old(env),
            old(self).has_project(project_id) && old(self).accepts(project_id, token) && !(
            deposit_fits(
                old(self).config_view(project_id as int),
                old(self).state_view(project_id as int),
                token,
                amount,
            ) && deposit_transfer_ok(
                old(env).tokens,
                old(self).contract,
                donator,
                token,
                amount,
            )) ==> r == Err::<(), Abort>(Abort::Panic) && final(self).same_records(*old(self))
                && final(env).tokens == old(env).tokens && final(env).events@ == old(
                env,
            ).events@,
            old(self).has_project(project_id) && old(self).accepts(project_id, token)
                && deposit_fits(
                old(self).config_view(project_id as int),
                old(self).state_view(project_id as int),
                token,
                amount,
            ) && deposit_transfer_ok(
                old(env).tokens,
                old(self).contract,
                donator,
                token,
                amount,
            ) ==> {
                &&& r == Ok::<(), Abort>(())
                &&& final(self).state_view(project_id as int).status == old(self).state_view(
                    project_id as int,
                ).status
                &&& final(self).state_view(project_id as int).balances.len() == old(
                    self,
                ).state_view(project_id as int).balances.len()
                &&& forall|j: int|
                    0 <= j < old(self).state_view(project_id as int).balances.len()
                        ==> final(self).state_view(project_id as int).balances[j] as int == (if old(
                        self,
                    ).config_view(project_id as int).accepted_tokens[j] == token {
                        old(self).state_view(project_id as int).balances[j] + amount
                    } else {
                        old(self).state_view(project_id as int).balances[j] as int
                    })
                &&& final(self).state_view(project_id as int).donors == (if old(self).state_view(
                    project_id as int,
                ).donors.contains((donator, token)) {
                    old(self).state_view(project_id as int).donors
                } else {
                    old(self).state_view(project_id as int).donors.push((donator, token))
                })
                &&& forall|i: int|
                    0 <= i < old(self).store.num_projects() && i != project_id as int
                        ==> #[trigger] final(self).state_view(i) == old(self).state_view(i)
                &&& (donator != old(self).contract ==> {
                    &&& final(env).tokens.balance_spec(token, donator) == old(
                        env,
                    ).tokens.balance_spec(token, donator) - amount
                    &&& final(env).tokens.balance_spec(token, old(self).contract) == old(
                        env,
                    ).tokens.balance_spec(token, old(self).contract) + amount
                })
                &&& (donator == old(self).contract ==> final(env).tokens.balance_spec(
                    token,
                    donator,
                ) == old(env).tokens.balance_spec(token, donator))
                &&& forall|t2: TokenId, h2: Address|
                    (t2, h2) != (token, donator) && (t2, h2) != (token, old(self).contract)
                        ==> final(env).tokens.balance_spec(t2, h2) == old(
                        env,
                    ).tokens.balance_spec(t2, h2)
                &&& final(env).events@ == old(env).events@.push(
                    Notification::Funded { project_id, donator, amount },
                )
            },
    {
        let config_r = self.store.load_project_config(project_id);
        proof {
            ProjectStore::lemma_same_records_wf(old(self).store, self.store);
        }
        let config = match config_r {
            Ok(c) => c,
            Err(e) => {
                return Err(Abort::Code(e));
            },
        };
        let j = match find_token(&config.accepted_tokens, token) {
            Some(j) => j,
            None => {
                return Err(Abort::Code(Error::GoalMismatch));
            },
        };
        let state_r = self.store.load_project_state(project_id);
        proof {
            ProjectStore::lemma_same_records_wf(old(self).store, self.store);
        }
        let mut state = match state_r {
            Ok(s) => s,
            Err(_) => {
                proof {
                    assert(false);
                }
                return Err(Abort::Panic);
            },
        };
        let bal = state.balances[j];
        if amount > 0 && bal > i128::MAX - amount {
            proof {
                assert(!deposit_fits(
                    old(self).config_view(project_id as int),
                    old(self).state_view(project_id as int),
                    token,
                    amount,
                ));
            }
            return Err(Abort::Panic);
        }
        let contract = self.contract;
        if let Err(a) = env.tokens.transfer(token, donator, contract, amount) {
            return Err(a);
        }
        state.balances[j] = bal + amount;
        if !donors_contains(&state.donors, donator, token) {
            state.donors.push((donator, token));
        }
        let ghost gstate = state;
        let ghost mid_store = self.store;
        let save_r = self.store.save_project_state(project_id, state);
        proof {
            assert(valid_state_for(mid_store.config_view(project_id as int), gstate@)) by {
                assert(old(self).store.records_wf());
                assert(valid_state_for(
                    old(self).config_view(project_id as int),
                    old(self).state_view(project_id as int),
                ));
            }
            ProjectStore::lemma_update_state_records_wf(
                mid_store,
                self.store,
                project_id as int,
                gstate,
            );
        }
        match save_r {
            Ok(()) => (),
            Err(_) => {
                proof {
                    assert(false);
                }
                return Err(Abort::Panic);
            },
        }
        env.events.push(Notification::Funded { project_id, donator, amount });
        Ok(())
    }

    /// Verify the submitted proof of impact and release the held funds.
    ///
    /// `oracle` must hold the Oracle role. A project already `Completed`
    /// fails with `MilestoneAlreadyReleased`; one already `Expired` fails
    /// with the not-found kind. The submitted hash is compared to the
    /// stored one byte for byte: any mismatch is an untyped abort with no
    /// state change. On a match the status moves to `Completed` (the one
    /// write, to the small state entry), every per-token balance is
    /// released from custody to the creator through the asset interface,
    /// and a `verified` notification keyed by the project id is emitted.
    #[verifier::loop_isolation(false)]
    pub fn verify_and_release(
        &mut self,
        env: &mut HostEnv,
        oracle: Address,
        project_id: u64,
        submitted_proof_hash: ProofHash,
    ) -> (r: Result<(), Abort>)
        requires
            old(self).wf(),
            old(env).wf(),
        ensures
            final(self).wf(),
            final(env).wf(),
            final(self).roles == old(self).roles,
            final(self).contract == old(self).contract,
            final(self).project_count() == old(self).project_count(),
            final(self).store.num_projects() == old(self).store.num_projects(),
            final(env).timestamp == old(env).timestamp,
            forall|i: int|
                0 <= i < old(self).store.num_projects() ==> #[trigger] final(self).config_view(i)
                    == old(self).config_view(i),
            !old(self).roles.holds(oracle, Role::Oracle) ==> r == Err::<(), Abort>(
                Abort::Code(Error::NotAuthorized),
            ) && *final(self) == *old(self) && *final(env) == *old(env),
            old(self).roles.holds(oracle, Role::Oracle) && !old(self).has_project(project_id)
                ==> r == Err::<(), Abort>(Abort::Code(Error::ProjectNotFound)) && *final(self)
                == *old(self) && *final(env) == *old(env),
            old(self).roles.holds(oracle, Role::Oracle) && old(self).has_project(project_id)
                && old(self).status_of(project_id as int) == ProjectStatus::Completed ==> r
                == Err::<(), Abort>(Abort::Code(Error::MilestoneAlreadyReleased))
                && final(self).same_records(*old(self)) && *final(env) == *old(env),
            old(self).roles.holds(oracle, Role::Oracle) && old(self).has_project(project_id)
                && old(self).status_of(project_id as int) == ProjectStatus::Expired ==> r
                == Err::<(), Abort>(Abort::Code(Error::ProjectNotFound))
                && final(self).same_records(*old(self)) && *final(env) == *old(env),
            old(self).roles.holds(oracle, Role::Oracle) && old(self).has_project(project_id)
                && !crate::invariants::is_terminal(old(self).status_of(project_id as int))
                && submitted_proof_hash@ != old(self).config_view(project_id as int).proof_hash
                ==> r == Err::<(), Abort>(Abort::Panic) && final(self).same_records(*old(self))
                && *final(env) == *old(env),
            old(self).roles.holds(oracle, Role::Oracle) && old(self).has_project(project_id)
                && !crate::invariants::is_terminal(old(self).status_of(project_id as int))
                && submitted_proof_hash@ == old(self).config_view(project_id as int).proof_hash
                && !release_ok(
                old(env).tokens,
                old(self).contract,
                old(self).config_view(project_id as int).creator,
                old(self).config_view(project_id as int),
                old(self).state_view(project_id as int),
            ) ==> r == Err::<(), Abort>(Abort::Panic) && final(self).same_records(*old(self))
                && final(env).tokens == old(env).tokens && final(env).events@ == old(
                env,
            ).events@,
            old(self).roles.holds(oracle, Role::Oracle) && old(self).has_project(project_id)
                && !crate::invariants::is_terminal(old(self).status_of(project_id as int))
                && submitted_proof_hash@ == old(self).config_view(project_id as int).proof_hash
                && release_ok(
                old(env).tokens,
                old(self).contract,
                old(self).config_view(project_id as int).creator,
                old(self).config_view(project_id as int),
                old(self).state_view(project_id as int),
            ) ==> {
                &&& r == Ok::<(), Abort>(())
                &&& final(self).state_view(project_id as int).status == ProjectStatus::Completed
                &&& crate::invariants::valid_transition(
                    old(self).status_of(project_id as int),
                    ProjectStatus::Completed,
                )
                &&& final(self).state_view(project_id as int).balances == old(self).state_view(
                    project_id as int,
                ).balances
                &&& final(self).state_view(project_id as int).donors == old(self).state_view(
                    project_id as int,
                ).donors
                &&& forall|i: int|
                    0 <= i < old(self).store.num_projects() && i != project_id as int
                        ==> #[trigger] final(self).state_view(i) == old(self).state_view(i)
                &&& (old(self).config_view(project_id as int).creator != old(self).contract
                    ==> forall|j: int|
                    0 <= j < old(self).state_view(project_id as int).balances.len() ==> {
                        &&& final(env).tokens.balance_spec(
                            #[trigger] old(self).config_view(
                                project_id as int,
                            ).accepted_tokens[j],
                            old(self).config_view(project_id as int).creator,
                        ) == old(env).tokens.balance_spec(
                            old(self).config_view(project_id as int).accepted_tokens[j],
                            old(self).config_view(project_id as int).creator,
                        ) + old(self).state_view(project_id as int).balances[j]
                        &&& final(env).tokens.balance_spec(
                            old(self).config_view(project_id as int).accepted_tokens[j],
                            old(self).contract,
                        ) == old(env).tokens.balance_spec(
                            old(self).config_view(project_id as int).accepted_tokens[j],
                            old(self).contract,
                        ) - old(self).state_view(project_id as int).balances[j]
                    })
                &&& (old(self).config_view(project_id as int).creator == old(self).contract
                    ==> forall|t2: TokenId, h2: Address|
                    final(env).tokens.balance_spec(t2, h2) == old(env).tokens.balance_spec(
                        t2,
                        h2,
                    ))
                &&& forall|t2: TokenId, h2: Address|
                    (!old(self).config_view(project_id as int).accepted_tokens.contains(t2) || (
                    h2 != old(self).config_view(project_id as int).creator && h2 != old(
                        self,
                    ).contract)) ==> final(env).tokens.balance_spec(t2, h2) == old(
                        env,
                    ).tokens.balance_spec(t2, h2)
                &&& final(env).events@ == old(env).events@.push(
                    Notification::Verified { project_id, oracle, proof_hash: submitted_proof_hash },
                )
            },
    {
        if !self.roles.has_role(oracle, Role::Oracle) {
            return Err(Abort::Code(Error::NotAuthorized));
        }
        let config_r = self.store.load_project_config(project_id);
        proof {
            ProjectStore::lemma_same_records_wf(old(self).store, self.store);
        }
        let config = match config_r {
            Ok(c) => c,
            Err(e) => {
                return Err(Abort::Code(e));
            },
        };
        let state_r = self.store.load_project_state(project_id);
        proof {
            ProjectStore::lemma_same_records_wf(old(self).store, self.store);
        }
        let mut state = match state_r {
            Ok(s) => s,
            Err(_) => {
                proof {
                    assert(false);
                }
                return Err(Abort::Panic);
            },
        };
        match state.status {
            ProjectStatus::Funding => (),
            ProjectStatus::Active => (),
            ProjectStatus::Completed => {
                return Err(Abort::Code(Error::MilestoneAlreadyReleased));
            },
            ProjectStatus::Expired => {
                return Err(Abort::Code(Error::ProjectNotFound));
            },
        }
        if !hash_eq(&submitted_proof_hash, &config.proof_hash) {
            return Err(Abort::Panic);
        }
        let creator = config.creator;
        let contract = self.contract;
        let n = config.accepted_tokens.len();
        proof {
            assert(valid_config(old(self).config_view(project_id as int)));
            assert(valid_state_for(
                old(self).config_view(project_id as int),
                old(self).state_view(project_id as int),
            ));
        }
        let ghost self_checked = *self;
        let mut j: usize = 0;
        while j < n
            invariant
                n == config.accepted_tokens@.len(),
                n == state.balances@.len(),
                j <= n,
                *self == self_checked,
                self_checked.wf(),
                self_checked.same_records(*old(self)),
                self_checked.roles == old(self).roles,
                self_checked.contract == old(self).contract,
                *env == *old(env),
                config.accepted_tokens@ == old(self).config_view(project_id as int).accepted_tokens,
                state.balances@ == old(self).state_view(project_id as int).balances,
                forall|j2: int|
                    0 <= j2 < j ==> {
                        &&& env.tokens.balance_spec(
                            #[trigger] config.accepted_tokens@[j2],
                            contract,
                        ) >= state.balances@[j2]
                        &&& (creator != contract ==> env.tokens.balance_spec(
                            config.accepted_tokens@[j2],
                            creator,
                        ) + state.balances@[j2] <= i128::MAX)
                    },
            decreases n - j,
        {
            let t = config.accepted_tokens[j];
            let b = state.balances[j];
            let cb = env.tokens.balance(t, contract);
            if cb < b {
                return Err(Abort::Panic);
            }
            if creator != contract {
                let crb = env.tokens.balance(t, creator);
                if crb > i128::MAX - b {
                    return Err(Abort::Panic);
                }
            }
            j = j + 1;
        }
        state.status = ProjectStatus::Completed;
        let balances = copy_vec(&state.balances);
        let tokens_list = copy_vec(&config.accepted_tokens);
        let ghost gstate = state;
        let ghost mid_store = self.store;
        let save_r = self.store.save_project_state(project_id, state);
        proof {
            assert(valid_state_for(mid_store.config_view(project_id as int), gstate@));
            ProjectStore::lemma_update_state_records_wf(
                mid_store,
                self.store,
                project_id as int,
                gstate,
            );
        }
        match save_r {
            Ok(()) => (),
            Err(_) => {
                proof {
                    assert(false);
                }
                return Err(Abort::Panic);
            },
        }
        let ghost self_saved = *self;
        let ghost pre_tokens = env.tokens;
        let mut k: usize = 0;
        while k < n
            invariant
                n == tokens_list@.len(),
                n == balances@.len(),
                k <= n,
                *self == self_saved,
                env.timestamp == old(env).timestamp,
                env.events@ == old(env).events@,
                pre_tokens == old(env).tokens,
                env.tokens.wf(),
                tokens_list@ == old(self).config_view(project_id as int).accepted_tokens,
                balances@ == old(self).state_view(project_id as int).balances,
                crate::invariants::distinct_tokens(tokens_list@),
                forall|j2: int| 0 <= j2 < n ==> #[trigger] balances@[j2] >= 0,
                release_ok(
                    pre_tokens,
                    contract,
                    creator,
                    old(self).config_view(project_id as int),
                    old(self).state_view(project_id as int),
                ),
                creator != contract ==> forall|j2: int|
                    0 <= j2 < k ==> {
                        &&& env.tokens.balance_spec(#[trigger] tokens_list@[j2], creator)
                            == pre_tokens.balance_spec(tokens_list@[j2], creator) + balances@[j2]
                        &&& env.tokens.balance_spec(tokens_list@[j2], contract)
                            == pre_tokens.balance_spec(tokens_list@[j2], contract) - balances@[j2]
                    },
                creator != contract ==> forall|j2: int|
                    k <= j2 < n ==> {
                        &&& env.tokens.balance_spec(#[trigger] tokens_list@[j2], creator)
                            == pre_tokens.balance_spec(tokens_list@[j2], creator)
                        &&& env.tokens.balance_spec(tokens_list@[j2], contract)
                            == pre_tokens.balance_spec(tokens_list@[j2], contract)
                    },
                creator == contract ==> forall|t2: TokenId, h2: Address|
                    env.tokens.balance_spec(t2, h2) == pre_tokens.balance_spec(t2, h2),
                forall|t2: TokenId, h2: Address|
                    (!tokens_list@.contains(t2) || (h2 != creator && h2 != contract))
                        ==> env.tokens.balance_spec(t2, h2) == pre_tokens.balance_spec(t2, h2),
            decreases n - k,
        {
            let t = tokens_list[k];
            let b = balances[k];
            proof {
                assert(tokens_list@.contains(tokens_list@[k as int]));
            }
            let transfer_r = env.tokens.transfer(t, contract, creator, b);
            match transfer_r {
                Ok(()) => (),
                Err(_) => {
                    proof {
                        assert(false);
                    }
                    return Err(Abort::Panic);
                },
            }
            k = k + 1;
        }
        env.events.push(
            Notification::Verified { project_id, oracle, proof_hash: submitted_proof_hash },
        );
        Ok(())
    }

    /// Retrieve the reconstructed view of project `id`. A read, though it
    /// renews the retention lifetime of the entries it touches.
    pub fn get_project(&mut self, id: u64) -> (r: Result<Project, Abort>)
        requires
            old(self).wf(),
        ensures
            final(self).wf(),
            final(self).same_records(*old(self)),
            r is Ok <==> (id as int) < old(self).store.num_projects(),
            r matches Ok(p) ==> p@ == project_of(
                old(self).config_view(id as int),
                old(self).state_view(id as int),
            ),
            r is Err ==> r == Err::<Project, Abort>(Abort::Code(Error::ProjectNotFound)),
    {
        let r = self.store.load_project(id);
        proof {
            ProjectStore::lemma_same_records_wf(old(self).store, self.store);
        }
        match r {
            Ok(p) => Ok(p),
            Err(e) => Err(Abort::Code(e)),
        }
    }

    /// The funded amount of each accepted token of project `id`, in
    /// registration order.
    pub fn get_project_balances(&mut self, id: u64) -> (r: Result<ProjectBalances, Abort>)
        requires
            old(self).wf(),
        ensures
            final(self).wf(),
            final(self).same_records(*old(self)),
            r is Ok <==> (id as int) < old(self).store.num_projects(),
            r matches Ok(b) ==> {
                &&& b.project_id == id
                &&& b.balances@.len() == old(self).config_view(id as int).accepted_tokens.len()
                &&& forall|j: int|
                    0 <= j < b.balances@.len() ==> #[trigger] b.balances@[j] == (TokenBalance {
                        token: old(self).config_view(id as int).accepted_tokens[j],
                        balance: old(self).state_view(id as int).balances[j],
                    })
            },
            r is Err ==> r == Err::<ProjectBalances, Abort>(Abort::Code(Error::ProjectNotFound)),
    {
        let config = match self.store.load_project_config(id) {
            Ok(c) => c,
            Err(e) => {
                return Err(Abort::Code(e));
            },
        };
        proof {
            ProjectStore::lemma_same_records_wf(old(self).store, self.store);
        }
        let state_r = self.store.load_project_state(id);
        proof {
            ProjectStore::lemma_same_records_wf(old(self).store, self.store);
        }
        let state = match state_r {
            Ok(s) => s,
            Err(e) => {
                return Err(Abort::Code(e));
            },
        };
        let n = config.accepted_tokens.len();
        let mut balances: Vec<TokenBalance> = Vec::new();
        let mut j: usize = 0;
        while j < n
            invariant
                n == config.accepted_tokens@.len(),
                n == state.balances@.len(),
                j <= n,
                balances@.len() == j,
                forall|i: int|
                    0 <= i < j ==> #[trigger] balances@[i] == (TokenBalance {
                        token: config.accepted_tokens@[i],
                        balance: state.balances@[i],
                    }),
            decreases n - j,
        {
            balances.push(
                TokenBalance { token: config.accepted_tokens[j], balance: state.balances[j] },
            );
            j = j + 1;
        }
        Ok(ProjectBalances { project_id: id, balances })
    }
}

/// Law: in a well-formed protocol state the project ids are exactly the
/// integers 0 to N-1 in registration order — contiguous from zero, no
/// gaps, never reused — and the counter stands at N.
pub proof fn lemma_ids_sequential(p: PifpProtocol)
    requires
        p.wf(),
    ensures
        p.project_count() == p.store.num_projects(),
        forall|i: int| 0 <= i < p.store.num_projects() ==> #[trigger] p.config_view(i).id == i,
{
}

} // verus!
