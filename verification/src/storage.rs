//! Durable record keeping with a two-tier retention-renewal policy.
//!
//! The id counter and the active oracle reference live in the instance tier:
//! one shared lifetime, renewed by a large window whenever it drops below a
//! small threshold. Per-project `ProjectConfig` and `ProjectState` entries
//! live in the persistent tier: each entry carries its own lifetime, renewed
//! independently on every read or write of that entry. Renewal only ever
//! extends retention; nothing here revokes it.
//!
//! Splitting the write-once config from the write-many state keeps the
//! high-frequency writes (deposits, verification) small: they rewrite only
//! the state entry.

use vstd::prelude::*;

use crate::errors::Error;
use crate::invariants::{valid_config, valid_state_for};
use crate::types::{
    Address, Project, ProjectConfig, ProjectConfigView, ProjectState, ProjectStateView,
    project_of,
};

verus! {

/// All storage keys of the protocol.
///
/// Instance-tier keys (`ProjectCount`, `OracleKey`) share the store's
/// lifetime; persistent-tier keys (`ProjConfig`, `ProjState`) carry one
/// lifetime per project entry.
#[derive(Clone, Copy, Debug, PartialEq, Eq, Structural)]
pub enum DataKey {
    /// Global auto-increment counter for project ids (instance tier).
    ProjectCount,
    /// Active trusted oracle address (instance tier).
    OracleKey,
    /// Immutable project configuration keyed by id (persistent tier).
    ProjConfig(u64),
    /// Mutable project state keyed by id (persistent tier).
    ProjState(u64),
}

/// Approximate ledgers per day (about five seconds per ledger).
pub const DAY_IN_LEDGERS: u32 = 17_280;

/// Instance tier: renew to 7 days when below 1 day remaining.
pub const INSTANCE_BUMP_AMOUNT: u32 = 7 * DAY_IN_LEDGERS;

pub const INSTANCE_LIFETIME_THRESHOLD: u32 = DAY_IN_LEDGERS;

/// Persistent tier: renew to 30 days when below 7 days remaining.
pub const PERSISTENT_BUMP_AMOUNT: u32 = 30 * DAY_IN_LEDGERS;

pub const PERSISTENT_LIFETIME_THRESHOLD: u32 = 7 * DAY_IN_LEDGERS;

/// The one renewal rule, parameterized per tier: once the remaining
/// lifetime drops below the tier's threshold, extend it to the tier's
/// window; otherwise leave it alone.
pub open spec fn renewed(remaining: u32, threshold: u32, window: u32) -> u32 {
    if remaining < threshold {
        window
    } else {
        remaining
    }
}

/// Apply the renewal rule of a tier to one remaining lifetime.
pub fn renew_ttl(remaining: u32, threshold: u32, window: u32) -> (r: u32)
    ensures
        r == renewed(remaining, threshold, window),
{
    if remaining < threshold {
        window
    } else {
        remaining
    }
}

/// The persistent record store: the instance-tier counter and oracle
/// reference, and the per-project config and state entries with their
/// remaining lifetimes, indexed by project id.
pub struct ProjectStore {
    /// Next project id to assign; ids 0..project_count are taken.
    pub project_count: u64,
    /// The active oracle reference, once set.
    pub oracle: Option<Address>,
    /// Remaining lifetime of the instance tier.
    pub instance_ttl: u32,
    pub configs: Vec<ProjectConfig>,
    pub states: Vec<ProjectState>,
    /// Remaining lifetime of each config entry, parallel to `configs`.
    pub config_ttls: Vec<u32>,
    /// Remaining lifetime of each state entry, parallel to `states`.
    pub state_ttls: Vec<u32>,
}

impl ProjectStore {
    pub open spec fn num_projects(self) -> int {
        self.configs@.len() as int
    }

    pub open spec fn config_view(self, i: int) -> ProjectConfigView {
        self.configs@[i]@
    }

    pub open spec fn state_view(self, i: int) -> ProjectStateView {
        self.states@[i]@
    }

    /// Every stored record is valid: parallel entries, ids equal to their
    /// index (contiguous from zero), valid configs, states valid against
    /// their configs.
    pub open spec fn records_wf(self) -> bool {
        &&& self.states@.len() == self.configs@.len()
        &&& self.config_ttls@.len() == self.configs@.len()
        &&& self.state_ttls@.len() == self.configs@.len()
        &&& forall|i: int|
            0 <= i < self.num_projects() ==> (#[trigger] self.config_view(i)).id == i
        &&& forall|i: int| 0 <= i < self.num_projects() ==> valid_config(#[trigger] self.config_view(i))
        &&& forall|i: int|
            0 <= i < self.num_projects() ==> valid_state_for(
                self.config_view(i),
                #[trigger] self.state_view(i),
            )
    }

    /// Between operations the counter equals the number of records, so ids
    /// are assigned strictly sequentially with no gaps and no reuse.
    pub open spec fn wf(self) -> bool {
        &&& self.records_wf()
        &&& self.project_count == self.configs@.len()
    }

    /// Two stores with the same records are equally well formed, whatever
    /// their counters, oracle references and lifetimes.
    pub proof fn lemma_same_records_wf(a: ProjectStore, b: ProjectStore)
        requires
            a.records_wf(),
            b.configs@ == a.configs@,
            b.states@ == a.states@,
            b.config_ttls@.len() == a.config_ttls@.len(),
            b.state_ttls@.len() == a.state_ttls@.len(),
        ensures
            b.records_wf(),
    {
        assert forall|i: int|
            0 <= i < b.num_projects() implies (#[trigger] b.config_view(i)).id == i
            && valid_config(b.config_view(i)) && valid_state_for(
            b.config_view(i),
            b.state_view(i),
        ) by {
            assert(a.config_view(i).id == i);
            assert(valid_config(a.config_view(i)));
            assert(valid_state_for(a.config_view(i), a.state_view(i)));
            assert(b.configs@[i] == a.configs@[i]);
            assert(b.states@[i] == a.states@[i]);
        }
    }

    /// Appending a valid record with the next sequential id keeps the
    /// store's records well formed.
    pub proof fn lemma_push_records_wf(
        a: ProjectStore,
        b: ProjectStore,
        config: ProjectConfig,
        state: ProjectState,
    )
        requires
            a.records_wf(),
            config@.id as int == a.num_projects(),
            valid_config(config@),
            valid_state_for(config@, state@),
            b.configs@ == a.configs@.push(config),
            b.states@ == a.states@.push(state),
            b.config_ttls@.len() == a.config_ttls@.len() + 1,
            b.state_ttls@.len() == a.state_ttls@.len() + 1,
        ensures
            b.records_wf(),
    {
        assert forall|i: int|
            0 <= i < b.num_projects() implies (#[trigger] b.config_view(i)).id == i
            && valid_config(b.config_view(i)) && valid_state_for(
            b.config_view(i),
            b.state_view(i),
        ) by {
            if i < a.num_projects() {
                assert(b.configs@[i] == a.configs@[i]);
                assert(b.states@[i] == a.states@[i]);
                assert(a.config_view(i).id == i);
                assert(valid_config(a.config_view(i)));
                assert(valid_state_for(a.config_view(i), a.state_view(i)));
            } else {
                assert(b.configs@[i] == config);
                assert(b.states@[i] == state);
            }
        }
    }

    /// Overwriting one state entry with a state still valid for its config
    /// keeps the store's records well formed.
    pub proof fn lemma_update_state_records_wf(
        a: ProjectStore,
        b: ProjectStore,
        id: int,
        state: ProjectState,
    )
        requires
            a.records_wf(),
            0 <= id < a.num_projects(),
            valid_state_for(a.config_view(id), state@),
            b.configs@ == a.configs@,
            b.states@ == a.states@.update(id, state),
            b.config_ttls@.len() == a.config_ttls@.len(),
            b.state_ttls@.len() == a.state_ttls@.len(),
        ensures
            b.records_wf(),
    {
        assert forall|i: int|
            0 <= i < b.num_projects() implies (#[trigger] b.config_view(i)).id == i
            && valid_config(b.config_view(i)) && valid_state_for(
            b.config_view(i),
            b.state_view(i),
        ) by {
            assert(b.configs@[i] == a.configs@[i]);
            assert(a.config_view(i).id == i);
            assert(valid_config(a.config_view(i)));
            if i != id {
                assert(b.states@[i] == a.states@[i]);
                assert(valid_state_for(a.config_view(i), a.state_view(i)));
            } else {
                assert(b.states@[i] == state);
            }
        }
    }

    pub fn new() -> (r: ProjectStore)
        ensures
            r.wf(),
            r.project_count == 0,
            r.oracle == None::<Address>,
            r.instance_ttl == 0,
    {
        ProjectStore {
            project_count: 0,
            oracle: None,
            instance_ttl: 0,
            configs: Vec::new(),
            states: Vec::new(),
            config_ttls: Vec::new(),
            state_ttls: Vec::new(),
        }
    }

    /// Renew the instance tier's lifetime if it fell below the threshold.
    fn bump_instance(&mut self)
        ensures
            *final(self) == (ProjectStore {
                instance_ttl: renewed(
                    old(self).instance_ttl,
                    INSTANCE_LIFETIME_THRESHOLD,
                    INSTANCE_BUMP_AMOUNT,
                ),
                ..*old(self)
            }),
    {
        self.instance_ttl = renew_ttl(
            self.instance_ttl,
            INSTANCE_LIFETIME_THRESHOLD,
            INSTANCE_BUMP_AMOUNT,
        );
    }

    /// Atomically read, increment and store the project counter; the
    /// returned pre-increment value is the id of the project being created.
    pub fn get_and_increment_project_id(&mut self) -> (r: u64)
        requires
            old(self).project_count < u64::MAX,
        ensures
            r == old(self).project_count,
            *final(self) == (ProjectStore {
                project_count: (old(self).project_count + 1) as u64,
                instance_ttl: renewed(
                    old(self).instance_ttl,
                    INSTANCE_LIFETIME_THRESHOLD,
                    INSTANCE_BUMP_AMOUNT,
                ),
                ..*old(self)
            }),
    {
        self.bump_instance();
        let r = self.project_count;
        self.project_count = r + 1;
        r
    }

    /// Store the active oracle reference in the instance tier.
    pub fn set_oracle(&mut self, oracle: Address)
        ensures
            *final(self) == (ProjectStore {
                oracle: Some(oracle),
                instance_ttl: renewed(
                    old(self).instance_ttl,
                    INSTANCE_LIFETIME_THRESHOLD,
                    INSTANCE_BUMP_AMOUNT,
                ),
                ..*old(self)
            }),
    {
        self.oracle = Some(oracle);
        self.bump_instance();
    }

    /// Read the active oracle reference, or `None` when never set.
    pub fn get_oracle(&mut self) -> (r: Option<Address>)
        ensures
            r == old(self).oracle,
            *final(self) == (ProjectStore {
                instance_ttl: renewed(
                    old(self).instance_ttl,
                    INSTANCE_LIFETIME_THRESHOLD,
                    INSTANCE_BUMP_AMOUNT,
                ),
                ..*old(self)
            }),
    {
        self.bump_instance();
        self.oracle
    }

    /// Persist both halves of a new project: the immutable config and the
    /// initial mutable state. Used only at registration, right after the
    /// counter handed out this id.
    pub fn save_project(&mut self, config: ProjectConfig, state: ProjectState)
        requires
            config@.id as int == old(self).num_projects(),
        ensures
            final(self).configs@ == old(self).configs@.push(config),
            final(self).states@ == old(self).states@.push(state),
            final(self).config_ttls@ == old(self).config_ttls@.push(
                renewed(0, PERSISTENT_LIFETIME_THRESHOLD, PERSISTENT_BUMP_AMOUNT),
            ),
            final(self).state_ttls@ == old(self).state_ttls@.push(
                renewed(0, PERSISTENT_LIFETIME_THRESHOLD, PERSISTENT_BUMP_AMOUNT),
            ),
            final(self).project_count == old(self).project_count,
            final(self).oracle == old(self).oracle,
            final(self).instance_ttl == old(self).instance_ttl,
    {
        self.configs.push(config);
        self.states.push(state);
        let ttl = renew_ttl(0, PERSISTENT_LIFETIME_THRESHOLD, PERSISTENT_BUMP_AMOUNT);
        self.config_ttls.push(ttl);
        self.state_ttls.push(ttl);
    }

    /// Load only the immutable config of project `id`, renewing the
    /// lifetime of that entry alone.
    pub fn load_project_config(&mut self, id: u64) -> (r: Result<ProjectConfig, Error>)
        requires
            old(self).records_wf(),
        ensures
            r is Ok <==> (id as int) < old(self).num_projects(),
            r matches Ok(c) ==> c@ == old(self).config_view(id as int),
            r is Err ==> r == Err::<ProjectConfig, Error>(Error::ProjectNotFound) && *final(self)
                == *old(self),
            r is Ok ==> {
                &&& final(self).config_ttls@ == old(self).config_ttls@.update(
                    id as int,
                    renewed(
                        old(self).config_ttls@[id as int],
                        PERSISTENT_LIFETIME_THRESHOLD,
                        PERSISTENT_BUMP_AMOUNT,
                    ),
                )
                &&& final(self).configs@ == old(self).configs@
                &&& final(self).states@ == old(self).states@
                &&& final(self).state_ttls@ == old(self).state_ttls@
                &&& final(self).project_count == old(self).project_count
                &&& final(self).oracle == old(self).oracle
                &&& final(self).instance_ttl == old(self).instance_ttl
            },
    {
        if id >= self.configs.len() as u64 {
            return Err(Error::ProjectNotFound);
        }
        let i = id as usize;
        let c = self.configs[i].clone();
        let t = renew_ttl(
            self.config_ttls[i],
            PERSISTENT_LIFETIME_THRESHOLD,
            PERSISTENT_BUMP_AMOUNT,
        );
        self.config_ttls[i] = t;
        Ok(c)
    }

    /// Load only the mutable state of project `id`, renewing the lifetime
    /// of that entry alone.
    pub fn load_project_state(&mut self, id: u64) -> (r: Result<ProjectState, Error>)
        requires
            old(self).records_wf(),
        ensures
            r is Ok <==> (id as int) < old(self).num_projects(),
            r matches Ok(s) ==> s@ == old(self).state_view(id as int),
            r is Err ==> r == Err::<ProjectState, Error>(Error::ProjectNotFound) && *final(self)
                == *old(self),
            r is Ok ==> {
                &&& final(self).state_ttls@ == old(self).state_ttls@.update(
                    id as int,
                    renewed(
                        old(self).state_ttls@[id as int],
                        PERSISTENT_LIFETIME_THRESHOLD,
                        PERSISTENT_BUMP_AMOUNT,
                    ),
                )
                &&& final(self).configs@ == old(self).configs@
                &&& final(self).states@ == old(self).states@
                &&& final(self).config_ttls@ == old(self).config_ttls@
                &&& final(self).project_count == old(self).project_count
                &&& final(self).oracle == old(self).oracle
                &&& final(self).instance_ttl == old(self).instance_ttl
            },
    {
        if id >= self.states.len() as u64 {
            return Err(Error::ProjectNotFound);
        }
        let i = id as usize;
        let s = self.states[i].clone();
        let t = renew_ttl(
            self.state_ttls[i],
            PERSISTENT_LIFETIME_THRESHOLD,
            PERSISTENT_BUMP_AMOUNT,
        );
        self.state_ttls[i] = t;
        Ok(s)
    }

    /// Overwrite only the mutable state of project `id`, renewing the
    /// lifetime of that entry alone: the cheap write that deposits and
    /// verification perform.
    pub fn save_project_state(&mut self, id: u64, state: ProjectState) -> (r: Result<(), Error>)
        requires
            old(self).state_ttls@.len() == old(self).states@.len(),
        ensures
            r is Ok <==> (id as int) < old(self).states@.len(),
            r is Err ==> r == Err::<(), Error>(Error::ProjectNotFound) && *final(self) == *old(
                self,
            ),
            r is Ok ==> {
                &&& final(self).states@ == old(self).states@.update(id as int, state)
                &&& final(self).state_ttls@ == old(self).state_ttls@.update(
                    id as int,
                    renewed(
                        old(self).state_ttls@[id as int],
                        PERSISTENT_LIFETIME_THRESHOLD,
                        PERSISTENT_BUMP_AMOUNT,
                    ),
                )
                &&& final(self).configs@ == old(self).configs@
                &&& final(self).config_ttls@ == old(self).config_ttls@
                &&& final(self).project_count == old(self).project_count
                &&& final(self).oracle == old(self).oracle
                &&& final(self).instance_ttl == old(self).instance_ttl
            },
    {
        if id >= self.states.len() as u64 {
            return Err(Error::ProjectNotFound);
        }
        let i = id as usize;
        self.states[i] = state;
        let t = renew_ttl(
            self.state_ttls[i],
            PERSISTENT_LIFETIME_THRESHOLD,
            PERSISTENT_BUMP_AMOUNT,
        );
        self.state_ttls[i] = t;
        Ok(())
    }

    /// Load the full reconstructed project: its config joined with its
    /// state, renewing both entry lifetimes.
    pub fn load_project(&mut self, id: u64) -> (r: Result<Project, Error>)
        requires
            old(self).records_wf(),
        ensures
            r is Ok <==> (id as int) < old(self).num_projects(),
            r matches Ok(p) ==> p@ == project_of(
                old(self).config_view(id as int),
                old(self).state_view(id as int),
            ),
            r is Err ==> r == Err::<Project, Error>(Error::ProjectNotFound) && *final(self)
                == *old(self),
            final(self).configs@ == old(self).configs@,
            final(self).states@ == old(self).states@,
            final(self).config_ttls@.len() == old(self).config_ttls@.len(),
            final(self).state_ttls@.len() == old(self).state_ttls@.len(),
            final(self).project_count == old(self).project_count,
            final(self).oracle == old(self).oracle,
            final(self).instance_ttl == old(self).instance_ttl,
    {
        let config = match self.load_project_config(id) {
            Ok(c) => c,
            Err(e) => {
                return Err(e);
            },
        };
        proof {
            ProjectStore::lemma_same_records_wf(*old(self), *self);
        }
        let state = match self.load_project_state(id) {
            Ok(s) => s,
            Err(e) => {
                return Err(e);
            },
        };
        let donation_count = #[verifier::truncate] (state.donors.len() as u32);
        Ok(
            Project {
                id: config.id,
                creator: config.creator,
                accepted_tokens: config.accepted_tokens,
                goal: config.goal,
                proof_hash: config.proof_hash,
                deadline: config.deadline,
                status: state.status,
                donation_count,
            },
        )
    }
}

} // verus!
