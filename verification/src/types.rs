//! Shared data structures of the protocol, with their mathematical views.
//!
//! A project is stored split in two: the write-once [`ProjectConfig`] and the
//! write-many [`ProjectState`]. The public API returns the reconstructed
//! [`Project`] view, which is never stored directly.
//!
//! Addresses and token identifiers are plain `u64` values here: the model
//! speaks only of what the protocol's rules read from them, which is identity.

use vstd::prelude::*;

verus! {

/// An account or contract address.
pub type Address = u64;

/// A funding token identifier.
pub type TokenId = u64;

/// A 32-byte content digest standing for off-chain proof artifacts.
pub type ProofHash = [u8; 32];

/// Copy a vector of plain values element by element.
pub fn copy_vec<T: Copy>(v: &Vec<T>) -> (r: Vec<T>)
    ensures
        r@ == v@,
{
    let mut r: Vec<T> = Vec::new();
    let n = v.len();
    let mut i: usize = 0;
    while i < n
        invariant
            n == v@.len(),
            i <= n,
            r@ == v@.subrange(0, i as int),
        decreases n - i,
    {
        r.push(v[i]);
        proof {
            assert(r@ =~= v@.subrange(0, i + 1 as int));
        }
        i = i + 1;
    }
    proof {
        assert(r@ =~= v@);
    }
    r
}

/// Lifecycle status of a project: a strict forward-only state machine.
///
/// `Funding -> Active -> Completed`; `Funding -> Expired`; `Active -> Expired`.
/// `Completed` and `Expired` are terminal.
#[derive(Clone, Copy, Debug, PartialEq, Eq, Structural)]
pub enum ProjectStatus {
    /// Accepting donations.
    Funding,
    /// Fully funded; work in progress.
    Active,
    /// Proof verified; funds released.
    Completed,
    /// Deadline passed without completion.
    Expired,
}

/// Immutable project configuration, written once at registration.
#[derive(Debug, PartialEq, Eq)]
pub struct ProjectConfig {
    /// Sequential identifier, assigned from 0 with no gaps.
    pub id: u64,
    /// Address that created the project and receives released funds.
    pub creator: Address,
    /// The tokens this project accepts, in registration order, no repeats.
    pub accepted_tokens: Vec<TokenId>,
    /// Target funding amount; strictly positive.
    pub goal: i128,
    /// Digest the submitted proof must match byte for byte.
    pub proof_hash: ProofHash,
    /// Timestamp by which the project must be completed; strictly positive.
    pub deadline: u64,
}

/// The mathematical value of a [`ProjectConfig`].
pub struct ProjectConfigView {
    pub id: u64,
    pub creator: Address,
    pub accepted_tokens: Seq<TokenId>,
    pub goal: i128,
    pub proof_hash: Seq<u8>,
    pub deadline: u64,
}

impl View for ProjectConfig {
    type V = ProjectConfigView;

    open spec fn view(&self) -> ProjectConfigView {
        ProjectConfigView {
            id: self.id,
            creator: self.creator,
            accepted_tokens: self.accepted_tokens@,
            goal: self.goal,
            proof_hash: self.proof_hash@,
            deadline: self.deadline,
        }
    }
}

impl DeepView for ProjectConfig {
    type V = ProjectConfigView;

    open spec fn deep_view(&self) -> ProjectConfigView {
        self.view()
    }
}

impl Clone for ProjectConfig {
    fn clone(&self) -> (r: Self)
        ensures
            r@ == self@,
    {
        ProjectConfig {
            id: self.id,
            creator: self.creator,
            accepted_tokens: copy_vec(&self.accepted_tokens),
            goal: self.goal,
            proof_hash: self.proof_hash,
            deadline: self.deadline,
        }
    }
}

/// Mutable project state, rewritten on every deposit and on verification.
#[derive(Debug, PartialEq, Eq)]
pub struct ProjectState {
    /// Funded amount per accepted token, parallel to `accepted_tokens`.
    pub balances: Vec<i128>,
    /// Current lifecycle status.
    pub status: ProjectStatus,
    /// The distinct (donator, token) pairs that have deposited so far.
    pub donors: Vec<(Address, TokenId)>,
}

/// The mathematical value of a [`ProjectState`].
pub struct ProjectStateView {
    pub balances: Seq<i128>,
    pub status: ProjectStatus,
    pub donors: Seq<(Address, TokenId)>,
}

impl View for ProjectState {
    type V = ProjectStateView;

    open spec fn view(&self) -> ProjectStateView {
        ProjectStateView { balances: self.balances@, status: self.status, donors: self.donors@ }
    }
}

impl DeepView for ProjectState {
    type V = ProjectStateView;

    open spec fn deep_view(&self) -> ProjectStateView {
        self.view()
    }
}

impl Clone for ProjectState {
    fn clone(&self) -> (r: Self)
        ensures
            r@ == self@,
    {
        ProjectState {
            balances: copy_vec(&self.balances),
            status: self.status,
            donors: copy_vec(&self.donors),
        }
    }
}

/// Full reconstructed view of a project, combining its config and state.
#[derive(Debug, PartialEq, Eq)]
pub struct Project {
    pub id: u64,
    pub creator: Address,
    pub accepted_tokens: Vec<TokenId>,
    pub goal: i128,
    pub proof_hash: ProofHash,
    pub deadline: u64,
    pub status: ProjectStatus,
    /// Count of distinct (donator, token) pairs that have deposited.
    pub donation_count: u32,
}

/// The mathematical value of a [`Project`].
pub struct ProjectView {
    pub id: u64,
    pub creator: Address,
    pub accepted_tokens: Seq<TokenId>,
    pub goal: i128,
    pub proof_hash: Seq<u8>,
    pub deadline: u64,
    pub status: ProjectStatus,
    pub donation_count: u32,
}

impl View for Project {
    type V = ProjectView;

    open spec fn view(&self) -> ProjectView {
        ProjectView {
            id: self.id,
            creator: self.creator,
            accepted_tokens: self.accepted_tokens@,
            goal: self.goal,
            proof_hash: self.proof_hash@,
            deadline: self.deadline,
            status: self.status,
            donation_count: self.donation_count,
        }
    }
}

impl DeepView for Project {
    type V = ProjectView;

    open spec fn deep_view(&self) -> ProjectView {
        self.view()
    }
}

impl Clone for Project {
    fn clone(&self) -> (r: Self)
        ensures
            r@ == self@,
    {
        Project {
            id: self.id,
            creator: self.creator,
            accepted_tokens: copy_vec(&self.accepted_tokens),
            goal: self.goal,
            proof_hash: self.proof_hash,
            deadline: self.deadline,
            status: self.status,
            donation_count: self.donation_count,
        }
    }
}

/// The project a config and its state reconstruct together.
pub open spec fn project_of(c: ProjectConfigView, s: ProjectStateView) -> ProjectView {
    ProjectView {
        id: c.id,
        creator: c.creator,
        accepted_tokens: c.accepted_tokens,
        goal: c.goal,
        proof_hash: c.proof_hash,
        deadline: c.deadline,
        status: s.status,
        donation_count: s.donors.len() as u32,
    }
}

/// One accepted token of a project together with its funded amount.
#[derive(Clone, Copy, Debug, PartialEq, Eq, Structural)]
pub struct TokenBalance {
    pub token: TokenId,
    pub balance: i128,
}

/// Per-token funded amounts of one project, in registration order.
#[derive(Debug, PartialEq, Eq)]
pub struct ProjectBalances {
    pub project_id: u64,
    pub balances: Vec<TokenBalance>,
}

impl Clone for ProjectBalances {
    fn clone(&self) -> (r: Self)
        ensures
            r.project_id == self.project_id,
            r.balances@ == self.balances@,
    {
        ProjectBalances { project_id: self.project_id, balances: copy_vec(&self.balances) }
    }
}

} // verus!
