//! Model of the hosting environment an operation runs against: the ledger
//! clock, the balances kept by the external asset-transfer interface, and
//! the notification stream the protocol emits for downstream indexing.
//!
//! The asset interface is an external collaborator: the protocol calls
//! `transfer` synchronously and treats any failure as an all-or-nothing
//! abort. Its failures are untyped aborts, never one of the protocol's own
//! error kinds.

use vstd::prelude::*;

use crate::errors::Abort;
use crate::roles::Role;
use crate::types::{Address, ProofHash, TokenId};

verus! {

/// One balance cell of the asset interface: how much of `token` the
/// account `holder` owns.
#[derive(Clone, Copy, Debug, PartialEq, Eq, Structural)]
pub struct TokenHolding {
    pub token: TokenId,
    pub holder: Address,
    pub amount: i128,
}

/// The balance the cells assign to `(t, h)`: the first matching cell, or 0.
pub open spec fn cell_lookup(entries: Seq<TokenHolding>, t: TokenId, h: Address) -> i128
    decreases entries.len(),
{
    if entries.len() == 0 {
        0
    } else if entries[0].token == t && entries[0].holder == h {
        entries[0].amount
    } else {
        cell_lookup(entries.skip(1), t, h)
    }
}

/// No (token, holder) pair appears in two cells.
pub open spec fn unique_cells(entries: Seq<TokenHolding>) -> bool {
    forall|i: int, j: int|
        0 <= i < entries.len() && 0 <= j < entries.len() && i != j
            ==> ((#[trigger] entries[i]).token, entries[i].holder) != (
        (#[trigger] entries[j]).token,
        entries[j].holder,
        )
}

pub proof fn lemma_cell_at(entries: Seq<TokenHolding>, t: TokenId, h: Address, k: int)
    requires
        0 <= k < entries.len(),
        entries[k].token == t && entries[k].holder == h,
        forall|j: int|
            0 <= j < k ==> ((#[trigger] entries[j]).token, entries[j].holder) != (t, h),
    ensures
        cell_lookup(entries, t, h) == entries[k].amount,
    decreases k,
{
    if k > 0 {
        lemma_cell_at(entries.skip(1), t, h, k - 1);
    }
}

pub proof fn lemma_cell_absent(entries: Seq<TokenHolding>, t: TokenId, h: Address)
    requires
        forall|j: int|
            0 <= j < entries.len() ==> ((#[trigger] entries[j]).token, entries[j].holder) != (
                t,
                h,
            ),
    ensures
        cell_lookup(entries, t, h) == 0,
    decreases entries.len(),
{
    if entries.len() > 0 {
        lemma_cell_absent(entries.skip(1), t, h);
    }
}

/// All cells non-negative means every lookup is non-negative.
pub proof fn lemma_cell_nonneg(entries: Seq<TokenHolding>, t: TokenId, h: Address)
    requires
        forall|i: int| 0 <= i < entries.len() ==> (#[trigger] entries[i]).amount >= 0,
    ensures
        cell_lookup(entries, t, h) >= 0,
    decreases entries.len(),
{
    if entries.len() > 0 && !(entries[0].token == t && entries[0].holder == h) {
        lemma_cell_nonneg(entries.skip(1), t, h);
    }
}

/// Balances held by the external asset-transfer interface, one cell per
/// (token, holder) pair, all non-negative.
pub struct TokenLedger {
    pub entries: Vec<TokenHolding>,
}

impl TokenLedger {
    pub open spec fn wf(self) -> bool {
        &&& unique_cells(self.entries@)
        &&& forall|i: int| 0 <= i < self.entries@.len() ==> (#[trigger] self.entries@[i]).amount >= 0
    }

    /// The balance of `holder` in `token`; accounts start at zero.
    pub open spec fn balance_spec(self, token: TokenId, holder: Address) -> i128 {
        cell_lookup(self.entries@, token, holder)
    }

    pub fn new() -> (r: TokenLedger)
        ensures
            r.wf(),
            forall|t: TokenId, h: Address| r.balance_spec(t, h) == 0,
    {
        let r = TokenLedger { entries: Vec::new() };
        proof {
            assert forall|t: TokenId, h: Address| r.balance_spec(t, h) == 0 by {
                lemma_cell_absent(r.entries@, t, h);
            }
        }
        r
    }

    /// The index of the cell for `(t, h)`, if one exists.
    fn find_cell(&self, t: TokenId, h: Address) -> (r: Option<usize>)
        ensures
            match r {
                Some(k) => k < self.entries@.len() && self.entries@[k as int].token == t
                    && self.entries@[k as int].holder == h && forall|j: int|
                    0 <= j < k ==> ((#[trigger] self.entries@[j]).token, self.entries@[j].holder)
                        != (t, h),
                None => forall|j: int|
                    0 <= j < self.entries@.len() ==> (
                    (#[trigger] self.entries@[j]).token,
                    self.entries@[j].holder,
                    ) != (t, h),
            },
    {
        let n = self.entries.len();
        let mut k: usize = 0;
        while k < n
            invariant
                n == self.entries@.len(),
                k <= n,
                forall|j: int|
                    0 <= j < k ==> ((#[trigger] self.entries@[j]).token, self.entries@[j].holder)
                        != (t, h),
            decreases n - k,
        {
            if self.entries[k].token == t && self.entries[k].holder == h {
                return Some(k);
            }
            k = k + 1;
        }
        None
    }

    /// `balance(address)` of the asset interface, for one token.
    pub fn balance(&self, token: TokenId, holder: Address) -> (r: i128)
        ensures
            r == self.balance_spec(token, holder),
    {
        match self.find_cell(token, holder) {
            Some(k) => {
                proof {
                    lemma_cell_at(self.entries@, token, holder, k as int);
                }
                self.entries[k].amount
            },
            None => {
                proof {
                    lemma_cell_absent(self.entries@, token, holder);
                }
                0
            },
        }
    }

    /// Write the cell for `(t, h)`, creating it if absent. Internal.
    fn set_cell(&mut self, t: TokenId, h: Address, v: i128)
        requires
            old(self).wf(),
            v >= 0,
        ensures
            final(self).wf(),
            final(self).balance_spec(t, h) == v,
            forall|t2: TokenId, h2: Address|
                (t2, h2) != (t, h) ==> final(self).balance_spec(t2, h2) == old(self).balance_spec(
                    t2,
                    h2,
                ),
    {
        let ghost olds = self.entries@;
        match self.find_cell(t, h) {
            Some(k) => {
                self.entries[k] = TokenHolding { token: t, holder: h, amount: v };
                proof {
                    let news = self.entries@;
                    assert forall|j: int|
                        0 <= j < news.len() implies ((#[trigger] news[j]).token, news[j].holder)
                        == ((olds[j]).token, olds[j].holder) by {
                        if j != k {
                            assert(news[j] == olds[j]);
                        }
                    }
                    lemma_cell_at(news, t, h, k as int);
                    assert forall|t2: TokenId, h2: Address| (t2, h2) != (t, h) implies cell_lookup(
                        news,
                        t2,
                        h2,
                    ) == cell_lookup(olds, t2, h2) by {
                        lemma_cell_eq_pointwise(olds, news, t2, h2);
                    }
                }
            },
            None => {
                self.entries.push(TokenHolding { token: t, holder: h, amount: v });
                proof {
                    let news = self.entries@;
                    let n = olds.len() as int;
                    lemma_cell_at(news, t, h, n);
                    assert forall|t2: TokenId, h2: Address| (t2, h2) != (t, h) implies cell_lookup(
                        news,
                        t2,
                        h2,
                    ) == cell_lookup(olds, t2, h2) by {
                        lemma_cell_push_other(olds, TokenHolding { token: t, holder: h, amount: v }, t2, h2);
                    }
                }
            },
        }
    }

    /// `transfer(from, to, amount)` of the asset interface.
    ///
    /// Succeeds exactly when the amount is non-negative, `from` owns at
    /// least `amount` of `token`, and crediting `to` does not overflow; any
    /// failure is an untyped abort that leaves every balance unchanged.
    pub fn transfer(&mut self, token: TokenId, from: Address, to: Address, amount: i128) -> (r:
        Result<(), Abort>)
        requires
            old(self).wf(),
        ensures
            final(self).wf(),
            r is Ok <==> (amount >= 0 && old(self).balance_spec(token, from) >= amount && (from
                != to ==> old(self).balance_spec(token, to) + amount <= i128::MAX)),
            r is Err ==> r == Err::<(), Abort>(Abort::Panic) && *final(self) == *old(self),
            r is Ok && from != to ==> {
                &&& final(self).balance_spec(token, from) == old(self).balance_spec(token, from)
                    - amount
                &&& final(self).balance_spec(token, to) == old(self).balance_spec(token, to)
                    + amount
            },
            r is Ok && from == to ==> final(self).balance_spec(token, from) == old(
                self,
            ).balance_spec(token, from),
            forall|t2: TokenId, h2: Address|
                (t2, h2) != (token, from) && (t2, h2) != (token, to) ==> final(self).balance_spec(
                    t2,
                    h2,
                ) == old(self).balance_spec(t2, h2),
    {
        if amount < 0 {
            return Err(Abort::Panic);
        }
        let from_bal = self.balance(token, from);
        if from_bal < amount {
            return Err(Abort::Panic);
        }
        if from == to {
            return Ok(());
        }
        let to_bal = self.balance(token, to);
        if to_bal > i128::MAX - amount {
            return Err(Abort::Panic);
        }
        proof {
            lemma_cell_nonneg(self.entries@, token, to);
        }
        self.set_cell(token, from, from_bal - amount);
        self.set_cell(token, to, to_bal + amount);
        Ok(())
    }

    /// Put new units of `token` into circulation, credited to `holder`.
    pub fn mint(&mut self, token: TokenId, holder: Address, amount: i128) -> (r: Result<
        (),
        Abort,
    >)
        requires
            old(self).wf(),
        ensures
            final(self).wf(),
            r is Ok <==> (amount >= 0 && old(self).balance_spec(token, holder) + amount
                <= i128::MAX),
            r is Err ==> r == Err::<(), Abort>(Abort::Panic) && *final(self) == *old(self),
            r is Ok ==> final(self).balance_spec(token, holder) == old(self).balance_spec(
                token,
                holder,
            ) + amount,
            forall|t2: TokenId, h2: Address|
                (t2, h2) != (token, holder) ==> final(self).balance_spec(t2, h2) == old(
                    self,
                ).balance_spec(t2, h2),
    {
        if amount < 0 {
            return Err(Abort::Panic);
        }
        let bal = self.balance(token, holder);
        if bal > i128::MAX - amount {
            return Err(Abort::Panic);
        }
        proof {
            lemma_cell_nonneg(self.entries@, token, holder);
        }
        self.set_cell(token, holder, bal + amount);
        Ok(())
    }
}

/// Two cell sequences with pairwise-equal keys and equal amounts except at
/// pairs other than `(t2, h2)` look up `(t2, h2)` equally.
proof fn lemma_cell_eq_pointwise(
    olds: Seq<TokenHolding>,
    news: Seq<TokenHolding>,
    t2: TokenId,
    h2: Address,
)
    requires
        olds.len() == news.len(),
        forall|j: int|
            0 <= j < news.len() ==> ((#[trigger] news[j]).token, news[j].holder) == (
                (olds[j]).token,
                olds[j].holder,
            ),
        forall|j: int|
            0 <= j < news.len() && ((#[trigger] news[j]).token, news[j].holder) == (t2, h2)
                ==> news[j] == olds[j],
    ensures
        cell_lookup(news, t2, h2) == cell_lookup(olds, t2, h2),
    decreases news.len(),
{
    if news.len() > 0 {
        if news[0].token == t2 && news[0].holder == h2 {
        } else {
            lemma_cell_eq_pointwise(olds.skip(1), news.skip(1), t2, h2);
        }
    }
}

/// Appending a cell for a different pair leaves a lookup unchanged.
proof fn lemma_cell_push_other(
    olds: Seq<TokenHolding>,
    cell: TokenHolding,
    t2: TokenId,
    h2: Address,
)
    requires
        (cell.token, cell.holder) != (t2, h2),
    ensures
        cell_lookup(olds.push(cell), t2, h2) == cell_lookup(olds, t2, h2),
    decreases olds.len(),
{
    let p = olds.push(cell);
    if olds.len() == 0 {
        assert(p[0] == cell);
        assert(p.skip(1) =~= Seq::<TokenHolding>::empty());
        assert(cell_lookup(p.skip(1), t2, h2) == 0);
        assert(cell_lookup(p, t2, h2) == 0);
    } else {
        assert(p[0] == olds[0]);
        assert(p.skip(1) =~= olds.skip(1).push(cell));
        lemma_cell_push_other(olds.skip(1), cell, t2, h2);
        if olds[0].token == t2 && olds[0].holder == h2 {
            assert(cell_lookup(p, t2, h2) == p[0].amount);
        } else {
            assert(cell_lookup(p, t2, h2) == cell_lookup(p.skip(1), t2, h2));
        }
    }
}

/// A structured notification emitted by a mutating operation, topic first:
/// project creation, donation, verification, and role changes.
#[derive(Clone, Copy, Debug, PartialEq, Eq)]
pub enum Notification {
    /// Topic `created`, keyed by project id.
    Created { project_id: u64, creator: Address, token: TokenId, goal: i128 },
    /// Topic `funded`, keyed by project id.
    Funded { project_id: u64, donator: Address, amount: i128 },
    /// Topic `verified`, keyed by project id.
    Verified { project_id: u64, oracle: Address, proof_hash: ProofHash },
    /// Topic `role_set`: a role was granted or replaced.
    RoleSet { target: Address, role: Role, caller: Address },
    /// Topic `role_del`: a role was revoked.
    RoleDel { target: Address, caller: Address },
}

impl Notification {
    /// The leading topic symbol this notification is published under.
    pub fn topic(&self) -> (r: &'static str)
        ensures
            r@ == self.topic_spec(),
    {
        match self {
            Notification::Created { .. } => "created",
            Notification::Funded { .. } => "funded",
            Notification::Verified { .. } => "verified",
            Notification::RoleSet { .. } => "role_set",
            Notification::RoleDel { .. } => "role_del",
        }
    }

    pub open spec fn topic_spec(self) -> Seq<char> {
        match self {
            Notification::Created { .. } => "created"@,
            Notification::Funded { .. } => "funded"@,
            Notification::Verified { .. } => "verified"@,
            Notification::RoleSet { .. } => "role_set"@,
            Notification::RoleDel { .. } => "role_del"@,
        }
    }
}

/// The hosting environment of one deployment: the ledger clock, the asset
/// interface's balances, and the notification stream in emission order.
pub struct HostEnv {
    pub timestamp: u64,
    pub tokens: TokenLedger,
    pub events: Vec<Notification>,
}

impl HostEnv {
    pub open spec fn wf(self) -> bool {
        self.tokens.wf()
    }

    pub fn new() -> (r: HostEnv)
        ensures
            r.wf(),
            r.timestamp == 0,
            r.events@.len() == 0,
            forall|t: TokenId, h: Address| r.tokens.balance_spec(t, h) == 0,
    {
        HostEnv { timestamp: 0, tokens: TokenLedger::new(), events: Vec::new() }
    }

    /// Advance the ledger clock.
    pub fn set_timestamp(&mut self, ts: u64)
        ensures
            *final(self) == (HostEnv { timestamp: ts, ..*old(self) }),
    {
        self.timestamp = ts;
    }
}

} // verus!
