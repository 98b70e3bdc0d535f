//! The standing contract every project record must satisfy at every
//! observable point, and the laws of the status state machine.
//!
//! These predicates are what the storage and lifecycle contracts are stated
//! over; the proof functions at the bottom are the general laws themselves.

use vstd::prelude::*;

use crate::types::{ProjectConfigView, ProjectStateView, ProjectStatus};

verus! {

/// A project's creation-time fields are valid: positive goal, positive
/// deadline, at least one accepted token, and no repeated token.
pub open spec fn valid_config(c: ProjectConfigView) -> bool {
    &&& c.goal > 0
    &&& c.deadline > 0
    &&& c.accepted_tokens.len() > 0
    &&& distinct_tokens(c.accepted_tokens)
}

/// No token identifier appears twice.
pub open spec fn distinct_tokens(toks: Seq<u64>) -> bool {
    forall|i: int, j: int|
        0 <= i < toks.len() && 0 <= j < toks.len() && i != j ==> toks[i] != toks[j]
}

/// No (donator, token) pair appears twice.
pub open spec fn distinct_donors(donors: Seq<(u64, u64)>) -> bool {
    forall|i: int, j: int|
        0 <= i < donors.len() && 0 <= j < donors.len() && i != j ==> donors[i] != donors[j]
}

/// A project's mutable state is valid against its config: one non-negative
/// balance per accepted token, and each recorded donor pair is distinct and
/// names an accepted token.
pub open spec fn valid_state_for(c: ProjectConfigView, s: ProjectStateView) -> bool {
    &&& s.balances.len() == c.accepted_tokens.len()
    &&& forall|i: int| 0 <= i < s.balances.len() ==> s.balances[i] >= 0
    &&& distinct_donors(s.donors)
    &&& forall|i: int|
        0 <= i < s.donors.len() ==> c.accepted_tokens.contains(#[trigger] s.donors[i].1)
}

/// The forward-only transition table of the status state machine.
pub open spec fn valid_transition(from: ProjectStatus, to: ProjectStatus) -> bool {
    ||| (from == ProjectStatus::Funding && to == ProjectStatus::Active)
    ||| (from == ProjectStatus::Funding && to == ProjectStatus::Completed)
    ||| (from == ProjectStatus::Funding && to == ProjectStatus::Expired)
    ||| (from == ProjectStatus::Active && to == ProjectStatus::Completed)
    ||| (from == ProjectStatus::Active && to == ProjectStatus::Expired)
}

/// `Completed` and `Expired` are the terminal statuses.
pub open spec fn is_terminal(s: ProjectStatus) -> bool {
    s == ProjectStatus::Completed || s == ProjectStatus::Expired
}

/// A state change a mutation may perform: keep the status, or move it along
/// one edge of the transition table.
pub open spec fn status_preserved_or_forward(from: ProjectStatus, to: ProjectStatus) -> bool {
    to == from || valid_transition(from, to)
}

/// Law: a terminal status has no outgoing transition. Together with every
/// mutating operation only ever keeping a status or following the transition
/// table, no sequence of operations moves a project out of `Completed` or
/// `Expired`.
pub proof fn lemma_terminal_is_final(from: ProjectStatus, to: ProjectStatus)
    requires
        is_terminal(from),
        status_preserved_or_forward(from, to),
    ensures
        to == from,
{
}

/// Law: any chain of permitted state changes that starts in a terminal
/// status stays exactly there.
pub proof fn lemma_terminal_chain(statuses: Seq<ProjectStatus>)
    requires
        statuses.len() > 0,
        is_terminal(statuses[0]),
        forall|i: int|
            0 <= i < statuses.len() - 1 ==> status_preserved_or_forward(
                statuses[i],
                #[trigger] statuses[i + 1],
            ),
    ensures
        forall|i: int| 0 <= i < statuses.len() ==> #[trigger] statuses[i] == statuses[0],
    decreases statuses.len(),
{
    if statuses.len() > 1 {
        assert(status_preserved_or_forward(statuses[0], statuses[0int + 1]));
        lemma_terminal_chain(statuses.skip(1));
        assert forall|i: int| 0 <= i < statuses.len() implies #[trigger] statuses[i] == statuses[0] by {
            if i > 0 {
                assert(statuses.skip(1)[i - 1] == statuses[i]);
                assert(statuses.skip(1)[0] == statuses[1]);
            }
        }
    }
}

/// Law: a mutation that leaves the donor-pair list unchanged or appends
/// one pair never decreases the donation count.
pub proof fn lemma_donation_count_monotonic(
    before: Seq<(u64, u64)>,
    after: Seq<(u64, u64)>,
    pair: (u64, u64),
)
    requires
        after == before || after == before.push(pair),
    ensures
        after.len() >= before.len(),
{
}

} // verus!
