//! Canonical event kinds of the protocol's notification stream, as the
//! downstream indexer classifies and stores them.

use vstd::prelude::*;

use crate::host::Notification;

verus! {

/// Compare two string slices by value.
pub(crate) fn str_eq(a: &str, b: &str) -> (r: bool)
    ensures
        r == (a@ == b@),
{
    let sa: String = a.to_owned();
    let sb: String = b.to_owned();
    sa == sb
}

/// All recognised event kinds from the protocol's stream.
#[derive(Clone, Copy, Debug, PartialEq, Eq, Structural)]
pub enum EventKind {
    /// A new project was registered (`created` topic).
    ProjectCreated,
    /// A donation was made to a project (`funded` topic).
    ProjectFunded,
    /// An oracle verified a project's proof (`verified` topic).
    ProjectVerified,
    /// Verified funds were released to the creator (`released` topic).
    FundsReleased,
    /// A role was granted or replaced (`role_set` topic).
    RoleSet,
    /// A role was revoked (`role_del` topic).
    RoleDel,
    /// Protocol was paused (`paused` topic).
    ProtocolPaused,
    /// Protocol was unpaused (`unpaused` topic).
    ProtocolUnpaused,
    /// An event from this contract that is not recognised yet.
    Unknown,
}

/// The kind a leading topic symbol names.
pub open spec fn kind_of_topic(topic: Seq<char>) -> EventKind {
    if topic == "created"@ {
        EventKind::ProjectCreated
    } else if topic == "funded"@ {
        EventKind::ProjectFunded
    } else if topic == "verified"@ {
        EventKind::ProjectVerified
    } else if topic == "released"@ {
        EventKind::FundsReleased
    } else if topic == "role_set"@ {
        EventKind::RoleSet
    } else if topic == "role_del"@ {
        EventKind::RoleDel
    } else if topic == "paused"@ {
        EventKind::ProtocolPaused
    } else if topic == "unpaused"@ {
        EventKind::ProtocolUnpaused
    } else {
        EventKind::Unknown
    }
}

/// The short identifier each kind is stored under.
pub open spec fn kind_str(k: EventKind) -> Seq<char> {
    match k {
        EventKind::ProjectCreated => "project_created"@,
        EventKind::ProjectFunded => "project_funded"@,
        EventKind::ProjectVerified => "project_verified"@,
        EventKind::FundsReleased => "funds_released"@,
        EventKind::RoleSet => "role_set"@,
        EventKind::RoleDel => "role_del"@,
        EventKind::ProtocolPaused => "protocol_paused"@,
        EventKind::ProtocolUnpaused => "protocol_unpaused"@,
        EventKind::Unknown => "unknown"@,
    }
}

impl EventKind {
    /// Parse the leading topic symbol of an event into its kind.
    pub fn from_topic(topic: &str) -> (r: EventKind)
        ensures
            r == kind_of_topic(topic@),
    {
        if str_eq(topic, "created") {
            EventKind::ProjectCreated
        } else if str_eq(topic, "funded") {
            EventKind::ProjectFunded
        } else if str_eq(topic, "verified") {
            EventKind::ProjectVerified
        } else if str_eq(topic, "released") {
            EventKind::FundsReleased
        } else if str_eq(topic, "role_set") {
            EventKind::RoleSet
        } else if str_eq(topic, "role_del") {
            EventKind::RoleDel
        } else if str_eq(topic, "paused") {
            EventKind::ProtocolPaused
        } else if str_eq(topic, "unpaused") {
            EventKind::ProtocolUnpaused
        } else {
            EventKind::Unknown
        }
    }

    /// The short identifier string suitable for storage in the database.
    pub fn as_str(&self) -> (r: &'static str)
        ensures
            r@ == kind_str(*self),
    {
        match self {
            EventKind::ProjectCreated => "project_created",
            EventKind::ProjectFunded => "project_funded",
            EventKind::ProjectVerified => "project_verified",
            EventKind::FundsReleased => "funds_released",
            EventKind::RoleSet => "role_set",
            EventKind::RoleDel => "role_del",
            EventKind::ProtocolPaused => "protocol_paused",
            EventKind::ProtocolUnpaused => "protocol_unpaused",
            EventKind::Unknown => "unknown",
        }
    }
}

/// A fully decoded protocol event, ready to be stored in the database.
#[derive(Debug, PartialEq, Eq)]
pub struct PifpEvent {
    pub event_type: String,
    pub project_id: Option<String>,
    pub actor: Option<String>,
    pub amount: Option<String>,
    pub ledger: i64,
    pub timestamp: i64,
    pub contract_id: String,
    pub tx_hash: Option<String>,
}

/// An event row as stored in and read back from the database.
#[derive(Debug, PartialEq, Eq)]
pub struct EventRecord {
    pub id: i64,
    pub event_type: String,
    pub project_id: Option<String>,
    pub actor: Option<String>,
    pub amount: Option<String>,
    pub ledger: i64,
    pub timestamp: i64,
    pub contract_id: String,
    pub tx_hash: Option<String>,
    pub created_at: i64,
}

/// Law: every notification the protocol emits is classified by its topic
/// as the matching event kind — the indexer never sees the core's own
/// stream as unknown.
pub proof fn lemma_stream_recognized(n: Notification)
    ensures
        kind_of_topic(n.topic_spec()) == (match n {
            Notification::Created { .. } => EventKind::ProjectCreated,
            Notification::Funded { .. } => EventKind::ProjectFunded,
            Notification::Verified { .. } => EventKind::ProjectVerified,
            Notification::RoleSet { .. } => EventKind::RoleSet,
            Notification::RoleDel { .. } => EventKind::RoleDel,
        }),
{
    reveal_strlit("created");
    reveal_strlit("funded");
    reveal_strlit("verified");
    reveal_strlit("released");
    reveal_strlit("role_set");
    reveal_strlit("role_del");
    match n {
        Notification::Created { .. } => {
        },
        Notification::Funded { .. } => {
            assert("funded"@.len() != "created"@.len());
        },
        Notification::Verified { .. } => {
            assert("verified"@.len() != "created"@.len());
            assert("verified"@.len() != "funded"@.len());
        },
        Notification::RoleSet { .. } => {
            assert("role_set"@.len() != "created"@.len());
            assert("role_set"@.len() != "funded"@.len());
            assert("role_set"@[0] != "verified"@[0]);
            assert("role_set"@ != "verified"@);
            assert("role_set"@[1] != "released"@[1]);
            assert("role_set"@ != "released"@);
        },
        Notification::RoleDel { .. } => {
            assert("role_del"@.len() != "created"@.len());
            assert("role_del"@.len() != "funded"@.len());
            assert("role_del"@[0] != "verified"@[0]);
            assert("role_del"@ != "verified"@);
            assert("role_del"@[1] != "released"@[1]);
            assert("role_del"@ != "released"@);
            assert("role_del"@[5] != "role_set"@[5]);
            assert("role_del"@ != "role_set"@);
        },
    }
}

} // verus!
