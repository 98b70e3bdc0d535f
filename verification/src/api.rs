//! Response shapes of the query API, and the little they compute: each
//! listing carries the count of the events it returns.

use vstd::prelude::*;

use crate::events::EventRecord;

verus! {

/// Events of one project, with their count.
#[derive(Debug)]
pub struct EventsResponse {
    pub project_id: String,
    pub count: usize,
    pub events: Vec<EventRecord>,
}

impl EventsResponse {
    pub fn new(project_id: String, events: Vec<EventRecord>) -> (r: EventsResponse)
        ensures
            r.project_id == project_id,
            r.events == events,
            r.count == events@.len(),
    {
        let count = events.len();
        EventsResponse { project_id, count, events }
    }
}

/// All indexed events, with their count.
#[derive(Debug)]
pub struct AllEventsResponse {
    pub count: usize,
    pub events: Vec<EventRecord>,
}

impl AllEventsResponse {
    pub fn new(events: Vec<EventRecord>) -> (r: AllEventsResponse)
        ensures
            r.events == events,
            r.count == events@.len(),
    {
        let count = events.len();
        AllEventsResponse { count, events }
    }
}

/// The health probe's answer.
#[derive(Debug, PartialEq, Eq)]
pub struct HealthResponse {
    pub status: &'static str,
    pub version: &'static str,
}

impl HealthResponse {
    /// A healthy service reporting its version.
    pub fn new(version: &'static str) -> (r: HealthResponse)
        ensures
            r.status@ == "ok"@,
            r.version@ == version@,
    {
        HealthResponse { status: "ok", version }
    }
}

/// A failed request's answer.
#[derive(Debug, PartialEq, Eq)]
pub struct ErrorResponse {
    pub error: String,
}

} // verus!
