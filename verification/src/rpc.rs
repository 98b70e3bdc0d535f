//! Decoding of raw RPC events into storable records, and the retry policy
//! of the event fetcher.
//!
//! The transport itself (HTTP, pagination) lives outside; this module owns
//! every decision in between: how a raw event's topics and data decode
//! into a [`PifpEvent`], and how one fetch attempt's outcome advances the
//! retry loop and its exponential back-off.

use vstd::prelude::*;

use crate::events::{EventKind, PifpEvent, kind_of_topic, kind_str};
use crate::json::{
    JsonValue, as_text, field_of, json_as_text, json_get, json_nested_text, json_of,
    nested_text, opt_text, parse_json,
};

verus! {

/// A JSON-RPC error object returned by the events endpoint.
#[derive(Debug, PartialEq, Eq)]
pub struct RpcError {
    pub code: i64,
    pub message: String,
}

/// One raw event as the RPC returns it, its XDR already decoded to JSON.
#[derive(Debug, PartialEq, Eq)]
pub struct RawEvent {
    /// Topic list; each entry is a string that may itself hold JSON.
    pub topic: Vec<String>,
    /// The event's data blob.
    pub value: JsonValue,
    pub contract_id: Option<String>,
    pub tx_hash: Option<String>,
    pub id: Option<String>,
    pub ledger: Option<u64>,
    pub ledger_closed_at: Option<String>,
    pub in_successful_contract_call: Option<bool>,
    pub paging_token: Option<String>,
}

/// One page of events as the RPC returns it.
#[derive(Debug, PartialEq, Eq)]
pub struct EventsResult {
    pub events: Vec<RawEvent>,
    pub cursor: Option<String>,
    pub latest_ledger: Option<u64>,
}

/// A whole JSON-RPC response of the events endpoint: a page or an error.
#[derive(Debug, PartialEq, Eq)]
pub struct RpcResponse {
    pub result: Option<EventsResult>,
    pub error: Option<RpcError>,
}

/// The mathematical value of a [`PifpEvent`].
pub struct PifpEventView {
    pub event_type: Seq<char>,
    pub project_id: Option<Seq<char>>,
    pub actor: Option<Seq<char>>,
    pub amount: Option<Seq<char>>,
    pub ledger: i64,
    pub timestamp: i64,
    pub contract_id: Seq<char>,
    pub tx_hash: Option<Seq<char>>,
}

impl View for PifpEvent {
    type V = PifpEventView;

    open spec fn view(&self) -> PifpEventView {
        PifpEventView {
            event_type: self.event_type@,
            project_id: opt_text(self.project_id),
            actor: opt_text(self.actor),
            amount: opt_text(self.amount),
            ledger: self.ledger,
            timestamp: self.timestamp,
            contract_id: self.contract_id@,
            tx_hash: opt_text(self.tx_hash),
        }
    }
}

impl DeepView for PifpEvent {
    type V = PifpEventView;

    open spec fn deep_view(&self) -> PifpEventView {
        self.view()
    }
}

/// What chrono makes of an RFC 3339 timestamp string: the Unix seconds of
/// the instant it names, or nothing when it does not parse.
pub uninterp spec fn rfc3339_unix_of(s: Seq<char>) -> Option<i64>;

/// Relies on chrono's `DateTime::parse_from_rfc3339` and `timestamp`: the
/// parsed instant depends on the characters alone.
#[verifier::external_body]
pub fn parse_iso_to_unix(s: &str) -> (r: Option<i64>)
    ensures
        r == rfc3339_unix_of(s@),
{
    chrono::DateTime::parse_from_rfc3339(s).ok().map(|dt| dt.timestamp())
}

/// The symbol a topic string stands for: the `value` string field of the
/// JSON document it parses to, or the raw string itself as fallback.
pub open spec fn symbol_of_topic(raw: Seq<char>) -> Seq<char> {
    match json_of(raw) {
        Some(v) => match field_of(v, "value"@) {
            Some(x) => match as_text(x) {
                Some(s) => s,
                None => raw,
            },
            None => raw,
        },
        None => raw,
    }
}

/// Extract a symbol from an XDR-decoded topic string; see
/// [`symbol_of_topic`].
pub fn extract_symbol(raw: &str) -> (r: String)
    ensures
        r@ == symbol_of_topic(raw@),
{
    match parse_json(raw) {
        Some(v) => match json_get(&v, "value") {
            Some(x) => match json_as_text(x) {
                Some(s) => s,
                None => raw.to_owned(),
            },
            None => raw.to_owned(),
        },
        None => raw.to_owned(),
    }
}

/// The project id a topic entry stands for: the `value` field of the JSON
/// document it parses to, rendered in decimal when it is an unsigned
/// integer, taken verbatim when it is a string, and the raw topic string
/// as fallback.
pub open spec fn id_of_topic(raw: Seq<char>) -> Seq<char> {
    match json_of(raw) {
        Some(v) => match field_of(v, "value"@) {
            Some(JsonValue::Num(n)) => if n.uval is Some {
                n.text@
            } else {
                raw
            },
            Some(JsonValue::Text(s)) => s@,
            _ => raw,
        },
        None => raw,
    }
}

/// Extract a project id from a topic entry; see [`id_of_topic`].
pub fn extract_u64_or_raw(raw: &str) -> (r: String)
    ensures
        r@ == id_of_topic(raw@),
{
    match parse_json(raw) {
        Some(v) => match json_get(&v, "value") {
            Some(x) => match x {
                JsonValue::Num(n) => {
                    if n.uval.is_some() {
                        n.text.clone()
                    } else {
                        raw.to_owned()
                    }
                },
                JsonValue::Text(s) => s.clone(),
                _ => raw.to_owned(),
            },
            None => raw.to_owned(),
        },
        None => raw.to_owned(),
    }
}

/// The storable text of a scalar: a string verbatim, a number by its
/// rendering, nothing otherwise.
pub open spec fn scalar_text(x: JsonValue) -> Option<Seq<char>> {
    match x {
        JsonValue::Text(s) => Some(s@),
        JsonValue::Num(n) => Some(n.text@),
        _ => None,
    }
}

/// The first key whose field holds a scalar decides; a key present with a
/// non-scalar value falls through to the next key.
pub open spec fn field_text_multi(v: JsonValue, keys: Seq<Seq<char>>) -> Option<Seq<char>>
    decreases keys.len(),
{
    if keys.len() == 0 {
        None
    } else {
        match field_of(v, keys[0]) {
            Some(x) => match scalar_text(x) {
                Some(s) => Some(s),
                None => field_text_multi(v, keys.skip(1)),
            },
            None => field_text_multi(v, keys.skip(1)),
        }
    }
}

fn json_scalar_text(x: &JsonValue) -> (r: Option<String>)
    ensures
        opt_text(r) == scalar_text(*x),
{
    match x {
        JsonValue::Text(s) => Some(s.clone()),
        JsonValue::Num(n) => Some(n.text.clone()),
        _ => None,
    }
}

/// Try a list of keys in order; see [`field_text_multi`].
#[verifier::loop_isolation(false)]
fn extract_field(v: &JsonValue, keys: &[&str]) -> (r: Option<String>)
    ensures
        opt_text(r) == field_text_multi(*v, keys.deep_view()),
{
    let n = keys.len();
    let mut i: usize = 0;
    proof {
        assert(keys.deep_view().skip(0) =~= keys.deep_view());
    }
    while i < n
        invariant
            i <= n,
            field_text_multi(*v, keys.deep_view()) == field_text_multi(
                *v,
                keys.deep_view().skip(i as int),
            ),
        decreases n - i,
    {
        proof {
            assert(keys.deep_view().skip(i as int)[0] == keys.deep_view()[i as int]);
            assert(keys.deep_view()[i as int] == keys@[i as int]@);
        }
        let key = keys[i];
        match json_get(v, key) {
            Some(x) => {
                let s = json_scalar_text(x);
                if s.is_some() {
                    return s;
                }
            },
            None => (),
        }
        proof {
            assert(keys.deep_view().skip(i as int).skip(1) =~= keys.deep_view().skip(
                i + 1 as int,
            ));
        }
        i = i + 1;
    }
    proof {
        assert(keys.deep_view().skip(n as int) =~= Seq::<Seq<char>>::empty());
    }
    None
}

/// The actor an event's data names, per kind, as the indexer stores it.
pub open spec fn decoded_actor(v: JsonValue, kind: EventKind) -> Option<Seq<char>> {
    match kind {
        EventKind::ProjectCreated => {
            let got = if field_of(v, "creator"@) is Some {
                field_of(v, "creator"@)
            } else {
                field_of(v, "address"@)
            };
            let direct = match got {
                Some(x) => as_text(x),
                None => None,
            };
            if direct is Some {
                direct
            } else {
                nested_text(v, "creator"@)
            }
        },
        EventKind::ProjectFunded => field_text_multi(
            v,
            seq!["donator"@, "funder"@, "address"@],
        ),
        EventKind::ProjectVerified => field_text_multi(
            v,
            seq!["oracle"@, "verifier"@, "address"@],
        ),
        EventKind::FundsReleased => None,
        EventKind::RoleSet | EventKind::RoleDel => match as_text(v) {
            Some(s) => Some(s),
            None => field_text_multi(v, seq!["address"@, "caller"@, "by"@]),
        },
        EventKind::ProtocolPaused | EventKind::ProtocolUnpaused => match as_text(v) {
            Some(s) => Some(s),
            None => field_text_multi(v, seq!["address"@]),
        },
        EventKind::Unknown => None,
    }
}

/// The amount an event's data names, per kind, as the indexer stores it.
pub open spec fn decoded_amount(v: JsonValue, kind: EventKind) -> Option<Seq<char>> {
    match kind {
        EventKind::ProjectCreated => match field_of(v, "goal"@) {
            Some(JsonValue::Text(s)) => Some(s@),
            Some(JsonValue::Num(n)) => if n.ival is Some {
                Some(n.text@)
            } else {
                None
            },
            _ => None,
        },
        EventKind::ProjectFunded => field_text_multi(v, seq!["amount"@]),
        EventKind::FundsReleased => field_text_multi(v, seq!["amount"@]),
        _ => None,
    }
}

/// Pull the actor and amount out of an event's data blob, per kind.
fn decode_data(value: &JsonValue, kind: &EventKind) -> (r: (Option<String>, Option<String>))
    ensures
        opt_text(r.0) == decoded_actor(*value, *kind),
        opt_text(r.1) == decoded_amount(*value, *kind),
{
    match kind {
        EventKind::ProjectCreated => {
            let got = match json_get(value, "creator") {
                Some(x) => Some(x),
                None => json_get(value, "address"),
            };
            let direct = match got {
                Some(x) => json_as_text(x),
                None => None,
            };
            let actor = match direct {
                Some(s) => Some(s),
                None => json_nested_text(value, "creator"),
            };
            let amount = match json_get(value, "goal") {
                Some(JsonValue::Text(s)) => Some(s.clone()),
                Some(JsonValue::Num(n)) => {
                    if n.ival.is_some() {
                        Some(n.text.clone())
                    } else {
                        None
                    }
                },
                _ => None,
            };
            (actor, amount)
        },
        EventKind::ProjectFunded => {
            let actor = extract_field(value, &["donator", "funder", "address"]);
            let amount = extract_field(value, &["amount"]);
            proof {
                assert((&["donator", "funder", "address"]).deep_view() =~= seq![
                    "donator"@,
                    "funder"@,
                    "address"@,
                ]);
                assert((&["amount"]).deep_view() =~= seq!["amount"@]);
            }
            (actor, amount)
        },
        EventKind::ProjectVerified => {
            let actor = extract_field(value, &["oracle", "verifier", "address"]);
            proof {
                assert((&["oracle", "verifier", "address"]).deep_view() =~= seq![
                    "oracle"@,
                    "verifier"@,
                    "address"@,
                ]);
            }
            (actor, None)
        },
        EventKind::FundsReleased => {
            let amount = extract_field(value, &["amount"]);
            proof {
                assert((&["amount"]).deep_view() =~= seq!["amount"@]);
            }
            (None, amount)
        },
        EventKind::RoleSet | EventKind::RoleDel => {
            let direct = json_as_text(value);
            let actor = match direct {
                Some(s) => Some(s),
                None => {
                    let f = extract_field(value, &["address", "caller", "by"]);
                    proof {
                        assert((&["address", "caller", "by"]).deep_view() =~= seq![
                            "address"@,
                            "caller"@,
                            "by"@,
                        ]);
                    }
                    f
                },
            };
            (actor, None)
        },
        EventKind::ProtocolPaused | EventKind::ProtocolUnpaused => {
            let direct = json_as_text(value);
            let actor = match direct {
                Some(s) => Some(s),
                None => {
                    let f = extract_field(value, &["address"]);
                    proof {
                        assert((&["address"]).deep_view() =~= seq!["address"@]);
                    }
                    f
                },
            };
            (actor, None)
        },
        EventKind::Unknown => (None, None),
    }
}

/// The record one raw event decodes to, or nothing when it has no topic.
pub open spec fn decoded_event(raw: RawEvent, contract_id: Seq<char>) -> Option<PifpEventView> {
    if raw.topic@.len() == 0 {
        None
    } else {
        let kind = kind_of_topic(symbol_of_topic(raw.topic@[0]@));
        Some(
            PifpEventView {
                event_type: kind_str(kind),
                project_id: if raw.topic@.len() >= 2 {
                    Some(id_of_topic(raw.topic@[1]@))
                } else {
                    None
                },
                actor: decoded_actor(raw.value, kind),
                amount: decoded_amount(raw.value, kind),
                ledger: (match raw.ledger {
                    Some(l) => l,
                    None => 0,
                }) as i64,
                timestamp: match raw.ledger_closed_at {
                    Some(s) => match rfc3339_unix_of(s@) {
                        Some(t) => t,
                        None => 0,
                    },
                    None => 0,
                },
                contract_id: match raw.contract_id {
                    Some(c) => c@,
                    None => contract_id,
                },
                tx_hash: opt_text(raw.tx_hash),
            },
        )
    }
}

/// Decode one raw RPC event; see [`decoded_event`].
fn decode_single(raw: &RawEvent, contract_id: &str) -> (r: Option<PifpEvent>)
    ensures
        match r {
            Some(e) => decoded_event(*raw, contract_id@) == Some(e@),
            None => decoded_event(*raw, contract_id@) == None::<PifpEventView>,
        },
{
    if raw.topic.len() == 0 {
        return None;
    }
    let symbol = extract_symbol(raw.topic[0].as_str());
    let kind = EventKind::from_topic(symbol.as_str());
    let ledger: i64 = match raw.ledger {
        Some(l) => #[verifier::truncate] (l as i64),
        None => 0,
    };
    let timestamp: i64 = match &raw.ledger_closed_at {
        Some(s) => match parse_iso_to_unix(s.as_str()) {
            Some(t) => t,
            None => 0,
        },
        None => 0,
    };
    let project_id = if raw.topic.len() >= 2 {
        Some(extract_u64_or_raw(raw.topic[1].as_str()))
    } else {
        None
    };
    let (actor, amount) = decode_data(&raw.value, &kind);
    let contract = match &raw.contract_id {
        Some(c) => c.clone(),
        None => contract_id.to_owned(),
    };
    let tx_hash = match &raw.tx_hash {
        Some(t) => Some(t.clone()),
        None => None,
    };
    Some(
        PifpEvent {
            event_type: kind.as_str().to_owned(),
            project_id,
            actor,
            amount,
            ledger,
            timestamp,
            contract_id: contract,
            tx_hash,
        },
    )
}

/// The records a page of raw events decodes to, in order, skipping those
/// without a topic.
pub open spec fn decoded_events(raws: Seq<RawEvent>, contract_id: Seq<char>) -> Seq<
    PifpEventView,
>
    decreases raws.len(),
{
    if raws.len() == 0 {
        Seq::empty()
    } else {
        match decoded_event(raws[0], contract_id) {
            Some(e) => seq![e] + decoded_events(raws.skip(1), contract_id),
            None => decoded_events(raws.skip(1), contract_id),
        }
    }
}

/// Decode a page of raw RPC events into storable records.
#[verifier::loop_isolation(false)]
pub fn decode_events(raw: &Vec<RawEvent>, contract_id: &str) -> (r: Vec<PifpEvent>)
    ensures
        r.deep_view() == decoded_events(raw@, contract_id@),
{
    let mut out: Vec<PifpEvent> = Vec::new();
    let n = raw.len();
    let mut i: usize = 0;
    proof {
        assert(raw@.skip(0) =~= raw@);
        assert(out.deep_view() =~= Seq::<PifpEventView>::empty());
    }
    while i < n
        invariant
            i <= n,
            out.deep_view() + decoded_events(raw@.skip(i as int), contract_id@)
                == decoded_events(raw@, contract_id@),
        decreases n - i,
    {
        proof {
            assert(raw@.skip(i as int)[0] == raw@[i as int]);
        }
        let ghost prev = out.deep_view();
        match decode_single(&raw[i], contract_id) {
            Some(e) => {
                let ghost ev = e@;
                out.push(e);
                proof {
                    assert(out.deep_view() =~= prev.push(ev));
                    assert(prev.push(ev) =~= prev + seq![ev]);
                }
            },
            None => (),
        }
        proof {
            assert(raw@.skip(i as int).skip(1) =~= raw@.skip(i + 1 as int));
            assert(out.deep_view() + decoded_events(raw@.skip(i + 1 as int), contract_id@)
                =~= decoded_events(raw@, contract_id@));
        }
        i = i + 1;
    }
    proof {
        assert(raw@.skip(n as int) =~= Seq::<RawEvent>::empty());
        assert(out.deep_view() =~= out.deep_view() + decoded_events(
            raw@.skip(n as int),
            contract_id@,
        ));
    }
    out
}

/// Back-off starts here, in seconds.
pub const INITIAL_BACKOFF_SECS: u64 = 2;

/// Back-off never exceeds this, in seconds.
pub const MAX_BACKOFF_SECS: u64 = 60;

/// How one fetch attempt ended, as the transport reports it.
#[derive(Clone, Copy, Debug, PartialEq, Eq, Structural)]
pub enum FetchOutcome {
    /// The request itself failed (connection reset, timeout).
    NetworkError,
    /// The endpoint rate-limited the request.
    RateLimited,
    /// The endpoint returned a JSON-RPC error object with this code.
    RpcFault { code: i64 },
    /// The response carried neither an error nor a result.
    EmptyResult,
    /// A page of events arrived.
    PageReceived,
}

/// What the fetch loop does next: sleep and retry, give up, or hand the
/// page over.
#[derive(Clone, Copy, Debug, PartialEq, Eq, Structural)]
pub enum FetchStep {
    /// Sleep `delay` seconds, then retry with `next_backoff` as the new
    /// back-off.
    Retry { delay: u64, next_backoff: u64 },
    /// A hard failure: surface the error to the caller.
    GiveUp,
    /// The page is in; stop polling.
    Done,
}

/// The doubled back-off, capped at [`MAX_BACKOFF_SECS`].
pub open spec fn next_backoff(backoff: u64) -> u64 {
    if 2 * backoff > MAX_BACKOFF_SECS {
        MAX_BACKOFF_SECS
    } else {
        (2 * backoff) as u64
    }
}

/// Whether a JSON-RPC error code is a hard failure that retrying cannot
/// mend (an invalid request or an unknown method).
pub open spec fn is_hard_fault(code: i64) -> bool {
    code == -32600 || code == -32601
}

/// Decide the fetch loop's next step from one attempt's outcome.
///
/// Transient outcomes — network errors, rate limits, retriable RPC
/// faults — sleep for the current back-off and double it up to the cap;
/// hard RPC faults and empty responses give up; a received page is done.
pub fn fetch_step(outcome: FetchOutcome, backoff: u64) -> (r: FetchStep)
    ensures
        outcome == FetchOutcome::NetworkError || outcome == FetchOutcome::RateLimited ==> r
            == (FetchStep::Retry { delay: backoff, next_backoff: next_backoff(backoff) }),
        outcome matches FetchOutcome::RpcFault { code } ==> r == (if is_hard_fault(code) {
            FetchStep::GiveUp
        } else {
            FetchStep::Retry { delay: backoff, next_backoff: next_backoff(backoff) }
        }),
        outcome == FetchOutcome::EmptyResult ==> r == FetchStep::GiveUp,
        outcome == FetchOutcome::PageReceived ==> r == FetchStep::Done,
{
    let doubled: u64 = if backoff > MAX_BACKOFF_SECS / 2 {
        MAX_BACKOFF_SECS
    } else {
        2 * backoff
    };
    match outcome {
        FetchOutcome::NetworkError => FetchStep::Retry { delay: backoff, next_backoff: doubled },
        FetchOutcome::RateLimited => FetchStep::Retry { delay: backoff, next_backoff: doubled },
        FetchOutcome::RpcFault { code } => {
            if code == -32600 || code == -32601 {
                FetchStep::GiveUp
            } else {
                FetchStep::Retry { delay: backoff, next_backoff: doubled }
            }
        },
        FetchOutcome::EmptyResult => FetchStep::GiveUp,
        FetchOutcome::PageReceived => FetchStep::Done,
    }
}

} // verus!
