//! The steps that both providers' adapters share: reading the snapshot
//! identifier that a trigger answers, waiting for a snapshot to be ready,
//! and framing a downloaded snapshot body.
use vstd::prelude::*;
use vstd::string::*;
use crate::actors::driven::brightdata::snapshots::Snapshot as RecordSnapshot;
use crate::app::ports::types::Snapshot;
use crate::json::{
    json_array, json_as_str, json_get, json_insert, json_model, json_models, json_object,
    json_text_model, parse_json, JsonModel,
};
use crate::text::{trim, trim_str};

verus! {

/// Why the answer to a trigger request names no snapshot.
pub enum TriggerError {
    /// The answer is empty or white space only.
    EmptyBody,
}

impl TriggerError {
    /// The text that reports the error.
    pub fn message(&self) -> (r: String)
        ensures
            r@ == "BrightData trigger returned empty body"@,
    {
        String::from_str("BrightData trigger returned empty body")
    }
}

/// The text member of an object under `key`, if it has one.
pub open spec fn text_member(m: Map<Seq<char>, JsonModel>, key: Seq<char>) -> Option<Seq<char>> {
    if m.contains_key(key) {
        match m[key] {
            JsonModel::Str(s) => Some(s),
            _ => None,
        }
    } else {
        None
    }
}

/// The snapshot identifier that a trigger answer document carries: the
/// document itself where it is a text, else the first text member of
/// `snapshot_id`, `snapshotId` and `id`.
pub open spec fn snapshot_id_in(doc: JsonModel) -> Option<Seq<char>> {
    match doc {
        JsonModel::Str(s) => Some(s),
        JsonModel::Object(m) => if text_member(m, "snapshot_id"@) is Some {
            text_member(m, "snapshot_id"@)
        } else if text_member(m, "snapshotId"@) is Some {
            text_member(m, "snapshotId"@)
        } else {
            text_member(m, "id"@)
        },
        _ => None,
    }
}

/// The snapshot identifier in a trigger answer: the identifier its trimmed
/// text carries as JSON, or else that trimmed text itself.
pub open spec fn trigger_snapshot_id(body: Seq<char>) -> Seq<char> {
    let t = trim(body);
    match json_text_model(t) {
        Some(doc) => match snapshot_id_in(doc) {
            Some(id) => id,
            None => t,
        },
        None => t,
    }
}

fn member_text(doc: &serde_json::Value, key: &str) -> (r: Option<String>)
    ensures
        match json_model(*doc) {
            JsonModel::Object(m) => match text_member(m, key@) {
                Some(s) => r is Some && r->0@ == s,
                None => r is None,
            },
            _ => r is None,
        },
{
    match json_get(doc, key) {
        Some(v) => match json_as_str(v) {
            Some(s) => Some(s.to_owned()),
            None => None,
        },
        None => None,
    }
}

/// Reads the snapshot identifier from the answer to a trigger request.
pub fn parse_trigger_response_snapshot_id(body: &str) -> (r: Result<String, TriggerError>)
    ensures
        match r {
            Ok(id) => trim(body@).len() > 0 && id@ == trigger_snapshot_id(body@),
            Err(e) => trim(body@).len() == 0 && e is EmptyBody,
        },
{
    let t = trim_str(body);
    if t.is_empty() {
        return Err(TriggerError::EmptyBody);
    }
    if let Some(doc) = parse_json(t) {
        if let Some(s) = json_as_str(&doc) {
            return Ok(s.to_owned());
        }
        if let Some(s) = member_text(&doc, "snapshot_id") {
            return Ok(s);
        }
        if let Some(s) = member_text(&doc, "snapshotId") {
            return Ok(s);
        }
        if let Some(s) = member_text(&doc, "id") {
            return Ok(s);
        }
    }
    Ok(t.to_owned())
}

/// The most time to wait for a snapshot, in seconds.
pub const READY_TIMEOUT_SECS: u64 = 600;

/// The first pause between two progress checks, in seconds.
pub const FIRST_PAUSE_SECS: u64 = 2;

/// The longest pause between two progress checks, in seconds.
pub const MAX_PAUSE_SECS: u64 = 15;

/// What happened since the last step of a wait.
pub enum WaitEvent {
    /// A new round begins; whether the deadline has passed.
    Tick { deadline_passed: bool },
    /// The progress check answered whether the snapshot is ready.
    Polled { ready: bool },
}

/// What the waiting side does next.
#[derive(PartialEq, Eq, Debug, Structural)]
pub enum WaitAction {
    /// Give up: the deadline has passed.
    TimedOut,
    /// Ask whether the snapshot is ready.
    Poll,
    /// Stop: the snapshot is ready.
    Ready,
    /// Pause this many seconds, then begin a new round.
    Sleep(u64),
}

/// Waiting for a snapshot: checks spaced by pauses that double from two
/// seconds up to fifteen.
pub struct ReadyWait {
    pause_secs: u64,
}

/// The pause after `pause`: doubled, at most fifteen seconds.
pub open spec fn next_pause(pause: u64) -> u64 {
    if 2 * pause < MAX_PAUSE_SECS {
        (2 * pause) as u64
    } else {
        MAX_PAUSE_SECS
    }
}

/// One step of a wait from a pause of `pause` seconds: the next pause and
/// the action.
pub open spec fn wait_step(pause: u64, event: WaitEvent) -> (u64, WaitAction) {
    match event {
        WaitEvent::Tick { deadline_passed } => if deadline_passed {
            (pause, WaitAction::TimedOut)
        } else {
            (pause, WaitAction::Poll)
        },
        WaitEvent::Polled { ready } => if ready {
            (pause, WaitAction::Ready)
        } else {
            (next_pause(pause), WaitAction::Sleep(pause))
        },
    }
}

impl ReadyWait {
    /// The pause that the next unready check leads to.
    pub closed spec fn pause(&self) -> u64 {
        self.pause_secs
    }

    /// The pause is between two and fifteen seconds.
    pub open spec fn wf(&self) -> bool {
        FIRST_PAUSE_SECS <= self.pause() <= MAX_PAUSE_SECS
    }

    /// A wait that has not checked yet.
    pub fn new() -> (r: ReadyWait)
        ensures
            r.wf(),
            r.pause() == FIRST_PAUSE_SECS,
    {
        ReadyWait { pause_secs: FIRST_PAUSE_SECS }
    }

    /// The pause that the next unready check leads to, in seconds.
    pub fn pause_secs(&self) -> (r: u64)
        ensures
            r == self.pause(),
    {
        self.pause_secs
    }

    /// Takes one event and says what to do next.
    pub fn step(&mut self, event: WaitEvent) -> (r: WaitAction)
        requires
            old(self).wf(),
        ensures
            final(self).wf(),
            (final(self).pause(), r) == wait_step(old(self).pause(), event),
    {
        match event {
            WaitEvent::Tick { deadline_passed } => {
                if deadline_passed {
                    WaitAction::TimedOut
                } else {
                    WaitAction::Poll
                }
            },
            WaitEvent::Polled { ready } => {
                if ready {
                    WaitAction::Ready
                } else {
                    let pause = self.pause_secs;
                    self.pause_secs = if 2 * pause < MAX_PAUSE_SECS {
                        2 * pause
                    } else {
                        MAX_PAUSE_SECS
                    };
                    WaitAction::Sleep(pause)
                }
            },
        }
    }
}

/// Every pause of a wait lasts two to fifteen seconds, and no pause is
/// shorter than the one before it.
pub proof fn wait_pauses_bounded_and_growing(pause: u64, event: WaitEvent)
    requires
        FIRST_PAUSE_SECS <= pause <= MAX_PAUSE_SECS,
    ensures
        FIRST_PAUSE_SECS <= wait_step(pause, event).0 <= MAX_PAUSE_SECS,
        pause <= wait_step(pause, event).0,
        wait_step(pause, event).1 matches WaitAction::Sleep(d) ==> d == pause,
{
}

/// The tool's records of a list of the provider's snapshots, in order.
pub fn snapshots_from_records(records: &Vec<RecordSnapshot>) -> (r: Vec<Snapshot>)
    ensures
        r.len() == records.len(),
        forall|i: int|
            #![trigger r[i]]
            0 <= i < r.len() ==> {
                &&& r[i].id == records[i].id
                &&& r[i].created == records[i].created
                &&& r[i].status == records[i].status
                &&& r[i].dataset_id == records[i].dataset_id
                &&& r[i].dataset_size == records[i].dataset_size
            },
{
    let mut out: Vec<Snapshot> = Vec::new();
    for i in 0..records.len()
        invariant
            out.len() == i,
            forall|k: int|
                #![trigger out[k]]
                0 <= k < i ==> {
                    &&& out[k].id == records[k].id
                    &&& out[k].created == records[k].created
                    &&& out[k].status == records[k].status
                    &&& out[k].dataset_id == records[k].dataset_id
                    &&& out[k].dataset_size == records[k].dataset_size
                },
    {
        let s = &records[i];
        out.push(
            Snapshot {
                id: s.id.clone(),
                created: s.created.clone(),
                status: s.status.clone(),
                dataset_id: s.dataset_id.clone(),
                dataset_size: s.dataset_size,
            },
        );
    }
    out
}


/// The body of a discovery request: the request objects as its `input`
/// list, in order.
pub fn trigger_body(inputs: Vec<serde_json::Value>) -> (r: serde_json::Value)
    ensures
        json_model(r) == JsonModel::Object(map!["input"@ => JsonModel::Array(json_models(inputs@))]),
{
    let list = json_array(inputs);
    let mut body = json_object();
    json_insert(&mut body, String::from_str("input"), list);
    assert(json_model(body) =~~= JsonModel::Object(
        map!["input"@ => JsonModel::Array(json_models(inputs@))],
    ));
    body
}

} // verus!
