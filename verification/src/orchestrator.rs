//! The orchestrator's decision logic: registration, the work-loop step and
//! the request bodies of the coordinator exchange.
//!
//! The process boundary performs the HTTP calls and the scheduling; every
//! decision in between — whether registration may proceed, whether a reply
//! carries a task, what a step does, what the request bodies hold — is
//! made here.
use vstd::prelude::*;

use crate::compute::{compute, spec_meta, spec_output};
use crate::json::{push_json_string, spec_json_string};
use crate::signing::WorkerError;
use crate::task::{ResultData, Task};
use vstd::string::StringSliceAdditionalSpecFns;
use vstd::utf8::encode_utf8;

verus! {

/// How many seconds the work loop idles when no task is available.
pub const IDLE_BACKOFF_SECS: u64 = 5;

/// The fixed name of the single gossip topic, used for both publish and
/// subscribe.
pub fn gossip_topic() -> (r: String)
    ensures
        r@ == "compute-tasks"@,
{
    "compute-tasks".to_owned()
}

/// The static capability tags advertised at registration; fixed for the
/// process lifetime and never recomputed.
pub fn worker_capabilities() -> (r: Vec<String>)
    ensures
        r@.len() == 3,
        r@[0]@ == "math:basic"@,
        r@[1]@ == "math:advanced"@,
        r@[2]@ == "analytics:vector"@,
{
    let mut caps: Vec<String> = Vec::new();
    caps.push("math:basic".to_owned());
    caps.push("math:advanced".to_owned());
    caps.push("analytics:vector".to_owned());
    caps
}

/// The registration gate: the worker may enter its loops exactly when the
/// coordinator answered registration with a success status; any other
/// status is fatal at startup.
pub fn registration_step(status: u16) -> (r: Result<(), WorkerError>)
    ensures
        r is Ok <==> 200 <= status < 300,
        r is Err ==> r->Err_0 == (WorkerError::RegistrationRejected { status }),
{
    if crate::status_is_success(status) {
        Ok(())
    } else {
        Err(WorkerError::RegistrationRejected { status })
    }
}

/// The submission gate: a result submission succeeded exactly when the
/// coordinator answered with a success status; a rejection surfaces as an
/// error.
pub fn submission_step(status: u16) -> (r: Result<(), WorkerError>)
    ensures
        r is Ok <==> 200 <= status < 300,
        r is Err ==> r->Err_0 == (WorkerError::SubmissionRejected { status }),
{
    if crate::status_is_success(status) {
        Ok(())
    } else {
        Err(WorkerError::SubmissionRejected { status })
    }
}

/// The reply body with surrounding whitespace removed: the result of
/// `str::trim`, a function of the characters alone.
pub uninterp spec fn spec_trimmed(s: Seq<char>) -> Seq<char>;

/// Relies on `str::trim` of std: the string with leading and trailing
/// whitespace removed; the empty string trims to itself.
#[verifier::external_body]
fn trim_raw<'a>(s: &'a str) -> (r: &'a str)
    ensures
        r@ == spec_trimmed(s@),
        s@.len() == 0 ==> r@.len() == 0,
{
    s.trim()
}

/// Whether a reply to the task request carries a task: the call must have
/// succeeded and the body must hold more than whitespace. An empty body is
/// not an error — it means no task is available.
pub fn task_available(status_ok: bool, body: &str) -> (r: bool)
    ensures
        r <==> (status_ok && spec_trimmed(body@).len() != 0),
        body@.len() == 0 ==> !r,
{
    status_ok && !trim_raw(body).is_empty()
}

/// One step of the work loop, planned from what the task request returned.
pub enum WorkPlan {
    /// No task was available: idle for the back-off interval and retry;
    /// nothing is computed, submitted or queued.
    Idle { seconds: u64 },
    /// A task arrived: compute, sign, submit, queue for gossip.
    Run { task: Task },
}

/// Plans a work-loop step: the absence of a task idles the loop for the
/// fixed back-off interval — it never submits and never pushes onto the
/// handoff queue — and a present task is run.
pub fn plan_work(fetched: Option<Task>) -> (r: WorkPlan)
    ensures
        fetched is None ==> r == (WorkPlan::Idle { seconds: IDLE_BACKOFF_SECS }),
        fetched is Some ==> r == (WorkPlan::Run { task: fetched.unwrap() }),
{
    match fetched {
        None => WorkPlan::Idle { seconds: IDLE_BACKOFF_SECS },
        Some(task) => WorkPlan::Run { task },
    }
}

/// An empty task reply never reaches the run path: whatever the status,
/// an empty body is never available (ensured by `task_available`), an
/// unavailable reply is fetched as no task, and the step planned without
/// a task (ensured by `plan_work`) is exactly the fixed five-second idle
/// — a step that computes nothing, submits nothing and pushes nothing
/// onto the handoff queue.
pub proof fn lemma_empty_reply_idles(
    body: Seq<char>,
    available: bool,
    fetched: Option<Task>,
    plan: WorkPlan,
)
    requires
        body.len() == 0,
        body.len() == 0 ==> !available,
        !available ==> fetched is None,
        fetched is None ==> plan == (WorkPlan::Idle { seconds: IDLE_BACKOFF_SECS }),
    ensures
        plan == (WorkPlan::Idle { seconds: IDLE_BACKOFF_SECS }),
{
}

/// Computes a task and assembles the result record handed both to the
/// coordinator and to the gossip path: the same output and metadata the
/// dispatch engine pins, under the task's id and kind and this worker's
/// name.
pub fn execute_task(task: &Task, worker: &String) -> (r: ResultData)
    ensures
        r.id@ == task.id@,
        r.worker@ == worker@,
        r.output == spec_output(*task),
        r.kind is Some && r.kind.unwrap()@ == task.kind@,
        r.payload == spec_meta(*task),
{
    let (output, metadata) = compute(task);
    ResultData {
        id: task.id.clone(),
        worker: worker.clone(),
        output,
        kind: Some(task.kind.clone()),
        payload: metadata,
    }
}

/// The items of a JSON array of strings, in order, separated by commas.
pub open spec fn spec_string_array_items(items: Seq<Seq<char>>) -> Seq<u8>
    decreases items.len(),
{
    if items.len() == 0 {
        Seq::empty()
    } else if items.len() == 1 {
        spec_json_string(items[0])
    } else {
        spec_string_array_items(items.drop_last()) + encode_utf8(","@) + spec_json_string(
            items.last(),
        )
    }
}

/// The registration request body: the JSON document
/// `{"capabilities":[...],"pub_key":"...","worker_id":"..."}` — keys in
/// the alphabetical order the coordinator wire format uses.
pub open spec fn spec_registration_body(
    caps: Seq<Seq<char>>,
    pk_b64: Seq<char>,
    worker: Seq<char>,
) -> Seq<u8> {
    encode_utf8("{\"capabilities\":["@) + spec_string_array_items(caps) + encode_utf8(
        "],\"pub_key\":"@,
    ) + spec_json_string(pk_b64) + encode_utf8(",\"worker_id\":"@) + spec_json_string(worker)
        + encode_utf8("}"@)
}

/// Builds the registration request body for a worker name, an encoded
/// public key and the advertised capability list, byte-exactly as
/// `spec_registration_body` states.
pub fn registration_body(worker: &str, pk_b64: &str, caps: &Vec<String>) -> (r: Vec<u8>)
    ensures
        r@ == spec_registration_body(caps.deep_view(), pk_b64@, worker@),
{
    let mut out: Vec<u8> = Vec::new();
    out.extend_from_slice("{\"capabilities\":[".as_bytes());
    let ghost prefix = out@;
    let mut j: usize = 0;
    while j < caps.len()
        invariant
            j <= caps@.len(),
            out@ == prefix + spec_string_array_items(caps.deep_view().take(j as int)),
        decreases caps@.len() - j,
    {
        if j > 0 {
            out.extend_from_slice(",".as_bytes());
        }
        push_json_string(&mut out, caps[j].as_str());
        proof {
            assert(caps.deep_view().take(j + 1).drop_last() =~= caps.deep_view().take(j as int));
            assert(caps.deep_view().take(j + 1).last() == caps@[j as int]@);
            assert(out@ =~= prefix + spec_string_array_items(caps.deep_view().take(j + 1)));
        }
        j = j + 1;
    }
    proof {
        assert(caps.deep_view().take(caps@.len() as int) =~= caps.deep_view());
    }
    out.extend_from_slice("],\"pub_key\":".as_bytes());
    push_json_string(&mut out, pk_b64);
    out.extend_from_slice(",\"worker_id\":".as_bytes());
    push_json_string(&mut out, worker);
    out.extend_from_slice("}".as_bytes());
    proof {
        assert(out@ =~= spec_registration_body(caps.deep_view(), pk_b64@, worker@));
    }
    out
}

} // verus!
