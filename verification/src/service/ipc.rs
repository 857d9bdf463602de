//! The named-pipe request handler: which snapshot a request reads, how the
//! outcome of a request is answered, and how the service reports its own
//! health from the supervisor's worker list.
use vstd::prelude::*;

use crate::json::{json_from_text, json_text_parses, parse_json_text};
use crate::text::{
    ascii_lower_chars, ascii_lower_seq, chars_equal, chars_of, spec_trim, string_from,
    string_from_chars, text_equals, trim,
};

verus! {

// ----------------------------------------------------------------------------
// Worker health
// ----------------------------------------------------------------------------

/// One worker as the supervisor snapshot lists it.
#[derive(Clone, Debug)]
pub struct WorkerStatusSnapshot {
    pub name: String,
    pub state: String,
    pub interval_seconds: u64,
    pub last_update_unix: u64,
    pub last_error: Option<String>,
}

/// The index of the first worker from `k` on named `name`.
pub open spec fn first_named_from(ws: Seq<WorkerStatusSnapshot>, name: Seq<char>, k: int) -> Option<
    int,
>
    decreases ws.len() - k,
{
    if k < 0 || k >= ws.len() {
        None
    } else if ws[k].name@ == name {
        Some(k)
    } else {
        first_named_from(ws, name, k + 1)
    }
}

/// A worker state counts as healthy when, trimmed and in ASCII lower case,
/// it is `running` or `starting`.
pub open spec fn healthy_state(state: Seq<char>) -> bool {
    let s = ascii_lower_seq(spec_trim(state));
    s == "running"@ || s == "starting"@
}

/// ` (<error>)`, or nothing.
pub open spec fn error_suffix(e: Option<String>) -> Seq<char> {
    match e {
        Some(x) => " ("@ + x@ + ")"@,
        None => Seq::empty(),
    }
}

/// What is wrong with the worker `name`: it is missing, or the first worker
/// of that name is not healthy.
pub open spec fn worker_problem(ws: Seq<WorkerStatusSnapshot>, name: Seq<char>) -> Option<Seq<char>> {
    match first_named_from(ws, name, 0) {
        None => Some(name + " is missing from the supervisor snapshot"@),
        Some(i) => if healthy_state(ws[i].state@) {
            None
        } else {
            Some(ws[i].name@ + " is "@ + ws[i].state@ + error_suffix(ws[i].last_error))
        },
    }
}

/// The first problem of the two workers the service's controls depend on:
/// the control worker, then the IPC worker.
pub open spec fn spec_critical_worker_problem(ws: Seq<WorkerStatusSnapshot>) -> Option<Seq<char>> {
    match worker_problem(ws, "control-worker"@) {
        Some(p) => Some(p),
        None => worker_problem(ws, "ipc-worker"@),
    }
}

fn is_healthy_state(state: &str) -> (r: bool)
    ensures
        r == healthy_state(state@),
{
    let t = trim(state);
    let lower = ascii_lower_chars(t.as_slice());
    let running = chars_of("running");
    let starting = chars_of("starting");
    chars_equal(lower.as_slice(), running.as_slice()) || chars_equal(
        lower.as_slice(),
        starting.as_slice(),
    )
}

fn worker_problem_exec(workers: &[WorkerStatusSnapshot], name: &str) -> (r: Option<String>)
    ensures
        match worker_problem(workers@, name@) {
            Some(p) => r matches Some(m) && m@ == p,
            None => r is None,
        },
{
    let n = workers.len();
    let mut i: usize = 0;
    while i < n
        invariant
            n == workers@.len(),
            i <= n,
            first_named_from(workers@, name@, 0) == first_named_from(workers@, name@, i as int),
        decreases n - i,
    {
        let w = &workers[i];
        if text_equals(w.name.as_str(), name) {
            if is_healthy_state(w.state.as_str()) {
                return None;
            }
            let mut m = string_from(w.name.as_str());
            m.append(" is ");
            m.append(w.state.as_str());
            match &w.last_error {
                Some(e) => {
                    m.append(" (");
                    m.append(e.as_str());
                    m.append(")");
                },
                None => {},
            }
            assert(m@ =~= w.name@ + " is "@ + w.state@ + error_suffix(w.last_error));
            return Some(m);
        }
        i = i + 1;
    }
    let mut m = string_from(name);
    m.append(" is missing from the supervisor snapshot");
    Some(m)
}

/// The problem with the workers the service's controls need, if any: the
/// control worker and then the IPC worker must be listed and running or
/// starting.
pub fn critical_worker_problem(workers: &[WorkerStatusSnapshot]) -> (r: Option<String>)
    ensures
        match spec_critical_worker_problem(workers@) {
            Some(p) => r matches Some(m) && m@ == p,
            None => r is None,
        },
{
    match worker_problem_exec(workers, "control-worker") {
        Some(p) => Some(p),
        None => worker_problem_exec(workers, "ipc-worker"),
    }
}

/// Whether the service reports itself connected, and the detail it gives.
pub struct ServiceHealth {
    pub connected: bool,
    pub detail: String,
}

/// The service's own status: connected exactly when no critical worker has
/// a problem; otherwise the detail names the problem.
pub fn build_service_status(workers: &[WorkerStatusSnapshot]) -> (r: ServiceHealth)
    ensures
        r.connected == spec_critical_worker_problem(workers@) is None,
        match spec_critical_worker_problem(workers@) {
            Some(p) => r.detail@
                == "Connected to the AeroForge service named-pipe host, but service controls are degraded: "@
                + p + "."@,
            None => r.detail@ == "Connected to the AeroForge service named-pipe host."@,
        },
{
    match critical_worker_problem(workers) {
        Some(p) => {
            let mut detail = String::new();
            detail.append(
                "Connected to the AeroForge service named-pipe host, but service controls are degraded: ",
            );
            detail.append(p.as_str());
            detail.append(".");
            ServiceHealth { connected: false, detail }
        },
        None => ServiceHealth {
            connected: true,
            detail: String::from_str("Connected to the AeroForge service named-pipe host."),
        },
    }
}

// ----------------------------------------------------------------------------
// Snapshot files
// ----------------------------------------------------------------------------

/// `s` without its leading byte-order marks.
pub open spec fn strip_byte_order_marks(s: Seq<char>) -> Seq<char>
    decreases s.len(),
{
    if s.len() > 0 && s[0] == '\u{feff}' {
        strip_byte_order_marks(s.drop_first())
    } else {
        s
    }
}

/// A worker snapshot file's text as a JSON document, leading byte-order
/// marks skipped.
pub fn read_snapshot(raw: &str) -> (r: Result<serde_json::Value, String>)
    ensures
        r is Ok == json_text_parses(strip_byte_order_marks(raw@)),
        r matches Ok(doc) ==> json_from_text(strip_byte_order_marks(raw@)) == Some(doc),
{
    let v = chars_of(raw);
    let n = v.len();
    let mut a: usize = 0;
    assert(v@.subrange(0, n as int) =~= v@);
    while a < n && v[a] == '\u{feff}'
        invariant
            a <= n,
            n == v@.len(),
            strip_byte_order_marks(v@) == strip_byte_order_marks(v@.subrange(a as int, n as int)),
        decreases n - a,
    {
        assert(v@.subrange(a as int, n as int).drop_first() =~= v@.subrange(a + 1, n as int));
        a = a + 1;
    }
    let ghost rest = v@.subrange(a as int, n as int);
    assert(strip_byte_order_marks(rest) == rest) by {
        if rest.len() > 0 {
            assert(rest[0] == v@[a as int]);
        }
    }
    let mut kept: Vec<char> = Vec::new();
    let mut i: usize = a;
    while i < n
        invariant
            a <= i <= n,
            n == v@.len(),
            kept@ == v@.subrange(a as int, i as int),
        decreases n - i,
    {
        kept.push(v[i]);
        assert(v@.subrange(a as int, i + 1) =~= v@.subrange(a as int, i as int).push(v@[i as int]));
        i = i + 1;
    }
    let text = string_from_chars(kept.as_slice());
    parse_json_text(text.as_str())
}

// ----------------------------------------------------------------------------
// Requests and responses
// ----------------------------------------------------------------------------

/// The requests the pipe serves.
#[derive(Clone, Copy, Debug, PartialEq, Eq, Structural)]
pub enum PipeRequestKind {
    GetServiceStatus,
    GetCapabilities,
    GetControlSnapshot,
    GetTelemetrySnapshot,
    ApplyPowerProfile,
    ApplyGpuTuning,
    ApplyFanProfile,
    ApplyCustomFanCurves,
    ApplyBootLogo,
    ApplySmartCharging,
    ApplyTelemetrySettings,
}

/// The worker snapshot a read request answers with.
pub open spec fn spec_snapshot_name(kind: PipeRequestKind) -> Option<Seq<char>> {
    match kind {
        PipeRequestKind::GetCapabilities => Some("capabilities"@),
        PipeRequestKind::GetControlSnapshot => Some("control"@),
        PipeRequestKind::GetTelemetrySnapshot => Some("telemetry"@),
        _ => None,
    }
}

/// The worker snapshot a read request answers with (see [`spec_snapshot_name`]).
pub fn snapshot_name(kind: PipeRequestKind) -> (r: Option<&'static str>)
    ensures
        match spec_snapshot_name(kind) {
            Some(n) => r matches Some(s) && s@ == n,
            None => r is None,
        },
{
    match kind {
        PipeRequestKind::GetCapabilities => Some("capabilities"),
        PipeRequestKind::GetControlSnapshot => Some("control"),
        PipeRequestKind::GetTelemetrySnapshot => Some("telemetry"),
        _ => None,
    }
}

/// What an apply request applied, as its response names it.
pub open spec fn applied_label(kind: PipeRequestKind) -> Option<Seq<char>> {
    match kind {
        PipeRequestKind::ApplyPowerProfile => Some("power profile"@),
        PipeRequestKind::ApplyGpuTuning => Some("GPU tuning"@),
        PipeRequestKind::ApplyFanProfile => Some("fan profile"@),
        PipeRequestKind::ApplyCustomFanCurves => Some("custom fan curves"@),
        PipeRequestKind::ApplyBootLogo => Some("boot logo"@),
        PipeRequestKind::ApplySmartCharging => Some("smart charging"@),
        PipeRequestKind::ApplyTelemetrySettings => Some("telemetry settings"@),
        _ => None,
    }
}

fn applied_label_text(kind: PipeRequestKind) -> (r: &'static str)
    requires
        applied_label(kind) is Some,
    ensures
        applied_label(kind) == Some(r@),
{
    match kind {
        PipeRequestKind::ApplyPowerProfile => "power profile",
        PipeRequestKind::ApplyGpuTuning => "GPU tuning",
        PipeRequestKind::ApplyFanProfile => "fan profile",
        PipeRequestKind::ApplyCustomFanCurves => "custom fan curves",
        PipeRequestKind::ApplyBootLogo => "boot logo",
        PipeRequestKind::ApplySmartCharging => "smart charging",
        _ => "telemetry settings",
    }
}

/// How the work a request asked for ended.
pub enum RequestOutcome {
    /// It produced this document.
    Done(serde_json::Value),
    /// The change was applied, but its result could not be serialized (the
    /// serializer's message).
    Unserializable(String),
    /// It failed with this message.
    Failed(String),
}

/// The answer on the pipe.
pub enum PipeResponse {
    Success { payload: serde_json::Value },
    /// A success whose payload is the object `{"detail": ...}`.
    SuccessDetail { detail: String },
    Failure { message: String },
}

/// Answers a request from the outcome of its work: a document is sent as
/// it is, a failure as an error with its message, and an applied change
/// whose result could not be serialized as a success with a detail saying
/// so. (Only apply requests serialize a result.)
pub fn process_request(kind: PipeRequestKind, outcome: RequestOutcome) -> (r: PipeResponse)
    requires
        outcome is Unserializable ==> applied_label(kind) is Some,
    ensures
        outcome matches RequestOutcome::Done(v) ==> (r matches PipeResponse::Success { payload }
            && payload == v),
        outcome matches RequestOutcome::Failed(m) ==> (r matches PipeResponse::Failure { message }
            && message@ == m@),
        outcome matches RequestOutcome::Unserializable(e) ==> (r matches PipeResponse::SuccessDetail {
            detail,
        } && detail@ == "Applied "@ + applied_label(kind)->0
            + " but failed to serialize response: "@ + e@),
{
    match outcome {
        RequestOutcome::Done(v) => PipeResponse::Success { payload: v },
        RequestOutcome::Failed(m) => PipeResponse::Failure { message: m },
        RequestOutcome::Unserializable(e) => {
            let mut detail = String::new();
            detail.append("Applied ");
            detail.append(applied_label_text(kind));
            detail.append(" but failed to serialize response: ");
            detail.append(e.as_str());
            PipeResponse::SuccessDetail { detail }
        },
    }
}

} // verus!
