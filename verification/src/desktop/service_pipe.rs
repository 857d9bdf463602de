//! The shell's side of the service pipe: the payloads the service answers
//! apply requests with, the status shown when the pipe cannot be reached,
//! and how a reply line is validated.
use vstd::prelude::*;

use super::models::{
    FanCurveSet, FanProfileId, GpuTuningState, PowerProfileId, ProcessorStateSettings,
    ServiceStatus, ServiceWorkerStatus,
};
use crate::text::{seq_contains, spec_trim, string_from, text_contains, trim};

verus! {

/// The named pipe of the service.
pub const PIPE_PATH: &'static str = "\\\\.\\pipe\\AeroForgeService";

/// The Windows service name.
pub const SERVICE_NAME: &'static str = "AeroForgeService";

/// The supervisor snapshot the service leaves in its state directory.
#[derive(Clone, Debug)]
pub struct CachedSupervisorSnapshot {
    pub service: String,
    pub worker_count: usize,
    pub updated_at_unix: Option<u64>,
    pub workers: Vec<ServiceWorkerStatus>,
}

/// The service's answer to a power-profile apply.
#[derive(Clone, Debug)]
pub struct AppliedPowerProfilePayload {
    pub profile_id: PowerProfileId,
    pub processor_state: ProcessorStateSettings,
}

/// The service's answer to a GPU-tuning apply.
#[derive(Clone, Debug)]
pub struct AppliedGpuTuningPayload {
    pub tuning: GpuTuningState,
    pub applied_at_unix: u64,
    pub detail: String,
}

/// The service's answer to a fan apply.
#[derive(Clone, Debug)]
pub struct AppliedFanControlPayload {
    pub profile_id: FanProfileId,
    pub curves: Option<FanCurveSet>,
    pub applied_at_unix: u64,
    pub detail: String,
}

/// The service's answer to a boot-logo apply.
#[derive(Clone, Debug)]
pub struct AppliedBootLogoPayload {
    pub applied_at_unix: u64,
    pub detail: String,
}

/// Why the pipe could not be used: a missing pipe (`os error 2`) means the
/// service is not installed or not running.
pub open spec fn pipe_failure_detail(pipe_error: Seq<char>) -> Seq<char> {
    if seq_contains(pipe_error, "os error 2"@) {
        "AeroForgeService is not installed or is not running. Install AeroForge with the setup installer, or start AeroForgeService. Raw pipe error: "@
            + pipe_error
    } else {
        "Service unavailable: "@ + pipe_error
    }
}

/// The status shown when the pipe cannot be reached: not connected, with
/// the workers of the cached supervisor snapshot when one could be read
/// (the service name and no workers otherwise), and a detail that says why
/// and, when the supervisor file exists, that the cache was loaded from it.
pub fn fetch_cached_service_status(
    pipe_error: &str,
    cached: Option<CachedSupervisorSnapshot>,
    supervisor_file_exists: bool,
    state_dir: &str,
    supervisor_file: &str,
) -> (r: ServiceStatus)
    ensures
        !r.connected,
        r.pipe_name@ == PIPE_PATH@,
        r.version is None,
        r.state_dir matches Some(d) && d@ == state_dir@,
        r.supervisor_file matches Some(f) && f@ == supervisor_file@,
        cached matches Some(c) ==> r.service_name == c.service && r.worker_count == c.worker_count
            && r.updated_at_unix == c.updated_at_unix && r.workers@ == c.workers@,
        cached is None ==> r.service_name@ == SERVICE_NAME@ && r.worker_count == 0
            && r.updated_at_unix is None && r.workers@.len() == 0,
        supervisor_file_exists ==> r.detail@ == pipe_failure_detail(pipe_error@) + ". Loaded cached supervisor snapshot from "@
            + supervisor_file@ + "."@,
        !supervisor_file_exists ==> r.detail@ == pipe_failure_detail(pipe_error@),
{
    let (service_name, worker_count, updated_at_unix, workers) = match cached {
        Some(c) => (c.service, c.worker_count, c.updated_at_unix, c.workers),
        None => (string_from(SERVICE_NAME), 0, None, Vec::new()),
    };
    let mut detail = String::new();
    if text_contains(pipe_error, "os error 2") {
        detail.append(
            "AeroForgeService is not installed or is not running. Install AeroForge with the setup installer, or start AeroForgeService. Raw pipe error: ",
        );
    } else {
        detail.append("Service unavailable: ");
    }
    detail.append(pipe_error);
    if supervisor_file_exists {
        detail.append(". Loaded cached supervisor snapshot from ");
        detail.append(supervisor_file);
        detail.append(".");
    }
    ServiceStatus {
        connected: false,
        pipe_name: string_from(PIPE_PATH),
        service_name,
        version: None,
        state_dir: Some(string_from(state_dir)),
        supervisor_file: Some(string_from(supervisor_file)),
        worker_count,
        updated_at_unix,
        workers,
        detail,
    }
}

/// A reply line from the pipe must hold more than white space.
pub fn check_reply_line(line: &str) -> (r: Result<(), String>)
    ensures
        spec_trim(line@).len() > 0 ==> r is Ok,
        spec_trim(line@).len() == 0 ==> (r matches Err(e) && e@
            == "Named pipe returned an empty response"@),
{
    let t = trim(line);
    if t.len() == 0 {
        Err(string_from("Named pipe returned an empty response"))
    } else {
        Ok(())
    }
}

} // verus!
