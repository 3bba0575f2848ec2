//! The pure parts of the RPC facade: assembling a descriptor from request
//! fields, choosing between restart and plain start on a deploy, numbering
//! statuses for the wire, and mapping an engine error's canonical status
//! code to a transport-level error class.

use vstd::prelude::*;
use vstd::string::StringExecFns;

use crate::application::{Application, ApplicationStats, ApplicationStatus, CpuPercent};
use crate::engine::docker_engine::reported_or_zero;
use crate::engine::errors::EngineError;

verus! {

/// The transport-level error class a failed operation is rendered as.
#[derive(Debug, Clone, Copy, PartialEq, Eq, Structural)]
pub enum StatusClass {
    /// The resource is absent.
    NotFound,

    /// The request was malformed.
    InvalidArgument,

    /// The resource already exists.
    AlreadyExists,

    /// The operation is forbidden.
    PermissionDenied,

    /// The caller is not authenticated.
    Unauthenticated,

    /// The backend is unavailable.
    Unavailable,

    /// Any uncategorized failure.
    Internal,
}

/// The transport-level class of each canonical status code; everything
/// uncategorized defaults to an internal failure.
pub open spec fn status_class_of(code: u16) -> StatusClass {
    if code == 404 {
        StatusClass::NotFound
    } else if code == 400 {
        StatusClass::InvalidArgument
    } else if code == 409 {
        StatusClass::AlreadyExists
    } else if code == 403 {
        StatusClass::PermissionDenied
    } else if code == 401 {
        StatusClass::Unauthenticated
    } else if code == 503 {
        StatusClass::Unavailable
    } else {
        StatusClass::Internal
    }
}

/// # Translate error
/// Map an engine error to the transport-level error class of its canonical
/// status code.
pub fn translate_err(err: &EngineError) -> (r: StatusClass)
    ensures
        r == status_class_of(err.code),
{
    if err.code == 404 {
        StatusClass::NotFound
    } else if err.code == 400 {
        StatusClass::InvalidArgument
    } else if err.code == 409 {
        StatusClass::AlreadyExists
    } else if err.code == 403 {
        StatusClass::PermissionDenied
    } else if err.code == 401 {
        StatusClass::Unauthenticated
    } else if err.code == 503 {
        StatusClass::Unavailable
    } else {
        StatusClass::Internal
    }
}

/// The number each status is reported as on the wire.
pub open spec fn status_wire_code(status: ApplicationStatus) -> i32 {
    match status {
        ApplicationStatus::Unknown => 0i32,
        ApplicationStatus::Starting => 1i32,
        ApplicationStatus::Running => 2i32,
        ApplicationStatus::Stopping => 3i32,
        ApplicationStatus::Stopped => 4i32,
    }
}

/// Number a status for the wire.
pub fn container_status_code(status: ApplicationStatus) -> (r: i32)
    ensures
        r == status_wire_code(status),
{
    match status {
        ApplicationStatus::Unknown => 0,
        ApplicationStatus::Starting => 1,
        ApplicationStatus::Running => 2,
        ApplicationStatus::Stopping => 3,
        ApplicationStatus::Stopped => 4,
    }
}

/// What a deploy request does with the application.
#[derive(Debug, Clone, Copy, PartialEq, Eq, Structural)]
pub enum DeployAction {
    /// The application's status could be resolved: restart it.
    Restart,

    /// The status query failed: start it afresh.
    Start,
}

/// # Deploy decision
/// A deploy restarts the application when its current status could be
/// resolved, and falls back to a plain start when the status query failed.
pub fn deploy_action(status_result: &Result<ApplicationStatus, EngineError>) -> (r: DeployAction)
    ensures
        r == DeployAction::Restart <==> status_result is Ok,
{
    match status_result {
        Ok(_) => DeployAction::Restart,
        Err(_) => DeployAction::Start,
    }
}

/// The figures a statistics response reports: memory usage, memory limit,
/// and CPU usage, each read as zero where the runtime did not report it.
pub open spec fn statistics_figures(stats: ApplicationStats) -> (u64, u64, CpuPercent) {
    (
        reported_or_zero(stats.memory_usage),
        reported_or_zero(stats.memory_limit),
        match stats.cpu_usage {
            Some(c) => c,
            None => CpuPercent { cpu_delta: 0, system_delta: 1, online_cpus: 0 },
        },
    )
}

/// # Render a statistics response
/// Reduce an engine statistics result to the figures the response reports.
/// `None` — the resource exists but metrics are momentarily unavailable —
/// yields no figures, and the facade renders it as a not-found answer.
pub fn statistics_response(stats: &Option<ApplicationStats>) -> (r: Option<(u64, u64, CpuPercent)>)
    ensures
        r is Some <==> stats is Some,
        stats matches Some(s) ==> r == Some(statistics_figures(*s)),
{
    match stats {
        Some(s) => Some(
            (
                match s.memory_usage {
                    Some(v) => v,
                    None => 0,
                },
                match s.memory_limit {
                    Some(v) => v,
                    None => 0,
                },
                match s.cpu_usage {
                    Some(c) => c,
                    None => CpuPercent { cpu_delta: 0, system_delta: 1, online_cpus: 0 },
                },
            ),
        ),
        None => None,
    }
}

/// The status entries a bulk status query answers with: one entry, holding
/// the container name and the wire number of its status, for each queried
/// container whose status could be resolved, in query order; failed queries
/// are passed over.
pub open spec fn ok_status_entries(
    results: Seq<(String, Result<ApplicationStatus, EngineError>)>,
) -> Seq<(String, i32)>
    decreases results.len(),
{
    if results.len() == 0 {
        Seq::empty()
    } else {
        let rest = ok_status_entries(results.drop_last());
        match results.last().1 {
            Ok(status) => rest.push((results.last().0, status_wire_code(status))),
            Err(_) => rest,
        }
    }
}

/// # Collect status entries
/// Turn the per-container status results of a bulk status query into the
/// entries of its response: resolved statuses are numbered for the wire in
/// query order, failed queries are passed over rather than failing the
/// whole response.
pub fn get_status_entries(results: &Vec<(String, Result<ApplicationStatus, EngineError>)>) -> (r:
    Vec<(String, i32)>)
    ensures
        r@ == ok_status_entries(results@),
{
    let mut r: Vec<(String, i32)> = Vec::new();
    let mut i: usize = 0;
    while i < results.len()
        invariant
            i <= results@.len(),
            r@ == ok_status_entries(results@.take(i as int)),
        decreases results@.len() - i,
    {
        match &results[i].1 {
            Ok(status) => {
                r.push((results[i].0.clone(), container_status_code(*status)));
            },
            Err(_) => {
            },
        }
        proof {
            assert(results@.take(i as int + 1).drop_last() =~= results@.take(i as int));
        }
        i = i + 1;
    }
    proof {
        assert(results@.take(results@.len() as int) =~= results@);
    }
    r
}

/// # Get app
/// Assemble the application descriptor a request carries.
pub fn get_app(
    container_name: &str,
    image_name: &str,
    image_tag: &str,
    env_vars: Vec<(String, String)>,
) -> (r: Application)
    ensures
        r.container_name@ == container_name@,
        r.image_name@ == image_name@,
        r.image_tag@ == image_tag@,
        r.env_variables == env_vars,
{
    Application {
        container_name: String::from_str(container_name),
        image_name: String::from_str(image_name),
        image_tag: String::from_str(image_tag),
        env_variables: env_vars,
    }
}

} // verus!
