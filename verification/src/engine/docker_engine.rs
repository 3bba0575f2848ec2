//! The container-runtime backend's decisions: resource naming, start/stop
//! sequencing, raw-state mapping, statistics computation, log rendering and
//! routing labels, all as verified functions over plain values. The
//! asynchronous runtime calls themselves happen outside the library; their
//! outcomes are handed in as values.

use vstd::prelude::*;
use vstd::string::StringExecFns;

use crate::application::{Application, ApplicationStats, ApplicationStatus, CpuPercent};
use crate::config::traefik_config::TraefikConfig;
use crate::engine::errors::{
    canonical_code, classified_message, EngineError, EngineErrorKind, RuntimeFailure,
};

verus! {

/// The raw lifecycle state the container runtime reports for a resource,
/// prior to mapping into an [`ApplicationStatus`].
#[derive(Debug, Clone, Copy, PartialEq, Eq, Structural)]
pub enum RawContainerState {
    /// The resource was created but not started.
    Created,

    /// The resource is running.
    Running,

    /// The resource is paused.
    Paused,

    /// The resource is restarting.
    Restarting,

    /// The resource is being removed.
    Removing,

    /// The resource has exited.
    Exited,

    /// The resource is dead.
    Dead,

    /// Any other state the runtime may report.
    Other,
}

/// The application-level status each raw state maps to.
pub open spec fn raw_state_status(state: RawContainerState) -> ApplicationStatus {
    match state {
        RawContainerState::Created => ApplicationStatus::Starting,
        RawContainerState::Running => ApplicationStatus::Running,
        RawContainerState::Paused => ApplicationStatus::Stopped,
        RawContainerState::Restarting => ApplicationStatus::Starting,
        RawContainerState::Removing => ApplicationStatus::Stopping,
        RawContainerState::Exited => ApplicationStatus::Stopped,
        RawContainerState::Dead => ApplicationStatus::Stopped,
        RawContainerState::Other => ApplicationStatus::Unknown,
    }
}

/// Map one raw runtime state to the application-level status.
pub fn map_raw_state(state: RawContainerState) -> (r: ApplicationStatus)
    ensures
        r == raw_state_status(state),
{
    match state {
        RawContainerState::Created => ApplicationStatus::Starting,
        RawContainerState::Running => ApplicationStatus::Running,
        RawContainerState::Paused => ApplicationStatus::Stopped,
        RawContainerState::Restarting => ApplicationStatus::Starting,
        RawContainerState::Removing => ApplicationStatus::Stopping,
        RawContainerState::Exited => ApplicationStatus::Stopped,
        RawContainerState::Dead => ApplicationStatus::Stopped,
        RawContainerState::Other => ApplicationStatus::Unknown,
    }
}

/// Grace period, in seconds, granted to a resource to stop on its own before
/// the runtime kills it.
pub const STOP_GRACE_PERIOD_SECONDS: i64 = 10;

/// # The start sequence
/// Starting an application drives the runtime through four ordered calls:
/// pull the image, create the resource, attach it to the routing network,
/// start it. The phase names the call whose outcome the sequence waits for;
/// a failure at any phase aborts the later steps and classifies as a start
/// failure. A partial failure after creation leaves a created-but-unstarted
/// resource behind; the sequence does not roll back.
#[derive(Debug, Clone, PartialEq, Eq)]
pub enum StartPhase {
    /// Waiting for the image pull.
    PullImage,

    /// Waiting for the resource creation.
    CreateContainer,

    /// Waiting for the attachment to the routing network.
    ConnectNetwork,

    /// Waiting for the resource start.
    StartContainer,

    /// Every step succeeded.
    Done,

    /// A step failed; the start failure that aborted the sequence.
    Failed(EngineError),
}

/// The sequence still waits for a runtime call.
pub open spec fn start_in_progress(phase: StartPhase) -> bool {
    match phase {
        StartPhase::Done => false,
        StartPhase::Failed(_) => false,
        _ => true,
    }
}

/// The phase that follows a successful step: the fixed order pull, create,
/// connect, start.
pub open spec fn start_success_step(phase: StartPhase) -> StartPhase {
    match phase {
        StartPhase::PullImage => StartPhase::CreateContainer,
        StartPhase::CreateContainer => StartPhase::ConnectNetwork,
        StartPhase::ConnectNetwork => StartPhase::StartContainer,
        StartPhase::StartContainer => StartPhase::Done,
        StartPhase::Done => StartPhase::Done,
        StartPhase::Failed(e) => StartPhase::Failed(e),
    }
}

/// The operation and resource identity a failure at each phase reports.
pub open spec fn start_failure_context(
    phase: StartPhase,
    container_name: Seq<char>,
    network_name: Seq<char>,
) -> Seq<char> {
    match phase {
        StartPhase::PullImage => "Failed to pull the image for application "@ + container_name,
        StartPhase::CreateContainer => "Failed to create the container for application "@
            + container_name,
        StartPhase::ConnectNetwork => "Failed to attach the container for application "@
            + container_name + " to network "@ + network_name,
        StartPhase::StartContainer => "Failed to start the container for application "@
            + container_name,
        _ => Seq::<char>::empty(),
    }
}

/// # Advance the start sequence
/// Feed the outcome of the pending runtime call into the sequence: success
/// moves to the next step in order, failure aborts the sequence with a
/// classified start failure, and a finished sequence stays where it is.
pub fn start_advance(
    phase: StartPhase,
    container_name: &str,
    network_name: &str,
    outcome: Result<(), RuntimeFailure>,
) -> (r: StartPhase)
    ensures
        !start_in_progress(phase) ==> r == phase,
        start_in_progress(phase) && outcome is Ok ==> r == start_success_step(phase),
        start_in_progress(phase) ==> (outcome matches Err(failure) ==> r matches StartPhase::Failed(
            e,
        ) && e.kind == EngineErrorKind::CannotStart && e.code == canonical_code(failure)
            && e.message@ == classified_message(
            start_failure_context(phase, container_name@, network_name@),
            failure,
        )),
{
    if let StartPhase::Done = phase {
        return StartPhase::Done;
    }
    if let StartPhase::Failed(e) = phase {
        return StartPhase::Failed(e);
    }
    match outcome {
        Ok(()) => match phase {
            StartPhase::PullImage => StartPhase::CreateContainer,
            StartPhase::CreateContainer => StartPhase::ConnectNetwork,
            StartPhase::ConnectNetwork => StartPhase::StartContainer,
            StartPhase::StartContainer => StartPhase::Done,
            _ => phase,
        },
        Err(failure) => {
            let context = match phase {
                StartPhase::PullImage => String::from_str(
                    "Failed to pull the image for application ",
                ).concat(container_name),
                StartPhase::CreateContainer => String::from_str(
                    "Failed to create the container for application ",
                ).concat(container_name),
                StartPhase::ConnectNetwork => String::from_str(
                    "Failed to attach the container for application ",
                ).concat(container_name).concat(" to network ").concat(network_name),
                _ => String::from_str("Failed to start the container for application ").concat(
                    container_name,
                ),
            };
            StartPhase::Failed(
                EngineError::classify(EngineErrorKind::CannotStart, context, failure),
            )
        },
    }
}

/// # The stop sequence
/// Stopping an application stops the resource (with the bounded grace
/// period) and then removes it entirely — the resource is not retained in a
/// stopped state. The phase names the call whose outcome the sequence waits
/// for; a failure at either phase aborts as a stop failure. Stopping a
/// non-existent resource therefore fails: there is nothing to operate on.
#[derive(Debug, Clone, PartialEq, Eq)]
pub enum StopPhase {
    /// Waiting for the resource stop.
    StopContainer,

    /// Waiting for the resource removal.
    RemoveContainer,

    /// Both steps succeeded.
    Done,

    /// A step failed; the stop failure that aborted the sequence.
    Failed(EngineError),
}

/// The sequence still waits for a runtime call.
pub open spec fn stop_in_progress(phase: StopPhase) -> bool {
    match phase {
        StopPhase::Done => false,
        StopPhase::Failed(_) => false,
        _ => true,
    }
}

/// The phase that follows a successful step: stop, then remove.
pub open spec fn stop_success_step(phase: StopPhase) -> StopPhase {
    match phase {
        StopPhase::StopContainer => StopPhase::RemoveContainer,
        StopPhase::RemoveContainer => StopPhase::Done,
        StopPhase::Done => StopPhase::Done,
        StopPhase::Failed(e) => StopPhase::Failed(e),
    }
}

/// The operation and resource identity a failure at each phase reports.
pub open spec fn stop_failure_context(phase: StopPhase, container_name: Seq<char>) -> Seq<char> {
    match phase {
        StopPhase::StopContainer => "Failed to stop the container for application "@
            + container_name,
        StopPhase::RemoveContainer => "Failed to remove the container for application "@
            + container_name,
        _ => Seq::<char>::empty(),
    }
}

/// # Advance the stop sequence
/// Feed the outcome of the pending runtime call into the sequence: success
/// moves on (stop, then remove), any failure — a not-found answer included —
/// aborts the sequence with a classified stop failure. Callers that want
/// "stop if present" must treat not-found as non-fatal themselves.
pub fn stop_advance(phase: StopPhase, container_name: &str, outcome: Result<(), RuntimeFailure>) -> (r:
    StopPhase)
    ensures
        !stop_in_progress(phase) ==> r == phase,
        stop_in_progress(phase) && outcome is Ok ==> r == stop_success_step(phase),
        stop_in_progress(phase) ==> (outcome matches Err(failure) ==> r matches StopPhase::Failed(
            e,
        ) && e.kind == EngineErrorKind::CannotStop && e.code == canonical_code(failure)
            && e.message@ == classified_message(
            stop_failure_context(phase, container_name@),
            failure,
        )),
{
    if let StopPhase::Done = phase {
        return StopPhase::Done;
    }
    if let StopPhase::Failed(e) = phase {
        return StopPhase::Failed(e);
    }
    match outcome {
        Ok(()) => match phase {
            StopPhase::StopContainer => StopPhase::RemoveContainer,
            _ => StopPhase::Done,
        },
        Err(failure) => {
            let context = match phase {
                StopPhase::StopContainer => String::from_str(
                    "Failed to stop the container for application ",
                ).concat(container_name),
                _ => String::from_str("Failed to remove the container for application ").concat(
                    container_name,
                ),
            };
            StopPhase::Failed(EngineError::classify(EngineErrorKind::CannotStop, context, failure))
        },
    }
}

/// The result a restart reports, given what its two halves reported: a
/// restart is a best-effort stop whose result is deliberately swallowed —
/// "nothing to stop" is an expected steady state — followed by a start whose
/// result is returned unchanged.
pub open spec fn restart_result_spec(
    stop_result: Result<(), EngineError>,
    start_result: Result<(), EngineError>,
) -> Result<(), EngineError> {
    start_result
}

/// # Restart application
/// Combine the outcomes of a restart's two halves: the stop attempt's result
/// is ignored, the start's result is returned. A restart never fails solely
/// because nothing was running to stop.
pub fn restart_result(
    stop_result: Result<(), EngineError>,
    start_result: Result<(), EngineError>,
) -> (r: Result<(), EngineError>)
    ensures
        r == restart_result_spec(stop_result, start_result),
{
    let _ignored = stop_result;
    start_result
}

/// Law: for an application never started, querying the status is not an
/// error — the runtime answers not-found, which the engine reads as
/// `Stopped`.
pub proof fn lemma_never_started_reports_stopped(failure: RuntimeFailure)
    requires
        failure.server_status == Some(404u16),
    ensures
        status_of_inspect(InspectOutcome::Error(failure)) == Some(ApplicationStatus::Stopped),
{
}

/// Law: for an application successfully started, once the runtime settles
/// and reports the resource running, the observed status is `Running`.
pub proof fn lemma_running_state_reports_running(outcome: InspectOutcome)
    requires
        outcome == InspectOutcome::State(Some(RawContainerState::Running)),
    ensures
        status_of_inspect(outcome) == Some(ApplicationStatus::Running),
{
}

/// Law: restarting an application never started still succeeds and results
/// in `Running`: the internal stop attempt fails (there is nothing to stop)
/// and is swallowed, the start's success is the restart's result, and once
/// the runtime reports the started resource running the observed status is
/// `Running`.
pub proof fn lemma_restart_never_started(
    stop_result: Result<(), EngineError>,
    start_result: Result<(), EngineError>,
    observed: InspectOutcome,
)
    requires
        stop_result is Err,
        start_result is Ok,
        observed == InspectOutcome::State(Some(RawContainerState::Running)),
    ensures
        restart_result_spec(stop_result, start_result) is Ok,
        status_of_inspect(observed) == Some(ApplicationStatus::Running),
{
}

/// What inspecting a resource yielded: either the raw state (absent when the
/// runtime reported none) or a failed call.
#[derive(Debug, Clone, PartialEq, Eq)]
pub enum InspectOutcome {
    /// The inspection succeeded; the runtime may or may not have reported a
    /// state.
    State(Option<RawContainerState>),

    /// The inspection call failed.
    Error(RuntimeFailure),
}

/// The status observed for an inspect outcome, or `None` where the outcome is
/// a failure. A not-found answer is not a failure: absence is itself
/// meaningful state, and maps to `Stopped`.
pub open spec fn status_of_inspect(outcome: InspectOutcome) -> Option<ApplicationStatus> {
    match outcome {
        InspectOutcome::State(Some(state)) => Some(raw_state_status(state)),
        InspectOutcome::State(None) => Some(ApplicationStatus::Unknown),
        InspectOutcome::Error(failure) => if failure.server_status == Some(404u16) {
            Some(ApplicationStatus::Stopped)
        } else {
            None
        },
    }
}

/// # Get application status
/// Map what inspecting the resource yielded to the running status of a PaaS
/// application.
///
/// A not-found answer from the runtime is NOT an error — it maps to
/// `Stopped`; an application never started is therefore reported `Stopped`.
/// Any other failed inspection is a state-query failure.
pub fn get_application_status(container_name: &str, outcome: InspectOutcome) -> (r: Result<
    ApplicationStatus,
    EngineError,
>)
    ensures
        r is Ok <==> status_of_inspect(outcome) is Some,
        r matches Ok(status) ==> Some(status) == status_of_inspect(outcome),
        r matches Err(e) ==> outcome matches InspectOutcome::Error(failure)
            && failure.server_status != Some(404u16) && e.kind == EngineErrorKind::StateUnavailable
            && e.code == canonical_code(failure) && e.message@ == classified_message(
            "Failed to get the status for application "@ + container_name@,
            failure,
        ),
{
    match outcome {
        InspectOutcome::State(Some(state)) => Ok(map_raw_state(state)),
        InspectOutcome::State(None) => Ok(ApplicationStatus::Unknown),
        InspectOutcome::Error(failure) => {
            // Only report a non-failure result if the runtime answered 404
            let not_found = match failure.server_status {
                Some(s) => s == 404,
                None => false,
            };
            if not_found {
                Ok(ApplicationStatus::Stopped)
            } else {
                let context = String::from_str("Failed to get the status for application ").concat(
                    container_name,
                );
                Err(EngineError::classify(EngineErrorKind::StateUnavailable, context, failure))
            }
        },
    }
}

/// The name of the runtime resource derived from a container name: a fixed
/// prefix plus the name, so derivation itself is the lookup key.
pub open spec fn spec_container_name(container_name: Seq<char>) -> Seq<char> {
    "client-app_"@ + container_name
}

/// # Build container name
/// Construct the name of the runtime resource associated with a PaaS
/// application.
pub fn build_container_name(container_name: &str) -> (r: String)
    ensures
        r@ == spec_container_name(container_name@),
{
    String::from_str("client-app_").concat(container_name)
}

/// The reference of an application's image in the local cache: name and tag.
pub fn image_reference(image_name: &str, image_tag: &str) -> (r: String)
    ensures
        r@ == image_name@ + ":"@ + image_tag@,
{
    String::from_str(image_name).concat(":").concat(image_tag)
}

/// The four routing labels for a container name and domain, entry by entry:
/// the enable-routing flag, the entrypoint selection, the target port (fixed
/// at 80 — applications are assumed to listen on port 80 internally), and the
/// host-matching rule `{container_name}.user-app.{fqdn}`.
pub open spec fn traefik_labels_match(
    labels: Seq<(String, String)>,
    container_name: Seq<char>,
    fqdn: Seq<char>,
) -> bool {
    &&& labels.len() == 4
    &&& labels[0].0@ == "traefik.enable"@
    &&& labels[0].1@ == "true"@
    &&& labels[1].0@ == "traefik.http.routers."@ + container_name + ".entrypoints"@
    &&& labels[1].1@ == "websecure"@
    &&& labels[2].0@ == "traefik.http.services."@ + container_name + ".loadbalancer.server.port"@
    &&& labels[2].1@ == "80"@
    &&& labels[3].0@ == "traefik.http.routers."@ + container_name + ".rule"@
    &&& labels[3].1@ == container_name + ".user-app."@ + fqdn
}

/// # Build Traefik labels
/// Build the labels necessary for network routing: always exactly four
/// entries, purely derived from the descriptor and the routing
/// configuration, recomputed identically on every start.
///
/// This function will always route to port 80.
pub fn build_traefik_labels(app: &Application, traefik_config: &TraefikConfig) -> (r: Vec<
    (String, String),
>)
    ensures
        traefik_labels_match(r@, app.container_name@, traefik_config.fqdn@),
{
    let name = app.container_name.as_str();
    let mut labels: Vec<(String, String)> = Vec::new();
    labels.push((String::from_str("traefik.enable"), String::from_str("true")));
    labels.push(
        (
            String::from_str("traefik.http.routers.").concat(name).concat(".entrypoints"),
            String::from_str("websecure"),
        ),
    );
    labels.push(
        (
            String::from_str("traefik.http.services.").concat(name).concat(
                ".loadbalancer.server.port",
            ),
            String::from_str("80"),
        ),
    );
    labels.push(
        (
            String::from_str("traefik.http.routers.").concat(name).concat(".rule"),
            String::from_str(name).concat(".user-app.").concat(traefik_config.fqdn.as_str()),
        ),
    );
    labels
}

/// One environment variable flattened to the `KEY=VALUE` form the runtime
/// takes.
pub open spec fn env_entry(kv: (String, String)) -> Seq<char> {
    kv.0@ + "="@ + kv.1@
}

/// Flatten the environment of a descriptor into the `KEY=VALUE` list handed
/// to the runtime, in order.
pub fn flatten_env(env_variables: &Vec<(String, String)>) -> (r: Vec<String>)
    ensures
        r@.len() == env_variables@.len(),
        forall|i: int|
            0 <= i < r@.len() ==> (#[trigger] r@[i])@ == env_entry(env_variables@[i]),
{
    let mut r: Vec<String> = Vec::new();
    let mut i: usize = 0;
    while i < env_variables.len()
        invariant
            i == r@.len(),
            i <= env_variables@.len(),
            forall|j: int|
                0 <= j < r@.len() ==> (#[trigger] r@[j])@ == env_entry(env_variables@[j]),
        decreases env_variables@.len() - i,
    {
        let kv = &env_variables[i];
        r.push(String::from_str(kv.0.as_str()).concat("=").concat(kv.1.as_str()));
        i = i + 1;
    }
    r
}

/// One metrics snapshot of a resource: two consecutive CPU samples (the
/// current one and the one before it), the CPU count, and the memory
/// figures. Fields the runtime did not report are absent; absence is not an
/// error.
#[derive(Debug, Clone, Copy, PartialEq, Eq)]
pub struct StatsSample {
    /// Total CPU time consumed by the container, current sample.
    pub cpu_total_usage: u64,

    /// Total CPU time consumed by the container, previous sample.
    pub precpu_total_usage: u64,

    /// Total CPU time consumed by the whole system, current sample.
    pub system_cpu_usage: Option<u64>,

    /// Total CPU time consumed by the whole system, previous sample.
    pub presystem_cpu_usage: Option<u64>,

    /// Number of CPUs online for the container.
    pub online_cpus: Option<u64>,

    /// Current memory usage, in bytes.
    pub memory_usage: Option<u64>,

    /// Memory limit, in bytes.
    pub memory_limit: Option<u64>,
}

/// A possibly-unreported figure, read as zero where absent.
pub open spec fn reported_or_zero(value: Option<u64>) -> u64 {
    match value {
        Some(v) => v,
        None => 0,
    }
}

/// The CPU usage a snapshot yields: the ratio
/// `(cpu_delta / system_delta) * online_cpus * 100` percent when both deltas
/// are positive, exactly zero otherwise (the zero-floor).
pub open spec fn cpu_percent_of(sample: StatsSample) -> CpuPercent {
    let system = reported_or_zero(sample.system_cpu_usage);
    let presystem = reported_or_zero(sample.presystem_cpu_usage);
    if sample.cpu_total_usage > sample.precpu_total_usage && system > presystem {
        CpuPercent {
            cpu_delta: (sample.cpu_total_usage - sample.precpu_total_usage) as u64,
            system_delta: (system - presystem) as u64,
            online_cpus: reported_or_zero(sample.online_cpus),
        }
    } else {
        CpuPercent { cpu_delta: 0, system_delta: 1, online_cpus: 0 }
    }
}

/// # Compute the CPU usage
/// Compute the CPU usage over the snapshot's sampling interval, as the exact
/// ratio `(cpu_delta / system_delta) * online_cpus * 100` percent — with the
/// zero-floor: whenever either delta fails to be positive, the usage is
/// exactly zero.
pub fn compute_cpu_percent(sample: &StatsSample) -> (r: CpuPercent)
    ensures
        r == cpu_percent_of(*sample),
        r.wf(),
{
    let system: u64 = match sample.system_cpu_usage {
        Some(v) => v,
        None => 0,
    };
    let presystem: u64 = match sample.presystem_cpu_usage {
        Some(v) => v,
        None => 0,
    };
    if sample.cpu_total_usage > sample.precpu_total_usage && system > presystem {
        CpuPercent {
            cpu_delta: sample.cpu_total_usage - sample.precpu_total_usage,
            system_delta: system - presystem,
            online_cpus: match sample.online_cpus {
                Some(v) => v,
                None => 0,
            },
        }
    } else {
        CpuPercent { cpu_delta: 0, system_delta: 1, online_cpus: 0 }
    }
}

/// Law: the zero-floor of the CPU computation — whenever the container's
/// CPU time did not advance over the interval, or the system total did not,
/// the reported usage is exactly zero.
pub proof fn lemma_cpu_percent_zero_floor(sample: StatsSample)
    requires
        sample.cpu_total_usage <= sample.precpu_total_usage || reported_or_zero(
            sample.system_cpu_usage,
        ) <= reported_or_zero(sample.presystem_cpu_usage),
    ensures
        cpu_percent_of(sample) == (CpuPercent { cpu_delta: 0, system_delta: 1, online_cpus: 0 }),
        cpu_percent_of(sample).spec_is_zero(),
{
}

/// The statistics a snapshot yields: the memory figures as reported, and the
/// computed CPU usage.
pub open spec fn stats_of_sample(sample: StatsSample) -> ApplicationStats {
    ApplicationStats {
        memory_usage: sample.memory_usage,
        memory_limit: sample.memory_limit,
        cpu_usage: Some(cpu_percent_of(sample)),
    }
}

/// What the statistics call yielded: one snapshot, none (the resource exists
/// but metrics are momentarily unavailable), or a failed call.
#[derive(Debug, Clone, Copy, PartialEq, Eq)]
pub enum StatsOutcome<'a> {
    /// The call yielded one snapshot.
    Sample(StatsSample),

    /// The call yielded no snapshot; not an error.
    NoSample,

    /// The call failed.
    Error(&'a RuntimeFailure),
}

/// # Get stats
/// Map what the single, non-streaming statistics call yielded to the
/// resource-usage statistics of a PaaS application: a snapshot is reduced to
/// memory figures and computed CPU usage, no snapshot means metrics are
/// momentarily unavailable (`None`, not an error), and a failed call is a
/// stats failure.
pub fn get_stats(container_name: &str, outcome: StatsOutcome) -> (r: Result<
    Option<ApplicationStats>,
    EngineError,
>)
    ensures
        outcome matches StatsOutcome::Sample(sample) ==> r == Ok::<_, EngineError>(
            Some(stats_of_sample(sample)),
        ),
        outcome is NoSample ==> r == Ok::<_, EngineError>(None::<ApplicationStats>),
        outcome matches StatsOutcome::Error(failure) ==> r matches Err(e) && e.kind
            == EngineErrorKind::StatsUnavailable && e.code == canonical_code(*failure)
            && e.message@ == classified_message(
            "Failed to get the statistics for application "@ + container_name@,
            *failure,
        ),
{
    match outcome {
        StatsOutcome::Sample(sample) => Ok(
            Some(
                ApplicationStats {
                    memory_usage: sample.memory_usage,
                    memory_limit: sample.memory_limit,
                    cpu_usage: Some(compute_cpu_percent(&sample)),
                },
            ),
        ),
        StatsOutcome::NoSample => Ok(None),
        StatsOutcome::Error(failure) => {
            let context = String::from_str("Failed to get the statistics for application ").concat(
                container_name,
            );
            Err(EngineError::classify(EngineErrorKind::StatsUnavailable, context, failure.clone()))
        },
    }
}

/// How to remove an application's image from the local cache: which
/// reference to remove, and that removal is never forced — the runtime's own
/// reference semantics keep an image that another resource still uses.
#[derive(Debug, Clone, PartialEq, Eq)]
pub struct RemoveImagePlan {
    /// The image reference to remove: name and tag.
    pub image_reference: String,

    /// Never set: the engine must not force removal.
    pub force: bool,

    /// Never set: dangling parents are left to the runtime's default policy.
    pub noprune: bool,
}

/// # Plan an image removal
/// Compute the removal request for an application's cached image. The
/// removal is never forced, so an image still referenced by another resource
/// is left alone by the runtime's own reference semantics.
pub fn plan_remove_image(app: &Application) -> (r: RemoveImagePlan)
    ensures
        r.image_reference@ == app.image_name@ + ":"@ + app.image_tag@,
        !r.force,
        !r.noprune,
{
    RemoveImagePlan {
        image_reference: image_reference(app.image_name.as_str(), app.image_tag.as_str()),
        force: false,
        noprune: false,
    }
}

/// # Classify an image-removal failure
/// Map what the image-removal call yielded: success passes through, a failed
/// call is an image-removal failure naming the image and the application.
pub fn remove_image_result(app: &Application, outcome: Result<(), RuntimeFailure>) -> (r: Result<
    (),
    EngineError,
>)
    ensures
        outcome is Ok <==> r is Ok,
        outcome matches Err(failure) ==> r matches Err(e) && e.kind
            == EngineErrorKind::ImageRemovalFailed && e.code == canonical_code(failure)
            && e.message@ == classified_message(
            "Failed to remove the image "@ + app.image_name@ + ":"@ + app.image_tag@
                + " for application "@ + app.container_name@,
            failure,
        ),
{
    match outcome {
        Ok(()) => Ok(()),
        Err(failure) => {
            let context = String::from_str("Failed to remove the image ").concat(
                app.image_name.as_str(),
            ).concat(":").concat(app.image_tag.as_str()).concat(" for application ").concat(
                app.container_name.as_str(),
            );
            Err(EngineError::classify(EngineErrorKind::ImageRemovalFailed, context, failure))
        },
    }
}

/// # Classify a log-retrieval failure
/// Tag one failed item of the log stream as a logs failure naming the
/// application.
pub fn logs_failure(container_name: &str, failure: RuntimeFailure) -> (r: EngineError)
    ensures
        r.kind == EngineErrorKind::LogsUnavailable,
        r.code == canonical_code(failure),
        r.message@ == classified_message(
            "Failed to get the logs for application "@ + container_name@,
            failure,
        ),
{
    let context = String::from_str("Failed to get the logs for application ").concat(
        container_name,
    );
    EngineError::classify(EngineErrorKind::LogsUnavailable, context, failure)
}

/// The text one collected log item contributes: the chunk itself, or the
/// failure rendered as an error line.
pub open spec fn log_chunk_text(chunk: Result<String, EngineError>) -> Seq<char> {
    match chunk {
        Ok(v) => v@,
        Err(e) => "Error: "@ + e.message@,
    }
}

/// The rendered log output: every item's text, joined by line breaks.
pub open spec fn rendered_logs(chunks: Seq<Result<String, EngineError>>) -> Seq<char>
    decreases chunks.len(),
{
    if chunks.len() == 0 {
        Seq::empty()
    } else if chunks.len() == 1 {
        log_chunk_text(chunks[0])
    } else {
        rendered_logs(chunks.drop_last()) + "\n"@ + log_chunk_text(chunks.last())
    }
}

/// # Render collected logs
/// Combine a finite, fully consumed log stream into one output. An error
/// the stream ended with surfaces as an error rather than silently
/// truncating the output; otherwise the chunks — error items included,
/// rendered as error lines — are joined with line breaks.
pub fn render_logs(chunks: &Vec<Result<String, EngineError>>) -> (r: Result<String, EngineError>)
    ensures
        r is Err <==> (chunks@.len() > 0 && chunks@.last() is Err),
        r matches Err(e) ==> chunks@.last() matches Err(last) && e == last,
        r matches Ok(out) ==> out@ == rendered_logs(chunks@),
{
    if chunks.len() > 0 {
        if let Err(e) = &chunks[chunks.len() - 1] {
            return Err(e.clone());
        }
    }
    let mut out = String::new();
    let mut i: usize = 0;
    while i < chunks.len()
        invariant
            i <= chunks@.len(),
            out@ == rendered_logs(chunks@.take(i as int)),
        decreases chunks@.len() - i,
    {
        if i > 0 {
            out.append("\n");
        }
        match &chunks[i] {
            Ok(v) => out.append(v.as_str()),
            Err(e) => {
                out.append("Error: ");
                out.append(e.message.as_str());
            },
        }
        proof {
            assert(chunks@.take(i as int + 1).drop_last() =~= chunks@.take(i as int));
            assert(out@ =~= rendered_logs(chunks@.take(i as int + 1)));
        }
        i = i + 1;
    }
    proof {
        assert(chunks@.take(chunks@.len() as int) =~= chunks@);
    }
    Ok(out)
}

/// What listing the routing network by name yielded: how many networks
/// matched, or a failed call.
#[derive(Debug, Clone, PartialEq, Eq)]
pub enum NetworkListOutcome {
    /// The listing succeeded with this many matching networks.
    Networks(usize),

    /// The listing call failed.
    Error(RuntimeFailure),
}

/// What to do about the routing network when the engine is constructed.
#[derive(Debug, Clone, Copy, PartialEq, Eq, Structural)]
pub enum NetworkSetupAction {
    /// No network of the configured name exists: create it.
    Create,

    /// The network exists, or its existence could not be established: leave
    /// things as they are.
    Skip,
}

/// # Decide the network setup
/// On construction, the engine ensures the routing network exists: it is
/// created exactly when listing it succeeded and found none (idempotent —
/// listing before creating avoids duplicate-network errors). A failed
/// listing, like a failed creation, degrades routing but never construction.
pub fn network_setup_action(outcome: &NetworkListOutcome) -> (r: NetworkSetupAction)
    ensures
        r == NetworkSetupAction::Create <==> outcome matches NetworkListOutcome::Networks(0usize),
{
    match outcome {
        NetworkListOutcome::Networks(n) => if *n == 0 {
            NetworkSetupAction::Create
        } else {
            NetworkSetupAction::Skip
        },
        NetworkListOutcome::Error(_) => NetworkSetupAction::Skip,
    }
}

/// Everything the runtime needs to create an application's resource: its
/// derived name, the image to run, the flattened environment and the routing
/// labels.
#[derive(Debug, Clone, PartialEq, Eq)]
pub struct ContainerPlan {
    /// Derived name of the resource.
    pub name: String,

    /// Name of the image the resource runs.
    pub image: String,

    /// Flattened `KEY=VALUE` environment list.
    pub env: Vec<String>,

    /// Routing labels attached to the resource.
    pub labels: Vec<(String, String)>,
}

/// # Plan a start
/// Compute the resource configuration one start needs: the derived resource
/// name, the image, the flattened environment and the routing labels. Purely
/// derived from the descriptor and configuration; nothing is cached between
/// calls.
pub fn plan_container(app: &Application, traefik_config: &TraefikConfig) -> (r: ContainerPlan)
    ensures
        r.name@ == spec_container_name(app.container_name@),
        r.image == app.image_name,
        r.env@.len() == app.env_variables@.len(),
        forall|i: int|
            0 <= i < r.env@.len() ==> (#[trigger] r.env@[i])@ == env_entry(app.env_variables@[i]),
        traefik_labels_match(r.labels@, app.container_name@, traefik_config.fqdn@),
{
    ContainerPlan {
        name: build_container_name(app.container_name.as_str()),
        image: app.image_name.clone(),
        env: flatten_env(&app.env_variables),
        labels: build_traefik_labels(app, traefik_config),
    }
}

} // verus!
