//! Plain data describing a PaaS application and what the engine observes of it.

use vstd::prelude::*;

verus! {

/// # PaaS application
/// Information about an application of the PaaS.
#[derive(Debug, Clone, PartialEq, Eq)]
pub struct Application {
    /// Name of the container.
    pub container_name: String,

    /// Name of the container image to deploy.
    pub image_name: String,

    /// Tag of the container image to deploy.
    pub image_tag: String,

    /// Environment variables to set in the container: key-value pairs with
    /// unique keys; their order carries no meaning.
    pub env_variables: Vec<(String, String)>,
}

impl Application {
    /// The keys of the environment variables, as a sequence of views.
    pub open spec fn env_keys(&self) -> Seq<Seq<char>> {
        self.env_variables@.map_values(|kv: (String, String)| kv.0@)
    }

    /// Well-formedness: environment variable keys are unique.
    pub open spec fn wf(&self) -> bool {
        forall|i: int, j: int|
            0 <= i < j < self.env_keys().len() ==> self.env_keys()[i] != self.env_keys()[j]
    }
}

impl Default for Application {
    /// An empty descriptor: all names empty, no environment variables.
    fn default() -> (r: Self)
        ensures
            r.container_name@ == Seq::<char>::empty(),
            r.image_name@ == Seq::<char>::empty(),
            r.image_tag@ == Seq::<char>::empty(),
            r.env_variables@ == Seq::<(String, String)>::empty(),
    {
        let r = Application {
            container_name: String::new(),
            image_name: String::new(),
            image_tag: String::new(),
            env_variables: Vec::new(),
        };
        proof {
            assert(r.env_variables@ =~= Seq::<(String, String)>::empty());
        }
        r
    }
}

/// # PaaS application status
/// Running status of a PaaS application, always derived from the raw state
/// the container runtime reports; callers never construct it directly.
#[derive(Debug, Clone, Copy, PartialEq, Eq, Structural)]
pub enum ApplicationStatus {
    /// The application status couldn't be retrieved.
    Unknown,

    /// The application is starting or restarting.
    Starting,

    /// The application is running.
    Running,

    /// The application is stopping.
    Stopping,

    /// The application has exited, is dead or is paused.
    Stopped,
}

impl Default for ApplicationStatus {
    /// The safe default when the raw state is absent or unrecognized.
    fn default() -> (r: Self)
        ensures
            r == ApplicationStatus::Unknown,
    {
        ApplicationStatus::Unknown
    }
}

/// # CPU usage
/// CPU usage of an application over one sampling interval, kept as the exact
/// ratio `(cpu_delta / system_delta) * online_cpus * 100` percent.
///
/// The fields are the factors of that ratio, unreduced, so the value is
/// carried without rounding; whoever renders it divides.
#[derive(Debug, Clone, Copy, PartialEq, Eq, Structural)]
pub struct CpuPercent {
    /// CPU time consumed by the container over the interval.
    pub cpu_delta: u64,

    /// CPU time consumed by the whole system over the interval; never zero.
    pub system_delta: u64,

    /// Number of CPUs online for the container.
    pub online_cpus: u64,
}

impl CpuPercent {
    /// The percentage is exactly zero.
    pub open spec fn spec_is_zero(&self) -> bool {
        self.cpu_delta == 0 || self.online_cpus == 0
    }

    /// Usable as a percentage: the denominator is positive.
    pub open spec fn wf(&self) -> bool {
        self.system_delta > 0
    }

    /// Whether the percentage is exactly zero.
    pub fn is_zero(&self) -> (r: bool)
        ensures
            r == self.spec_is_zero(),
    {
        self.cpu_delta == 0 || self.online_cpus == 0
    }
}

/// # PaaS application statistics
/// Statistics about the resource usage of a PaaS application. Every field is
/// optional because the runtime may not report some metrics for a given
/// container; absence is not an error.
#[derive(Debug, Clone, Copy, PartialEq, Eq)]
pub struct ApplicationStats {
    /// Current memory usage, in bytes.
    pub memory_usage: Option<u64>,

    /// Memory limit, in bytes.
    pub memory_limit: Option<u64>,

    /// Current CPU usage, in percent.
    pub cpu_usage: Option<CpuPercent>,
}

} // verus!
