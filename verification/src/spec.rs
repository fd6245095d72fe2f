//! Immutable launch specifications and manager options.

use crate::host::Host;
use crate::kind::CoreKind;
use crate::share::copy_text;
use vstd::prelude::*;

verus! {

/// Which core binary to run.
#[derive(Debug, PartialEq, Eq)]
pub struct CoreSpec {
    pub kind: CoreKind,
    pub binary_path: String,
    /// Display metadata provided by the caller; not interpreted here.
    pub version: Option<String>,
    pub features: Vec<String>,
}

/// When the supervisor restarts a core that exited.
#[derive(Debug, Clone, Copy, PartialEq, Eq, Structural)]
pub enum RestartPolicy {
    Never,
    OnFailure { max_restarts: u32 },
}

/// Exponential backoff between restarts, in milliseconds.
#[derive(Debug, Clone, Copy, PartialEq, Eq, Structural)]
pub struct Backoff {
    pub initial_ms: u64,
    pub max_ms: u64,
    pub jitter: bool,
}

/// How often the health probe runs and what its results mean. Times are in
/// milliseconds.
#[derive(Debug, Clone, Copy, PartialEq, Eq, Structural)]
pub struct HealthPolicy {
    pub interval_ms: u64,
    pub timeout_ms: u64,
    pub failure_threshold: u32,
    pub success_threshold: u32,
    pub start_period_ms: u64,
}

impl Default for HealthPolicy {
    fn default() -> (res: Self)
        ensures
            res == (HealthPolicy {
                interval_ms: 250,
                timeout_ms: 1000,
                failure_threshold: 3,
                success_threshold: 1,
                start_period_ms: 0,
            }),
    {
        HealthPolicy {
            interval_ms: 250,
            timeout_ms: 1000,
            failure_threshold: 3,
            success_threshold: 1,
            start_period_ms: 0,
        }
    }
}

/// Supervision settings of one instance.
#[derive(Debug, Clone, Copy, PartialEq, Eq, Structural)]
pub struct InstanceOptions {
    /// Total limit for the initial start, from spawn to readiness.
    pub startup_timeout_ms: u64,
    pub health: HealthPolicy,
    pub restart_policy: RestartPolicy,
    pub backoff: Backoff,
}

impl Default for InstanceOptions {
    fn default() -> (res: Self)
        ensures
            res.startup_timeout_ms == 30_000,
            res.health == (HealthPolicy {
                interval_ms: 250,
                timeout_ms: 1000,
                failure_threshold: 3,
                success_threshold: 1,
                start_period_ms: 0,
            }),
            res.restart_policy == (RestartPolicy::OnFailure { max_restarts: 5 }),
            res.backoff == (Backoff { initial_ms: 1000, max_ms: 30_000, jitter: true }),
    {
        InstanceOptions {
            startup_timeout_ms: 30_000,
            health: HealthPolicy::default(),
            restart_policy: RestartPolicy::OnFailure { max_restarts: 5 },
            backoff: Backoff { initial_ms: 1000, max_ms: 30_000, jitter: true },
        }
    }
}

/// Immutable launch spec of one epoch. Changing the config means a new epoch.
#[derive(Debug, PartialEq, Eq)]
pub struct InstanceSpec {
    pub core: CoreSpec,
    pub config_path: String,
    pub working_dir: String,
    pub pid_file: Option<String>,
    pub options: InstanceOptions,
}

/// The probe and control endpoint an instance actually uses.
#[derive(Debug, PartialEq, Eq)]
pub struct ResolvedController {
    pub host: Host,
    pub secret: Option<String>,
}

impl Clone for ResolvedController {
    fn clone(&self) -> (res: Self)
        ensures
            res == *self,
    {
        ResolvedController { host: self.host.clone(), secret: copy_text(&self.secret) }
    }
}

/// How the manager learns and controls the core's external controller.
#[derive(Debug, PartialEq, Eq)]
pub enum ControllerMode {
    /// Start the config as it is; extract the probe endpoint from it.
    Passthrough,
    /// Rewrite the config to a manager-owned local endpoint, one per epoch.
    Managed {
        /// Where derived configs (and default unix sockets) live.
        derived_dir: String,
        /// Endpoint template containing `{epoch}`; platform default when `None`.
        controller_template: Option<String>,
    },
}

impl Default for ControllerMode {
    fn default() -> (res: Self)
        ensures
            res == ControllerMode::Passthrough,
    {
        ControllerMode::Passthrough
    }
}

/// Settings of a manager. Times are in milliseconds.
#[derive(Debug, PartialEq, Eq)]
pub struct ManagerOptions {
    pub controller_mode: ControllerMode,
    /// Manager-owned directory of runtime artifacts. Required for
    /// `Passthrough`; `Managed` falls back to its `derived_dir`.
    pub runtime_dir: Option<String>,
    pub control_timeout_ms: u64,
    pub reconcile_timeout_ms: u64,
    pub stop_timeout_ms: u64,
}

impl Default for ManagerOptions {
    fn default() -> (res: Self)
        ensures
            res == (ManagerOptions {
                controller_mode: ControllerMode::Passthrough,
                runtime_dir: None,
                control_timeout_ms: 10_000,
                reconcile_timeout_ms: 30_000,
                stop_timeout_ms: 10_000,
            }),
    {
        ManagerOptions {
            controller_mode: ControllerMode::default(),
            runtime_dir: None,
            control_timeout_ms: 10_000,
            reconcile_timeout_ms: 30_000,
            stop_timeout_ms: 10_000,
        }
    }
}

} // verus!
