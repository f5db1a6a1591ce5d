//! Per-device health state machine.
//!
//! `step` is the mathematical transition function on a device's counters;
//! `GpuHealthManager` keeps one record per device key and advances it by
//! `step`, emitting isolation actions on entry into `Unhealthy` and recovery
//! actions on the way from `Isolated` back to `Healthy`.
use vstd::prelude::*;
use crate::clock::now_millis;
use crate::detection::{copy_findings, DetectionResult, Finding, any_fatal};
use crate::device::DeviceId;

verus! {

/// Health state of one device.
#[derive(Debug, Clone, Copy, PartialEq, Eq, Structural)]
pub enum HealthState {
    /// Functioning normally.
    Healthy,
    /// Has failed checks, not yet confirmed.
    Suspected,
    /// Confirmed unhealthy; isolation is due.
    Unhealthy,
    /// The node has been isolated for this device.
    Isolated,
}

impl HealthState {
    /// Upper-case name of the state.
    pub fn name(&self) -> (r: &'static str)
        ensures
            r@ == match *self {
                HealthState::Healthy => "HEALTHY"@,
                HealthState::Suspected => "SUSPECTED"@,
                HealthState::Unhealthy => "UNHEALTHY"@,
                HealthState::Isolated => "ISOLATED"@,
            },
    {
        match self {
            HealthState::Healthy => "HEALTHY",
            HealthState::Suspected => "SUSPECTED",
            HealthState::Unhealthy => "UNHEALTHY",
            HealthState::Isolated => "ISOLATED",
        }
    }

    /// The value of the status gauge: 0 healthy, 1 suspected, 2 unhealthy,
    /// 3 isolated.
    pub fn status_code(&self) -> (r: u32)
        ensures
            r == match *self {
                HealthState::Healthy => 0u32,
                HealthState::Suspected => 1u32,
                HealthState::Unhealthy => 2u32,
                HealthState::Isolated => 3u32,
            },
    {
        match self {
            HealthState::Healthy => 0,
            HealthState::Suspected => 1,
            HealthState::Unhealthy => 2,
            HealthState::Isolated => 3,
        }
    }
}

/// An action for the orchestrator actuator.
#[derive(Debug, Clone, PartialEq, Eq)]
pub enum IsolationAction {
    /// Mark the node unschedulable.
    Cordon,
    /// Mark the node schedulable again.
    Uncordon,
    /// Add a taint to the node.
    Taint { key: String, value: String, effect: String },
    /// Remove the taint with this key.
    RemoveTaint { key: String },
    /// Evict the node's pods.
    EvictPods,
    /// Raise an alert.
    Alert { message: String, severity: String },
}

/// The mathematical value of an action.
pub enum ActionView {
    Cordon,
    Uncordon,
    Taint { key: Seq<char>, value: Seq<char>, effect: Seq<char> },
    RemoveTaint { key: Seq<char> },
    EvictPods,
    Alert { message: Seq<char>, severity: Seq<char> },
}

impl View for IsolationAction {
    type V = ActionView;

    open spec fn view(&self) -> ActionView {
        match self {
            IsolationAction::Cordon => ActionView::Cordon,
            IsolationAction::Uncordon => ActionView::Uncordon,
            IsolationAction::Taint { key, value, effect } => ActionView::Taint { key: key@, value: value@, effect: effect@ },
            IsolationAction::RemoveTaint { key } => ActionView::RemoveTaint { key: key@ },
            IsolationAction::EvictPods => ActionView::EvictPods,
            IsolationAction::Alert { message, severity } => ActionView::Alert { message: message@, severity: severity@ },
        }
    }
}

/// The views of a sequence of actions.
pub open spec fn action_views(a: Seq<IsolationAction>) -> Seq<ActionView> {
    a.map_values(|x: IsolationAction| x@)
}

/// The counters of a device's health record.
#[derive(Debug, Clone, Copy, PartialEq, Eq, Structural)]
pub struct HealthStatus {
    pub state: HealthState,
    pub failure_count: u32,
    pub recovery_count: u32,
}

/// The status of a device seen for the first time.
pub open spec fn fresh_status() -> HealthStatus {
    HealthStatus { state: HealthState::Healthy, failure_count: 0, recovery_count: 0 }
}

/// Parameters of the state machine.
pub struct MachineParams {
    /// Consecutive non-fatal failures that confirm a fault (N).
    pub failure_threshold: u32,
    /// Consecutive passes that end an isolation, when recovery is on (R).
    pub recovery_threshold: u32,
    /// Whether isolated devices may recover.
    pub recovery_enabled: bool,
}

/// Health record of one device.
#[derive(Debug, Clone)]
pub struct GpuHealth {
    /// The device.
    pub device: DeviceId,
    /// Current state.
    pub state: HealthState,
    /// Consecutive failed checks while healthy or suspected.
    pub failure_count: u32,
    /// Consecutive passed checks while isolated (recovery on).
    pub recovery_count: u32,
    /// Last update, milliseconds since the Unix epoch.
    pub last_check_ms: i64,
    /// Last change of state, milliseconds since the Unix epoch.
    pub state_changed_at_ms: i64,
    /// Findings that led to the current state.
    pub last_findings: Vec<Finding>,
}

impl GpuHealth {
    /// The counters of this record.
    pub open spec fn status(&self) -> HealthStatus {
        HealthStatus { state: self.state, failure_count: self.failure_count, recovery_count: self.recovery_count }
    }

    /// The counters of this record, as a value.
    pub fn status_value(&self) -> (r: HealthStatus)
        ensures
            r == self.status(),
    {
        HealthStatus { state: self.state, failure_count: self.failure_count, recovery_count: self.recovery_count }
    }

    /// A healthy record for a device seen for the first time.
    pub fn new(device: DeviceId) -> (r: GpuHealth)
        ensures
            r.device == device,
            r.status() == fresh_status(),
            r.last_findings@.len() == 0,
    {
        let now = now_millis();
        GpuHealth {
            device,
            state: HealthState::Healthy,
            failure_count: 0,
            recovery_count: 0,
            last_check_ms: now,
            state_changed_at_ms: now,
            last_findings: Vec::new(),
        }
    }

    /// A copy of this record.
    pub fn duplicate(&self) -> (r: GpuHealth)
        ensures
            r.device == self.device,
            r.status() == self.status(),
            r.last_check_ms == self.last_check_ms,
            r.state_changed_at_ms == self.state_changed_at_ms,
            r.last_findings@ == self.last_findings@,
    {
        GpuHealth {
            device: self.device.duplicate(),
            state: self.state,
            failure_count: self.failure_count,
            recovery_count: self.recovery_count,
            last_check_ms: self.last_check_ms,
            state_changed_at_ms: self.state_changed_at_ms,
            last_findings: copy_findings(&self.last_findings),
        }
    }
}

/// An input of the state machine.
#[derive(Debug, Clone)]
pub enum HealthEvent {
    /// A check passed.
    CheckPassed,
    /// A check failed with non-fatal findings only.
    CheckFailed { findings: Vec<Finding> },
    /// A check failed with a fatal finding.
    FatalError { findings: Vec<Finding> },
    /// The actuator applied the isolation actions.
    IsolationCompleted,
}

/// The findings an event carries.
pub open spec fn event_findings(e: HealthEvent) -> Seq<Finding> {
    match e {
        HealthEvent::CheckFailed { findings } => findings@,
        HealthEvent::FatalError { findings } => findings@,
        _ => Seq::empty(),
    }
}

/// The event a detection result stands for.
pub open spec fn event_of(r: DetectionResult) -> HealthEvent {
    if r.passed {
        HealthEvent::CheckPassed
    } else if any_fatal(r.findings@) {
        HealthEvent::FatalError { findings: r.findings }
    } else {
        HealthEvent::CheckFailed { findings: r.findings }
    }
}

/// What holds of the counters in every reachable status: healthy means no
/// failures, suspected means fewer than N, and only an isolated device
/// counts passes.
pub open spec fn status_ok(n: u32, s: HealthStatus) -> bool {
    match s.state {
        HealthState::Healthy => s.failure_count == 0 && s.recovery_count == 0,
        HealthState::Suspected => 1 <= s.failure_count < n && s.recovery_count == 0,
        HealthState::Unhealthy => s.recovery_count == 0,
        HealthState::Isolated => s.recovery_count < u32::MAX,
    }
}

/// The transition function.
pub open spec fn step(p: MachineParams, s: HealthStatus, e: HealthEvent) -> HealthStatus {
    match s.state {
        HealthState::Healthy => match e {
            HealthEvent::CheckPassed => HealthStatus { failure_count: 0, ..s },
            HealthEvent::CheckFailed { .. } => if 1 >= p.failure_threshold {
                HealthStatus { state: HealthState::Unhealthy, failure_count: 1, ..s }
            } else {
                HealthStatus { state: HealthState::Suspected, failure_count: 1, ..s }
            },
            HealthEvent::FatalError { .. } => HealthStatus {
                state: HealthState::Unhealthy,
                failure_count: p.failure_threshold,
                ..s
            },
            HealthEvent::IsolationCompleted => s,
        },
        HealthState::Suspected => match e {
            HealthEvent::CheckPassed => HealthStatus { state: HealthState::Healthy, failure_count: 0, ..s },
            HealthEvent::CheckFailed { .. } => {
                let c = (s.failure_count + 1) as u32;
                if c >= p.failure_threshold {
                    HealthStatus { state: HealthState::Unhealthy, failure_count: c, ..s }
                } else {
                    HealthStatus { failure_count: c, ..s }
                }
            },
            HealthEvent::FatalError { .. } => HealthStatus {
                state: HealthState::Unhealthy,
                failure_count: p.failure_threshold,
                ..s
            },
            HealthEvent::IsolationCompleted => s,
        },
        HealthState::Unhealthy => match e {
            HealthEvent::IsolationCompleted => HealthStatus { state: HealthState::Isolated, ..s },
            _ => s,
        },
        HealthState::Isolated => match e {
            HealthEvent::CheckPassed => if p.recovery_enabled {
                let c = (s.recovery_count + 1) as u32;
                if c >= p.recovery_threshold {
                    HealthStatus { state: HealthState::Healthy, failure_count: 0, recovery_count: 0 }
                } else {
                    HealthStatus { recovery_count: c, ..s }
                }
            } else {
                s
            },
            HealthEvent::CheckFailed { .. } => HealthStatus { recovery_count: 0, ..s },
            HealthEvent::FatalError { .. } => HealthStatus { recovery_count: 0, ..s },
            HealthEvent::IsolationCompleted => s,
        },
    }
}

/// The status after a sequence of events, applied in order.
pub open spec fn run(p: MachineParams, s: HealthStatus, evs: Seq<HealthEvent>) -> HealthStatus
    decreases evs.len(),
{
    if evs.len() == 0 {
        s
    } else {
        step(p, run(p, s, evs.drop_last()), evs.last())
    }
}

/// The finding messages joined with `, `.
pub open spec fn join_messages(fs: Seq<Finding>) -> Seq<char>
    decreases fs.len(),
{
    if fs.len() == 0 {
        Seq::empty()
    } else if fs.len() == 1 {
        fs[0].message@
    } else {
        join_messages(fs.drop_last()) + ", "@ + fs.last().message@
    }
}

/// The actions emitted on entry into `Unhealthy`.
pub open spec fn isolation_actions_view(
    key: Seq<char>,
    value: Seq<char>,
    effect: Seq<char>,
    label: Seq<char>,
    fs: Seq<Finding>,
) -> Seq<ActionView> {
    seq![
        ActionView::Cordon,
        ActionView::Taint { key, value, effect },
        ActionView::Alert {
            message: label + " marked unhealthy: "@ + join_messages(fs),
            severity: "critical"@,
        },
    ]
}

/// The actions emitted on recovery from `Isolated` to `Healthy`.
pub open spec fn recovery_actions_view(key: Seq<char>, label: Seq<char>) -> Seq<ActionView> {
    seq![
        ActionView::RemoveTaint { key },
        ActionView::Uncordon,
        ActionView::Alert { message: label + " recovered and restored to service"@, severity: "info"@ },
    ]
}

/// Result of one update of the state machine.
#[derive(Debug, Clone)]
pub struct StateTransition {
    /// State before.
    pub from: HealthState,
    /// State after.
    pub to: HealthState,
    /// Actions to perform, possibly none.
    pub actions: Vec<IsolationAction>,
    /// Whether the state changed.
    pub changed: bool,
}

impl StateTransition {
    pub(crate) fn no_change(state: HealthState) -> (r: StateTransition)
        ensures
            r.from == state,
            r.to == state,
            r.actions@.len() == 0,
            !r.changed,
    {
        StateTransition { from: state, to: state, actions: Vec::new(), changed: false }
    }

    pub(crate) fn transition(from: HealthState, to: HealthState, actions: Vec<IsolationAction>) -> (r: StateTransition)
        ensures
            r.from == from,
            r.to == to,
            r.actions == actions,
            r.changed == (from != to),
    {
        StateTransition { from, to, actions, changed: from != to }
    }
}

} // verus!
