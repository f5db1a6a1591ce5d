//! The table of per-device health records.
use vstd::prelude::*;
use crate::clock::now_millis;
use crate::detection::{copy_findings, DetectionResult, Finding};
use crate::device::{DeviceId, device_key, device_key_spec, device_label};
use crate::state_machine::{
    ActionView, GpuHealth, HealthEvent, HealthState, HealthStatus, IsolationAction, MachineParams,
    StateTransition, action_views, event_findings, event_of, fresh_status, isolation_actions_view,
    join_messages, recovery_actions_view, status_ok, step,
};
use crate::text::{join2, owned};

verus! {

/// The key a record is filed under.
pub open spec fn record_key(h: GpuHealth) -> Seq<char> {
    device_key_spec(h.device)
}

/// The records as a map from device key to record; a later record wins.
pub open spec fn records_map(recs: Seq<GpuHealth>) -> Map<Seq<char>, GpuHealth>
    decreases recs.len(),
{
    if recs.len() == 0 {
        Map::empty()
    } else {
        records_map(recs.drop_last()).insert(record_key(recs.last()), recs.last())
    }
}

/// No two records share a key.
pub open spec fn keys_unique(recs: Seq<GpuHealth>) -> bool {
    forall|i: int, j: int|
        0 <= i < recs.len() && 0 <= j < recs.len() && i != j ==> record_key(#[trigger] recs[i]) != record_key(
            #[trigger] recs[j],
        )
}

proof fn lemma_records_map_index(recs: Seq<GpuHealth>, i: int)
    requires
        keys_unique(recs),
        0 <= i < recs.len(),
    ensures
        records_map(recs).contains_key(record_key(recs[i])),
        records_map(recs)[record_key(recs[i])] == recs[i],
    decreases recs.len(),
{
    if i < recs.len() - 1 {
        let d = recs.drop_last();
        assert(d[i] == recs[i]);
        assert(keys_unique(d)) by {
            assert forall|a: int, b: int| 0 <= a < d.len() && 0 <= b < d.len() && a != b
                implies record_key(#[trigger] d[a]) != record_key(#[trigger] d[b]) by {
                assert(d[a] == recs[a] && d[b] == recs[b]);
            }
        }
        lemma_records_map_index(d, i);
        assert(record_key(recs[recs.len() - 1]) != record_key(recs[i]));
    }
}

proof fn lemma_records_map_absent(recs: Seq<GpuHealth>, k: Seq<char>)
    requires
        forall|i: int| 0 <= i < recs.len() ==> record_key(#[trigger] recs[i]) != k,
    ensures
        !records_map(recs).contains_key(k),
    decreases recs.len(),
{
    if recs.len() > 0 {
        let d = recs.drop_last();
        assert forall|i: int| 0 <= i < d.len() implies record_key(#[trigger] d[i]) != k by {
            assert(d[i] == recs[i]);
        }
        lemma_records_map_absent(d, k);
        assert(record_key(recs[recs.len() - 1]) != k);
    }
}

proof fn lemma_keys_unique_drop_last(recs: Seq<GpuHealth>)
    requires
        keys_unique(recs),
        recs.len() > 0,
    ensures
        keys_unique(recs.drop_last()),
{
    let d = recs.drop_last();
    assert forall|a: int, b: int| 0 <= a < d.len() && 0 <= b < d.len() && a != b
        implies record_key(#[trigger] d[a]) != record_key(#[trigger] d[b]) by {
        assert(d[a] == recs[a] && d[b] == recs[b]);
    }
}

proof fn lemma_records_map_update(recs: Seq<GpuHealth>, i: int, h: GpuHealth)
    requires
        keys_unique(recs),
        0 <= i < recs.len(),
        record_key(h) == record_key(recs[i]),
    ensures
        records_map(recs.update(i, h)) == records_map(recs).insert(record_key(h), h),
    decreases recs.len(),
{
    let u = recs.update(i, h);
    let d = recs.drop_last();
    if i == recs.len() - 1 {
        assert(u.drop_last() =~= d);
        assert(records_map(u) =~= records_map(recs).insert(record_key(h), h));
    } else {
        lemma_keys_unique_drop_last(recs);
        assert(u.drop_last() =~= d.update(i, h));
        assert(d[i] == recs[i]);
        lemma_records_map_update(d, i, h);
        assert(record_key(recs[recs.len() - 1]) != record_key(recs[i]));
        assert(u.last() == recs.last());
        assert(records_map(u) =~= records_map(recs).insert(record_key(h), h));
    }
}

proof fn lemma_records_map_push(recs: Seq<GpuHealth>, h: GpuHealth)
    ensures
        records_map(recs.push(h)) == records_map(recs).insert(record_key(h), h),
{
    assert(recs.push(h).drop_last() =~= recs);
}

/// Joins the messages of `fs` with `, `.
fn joined_messages(fs: &Vec<Finding>) -> (r: String)
    ensures
        r@ == join_messages(fs@),
{
    let mut r = String::new();
    let mut i: usize = 0;
    while i < fs.len()
        invariant
            i <= fs@.len(),
            r@ == join_messages(fs@.subrange(0, i as int)),
        decreases fs@.len() - i,
    {
        assert(fs@.subrange(0, i + 1).drop_last() =~= fs@.subrange(0, i as int));
        if i == 0 {
            r = fs[0].message.clone();
        } else {
            r.append(", ");
            r.append(fs[i].message.as_str());
        }
        i = i + 1;
    }
    assert(fs@.subrange(0, fs@.len() as int) =~= fs@);
    r
}

/// The findings a record keeps after an event: a failure from `Healthy` or
/// `Suspected` records its findings, a pass out of `Suspected` or a recovery
/// clears them, anything else keeps them.
pub open spec fn findings_after(from: HealthState, to: HealthState, e: HealthEvent, old: Seq<Finding>) -> Seq<Finding> {
    if (from == HealthState::Healthy || from == HealthState::Suspected) && (e is CheckFailed || e is FatalError) {
        event_findings(e)
    } else if e is CheckPassed && (from == HealthState::Suspected || (from == HealthState::Isolated && to == HealthState::Healthy)) {
        Seq::empty()
    } else {
        old
    }
}

/// The actions of one update: isolation actions on entry into `Unhealthy`,
/// recovery actions from `Isolated` to `Healthy`, none otherwise.
pub open spec fn step_actions(
    taint: (Seq<char>, Seq<char>, Seq<char>),
    label: Seq<char>,
    p: MachineParams,
    s: HealthStatus,
    e: HealthEvent,
) -> Seq<ActionView> {
    let t = step(p, s, e);
    if t.state == HealthState::Unhealthy && s.state != HealthState::Unhealthy {
        isolation_actions_view(taint.0, taint.1, taint.2, label, event_findings(e))
    } else if t.state == HealthState::Healthy && s.state == HealthState::Isolated {
        recovery_actions_view(taint.0, label)
    } else {
        Seq::empty()
    }
}

/// Tracks the health of every device seen and applies the transition rules.
pub struct GpuHealthManager {
    health: Vec<GpuHealth>,
    failure_threshold: u32,
    recovery_threshold: u32,
    recovery_enabled: bool,
    fatal_xids: Vec<u32>,
    taint_key: String,
    taint_value: String,
    taint_effect: String,
}

impl View for GpuHealthManager {
    type V = Map<Seq<char>, GpuHealth>;

    closed spec fn view(&self) -> Map<Seq<char>, GpuHealth> {
        records_map(self.health@)
    }
}

impl GpuHealthManager {
    /// The records, in the order devices were first seen.
    pub closed spec fn records(&self) -> Seq<GpuHealth> {
        self.health@
    }

    /// The state-machine parameters.
    pub closed spec fn params(&self) -> MachineParams {
        MachineParams {
            failure_threshold: self.failure_threshold,
            recovery_threshold: self.recovery_threshold,
            recovery_enabled: self.recovery_enabled,
        }
    }

    /// Taint key, value and effect of the isolation actions.
    pub closed spec fn taint(&self) -> (Seq<char>, Seq<char>, Seq<char>) {
        (self.taint_key@, self.taint_value@, self.taint_effect@)
    }

    /// The fault codes this manager was configured with.
    pub closed spec fn fatal_codes(&self) -> Seq<u32> {
        self.fatal_xids@
    }

    /// Keys are unique, every record holds a reachable status, and the map
    /// view is the record table.
    pub closed spec fn wf(&self) -> bool {
        &&& keys_unique(self.health@)
        &&& forall|i: int| 0 <= i < self.health@.len() ==> status_ok(
            self.failure_threshold,
            (#[trigger] self.health@[i]).status(),
        )
    }

    /// The status a device has before an update: its record's, or the fresh
    /// status if it has none yet.
    pub open spec fn status_of(&self, k: Seq<char>) -> HealthStatus {
        if self@.contains_key(k) {
            self@[k].status()
        } else {
            fresh_status()
        }
    }

    /// Every record of the table holds a reachable status.
    pub proof fn lemma_status_ok(&self, k: Seq<char>)
        requires
            self.wf(),
        ensures
            status_ok(self.params().failure_threshold, self.status_of(k)),
            self@.contains_key(k) ==> record_key(self@[k]) == k,
    {
        if self@.contains_key(k) {
            let i = self.index_of_key(k);
            lemma_records_map_index(self.health@, i);
        }
    }

    proof fn index_of_key(&self, k: Seq<char>) -> (i: int)
        requires
            self.wf(),
            self@.contains_key(k),
        ensures
            0 <= i < self.health@.len(),
            record_key(self.health@[i]) == k,
            self@[k] == self.health@[i],
    {
        if forall|i: int| 0 <= i < self.health@.len() ==> record_key(#[trigger] self.health@[i]) != k {
            lemma_records_map_absent(self.health@, k);
            assert(false);
            0
        } else {
            let i = choose|i: int| 0 <= i < self.health@.len() && record_key(#[trigger] self.health@[i]) == k;
            lemma_records_map_index(self.health@, i);
            i
        }
    }

    /// A manager with failure threshold N and recovery off.
    pub fn new(failure_threshold: u32, fatal_xids: Vec<u32>) -> (r: GpuHealthManager)
        ensures
            r.wf(),
            r@ == Map::<Seq<char>, GpuHealth>::empty(),
            r.params() == (MachineParams { failure_threshold, recovery_threshold: 0, recovery_enabled: false }),
            r.taint() == ("nvidia.com/gpu-health"@, "failed"@, "NoSchedule"@),
            r.fatal_codes() == fatal_xids@,
    {
        GpuHealthManager {
            health: Vec::new(),
            failure_threshold,
            recovery_threshold: 0,
            recovery_enabled: false,
            fatal_xids,
            taint_key: owned("nvidia.com/gpu-health"),
            taint_value: owned("failed"),
            taint_effect: owned("NoSchedule"),
        }
    }

    /// A manager with failure threshold N and recovery threshold R; recovery
    /// is on when R is positive.
    pub fn with_recovery(failure_threshold: u32, recovery_threshold: u32, fatal_xids: Vec<u32>) -> (r: GpuHealthManager)
        ensures
            r.wf(),
            r@ == Map::<Seq<char>, GpuHealth>::empty(),
            r.params() == (MachineParams {
                failure_threshold,
                recovery_threshold,
                recovery_enabled: recovery_threshold > 0,
            }),
            r.taint() == ("nvidia.com/gpu-health"@, "failed"@, "NoSchedule"@),
            r.fatal_codes() == fatal_xids@,
    {
        GpuHealthManager {
            health: Vec::new(),
            failure_threshold,
            recovery_threshold,
            recovery_enabled: recovery_threshold > 0,
            fatal_xids,
            taint_key: owned("nvidia.com/gpu-health"),
            taint_value: owned("failed"),
            taint_effect: owned("NoSchedule"),
        }
    }

    /// Turns recovery on or off and sets its threshold.
    pub fn set_recovery_enabled(&mut self, enabled: bool, threshold: u32)
        requires
            old(self).wf(),
        ensures
            final(self).wf(),
            final(self)@ == old(self)@,
            final(self).params() == (MachineParams {
                failure_threshold: old(self).params().failure_threshold,
                recovery_threshold: threshold,
                recovery_enabled: enabled,
            }),
            final(self).taint() == old(self).taint(),
            final(self).fatal_codes() == old(self).fatal_codes(),
    {
        self.recovery_enabled = enabled;
        self.recovery_threshold = threshold;
    }

    /// Sets the taint that isolation adds and recovery removes.
    pub fn set_taint(&mut self, key: String, value: String, effect: String)
        requires
            old(self).wf(),
        ensures
            final(self).wf(),
            final(self)@ == old(self)@,
            final(self).params() == old(self).params(),
            final(self).taint() == (key@, value@, effect@),
            final(self).fatal_codes() == old(self).fatal_codes(),
    {
        self.taint_key = key;
        self.taint_value = value;
        self.taint_effect = effect;
    }

    /// Whether recovery is on.
    pub fn is_recovery_enabled(&self) -> (r: bool)
        ensures
            r == self.params().recovery_enabled,
    {
        self.recovery_enabled
    }

    fn find(&self, key: &String) -> (r: Option<usize>)
        requires
            self.wf(),
        ensures
            match r {
                Some(i) => i < self.health@.len() && record_key(self.health@[i as int]) == key@,
                None => forall|i: int| 0 <= i < self.health@.len() ==> record_key(#[trigger] self.health@[i]) != key@,
            },
    {
        let mut i: usize = 0;
        while i < self.health.len()
            invariant
                i <= self.health@.len(),
                forall|j: int| 0 <= j < i ==> record_key(#[trigger] self.health@[j]) != key@,
            decreases self.health@.len() - i,
        {
            let k = device_key(&self.health[i].device);
            if k == *key {
                return Some(i);
            }
            i = i + 1;
        }
        None
    }

    /// The record of a device, if it has been seen.
    pub fn get(&self, device: &DeviceId) -> (r: Option<&GpuHealth>)
        requires
            self.wf(),
        ensures
            r.is_some() == self@.contains_key(device_key_spec(*device)),
            r.is_some() ==> *r.unwrap() == self@[device_key_spec(*device)],
    {
        let key = device_key(device);
        match self.find(&key) {
            Some(i) => {
                proof {
                    lemma_records_map_index(self.health@, i as int);
                }
                Some(&self.health[i])
            },
            None => {
                proof {
                    lemma_records_map_absent(self.health@, key@);
                }
                None
            },
        }
    }

    /// All records, in the order devices were first seen.
    pub fn all(&self) -> (r: &Vec<GpuHealth>)
        ensures
            r@ == self.records(),
    {
        &self.health
    }

    /// Whether any device is unhealthy.
    pub fn has_unhealthy(&self) -> (r: bool)
        ensures
            r == exists|i: int| 0 <= i < self.records().len() && (#[trigger] self.records()[i]).state == HealthState::Unhealthy,
    {
        let mut i: usize = 0;
        while i < self.health.len()
            invariant
                i <= self.health@.len(),
                forall|j: int| 0 <= j < i ==> (#[trigger] self.health@[j]).state != HealthState::Unhealthy,
            decreases self.health@.len() - i,
        {
            if self.health[i].state == HealthState::Unhealthy {
                return true;
            }
            i = i + 1;
        }
        false
    }

    /// The devices that are unhealthy, in table order.
    pub fn unhealthy_gpus(&self) -> (r: Vec<DeviceId>)
        ensures
            r@ == self.records().filter(|h: GpuHealth| h.state == HealthState::Unhealthy).map_values(
                |h: GpuHealth| h.device,
            ),
    {
        let mut r: Vec<DeviceId> = Vec::new();
        let mut i: usize = 0;
        while i < self.health.len()
            invariant
                i <= self.health@.len(),
                r@ == self.health@.subrange(0, i as int).filter(|h: GpuHealth| h.state == HealthState::Unhealthy).map_values(
                    |h: GpuHealth| h.device,
                ),
            decreases self.health@.len() - i,
        {
            let ghost s = self.health@.subrange(0, i as int);
            assert(self.health@.subrange(0, i + 1) =~= s.push(self.health@[i as int]));
            reveal(Seq::filter);
            assert(s.push(self.health@[i as int]).drop_last() =~= s);
            if self.health[i].state == HealthState::Unhealthy {
                r.push(self.health[i].device.duplicate());
            }
            i = i + 1;
            assert(r@ =~= self.health@.subrange(0, i as int).filter(|h: GpuHealth| h.state == HealthState::Unhealthy).map_values(
                |h: GpuHealth| h.device,
            ));
        }
        assert(self.health@.subrange(0, self.health@.len() as int) =~= self.health@);
        r
    }

    fn next_status(&self, s: HealthStatus, event: &HealthEvent) -> (r: HealthStatus)
        requires
            status_ok(self.failure_threshold, s),
        ensures
            r == step(self.params(), s, *event),
            status_ok(self.failure_threshold, r),
    {
        match s.state {
            HealthState::Healthy => match event {
                HealthEvent::CheckPassed => HealthStatus { failure_count: 0, ..s },
                HealthEvent::CheckFailed { .. } => if 1 >= self.failure_threshold {
                    HealthStatus { state: HealthState::Unhealthy, failure_count: 1, ..s }
                } else {
                    HealthStatus { state: HealthState::Suspected, failure_count: 1, ..s }
                },
                HealthEvent::FatalError { .. } => HealthStatus {
                    state: HealthState::Unhealthy,
                    failure_count: self.failure_threshold,
                    ..s
                },
                HealthEvent::IsolationCompleted => s,
            },
            HealthState::Suspected => match event {
                HealthEvent::CheckPassed => HealthStatus { state: HealthState::Healthy, failure_count: 0, ..s },
                HealthEvent::CheckFailed { .. } => {
                    let c = s.failure_count + 1;
                    if c >= self.failure_threshold {
                        HealthStatus { state: HealthState::Unhealthy, failure_count: c, ..s }
                    } else {
                        HealthStatus { failure_count: c, ..s }
                    }
                },
                HealthEvent::FatalError { .. } => HealthStatus {
                    state: HealthState::Unhealthy,
                    failure_count: self.failure_threshold,
                    ..s
                },
                HealthEvent::IsolationCompleted => s,
            },
            HealthState::Unhealthy => match event {
                HealthEvent::IsolationCompleted => HealthStatus { state: HealthState::Isolated, ..s },
                _ => s,
            },
            HealthState::Isolated => match event {
                HealthEvent::CheckPassed => if self.recovery_enabled {
                    let c = s.recovery_count + 1;
                    if c >= self.recovery_threshold {
                        HealthStatus { state: HealthState::Healthy, failure_count: 0, recovery_count: 0 }
                    } else {
                        HealthStatus { recovery_count: c, ..s }
                    }
                } else {
                    s
                },
                HealthEvent::CheckFailed { .. } => HealthStatus { recovery_count: 0, ..s },
                HealthEvent::FatalError { .. } => HealthStatus { recovery_count: 0, ..s },
                HealthEvent::IsolationCompleted => s,
            },
        }
    }

    /// Cordon, taint, and a critical alert naming the device and findings.
    fn isolation_actions(&self, device: &DeviceId, findings: &Vec<Finding>) -> (r: Vec<IsolationAction>)
        ensures
            action_views(r@) == isolation_actions_view(
                self.taint().0,
                self.taint().1,
                self.taint().2,
                device_label(*device),
                findings@,
            ),
    {
        let mut actions: Vec<IsolationAction> = Vec::new();
        actions.push(IsolationAction::Cordon);
        actions.push(IsolationAction::Taint {
            key: self.taint_key.clone(),
            value: self.taint_value.clone(),
            effect: self.taint_effect.clone(),
        });
        let label = device.to_display_string();
        let head = join2(label.as_str(), " marked unhealthy: ");
        let msgs = joined_messages(findings);
        let message = join2(head.as_str(), msgs.as_str());
        actions.push(IsolationAction::Alert { message, severity: owned("critical") });
        assert(action_views(actions@) =~= isolation_actions_view(
            self.taint().0,
            self.taint().1,
            self.taint().2,
            device_label(*device),
            findings@,
        ));
        actions
    }

    /// Taint removal, uncordon, and an informational alert.
    fn recovery_actions(&self, device: &DeviceId) -> (r: Vec<IsolationAction>)
        ensures
            action_views(r@) == recovery_actions_view(self.taint().0, device_label(*device)),
    {
        let mut actions: Vec<IsolationAction> = Vec::new();
        actions.push(IsolationAction::RemoveTaint { key: self.taint_key.clone() });
        actions.push(IsolationAction::Uncordon);
        let label = device.to_display_string();
        let message = join2(label.as_str(), " recovered and restored to service");
        actions.push(IsolationAction::Alert { message, severity: owned("info") });
        assert(action_views(actions@) =~= recovery_actions_view(self.taint().0, device_label(*device)));
        actions
    }

    /// The record and transition that one event makes of `rec`.
    fn next_record(&self, rec: &GpuHealth, device: &DeviceId, event: HealthEvent, now: i64) -> (r: (GpuHealth, StateTransition))
        requires
            status_ok(self.failure_threshold, rec.status()),
        ensures
            r.0.device == rec.device,
            r.0.status() == step(self.params(), rec.status(), event),
            status_ok(self.failure_threshold, r.0.status()),
            r.0.last_findings@ == findings_after(rec.state, r.0.state, event, rec.last_findings@),
            r.0.state_changed_at_ms >= rec.state_changed_at_ms,
            r.0.last_check_ms == now,
            r.1.from == rec.state,
            r.1.to == r.0.state,
            r.1.changed == (rec.state != r.0.state),
            action_views(r.1.actions@) == step_actions(self.taint(), device_label(*device), self.params(), rec.status(), event),
    {
        let s = rec.status_value();
        let t = self.next_status(s, &event);
        let changed = t.state != s.state;
        let actions = if t.state == HealthState::Unhealthy && s.state != HealthState::Unhealthy {
            match &event {
                HealthEvent::CheckFailed { findings } => self.isolation_actions(device, findings),
                HealthEvent::FatalError { findings } => self.isolation_actions(device, findings),
                _ => {
                    let empty: Vec<Finding> = Vec::new();
                    self.isolation_actions(device, &empty)
                },
            }
        } else if t.state == HealthState::Healthy && s.state == HealthState::Isolated {
            self.recovery_actions(device)
        } else {
            let none: Vec<IsolationAction> = Vec::new();
            assert(action_views(none@) =~= Seq::<ActionView>::empty());
            none
        };
        let keeps_event = s.state == HealthState::Healthy || s.state == HealthState::Suspected;
        let last_findings = match event {
            HealthEvent::CheckFailed { findings } => if keeps_event { findings } else { copy_findings(&rec.last_findings) },
            HealthEvent::FatalError { findings } => if keeps_event { findings } else { copy_findings(&rec.last_findings) },
            HealthEvent::CheckPassed => if s.state == HealthState::Suspected || (s.state == HealthState::Isolated
                && t.state == HealthState::Healthy) {
                Vec::new()
            } else {
                copy_findings(&rec.last_findings)
            },
            HealthEvent::IsolationCompleted => copy_findings(&rec.last_findings),
        };
        let changed_at = if changed && now > rec.state_changed_at_ms { now } else { rec.state_changed_at_ms };
        let next = GpuHealth {
            device: rec.device.duplicate(),
            state: t.state,
            failure_count: t.failure_count,
            recovery_count: t.recovery_count,
            last_check_ms: now,
            state_changed_at_ms: changed_at,
            last_findings,
        };
        let tr = if changed {
            StateTransition::transition(s.state, t.state, actions)
        } else {
            StateTransition::no_change(s.state)
        };
        (next, tr)
    }

    /// Applies one event to a device's record, creating a healthy record
    /// first if the device has none. The record advances by `step`; the
    /// transition reports the states before and after and the actions of
    /// `step_actions`. Other records are untouched.
    pub fn transition(&mut self, device: &DeviceId, event: HealthEvent) -> (r: StateTransition)
        requires
            old(self).wf(),
        ensures
            ({
                let k = device_key_spec(*device);
                let s = old(self).status_of(k);
                let t = step(old(self).params(), s, event);
                let old_findings = if old(self)@.contains_key(k) {
                    old(self)@[k].last_findings@
                } else {
                    Seq::empty()
                };
                &&& final(self).wf()
                &&& final(self).params() == old(self).params()
                &&& final(self).taint() == old(self).taint()
                &&& final(self).fatal_codes() == old(self).fatal_codes()
                &&& final(self)@ == old(self)@.insert(k, final(self)@[k])
                &&& final(self)@[k].status() == t
                &&& final(self)@[k].device == (if old(self)@.contains_key(k) { old(self)@[k].device } else { *device })
                &&& final(self)@[k].last_findings@ == findings_after(s.state, t.state, event, old_findings)
                &&& old(self)@.contains_key(k) ==> final(self)@[k].state_changed_at_ms >= old(self)@[k].state_changed_at_ms
                &&& r.from == s.state
                &&& r.to == t.state
                &&& r.changed == (s.state != t.state)
                &&& action_views(r.actions@) == step_actions(old(self).taint(), device_label(*device), old(self).params(), s, event)
            }),
    {
        let key = device_key(device);
        let now = now_millis();
        let ghost k = device_key_spec(*device);
        proof {
            self.lemma_status_ok(k);
        }
        let idx = match self.find(&key) {
            Some(i) => {
                proof {
                    lemma_records_map_index(self.health@, i as int);
                }
                i
            },
            None => {
                proof {
                    lemma_records_map_absent(self.health@, k);
                }
                let fresh = GpuHealth::new(device.duplicate());
                proof {
                    lemma_records_map_push(self.health@, fresh);
                }
                self.health.push(fresh);
                proof {
                    assert(keys_unique(self.health@));
                    assert forall|i: int| 0 <= i < self.health@.len() implies status_ok(
                        self.failure_threshold,
                        (#[trigger] self.health@[i]).status(),
                    ) by {
                        if i < self.health@.len() - 1 {
                            assert(self.health@[i] == old(self).health@[i]);
                        }
                    }
                }
                self.health.len() - 1
            },
        };
        proof {
            lemma_records_map_index(self.health@, idx as int);
        }
        let (rec, tr) = self.next_record(&self.health[idx], device, event, now);
        proof {
            lemma_records_map_update(self.health@, idx as int, rec);
        }
        self.health[idx] = rec;
        proof {
            let h = self.health@;
            assert forall|a: int, b: int| 0 <= a < h.len() && 0 <= b < h.len() && a != b
                implies record_key(#[trigger] h[a]) != record_key(#[trigger] h[b]) by {
            }
            assert(self@ =~= old(self)@.insert(k, self@[k]));
        }
        tr
    }

    /// Applies the event a detection result stands for: `CheckPassed` for a
    /// passing result, `FatalError` if any finding is fatal, else
    /// `CheckFailed`.
    pub fn process_result(&mut self, result: &DetectionResult) -> (r: StateTransition)
        requires
            old(self).wf(),
        ensures
            ({
                let k = device_key_spec(result.device);
                let e = event_of(*result);
                let s = old(self).status_of(k);
                let t = step(old(self).params(), s, e);
                let old_findings = if old(self)@.contains_key(k) {
                    old(self)@[k].last_findings@
                } else {
                    Seq::empty()
                };
                &&& final(self).wf()
                &&& final(self).params() == old(self).params()
                &&& final(self).taint() == old(self).taint()
                &&& final(self).fatal_codes() == old(self).fatal_codes()
                &&& final(self)@ == old(self)@.insert(k, final(self)@[k])
                &&& final(self)@[k].status() == t
                &&& final(self)@[k].last_findings@ == findings_after(s.state, t.state, e, old_findings)
                &&& r.from == s.state
                &&& r.to == t.state
                &&& r.changed == (s.state != t.state)
                &&& action_views(r.actions@) == step_actions(old(self).taint(), device_label(result.device), old(self).params(), s, e)
            }),
    {
        let event = if result.passed {
            HealthEvent::CheckPassed
        } else if result.has_fatal_finding() {
            HealthEvent::FatalError { findings: copy_findings(&result.findings) }
        } else {
            HealthEvent::CheckFailed { findings: copy_findings(&result.findings) }
        };
        assert(event_findings(event) == event_findings(event_of(*result)));
        self.transition(&result.device, event)
    }
}

} // verus!
