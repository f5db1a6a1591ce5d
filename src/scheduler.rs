//! The scheduler's decisions.
//!
//! The periodic tickers, the detectors' device queries, the healer's
//! commands and the actuator all live outside the library; this type takes
//! each detection result and each actuator outcome and says what happens
//! next. It alone marks isolation complete, and only after the actuator
//! reported success.
use vstd::prelude::*;
use crate::detection::DetectionResult;
use crate::device::{DeviceId, device_key_spec, device_label};
use crate::health_manager::{GpuHealthManager, step_actions};
use crate::healing::{HealingAction, SelfHealer, allowed_steps};
use crate::state_machine::{HealthEvent, HealthState, StateTransition, action_views, event_of, step};

verus! {

/// What the runner must do after a detection result moved a device into
/// `Unhealthy`: run the healing steps (best effort), then hand the
/// transition to the actuator and report its outcome back.
#[derive(Debug, Clone)]
pub struct IsolationRequest {
    /// The device to isolate.
    pub device: DeviceId,
    /// Healing steps to run first, possibly none.
    pub heal_steps: Vec<HealingAction>,
    /// The transition whose actions the actuator applies.
    pub transition: StateTransition,
}

/// Decision state of the detection loop: the health table, the optional
/// healer and the tick periods.
pub struct DetectionScheduler {
    health_manager: GpuHealthManager,
    healer: Option<SelfHealer>,
    l1_interval_ms: u64,
    l2_interval_ms: u64,
    l3_interval_ms: Option<u64>,
    confirmed: Ghost<Set<Seq<char>>>,
}

impl DetectionScheduler {
    /// The health table.
    pub closed spec fn manager(&self) -> GpuHealthManager {
        self.health_manager
    }

    /// The device keys for which the actuator reported a successful
    /// isolation.
    pub closed spec fn confirmed_isolations(&self) -> Set<Seq<char>> {
        self.confirmed@
    }

    /// The healer, if one is attached.
    pub closed spec fn healer_spec(&self) -> Option<SelfHealer> {
        self.healer
    }

    /// The tick periods in milliseconds: L1, L2 and, if enabled, L3.
    pub closed spec fn periods(&self) -> (u64, u64, Option<u64>) {
        (self.l1_interval_ms, self.l2_interval_ms, self.l3_interval_ms)
    }

    /// The table is well formed and every isolated device was confirmed by
    /// the actuator.
    pub closed spec fn wf(&self) -> bool {
        &&& self.health_manager.wf()
        &&& forall|k: Seq<char>|
            #![trigger self.health_manager@[k]]
            self.health_manager@.contains_key(k) && self.health_manager@[k].state == HealthState::Isolated
                ==> self.confirmed@.contains(k)
    }

    /// Whether the healer runs before isolations.
    pub open spec fn heals(&self) -> bool {
        self.healer_spec().is_some() && self.healer_spec().unwrap().config.enabled
    }

    /// A scheduler over a health table in which no device is isolated yet.
    pub fn new(health_manager: GpuHealthManager, l1_interval_ms: u64, l2_interval_ms: u64) -> (r: DetectionScheduler)
        requires
            health_manager.wf(),
            forall|k: Seq<char>|
                #![trigger health_manager@[k]]
                health_manager@.contains_key(k) ==> health_manager@[k].state != HealthState::Isolated,
        ensures
            r.wf(),
            r.manager() == health_manager,
            r.healer_spec().is_none(),
            r.periods() == (l1_interval_ms, l2_interval_ms, None::<u64>),
            r.confirmed_isolations() == Set::<Seq<char>>::empty(),
    {
        DetectionScheduler {
            health_manager,
            healer: None,
            l1_interval_ms,
            l2_interval_ms,
            l3_interval_ms: None,
            confirmed: Ghost(Set::empty()),
        }
    }

    /// Attaches a healer.
    pub fn with_healer(self, healer: SelfHealer) -> (r: DetectionScheduler)
        requires
            self.wf(),
        ensures
            r.wf(),
            r.manager() == self.manager(),
            r.healer_spec() == Some(healer),
            r.periods() == self.periods(),
            r.confirmed_isolations() == self.confirmed_isolations(),
    {
        DetectionScheduler { healer: Some(healer), ..self }
    }

    /// Enables the link tier with its period.
    pub fn with_l3(self, interval_ms: u64) -> (r: DetectionScheduler)
        requires
            self.wf(),
        ensures
            r.wf(),
            r.manager() == self.manager(),
            r.healer_spec() == self.healer_spec(),
            r.periods() == (self.periods().0, self.periods().1, Some(interval_ms)),
            r.confirmed_isolations() == self.confirmed_isolations(),
    {
        DetectionScheduler { l3_interval_ms: Some(interval_ms), ..self }
    }

    /// The health table, for reads.
    pub fn health(&self) -> (r: &GpuHealthManager)
        ensures
            *r == self.manager(),
    {
        &self.health_manager
    }

    /// Period of the passive tier, milliseconds.
    pub fn l1_interval_ms(&self) -> (r: u64)
        ensures
            r == self.periods().0,
    {
        self.l1_interval_ms
    }

    /// Period of the active tier, milliseconds.
    pub fn l2_interval_ms(&self) -> (r: u64)
        ensures
            r == self.periods().1,
    {
        self.l2_interval_ms
    }

    /// Period of the link tier, milliseconds, when enabled.
    pub fn l3_interval_ms(&self) -> (r: Option<u64>)
        ensures
            r == self.periods().2,
    {
        self.l3_interval_ms
    }

    /// Applies one detection result. When it moves the device into
    /// `Unhealthy` the answer is the isolation to perform, with the healing
    /// steps first if a healer is attached and enabled; otherwise `None`.
    /// A detection result never completes an isolation.
    pub fn process_result(&mut self, result: &DetectionResult) -> (r: Option<IsolationRequest>)
        requires
            old(self).wf(),
        ensures
            ({
                let k = device_key_spec(result.device);
                let e = event_of(*result);
                let m0 = old(self).manager();
                let m1 = final(self).manager();
                let s = m0.status_of(k);
                let t = step(m0.params(), s, e);
                &&& final(self).wf()
                &&& m1.params() == m0.params()
                &&& m1.taint() == m0.taint()
                &&& m1@ == m0@.insert(k, m1@[k])
                &&& m1@[k].status() == t
                &&& final(self).healer_spec() == old(self).healer_spec()
                &&& final(self).periods() == old(self).periods()
                &&& final(self).confirmed_isolations() == old(self).confirmed_isolations()
                &&& r.is_some() == (t.state == HealthState::Unhealthy && s.state != HealthState::Unhealthy)
                &&& r.is_some() ==> {
                    let q = r.unwrap();
                    &&& q.device == result.device
                    &&& q.transition.from == s.state
                    &&& q.transition.to == HealthState::Unhealthy
                    &&& q.transition.changed
                    &&& action_views(q.transition.actions@) == step_actions(
                        m0.taint(),
                        device_label(result.device),
                        m0.params(),
                        s,
                        e,
                    )
                    &&& q.heal_steps@ == if old(self).heals() {
                        allowed_steps(
                            old(self).healer_spec().unwrap().config.strategy,
                            old(self).healer_spec().unwrap().device_type,
                            result.device.index,
                        )
                    } else {
                        Seq::empty()
                    }
                }
            }),
    {
        let ghost k = device_key_spec(result.device);
        proof {
            self.health_manager.lemma_status_ok(k);
        }
        let tr = self.health_manager.process_result(result);
        proof {
            let m = self.health_manager;
            assert forall|k2: Seq<char>|
                #![trigger m@[k2]]
                m@.contains_key(k2) && m@[k2].state == HealthState::Isolated implies self.confirmed@.contains(k2) by {
                if k2 != k {
                    assert(old(self).health_manager@[k2] == m@[k2]);
                }
            }
        }
        if tr.changed && tr.to == HealthState::Unhealthy {
            let heal_steps = match &self.healer {
                Some(h) => if h.is_enabled() {
                    match h.heal(&result.device) {
                        Ok(steps) => steps,
                        Err(_) => Vec::new(),
                    }
                } else {
                    Vec::new()
                },
                None => Vec::new(),
            };
            Some(IsolationRequest { device: result.device.duplicate(), heal_steps, transition: tr })
        } else {
            None
        }
    }

    /// Reports the actuator's outcome for an isolation of `device`. On
    /// success the device is marked `IsolationCompleted` (it becomes
    /// `Isolated` if it was `Unhealthy`) and recorded as confirmed; on
    /// failure nothing changes and the isolation waits for a later success.
    pub fn complete_isolation(&mut self, device: &DeviceId, executed: bool) -> (r: Option<StateTransition>)
        requires
            old(self).wf(),
        ensures
            final(self).wf(),
            final(self).healer_spec() == old(self).healer_spec(),
            final(self).periods() == old(self).periods(),
            final(self).manager().params() == old(self).manager().params(),
            final(self).manager().taint() == old(self).manager().taint(),
            !executed ==> r.is_none() && final(self).manager() == old(self).manager()
                && final(self).confirmed_isolations() == old(self).confirmed_isolations(),
            executed ==> ({
                let k = device_key_spec(*device);
                let m0 = old(self).manager();
                let m1 = final(self).manager();
                let s = m0.status_of(k);
                let t = step(m0.params(), s, HealthEvent::IsolationCompleted);
                &&& r.is_some()
                &&& r.unwrap().from == s.state
                &&& r.unwrap().to == t.state
                &&& r.unwrap().actions@.len() == 0
                &&& m1@ == m0@.insert(k, m1@[k])
                &&& m1@[k].status() == t
                &&& final(self).confirmed_isolations() == old(self).confirmed_isolations().insert(k)
            }),
    {
        if !executed {
            return None;
        }
        let ghost k = device_key_spec(*device);
        proof {
            self.health_manager.lemma_status_ok(k);
            self.confirmed = Ghost(self.confirmed@.insert(k));
        }
        let tr = self.health_manager.transition(device, HealthEvent::IsolationCompleted);
        proof {
            let m = self.health_manager;
            assert forall|k2: Seq<char>|
                #![trigger m@[k2]]
                m@.contains_key(k2) && m@[k2].state == HealthState::Isolated implies self.confirmed@.contains(k2) by {
                if k2 != k {
                    assert(old(self).health_manager@[k2] == m@[k2]);
                }
            }
            assert(action_views(tr.actions@).len() == 0);
        }
        Some(tr)
    }

    /// A device is `Isolated` only if the actuator reported a successful
    /// isolation for it.
    pub proof fn lemma_isolated_only_after_success(&self, k: Seq<char>)
        requires
            self.wf(),
            self.manager()@.contains_key(k),
            self.manager()@[k].state == HealthState::Isolated,
        ensures
            self.confirmed_isolations().contains(k),
    {
        assert(self.health_manager@[k].state == HealthState::Isolated);
    }
}

} // verus!
