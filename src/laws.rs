//! Properties of the health state machine over single steps and traces.
use vstd::prelude::*;
use crate::health_manager::{GpuHealthManager, step_actions};
use crate::state_machine::{ActionView, HealthEvent, HealthState, HealthStatus, MachineParams, run, status_ok, step};

verus! {

/// A record in `Healthy` has no failures, and only an isolated record counts
/// passes.
pub proof fn lemma_healthy_has_no_failures(m: &GpuHealthManager, k: Seq<char>)
    requires
        m.wf(),
        m@.contains_key(k),
    ensures
        m@[k].state == HealthState::Healthy ==> m@[k].failure_count == 0,
        m@[k].state != HealthState::Isolated ==> m@[k].recovery_count == 0,
{
    m.lemma_status_ok(k);
}

/// Every event keeps the counter invariant: healthy means no failures,
/// suspected means fewer than N, and only an isolated device counts passes.
pub proof fn lemma_step_keeps_counters(p: MachineParams, s: HealthStatus, e: HealthEvent)
    requires
        status_ok(p.failure_threshold, s),
    ensures
        status_ok(p.failure_threshold, step(p, s, e)),
{
}

/// After any sequence of events from a status that holds the counter
/// invariant, a `Healthy` device has no failures and only an `Isolated`
/// device counts passes.
pub proof fn lemma_trace_keeps_counters(p: MachineParams, s: HealthStatus, evs: Seq<HealthEvent>)
    requires
        status_ok(p.failure_threshold, s),
    ensures
        status_ok(p.failure_threshold, run(p, s, evs)),
        run(p, s, evs).state == HealthState::Healthy ==> run(p, s, evs).failure_count == 0,
        run(p, s, evs).state != HealthState::Isolated ==> run(p, s, evs).recovery_count == 0,
    decreases evs.len(),
{
    if evs.len() > 0 {
        lemma_trace_keeps_counters(p, s, evs.drop_last());
        lemma_step_keeps_counters(p, run(p, s, evs.drop_last()), evs.last());
    }
}

/// `k` consecutive non-fatal failures from a healthy status, with `1 <= k <
/// N`, leave the device `Suspected` with `k` failures.
pub proof fn lemma_consecutive_failures(p: MachineParams, s: HealthStatus, evs: Seq<HealthEvent>)
    requires
        s.state == HealthState::Healthy,
        status_ok(p.failure_threshold, s),
        1 <= evs.len() < p.failure_threshold,
        forall|i: int| 0 <= i < evs.len() ==> (#[trigger] evs[i]) is CheckFailed,
    ensures
        run(p, s, evs) == (HealthStatus {
            state: HealthState::Suspected,
            failure_count: evs.len() as u32,
            recovery_count: 0,
        }),
    decreases evs.len(),
{
    let d = evs.drop_last();
    assert(evs.last() is CheckFailed);
    if evs.len() == 1 {
        assert(d.len() == 0);
    } else {
        assert forall|i: int| 0 <= i < d.len() implies (#[trigger] d[i]) is CheckFailed by {
            assert(d[i] == evs[i]);
        }
        lemma_consecutive_failures(p, s, d);
    }
}

/// The isolation actions of an update hold `Cordon` and exactly one `Taint`.
pub open spec fn cordons_and_taints_once(acts: Seq<ActionView>) -> bool {
    &&& exists|i: int| 0 <= i < acts.len() && acts[i] == ActionView::Cordon
    &&& exists|i: int|
        0 <= i < acts.len() && (#[trigger] acts[i]) is Taint && forall|j: int|
            0 <= j < acts.len() && (#[trigger] acts[j]) is Taint ==> j == i
}

/// A fatal error from `Healthy` or `Suspected` makes the device `Unhealthy`,
/// and the update's actions cordon the node and add one taint.
pub proof fn lemma_fatal_isolates(
    p: MachineParams,
    taint: (Seq<char>, Seq<char>, Seq<char>),
    label: Seq<char>,
    s: HealthStatus,
    e: HealthEvent,
)
    requires
        s.state == HealthState::Healthy || s.state == HealthState::Suspected,
        e is FatalError,
    ensures
        step(p, s, e).state == HealthState::Unhealthy,
        cordons_and_taints_once(step_actions(taint, label, p, s, e)),
{
    let acts = step_actions(taint, label, p, s, e);
    assert(acts[0] == ActionView::Cordon);
    assert(acts[1] is Taint);
    assert forall|j: int| 0 <= j < acts.len() && (#[trigger] acts[j]) is Taint implies j == 1 by {
        if j == 0 {
            assert(acts[0] == ActionView::Cordon);
        }
        if j == 2 {
            assert(acts[2] is Alert);
        }
    }
}

/// With recovery off, no sequence of events leads out of `Isolated`.
pub proof fn lemma_isolated_without_recovery(p: MachineParams, s: HealthStatus, evs: Seq<HealthEvent>)
    requires
        !p.recovery_enabled,
        s.state == HealthState::Isolated,
    ensures
        run(p, s, evs).state == HealthState::Isolated,
    decreases evs.len(),
{
    if evs.len() > 0 {
        lemma_isolated_without_recovery(p, s, evs.drop_last());
    }
}

/// The passes counted towards recovery after `evs`, starting from `c`: each
/// pass adds one, each failure resets to zero.
pub open spec fn trailing_passes(c: nat, evs: Seq<HealthEvent>) -> nat
    decreases evs.len(),
{
    if evs.len() == 0 {
        c
    } else {
        match evs.last() {
            HealthEvent::CheckPassed => trailing_passes(c, evs.drop_last()) + 1,
            HealthEvent::CheckFailed { .. } => 0,
            HealthEvent::FatalError { .. } => 0,
            HealthEvent::IsolationCompleted => trailing_passes(c, evs.drop_last()),
        }
    }
}

/// With recovery on and threshold R, an isolated device stays `Isolated` as
/// long as a failure comes within every R passes: if at no point of the
/// sequence R passes have accumulated since the last failure, the device
/// ends `Isolated` with exactly those trailing passes counted.
pub proof fn lemma_isolated_until_enough_passes(p: MachineParams, s: HealthStatus, evs: Seq<HealthEvent>)
    requires
        p.recovery_enabled,
        s.state == HealthState::Isolated,
        forall|i: int| 0 <= i <= evs.len() ==> #[trigger] trailing_passes(s.recovery_count as nat, evs.take(i)) < p.recovery_threshold,
    ensures
        run(p, s, evs).state == HealthState::Isolated,
        run(p, s, evs).recovery_count == trailing_passes(s.recovery_count as nat, evs),
    decreases evs.len(),
{
    assert(evs.take(evs.len() as int) =~= evs);
    assert(trailing_passes(s.recovery_count as nat, evs.take(evs.len() as int)) < p.recovery_threshold);
    if evs.len() == 0 {
        assert(evs.take(0) =~= evs);
    } else {
        let d = evs.drop_last();
        assert forall|i: int| 0 <= i <= d.len() implies #[trigger] trailing_passes(s.recovery_count as nat, d.take(i))
            < p.recovery_threshold by {
            assert(d.take(i) =~= evs.take(i));
        }
        lemma_isolated_until_enough_passes(p, s, d);
    }
}

/// A pass on a healthy device changes nothing and emits nothing.
pub proof fn lemma_pass_on_healthy_is_noop(
    p: MachineParams,
    taint: (Seq<char>, Seq<char>, Seq<char>),
    label: Seq<char>,
    s: HealthStatus,
)
    requires
        s.state == HealthState::Healthy,
        status_ok(p.failure_threshold, s),
    ensures
        step(p, s, HealthEvent::CheckPassed) == s,
        step_actions(taint, label, p, s, HealthEvent::CheckPassed) == Seq::<ActionView>::empty(),
{
}

/// A further `IsolationCompleted` on an isolated device changes nothing and
/// emits nothing.
pub proof fn lemma_isolation_completed_again_is_noop(
    p: MachineParams,
    taint: (Seq<char>, Seq<char>, Seq<char>),
    label: Seq<char>,
    s: HealthStatus,
)
    requires
        s.state == HealthState::Isolated,
    ensures
        step(p, s, HealthEvent::IsolationCompleted) == s,
        step_actions(taint, label, p, s, HealthEvent::IsolationCompleted) == Seq::<ActionView>::empty(),
{
}

/// On an unhealthy device every event but `IsolationCompleted` leaves it
/// `Unhealthy` and emits no actions again.
pub proof fn lemma_unhealthy_emits_once(
    p: MachineParams,
    taint: (Seq<char>, Seq<char>, Seq<char>),
    label: Seq<char>,
    s: HealthStatus,
    e: HealthEvent,
)
    requires
        s.state == HealthState::Unhealthy,
        !(e is IsolationCompleted),
    ensures
        step(p, s, e) == s,
        step_actions(taint, label, p, s, e) == Seq::<ActionView>::empty(),
{
}

/// With a failure threshold of one, a single non-fatal failure takes a
/// healthy device straight to `Unhealthy`.
pub proof fn lemma_threshold_one_skips_suspected(p: MachineParams, s: HealthStatus, e: HealthEvent)
    requires
        p.failure_threshold == 1,
        s.state == HealthState::Healthy,
        e is CheckFailed,
    ensures
        step(p, s, e).state == HealthState::Unhealthy,
{
}

} // verus!
