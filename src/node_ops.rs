//! Isolation settings and which actuator commands an action comes to.
use vstd::prelude::*;
use crate::state_machine::IsolationAction;
use crate::text::owned;

verus! {

/// How the node is isolated.
#[derive(Debug, Clone, PartialEq, Eq)]
pub struct IsolationConfig {
    /// Whether to cordon the node.
    pub cordon: bool,
    /// Whether to evict the node's pods.
    pub evict_pods: bool,
    /// Taint key.
    pub taint_key: String,
    /// Taint value.
    pub taint_value: String,
    /// Taint effect (NoSchedule, PreferNoSchedule, NoExecute).
    pub taint_effect: String,
}

impl Default for IsolationConfig {
    /// Cordon on, eviction off, taint `nvidia.com/gpu-health=failed:NoSchedule`.
    fn default() -> (r: IsolationConfig)
        ensures
            r.cordon,
            !r.evict_pods,
            r.taint_key@ == "nvidia.com/gpu-health"@,
            r.taint_value@ == "failed"@,
            r.taint_effect@ == "NoSchedule"@,
    {
        IsolationConfig {
            cordon: true,
            evict_pods: false,
            taint_key: owned("nvidia.com/gpu-health"),
            taint_value: owned("failed"),
            taint_effect: owned("NoSchedule"),
        }
    }
}

impl IsolationConfig {
    /// Whether the actuator performs `action` against the orchestrator:
    /// cordon and eviction only when enabled, alerts never (they are
    /// reported, not applied), everything else always.
    pub fn applies(&self, action: &IsolationAction) -> (r: bool)
        ensures
            r == match *action {
                IsolationAction::Cordon => self.cordon,
                IsolationAction::EvictPods => self.evict_pods,
                IsolationAction::Alert { .. } => false,
                _ => true,
            },
    {
        match action {
            IsolationAction::Cordon => self.cordon,
            IsolationAction::EvictPods => self.evict_pods,
            IsolationAction::Alert { .. } => false,
            _ => true,
        }
    }
}

/// What the eviction step knows of a pod.
#[derive(Debug, Clone, PartialEq, Eq)]
pub struct PodInfo {
    /// Namespace, if set.
    pub namespace: Option<String>,
    /// Name, if set.
    pub name: Option<String>,
    /// Keys of the pod's annotations.
    pub annotation_keys: Vec<String>,
    /// Kinds of the pod's owners.
    pub owner_kinds: Vec<String>,
}

/// The character sequences of a sequence of strings.
pub open spec fn string_views(v: Seq<String>) -> Seq<Seq<char>> {
    v.map_values(|k: String| k@)
}

/// Whether `p` is a prefix of `s`.
pub open spec fn is_prefix(p: Seq<char>, s: Seq<char>) -> bool {
    p.len() <= s.len() && s.subrange(0, p.len() as int) == p
}

/// The system pods of `kube-system` that eviction leaves alone.
pub open spec fn critical_system_name(n: Seq<char>) -> bool {
    is_prefix("kube-proxy"@, n) || is_prefix("kube-flannel"@, n) || is_prefix("calico-node"@, n)
}

/// Mirror pods, DaemonSet pods and critical system pods are not evicted.
pub open spec fn skip_pod_spec(p: PodInfo) -> bool {
    ||| string_views(p.annotation_keys@).contains("kubernetes.io/config.mirror"@)
    ||| string_views(p.owner_kinds@).contains("DaemonSet"@)
    ||| (p.namespace.is_some() && p.namespace.unwrap()@ == "kube-system"@ && p.name.is_some()
        && critical_system_name(p.name.unwrap()@))
}

/// Relies on `str::starts_with` with a `&str` pattern.
#[verifier::external_body]
fn starts_with(s: &str, p: &str) -> (r: bool)
    ensures
        r == is_prefix(p@, s@),
{
    s.starts_with(p)
}

/// Whether any string of `v` equals `target`.
fn any_equals(v: &Vec<String>, target: &str) -> (r: bool)
    ensures
        r == string_views(v@).contains(target@),
{
    let t = owned(target);
    let mut i: usize = 0;
    while i < v.len()
        invariant
            i <= v@.len(),
            t@ == target@,
            forall|j: int| 0 <= j < i ==> (#[trigger] v@[j])@ != target@,
        decreases v@.len() - i,
    {
        if v[i] == t {
            assert(string_views(v@)[i as int] == target@);
            return true;
        }
        i = i + 1;
    }
    assert forall|j: int| 0 <= j < v@.len() implies #[trigger] string_views(v@)[j] != target@ by {
        assert(v@[j]@ != target@);
    }
    false
}

/// Whether eviction skips this pod (see [`skip_pod_spec`]).
pub fn should_skip_pod(pod: &PodInfo) -> (r: bool)
    ensures
        r == skip_pod_spec(*pod),
{
    if any_equals(&pod.annotation_keys, "kubernetes.io/config.mirror") {
        return true;
    }
    if any_equals(&pod.owner_kinds, "DaemonSet") {
        return true;
    }
    match (&pod.namespace, &pod.name) {
        (Some(ns), Some(name)) => {
            let system = owned("kube-system");
            if *ns == system {
                let n = name.as_str();
                starts_with(n, "kube-proxy") || starts_with(n, "kube-flannel") || starts_with(n, "calico-node")
            } else {
                false
            }
        },
        _ => false,
    }
}

} // verus!
