//! The gateway's own picture of the data that flows through it: pod
//! identity, pod status, node conditions, capacity entries and the other
//! result records the backend produces. The gateway passes these through
//! without interpreting them beyond their identity fields.

use vstd::prelude::*;

verus! {

/// A pod specification as the gateway reads it: the identity under which
/// the backend files the workload.
#[derive(Debug)]
pub struct Pod {
    pub namespace: String,
    pub name: String,
}

/// Mathematical model of a [`Pod`].
pub struct PodView {
    pub namespace: Seq<char>,
    pub name: Seq<char>,
}

impl View for Pod {
    type V = PodView;

    open spec fn view(&self) -> PodView {
        PodView { namespace: self.namespace@, name: self.name@ }
    }
}

impl Pod {
    pub fn new(namespace: String, name: String) -> (r: Pod)
        ensures
            r@ == (PodView { namespace: namespace@, name: name@ }),
    {
        Pod { namespace, name }
    }

    /// A fresh pod value with the same contents.
    pub fn duplicate(&self) -> (r: Pod)
        ensures
            r@ == self@,
    {
        Pod { namespace: self.namespace.clone(), name: self.name.clone() }
    }
}

/// The status a backend reports for one pod.
#[derive(Debug)]
pub struct PodStatus {
    pub phase: String,
    pub message: String,
}

/// Mathematical model of a [`PodStatus`].
pub struct PodStatusView {
    pub phase: Seq<char>,
    pub message: Seq<char>,
}

impl View for PodStatus {
    type V = PodStatusView;

    open spec fn view(&self) -> PodStatusView {
        PodStatusView { phase: self.phase@, message: self.message@ }
    }
}

/// One reported node condition: a condition kind and its current standing.
#[derive(Debug)]
pub struct NodeCondition {
    pub condition: String,
    pub status: String,
}

/// Mathematical model of a [`NodeCondition`].
pub struct NodeConditionView {
    pub condition: Seq<char>,
    pub status: Seq<char>,
}

impl View for NodeCondition {
    type V = NodeConditionView;

    open spec fn view(&self) -> NodeConditionView {
        NodeConditionView { condition: self.condition@, status: self.status@ }
    }
}

impl NodeCondition {
    /// A fresh node condition with the same contents.
    pub fn duplicate(&self) -> (r: NodeCondition)
        ensures
            r@ == self@,
    {
        NodeCondition { condition: self.condition.clone(), status: self.status.clone() }
    }
}

/// One capacity figure: a resource name and the quantity available.
#[derive(Debug)]
pub struct CapacityEntry {
    pub resource: String,
    pub quantity: String,
}

/// Mathematical model of a [`CapacityEntry`].
pub struct CapacityEntryView {
    pub resource: Seq<char>,
    pub quantity: Seq<char>,
}

impl View for CapacityEntry {
    type V = CapacityEntryView;

    open spec fn view(&self) -> CapacityEntryView {
        CapacityEntryView { resource: self.resource@, quantity: self.quantity@ }
    }
}

impl CapacityEntry {
    /// A fresh capacity entry with the same contents.
    pub fn duplicate(&self) -> (r: CapacityEntry)
        ensures
            r@ == self@,
    {
        CapacityEntry { resource: self.resource.clone(), quantity: self.quantity.clone() }
    }
}

/// One node address record.
#[derive(Debug)]
pub struct NodeAddress {
    pub address_kind: String,
    pub address: String,
}

/// The daemon endpoints a node advertises.
#[derive(Debug)]
pub struct NodeDaemonEndpoints {
    pub kubelet_port: u16,
}

/// The views of a sequence of pods.
pub open spec fn pod_views(s: Seq<Pod>) -> Seq<PodView> {
    s.map_values(|p: Pod| p@)
}

/// The views of a sequence of node conditions.
pub open spec fn condition_views(s: Seq<NodeCondition>) -> Seq<NodeConditionView> {
    s.map_values(|c: NodeCondition| c@)
}

/// The views of a sequence of capacity entries.
pub open spec fn capacity_views(s: Seq<CapacityEntry>) -> Seq<CapacityEntryView> {
    s.map_values(|c: CapacityEntry| c@)
}

} // verus!
