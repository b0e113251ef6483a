//! Server-returned records that the protocol logic reads.
//!
//! Only the records that feed decisions in this crate are modeled here:
//! binding records, which drive binding deletion, and health check failure
//! details.  All other response shapes are plain data contracts consumed
//! directly by callers.

use vstd::prelude::*;
use crate::commons::BindingDestinationType;
use crate::json::JsonMap;

verus! {

/// A server-returned binding record: the logical binding descriptor plus
/// the virtual host and the server-assigned properties key that addresses
/// the binding for deletion.
#[derive(Debug, Clone)]
pub struct BindingInfo {
    pub vhost: String,
    pub source: String,
    pub destination: String,
    pub destination_type: BindingDestinationType,
    pub routing_key: String,
    pub arguments: JsonMap,
    pub properties_key: String,
}

impl BindingInfo {
    /// A well-formed record: its argument object has distinct keys.
    pub open spec fn wf(self) -> bool {
        self.arguments.wf()
    }
}

/// One resource alarm in effect on a node.
#[derive(Debug, Clone, PartialEq, Eq)]
pub struct ResourceAlarm {
    pub node: String,
    pub resource: String,
}

/// What a cluster alarm health check reported on failure.
#[derive(Debug, Clone, PartialEq, Eq)]
pub struct ClusterAlarmCheckDetails {
    pub reason: String,
    pub alarms: Vec<ResourceAlarm>,
}

/// One queue that would lose its quorum with one more replica down.
#[derive(Debug, Clone, PartialEq, Eq)]
pub struct QuorumEndangeredQueue {
    pub name: String,
    pub vhost: String,
    pub queue_type: String,
}

/// What a quorum criticality health check reported on failure.
#[derive(Debug, Clone, PartialEq, Eq)]
pub struct QuorumCriticalityCheckDetails {
    pub reason: String,
    pub queues: Vec<QuorumEndangeredQueue>,
}

/// The structured detail of a failed health check: either resource alarms
/// in effect, or quorum-critical queues on the node.
#[derive(Debug, Clone, PartialEq, Eq)]
pub enum HealthCheckFailureDetails {
    AlarmCheck(ClusterAlarmCheckDetails),
    NodeIsQuorumCritical(QuorumCriticalityCheckDetails),
}

} // verus!
