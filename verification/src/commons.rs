//! Closed sets of broker-defined kinds, each with its wire-string form.

use vstd::prelude::*;
use crate::strings::str_eq;

verus! {

/// Exchange types. Most variants are exchange types included with modern
/// RabbitMQ distributions; for custom types provided by plugins, use the
/// `Plugin(String)` variant, which carries the wire string as it is.
#[derive(Debug, Eq)]
pub enum ExchangeType {
    /// Fanout exchange
    Fanout,
    /// Topic exchange
    Topic,
    /// Direct exchange
    Direct,
    /// Headers exchange
    Headers,
    /// Consistent hashing (consistent hash) exchange
    ConsistentHashing,
    /// Modulus hash, ships with the sharding plugin
    ModulusHash,
    /// Random exchange
    Random,
    /// JMS topic exchange
    JmsTopic,
    /// Recent history exchange
    RecentHistory,
    /// All other exchange types, for example, those provided by plugins
    Plugin(String),
}

/// The wire string of an exchange type.
pub open spec fn exchange_type_wire(t: ExchangeType) -> Seq<char> {
    match t {
        ExchangeType::Fanout => "fanout"@,
        ExchangeType::Topic => "topic"@,
        ExchangeType::Direct => "direct"@,
        ExchangeType::Headers => "headers"@,
        ExchangeType::ConsistentHashing => "x-consistent-hash"@,
        ExchangeType::ModulusHash => "x-modulus-hash"@,
        ExchangeType::Random => "x-random"@,
        ExchangeType::JmsTopic => "x-jms-topic"@,
        ExchangeType::RecentHistory => "x-recent-history"@,
        ExchangeType::Plugin(s) => s@,
    }
}

impl ExchangeType {
    /// The wire string of this exchange type.
    pub fn wire_string(&self) -> (r: String)
        ensures
            r@ == exchange_type_wire(*self),
    {
        match self {
            ExchangeType::Fanout => "fanout".to_owned(),
            ExchangeType::Topic => "topic".to_owned(),
            ExchangeType::Direct => "direct".to_owned(),
            ExchangeType::Headers => "headers".to_owned(),
            ExchangeType::ConsistentHashing => "x-consistent-hash".to_owned(),
            ExchangeType::ModulusHash => "x-modulus-hash".to_owned(),
            ExchangeType::Random => "x-random".to_owned(),
            ExchangeType::JmsTopic => "x-jms-topic".to_owned(),
            ExchangeType::RecentHistory => "x-recent-history".to_owned(),
            ExchangeType::Plugin(s) => s.clone(),
        }
    }

    /// Reads an exchange type from its wire string; any string that names
    /// no built-in exchange type becomes a `Plugin` value carrying it.
    pub fn from_wire(value: &str) -> (r: ExchangeType)
        ensures
            exchange_type_wire(r) == value@,
            value@ == "fanout"@ ==> r == ExchangeType::Fanout,
            value@ == "topic"@ ==> r == ExchangeType::Topic,
            value@ == "direct"@ ==> r == ExchangeType::Direct,
            value@ == "headers"@ ==> r == ExchangeType::Headers,
            value@ == "x-consistent-hash"@ ==> r == ExchangeType::ConsistentHashing,
            value@ == "x-modulus-hash"@ ==> r == ExchangeType::ModulusHash,
            value@ == "x-random"@ ==> r == ExchangeType::Random,
            value@ == "x-jms-topic"@ ==> r == ExchangeType::JmsTopic,
            value@ == "x-recent-history"@ ==> r == ExchangeType::RecentHistory,
    {
        proof {
            reveal_strlit("fanout");
            reveal_strlit("topic");
            reveal_strlit("direct");
            reveal_strlit("headers");
            reveal_strlit("x-consistent-hash");
            reveal_strlit("x-modulus-hash");
            reveal_strlit("x-random");
            reveal_strlit("x-jms-topic");
            reveal_strlit("x-recent-history");
            assert("fanout"@.len() == 6 && "fanout"@[0] == 'f');
            assert("topic"@.len() == 5 && "topic"@[0] == 't');
            assert("direct"@.len() == 6 && "direct"@[0] == 'd');
            assert("headers"@.len() == 7 && "headers"@[0] == 'h');
            assert("x-consistent-hash"@.len() == 17 && "x-consistent-hash"@[0] == 'x');
            assert("x-modulus-hash"@.len() == 14 && "x-modulus-hash"@[0] == 'x');
            assert("x-random"@.len() == 8 && "x-random"@[0] == 'x');
            assert("x-jms-topic"@.len() == 11 && "x-jms-topic"@[0] == 'x');
            assert("x-recent-history"@.len() == 16 && "x-recent-history"@[0] == 'x');
        }
        if str_eq(value, "fanout") {
            ExchangeType::Fanout
        } else if str_eq(value, "topic") {
            ExchangeType::Topic
        } else if str_eq(value, "direct") {
            ExchangeType::Direct
        } else if str_eq(value, "headers") {
            ExchangeType::Headers
        } else if str_eq(value, "x-consistent-hash") {
            ExchangeType::ConsistentHashing
        } else if str_eq(value, "x-modulus-hash") {
            ExchangeType::ModulusHash
        } else if str_eq(value, "x-random") {
            ExchangeType::Random
        } else if str_eq(value, "x-jms-topic") {
            ExchangeType::JmsTopic
        } else if str_eq(value, "x-recent-history") {
            ExchangeType::RecentHistory
        } else {
            ExchangeType::Plugin(value.to_owned())
        }
    }
}

impl Clone for ExchangeType {
    fn clone(&self) -> (r: Self)
        ensures
            r == *self,
    {
        match self {
            ExchangeType::Fanout => ExchangeType::Fanout,
            ExchangeType::Topic => ExchangeType::Topic,
            ExchangeType::Direct => ExchangeType::Direct,
            ExchangeType::Headers => ExchangeType::Headers,
            ExchangeType::ConsistentHashing => ExchangeType::ConsistentHashing,
            ExchangeType::ModulusHash => ExchangeType::ModulusHash,
            ExchangeType::Random => ExchangeType::Random,
            ExchangeType::JmsTopic => ExchangeType::JmsTopic,
            ExchangeType::RecentHistory => ExchangeType::RecentHistory,
            ExchangeType::Plugin(s) => ExchangeType::Plugin(s.clone()),
        }
    }
}

impl PartialEq for ExchangeType {
    fn eq(&self, other: &Self) -> (r: bool) {
        match self {
            ExchangeType::Fanout => matches!(other, ExchangeType::Fanout),
            ExchangeType::Topic => matches!(other, ExchangeType::Topic),
            ExchangeType::Direct => matches!(other, ExchangeType::Direct),
            ExchangeType::Headers => matches!(other, ExchangeType::Headers),
            ExchangeType::ConsistentHashing => matches!(other, ExchangeType::ConsistentHashing),
            ExchangeType::ModulusHash => matches!(other, ExchangeType::ModulusHash),
            ExchangeType::Random => matches!(other, ExchangeType::Random),
            ExchangeType::JmsTopic => matches!(other, ExchangeType::JmsTopic),
            ExchangeType::RecentHistory => matches!(other, ExchangeType::RecentHistory),
            ExchangeType::Plugin(a) => match other {
                ExchangeType::Plugin(b) => *a == *b,
                _ => false,
            },
        }
    }
}

impl vstd::std_specs::cmp::PartialEqSpecImpl for ExchangeType {
    open spec fn obeys_eq_spec() -> bool {
        true
    }

    open spec fn eq_spec(&self, other: &Self) -> bool {
        if (*self) is Plugin && (*other) is Plugin {
            (*self)->0@ == (*other)->0@
        } else {
            *self == *other
        }
    }
}

/// Queue types supported by the broker.
#[derive(Debug, Clone, Copy, PartialEq, Eq, Structural)]
pub enum QueueType {
    Classic,
    Quorum,
    Stream,
}

/// The wire string of a queue type.
pub open spec fn queue_type_wire(t: QueueType) -> Seq<char> {
    match t {
        QueueType::Classic => "classic"@,
        QueueType::Quorum => "quorum"@,
        QueueType::Stream => "stream"@,
    }
}

impl QueueType {
    /// The wire string of this queue type.
    pub fn wire_string(&self) -> (r: String)
        ensures
            r@ == queue_type_wire(*self),
    {
        match self {
            QueueType::Classic => "classic".to_owned(),
            QueueType::Quorum => "quorum".to_owned(),
            QueueType::Stream => "stream".to_owned(),
        }
    }

    /// Reads a queue type from its wire string; any other string is taken
    /// as the classic type.
    pub fn from_wire(value: &str) -> (r: QueueType)
        ensures
            value@ == "quorum"@ ==> r == QueueType::Quorum,
            value@ == "stream"@ ==> r == QueueType::Stream,
            value@ != "quorum"@ && value@ != "stream"@ ==> r == QueueType::Classic,
    {
        proof {
            reveal_strlit("quorum");
            reveal_strlit("stream");
            assert("quorum"@.len() == 6 && "quorum"@[0] == 'q');
            assert("stream"@.len() == 6 && "stream"@[0] == 's');
        }
        if str_eq(value, "quorum") {
            QueueType::Quorum
        } else if str_eq(value, "stream") {
            QueueType::Stream
        } else {
            QueueType::Classic
        }
    }
}

/// What kind of resource a binding points at.
#[derive(Debug, Clone, Copy, PartialEq, Eq, Structural)]
pub enum BindingDestinationType {
    Queue,
    Exchange,
}

/// The wire string of a binding destination type.
pub open spec fn binding_destination_type_wire(t: BindingDestinationType) -> Seq<char> {
    match t {
        BindingDestinationType::Queue => "queue"@,
        BindingDestinationType::Exchange => "exchange"@,
    }
}

/// The one-letter path segment that stands for a binding destination type
/// in binding deletion paths.
pub open spec fn binding_destination_type_abbreviation(t: BindingDestinationType) -> Seq<char> {
    match t {
        BindingDestinationType::Queue => "q"@,
        BindingDestinationType::Exchange => "e"@,
    }
}

impl BindingDestinationType {
    /// The one-letter path segment used in binding deletion paths.
    pub fn path_appreviation(&self) -> (r: String)
        ensures
            r@ == binding_destination_type_abbreviation(*self),
    {
        match *self {
            BindingDestinationType::Queue => "q".to_owned(),
            BindingDestinationType::Exchange => "e".to_owned(),
        }
    }

    /// The wire string of this destination type.
    pub fn wire_string(&self) -> (r: String)
        ensures
            r@ == binding_destination_type_wire(*self),
    {
        match *self {
            BindingDestinationType::Queue => "queue".to_owned(),
            BindingDestinationType::Exchange => "exchange".to_owned(),
        }
    }

    /// Reads a destination type from its wire string; any other string is
    /// taken as the queue type.
    pub fn from_wire(value: &str) -> (r: BindingDestinationType)
        ensures
            value@ == "exchange"@ ==> r == BindingDestinationType::Exchange,
            value@ != "exchange"@ ==> r == BindingDestinationType::Queue,
    {
        if str_eq(value, "exchange") {
            BindingDestinationType::Exchange
        } else {
            BindingDestinationType::Queue
        }
    }
}

/// What kind of resources a policy applies to.
#[derive(Debug, Clone, Copy, PartialEq, Eq, Structural)]
pub enum PolicyTarget {
    Queues,
    ClassicQueues,
    QuorumQueues,
    Streams,
    Exchanges,
    All,
}

/// The wire string of a policy target.
pub open spec fn policy_target_wire(t: PolicyTarget) -> Seq<char> {
    match t {
        PolicyTarget::Queues => "queues"@,
        PolicyTarget::ClassicQueues => "classic_queues"@,
        PolicyTarget::QuorumQueues => "quorum_queues"@,
        PolicyTarget::Streams => "streams"@,
        PolicyTarget::Exchanges => "exchanges"@,
        PolicyTarget::All => "all"@,
    }
}

impl PolicyTarget {
    /// The wire string of this policy target.
    pub fn wire_string(&self) -> (r: String)
        ensures
            r@ == policy_target_wire(*self),
    {
        match *self {
            PolicyTarget::Queues => "queues".to_owned(),
            PolicyTarget::ClassicQueues => "classic_queues".to_owned(),
            PolicyTarget::QuorumQueues => "quorum_queues".to_owned(),
            PolicyTarget::Streams => "streams".to_owned(),
            PolicyTarget::Exchanges => "exchanges".to_owned(),
            PolicyTarget::All => "all".to_owned(),
        }
    }

    /// Reads a policy target from its wire string; any other string is
    /// taken as the queue target.
    pub fn from_wire(value: &str) -> (r: PolicyTarget)
        ensures
            value@ == "classic_queues"@ ==> r == PolicyTarget::ClassicQueues,
            value@ == "quorum_queues"@ ==> r == PolicyTarget::QuorumQueues,
            value@ == "streams"@ ==> r == PolicyTarget::Streams,
            value@ == "exchanges"@ ==> r == PolicyTarget::Exchanges,
            value@ == "all"@ ==> r == PolicyTarget::All,
            (value@ != "classic_queues"@ && value@ != "quorum_queues"@ && value@ != "streams"@
                && value@ != "exchanges"@ && value@ != "all"@) ==> r == PolicyTarget::Queues,
    {
        proof {
            reveal_strlit("classic_queues");
            reveal_strlit("quorum_queues");
            reveal_strlit("streams");
            reveal_strlit("exchanges");
            reveal_strlit("all");
            assert("classic_queues"@.len() == 14);
            assert("quorum_queues"@.len() == 13);
            assert("streams"@.len() == 7);
            assert("exchanges"@.len() == 9);
            assert("all"@.len() == 3);
        }
        if str_eq(value, "classic_queues") {
            PolicyTarget::ClassicQueues
        } else if str_eq(value, "quorum_queues") {
            PolicyTarget::QuorumQueues
        } else if str_eq(value, "streams") {
            PolicyTarget::Streams
        } else if str_eq(value, "exchanges") {
            PolicyTarget::Exchanges
        } else if str_eq(value, "all") {
            PolicyTarget::All
        } else {
            PolicyTarget::Queues
        }
    }
}

/// The limits that can be enforced for a virtual host.
#[derive(Debug, Clone, Copy, PartialEq, Eq, Structural)]
pub enum VirtualHostLimitTarget {
    MaxConnections,
    MaxQueues,
}

/// The wire string of a virtual host limit target.
pub open spec fn virtual_host_limit_target_wire(t: VirtualHostLimitTarget) -> Seq<char> {
    match t {
        VirtualHostLimitTarget::MaxConnections => "max-connections"@,
        VirtualHostLimitTarget::MaxQueues => "max-queues"@,
    }
}

impl VirtualHostLimitTarget {
    /// The wire string of this limit target.
    pub fn wire_string(&self) -> (r: String)
        ensures
            r@ == virtual_host_limit_target_wire(*self),
    {
        match *self {
            VirtualHostLimitTarget::MaxConnections => "max-connections".to_owned(),
            VirtualHostLimitTarget::MaxQueues => "max-queues".to_owned(),
        }
    }

    /// Reads a limit target from its wire string; any other string is taken
    /// as the connection limit.
    pub fn from_wire(value: &str) -> (r: VirtualHostLimitTarget)
        ensures
            value@ == "max-queues"@ ==> r == VirtualHostLimitTarget::MaxQueues,
            value@ != "max-queues"@ ==> r == VirtualHostLimitTarget::MaxConnections,
    {
        if str_eq(value, "max-queues") {
            VirtualHostLimitTarget::MaxQueues
        } else {
            VirtualHostLimitTarget::MaxConnections
        }
    }
}

/// The limits that can be enforced for a user.
#[derive(Debug, Clone, Copy, PartialEq, Eq, Structural)]
pub enum UserLimitTarget {
    MaxConnections,
    MaxChannels,
}

/// The wire string of a user limit target.
pub open spec fn user_limit_target_wire(t: UserLimitTarget) -> Seq<char> {
    match t {
        UserLimitTarget::MaxConnections => "max-connections"@,
        UserLimitTarget::MaxChannels => "max-channels"@,
    }
}

impl UserLimitTarget {
    /// The wire string of this limit target.
    pub fn wire_string(&self) -> (r: String)
        ensures
            r@ == user_limit_target_wire(*self),
    {
        match *self {
            UserLimitTarget::MaxConnections => "max-connections".to_owned(),
            UserLimitTarget::MaxChannels => "max-channels".to_owned(),
        }
    }

    /// Reads a limit target from its wire string; any other string is taken
    /// as the connection limit.
    pub fn from_wire(value: &str) -> (r: UserLimitTarget)
        ensures
            value@ == "max-channels"@ ==> r == UserLimitTarget::MaxChannels,
            value@ != "max-channels"@ ==> r == UserLimitTarget::MaxConnections,
    {
        if str_eq(value, "max-channels") {
            UserLimitTarget::MaxChannels
        } else {
            UserLimitTarget::MaxConnections
        }
    }
}

} // verus!

