//! Typed request parameters and the bodies built from them.
//!
//! Every body is a JSON object built field by field; an optional field
//! that is absent is left out of the body entirely, never written as
//! `null`, matching the API's field-presence semantics.

use vstd::prelude::*;
use vstd::string::StringSliceAdditionalSpecFns;
use crate::commons::ExchangeType;
use crate::commons::PolicyTarget;
use crate::commons::QueueType;
use crate::commons::exchange_type_wire;
use crate::commons::policy_target_wire;
use crate::commons::queue_type_wire;
use crate::json::JVal;
use crate::json::JsonMap;
use crate::json::JsonValue;

verus! {

/// Optional arguments of a queue, an exchange or a binding.
pub type XArguments = Option<JsonMap>;

/// The value of a runtime parameter: an arbitrary structured mapping
/// whose interpretation is component-specific.
pub type RuntimeParameterValue = JsonMap;

/// An optional policy definition mapping.
pub type PolicyDefinition = Option<JsonMap>;

/// Whether one of the first `i` entries of the object holds the key.
spec fn key_in_prefix(from: JsonMap, i: int, k: Seq<char>) -> bool {
    exists|j: int| 0 <= j < i && (#[trigger] from.spec_entries()[j]).0 == k
}

/// Copies the entries of `from` into `into`, replacing values of keys
/// already there.
fn put_all(into: &mut JsonMap, from: &JsonMap)
    requires
        old(into).wf(),
        from.wf(),
    ensures
        final(into).wf(),
        final(into)@ == old(into)@.union_prefer_right(from@),
{
    proof {
        from.lemma_entries();
    }
    let n = from.len();
    let mut i: usize = 0;
    while i < n
        invariant
            i <= n,
            n == from@.dom().len(),
            from.wf(),
            into.wf(),
            from@.dom().finite(),
            from.spec_entries().len() == n,
            forall|j: int|
                0 <= j < n ==> from@.contains_key((#[trigger] from.spec_entries()[j]).0)
                    && from@[from.spec_entries()[j].0] == from.spec_entries()[j].1,
            forall|k: Seq<char>|
                from@.contains_key(k) ==> exists|j: int|
                    0 <= j < n && (#[trigger] from.spec_entries()[j]).0 == k,
            forall|k: Seq<char>| #[trigger]
                key_in_prefix(*from, i as int, k) ==> into@.contains_key(k) && into@[k]
                    == from@[k],
            forall|k: Seq<char>|
                !(#[trigger] key_in_prefix(*from, i as int, k)) ==> into@.contains_key(k) == old(
                    into,
                )@.contains_key(k) && (into@.contains_key(k) ==> into@[k] == old(into)@[k]),
        decreases n - i,
    {
        let (k, v) = from.entry_at(i);
        let ghost before = into@;
        into.insert(k.as_str(), v.clone());
        proof {
            let ki = from.spec_entries()[i as int].0;
            assert(into@ == before.insert(ki, from@[ki]));
            assert forall|k2: Seq<char>| #[trigger]
                key_in_prefix(*from, i + 1, k2) implies into@.contains_key(k2) && into@[k2]
                    == from@[k2] by {
                let j = choose|j: int|
                    0 <= j < i + 1 && (#[trigger] from.spec_entries()[j]).0 == k2;
                if k2 != ki {
                    assert(from.spec_entries()[j].0 == k2);
                    assert(key_in_prefix(*from, i as int, k2));
                }
            }
            assert forall|k2: Seq<char>|
                !(#[trigger] key_in_prefix(*from, i + 1, k2)) implies into@.contains_key(k2)
                    == old(into)@.contains_key(k2) && (into@.contains_key(k2) ==> into@[k2] == old(
                    into,
                )@[k2]) by {
                assert(from.spec_entries()[i as int].0 == ki);
                assert(ki != k2);
                assert(!key_in_prefix(*from, i as int, k2)) by {
                    if key_in_prefix(*from, i as int, k2) {
                        let j = choose|j: int|
                            0 <= j < i && (#[trigger] from.spec_entries()[j]).0 == k2;
                        assert(0 <= j < i + 1 && from.spec_entries()[j].0 == k2);
                        assert(key_in_prefix(*from, i + 1, k2));
                    }
                }
            }
        }
        i = i + 1;
    }
    proof {
        let target = old(into)@.union_prefer_right(from@);
        assert forall|k: Seq<char>|
            #![trigger into@.dom().contains(k)]
            #![trigger target.dom().contains(k)]
            (into@.dom().contains(k) == target.dom().contains(k)) && (into@.dom().contains(k)
                ==> into@[k] == target[k]) by {
            if from@.contains_key(k) {
                let j = choose|j: int|
                    0 <= j < n && (#[trigger] from.spec_entries()[j]).0 == k;
                assert(key_in_prefix(*from, i as int, k));
                assert(into@.contains_key(k) && into@[k] == from@[k]);
            } else {
                assert(!key_in_prefix(*from, i as int, k)) by {
                    if key_in_prefix(*from, i as int, k) {
                        let j = choose|j: int|
                            0 <= j < i && (#[trigger] from.spec_entries()[j]).0 == k;
                        assert(from@.contains_key(from.spec_entries()[j].0));
                    }
                }
            }
        }
        assert(into@ =~= target);
    }
}

/// Virtual host creation and update parameters.
pub struct VirtualHostParams<'a> {
    pub name: &'a str,
    pub description: Option<&'a str>,
    pub tags: Option<Vec<&'a str>>,
    pub default_queue_type: Option<QueueType>,
    pub tracing: bool,
}

/// The body sent to declare or update a virtual host: the name and the
/// tracing flag always, the optional fields only when present.
pub open spec fn vhost_params_body(p: VirtualHostParams) -> Map<Seq<char>, JVal> {
    let m = Map::empty().insert("name"@, JVal::Str(p.name@)).insert(
        "tracing"@,
        JVal::Bool(p.tracing),
    );
    let m = if p.description is Some {
        m.insert("description"@, JVal::Str(p.description->0@))
    } else {
        m
    };
    let m = if p.tags is Some {
        m.insert("tags"@, JVal::Arr(p.tags->0@.map_values(|t: &str| JVal::Str(t@))))
    } else {
        m
    };
    if p.default_queue_type is Some {
        m.insert("default_queue_type"@, JVal::Str(queue_type_wire(p.default_queue_type->0)))
    } else {
        m
    }
}

impl<'a> VirtualHostParams<'a> {
    /// Parameters for a virtual host with the given name and everything
    /// else absent.
    pub fn named(name: &'a str) -> (r: VirtualHostParams<'a>)
        ensures
            r.name == name,
            r.description is None,
            r.tags is None,
            r.default_queue_type is None,
            !r.tracing,
    {
        VirtualHostParams {
            name,
            description: None,
            tags: None,
            default_queue_type: None,
            tracing: false,
        }
    }

    /// Builds the request body for these parameters.
    pub fn request_body(&self) -> (m: JsonMap)
        ensures
            m.wf(),
            m@ == vhost_params_body(*self),
    {
        let mut m = JsonMap::new();
        m.insert("name", JsonValue::of_str(self.name));
        m.insert("tracing", JsonValue::of_bool(self.tracing));
        match &self.description {
            Some(d) => m.insert("description", JsonValue::of_str(d)),
            None => (),
        }
        match &self.tags {
            Some(ts) => {
                let mut items: Vec<JsonValue> = Vec::new();
                let mut i: usize = 0;
                while i < ts.len()
                    invariant
                        i <= ts@.len(),
                        items@.len() == i,
                        forall|j: int| 0 <= j < i ==> (#[trigger] items@[j])@ == JVal::Str(
                            ts@[j]@,
                        ),
                        forall|j: int| 0 <= j < i ==> (#[trigger] items@[j]).wf(),
                    decreases ts@.len() - i,
                {
                    items.push(JsonValue::of_str(ts[i]));
                    i = i + 1;
                }
                proof {
                    assert(items@.map_values(|x: JsonValue| x@) =~= ts@.map_values(
                        |t: &str| JVal::Str(t@),
                    ));
                }
                m.insert("tags", JsonValue::of_arr(items));
            },
            None => (),
        }
        match &self.default_queue_type {
            Some(qt) => {
                let w = qt.wire_string();
                m.insert("default_queue_type", JsonValue::of_string(w));
            },
            None => (),
        }
        m
    }
}

/// One enforced limit: what is limited, and its value.  A negative value
/// means that the server enforces no value.
pub struct EnforcedLimitParams<T> {
    pub kind: T,
    pub value: i64,
}

impl<T> EnforcedLimitParams<T> {
    /// A limit of the given kind and value.
    pub fn new(kind: T, value: i64) -> (r: EnforcedLimitParams<T>)
        ensures
            r.kind == kind,
            r.value == value,
    {
        EnforcedLimitParams { kind, value }
    }
}

/// The body sent to set an enforced limit: the value under the one key
/// the endpoint reads.
pub open spec fn limit_body(value: i64) -> Map<Seq<char>, JVal> {
    Map::empty().insert("value"@, JVal::Int(value as int))
}

/// Builds the body that sets an enforced limit.
pub fn limit_request_body(value: i64) -> (m: JsonMap)
    ensures
        m.wf(),
        m@ == limit_body(value),
{
    let mut m = JsonMap::new();
    m.insert("value", JsonValue::of_i64(value));
    m
}

/// User creation parameters: the name, the salted password hash, and the
/// user's tags as one comma-separated string.
pub struct UserParams<'a> {
    pub name: &'a str,
    pub password_hash: &'a str,
    pub tags: &'a str,
}

/// The body sent to create a user.
pub open spec fn user_params_body(p: UserParams) -> Map<Seq<char>, JVal> {
    Map::empty().insert("name"@, JVal::Str(p.name@)).insert(
        "password_hash"@,
        JVal::Str(p.password_hash@),
    ).insert("tags"@, JVal::Str(p.tags@))
}

impl<'a> UserParams<'a> {
    /// Builds the request body for these parameters.
    pub fn request_body(&self) -> (m: JsonMap)
        ensures
            m.wf(),
            m@ == user_params_body(*self),
    {
        let mut m = JsonMap::new();
        m.insert("name", JsonValue::of_str(self.name));
        m.insert("password_hash", JsonValue::of_str(self.password_hash));
        m.insert("tags", JsonValue::of_str(self.tags));
        m
    }
}


/// Queue declaration parameters.
pub struct QueueParams<'a> {
    /// The name of the queue to declare.
    pub name: &'a str,
    /// The queue's type; it reaches the server inside the arguments, under
    /// the `x-queue-type` key, not as a body field of its own.
    pub queue_type: QueueType,
    pub durable: bool,
    pub auto_delete: bool,
    pub exclusive: bool,
    pub arguments: XArguments,
}

/// The arguments map sent for a queue: the queue type under
/// `x-queue-type`, then the caller's optional arguments, which win on any
/// key they share with it.
pub open spec fn combined_args_map(optional_args: Option<JsonMap>, queue_type: QueueType) -> Map<
    Seq<char>,
    JVal,
> {
    let base = Map::empty().insert("x-queue-type"@, JVal::Str(queue_type_wire(queue_type)));
    match optional_args {
        Some(m) => base.union_prefer_right(m@),
        None => base,
    }
}

/// The body sent to declare a queue: the name and the three flags, plus
/// the arguments when present.
pub open spec fn queue_params_body(p: QueueParams) -> Map<Seq<char>, JVal> {
    let m = Map::empty().insert("name"@, JVal::Str(p.name@)).insert(
        "durable"@,
        JVal::Bool(p.durable),
    ).insert("auto_delete"@, JVal::Bool(p.auto_delete)).insert(
        "exclusive"@,
        JVal::Bool(p.exclusive),
    );
    match p.arguments {
        Some(args) => m.insert("arguments"@, JVal::Obj(args@)),
        None => m,
    }
}

/// Whether a queue's optional arguments are well-formed.
pub open spec fn wf_args(args: Option<JsonMap>) -> bool {
    match args {
        Some(m) => m.wf(),
        None => true,
    }
}

impl<'a> QueueParams<'a> {
    /// Combines the caller's optional arguments with the queue type under
    /// `x-queue-type`; a caller-supplied `x-queue-type` wins.
    pub fn combined_args(optional_args: XArguments, queue_type: &QueueType) -> (r: XArguments)
        requires
            wf_args(optional_args),
        ensures
            r matches Some(m) && m.wf() && m@ == combined_args_map(optional_args, *queue_type),
    {
        let mut result = JsonMap::new();
        let w = queue_type.wire_string();
        result.insert("x-queue-type", JsonValue::of_string(w));
        match &optional_args {
            Some(args) => put_all(&mut result, args),
            None => (),
        }
        Some(result)
    }

    /// Parameters for a quorum queue: durable, not auto-deleted, not
    /// exclusive.
    pub fn new_quorum_queue(name: &'a str, optional_args: XArguments) -> (r: QueueParams<'a>)
        requires
            wf_args(optional_args),
        ensures
            r.name == name,
            r.queue_type == QueueType::Quorum,
            r.durable,
            !r.auto_delete,
            !r.exclusive,
            r.arguments matches Some(m) && m.wf() && m@ == combined_args_map(
                optional_args,
                QueueType::Quorum,
            ),
    {
        let typ = QueueType::Quorum;
        let args = Self::combined_args(optional_args, &typ);
        QueueParams {
            name,
            queue_type: QueueType::Quorum,
            durable: true,
            auto_delete: false,
            exclusive: false,
            arguments: args,
        }
    }

    /// Parameters for a stream: durable, not auto-deleted, not exclusive.
    pub fn new_stream(name: &'a str, optional_args: XArguments) -> (r: QueueParams<'a>)
        requires
            wf_args(optional_args),
        ensures
            r.name == name,
            r.queue_type == QueueType::Stream,
            r.durable,
            !r.auto_delete,
            !r.exclusive,
            r.arguments matches Some(m) && m.wf() && m@ == combined_args_map(
                optional_args,
                QueueType::Stream,
            ),
    {
        let typ = QueueType::Stream;
        let args = Self::combined_args(optional_args, &typ);
        QueueParams {
            name,
            queue_type: QueueType::Stream,
            durable: true,
            auto_delete: false,
            exclusive: false,
            arguments: args,
        }
    }

    /// Parameters for a durable classic queue: not auto-deleted, not
    /// exclusive.
    pub fn new_durable_classic_queue(name: &'a str, optional_args: XArguments) -> (r: QueueParams<
        'a,
    >)
        requires
            wf_args(optional_args),
        ensures
            r.name == name,
            r.queue_type == QueueType::Classic,
            r.durable,
            !r.auto_delete,
            !r.exclusive,
            r.arguments matches Some(m) && m.wf() && m@ == combined_args_map(
                optional_args,
                QueueType::Classic,
            ),
    {
        let typ = QueueType::Classic;
        let args = Self::combined_args(optional_args, &typ);
        QueueParams {
            name,
            queue_type: QueueType::Classic,
            durable: true,
            auto_delete: false,
            exclusive: false,
            arguments: args,
        }
    }

    /// Parameters for a queue of the given type and flags; never
    /// exclusive.
    pub fn new(
        name: &'a str,
        queue_type: QueueType,
        durable: bool,
        auto_delete: bool,
        optional_args: XArguments,
    ) -> (r: QueueParams<'a>)
        requires
            wf_args(optional_args),
        ensures
            r.name == name,
            r.queue_type == queue_type,
            r.durable == durable,
            r.auto_delete == auto_delete,
            !r.exclusive,
            r.arguments matches Some(m) && m.wf() && m@ == combined_args_map(
                optional_args,
                queue_type,
            ),
    {
        let args = Self::combined_args(optional_args, &queue_type);
        QueueParams { name, queue_type, durable, auto_delete, exclusive: false, arguments: args }
    }

    /// Builds the request body for these parameters.
    pub fn request_body(&self) -> (m: JsonMap)
        requires
            wf_args(self.arguments),
        ensures
            m.wf(),
            m@ == queue_params_body(*self),
    {
        let mut m = JsonMap::new();
        m.insert("name", JsonValue::of_str(self.name));
        m.insert("durable", JsonValue::of_bool(self.durable));
        m.insert("auto_delete", JsonValue::of_bool(self.auto_delete));
        m.insert("exclusive", JsonValue::of_bool(self.exclusive));
        match &self.arguments {
            Some(args) => m.insert("arguments", JsonValue::of_obj(args.clone())),
            None => (),
        }
        m
    }
}

/// Exchange declaration parameters.
pub struct ExchangeParams<'a> {
    pub name: &'a str,
    pub exchange_type: ExchangeType,
    pub durable: bool,
    pub auto_delete: bool,
    pub arguments: XArguments,
}

/// The body sent to declare an exchange: the name, the exchange type's
/// wire string under `type`, the two flags, plus the arguments when
/// present.
pub open spec fn exchange_params_body(p: ExchangeParams) -> Map<Seq<char>, JVal> {
    let m = Map::empty().insert("name"@, JVal::Str(p.name@)).insert(
        "type"@,
        JVal::Str(exchange_type_wire(p.exchange_type)),
    ).insert("durable"@, JVal::Bool(p.durable)).insert("auto_delete"@, JVal::Bool(p.auto_delete));
    match p.arguments {
        Some(args) => m.insert("arguments"@, JVal::Obj(args@)),
        None => m,
    }
}

impl<'a> ExchangeParams<'a> {
    /// Durable exchange of the given type: not auto-deleted.
    pub fn durable(name: &'a str, exchange_type: ExchangeType, optional_args: XArguments) -> (r:
        ExchangeParams<'a>)
        ensures
            r.name == name,
            r.exchange_type == exchange_type,
            r.durable,
            !r.auto_delete,
            r.arguments == optional_args,
    {
        Self::new(name, exchange_type, true, false, optional_args)
    }

    /// A fanout exchange.
    pub fn fanout(
        name: &'a str,
        durable: bool,
        auto_delete: bool,
        optional_args: XArguments,
    ) -> (r: ExchangeParams<'a>)
        ensures
            r.name == name,
            r.exchange_type == ExchangeType::Fanout,
            r.durable == durable,
            r.auto_delete == auto_delete,
            r.arguments == optional_args,
    {
        Self::new(name, ExchangeType::Fanout, durable, auto_delete, optional_args)
    }

    /// A durable fanout exchange: not auto-deleted.
    pub fn durable_fanout(name: &'a str, optional_args: XArguments) -> (r: ExchangeParams<'a>)
        ensures
            r.name == name,
            r.exchange_type == ExchangeType::Fanout,
            r.durable,
            !r.auto_delete,
            r.arguments == optional_args,
    {
        Self::new(name, ExchangeType::Fanout, true, false, optional_args)
    }

    /// A topic exchange.
    pub fn topic(
        name: &'a str,
        durable: bool,
        auto_delete: bool,
        optional_args: XArguments,
    ) -> (r: ExchangeParams<'a>)
        ensures
            r.name == name,
            r.exchange_type == ExchangeType::Topic,
            r.durable == durable,
            r.auto_delete == auto_delete,
            r.arguments == optional_args,
    {
        Self::new(name, ExchangeType::Topic, durable, auto_delete, optional_args)
    }

    /// A durable topic exchange: not auto-deleted.
    pub fn durable_topic(name: &'a str, optional_args: XArguments) -> (r: ExchangeParams<'a>)
        ensures
            r.name == name,
            r.exchange_type == ExchangeType::Topic,
            r.durable,
            !r.auto_delete,
            r.arguments == optional_args,
    {
        Self::new(name, ExchangeType::Topic, true, false, optional_args)
    }

    /// A direct exchange.
    pub fn direct(
        name: &'a str,
        durable: bool,
        auto_delete: bool,
        optional_args: XArguments,
    ) -> (r: ExchangeParams<'a>)
        ensures
            r.name == name,
            r.exchange_type == ExchangeType::Direct,
            r.durable == durable,
            r.auto_delete == auto_delete,
            r.arguments == optional_args,
    {
        Self::new(name, ExchangeType::Direct, durable, auto_delete, optional_args)
    }

    /// A durable direct exchange: not auto-deleted.
    pub fn durable_direct(name: &'a str, optional_args: XArguments) -> (r: ExchangeParams<'a>)
        ensures
            r.name == name,
            r.exchange_type == ExchangeType::Direct,
            r.durable,
            !r.auto_delete,
            r.arguments == optional_args,
    {
        Self::new(name, ExchangeType::Direct, true, false, optional_args)
    }

    /// A headers exchange.
    pub fn headers(
        name: &'a str,
        durable: bool,
        auto_delete: bool,
        optional_args: XArguments,
    ) -> (r: ExchangeParams<'a>)
        ensures
            r.name == name,
            r.exchange_type == ExchangeType::Headers,
            r.durable == durable,
            r.auto_delete == auto_delete,
            r.arguments == optional_args,
    {
        Self::new(name, ExchangeType::Headers, durable, auto_delete, optional_args)
    }

    /// A durable headers exchange: not auto-deleted.
    pub fn durable_headers(name: &'a str, optional_args: XArguments) -> (r: ExchangeParams<'a>)
        ensures
            r.name == name,
            r.exchange_type == ExchangeType::Headers,
            r.durable,
            !r.auto_delete,
            r.arguments == optional_args,
    {
        Self::new(name, ExchangeType::Headers, true, false, optional_args)
    }

    /// Parameters for an exchange of the given type and flags.
    pub fn new(
        name: &'a str,
        exchange_type: ExchangeType,
        durable: bool,
        auto_delete: bool,
        optional_args: XArguments,
    ) -> (r: ExchangeParams<'a>)
        ensures
            r.name == name,
            r.exchange_type == exchange_type,
            r.durable == durable,
            r.auto_delete == auto_delete,
            r.arguments == optional_args,
    {
        ExchangeParams { name, exchange_type, durable, auto_delete, arguments: optional_args }
    }

    /// Builds the request body for these parameters.
    pub fn request_body(&self) -> (m: JsonMap)
        requires
            wf_args(self.arguments),
        ensures
            m.wf(),
            m@ == exchange_params_body(*self),
    {
        let mut m = JsonMap::new();
        m.insert("name", JsonValue::of_str(self.name));
        let w = self.exchange_type.wire_string();
        m.insert("type", JsonValue::of_string(w));
        m.insert("durable", JsonValue::of_bool(self.durable));
        m.insert("auto_delete", JsonValue::of_bool(self.auto_delete));
        match &self.arguments {
            Some(args) => m.insert("arguments", JsonValue::of_obj(args.clone())),
            None => (),
        }
        m
    }
}

/// Policy declaration parameters.
pub struct PolicyParams<'a> {
    pub vhost: &'a str,
    pub name: &'a str,
    pub pattern: &'a str,
    pub apply_to: PolicyTarget,
    pub priority: i32,
    pub definition: PolicyDefinition,
}

/// The body sent to declare a policy: the identifying fields, the
/// target's wire string under `apply-to`, the priority, plus the
/// definition when present.
pub open spec fn policy_params_body(p: PolicyParams) -> Map<Seq<char>, JVal> {
    let m = Map::empty().insert("vhost"@, JVal::Str(p.vhost@)).insert(
        "name"@,
        JVal::Str(p.name@),
    ).insert("pattern"@, JVal::Str(p.pattern@)).insert(
        "apply-to"@,
        JVal::Str(policy_target_wire(p.apply_to)),
    ).insert("priority"@, JVal::Int(p.priority as int));
    match p.definition {
        Some(d) => m.insert("definition"@, JVal::Obj(d@)),
        None => m,
    }
}

impl<'a> PolicyParams<'a> {
    /// Builds the request body for these parameters.
    pub fn request_body(&self) -> (m: JsonMap)
        requires
            wf_args(self.definition),
        ensures
            m.wf(),
            m@ == policy_params_body(*self),
    {
        let mut m = JsonMap::new();
        m.insert("vhost", JsonValue::of_str(self.vhost));
        m.insert("name", JsonValue::of_str(self.name));
        m.insert("pattern", JsonValue::of_str(self.pattern));
        let w = self.apply_to.wire_string();
        m.insert("apply-to", JsonValue::of_string(w));
        m.insert("priority", JsonValue::of_i64(self.priority as i64));
        match &self.definition {
            Some(d) => m.insert("definition", JsonValue::of_obj(d.clone())),
            None => (),
        }
        m
    }
}

/// Permissions of one user in one virtual host, as three regular
/// expressions over resource names.
pub struct Permissions<'a> {
    pub user: &'a str,
    pub vhost: &'a str,
    pub configure: &'a str,
    pub read: &'a str,
    pub write: &'a str,
}

/// The body sent to declare permissions.
pub open spec fn permissions_body(p: Permissions) -> Map<Seq<char>, JVal> {
    Map::empty().insert("user"@, JVal::Str(p.user@)).insert("vhost"@, JVal::Str(p.vhost@)).insert(
        "configure"@,
        JVal::Str(p.configure@),
    ).insert("read"@, JVal::Str(p.read@)).insert("write"@, JVal::Str(p.write@))
}

impl<'a> Permissions<'a> {
    /// Builds the request body for these permissions.
    pub fn request_body(&self) -> (m: JsonMap)
        ensures
            m.wf(),
            m@ == permissions_body(*self),
    {
        let mut m = JsonMap::new();
        m.insert("user", JsonValue::of_str(self.user));
        m.insert("vhost", JsonValue::of_str(self.vhost));
        m.insert("configure", JsonValue::of_str(self.configure));
        m.insert("read", JsonValue::of_str(self.read));
        m.insert("write", JsonValue::of_str(self.write));
        m
    }
}

/// A runtime parameter: a component-scoped named value in a virtual
/// host; its identity is the triple of component, virtual host and name.
pub struct RuntimeParameterDefinition {
    pub name: String,
    pub vhost: String,
    pub component: String,
    pub value: RuntimeParameterValue,
}

/// The body sent to set a runtime parameter.
pub open spec fn runtime_parameter_body(p: RuntimeParameterDefinition) -> Map<Seq<char>, JVal> {
    Map::empty().insert("name"@, JVal::Str(p.name@)).insert("vhost"@, JVal::Str(p.vhost@)).insert(
        "component"@,
        JVal::Str(p.component@),
    ).insert("value"@, JVal::Obj(p.value@))
}

impl RuntimeParameterDefinition {
    /// Builds the request body for this parameter.
    pub fn request_body(&self) -> (m: JsonMap)
        requires
            self.value.wf(),
        ensures
            m.wf(),
            m@ == runtime_parameter_body(*self),
    {
        let mut m = JsonMap::new();
        m.insert("name", JsonValue::of_string(self.name.clone()));
        m.insert("vhost", JsonValue::of_string(self.vhost.clone()));
        m.insert("component", JsonValue::of_string(self.component.clone()));
        m.insert("value", JsonValue::of_obj(self.value.clone()));
        m
    }
}

/// The body sent to create a binding: the routing key and the arguments,
/// each present only when the caller supplied it.
pub open spec fn binding_body_map(routing_key: Option<&str>, arguments: Option<JsonMap>) -> Map<
    Seq<char>,
    JVal,
> {
    let m = Map::<Seq<char>, JVal>::empty();
    let m = match routing_key {
        Some(rk) => m.insert("routing_key"@, JVal::Str(rk@)),
        None => m,
    };
    match arguments {
        Some(args) => m.insert("arguments"@, JVal::Obj(args@)),
        None => m,
    }
}

/// Builds the body sent to create a binding.
pub fn binding_body(routing_key: Option<&str>, arguments: XArguments) -> (m: JsonMap)
    requires
        wf_args(arguments),
    ensures
        m.wf(),
        m@ == binding_body_map(routing_key, arguments),
{
    let mut m = JsonMap::new();
    match routing_key {
        Some(rk) => m.insert("routing_key", JsonValue::of_str(rk)),
        None => (),
    }
    match &arguments {
        Some(args) => m.insert("arguments", JsonValue::of_obj(args.clone())),
        None => (),
    }
    m
}

/// The body sent to rename the cluster.
pub open spec fn cluster_name_body_map(name: &str) -> Map<Seq<char>, JVal> {
    Map::empty().insert("name"@, JVal::Str(name@))
}

/// Builds the body sent to rename the cluster.
pub fn cluster_name_body(name: &str) -> (m: JsonMap)
    ensures
        m.wf(),
        m@ == cluster_name_body_map(name),
{
    let mut m = JsonMap::new();
    m.insert("name", JsonValue::of_str(name));
    m
}

/// Whether a string can be carried as an HTTP header value: every byte a
/// tab or a visible ASCII character.  A reason passed along with closing
/// a connection travels in a header, and an invalid one is rejected
/// before any network call.
pub open spec fn valid_header_value(s: &str) -> bool {
    forall|i: int|
        0 <= i < s.spec_bytes().len() ==> ((32 <= #[trigger] s.spec_bytes()[i] < 127)
            || s.spec_bytes()[i] == 9)
}

/// Rejects a string that cannot be carried as an HTTP header value,
/// before any network call is made.
pub fn validate_header_value(s: &str) -> (r: Result<(), crate::errors::Error>)
    ensures
        r == Ok::<(), crate::errors::Error>(()) <==> valid_header_value(s),
        !valid_header_value(s) ==> r == Err::<(), crate::errors::Error>(
            crate::errors::Error::InvalidInput,
        ),
{
    if is_valid_header_value(s) {
        Ok(())
    } else {
        Err(crate::errors::Error::InvalidInput)
    }
}

/// Decides whether a string can be carried as an HTTP header value.
pub fn is_valid_header_value(s: &str) -> (r: bool)
    ensures
        r == valid_header_value(s),
{
    let bytes = s.as_bytes();
    let mut i: usize = 0;
    while i < bytes.len()
        invariant
            i <= bytes@.len(),
            bytes@ == s.spec_bytes(),
            forall|j: int|
                0 <= j < i ==> ((32 <= #[trigger] bytes@[j] < 127) || bytes@[j] == 9),
        decreases bytes@.len() - i,
    {
        let b = bytes[i];
        if !((32 <= b && b < 127) || b == 9) {
            return false;
        }
        i = i + 1;
    }
    true
}

} // verus!
