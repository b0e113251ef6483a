//! Relative resource paths for the API's endpoints.
//!
//! Every resource name is percent-encoded before it enters a path, so a
//! name containing `/`, a space or any other reserved character still
//! addresses a single path segment.

use vstd::prelude::*;
use vstd::string::StringSliceAdditionalSpecFns;
use vstd::string::StringExecFns;
use crate::commons::BindingDestinationType;
use crate::commons::UserLimitTarget;
use crate::commons::VirtualHostLimitTarget;
use crate::commons::binding_destination_type_abbreviation;
use crate::commons::user_limit_target_wire;
use crate::commons::virtual_host_limit_target_wire;
use crate::encoding::pct_chars;
use crate::encoding::percent_encode;

verus! {

/// The characters of a resource name as a percent-encoded path segment.
pub open spec fn encoded(s: &str) -> Seq<char> {
    pct_chars(s.spec_bytes())
}

/// A path of one fixed prefix and one encoded segment.
fn join1(prefix: &str, a: &str) -> (r: String)
    ensures
        r@ == prefix@ + encoded(a),
{
    let mut r = prefix.to_owned();
    let ea = percent_encode(a);
    r.append(ea.as_str());
    r
}

/// A path of one fixed prefix and two encoded segments.
fn join2(prefix: &str, a: &str, b: &str) -> (r: String)
    ensures
        r@ == prefix@ + encoded(a) + "/"@ + encoded(b),
{
    let mut r = join1(prefix, a);
    r.append("/");
    let eb = percent_encode(b);
    r.append(eb.as_str());
    r
}

/// The path that addresses one connection.
pub fn connection_path(name: &str) -> (r: String)
    ensures
        r@ == "connections/"@ + encoded(name),
{
    join1("connections/", name)
}

/// The path that lists the connections of one user.
pub fn user_connections_path(username: &str) -> (r: String)
    ensures
        r@ == "connections/username/"@ + encoded(username),
{
    join1("connections/username/", username)
}

/// The path that lists the connections in a virtual host.
pub fn vhost_connections_path(virtual_host: &str) -> (r: String)
    ensures
        r@ == "vhosts/"@ + encoded(virtual_host) + "/connections"@,
{
    let mut r = join1("vhosts/", virtual_host);
    r.append("/connections");
    r
}

/// The path that lists the channels in a virtual host.
pub fn vhost_channels_path(virtual_host: &str) -> (r: String)
    ensures
        r@ == "vhosts/"@ + encoded(virtual_host) + "/channels"@,
{
    let mut r = join1("vhosts/", virtual_host);
    r.append("/channels");
    r
}

/// The path that addresses one virtual host.
pub fn vhost_path(name: &str) -> (r: String)
    ensures
        r@ == "vhosts/"@ + encoded(name),
{
    join1("vhosts/", name)
}

/// The path that addresses one user.
pub fn user_path(name: &str) -> (r: String)
    ensures
        r@ == "users/"@ + encoded(name),
{
    join1("users/", name)
}

/// The path that lists the queues in a virtual host.
pub fn vhost_queues_path(virtual_host: &str) -> (r: String)
    ensures
        r@ == "queues/"@ + encoded(virtual_host),
{
    join1("queues/", virtual_host)
}

/// The path that addresses one queue, both to declare it and to fetch it.
pub fn queue_path(virtual_host: &str, name: &str) -> (r: String)
    ensures
        r@ == "queues/"@ + encoded(virtual_host) + "/"@ + encoded(name),
{
    join2("queues/", virtual_host, name)
}

/// The path that purges one queue's contents.
pub fn queue_purge_path(virtual_host: &str, name: &str) -> (r: String)
    ensures
        r@ == "queues/"@ + encoded(virtual_host) + "/"@ + encoded(name) + "/contents"@,
{
    let mut r = join2("queues/", virtual_host, name);
    r.append("/contents");
    r
}

/// The path that lists the bindings of one queue.
pub fn queue_bindings_path(virtual_host: &str, queue: &str) -> (r: String)
    ensures
        r@ == "queues/"@ + encoded(virtual_host) + "/"@ + encoded(queue) + "/bindings"@,
{
    let mut r = join2("queues/", virtual_host, queue);
    r.append("/bindings");
    r
}

/// The path that lists the exchanges in a virtual host.
pub fn vhost_exchanges_path(virtual_host: &str) -> (r: String)
    ensures
        r@ == "exchanges/"@ + encoded(virtual_host),
{
    join1("exchanges/", virtual_host)
}

/// The path that addresses one exchange.
pub fn exchange_path(virtual_host: &str, name: &str) -> (r: String)
    ensures
        r@ == "exchanges/"@ + encoded(virtual_host) + "/"@ + encoded(name),
{
    join2("exchanges/", virtual_host, name)
}

/// Which end of a binding an exchange stands at.
#[derive(Debug, Clone, Copy, PartialEq, Eq, Structural)]
pub enum BindindVertex {
    Source,
    Destination,
}

/// The path segment that names a binding vertex.
pub open spec fn binding_vertex_wire(v: BindindVertex) -> Seq<char> {
    match v {
        BindindVertex::Source => "source"@,
        BindindVertex::Destination => "destination"@,
    }
}

/// The path that lists the bindings of one exchange at one vertex.
pub fn exchange_bindings_path(virtual_host: &str, exchange: &str, vertex: BindindVertex) -> (r:
    String)
    ensures
        r@ == "exchanges/"@ + encoded(virtual_host) + "/"@ + encoded(exchange) + "/bindings/"@
            + binding_vertex_wire(vertex),
{
    let mut r = join2("exchanges/", virtual_host, exchange);
    r.append("/bindings/");
    match vertex {
        BindindVertex::Source => r.append("source"),
        BindindVertex::Destination => r.append("destination"),
    }
    r
}

/// The path that lists the bindings in a virtual host.
pub fn vhost_bindings_path(virtual_host: &str) -> (r: String)
    ensures
        r@ == "bindings/"@ + encoded(virtual_host),
{
    join1("bindings/", virtual_host)
}

/// The path that binds a queue to an exchange.
pub fn bind_queue_path(virtual_host: &str, exchange: &str, queue: &str) -> (r: String)
    ensures
        r@ == "bindings/"@ + encoded(virtual_host) + "/e/"@ + encoded(exchange) + "/q/"@ + encoded(
            queue,
        ),
{
    let mut r = join1("bindings/", virtual_host);
    r.append("/e/");
    let ee = percent_encode(exchange);
    r.append(ee.as_str());
    r.append("/q/");
    let eq = percent_encode(queue);
    r.append(eq.as_str());
    r
}

/// The path that binds an exchange to an exchange.
pub fn bind_exchange_path(virtual_host: &str, source: &str, destination: &str) -> (r: String)
    ensures
        r@ == "bindings/"@ + encoded(virtual_host) + "/e/"@ + encoded(source) + "/e/"@ + encoded(
            destination,
        ),
{
    let mut r = join1("bindings/", virtual_host);
    r.append("/e/");
    let es = percent_encode(source);
    r.append(es.as_str());
    r.append("/e/");
    let ed = percent_encode(destination);
    r.append(ed.as_str());
    r
}

/// The path that deletes one binding, addressed by its virtual host,
/// source exchange, destination type and name, and the server-assigned
/// properties key.
pub fn binding_deletion_path(
    virtual_host: &str,
    source: &str,
    destination_type: BindingDestinationType,
    destination: &str,
    properties_key: &str,
) -> (r: String)
    ensures
        r@ == "bindings/"@ + encoded(virtual_host) + "/e/"@ + encoded(source) + "/"@
            + binding_destination_type_abbreviation(destination_type) + "/"@ + encoded(destination)
            + "/"@ + encoded(properties_key),
{
    let mut r = join1("bindings/", virtual_host);
    r.append("/e/");
    let es = percent_encode(source);
    r.append(es.as_str());
    r.append("/");
    let abbrev = destination_type.path_appreviation();
    r.append(abbrev.as_str());
    r.append("/");
    let ed = percent_encode(destination);
    r.append(ed.as_str());
    r.append("/");
    let ek = percent_encode(properties_key);
    r.append(ek.as_str());
    r
}

/// The path that addresses the permissions of one user in one virtual
/// host.
pub fn permissions_path(virtual_host: &str, user: &str) -> (r: String)
    ensures
        r@ == "permissions/"@ + encoded(virtual_host) + "/"@ + encoded(user),
{
    join2("permissions/", virtual_host, user)
}

/// The path that lists the permissions in one virtual host.
pub fn vhost_permissions_path(virtual_host: &str) -> (r: String)
    ensures
        r@ == "vhosts/"@ + encoded(virtual_host) + "/permissions"@,
{
    let mut r = join1("vhosts/", virtual_host);
    r.append("/permissions");
    r
}

/// The path that lists the permissions of one user.
pub fn user_permissions_path(user: &str) -> (r: String)
    ensures
        r@ == "users/"@ + encoded(user) + "/permissions"@,
{
    let mut r = join1("users/", user);
    r.append("/permissions");
    r
}

/// The path that addresses one node.
pub fn node_path(name: &str) -> (r: String)
    ensures
        r@ == "nodes/"@ + encoded(name),
{
    join1("nodes/", name)
}

/// The path that lists the consumers in a virtual host.
pub fn vhost_consumers_path(virtual_host: &str) -> (r: String)
    ensures
        r@ == "consumers/"@ + encoded(virtual_host),
{
    join1("consumers/", virtual_host)
}

/// The path that lists the runtime parameters of one component.
pub fn component_runtime_parameters_path(component: &str) -> (r: String)
    ensures
        r@ == "parameters/"@ + encoded(component),
{
    join1("parameters/", component)
}

/// The path that lists the runtime parameters of one component in one
/// virtual host.
pub fn component_runtime_parameters_in_path(component: &str, virtual_host: &str) -> (r: String)
    ensures
        r@ == "parameters/"@ + encoded(component) + "/"@ + encoded(virtual_host),
{
    join2("parameters/", component, virtual_host)
}

/// The path that addresses one runtime parameter; its identity is the
/// triple of component, virtual host and name.
pub fn runtime_parameter_path(component: &str, virtual_host: &str, name: &str) -> (r: String)
    ensures
        r@ == "parameters/"@ + encoded(component) + "/"@ + encoded(virtual_host) + "/"@ + encoded(
            name,
        ),
{
    let mut r = join2("parameters/", component, virtual_host);
    r.append("/");
    let en = percent_encode(name);
    r.append(en.as_str());
    r
}

/// The path that addresses one enforced limit of one user.
pub fn user_limit_path(username: &str, kind: UserLimitTarget) -> (r: String)
    ensures
        r@ == "user-limits/"@ + encoded(username) + "/"@ + user_limit_target_wire(kind),
{
    let mut r = join1("user-limits/", username);
    r.append("/");
    let k = kind.wire_string();
    r.append(k.as_str());
    r
}

/// The path that lists the enforced limits of one user.
pub fn user_limits_path(username: &str) -> (r: String)
    ensures
        r@ == "user-limits/"@ + encoded(username),
{
    join1("user-limits/", username)
}

/// The path that addresses one enforced limit of one virtual host.
pub fn vhost_limit_path(virtual_host: &str, kind: VirtualHostLimitTarget) -> (r: String)
    ensures
        r@ == "vhost-limits/"@ + encoded(virtual_host) + "/"@ + virtual_host_limit_target_wire(
            kind,
        ),
{
    let mut r = join1("vhost-limits/", virtual_host);
    r.append("/");
    let k = kind.wire_string();
    r.append(k.as_str());
    r
}

/// The path that lists the enforced limits of one virtual host.
pub fn vhost_limits_path(virtual_host: &str) -> (r: String)
    ensures
        r@ == "vhost-limits/"@ + encoded(virtual_host),
{
    join1("vhost-limits/", virtual_host)
}

/// The path that addresses one policy.
pub fn policy_path(virtual_host: &str, name: &str) -> (r: String)
    ensures
        r@ == "policies/"@ + encoded(virtual_host) + "/"@ + encoded(name),
{
    join2("policies/", virtual_host, name)
}

/// The path that lists the policies in one virtual host.
pub fn vhost_policies_path(virtual_host: &str) -> (r: String)
    ensures
        r@ == "policies/"@ + encoded(virtual_host),
{
    join1("policies/", virtual_host)
}

/// The path that addresses one operator policy.
pub fn operator_policy_path(virtual_host: &str, name: &str) -> (r: String)
    ensures
        r@ == "operator-policies/"@ + encoded(virtual_host) + "/"@ + encoded(name),
{
    join2("operator-policies/", virtual_host, name)
}

/// The path that lists the operator policies in one virtual host.
pub fn vhost_operator_policies_path(virtual_host: &str) -> (r: String)
    ensures
        r@ == "operator-policies/"@ + encoded(virtual_host),
{
    join1("operator-policies/", virtual_host)
}

/// Joining slash-free segments with `/` is unambiguous: two equal joins
/// have equal segments.
proof fn lemma_sep_join_injective(
    p: Seq<char>,
    s1: Seq<char>,
    t1: Seq<char>,
    s2: Seq<char>,
    t2: Seq<char>,
)
    requires
        p + s1 + "/"@ + t1 == p + s2 + "/"@ + t2,
        forall|i: int| 0 <= i < s1.len() ==> #[trigger] s1[i] != '/',
        forall|i: int| 0 <= i < s2.len() ==> #[trigger] s2[i] != '/',
    ensures
        s1 == s2,
        t1 == t2,
{
    reveal_strlit("/");
    assert("/"@.len() == 1 && "/"@[0] == '/');
    let l1 = p + s1 + "/"@ + t1;
    let l2 = p + s2 + "/"@ + t2;
    assert(l1.len() == p.len() + s1.len() + 1 + t1.len());
    assert(l2.len() == p.len() + s2.len() + 1 + t2.len());
    assert(s1.len() == s2.len()) by {
        if s1.len() < s2.len() {
            assert(l1[p.len() + s1.len() as int] == '/');
            assert(l2[p.len() + s1.len() as int] == s2[s1.len() as int]);
        }
        if s2.len() < s1.len() {
            assert(l2[p.len() + s2.len() as int] == '/');
            assert(l1[p.len() + s2.len() as int] == s1[s2.len() as int]);
        }
    }
    assert forall|i: int| 0 <= i < s1.len() implies s1[i] == s2[i] by {
        assert(l1[p.len() + i] == s1[i]);
        assert(l2[p.len() + i] == s2[i]);
    }
    assert(s1 =~= s2);
    assert forall|i: int| 0 <= i < t1.len() implies t1[i] == t2[i] by {
        assert(l1[p.len() + s1.len() + 1 + i] == t1[i]);
        assert(l2[p.len() + s2.len() + 1 + i] == t2[i]);
    }
    assert(t1 =~= t2);
}

/// Paths of one encoded segment address resources faithfully: under any
/// fixed prefix, the paths built from two names are equal exactly when
/// the names are the same byte strings.  Declaring a virtual host, a
/// user or an exchange and then fetching it with the same name therefore
/// addresses the same resource.
pub proof fn lemma_single_segment_path_faithful(p: Seq<char>, n1: Seq<u8>, n2: Seq<u8>)
    ensures
        (p + pct_chars(n1) == p + pct_chars(n2)) <==> n1 == n2,
{
    if p + pct_chars(n1) == p + pct_chars(n2) {
        assert((p + pct_chars(n1)).len() == p.len() + pct_chars(n1).len());
        assert((p + pct_chars(n2)).len() == p.len() + pct_chars(n2).len());
        assert(pct_chars(n1).len() == pct_chars(n2).len());
        assert forall|i: int| 0 <= i < pct_chars(n1).len() implies pct_chars(n1)[i] == pct_chars(
            n2,
        )[i] by {
            assert((p + pct_chars(n1))[p.len() + i] == pct_chars(n1)[i]);
            assert((p + pct_chars(n2))[p.len() + i] == pct_chars(n2)[i]);
        }
        assert(pct_chars(n1) =~= pct_chars(n2));
        crate::encoding::lemma_ascii_chars_injective(
            crate::encoding::pct_bytes(n1),
            crate::encoding::pct_bytes(n2),
        );
        crate::encoding::lemma_pct_injective(n1, n2);
    }
}

/// Paths address resources faithfully: the queue path built from one
/// pair of virtual host and name equals the path built from another
/// exactly when the pairs are the same byte strings.  Declaring a
/// resource and then fetching it with the same names therefore addresses
/// the same resource, and no other pair of names can collide with it,
/// however many slashes or spaces the names hold.
pub proof fn lemma_queue_path_faithful(vh1: Seq<u8>, n1: Seq<u8>, vh2: Seq<u8>, n2: Seq<u8>)
    ensures
        ("queues/"@ + pct_chars(vh1) + "/"@ + pct_chars(n1) == "queues/"@ + pct_chars(vh2) + "/"@
            + pct_chars(n2)) <==> (vh1 == vh2 && n1 == n2),
{
    if "queues/"@ + pct_chars(vh1) + "/"@ + pct_chars(n1) == "queues/"@ + pct_chars(vh2) + "/"@
        + pct_chars(n2) {
        crate::encoding::lemma_encoded_segment_stays_single(vh1);
        crate::encoding::lemma_encoded_segment_stays_single(vh2);
        assert(("queues/"@ + pct_chars(vh1)) + "/"@ + pct_chars(n1) == ("queues/"@ + pct_chars(
            vh2,
        )) + "/"@ + pct_chars(n2));
        assert("queues/"@ + pct_chars(vh1) + "/"@ + pct_chars(n1) =~= "queues/"@ + (pct_chars(vh1)
            + "/"@ + pct_chars(n1)));
        assert("queues/"@ + pct_chars(vh2) + "/"@ + pct_chars(n2) =~= "queues/"@ + (pct_chars(vh2)
            + "/"@ + pct_chars(n2)));
        lemma_sep_join_injective(
            "queues/"@,
            pct_chars(vh1),
            pct_chars(n1),
            pct_chars(vh2),
            pct_chars(n2),
        );
        crate::encoding::lemma_ascii_chars_injective(
            crate::encoding::pct_bytes(vh1),
            crate::encoding::pct_bytes(vh2),
        );
        crate::encoding::lemma_ascii_chars_injective(
            crate::encoding::pct_bytes(n1),
            crate::encoding::pct_bytes(n2),
        );
        crate::encoding::lemma_pct_injective(vh1, vh2);
        crate::encoding::lemma_pct_injective(n1, n2);
    }
}

/// A relative path joined to the configured API root.
pub fn rooted_path(endpoint: &str, path: &str) -> (r: String)
    ensures
        r@ == endpoint@ + "/"@ + path@,
{
    let mut r = endpoint.to_owned();
    r.append("/");
    r.append(path);
    r
}

} // verus!
