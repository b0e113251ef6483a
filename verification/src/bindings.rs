//! The binding deletion resolution protocol.
//!
//! The broker's deletion endpoint addresses a binding by a server-assigned
//! properties key that the caller of a logical delete does not have.  The
//! protocol therefore lists candidate bindings, keeps those whose source,
//! routing key and arguments match the descriptor exactly, and deletes
//! only when exactly one remains: with no match the binding is not found,
//! and with two or more the protocol refuses to guess, since an arbitrary
//! choice could delete the wrong binding.
//!
//! The listing and the deletion are two separate round trips, so they are
//! not atomic: another actor may create or delete a matching binding in
//! between, which can surface as a spurious `NotFound` or delete a record
//! that still matched at listing time.  The underlying API offers no
//! atomic deletion by logical descriptor, so this race is inherent.

use vstd::prelude::*;
use crate::commons::BindingDestinationType;
use crate::commons::binding_destination_type_abbreviation;
use crate::encoding::pct_chars;
use crate::errors::Error;
use crate::json::JVal;
use crate::json::JsonMap;
use crate::paths::binding_deletion_path;
use crate::paths::encoded;
use crate::responses::BindingInfo;
use crate::strings::str_eq;

verus! {

/// Whether a server-returned binding record matches a logical binding
/// descriptor: the source, the routing key and the arguments all equal,
/// with argument equality structural and order-independent.
pub open spec fn binding_matches(
    b: BindingInfo,
    source: Seq<char>,
    routing_key: Seq<char>,
    arguments: Map<Seq<char>, JVal>,
) -> bool {
    b.source@ == source && b.routing_key@ == routing_key && b.arguments@ == arguments
}

/// How many of the records match the descriptor.
pub open spec fn match_count(
    bs: Seq<BindingInfo>,
    source: Seq<char>,
    routing_key: Seq<char>,
    arguments: Map<Seq<char>, JVal>,
) -> nat
    decreases bs,
{
    if bs.len() == 0 {
        0
    } else {
        match_count(bs.drop_last(), source, routing_key, arguments) + if binding_matches(
            bs.last(),
            source,
            routing_key,
            arguments,
        ) {
            1nat
        } else {
            0nat
        }
    }
}

/// The last record that matches the descriptor; when exactly one record
/// matches, this is that record.
pub open spec fn the_match(
    bs: Seq<BindingInfo>,
    source: Seq<char>,
    routing_key: Seq<char>,
    arguments: Map<Seq<char>, JVal>,
) -> BindingInfo
    decreases bs,
{
    if bs.len() == 0 {
        arbitrary()
    } else if binding_matches(bs.last(), source, routing_key, arguments) {
        bs.last()
    } else {
        the_match(bs.drop_last(), source, routing_key, arguments)
    }
}

/// There is no match exactly when the count is zero.
pub proof fn lemma_no_match_iff_count_zero(
    bs: Seq<BindingInfo>,
    source: Seq<char>,
    routing_key: Seq<char>,
    arguments: Map<Seq<char>, JVal>,
)
    ensures
        (match_count(bs, source, routing_key, arguments) == 0) <==> (forall|i: int|
            0 <= i < bs.len() ==> !binding_matches(#[trigger] bs[i], source, routing_key,
            arguments)),
    decreases bs.len(),
{
    if bs.len() > 0 {
        lemma_no_match_iff_count_zero(bs.drop_last(), source, routing_key, arguments);
        assert(bs[bs.len() - 1] == bs.last());
        assert(forall|i: int| 0 <= i < bs.len() - 1 ==> (#[trigger] bs.drop_last()[i]) == bs[i]);
        if match_count(bs, source, routing_key, arguments) == 0 {
            assert forall|i: int| 0 <= i < bs.len() implies !binding_matches(
                #[trigger] bs[i],
                source,
                routing_key,
                arguments,
            ) by {
                if i < bs.len() - 1 {
                    assert(!binding_matches(bs.drop_last()[i], source, routing_key, arguments));
                }
            }
        } else {
            if binding_matches(bs.last(), source, routing_key, arguments) {
                assert(binding_matches(bs[bs.len() - 1], source, routing_key, arguments));
            } else {
                assert(match_count(bs.drop_last(), source, routing_key, arguments) != 0);
                let i = choose|i: int|
                    0 <= i < bs.drop_last().len() && binding_matches(
                        #[trigger] bs.drop_last()[i],
                        source,
                        routing_key,
                        arguments,
                    );
                assert(binding_matches(bs[i], source, routing_key, arguments));
            }
        }
    }
}

/// When any record matches, `the_match` is one of the records and
/// matches the descriptor.
pub proof fn lemma_the_match_is_a_match(
    bs: Seq<BindingInfo>,
    source: Seq<char>,
    routing_key: Seq<char>,
    arguments: Map<Seq<char>, JVal>,
)
    requires
        match_count(bs, source, routing_key, arguments) >= 1,
    ensures
        binding_matches(the_match(bs, source, routing_key, arguments), source, routing_key,
        arguments),
        exists|i: int|
            0 <= i < bs.len() && #[trigger] bs[i] == the_match(bs, source, routing_key, arguments),
    decreases bs.len(),
{
    if binding_matches(bs.last(), source, routing_key, arguments) {
        assert(bs[bs.len() - 1] == bs.last());
    } else {
        lemma_the_match_is_a_match(bs.drop_last(), source, routing_key, arguments);
        let i = choose|i: int|
            0 <= i < bs.drop_last().len() && #[trigger] bs.drop_last()[i] == the_match(
                bs.drop_last(),
                source,
                routing_key,
                arguments,
            );
        assert(bs[i] == the_match(bs, source, routing_key, arguments));
    }
}

/// Removing one matching record lowers the count by one; removing a
/// record that does not match leaves it unchanged.
pub proof fn lemma_match_count_remove(
    bs: Seq<BindingInfo>,
    i: int,
    source: Seq<char>,
    routing_key: Seq<char>,
    arguments: Map<Seq<char>, JVal>,
)
    requires
        0 <= i < bs.len(),
    ensures
        match_count(bs, source, routing_key, arguments) == match_count(
            bs.remove(i),
            source,
            routing_key,
            arguments,
        ) + if binding_matches(bs[i], source, routing_key, arguments) {
            1nat
        } else {
            0nat
        },
    decreases bs.len(),
{
    if i == bs.len() - 1 {
        assert(bs.remove(i) =~= bs.drop_last());
        assert(bs[i] == bs.last());
    } else {
        lemma_match_count_remove(bs.drop_last(), i, source, routing_key, arguments);
        assert(bs.remove(i).drop_last() =~= bs.drop_last().remove(i));
        assert(bs.remove(i).last() == bs.last());
        assert(bs.drop_last()[i] == bs[i]);
    }
}

/// When exactly one record matches the descriptor, deleting it leaves no
/// matching record behind: re-listing after the deletion finds nothing
/// with that source, routing key and arguments.
pub proof fn lemma_unique_match_gone_after_delete(
    bs: Seq<BindingInfo>,
    i: int,
    source: Seq<char>,
    routing_key: Seq<char>,
    arguments: Map<Seq<char>, JVal>,
)
    requires
        match_count(bs, source, routing_key, arguments) == 1,
        0 <= i < bs.len(),
        binding_matches(bs[i], source, routing_key, arguments),
    ensures
        match_count(bs.remove(i), source, routing_key, arguments) == 0,
        forall|j: int|
            0 <= j < bs.remove(i).len() ==> !binding_matches(
                #[trigger] bs.remove(i)[j],
                source,
                routing_key,
                arguments,
            ),
{
    lemma_match_count_remove(bs, i, source, routing_key, arguments);
    lemma_no_match_iff_count_zero(bs.remove(i), source, routing_key, arguments);
}

/// Resolves a logical binding descriptor against the records listed for
/// its destination: the properties key of the single matching record,
/// `NotFound` when nothing matches, and `ManyMatchingBindings` when more
/// than one record matches and deleting would have to guess.
pub fn resolve_binding_deletion(
    bindings: &Vec<BindingInfo>,
    source: &str,
    routing_key: &str,
    arguments: &JsonMap,
) -> (r: Result<String, Error>)
    requires
        arguments.wf(),
        forall|i: int| 0 <= i < bindings@.len() ==> (#[trigger] bindings@[i]).wf(),
    ensures
        match_count(bindings@, source@, routing_key@, arguments@) == 0 ==> r == Err::<
            String,
            Error,
        >(Error::NotFound),
        match_count(bindings@, source@, routing_key@, arguments@) == 1 ==> (r matches Ok(k) && k@
            == the_match(bindings@, source@, routing_key@, arguments@).properties_key@),
        match_count(bindings@, source@, routing_key@, arguments@) >= 2 ==> r == Err::<
            String,
            Error,
        >(Error::ManyMatchingBindings),
{
    let ghost s = source@;
    let ghost rk = routing_key@;
    let ghost args = arguments@;
    let mut count: usize = 0;
    let mut last_match: usize = 0;
    let mut i: usize = 0;
    proof {
        assert(bindings@.take(0) =~= Seq::<BindingInfo>::empty());
    }
    while i < bindings.len()
        invariant
            i <= bindings@.len(),
            arguments.wf(),
            forall|j: int| 0 <= j < bindings@.len() ==> (#[trigger] bindings@[j]).wf(),
            count == match_count(bindings@.take(i as int), s, rk, args),
            count <= i,
            s == source@ && rk == routing_key@ && args == arguments@,
            count >= 1 ==> last_match < i && binding_matches(
                bindings@[last_match as int],
                s,
                rk,
                args,
            ) && the_match(bindings@.take(i as int), s, rk, args) == bindings@[last_match as int],
        decreases bindings@.len() - i,
    {
        let b = &bindings[i];
        let ghost prefix = bindings@.take(i as int);
        let ghost prefix1 = bindings@.take(i + 1);
        proof {
            assert(prefix1.drop_last() =~= prefix);
            assert(prefix1.last() == bindings@[i as int]);
        }
        let is_match = str_eq(b.source.as_str(), source) && str_eq(
            b.routing_key.as_str(),
            routing_key,
        ) && b.arguments.equals(arguments);
        if is_match {
            count = count + 1;
            last_match = i;
        }
        i = i + 1;
    }
    proof {
        assert(bindings@.take(bindings@.len() as int) =~= bindings@);
    }
    if count == 0 {
        Err(Error::NotFound)
    } else if count == 1 {
        let key = bindings[last_match].properties_key.clone();
        Ok(key)
    } else {
        Err(Error::ManyMatchingBindings)
    }
}

/// What the deletion of a resolved binding is addressed by, as a path.
pub open spec fn resolved_deletion_path(
    virtual_host: &str,
    source: &str,
    destination_type: BindingDestinationType,
    destination: &str,
    properties_key: Seq<char>,
) -> Seq<char> {
    "bindings/"@ + encoded(virtual_host) + "/e/"@ + encoded(source) + "/"@
        + binding_destination_type_abbreviation(destination_type) + "/"@ + encoded(destination)
        + "/"@ + pct_chars(vstd::utf8::encode_utf8(properties_key))
}

/// Plans the deletion of the binding that a logical descriptor names,
/// from the records listed for its destination: the path of the one
/// deletion to perform, or the error that ends the protocol with no
/// deletion performed.
pub fn plan_binding_deletion(
    bindings: &Vec<BindingInfo>,
    virtual_host: &str,
    source: &str,
    destination: &str,
    destination_type: BindingDestinationType,
    routing_key: &str,
    arguments: &JsonMap,
) -> (r: Result<String, Error>)
    requires
        arguments.wf(),
        forall|i: int| 0 <= i < bindings@.len() ==> (#[trigger] bindings@[i]).wf(),
    ensures
        match_count(bindings@, source@, routing_key@, arguments@) == 0 ==> r == Err::<
            String,
            Error,
        >(Error::NotFound),
        match_count(bindings@, source@, routing_key@, arguments@) == 1 ==> (r matches Ok(p) && p@
            == resolved_deletion_path(
            virtual_host,
            source,
            destination_type,
            destination,
            the_match(bindings@, source@, routing_key@, arguments@).properties_key@,
        )),
        match_count(bindings@, source@, routing_key@, arguments@) >= 2 ==> r == Err::<
            String,
            Error,
        >(Error::ManyMatchingBindings),
{
    match resolve_binding_deletion(bindings, source, routing_key, arguments) {
        Ok(key) => {
            let path = binding_deletion_path(
                virtual_host,
                source,
                destination_type,
                destination,
                key.as_str(),
            );
            Ok(path)
        },
        Err(e) => Err(e),
    }
}

} // verus!
