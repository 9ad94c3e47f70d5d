//! Route definitions, collections of them, and the types that they use.

use std::any::TypeId;
use vstd::prelude::*;
use vstd::std_specs::iter::IteratorSpec;

use crate::builder::{collect_type, MaybeTs};
use crate::collection::RouteCollection;
use crate::registry::{merged_types, merging_adds_the_missing_slots, merging_keeps_slots};
use crate::registry::{type_id, TypeRegistry};
use crate::types::{names_are_those_of_the_parameters, HttpMethod, PathParam, RouteDefinition};

verus! {

// ---------------------------------------------------------------------------
// Route definitions
// ---------------------------------------------------------------------------

/// What a route definition says is what its fields hold.
pub proof fn definitions_say_what_their_fields_hold(route: RouteDefinition, i: int)
    ensures
        route@.name == route.name@,
        route@.method == route.method,
        route@.path == route.path@,
        route@.auth == route.auth,
        route@.redirect == route.redirect,
        route@.websocket == route.websocket,
        route@.path_params.len() == route.path_params@.len(),
        0 <= i < route.path_params@.len() ==> route@.path_params[i] == route.path_params@[i].name@,
        route@.body_type is Some <==> route.body_type is Some,
        route.body_type matches Some(text) ==> route@.body_type == Some(text@),
        route@.response_type is Some <==> route.response_type is Some,
        route.response_type matches Some(text) ==> route@.response_type == Some(text@),
        route@.query_type is Some <==> route.query_type is Some,
        route.query_type matches Some(text) ==> route@.query_type == Some(text@),
        route@.group is Some <==> route.group is Some,
        route.group matches Some(text) ==> route@.group == Some(text@),
        route@.ws_send_type is Some <==> route.ws_send_type is Some,
        route.ws_send_type matches Some(text) ==> route@.ws_send_type == Some(text@),
        route@.ws_receive_type is Some <==> route.ws_receive_type is Some,
        route.ws_receive_type matches Some(text) ==> route@.ws_receive_type == Some(text@),
{
    names_are_those_of_the_parameters(route.path_params@);
}

// ---------------------------------------------------------------------------
// Type registry
// ---------------------------------------------------------------------------

/// A new registry holds nothing.
pub proof fn new_registries_are_empty<E>(registry: TypeRegistry<E>)
    requires
        call_ensures(TypeRegistry::<E>::new, (), registry),
    ensures
        registry@.len() == 0,
{
}

/// A type is registered once: at the end if it is new, with what exports it, and
/// without any change if it is known.
pub proof fn registering<T: 'static, E>(registry: &mut TypeRegistry<E>, export: E)
    requires
        call_ensures(TypeRegistry::<E>::register::<T>, (registry, export), ()),
    ensures
        (forall|i: int|
            0 <= i < old(registry)@.len() ==> (#[trigger] old(registry)@[i]).0 != type_id::<T>())
            ==> final(registry)@ == old(registry)@.push((type_id::<T>(), export)),
        forall|i: int|
            0 <= i < old(registry)@.len() && (#[trigger] old(registry)@[i]).0 == type_id::<T>()
                ==> final(registry)@ == old(registry)@,
{
}

/// A type is found exactly if there is a slot for it.
pub proof fn finding<T: 'static, E>(registry: &TypeRegistry<E>, found: bool)
    requires
        call_ensures(TypeRegistry::<E>::contains_type::<T>, (registry,), found),
    ensures
        found <==> exists|i: int|
            0 <= i < registry@.len() && (#[trigger] registry@[i]).0 == type_id::<T>(),
{
}

/// A type that was registered is found, and each other type is found exactly if
/// it was before.
pub proof fn finding_what_was_registered<T: 'static, U: 'static, E>(
    registry: &mut TypeRegistry<E>,
    before: TypeRegistry<E>,
    after: TypeRegistry<E>,
    export: E,
    found_before: bool,
    found_type: bool,
    found_after: bool,
)
    requires
        call_ensures(TypeRegistry::<E>::register::<T>, (registry, export), ()),
        *old(registry) == before,
        *final(registry) == after,
        call_ensures(TypeRegistry::<E>::contains_type::<U>, (&before,), found_before),
        call_ensures(TypeRegistry::<E>::contains_type::<T>, (&after,), found_type),
        call_ensures(TypeRegistry::<E>::contains_type::<U>, (&after,), found_after),
    ensures
        found_type,
        found_after <==> found_before || type_id::<U>() == type_id::<T>(),
{
    crate::registry::registered_types(before@, type_id::<T>(), export, type_id::<T>());
    crate::registry::registered_types(before@, type_id::<T>(), export, type_id::<U>());
}

/// What is read off a registry is what is in it.
pub proof fn reading_a_registry<E>(
    registry: &TypeRegistry<E>,
    slots: &[(TypeId, E)],
    len: usize,
    empty: bool,
)
    requires
        call_ensures(TypeRegistry::<E>::slots, (registry,), slots),
        call_ensures(TypeRegistry::<E>::len, (registry,), len),
        call_ensures(TypeRegistry::<E>::is_empty, (registry,), empty),
    ensures
        slots@ == registry@,
        len == slots@.len(),
        empty <==> slots@.len() == 0,
        forall|i: int, j: int|
            0 <= i < j < slots@.len() ==> (#[trigger] slots@[i]).0 != (#[trigger] slots@[j]).0,
{
}

/// Merging adds those slots of the other registry, in their order, for whose
/// types there is none; the slots that are there stay in their places.
pub proof fn merging<E>(registry: &mut TypeRegistry<E>, other: TypeRegistry<E>)
    requires
        call_ensures(TypeRegistry::<E>::extend, (registry, other), ()),
        forall|i: int, j: int|
            0 <= i < j < other@.len() ==> (#[trigger] other@[i]).0 != (#[trigger] other@[j]).0,
    ensures
        final(registry)@ == old(registry)@ + other@.filter(
            |slot: (TypeId, E)|
                forall|i: int|
                    0 <= i < old(registry)@.len() ==> (#[trigger] old(registry)@[i]).0 != slot.0,
        ),
{
    merging_adds_the_missing_slots(old(registry)@, other@);
}

// ---------------------------------------------------------------------------
// Collections
// ---------------------------------------------------------------------------

/// A new collection holds no routes and no types.
pub proof fn new_collections_are_empty<E>(collection: RouteCollection<E>)
    requires
        call_ensures(RouteCollection::<E>::new, (), collection),
    ensures
        collection@.routes.len() == 0,
        collection@.types.len() == 0,
{
}

/// A route that is added comes last; the other routes and the types stay.
pub proof fn adding_a_route<E>(collection: &mut RouteCollection<E>, route: RouteDefinition)
    requires
        call_ensures(RouteCollection::<E>::push, (collection, route), ()),
    ensures
        final(collection)@.routes == old(collection)@.routes.push(route@),
        final(collection)@.types == old(collection)@.types,
{
}

/// A collection that is added to another comes behind it, route by route. Its
/// types are merged in.
pub proof fn adding_a_collection<E>(
    collection: &mut RouteCollection<E>,
    other: RouteCollection<E>,
    id: TypeId,
)
    requires
        call_ensures(RouteCollection::<E>::extend, (collection, other), ()),
    ensures
        final(collection)@.routes == old(collection)@.routes + other@.routes,
        old(collection)@.types.is_prefix_of(final(collection)@.types),
        (exists|i: int|
            0 <= i < final(collection)@.types.len() && (#[trigger] final(collection)@.types[i]).0
                == id) <==> (exists|i: int|
            0 <= i < old(collection)@.types.len() && (#[trigger] old(collection)@.types[i]).0 == id)
            || (exists|i: int| 0 <= i < other@.types.len() && (#[trigger] other@.types[i]).0 == id),
        (forall|i: int, j: int|
            0 <= i < j < other@.types.len() ==> (#[trigger] other@.types[i]).0 != (
            #[trigger] other@.types[j]).0) ==> final(collection)@.types == old(collection)@.types
            + other@.types.filter(
            |slot: (TypeId, E)|
                forall|i: int|
                    0 <= i < old(collection)@.types.len() ==> (
                    #[trigger] old(collection)@.types[i]).0 != slot.0,
        ),
{
    let before = old(collection)@.types;
    merging_keeps_slots(before, other@.types);
    merged_types(before, other@.types, id);
    if crate::registry::distinct_types(other@.types) {
        merging_adds_the_missing_slots(before, other@.types);
    }
}

/// A type is registered in a collection as in its registry; the routes stay.
pub proof fn registering_in_a_collection<T: 'static, E>(
    collection: &mut RouteCollection<E>,
    export: E,
)
    requires
        call_ensures(RouteCollection::<E>::register_type::<T>, (collection, export), ()),
    ensures
        final(collection)@.routes == old(collection)@.routes,
        (forall|i: int|
            0 <= i < old(collection)@.types.len() ==> (#[trigger] old(collection)@.types[i]).0
                != type_id::<T>()) ==> final(collection)@.types == old(collection)@.types.push(
            (type_id::<T>(), export),
        ),
        forall|i: int|
            0 <= i < old(collection)@.types.len() && (#[trigger] old(collection)@.types[i]).0
                == type_id::<T>() ==> final(collection)@.types == old(collection)@.types,
{
}

/// A type is collected if there is something to export it with; without that
/// nothing changes. The routes stay either way.
pub proof fn collecting_a_type<T: MaybeTs, E>(
    collection: &mut RouteCollection<E>,
    export: Option<E>,
)
    requires
        call_ensures(collect_type::<T, E>, (collection, export), ()),
    ensures
        final(collection)@.routes == old(collection)@.routes,
        export is None ==> final(collection)@.types == old(collection)@.types,
        export is Some && (forall|i: int|
            0 <= i < old(collection)@.types.len() ==> (#[trigger] old(collection)@.types[i]).0
                != type_id::<T>()) ==> final(collection)@.types == old(collection)@.types.push(
            (type_id::<T>(), export->0),
        ),
        forall|i: int|
            0 <= i < old(collection)@.types.len() && (#[trigger] old(collection)@.types[i]).0
                == type_id::<T>() ==> final(collection)@.types == old(collection)@.types,
{
}

/// What is read off a collection is what is in it: the same routes in the same
/// order, however they are read, and the same types.
pub proof fn reading_a_collection<E>(
    collection: &RouteCollection<E>,
    routes: &[RouteDefinition],
    types: &TypeRegistry<E>,
    len: usize,
    empty: bool,
    iter: std::slice::Iter<'_, RouteDefinition>,
    i: int,
)
    requires
        call_ensures(RouteCollection::<E>::routes, (collection,), routes),
        call_ensures(RouteCollection::<E>::types, (collection,), types),
        call_ensures(RouteCollection::<E>::len, (collection,), len),
        call_ensures(RouteCollection::<E>::is_empty, (collection,), empty),
        call_ensures(RouteCollection::<E>::iter, (collection,), iter),
    ensures
        routes@.len() == collection@.routes.len(),
        0 <= i < routes@.len() ==> routes@[i]@ == collection@.routes[i],
        types@ == collection@.types,
        len == routes@.len(),
        empty <==> routes@.len() == 0,
        IteratorSpec::remaining(&iter).len() == routes@.len(),
        0 <= i < routes@.len() ==> *IteratorSpec::remaining(&iter)[i] == routes@[i],
{
    crate::collection::routes_are_read_in_order(routes@);
}

/// A default value is a new one.
pub proof fn defaults_are_empty<E>(registry: TypeRegistry<E>, collection: RouteCollection<E>)
    requires
        call_ensures(<TypeRegistry<E> as Default>::default, (), registry),
        call_ensures(<RouteCollection<E> as Default>::default, (), collection),
    ensures
        registry@.len() == 0,
        collection@.routes.len() == 0,
        collection@.types.len() == 0,
{
}

/// A copy says what the value says; what exports a type is copied with it.
pub proof fn copies_say_the_same<E: Clone>(
    method: &HttpMethod,
    method_copy: HttpMethod,
    param: &PathParam,
    param_copy: PathParam,
    route: &RouteDefinition,
    route_copy: RouteDefinition,
    registry: &TypeRegistry<E>,
    registry_copy: TypeRegistry<E>,
    collection: &RouteCollection<E>,
    collection_copy: RouteCollection<E>,
    i: int,
)
    requires
        call_ensures(<HttpMethod as Clone>::clone, (method,), method_copy),
        call_ensures(<PathParam as Clone>::clone, (param,), param_copy),
        call_ensures(<RouteDefinition as Clone>::clone, (route,), route_copy),
        call_ensures(<TypeRegistry<E> as Clone>::clone, (registry,), registry_copy),
        call_ensures(<RouteCollection<E> as Clone>::clone, (collection,), collection_copy),
    ensures
        method_copy == *method,
        param_copy.name@ == param.name@,
        route_copy@ == route@,
        registry_copy@.len() == registry@.len(),
        0 <= i < registry@.len() ==> registry_copy@[i].0 == registry@[i].0 && cloned(
            registry@[i].1,
            registry_copy@[i].1,
        ),
        collection_copy@.routes == collection@.routes,
        collection_copy@.types.len() == collection@.types.len(),
        0 <= i < collection@.types.len() ==> collection_copy@.types[i].0 == collection@.types[i].0
            && cloned(collection@.types[i].1, collection_copy@.types[i].1),
{
}

} // verus!
