//! Building routers: settings, routes, and what is set on a route.

use axum::Router;
use std::any::TypeId;
use vstd::prelude::*;

use crate::builder::{ApiRouter, MaybeTs, PendingMeta, RouteBuilder, WsRouteBuilder};
use crate::builder::RouterView;
use crate::collection::{CollectionView, RouteCollection};
use crate::names::{default_name_from_handler, type_string};
use crate::registry::{merged_types, merging_adds_the_missing_slots, merging_keeps_slots, type_id};
use crate::types::{extract_path_params, names_are_those_of_the_parameters};
use crate::types::{HttpMethod, PathParam, RouteDefinition, RouteView};

verus! {

// ---------------------------------------------------------------------------
// Pending metadata
// ---------------------------------------------------------------------------

/// Nothing is pending at first, and what is set is what is taken, once.
pub proof fn metadata_is_pending_once<A>(
    fresh: PendingMeta<A>,
    set: &mut PendingMeta<A>,
    apply: A,
    taken_from: &mut PendingMeta<A>,
    taken: Option<A>,
    again_from: &mut PendingMeta<A>,
    again: Option<A>,
)
    requires
        call_ensures(PendingMeta::<A>::new, (), fresh),
        call_ensures(PendingMeta::<A>::set_pending_meta, (set, apply), ()),
        *old(taken_from) == *final(set),
        call_ensures(PendingMeta::<A>::take_pending_meta, (taken_from,), taken),
        *old(again_from) == *final(taken_from) || *old(again_from) == fresh,
        call_ensures(PendingMeta::<A>::take_pending_meta, (again_from,), again),
    ensures
        taken == Some(apply),
        again is None,
{
}

// ---------------------------------------------------------------------------
// Settings
// ---------------------------------------------------------------------------

/// A new builder has no routes, no types and no settings.
pub proof fn new_builders_are_blank<S, E>(api: ApiRouter<S, E>) where
    S: Clone + Send + Sync + 'static,

    requires
        call_ensures(ApiRouter::<S, E>::new, (), api),
    ensures
        api@.collection.routes.len() == 0,
        api@.collection.types.len() == 0,
        api@.group is None,
        api@.prefix is None,
        !api@.default_auth,
{
}

/// A default builder is as blank as a new one.
pub proof fn default_builders_are_blank<S, E>(api: ApiRouter<S, E>) where
    S: Clone + Send + Sync + 'static,

    requires
        call_ensures(<ApiRouter<S, E> as Default>::default, (), api),
    ensures
        api@.collection.routes.len() == 0,
        api@.collection.types.len() == 0,
        api@.group is None,
        api@.prefix is None,
        !api@.default_auth,
{
}

/// A prefix is set, and nothing else.
pub proof fn set_prefix<S, E>(before: ApiRouter<S, E>, prefix: &str, after: ApiRouter<S, E>) where
    S: Clone + Send + Sync + 'static,

    requires
        call_ensures(ApiRouter::<S, E>::set_prefix, (before, prefix), after),
    ensures
        after@ == (RouterView { prefix: Some(prefix@), ..before@ }),
{
}

/// Authentication is asked for, and nothing else.
pub proof fn auth_all<S, E>(before: ApiRouter<S, E>, after: ApiRouter<S, E>) where
    S: Clone + Send + Sync + 'static,

    requires
        call_ensures(ApiRouter::<S, E>::auth_all, (before,), after),
    ensures
        after@ == (RouterView { default_auth: true, ..before@ }),
{
}

/// A namespace is set, and nothing else.
pub proof fn group<S, E>(before: ApiRouter<S, E>, name: &str, after: ApiRouter<S, E>) where
    S: Clone + Send + Sync + 'static,

    requires
        call_ensures(ApiRouter::<S, E>::group, (before, name), after),
    ensures
        after@ == (RouterView { group: Some(name@), ..before@ }),
{
}

/// Namespace, prefix and authentication are cleared, and nothing else.
pub proof fn no_group<S, E>(before: ApiRouter<S, E>, after: ApiRouter<S, E>) where
    S: Clone + Send + Sync + 'static,

    requires
        call_ensures(ApiRouter::<S, E>::no_group, (before,), after),
    ensures
        after@ == (RouterView { group: None, prefix: None, default_auth: false, ..before@ }),
{
}

/// The inside of a group has the group's name as namespace and, behind a slash,
/// as prefix; it has no routes, no types and asks for no authentication.
pub proof fn group_scope<S, E>(name: &str, inner: ApiRouter<S, E>) where
    S: Clone + Send + Sync + 'static,

    requires
        call_ensures(ApiRouter::<S, E>::group_scope, (name,), inner),
    ensures
        inner@.group == Some(name@),
        inner@.prefix == Some(seq!['/'] + name@),
        !inner@.default_auth,
        inner@.collection.routes.len() == 0,
        inner@.collection.types.len() == 0,
{
    reveal_strlit("/");
    assert("/"@ =~= seq!['/']);
}

/// What is built is what was put together.
pub proof fn build<S, E>(api: ApiRouter<S, E>, built: (Router<S>, RouteCollection<E>)) where
    S: Clone + Send + Sync + 'static,

    requires
        call_ensures(ApiRouter::<S, E>::build, (api,), built),
    ensures
        built.0 == api@.router,
        built.1@ == api@.collection,
{
}

/// Merging takes over the routes of the other builder, behind those that are
/// there, and the types for which there are no slots. The settings stay, and the
/// routers are joined in this order.
pub proof fn merge<S, E, J>(
    before: ApiRouter<S, E>,
    other: ApiRouter<S, E>,
    join: J,
    after: ApiRouter<S, E>,
    id: TypeId,
) where S: Clone + Send + Sync + 'static, J: FnOnce(Router<S>, Router<S>) -> Router<S>
    requires
        call_ensures(ApiRouter::<S, E>::merge::<J>, (before, other, join), after),
    ensures
        call_ensures(join, (before@.router, other@.router), after@.router),
        after@.group == before@.group,
        after@.prefix == before@.prefix,
        after@.default_auth == before@.default_auth,
        after@.collection.routes == before@.collection.routes + other@.collection.routes,
        before@.collection.types.is_prefix_of(after@.collection.types),
        (exists|i: int|
            0 <= i < after@.collection.types.len() && (#[trigger] after@.collection.types[i]).0
                == id) <==> (exists|i: int|
            0 <= i < before@.collection.types.len() && (#[trigger] before@.collection.types[i]).0
                == id) || (exists|i: int|
            0 <= i < other@.collection.types.len() && (#[trigger] other@.collection.types[i]).0
                == id),
        (forall|i: int, j: int|
            0 <= i < j < other@.collection.types.len() ==> (
            #[trigger] other@.collection.types[i]).0 != (#[trigger] other@.collection.types[j]).0)
            ==> after@.collection.types == before@.collection.types
            + other@.collection.types.filter(
            |slot: (TypeId, E)|
                forall|i: int|
                    0 <= i < before@.collection.types.len() ==> (
                    #[trigger] before@.collection.types[i]).0 != slot.0,
        ),
{
    let slots = before@.collection.types;
    let more = other@.collection.types;
    merging_keeps_slots(slots, more);
    merged_types(slots, more, id);
    if crate::registry::distinct_types(more) {
        merging_adds_the_missing_slots(slots, more);
    }
}

/// A group is what its closure makes of the inside of the group, merged into the
/// builder. Nothing of the group's settings is left behind.
pub proof fn group_with<S, E, F, J>(
    before: ApiRouter<S, E>,
    name: &str,
    routes: F,
    join: J,
    after: ApiRouter<S, E>,
    id: TypeId,
) where
    S: Clone + Send + Sync + 'static,
    F: FnOnce(ApiRouter<S, E>) -> ApiRouter<S, E>,
    J: FnOnce(Router<S>, Router<S>) -> Router<S>,

    requires
        call_ensures(
            ApiRouter::<S, E>::group_with::<F, J>,
            (before, name, routes, join),
            after,
        ),
    ensures
        after@.group == before@.group,
        after@.prefix == before@.prefix,
        after@.default_auth == before@.default_auth,
        before@.collection.types.is_prefix_of(after@.collection.types),
        exists|inner: ApiRouter<S, E>, filled: ApiRouter<S, E>|
            {
                &&& #[trigger] call_ensures(routes, (inner,), filled)
                &&& inner@.group == Some(name@)
                &&& inner@.prefix == Some(seq!['/'] + name@)
                &&& !inner@.default_auth
                &&& inner@.collection.routes.len() == 0
                &&& inner@.collection.types.len() == 0
                &&& call_ensures(join, (before@.router, filled@.router), after@.router)
                &&& after@.collection.routes == before@.collection.routes
                    + filled@.collection.routes
                &&& (exists|i: int|
                    0 <= i < after@.collection.types.len() && (
                    #[trigger] after@.collection.types[i]).0 == id) <==> (exists|i: int|
                    0 <= i < before@.collection.types.len() && (
                    #[trigger] before@.collection.types[i]).0 == id) || (exists|i: int|
                    0 <= i < filled@.collection.types.len() && (
                    #[trigger] filled@.collection.types[i]).0 == id)
            },
{
    let (inner, filled) = choose|inner: ApiRouter<S, E>, filled: ApiRouter<S, E>|
        crate::builder::is_group_scope(inner, name@) && #[trigger] call_ensures(
            routes,
            (inner,),
            filled,
        ) && call_ensures(join, (before@.router, filled@.router), after@.router) && after@
            == before@.joined(after@.router, filled@.collection);
    reveal_strlit("/");
    assert("/"@ =~= seq!['/']);
    merging_keeps_slots(before@.collection.types, filled@.collection.types);
    merged_types(before@.collection.types, filled@.collection.types, id);
}

// ---------------------------------------------------------------------------
// Adding routes
// ---------------------------------------------------------------------------

/// A GET route: its handler answers that method under the prefix and the
/// path, in this order; it is named after the handler; its parameters are those
/// of the whole path; it has the settings of the builder, which stay. Pending
/// metadata is taken and applied to it, and to the collection.
pub proof fn get<S, E, H, W, A>(
    before: ApiRouter<S, E>,
    given: &str,
    handler: H,
    full_name: &str,
    wire: W,
    pending: &mut PendingMeta<A>,
    after: RouteBuilder<S, E>,
    path: &str,
    name: String,
    params: Vec<PathParam>,
) where
    S: Clone + Send + Sync + 'static,
    W: FnOnce(Router<S>, &str, HttpMethod, H) -> Router<S>,
    A: FnOnce(RouteDefinition, RouteCollection<E>) -> (RouteDefinition, RouteCollection<E>),

    requires
        call_ensures(
            ApiRouter::<S, E>::get::<H, W, A>,
            (before, given, handler, full_name, wire, pending),
            after,
        ),
        before@.prefix is None ==> path@ == given@,
        before@.prefix matches Some(prefix) ==> path@ == prefix + given@,
        call_ensures(default_name_from_handler, (full_name,), name),
        call_ensures(extract_path_params, (path,), params),
    ensures
        final(pending)@ is None,
        after@.parent.group == before@.group,
        after@.parent.prefix == before@.prefix,
        after@.parent.default_auth == before@.default_auth,
        exists|at: &str|
            at@ == path@ && #[trigger] call_ensures(
                wire,
                (before@.router, at, HttpMethod::Get, handler),
                after@.parent.router,
            ),
        old(pending)@ is None ==> after@.parent.collection == before@.collection && after@.def == (
        RouteView {
            name: name@,
            method: HttpMethod::Get,
            path: path@,
            auth: before@.default_auth,
            body_type: None,
            response_type: None,
            query_type: None,
            path_params: Seq::new(params@.len(), |i: int| params@[i].name@),
            group: before@.group,
            redirect: false,
            websocket: false,
            ws_send_type: None,
            ws_receive_type: None,
        }),
        old(pending)@ matches Some(apply) ==> exists|
            def: RouteDefinition,
            routes: RouteCollection<E>,
            new_def: RouteDefinition,
            new_routes: RouteCollection<E>,
        |
            {
                &&& #[trigger] call_ensures(apply, (def, routes), (new_def, new_routes))
                &&& routes@ == before@.collection
                &&& def@ == (RouteView {
                    name: name@,
                    method: HttpMethod::Get,
                    path: path@,
                    auth: before@.default_auth,
                    body_type: None,
                    response_type: None,
                    query_type: None,
                    path_params: Seq::new(params@.len(), |i: int| params@[i].name@),
                    group: before@.group,
                    redirect: false,
                    websocket: false,
                    ws_send_type: None,
                    ws_receive_type: None,
                })
                &&& new_def@ == after@.def
                &&& new_routes@ == after@.parent.collection
            },
{
    names_are_those_of_the_parameters(params@);
    assert(crate::types::names_of(params@) =~= Seq::new(
        params@.len(),
        |i: int| params@[i].name@,
    ));
}

/// A GET route can be added wherever its handler can be put under the path
/// that belongs to it and the pending metadata, if any, can be applied.
pub proof fn get_can_be_called<S, E, H, W, A>(
    before: ApiRouter<S, E>,
    given: &str,
    handler: H,
    full_name: &str,
    wire: W,
    pending: &mut PendingMeta<A>,
    path: Seq<char>,
) where
    S: Clone + Send + Sync + 'static,
    W: FnOnce(Router<S>, &str, HttpMethod, H) -> Router<S>,
    A: FnOnce(RouteDefinition, RouteCollection<E>) -> (RouteDefinition, RouteCollection<E>),

    requires
        before@.prefix is None ==> path == given@,
        before@.prefix matches Some(prefix) ==> path == prefix + given@,
        forall|at: &str|
            at@ == path ==> #[trigger] call_requires(
                wire,
                (before@.router, at, HttpMethod::Get, handler),
            ),
        old(pending)@ matches Some(apply) ==> forall|
            def: RouteDefinition,
            routes: RouteCollection<E>,
        | #[trigger]
            call_requires(apply, (def, routes)),
    ensures
        call_requires(
            ApiRouter::<S, E>::get::<H, W, A>,
            (before, given, handler, full_name, wire, pending),
        ),
{
}

/// A POST route: its handler answers that method under the prefix and the
/// path, in this order; it is named after the handler; its parameters are those
/// of the whole path; it has the settings of the builder, which stay. Pending
/// metadata is taken and applied to it, and to the collection.
pub proof fn post<S, E, H, W, A>(
    before: ApiRouter<S, E>,
    given: &str,
    handler: H,
    full_name: &str,
    wire: W,
    pending: &mut PendingMeta<A>,
    after: RouteBuilder<S, E>,
    path: &str,
    name: String,
    params: Vec<PathParam>,
) where
    S: Clone + Send + Sync + 'static,
    W: FnOnce(Router<S>, &str, HttpMethod, H) -> Router<S>,
    A: FnOnce(RouteDefinition, RouteCollection<E>) -> (RouteDefinition, RouteCollection<E>),

    requires
        call_ensures(
            ApiRouter::<S, E>::post::<H, W, A>,
            (before, given, handler, full_name, wire, pending),
            after,
        ),
        before@.prefix is None ==> path@ == given@,
        before@.prefix matches Some(prefix) ==> path@ == prefix + given@,
        call_ensures(default_name_from_handler, (full_name,), name),
        call_ensures(extract_path_params, (path,), params),
    ensures
        final(pending)@ is None,
        after@.parent.group == before@.group,
        after@.parent.prefix == before@.prefix,
        after@.parent.default_auth == before@.default_auth,
        exists|at: &str|
            at@ == path@ && #[trigger] call_ensures(
                wire,
                (before@.router, at, HttpMethod::Post, handler),
                after@.parent.router,
            ),
        old(pending)@ is None ==> after@.parent.collection == before@.collection && after@.def == (
        RouteView {
            name: name@,
            method: HttpMethod::Post,
            path: path@,
            auth: before@.default_auth,
            body_type: None,
            response_type: None,
            query_type: None,
            path_params: Seq::new(params@.len(), |i: int| params@[i].name@),
            group: before@.group,
            redirect: false,
            websocket: false,
            ws_send_type: None,
            ws_receive_type: None,
        }),
        old(pending)@ matches Some(apply) ==> exists|
            def: RouteDefinition,
            routes: RouteCollection<E>,
            new_def: RouteDefinition,
            new_routes: RouteCollection<E>,
        |
            {
                &&& #[trigger] call_ensures(apply, (def, routes), (new_def, new_routes))
                &&& routes@ == before@.collection
                &&& def@ == (RouteView {
                    name: name@,
                    method: HttpMethod::Post,
                    path: path@,
                    auth: before@.default_auth,
                    body_type: None,
                    response_type: None,
                    query_type: None,
                    path_params: Seq::new(params@.len(), |i: int| params@[i].name@),
                    group: before@.group,
                    redirect: false,
                    websocket: false,
                    ws_send_type: None,
                    ws_receive_type: None,
                })
                &&& new_def@ == after@.def
                &&& new_routes@ == after@.parent.collection
            },
{
    names_are_those_of_the_parameters(params@);
    assert(crate::types::names_of(params@) =~= Seq::new(
        params@.len(),
        |i: int| params@[i].name@,
    ));
}

/// A POST route can be added wherever its handler can be put under the path
/// that belongs to it and the pending metadata, if any, can be applied.
pub proof fn post_can_be_called<S, E, H, W, A>(
    before: ApiRouter<S, E>,
    given: &str,
    handler: H,
    full_name: &str,
    wire: W,
    pending: &mut PendingMeta<A>,
    path: Seq<char>,
) where
    S: Clone + Send + Sync + 'static,
    W: FnOnce(Router<S>, &str, HttpMethod, H) -> Router<S>,
    A: FnOnce(RouteDefinition, RouteCollection<E>) -> (RouteDefinition, RouteCollection<E>),

    requires
        before@.prefix is None ==> path == given@,
        before@.prefix matches Some(prefix) ==> path == prefix + given@,
        forall|at: &str|
            at@ == path ==> #[trigger] call_requires(
                wire,
                (before@.router, at, HttpMethod::Post, handler),
            ),
        old(pending)@ matches Some(apply) ==> forall|
            def: RouteDefinition,
            routes: RouteCollection<E>,
        | #[trigger]
            call_requires(apply, (def, routes)),
    ensures
        call_requires(
            ApiRouter::<S, E>::post::<H, W, A>,
            (before, given, handler, full_name, wire, pending),
        ),
{
}

/// A PUT route: its handler answers that method under the prefix and the
/// path, in this order; it is named after the handler; its parameters are those
/// of the whole path; it has the settings of the builder, which stay. Pending
/// metadata is taken and applied to it, and to the collection.
pub proof fn put<S, E, H, W, A>(
    before: ApiRouter<S, E>,
    given: &str,
    handler: H,
    full_name: &str,
    wire: W,
    pending: &mut PendingMeta<A>,
    after: RouteBuilder<S, E>,
    path: &str,
    name: String,
    params: Vec<PathParam>,
) where
    S: Clone + Send + Sync + 'static,
    W: FnOnce(Router<S>, &str, HttpMethod, H) -> Router<S>,
    A: FnOnce(RouteDefinition, RouteCollection<E>) -> (RouteDefinition, RouteCollection<E>),

    requires
        call_ensures(
            ApiRouter::<S, E>::put::<H, W, A>,
            (before, given, handler, full_name, wire, pending),
            after,
        ),
        before@.prefix is None ==> path@ == given@,
        before@.prefix matches Some(prefix) ==> path@ == prefix + given@,
        call_ensures(default_name_from_handler, (full_name,), name),
        call_ensures(extract_path_params, (path,), params),
    ensures
        final(pending)@ is None,
        after@.parent.group == before@.group,
        after@.parent.prefix == before@.prefix,
        after@.parent.default_auth == before@.default_auth,
        exists|at: &str|
            at@ == path@ && #[trigger] call_ensures(
                wire,
                (before@.router, at, HttpMethod::Put, handler),
                after@.parent.router,
            ),
        old(pending)@ is None ==> after@.parent.collection == before@.collection && after@.def == (
        RouteView {
            name: name@,
            method: HttpMethod::Put,
            path: path@,
            auth: before@.default_auth,
            body_type: None,
            response_type: None,
            query_type: None,
            path_params: Seq::new(params@.len(), |i: int| params@[i].name@),
            group: before@.group,
            redirect: false,
            websocket: false,
            ws_send_type: None,
            ws_receive_type: None,
        }),
        old(pending)@ matches Some(apply) ==> exists|
            def: RouteDefinition,
            routes: RouteCollection<E>,
            new_def: RouteDefinition,
            new_routes: RouteCollection<E>,
        |
            {
                &&& #[trigger] call_ensures(apply, (def, routes), (new_def, new_routes))
                &&& routes@ == before@.collection
                &&& def@ == (RouteView {
                    name: name@,
                    method: HttpMethod::Put,
                    path: path@,
                    auth: before@.default_auth,
                    body_type: None,
                    response_type: None,
                    query_type: None,
                    path_params: Seq::new(params@.len(), |i: int| params@[i].name@),
                    group: before@.group,
                    redirect: false,
                    websocket: false,
                    ws_send_type: None,
                    ws_receive_type: None,
                })
                &&& new_def@ == after@.def
                &&& new_routes@ == after@.parent.collection
            },
{
    names_are_those_of_the_parameters(params@);
    assert(crate::types::names_of(params@) =~= Seq::new(
        params@.len(),
        |i: int| params@[i].name@,
    ));
}

/// A PUT route can be added wherever its handler can be put under the path
/// that belongs to it and the pending metadata, if any, can be applied.
pub proof fn put_can_be_called<S, E, H, W, A>(
    before: ApiRouter<S, E>,
    given: &str,
    handler: H,
    full_name: &str,
    wire: W,
    pending: &mut PendingMeta<A>,
    path: Seq<char>,
) where
    S: Clone + Send + Sync + 'static,
    W: FnOnce(Router<S>, &str, HttpMethod, H) -> Router<S>,
    A: FnOnce(RouteDefinition, RouteCollection<E>) -> (RouteDefinition, RouteCollection<E>),

    requires
        before@.prefix is None ==> path == given@,
        before@.prefix matches Some(prefix) ==> path == prefix + given@,
        forall|at: &str|
            at@ == path ==> #[trigger] call_requires(
                wire,
                (before@.router, at, HttpMethod::Put, handler),
            ),
        old(pending)@ matches Some(apply) ==> forall|
            def: RouteDefinition,
            routes: RouteCollection<E>,
        | #[trigger]
            call_requires(apply, (def, routes)),
    ensures
        call_requires(
            ApiRouter::<S, E>::put::<H, W, A>,
            (before, given, handler, full_name, wire, pending),
        ),
{
}

/// A PATCH route: its handler answers that method under the prefix and the
/// path, in this order; it is named after the handler; its parameters are those
/// of the whole path; it has the settings of the builder, which stay. Pending
/// metadata is taken and applied to it, and to the collection.
pub proof fn patch<S, E, H, W, A>(
    before: ApiRouter<S, E>,
    given: &str,
    handler: H,
    full_name: &str,
    wire: W,
    pending: &mut PendingMeta<A>,
    after: RouteBuilder<S, E>,
    path: &str,
    name: String,
    params: Vec<PathParam>,
) where
    S: Clone + Send + Sync + 'static,
    W: FnOnce(Router<S>, &str, HttpMethod, H) -> Router<S>,
    A: FnOnce(RouteDefinition, RouteCollection<E>) -> (RouteDefinition, RouteCollection<E>),

    requires
        call_ensures(
            ApiRouter::<S, E>::patch::<H, W, A>,
            (before, given, handler, full_name, wire, pending),
            after,
        ),
        before@.prefix is None ==> path@ == given@,
        before@.prefix matches Some(prefix) ==> path@ == prefix + given@,
        call_ensures(default_name_from_handler, (full_name,), name),
        call_ensures(extract_path_params, (path,), params),
    ensures
        final(pending)@ is None,
        after@.parent.group == before@.group,
        after@.parent.prefix == before@.prefix,
        after@.parent.default_auth == before@.default_auth,
        exists|at: &str|
            at@ == path@ && #[trigger] call_ensures(
                wire,
                (before@.router, at, HttpMethod::Patch, handler),
                after@.parent.router,
            ),
        old(pending)@ is None ==> after@.parent.collection == before@.collection && after@.def == (
        RouteView {
            name: name@,
            method: HttpMethod::Patch,
            path: path@,
            auth: before@.default_auth,
            body_type: None,
            response_type: None,
            query_type: None,
            path_params: Seq::new(params@.len(), |i: int| params@[i].name@),
            group: before@.group,
            redirect: false,
            websocket: false,
            ws_send_type: None,
            ws_receive_type: None,
        }),
        old(pending)@ matches Some(apply) ==> exists|
            def: RouteDefinition,
            routes: RouteCollection<E>,
            new_def: RouteDefinition,
            new_routes: RouteCollection<E>,
        |
            {
                &&& #[trigger] call_ensures(apply, (def, routes), (new_def, new_routes))
                &&& routes@ == before@.collection
                &&& def@ == (RouteView {
                    name: name@,
                    method: HttpMethod::Patch,
                    path: path@,
                    auth: before@.default_auth,
                    body_type: None,
                    response_type: None,
                    query_type: None,
                    path_params: Seq::new(params@.len(), |i: int| params@[i].name@),
                    group: before@.group,
                    redirect: false,
                    websocket: false,
                    ws_send_type: None,
                    ws_receive_type: None,
                })
                &&& new_def@ == after@.def
                &&& new_routes@ == after@.parent.collection
            },
{
    names_are_those_of_the_parameters(params@);
    assert(crate::types::names_of(params@) =~= Seq::new(
        params@.len(),
        |i: int| params@[i].name@,
    ));
}

/// A PATCH route can be added wherever its handler can be put under the path
/// that belongs to it and the pending metadata, if any, can be applied.
pub proof fn patch_can_be_called<S, E, H, W, A>(
    before: ApiRouter<S, E>,
    given: &str,
    handler: H,
    full_name: &str,
    wire: W,
    pending: &mut PendingMeta<A>,
    path: Seq<char>,
) where
    S: Clone + Send + Sync + 'static,
    W: FnOnce(Router<S>, &str, HttpMethod, H) -> Router<S>,
    A: FnOnce(RouteDefinition, RouteCollection<E>) -> (RouteDefinition, RouteCollection<E>),

    requires
        before@.prefix is None ==> path == given@,
        before@.prefix matches Some(prefix) ==> path == prefix + given@,
        forall|at: &str|
            at@ == path ==> #[trigger] call_requires(
                wire,
                (before@.router, at, HttpMethod::Patch, handler),
            ),
        old(pending)@ matches Some(apply) ==> forall|
            def: RouteDefinition,
            routes: RouteCollection<E>,
        | #[trigger]
            call_requires(apply, (def, routes)),
    ensures
        call_requires(
            ApiRouter::<S, E>::patch::<H, W, A>,
            (before, given, handler, full_name, wire, pending),
        ),
{
}

/// A DELETE route: its handler answers that method under the prefix and the
/// path, in this order; it is named after the handler; its parameters are those
/// of the whole path; it has the settings of the builder, which stay. Pending
/// metadata is taken and applied to it, and to the collection.
pub proof fn delete<S, E, H, W, A>(
    before: ApiRouter<S, E>,
    given: &str,
    handler: H,
    full_name: &str,
    wire: W,
    pending: &mut PendingMeta<A>,
    after: RouteBuilder<S, E>,
    path: &str,
    name: String,
    params: Vec<PathParam>,
) where
    S: Clone + Send + Sync + 'static,
    W: FnOnce(Router<S>, &str, HttpMethod, H) -> Router<S>,
    A: FnOnce(RouteDefinition, RouteCollection<E>) -> (RouteDefinition, RouteCollection<E>),

    requires
        call_ensures(
            ApiRouter::<S, E>::delete::<H, W, A>,
            (before, given, handler, full_name, wire, pending),
            after,
        ),
        before@.prefix is None ==> path@ == given@,
        before@.prefix matches Some(prefix) ==> path@ == prefix + given@,
        call_ensures(default_name_from_handler, (full_name,), name),
        call_ensures(extract_path_params, (path,), params),
    ensures
        final(pending)@ is None,
        after@.parent.group == before@.group,
        after@.parent.prefix == before@.prefix,
        after@.parent.default_auth == before@.default_auth,
        exists|at: &str|
            at@ == path@ && #[trigger] call_ensures(
                wire,
                (before@.router, at, HttpMethod::Delete, handler),
                after@.parent.router,
            ),
        old(pending)@ is None ==> after@.parent.collection == before@.collection && after@.def == (
        RouteView {
            name: name@,
            method: HttpMethod::Delete,
            path: path@,
            auth: before@.default_auth,
            body_type: None,
            response_type: None,
            query_type: None,
            path_params: Seq::new(params@.len(), |i: int| params@[i].name@),
            group: before@.group,
            redirect: false,
            websocket: false,
            ws_send_type: None,
            ws_receive_type: None,
        }),
        old(pending)@ matches Some(apply) ==> exists|
            def: RouteDefinition,
            routes: RouteCollection<E>,
            new_def: RouteDefinition,
            new_routes: RouteCollection<E>,
        |
            {
                &&& #[trigger] call_ensures(apply, (def, routes), (new_def, new_routes))
                &&& routes@ == before@.collection
                &&& def@ == (RouteView {
                    name: name@,
                    method: HttpMethod::Delete,
                    path: path@,
                    auth: before@.default_auth,
                    body_type: None,
                    response_type: None,
                    query_type: None,
                    path_params: Seq::new(params@.len(), |i: int| params@[i].name@),
                    group: before@.group,
                    redirect: false,
                    websocket: false,
                    ws_send_type: None,
                    ws_receive_type: None,
                })
                &&& new_def@ == after@.def
                &&& new_routes@ == after@.parent.collection
            },
{
    names_are_those_of_the_parameters(params@);
    assert(crate::types::names_of(params@) =~= Seq::new(
        params@.len(),
        |i: int| params@[i].name@,
    ));
}

/// A DELETE route can be added wherever its handler can be put under the path
/// that belongs to it and the pending metadata, if any, can be applied.
pub proof fn delete_can_be_called<S, E, H, W, A>(
    before: ApiRouter<S, E>,
    given: &str,
    handler: H,
    full_name: &str,
    wire: W,
    pending: &mut PendingMeta<A>,
    path: Seq<char>,
) where
    S: Clone + Send + Sync + 'static,
    W: FnOnce(Router<S>, &str, HttpMethod, H) -> Router<S>,
    A: FnOnce(RouteDefinition, RouteCollection<E>) -> (RouteDefinition, RouteCollection<E>),

    requires
        before@.prefix is None ==> path == given@,
        before@.prefix matches Some(prefix) ==> path == prefix + given@,
        forall|at: &str|
            at@ == path ==> #[trigger] call_requires(
                wire,
                (before@.router, at, HttpMethod::Delete, handler),
            ),
        old(pending)@ matches Some(apply) ==> forall|
            def: RouteDefinition,
            routes: RouteCollection<E>,
        | #[trigger]
            call_requires(apply, (def, routes)),
    ensures
        call_requires(
            ApiRouter::<S, E>::delete::<H, W, A>,
            (before, given, handler, full_name, wire, pending),
        ),
{
}

/// A WebSocket route: its handler answers GET under the prefix and the path, in
/// this order; it is named after the handler; its parameters are those of the
/// whole path; it has the settings of the builder, which stay.
pub proof fn ws<S, E, H, W>(
    before: ApiRouter<S, E>,
    given: &str,
    handler: H,
    full_name: &str,
    wire: W,
    after: WsRouteBuilder<S, E>,
    path: &str,
    name: String,
    params: Vec<PathParam>,
) where
    S: Clone + Send + Sync + 'static,
    W: FnOnce(Router<S>, &str, HttpMethod, H) -> Router<S>,

    requires
        call_ensures(
            ApiRouter::<S, E>::ws::<H, W>,
            (before, given, handler, full_name, wire),
            after,
        ),
        before@.prefix is None ==> path@ == given@,
        before@.prefix matches Some(prefix) ==> path@ == prefix + given@,
        call_ensures(default_name_from_handler, (full_name,), name),
        call_ensures(extract_path_params, (path,), params),
    ensures
        after@.parent == (RouterView { router: after@.parent.router, ..before@ }),
        exists|at: &str|
            at@ == path@ && #[trigger] call_ensures(
                wire,
                (before@.router, at, HttpMethod::Get, handler),
                after@.parent.router,
            ),
        after@.def == (RouteView {
            name: name@,
            method: HttpMethod::Get,
            path: path@,
            auth: before@.default_auth,
            body_type: None,
            response_type: None,
            query_type: None,
            path_params: Seq::new(params@.len(), |i: int| params@[i].name@),
            group: before@.group,
            redirect: false,
            websocket: true,
            ws_send_type: None,
            ws_receive_type: None,
        }),
{
    names_are_those_of_the_parameters(params@);
    assert(crate::types::names_of(params@) =~= Seq::new(
        params@.len(),
        |i: int| params@[i].name@,
    ));
}

// ---------------------------------------------------------------------------
// HTTP routes
// ---------------------------------------------------------------------------

/// The body type is recorded by its name in the client, and collected if it
/// is new and there is something to export it with. Nothing else changes.
pub proof fn body<T: MaybeTs, S, E>(
    before: RouteBuilder<S, E>,
    full_name: &str,
    export: Option<E>,
    after: RouteBuilder<S, E>,
    name: String,
) where S: Clone + Send + Sync + 'static
    requires
        call_ensures(RouteBuilder::<S, E>::body::<T>, (before, full_name, export), after),
        call_ensures(type_string, (full_name,), name),
    ensures
        after@.def == (RouteView { body_type: Some(name@), ..before@.def }),
        after@.parent == (RouterView {
            collection: CollectionView {
                types: after@.parent.collection.types,
                ..before@.parent.collection
            },
            ..before@.parent
        }),
        export is None ==> after@.parent == before@.parent,
        export is Some && (forall|i: int|
            0 <= i < before@.parent.collection.types.len() ==> (
            #[trigger] before@.parent.collection.types[i]).0 != type_id::<T>())
            ==> after@.parent.collection.types == before@.parent.collection.types.push(
            (type_id::<T>(), export->0),
        ),
        forall|i: int|
            0 <= i < before@.parent.collection.types.len() && (
            #[trigger] before@.parent.collection.types[i]).0 == type_id::<T>() ==> after@.parent
                == before@.parent,
{
}

/// The response type is recorded by its name in the client, and collected if it
/// is new and there is something to export it with. Nothing else changes.
pub proof fn response<T: MaybeTs, S, E>(
    before: RouteBuilder<S, E>,
    full_name: &str,
    export: Option<E>,
    after: RouteBuilder<S, E>,
    name: String,
) where S: Clone + Send + Sync + 'static
    requires
        call_ensures(RouteBuilder::<S, E>::response::<T>, (before, full_name, export), after),
        call_ensures(type_string, (full_name,), name),
    ensures
        after@.def == (RouteView { response_type: Some(name@), ..before@.def }),
        after@.parent == (RouterView {
            collection: CollectionView {
                types: after@.parent.collection.types,
                ..before@.parent.collection
            },
            ..before@.parent
        }),
        export is None ==> after@.parent == before@.parent,
        export is Some && (forall|i: int|
            0 <= i < before@.parent.collection.types.len() ==> (
            #[trigger] before@.parent.collection.types[i]).0 != type_id::<T>())
            ==> after@.parent.collection.types == before@.parent.collection.types.push(
            (type_id::<T>(), export->0),
        ),
        forall|i: int|
            0 <= i < before@.parent.collection.types.len() && (
            #[trigger] before@.parent.collection.types[i]).0 == type_id::<T>() ==> after@.parent
                == before@.parent,
{
}

/// The query type is recorded by its name in the client, and collected if it
/// is new and there is something to export it with. Nothing else changes.
pub proof fn query<T: MaybeTs, S, E>(
    before: RouteBuilder<S, E>,
    full_name: &str,
    export: Option<E>,
    after: RouteBuilder<S, E>,
    name: String,
) where S: Clone + Send + Sync + 'static
    requires
        call_ensures(RouteBuilder::<S, E>::query::<T>, (before, full_name, export), after),
        call_ensures(type_string, (full_name,), name),
    ensures
        after@.def == (RouteView { query_type: Some(name@), ..before@.def }),
        after@.parent == (RouterView {
            collection: CollectionView {
                types: after@.parent.collection.types,
                ..before@.parent.collection
            },
            ..before@.parent
        }),
        export is None ==> after@.parent == before@.parent,
        export is Some && (forall|i: int|
            0 <= i < before@.parent.collection.types.len() ==> (
            #[trigger] before@.parent.collection.types[i]).0 != type_id::<T>())
            ==> after@.parent.collection.types == before@.parent.collection.types.push(
            (type_id::<T>(), export->0),
        ),
        forall|i: int|
            0 <= i < before@.parent.collection.types.len() && (
            #[trigger] before@.parent.collection.types[i]).0 == type_id::<T>() ==> after@.parent
                == before@.parent,
{
}

/// Body and response at once are body and response one after the other.
pub proof fn json<B: MaybeTs, R: MaybeTs, S, E>(
    before: RouteBuilder<S, E>,
    body_name: &str,
    body_export: Option<E>,
    response_name: &str,
    response_export: Option<E>,
    after: RouteBuilder<S, E>,
    with_body: RouteBuilder<S, E>,
    with_both: RouteBuilder<S, E>,
) where S: Clone + Send + Sync + 'static
    requires
        call_ensures(
            RouteBuilder::<S, E>::json::<B, R>,
            (before, body_name, body_export, response_name, response_export),
            after,
        ),
        call_ensures(
            RouteBuilder::<S, E>::body::<B>,
            (before, body_name, body_export),
            with_body,
        ),
        call_ensures(
            RouteBuilder::<S, E>::response::<R>,
            (with_body, response_name, response_export),
            with_both,
        ),
    ensures
        after@ == with_both@,
{
}

/// Authentication is asked for; every other field of the route stays as it was.
pub proof fn auth<S, E>(before: RouteBuilder<S, E>, after: RouteBuilder<S, E>) where
    S: Clone + Send + Sync + 'static,

    requires
        call_ensures(RouteBuilder::<S, E>::auth, (before,), after),
    ensures
        after@.def == (RouteView { auth: true, ..before@.def }),
        after@.parent == before@.parent,
{
}

/// The route is made a redirect; every other field of the route stays as it was.
pub proof fn redirect<S, E>(before: RouteBuilder<S, E>, after: RouteBuilder<S, E>) where
    S: Clone + Send + Sync + 'static,

    requires
        call_ensures(RouteBuilder::<S, E>::redirect, (before,), after),
    ensures
        after@.def == (RouteView { redirect: true, ..before@.def }),
        after@.parent == before@.parent,
{
}

/// A finished route is the last of the collection; nothing else changes.
pub proof fn done<S, E>(before: RouteBuilder<S, E>, after: ApiRouter<S, E>) where
    S: Clone + Send + Sync + 'static,

    requires
        call_ensures(RouteBuilder::<S, E>::done, (before,), after),
    ensures
        after@ == (RouterView {
            collection: CollectionView {
                routes: before@.parent.collection.routes.push(before@.def),
                ..before@.parent.collection
            },
            ..before@.parent
        }),
{
}

/// A route that is finished under a name is the last of the collection, with
/// that name; nothing else changes.
pub proof fn as_<S, E>(before: RouteBuilder<S, E>, name: &str, after: ApiRouter<S, E>) where
    S: Clone + Send + Sync + 'static,

    requires
        call_ensures(RouteBuilder::<S, E>::as_, (before, name), after),
    ensures
        after@ == (RouterView {
            collection: CollectionView {
                routes: before@.parent.collection.routes.push(
                    RouteView { name: name@, ..before@.def },
                ),
                ..before@.parent.collection
            },
            ..before@.parent
        }),
{
}

// ---------------------------------------------------------------------------
// WebSocket routes
// ---------------------------------------------------------------------------

/// The query type is recorded by its name in the client, and collected if it
/// is new and there is something to export it with. Nothing else changes.
pub proof fn ws_query<T: MaybeTs, S, E>(
    before: WsRouteBuilder<S, E>,
    full_name: &str,
    export: Option<E>,
    after: WsRouteBuilder<S, E>,
    name: String,
) where S: Clone + Send + Sync + 'static
    requires
        call_ensures(WsRouteBuilder::<S, E>::query::<T>, (before, full_name, export), after),
        call_ensures(type_string, (full_name,), name),
    ensures
        after@.def == (RouteView { query_type: Some(name@), ..before@.def }),
        after@.parent == (RouterView {
            collection: CollectionView {
                types: after@.parent.collection.types,
                ..before@.parent.collection
            },
            ..before@.parent
        }),
        export is None ==> after@.parent == before@.parent,
        export is Some && (forall|i: int|
            0 <= i < before@.parent.collection.types.len() ==> (
            #[trigger] before@.parent.collection.types[i]).0 != type_id::<T>())
            ==> after@.parent.collection.types == before@.parent.collection.types.push(
            (type_id::<T>(), export->0),
        ),
        forall|i: int|
            0 <= i < before@.parent.collection.types.len() && (
            #[trigger] before@.parent.collection.types[i]).0 == type_id::<T>() ==> after@.parent
                == before@.parent,
{
}

/// The event types are recorded, each in its direction, by their names in the
/// client; no other field of the route changes. They are collected like the
/// types of queries, the one that is sent first.
pub proof fn ws_events<Sent: MaybeTs, Received: MaybeTs, S, E>(
    before: WsRouteBuilder<S, E>,
    send_name: &str,
    send_export: Option<E>,
    receive_name: &str,
    receive_export: Option<E>,
    after: WsRouteBuilder<S, E>,
    sent: String,
    received: String,
    with_sent: WsRouteBuilder<S, E>,
    with_both: WsRouteBuilder<S, E>,
) where S: Clone + Send + Sync + 'static
    requires
        call_ensures(
            WsRouteBuilder::<S, E>::events::<Sent, Received>,
            (before, send_name, send_export, receive_name, receive_export),
            after,
        ),
        call_ensures(type_string, (send_name,), sent),
        call_ensures(type_string, (receive_name,), received),
        call_ensures(
            WsRouteBuilder::<S, E>::query::<Sent>,
            (before, send_name, send_export),
            with_sent,
        ),
        call_ensures(
            WsRouteBuilder::<S, E>::query::<Received>,
            (with_sent, receive_name, receive_export),
            with_both,
        ),
    ensures
        after@.def == (RouteView {
            ws_send_type: Some(sent@),
            ws_receive_type: Some(received@),
            ..before@.def
        }),
        after@.parent == with_both@.parent,
{
}

/// Authentication is asked for; every other field of the route stays as it was.
pub proof fn ws_auth<S, E>(before: WsRouteBuilder<S, E>, after: WsRouteBuilder<S, E>) where
    S: Clone + Send + Sync + 'static,

    requires
        call_ensures(WsRouteBuilder::<S, E>::auth, (before,), after),
    ensures
        after@.def == (RouteView { auth: true, ..before@.def }),
        after@.parent == before@.parent,
{
}

/// A finished route is the last of the collection; nothing else changes.
pub proof fn ws_done<S, E>(before: WsRouteBuilder<S, E>, after: ApiRouter<S, E>) where
    S: Clone + Send + Sync + 'static,

    requires
        call_ensures(WsRouteBuilder::<S, E>::done, (before,), after),
    ensures
        after@ == (RouterView {
            collection: CollectionView {
                routes: before@.parent.collection.routes.push(before@.def),
                ..before@.parent.collection
            },
            ..before@.parent
        }),
{
}

/// A route that is finished under a name is the last of the collection, with
/// that name; nothing else changes.
pub proof fn ws_as_<S, E>(before: WsRouteBuilder<S, E>, name: &str, after: ApiRouter<S, E>) where
    S: Clone + Send + Sync + 'static,

    requires
        call_ensures(WsRouteBuilder::<S, E>::as_, (before, name), after),
    ensures
        after@ == (RouterView {
            collection: CollectionView {
                routes: before@.parent.collection.routes.push(
                    RouteView { name: name@, ..before@.def },
                ),
                ..before@.parent.collection
            },
            ..before@.parent
        }),
{
}

} // verus!
