//! Router builder that collects route metadata alongside real routing.
//!
//! [`ApiRouter`] builds both an [`axum::Router`] and a [`RouteCollection`] from
//! a single definition. A route is given as a path and a handler, together
//! with `wire`, which puts the handler at a path of the Axum router, under a
//! method; the builder decides the path and the method.
//!
//! An Axum router panics when it is given a route that it rejects, and nothing
//! tells beforehand which routes those are. So the calls that add to a router
//! are handed in, as `wire` and as `join`, and what they require is required
//! here.

use axum::Router;
use std::any::TypeId;
use vstd::prelude::*;

use crate::collection::{CollectionView, RouteCollection};
use crate::names::{camel, handler_name, stripped};
use crate::names::{default_name_from_handler, type_string};
use crate::registry::{has_type, registered_types, type_id};
use crate::text::concat;
use crate::types::{extract_path_params, optional_text, path_params, path_params_behind_prefix};
use crate::types::{HttpMethod, RouteDefinition, RouteView};

verus! {

#[verifier::external_type_specification]
#[verifier::external_body]
#[verifier::reject_recursive_types(S)]
pub struct ExRouter<S>(axum::Router<S>);

/// `Router::new` makes a router without routes. Nothing is claimed of the
/// router, which is carried as it is.
pub assume_specification<S: Clone + Send + Sync + 'static>[ axum::Router::<S>::new ]() -> (router:
    axum::Router<S>);

// ---------------------------------------------------------------------------
// Type collection
// ---------------------------------------------------------------------------

/// Trait bound for types that can be collected into the type registry.
pub trait MaybeTs: 'static {

}

impl<T: 'static> MaybeTs for T {

}

/// Register a type for TypeScript export. Deduplicates by `TypeId`. Where
/// types are not exported, there is nothing to export it with and this is a
/// no-op.
pub fn collect_type<T: MaybeTs, E>(collection: &mut RouteCollection<E>, export: Option<E>)
    ensures
        final(collection)@ == old(collection)@.collecting(type_id::<T>(), export),
        final(collection).definitions() == old(collection).definitions(),
{
    if let Some(export) = export {
        collection.register_type::<T>(export);
    }
}

// ---------------------------------------------------------------------------
// Pending metadata
// ---------------------------------------------------------------------------

/// Holds what is to be applied to the next route, until a builder takes it.
pub struct PendingMeta<A> {
    slot: Option<A>,
}

impl<A> View for PendingMeta<A> {
    type V = Option<A>;

    closed spec fn view(&self) -> Option<A> {
        self.slot
    }
}

impl<A> PendingMeta<A> {
    /// Nothing is pending.
    pub fn new() -> (pending: Self)
        ensures
            pending@ is None,
    {
        PendingMeta { slot: None }
    }

    /// Set the pending metadata applier. One that was not taken is replaced.
    pub fn set_pending_meta(&mut self, apply: A)
        ensures
            final(self)@ == Some(apply),
    {
        self.slot = Some(apply);
    }

    /// Take and clear the pending metadata applier.
    pub fn take_pending_meta(&mut self) -> (apply: Option<A>)
        ensures
            apply == old(self)@,
            final(self)@ is None,
    {
        self.slot.take()
    }
}

// ---------------------------------------------------------------------------
// ApiRouter
// ---------------------------------------------------------------------------

/// An [`ApiRouter`] as plain values.
#[verifier::ext_equal]
#[verifier::reject_recursive_types(S)]
pub struct RouterView<S, E> {
    pub router: Router<S>,
    pub collection: CollectionView<E>,
    pub group: Option<Seq<char>>,
    pub prefix: Option<Seq<char>>,
    pub default_auth: bool,
}

impl<S, E> RouterView<S, E> {
    /// No routes yet, and no settings.
    pub open spec fn blank(router: Router<S>) -> Self {
        RouterView {
            router,
            collection: CollectionView::empty(),
            group: None,
            prefix: None,
            default_auth: false,
        }
    }

    /// The inside of a group: no routes yet, the group's name as namespace and
    /// as prefix.
    pub open spec fn scope(router: Router<S>, name: Seq<char>) -> Self {
        RouterView {
            group: Some(name),
            prefix: Some("/"@ + name),
            ..RouterView::blank(router)
        }
    }

    pub open spec fn with_prefix(self, prefix: Seq<char>) -> Self {
        RouterView { prefix: Some(prefix), ..self }
    }

    pub open spec fn with_auth(self) -> Self {
        RouterView { default_auth: true, ..self }
    }

    pub open spec fn with_group(self, name: Seq<char>) -> Self {
        RouterView { group: Some(name), ..self }
    }

    pub open spec fn without_group(self) -> Self {
        RouterView { group: None, prefix: None, default_auth: false, ..self }
    }

    /// What another builder has collected is taken over; the settings stay.
    pub open spec fn joined(self, router: Router<S>, other: CollectionView<E>) -> Self {
        RouterView { router, collection: self.collection.extended(other), ..self }
    }

    /// The path under which a route is registered.
    pub open spec fn resolved(self, path: Seq<char>) -> Seq<char> {
        match self.prefix {
            Some(prefix) => prefix + path,
            None => path,
        }
    }

    /// A route that has just been added.
    pub open spec fn new_route(
        self,
        path: Seq<char>,
        method: HttpMethod,
        name: Seq<char>,
        websocket: bool,
    ) -> RouteView {
        RouteView {
            name,
            method,
            path: self.resolved(path),
            auth: self.default_auth,
            body_type: None,
            response_type: None,
            query_type: None,
            path_params: path_params(self.resolved(path)),
            group: self.group,
            redirect: false,
            websocket,
            ws_send_type: None,
            ws_receive_type: None,
        }
    }
}

/// `wire` may be asked to put `handler` at `path`, under `method`.
pub open spec fn can_wire<S, H, W>(
    wire: W,
    router: Router<S>,
    path: Seq<char>,
    method: HttpMethod,
    handler: H,
) -> bool where W: FnOnce(Router<S>, &str, HttpMethod, H) -> Router<S> {
    forall|at: &str|
        at@ == path ==> #[trigger] call_requires(wire, (router, at, method, handler))
}

/// `wired` is what `wire` makes of `router` when it puts `handler` at `path`,
/// under `method`.
pub open spec fn wires<S, H, W>(
    wire: W,
    router: Router<S>,
    path: Seq<char>,
    method: HttpMethod,
    handler: H,
    wired: Router<S>,
) -> bool where W: FnOnce(Router<S>, &str, HttpMethod, H) -> Router<S> {
    exists|at: &str|
        at@ == path && #[trigger] call_ensures(wire, (router, at, method, handler), wired)
}

/// The pending metadata may be applied to a route that reads as `route`, among
/// routes that read as `routes`.
pub open spec fn can_apply<E, A>(
    pending: Option<A>,
    route: RouteView,
    routes: CollectionView<E>,
) -> bool where A: FnOnce(RouteDefinition, RouteCollection<E>) -> (RouteDefinition, RouteCollection<E>)
{
    match pending {
        Some(apply) => forall|def: RouteDefinition, collection: RouteCollection<E>|
            def@ == route && collection@ == routes ==> #[trigger] call_requires(
                apply,
                (def, collection),
            ),
        None => true,
    }
}

/// What the pending metadata makes of a route and of the routes collected so
/// far; without pending metadata both stay as they are.
pub open spec fn applies<E, A>(
    pending: Option<A>,
    route: RouteView,
    routes: CollectionView<E>,
    new_route: RouteView,
    new_routes: CollectionView<E>,
) -> bool where A: FnOnce(RouteDefinition, RouteCollection<E>) -> (RouteDefinition, RouteCollection<E>)
{
    match pending {
        Some(apply) => exists|
            def: RouteDefinition,
            collection: RouteCollection<E>,
            new_def: RouteDefinition,
            new_collection: RouteCollection<E>,
        |
            def@ == route && collection@ == routes && new_def@ == new_route && new_collection@
                == new_routes && #[trigger] call_ensures(
                apply,
                (def, collection),
                (new_def, new_collection),
            ),
        None => new_route == route && new_routes == routes,
    }
}

/// An HTTP route may be added: `wire` may put its handler where it belongs, and
/// the pending metadata may be applied to it.
pub open spec fn can_add<S, E, H, W, A>(
    outer: RouterView<S, E>,
    method: HttpMethod,
    path: Seq<char>,
    handler: H,
    full_name: Seq<char>,
    wire: W,
    pending: Option<A>,
) -> bool where
    W: FnOnce(Router<S>, &str, HttpMethod, H) -> Router<S>,
    A: FnOnce(RouteDefinition, RouteCollection<E>) -> (RouteDefinition, RouteCollection<E>),
 {
    &&& can_wire(wire, outer.router, outer.resolved(path), method, handler)
    &&& can_apply(
        pending,
        outer.new_route(path, method, camel(handler_name(full_name)), false),
        outer.collection,
    )
}

/// `added` is what comes of adding an HTTP route: the router answers `method`
/// under the path that belongs to the route, the route is named after its
/// handler, and the pending metadata is applied to it. The settings stay.
pub open spec fn adds<S, E, H, W, A>(
    outer: RouterView<S, E>,
    method: HttpMethod,
    path: Seq<char>,
    handler: H,
    full_name: Seq<char>,
    wire: W,
    pending: Option<A>,
    added: BuilderView<S, E>,
) -> bool where
    W: FnOnce(Router<S>, &str, HttpMethod, H) -> Router<S>,
    A: FnOnce(RouteDefinition, RouteCollection<E>) -> (RouteDefinition, RouteCollection<E>),
 {
    &&& wires(wire, outer.router, outer.resolved(path), method, handler, added.parent.router)
    &&& applies(
        pending,
        outer.new_route(path, method, camel(handler_name(full_name)), false),
        outer.collection,
        added.def,
        added.parent.collection,
    )
    &&& added.parent == (RouterView {
        router: added.parent.router,
        collection: added.parent.collection,
        ..outer
    })
}

/// Builder that constructs both an [`axum::Router`] and a [`RouteCollection`].
#[verifier::reject_recursive_types(S)]
pub struct ApiRouter<S = (), E = ()> where S: Clone + Send + Sync + 'static {
    router: Router<S>,
    routes: RouteCollection<E>,
    current_group: Option<String>,
    current_prefix: Option<String>,
    default_auth: bool,
}

impl<S, E> View for ApiRouter<S, E> where S: Clone + Send + Sync + 'static {
    type V = RouterView<S, E>;

    closed spec fn view(&self) -> RouterView<S, E> {
        RouterView {
            router: self.router,
            collection: self.routes@,
            group: optional_text(self.current_group),
            prefix: optional_text(self.current_prefix),
            default_auth: self.default_auth,
        }
    }
}

impl<S, E> ApiRouter<S, E> where S: Clone + Send + Sync + 'static {
    /// Create a new empty builder.
    pub fn new() -> (builder: Self)
        ensures
            builder@ == RouterView::<S, E>::blank(builder@.router),
            call_ensures(Router::<S>::new, (), builder@.router),
    {
        ApiRouter {
            router: Router::new(),
            routes: RouteCollection::new(),
            current_group: None,
            current_prefix: None,
            default_auth: false,
        }
    }

    /// Set a URL prefix for all subsequent routes.
    ///
    /// Paths of routes added later will have this prefix prepended. For
    /// example, a route at `/course` behind the prefix `/admin` is registered
    /// as `/admin/course`.
    pub fn set_prefix(self, prefix: &str) -> (builder: Self)
        ensures
            builder@ == self@.with_prefix(prefix@),
    {
        ApiRouter { current_prefix: Some(prefix.to_owned()), ..self }
    }

    /// Make all subsequent routes require authentication by default.
    pub fn auth_all(self) -> (builder: Self)
        ensures
            builder@ == self@.with_auth(),
    {
        ApiRouter { default_auth: true, ..self }
    }

    /// Set the group for all subsequent routes (client namespace only).
    pub fn group(self, name: &str) -> (builder: Self)
        ensures
            builder@ == self@.with_group(name@),
    {
        ApiRouter { current_group: Some(name.to_owned()), ..self }
    }

    /// Clear group, prefix, and default auth (for fluent `group()` usage).
    pub fn no_group(self) -> (builder: Self)
        ensures
            builder@ == self@.without_group(),
    {
        ApiRouter { current_group: None, current_prefix: None, default_auth: false, ..self }
    }

    fn resolve_path(&self, path: &str) -> (full_path: String)
        ensures
            full_path@ == self@.resolved(path@),
    {
        match &self.current_prefix {
            Some(prefix) => concat(prefix.as_str(), path),
            None => path.to_owned(),
        }
    }

    fn route<H, W>(
        self,
        path: &str,
        method: HttpMethod,
        handler: H,
        wire: W,
        default_name: String,
        websocket: bool,
    ) -> (added: (Self, RouteDefinition)) where W: FnOnce(Router<S>, &str, HttpMethod, H) -> Router<S>
        requires
            can_wire(wire, self@.router, self@.resolved(path@), method, handler),
        ensures
            wires(wire, self@.router, self@.resolved(path@), method, handler, added.0@.router),
            added.0@ == (RouterView { router: added.0@.router, ..self@ }),
            added.1@ == self@.new_route(path@, method, default_name@, websocket),
    {
        let full_path = self.resolve_path(path);
        let def = RouteDefinition {
            name: default_name,
            method,
            path_params: extract_path_params(full_path.as_str()),
            path: full_path,
            auth: self.default_auth,
            body_type: None,
            response_type: None,
            query_type: None,
            group: self.current_group.clone(),
            redirect: false,
            websocket,
            ws_send_type: None,
            ws_receive_type: None,
        };
        let router = wire(self.router, def.path.as_str(), def.method.clone(), handler);
        (ApiRouter { router, ..self }, def)
    }

    fn http_route<H, W, A>(
        self,
        path: &str,
        method: HttpMethod,
        handler: H,
        full_name: &str,
        wire: W,
        pending: &mut PendingMeta<A>,
    ) -> (builder: RouteBuilder<S, E>) where
        W: FnOnce(Router<S>, &str, HttpMethod, H) -> Router<S>,
        A: FnOnce(RouteDefinition, RouteCollection<E>) -> (RouteDefinition, RouteCollection<E>),

        requires
            can_add(self@, method, path@, handler, full_name@, wire, old(pending)@),
        ensures
            final(pending)@ is None,
            adds(
                self@,
                method,
                path@,
                handler,
                full_name@,
                wire,
                old(pending)@,
                builder@,
            ),
    {
        let name = default_name_from_handler(full_name);
        let (parent, def) = self.route(path, method, handler, wire, name, false);
        RouteBuilder { parent, def }.apply_pending_meta(pending)
    }

    /// Add a GET route.
    ///
    /// `full_name` is the full name of the handler's type, from which the route
    /// gets its name. If the handler was registered with its metadata, the
    /// metadata is pending: it is taken and applied to the route.
    pub fn get<H, W, A>(
        self,
        path: &str,
        handler: H,
        full_name: &str,
        wire: W,
        pending: &mut PendingMeta<A>,
    ) -> (builder: RouteBuilder<S, E>) where
        W: FnOnce(Router<S>, &str, HttpMethod, H) -> Router<S>,
        A: FnOnce(RouteDefinition, RouteCollection<E>) -> (RouteDefinition, RouteCollection<E>),

        requires
            can_add(self@, HttpMethod::Get, path@, handler, full_name@, wire, old(pending)@),
        ensures
            final(pending)@ is None,
            adds(
                self@,
                HttpMethod::Get,
                path@,
                handler,
                full_name@,
                wire,
                old(pending)@,
                builder@,
            ),
    {
        self.http_route(path, HttpMethod::Get, handler, full_name, wire, pending)
    }

    /// Add a POST route.
    pub fn post<H, W, A>(
        self,
        path: &str,
        handler: H,
        full_name: &str,
        wire: W,
        pending: &mut PendingMeta<A>,
    ) -> (builder: RouteBuilder<S, E>) where
        W: FnOnce(Router<S>, &str, HttpMethod, H) -> Router<S>,
        A: FnOnce(RouteDefinition, RouteCollection<E>) -> (RouteDefinition, RouteCollection<E>),

        requires
            can_add(self@, HttpMethod::Post, path@, handler, full_name@, wire, old(pending)@),
        ensures
            final(pending)@ is None,
            adds(
                self@,
                HttpMethod::Post,
                path@,
                handler,
                full_name@,
                wire,
                old(pending)@,
                builder@,
            ),
    {
        self.http_route(path, HttpMethod::Post, handler, full_name, wire, pending)
    }

    /// Add a PUT route.
    pub fn put<H, W, A>(
        self,
        path: &str,
        handler: H,
        full_name: &str,
        wire: W,
        pending: &mut PendingMeta<A>,
    ) -> (builder: RouteBuilder<S, E>) where
        W: FnOnce(Router<S>, &str, HttpMethod, H) -> Router<S>,
        A: FnOnce(RouteDefinition, RouteCollection<E>) -> (RouteDefinition, RouteCollection<E>),

        requires
            can_add(self@, HttpMethod::Put, path@, handler, full_name@, wire, old(pending)@),
        ensures
            final(pending)@ is None,
            adds(
                self@,
                HttpMethod::Put,
                path@,
                handler,
                full_name@,
                wire,
                old(pending)@,
                builder@,
            ),
    {
        self.http_route(path, HttpMethod::Put, handler, full_name, wire, pending)
    }

    /// Add a PATCH route.
    pub fn patch<H, W, A>(
        self,
        path: &str,
        handler: H,
        full_name: &str,
        wire: W,
        pending: &mut PendingMeta<A>,
    ) -> (builder: RouteBuilder<S, E>) where
        W: FnOnce(Router<S>, &str, HttpMethod, H) -> Router<S>,
        A: FnOnce(RouteDefinition, RouteCollection<E>) -> (RouteDefinition, RouteCollection<E>),

        requires
            can_add(self@, HttpMethod::Patch, path@, handler, full_name@, wire, old(pending)@),
        ensures
            final(pending)@ is None,
            adds(
                self@,
                HttpMethod::Patch,
                path@,
                handler,
                full_name@,
                wire,
                old(pending)@,
                builder@,
            ),
    {
        self.http_route(path, HttpMethod::Patch, handler, full_name, wire, pending)
    }

    /// Add a DELETE route.
    pub fn delete<H, W, A>(
        self,
        path: &str,
        handler: H,
        full_name: &str,
        wire: W,
        pending: &mut PendingMeta<A>,
    ) -> (builder: RouteBuilder<S, E>) where
        W: FnOnce(Router<S>, &str, HttpMethod, H) -> Router<S>,
        A: FnOnce(RouteDefinition, RouteCollection<E>) -> (RouteDefinition, RouteCollection<E>),

        requires
            can_add(self@, HttpMethod::Delete, path@, handler, full_name@, wire, old(pending)@),
        ensures
            final(pending)@ is None,
            adds(
                self@,
                HttpMethod::Delete,
                path@,
                handler,
                full_name@,
                wire,
                old(pending)@,
                builder@,
            ),
    {
        self.http_route(path, HttpMethod::Delete, handler, full_name, wire, pending)
    }

    /// Add a WebSocket route.
    ///
    /// A WebSocket upgrade starts as an HTTP GET request, so the handler answers
    /// that method. Pending metadata is left where it is.
    pub fn ws<H, W>(
        self,
        path: &str,
        handler: H,
        full_name: &str,
        wire: W,
    ) -> (builder: WsRouteBuilder<S, E>) where W: FnOnce(Router<S>, &str, HttpMethod, H) -> Router<S>
        requires
            can_wire(wire, self@.router, self@.resolved(path@), HttpMethod::Get, handler),
        ensures
            wires(
                wire,
                self@.router,
                self@.resolved(path@),
                HttpMethod::Get,
                handler,
                builder@.parent.router,
            ),
            builder@.parent == (RouterView { router: builder@.parent.router, ..self@ }),
            builder@.def == self@.new_route(
                path@,
                HttpMethod::Get,
                camel(handler_name(full_name@)),
                true,
            ),
    {
        let name = default_name_from_handler(full_name);
        let (parent, def) = self.route(path, HttpMethod::Get, handler, wire, name, true);
        WsRouteBuilder { parent, def }
    }

    /// The inside of a group, from which its routes are built.
    pub fn group_scope(name: &str) -> (inner: Self)
        ensures
            inner@ == RouterView::<S, E>::scope(inner@.router, name@),
            call_ensures(Router::<S>::new, (), inner@.router),
    {
        ApiRouter {
            router: Router::new(),
            routes: RouteCollection::new(),
            current_group: Some(name.to_owned()),
            current_prefix: Some(concat("/", name)),
            default_auth: false,
        }
    }

    /// Closure-based group: scoped prefix, auth, and client namespace.
    ///
    /// Creates an isolated scope where all routes inherit the group's prefix,
    /// auth setting, and namespace. The group's settings do not leak to routes
    /// registered after the closure. The prefix defaults to `"/{name}"` but can
    /// be overridden with `.set_prefix()` inside the closure. `join` merges two
    /// routers.
    pub fn group_with<F, J>(self, name: &str, routes: F, join: J) -> (builder: Self) where
        F: FnOnce(ApiRouter<S, E>) -> ApiRouter<S, E>,
        J: FnOnce(Router<S>, Router<S>) -> Router<S>,

        requires
            forall|inner: ApiRouter<S, E>|
                is_group_scope(inner, name@) ==> #[trigger] call_requires(routes, (inner,)),
            forall|inner: ApiRouter<S, E>, filled: ApiRouter<S, E>|
                is_group_scope(inner, name@) && #[trigger] call_ensures(routes, (inner,), filled)
                    ==> call_requires(join, (self@.router, filled@.router)),
        ensures
            exists|inner: ApiRouter<S, E>, filled: ApiRouter<S, E>|
                is_group_scope(inner, name@) && #[trigger] call_ensures(routes, (inner,), filled)
                    && call_ensures(join, (self@.router, filled@.router), builder@.router)
                    && builder@ == self@.joined(builder@.router, filled@.collection),
    {
        let inner = Self::group_scope(name);
        let filled = routes(inner);
        self.merge(filled, join)
    }

    /// Merge another builder's router and routes into this one. `join` merges
    /// the routers.
    pub fn merge<J>(self, other: ApiRouter<S, E>, join: J) -> (builder: Self) where
        J: FnOnce(Router<S>, Router<S>) -> Router<S>,

        requires
            call_requires(join, (self@.router, other@.router)),
        ensures
            call_ensures(join, (self@.router, other@.router), builder@.router),
            builder@ == self@.joined(builder@.router, other@.collection),
    {
        let mut routes = self.routes;
        routes.extend(other.routes);
        ApiRouter { router: join(self.router, other.router), routes, ..self }
    }

    /// Consume the builder and return the router and collected route metadata.
    pub fn build(self) -> (built: (Router<S>, RouteCollection<E>))
        ensures
            built.0 == self@.router,
            built.1@ == self@.collection,
    {
        (self.router, self.routes)
    }
}

/// `inner` is the inside of a group, before any route is added.
pub open spec fn is_group_scope<S, E>(inner: ApiRouter<S, E>, name: Seq<char>) -> bool where
    S: Clone + Send + Sync + 'static,
 {
    &&& inner@ == RouterView::<S, E>::scope(inner@.router, name)
    &&& call_ensures(Router::<S>::new, (), inner@.router)
}

impl<S, E> Default for ApiRouter<S, E> where S: Clone + Send + Sync + 'static {
    fn default() -> (builder: Self)
        ensures
            builder@ == RouterView::<S, E>::blank(builder@.router),
            call_ensures(Router::<S>::new, (), builder@.router),
    {
        Self::new()
    }
}

// ---------------------------------------------------------------------------
// RouteBuilder
// ---------------------------------------------------------------------------

/// A builder of a route as plain values: the router that the route belongs to,
/// and the route as it stands.
#[verifier::ext_equal]
#[verifier::reject_recursive_types(S)]
pub struct BuilderView<S, E> {
    pub parent: RouterView<S, E>,
    pub def: RouteView,
}

impl<S, E> BuilderView<S, E> {
    /// A type collected for export.
    pub open spec fn collecting(self, id: TypeId, export: Option<E>) -> Self {
        BuilderView {
            parent: RouterView {
                collection: self.parent.collection.collecting(id, export),
                ..self.parent
            },
            ..self
        }
    }

    pub open spec fn with_body(self, id: TypeId, full_name: Seq<char>, export: Option<E>) -> Self {
        BuilderView {
            def: RouteView { body_type: Some(stripped(full_name)), ..self.def },
            ..self
        }.collecting(id, export)
    }

    pub open spec fn with_response(
        self,
        id: TypeId,
        full_name: Seq<char>,
        export: Option<E>,
    ) -> Self {
        BuilderView {
            def: RouteView { response_type: Some(stripped(full_name)), ..self.def },
            ..self
        }.collecting(id, export)
    }

    pub open spec fn with_query(self, id: TypeId, full_name: Seq<char>, export: Option<E>) -> Self {
        BuilderView {
            def: RouteView { query_type: Some(stripped(full_name)), ..self.def },
            ..self
        }.collecting(id, export)
    }

    pub open spec fn with_send(self, id: TypeId, full_name: Seq<char>, export: Option<E>) -> Self {
        BuilderView {
            def: RouteView { ws_send_type: Some(stripped(full_name)), ..self.def },
            ..self
        }.collecting(id, export)
    }

    pub open spec fn with_receive(
        self,
        id: TypeId,
        full_name: Seq<char>,
        export: Option<E>,
    ) -> Self {
        BuilderView {
            def: RouteView { ws_receive_type: Some(stripped(full_name)), ..self.def },
            ..self
        }.collecting(id, export)
    }

    pub open spec fn with_auth(self) -> Self {
        BuilderView { def: RouteView { auth: true, ..self.def }, ..self }
    }

    pub open spec fn with_redirect(self) -> Self {
        BuilderView { def: RouteView { redirect: true, ..self.def }, ..self }
    }

    pub open spec fn named(self, name: Seq<char>) -> Self {
        BuilderView { def: RouteView { name, ..self.def }, ..self }
    }

    /// The router with the route added to the collection.
    pub open spec fn finished(self) -> RouterView<S, E> {
        RouterView { collection: self.parent.collection.with_route(self.def), ..self.parent }
    }
}

/// In-progress route definition. Chain `.body()`, `.response()`, `.auth()`,
/// `.redirect()`, and finalize with `.done()` or `.as_("name")`.
#[verifier::reject_recursive_types(S)]
pub struct RouteBuilder<S = (), E = ()> where S: Clone + Send + Sync + 'static {
    parent: ApiRouter<S, E>,
    def: RouteDefinition,
}

impl<S, E> View for RouteBuilder<S, E> where S: Clone + Send + Sync + 'static {
    type V = BuilderView<S, E>;

    closed spec fn view(&self) -> BuilderView<S, E> {
        BuilderView { parent: self.parent@, def: self.def@ }
    }
}

impl<S, E> RouteBuilder<S, E> where S: Clone + Send + Sync + 'static {
    /// Apply any pending metadata. Called right after the route is registered.
    fn apply_pending_meta<A>(self, pending: &mut PendingMeta<A>) -> (builder: Self) where
        A: FnOnce(RouteDefinition, RouteCollection<E>) -> (RouteDefinition, RouteCollection<E>),

        requires
            can_apply(old(pending)@, self@.def, self@.parent.collection),
        ensures
            final(pending)@ is None,
            applies(
                old(pending)@,
                self@.def,
                self@.parent.collection,
                builder@.def,
                builder@.parent.collection,
            ),
            builder@.parent == (RouterView {
                collection: builder@.parent.collection,
                ..self@.parent
            }),
    {
        match pending.take_pending_meta() {
            Some(apply) => {
                let RouteBuilder { parent, def } = self;
                let (def, routes) = apply(def, parent.routes);
                RouteBuilder { parent: ApiRouter { routes, ..parent }, def }
            },
            None => self,
        }
    }

    /// Set the request body type.
    ///
    /// `full_name` is the full name of `T`, and `export` exports it.
    pub fn body<T: MaybeTs>(self, full_name: &str, export: Option<E>) -> (builder: Self)
        ensures
            builder@ == self@.with_body(type_id::<T>(), full_name@, export),
    {
        let mut builder = self;
        builder.def.body_type = Some(type_string(full_name));
        collect_type::<T, E>(&mut builder.parent.routes, export);
        builder
    }

    /// Set the response type.
    pub fn response<T: MaybeTs>(self, full_name: &str, export: Option<E>) -> (builder: Self)
        ensures
            builder@ == self@.with_response(type_id::<T>(), full_name@, export),
    {
        let mut builder = self;
        builder.def.response_type = Some(type_string(full_name));
        collect_type::<T, E>(&mut builder.parent.routes, export);
        builder
    }

    /// Set the query parameters type.
    pub fn query<T: MaybeTs>(self, full_name: &str, export: Option<E>) -> (builder: Self)
        ensures
            builder@ == self@.with_query(type_id::<T>(), full_name@, export),
    {
        let mut builder = self;
        builder.def.query_type = Some(type_string(full_name));
        collect_type::<T, E>(&mut builder.parent.routes, export);
        builder
    }

    /// Set both body and response types at once.
    pub fn json<B: MaybeTs, R: MaybeTs>(
        self,
        body_name: &str,
        body_export: Option<E>,
        response_name: &str,
        response_export: Option<E>,
    ) -> (builder: Self)
        ensures
            builder@ == self@.with_body(
                type_id::<B>(),
                body_name@,
                body_export,
            ).with_response(type_id::<R>(), response_name@, response_export),
    {
        let mut builder = self;
        builder.def.body_type = Some(type_string(body_name));
        builder.def.response_type = Some(type_string(response_name));
        collect_type::<B, E>(&mut builder.parent.routes, body_export);
        collect_type::<R, E>(&mut builder.parent.routes, response_export);
        builder
    }

    /// Mark this route as requiring authentication.
    pub fn auth(self) -> (builder: Self)
        ensures
            builder@ == self@.with_auth(),
    {
        let mut builder = self;
        builder.def.auth = true;
        builder
    }

    /// Mark this route as a browser redirect (URL builder, not fetch).
    pub fn redirect(self) -> (builder: Self)
        ensures
            builder@ == self@.with_redirect(),
    {
        let mut builder = self;
        builder.def.redirect = true;
        builder
    }

    /// Finalize the route using the auto-derived name (handler function name in
    /// camel case).
    pub fn done(self) -> (router: ApiRouter<S, E>)
        ensures
            router@ == self@.finished(),
    {
        let mut parent = self.parent;
        parent.routes.push(self.def);
        parent
    }

    /// Finalize the route with an explicit client method name, overriding the auto-derived name.
    pub fn as_(self, name: &str) -> (router: ApiRouter<S, E>)
        ensures
            router@ == self@.named(name@).finished(),
    {
        let mut builder = self;
        builder.def.name = name.to_owned();
        builder.done()
    }
}

// ---------------------------------------------------------------------------
// WsRouteBuilder
// ---------------------------------------------------------------------------

/// Constrained builder for WebSocket routes.
///
/// Only exposes methods relevant to WebSocket endpoints: `.query()`,
/// `.events()`, `.auth()`, and `.done()` or `.as_("name")`.
#[verifier::reject_recursive_types(S)]
pub struct WsRouteBuilder<S = (), E = ()> where S: Clone + Send + Sync + 'static {
    parent: ApiRouter<S, E>,
    def: RouteDefinition,
}

impl<S, E> View for WsRouteBuilder<S, E> where S: Clone + Send + Sync + 'static {
    type V = BuilderView<S, E>;

    closed spec fn view(&self) -> BuilderView<S, E> {
        BuilderView { parent: self.parent@, def: self.def@ }
    }
}

impl<S, E> WsRouteBuilder<S, E> where S: Clone + Send + Sync + 'static {
    /// Set the query parameters type.
    pub fn query<T: MaybeTs>(self, full_name: &str, export: Option<E>) -> (builder: Self)
        ensures
            builder@ == self@.with_query(type_id::<T>(), full_name@, export),
    {
        let mut builder = self;
        builder.def.query_type = Some(type_string(full_name));
        collect_type::<T, E>(&mut builder.parent.routes, export);
        builder
    }

    /// Set the event types for this WebSocket endpoint: what the client sends,
    /// and what it receives.
    pub fn events<Sent: MaybeTs, Received: MaybeTs>(
        self,
        send_name: &str,
        send_export: Option<E>,
        receive_name: &str,
        receive_export: Option<E>,
    ) -> (builder: Self)
        ensures
            builder@ == self@.with_send(
                type_id::<Sent>(),
                send_name@,
                send_export,
            ).with_receive(type_id::<Received>(), receive_name@, receive_export),
    {
        let mut builder = self;
        builder.def.ws_send_type = Some(type_string(send_name));
        builder.def.ws_receive_type = Some(type_string(receive_name));
        collect_type::<Sent, E>(&mut builder.parent.routes, send_export);
        collect_type::<Received, E>(&mut builder.parent.routes, receive_export);
        builder
    }

    /// Mark this route as requiring authentication.
    pub fn auth(self) -> (builder: Self)
        ensures
            builder@ == self@.with_auth(),
    {
        let mut builder = self;
        builder.def.auth = true;
        builder
    }

    /// Finalize the route using the auto-derived name (handler function name in
    /// camel case).
    pub fn done(self) -> (router: ApiRouter<S, E>)
        ensures
            router@ == self@.finished(),
    {
        let mut parent = self.parent;
        parent.routes.push(self.def);
        parent
    }

    /// Finalize the route with an explicit client method name, overriding the auto-derived name.
    pub fn as_(self, name: &str) -> (router: ApiRouter<S, E>)
        ensures
            router@ == self@.named(name@).finished(),
    {
        let mut builder = self;
        builder.def.name = name.to_owned();
        builder.done()
    }
}

// ---------------------------------------------------------------------------
// Laws
// ---------------------------------------------------------------------------

/// What a group or another builder adds leaves the settings alone: a route
/// added later is the same as without it.
pub proof fn joining_does_not_leak<S, E>(
    outer: RouterView<S, E>,
    router: Router<S>,
    other: CollectionView<E>,
    path: Seq<char>,
    method: HttpMethod,
    name: Seq<char>,
    websocket: bool,
)
    ensures
        outer.joined(router, other).group == outer.group,
        outer.joined(router, other).prefix == outer.prefix,
        outer.joined(router, other).default_auth == outer.default_auth,
        outer.joined(router, other).new_route(path, method, name, websocket) == outer.new_route(
            path,
            method,
            name,
            websocket,
        ),
{
}

/// A route in a group stands under the group's name, in its path as in its
/// namespace, and needs no authentication unless the group asks for it.
pub proof fn scoped_route<S, E>(
    router: Router<S>,
    group: Seq<char>,
    path: Seq<char>,
    method: HttpMethod,
    name: Seq<char>,
    websocket: bool,
)
    ensures
        RouterView::<S, E>::scope(router, group).new_route(path, method, name, websocket).path
            == "/"@ + group + path,
        RouterView::<S, E>::scope(router, group).new_route(path, method, name, websocket).group
            == Some(group),
        !RouterView::<S, E>::scope(router, group).new_route(path, method, name, websocket).auth,
        RouterView::<S, E>::scope(router, group).with_auth().new_route(
            path,
            method,
            name,
            websocket,
        ).auth,
{
}

/// A prefix set inside a group takes the place of the group's own.
pub proof fn prefix_overrides_scope<S, E>(
    router: Router<S>,
    group: Seq<char>,
    prefix: Seq<char>,
    path: Seq<char>,
)
    ensures
        RouterView::<S, E>::scope(router, group).with_prefix(prefix).resolved(path) == prefix
            + path,
        RouterView::<S, E>::scope(router, group).with_prefix(prefix).group == Some(group),
{
}

/// A namespace alone changes no path and no authentication.
pub proof fn group_is_namespace_only<S, E>(
    outer: RouterView<S, E>,
    group: Seq<char>,
    path: Seq<char>,
    method: HttpMethod,
    name: Seq<char>,
    websocket: bool,
)
    ensures
        outer.with_group(group).new_route(path, method, name, websocket) == (RouteView {
            group: Some(group),
            ..outer.new_route(path, method, name, websocket)
        }),
{
}

/// Once the group is cleared, routes are as in a new builder.
pub proof fn no_group_clears_settings<S, E>(
    outer: RouterView<S, E>,
    router: Router<S>,
    path: Seq<char>,
    method: HttpMethod,
    name: Seq<char>,
    websocket: bool,
)
    ensures
        outer.without_group().new_route(path, method, name, websocket) == RouterView::<
            S,
            E,
        >::blank(router).new_route(path, method, name, websocket),
        outer.without_group().collection == outer.collection,
{
}

/// Asking for authentication twice is asking once, and a route of a builder
/// that asks for it everywhere has it already.
pub proof fn auth_is_idempotent<S, E>(
    builder: BuilderView<S, E>,
    outer: RouterView<S, E>,
    path: Seq<char>,
    method: HttpMethod,
    name: Seq<char>,
    websocket: bool,
)
    ensures
        builder.with_auth().with_auth() == builder.with_auth(),
        ({
            let def = outer.with_auth().new_route(path, method, name, websocket);
            let fresh = BuilderView { parent: outer.with_auth(), def };
            fresh.with_auth() == fresh
        }),
{
}

/// A finished route is the last of the collection; the routes before it, the
/// types, the router and the settings stay.
pub proof fn finishing_adds_one_route<S, E>(builder: BuilderView<S, E>)
    ensures
        builder.finished().collection.routes == builder.parent.collection.routes.push(builder.def),
        builder.finished().collection.types == builder.parent.collection.types,
        builder.finished() == (RouterView {
            collection: builder.finished().collection,
            ..builder.parent
        }),
{
}

/// An explicit name changes the name of the route and nothing else.
pub proof fn naming_changes_the_name_only<S, E>(builder: BuilderView<S, E>, name: Seq<char>)
    ensures
        builder.named(name).finished().collection.routes
            == builder.parent.collection.routes.push(RouteView { name, ..builder.def }),
        builder.named(name).parent == builder.parent,
{
}

/// Each type given to a route with its export is in the registry of the router
/// that the finished route goes to, and so is every type that was there before.
pub proof fn types_of_a_route_are_collected<S, E>(
    builder: BuilderView<S, E>,
    id: TypeId,
    full_name: Seq<char>,
    export: E,
    known: TypeId,
)
    ensures
        has_type(builder.with_body(id, full_name, Some(export)).finished().collection.types, id),
        has_type(
            builder.with_response(id, full_name, Some(export)).finished().collection.types,
            id,
        ),
        has_type(builder.with_query(id, full_name, Some(export)).finished().collection.types, id),
        has_type(builder.with_send(id, full_name, Some(export)).finished().collection.types, id),
        has_type(builder.with_receive(id, full_name, Some(export)).finished().collection.types, id),
        has_type(builder.parent.collection.types, known) ==> has_type(
            builder.collecting(id, Some(export)).finished().collection.types,
            known,
        ),
{
    registered_types(builder.parent.collection.types, id, export, id);
    registered_types(builder.parent.collection.types, id, export, known);
}

/// Where types are not exported, routes are defined all the same and no type
/// is collected.
pub proof fn without_export_no_type_is_collected<S, E>(
    builder: BuilderView<S, E>,
    id: TypeId,
    full_name: Seq<char>,
    export: E,
)
    ensures
        builder.with_body(id, full_name, None).parent == builder.parent,
        builder.with_response(id, full_name, None).parent == builder.parent,
        builder.with_query(id, full_name, None).parent == builder.parent,
        builder.with_send(id, full_name, None).parent == builder.parent,
        builder.with_receive(id, full_name, None).parent == builder.parent,
        builder.with_body(id, full_name, None).def == builder.with_body(
            id,
            full_name,
            Some(export),
        ).def,
        builder.with_response(id, full_name, None).def == builder.with_response(
            id,
            full_name,
            Some(export),
        ).def,
        builder.with_query(id, full_name, None).def == builder.with_query(
            id,
            full_name,
            Some(export),
        ).def,
        builder.with_send(id, full_name, None).def == builder.with_send(
            id,
            full_name,
            Some(export),
        ).def,
        builder.with_receive(id, full_name, None).def == builder.with_receive(
            id,
            full_name,
            Some(export),
        ).def,
{
}

/// What a WebSocket route is like: it is reached by GET, and has no body, no
/// response type and no redirect.
pub open spec fn is_websocket_route(def: RouteView) -> bool {
    def.websocket && def.method == HttpMethod::Get && def.body_type is None
        && def.response_type is None && !def.redirect
}

/// What an HTTP route is like: it has no event types.
pub open spec fn is_http_route(def: RouteView) -> bool {
    !def.websocket && def.ws_send_type is None && def.ws_receive_type is None
}

/// A route added as a WebSocket route stays one, whatever its builder is asked
/// to set.
pub proof fn websocket_routes_stay_so<S, E>(
    outer: RouterView<S, E>,
    path: Seq<char>,
    builder: BuilderView<S, E>,
    id: TypeId,
    full_name: Seq<char>,
    export: Option<E>,
    name: Seq<char>,
)
    requires
        is_websocket_route(builder.def),
    ensures
        is_websocket_route(outer.new_route(path, HttpMethod::Get, name, true)),
        is_websocket_route(builder.with_query(id, full_name, export).def),
        is_websocket_route(builder.with_send(id, full_name, export).def),
        is_websocket_route(builder.with_receive(id, full_name, export).def),
        is_websocket_route(builder.with_auth().def),
        is_websocket_route(builder.named(name).def),
{
}

/// A route added as an HTTP route stays one, whatever its builder is asked to
/// set.
pub proof fn http_routes_stay_so<S, E>(
    outer: RouterView<S, E>,
    path: Seq<char>,
    method: HttpMethod,
    builder: BuilderView<S, E>,
    id: TypeId,
    full_name: Seq<char>,
    export: Option<E>,
    name: Seq<char>,
)
    requires
        is_http_route(builder.def),
    ensures
        is_http_route(outer.new_route(path, method, name, false)),
        is_http_route(builder.with_body(id, full_name, export).def),
        is_http_route(builder.with_response(id, full_name, export).def),
        is_http_route(builder.with_query(id, full_name, export).def),
        is_http_route(builder.with_auth().def),
        is_http_route(builder.with_redirect().def),
        is_http_route(builder.named(name).def),
{
}

/// A route's parameters are those of the path under which it is registered:
/// those of the prefix, and behind them those of the path that it was added
/// with.
pub proof fn params_of_registered_path<S, E>(
    outer: RouterView<S, E>,
    path: Seq<char>,
    method: HttpMethod,
    name: Seq<char>,
    websocket: bool,
)
    ensures
        outer.new_route(path, method, name, websocket).path_params == path_params(
            outer.new_route(path, method, name, websocket).path,
        ),
        outer.prefix is Some && path.len() > 0 && path[0] == '/' ==> outer.new_route(
            path,
            method,
            name,
            websocket,
        ).path_params == path_params(outer.prefix->0) + path_params(path),
{
    if outer.prefix is Some && path.len() > 0 && path[0] == '/' {
        path_params_behind_prefix(outer.prefix->0, path);
    }
}

} // verus!
