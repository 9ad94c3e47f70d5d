use axotyped::builder::{collect_type, ApiRouter, PendingMeta, RouteBuilder, WsRouteBuilder};
use axotyped::collection::RouteCollection;
use axotyped::names::type_string;
use axotyped::types::{HttpMethod, RouteDefinition};
use axum::body::Body;
use axum::handler::Handler;
use axum::http::Request;
use axum::{routing, Router};
use std::future::Future;
use std::sync::Arc;
use std::task::{Context, Poll, Wake, Waker};
use tower_service::Service;

type Export = &'static str;
type Routes = RouteCollection<Export>;
type Api = ApiRouter<(), Export>;
type Apply = fn(RouteDefinition, Routes) -> (RouteDefinition, Routes);

struct Request1;
struct Response1;

async fn list_users() -> &'static str {
    "users"
}

async fn create_user() -> &'static str {
    "created"
}

fn nothing() -> PendingMeta<Apply> {
    PendingMeta::new()
}

/// Puts a handler where the builder says.
fn wire<H, T>(router: Router, at: &str, method: HttpMethod, handler: H) -> Router
where
    H: Handler<T, ()>,
    T: 'static,
{
    let method_router = match method {
        HttpMethod::Get => routing::get(handler),
        HttpMethod::Post => routing::post(handler),
        HttpMethod::Put => routing::put(handler),
        HttpMethod::Patch => routing::patch(handler),
        HttpMethod::Delete => routing::delete(handler),
    };
    router.route(at, method_router)
}

fn get<H, T>(api: Api, path: &str, handler: H, full_name: &str) -> RouteBuilder<(), Export>
where
    H: Handler<T, ()>,
    T: 'static,
{
    api.get(path, handler, full_name, wire, &mut nothing())
}

fn post<H, T>(api: Api, path: &str, handler: H, full_name: &str) -> RouteBuilder<(), Export>
where
    H: Handler<T, ()>,
    T: 'static,
{
    api.post(path, handler, full_name, wire, &mut nothing())
}

fn ws(api: Api, path: &str, full_name: &str) -> WsRouteBuilder<(), Export> {
    api.ws(path, list_users, full_name, wire)
}

fn within<F>(api: Api, name: &str, routes: F) -> Api
where
    F: FnOnce(Api) -> Api,
{
    api.group_with(name, routes, |a: Router, b: Router| a.merge(b))
}

fn only(api: Api) -> RouteDefinition {
    let (_, routes) = api.build();
    assert_eq!(routes.len(), 1);
    routes.into_iter().next().unwrap()
}

fn exports(routes: &Routes) -> Vec<Export> {
    routes.types().slots().iter().map(|slot| slot.1).collect()
}

struct NoWake;

impl Wake for NoWake {
    fn wake(self: Arc<Self>) {}
}

/// The status with which the router answers a request.
fn status(router: &mut Router, method: &str, path: &str) -> u16 {
    let request = Request::builder().method(method).uri(path).body(Body::empty()).unwrap();
    let mut answer = Box::pin(router.call(request));
    let waker = Waker::from(Arc::new(NoWake));
    let mut context = Context::from_waker(&waker);
    for _ in 0..100 {
        if let Poll::Ready(response) = answer.as_mut().poll(&mut context) {
            return response.unwrap().status().as_u16();
        }
    }
    panic!("no answer");
}

// -- routes --

#[test]
fn a_new_builder_has_nothing() {
    let (router, routes) = Api::new().build();
    assert!(!router.has_routes());
    assert!(routes.is_empty());
    assert!(routes.types().is_empty());
    let (router, routes) = Api::default().build();
    assert!(!router.has_routes());
    assert!(routes.is_empty());
}

#[test]
fn a_plain_route() {
    let route = only(get(Api::new(), "/users/{id}", list_users, "app::list_users").done());
    assert_eq!(route.name, "listUsers");
    assert_eq!(route.method, HttpMethod::Get);
    assert_eq!(route.path, "/users/{id}");
    assert!(!route.auth);
    assert_eq!(route.body_type, None);
    assert_eq!(route.response_type, None);
    assert_eq!(route.query_type, None);
    assert_eq!(route.path_params.len(), 1);
    assert_eq!(route.path_params[0].name, "id");
    assert_eq!(route.group, None);
    assert!(!route.redirect);
    assert!(!route.websocket);
    assert_eq!(route.ws_send_type, None);
    assert_eq!(route.ws_receive_type, None);
}

#[test]
fn each_helper_has_its_method() {
    let api = post(Api::new(), "/a", create_user, "app::create_user").done();
    let api = api
        .put(
            "/b",
            create_user,
            "app::replace_user",
            wire,
            &mut nothing(),
        )
        .done();
    let api = api
        .patch(
            "/c",
            create_user,
            "app::change_user",
            wire,
            &mut nothing(),
        )
        .done();
    let api = api
        .delete(
            "/d",
            create_user,
            "app::delete_user",
            wire,
            &mut nothing(),
        )
        .done();
    let (mut router, routes) = api.build();
    let methods: Vec<&str> = routes.iter().map(|route| route.method.as_str()).collect();
    assert_eq!(methods, vec!["POST", "PUT", "PATCH", "DELETE"]);
    let names: Vec<&str> = routes.iter().map(|route| route.name.as_str()).collect();
    assert_eq!(names, vec!["createUser", "replaceUser", "changeUser", "deleteUser"]);
    for (route, other) in routes.iter().zip(["GET", "POST", "PUT", "PATCH"]) {
        assert_eq!(status(&mut router, route.method.as_str(), &route.path), 200);
        assert_eq!(status(&mut router, other, &route.path), 405);
    }
}

#[test]
fn the_router_answers_under_the_registered_path() {
    let api = Api::new().set_prefix("/admin");
    let (mut router, routes) = get(api, "/users", list_users, "app::list_users").done().build();
    assert_eq!(routes.routes()[0].path, "/admin/users");
    assert_eq!(status(&mut router, "GET", "/admin/users"), 200);
    assert_eq!(status(&mut router, "GET", "/users"), 404);
}

#[test]
fn only_finished_routes_are_collected() {
    let started = get(Api::new(), "/users", list_users, "app::list_users");
    let api = post(started.done(), "/users", create_user, "app::create_user").as_("addUser");
    let (_, routes) = api.build();
    let names: Vec<&str> = routes.iter().map(|route| route.name.as_str()).collect();
    assert_eq!(names, vec!["listUsers", "addUser"]);
}

// -- settings --

#[test]
fn default_auth_holds_for_later_routes() {
    let api = get(Api::new(), "/a", list_users, "app::a").done();
    let api = get(api.auth_all(), "/b", list_users, "app::b").done();
    let api = get(api, "/c", list_users, "app::c").auth().done();
    let (_, routes) = api.build();
    let auth: Vec<bool> = routes.iter().map(|route| route.auth).collect();
    assert_eq!(auth, vec![false, true, true]);
}

#[test]
fn group_is_a_namespace_only() {
    let api = Api::new().group("admin");
    let route = only(get(api, "/reports", list_users, "app::list_reports").auth().done());
    assert_eq!(route.group.as_deref(), Some("admin"));
    assert_eq!(route.path, "/reports");
    assert!(route.auth);
}

#[test]
fn no_group_clears_the_settings() {
    let api = Api::new().group("admin").set_prefix("/admin").auth_all().no_group();
    let route = only(get(api, "/health", list_users, "app::health").done());
    assert_eq!(route.group, None);
    assert_eq!(route.path, "/health");
    assert!(!route.auth);
}

#[test]
fn the_last_prefix_counts() {
    let api = Api::new().set_prefix("/a").set_prefix("/b");
    assert_eq!(only(get(api, "/x", list_users, "app::x").done()).path, "/b/x");
}

#[test]
fn parameters_are_those_of_the_registered_path() {
    let api = Api::new().set_prefix("/orgs/{org}");
    let route = only(get(api, "/users/{id}", list_users, "app::x").done());
    assert_eq!(route.path, "/orgs/{org}/users/{id}");
    let names: Vec<&str> = route.path_params.iter().map(|param| param.name.as_str()).collect();
    assert_eq!(names, vec!["org", "id"]);
    let api = Api::new().set_prefix("/orgs/{org_id}");
    let route = only(ws(api, "/users/{user_id}", "app::x").done());
    let names: Vec<&str> = route.path_params.iter().map(|param| param.name.as_str()).collect();
    assert_eq!(names, vec!["org_id", "user_id"]);
}

// -- groups --

#[test]
fn group_with_scopes_its_settings() {
    let api = within(Api::new(), "admin", |g| {
        let g = post(g.auth_all(), "/project", create_user, "app::create_project").done();
        let g = get(g, "/project", list_users, "app::list_projects").done();
        g.delete(
            "/project/{key}",
            create_user,
            "app::delete_project",
            wire,
            &mut nothing(),
        )
        .done()
    });
    let api = get(api, "/health", list_users, "app::health").done();
    let (mut router, routes) = api.build();
    let found: Vec<(&str, &str, bool, Option<&str>)> = routes
        .iter()
        .map(|route| {
            (route.method.as_str(), route.path.as_str(), route.auth, route.group.as_deref())
        })
        .collect();
    assert_eq!(
        found,
        vec![
            ("POST", "/admin/project", true, Some("admin")),
            ("GET", "/admin/project", true, Some("admin")),
            ("DELETE", "/admin/project/{key}", true, Some("admin")),
            ("GET", "/health", false, None),
        ]
    );
    assert_eq!(status(&mut router, "POST", "/admin/project"), 200);
    assert_eq!(status(&mut router, "DELETE", "/admin/project/7"), 200);
    assert_eq!(status(&mut router, "GET", "/health"), 200);
    assert_eq!(status(&mut router, "GET", "/admin/health"), 404);
}

#[test]
fn a_prefix_inside_a_group_takes_over() {
    let api = within(Api::new(), "admin", |g| {
        get(g.set_prefix("/v2"), "/x", list_users, "app::x").done()
    });
    let route = only(api);
    assert_eq!(route.path, "/v2/x");
    assert_eq!(route.group.as_deref(), Some("admin"));
}

#[test]
fn a_group_does_not_inherit_from_outside() {
    let api = Api::new().set_prefix("/outer").group("outer").auth_all();
    let api = within(api, "inner", |g| get(g, "/x", list_users, "app::x").done());
    let api = get(api, "/y", list_users, "app::y").done();
    let (_, routes) = api.build();
    assert_eq!(routes.routes()[0].path, "/inner/x");
    assert_eq!(routes.routes()[0].group.as_deref(), Some("inner"));
    assert!(!routes.routes()[0].auth);
    assert_eq!(routes.routes()[1].path, "/outer/y");
    assert_eq!(routes.routes()[1].group.as_deref(), Some("outer"));
    assert!(routes.routes()[1].auth);
}

#[test]
fn the_inside_of_a_group_starts_empty() {
    let (router, routes) = Api::group_scope("admin").build();
    assert!(!router.has_routes());
    assert!(routes.is_empty());
    let route = only(get(Api::group_scope("admin"), "/x", list_users, "app::x").done());
    assert_eq!(route.path, "/admin/x");
}

#[test]
fn merging_takes_over_routes_and_types() {
    let mut known = get(Api::new().group("a"), "/a", list_users, "app::a")
        .response::<Response1>("app::Response1", Some("first"));
    known = known.body::<Request1>("app::Request1", Some("request"));
    let other = get(Api::new().auth_all(), "/b", list_users, "app::b")
        .response::<Response1>("app::Response1", Some("second"))
        .done();
    let api = known.done().merge(other, |a: Router, b: Router| a.merge(b));
    let api = get(api, "/c", list_users, "app::c").done();
    let (mut router, routes) = api.build();
    let paths: Vec<&str> = routes.iter().map(|route| route.path.as_str()).collect();
    assert_eq!(paths, vec!["/a", "/b", "/c"]);
    assert_eq!(exports(&routes), vec!["first", "request"]);
    assert_eq!(routes.routes()[2].group.as_deref(), Some("a"));
    assert!(!routes.routes()[2].auth);
    for path in ["/a", "/b", "/c"] {
        assert_eq!(status(&mut router, "GET", path), 200);
    }
}

// -- types of a route --

#[test]
fn types_are_recorded_and_collected() {
    let api = post(Api::new(), "/users", create_user, "app::create_user")
        .body::<Request1>("app::Request1", Some("request"))
        .response::<Vec<Response1>>("alloc::vec::Vec<app::Response1>", Some("responses"))
        .query::<u8>("u8", Some("number"))
        .done();
    let (_, routes) = api.build();
    let route = &routes.routes()[0];
    assert_eq!(route.body_type.as_deref(), Some("Request1"));
    assert_eq!(route.response_type.as_deref(), Some("Vec<Response1>"));
    assert_eq!(route.query_type.as_deref(), Some("u8"));
    assert_eq!(exports(&routes), vec!["request", "responses", "number"]);
    assert!(routes.types().contains_type::<Vec<Response1>>());
    assert!(!routes.types().contains_type::<Response1>());
}

#[test]
fn json_is_body_and_response() {
    let start = || post(Api::new(), "/users", create_user, "app::create_user");
    let (_, at_once) = start()
        .json::<Request1, Response1>("a::Request1", Some("in"), "a::Response1", Some("out"))
        .done()
        .build();
    let (_, one_by_one) = start()
        .body::<Request1>("a::Request1", Some("in"))
        .response::<Response1>("a::Response1", Some("out"))
        .done()
        .build();
    assert_eq!(at_once.routes()[0].body_type.as_deref(), Some("Request1"));
    assert_eq!(at_once.routes()[0].body_type, one_by_one.routes()[0].body_type);
    assert_eq!(at_once.routes()[0].response_type, one_by_one.routes()[0].response_type);
    assert_eq!(at_once.types().slots(), one_by_one.types().slots());
    assert_eq!(exports(&at_once), vec!["in", "out"]);
}

#[test]
fn without_export_no_type_is_collected() {
    let (_, routes) = get(Api::new(), "/users", list_users, "app::list_users")
        .response::<Response1>("app::Response1", None)
        .done()
        .build();
    assert_eq!(routes.routes()[0].response_type.as_deref(), Some("Response1"));
    assert!(routes.types().is_empty());
}

#[test]
fn collect_type_collects_once() {
    let mut routes: Routes = RouteCollection::new();
    collect_type::<Request1, Export>(&mut routes, None);
    assert!(routes.types().is_empty());
    collect_type::<Request1, Export>(&mut routes, Some("first"));
    collect_type::<Request1, Export>(&mut routes, Some("second"));
    assert_eq!(exports(&routes), vec!["first"]);
    assert!(routes.is_empty());
}

#[test]
fn redirects() {
    let route = only(get(Api::new(), "/login", list_users, "app::login").redirect().done());
    assert!(route.redirect);
    assert!(!route.auth);
}

#[test]
fn an_explicit_name_changes_only_the_name() {
    let route = only(
        post(Api::new(), "/users", create_user, "app::create_user").auth().as_("addUser"),
    );
    assert_eq!(route.name, "addUser");
    assert_eq!(route.path, "/users");
    assert_eq!(route.method, HttpMethod::Post);
    assert!(route.auth);
}

// -- websockets --

#[test]
fn websocket_routes() {
    let api = ws(Api::new().set_prefix("/live").auth_all(), "/chat/{room}", "app::chat_room")
        .query::<u8>("app::Token", Some("token"))
        .events::<Request1, Response1>("app::Sent", Some("sent"), "app::Received", Some("received"))
        .done();
    let (mut router, routes) = api.build();
    let route = &routes.routes()[0];
    assert_eq!(route.name, "chatRoom");
    assert_eq!(route.method, HttpMethod::Get);
    assert_eq!(route.path, "/live/chat/{room}");
    assert!(route.auth);
    assert!(route.websocket);
    assert_eq!(route.query_type.as_deref(), Some("Token"));
    assert_eq!(route.ws_send_type.as_deref(), Some("Sent"));
    assert_eq!(route.ws_receive_type.as_deref(), Some("Received"));
    assert_eq!(route.body_type, None);
    assert_eq!(route.response_type, None);
    assert!(!route.redirect);
    assert_eq!(route.path_params[0].name, "room");
    assert_eq!(exports(&routes), vec!["token", "sent", "received"]);
    assert_eq!(status(&mut router, "GET", "/live/chat/a"), 200);
}

#[test]
fn websocket_routes_can_be_named() {
    let route = only(ws(Api::new().group("g"), "/chat", "app::chat").auth().as_("talk"));
    assert_eq!(route.name, "talk");
    assert_eq!(route.group.as_deref(), Some("g"));
    assert!(route.auth);
    assert!(route.websocket);
}

// -- pending metadata --

fn record_user(def: RouteDefinition, routes: Routes) -> (RouteDefinition, Routes) {
    let mut def = def;
    let mut routes = routes;
    def.body_type = Some(type_string("app::Request1"));
    collect_type::<Request1, Export>(&mut routes, Some("request"));
    (def, routes)
}

fn record_redirect(def: RouteDefinition, routes: Routes) -> (RouteDefinition, Routes) {
    (RouteDefinition { redirect: true, ..def }, routes)
}

#[test]
fn pending_metadata_is_taken_once() {
    let mut pending: PendingMeta<Apply> = PendingMeta::new();
    assert!(pending.take_pending_meta().is_none());
    pending.set_pending_meta(record_redirect);
    pending.set_pending_meta(record_user);
    assert!(pending.take_pending_meta().is_some());
    assert!(pending.take_pending_meta().is_none());
}

#[test]
fn pending_metadata_is_applied_to_the_next_route_only() {
    let mut pending: PendingMeta<Apply> = PendingMeta::new();
    pending.set_pending_meta(record_redirect);
    pending.set_pending_meta(record_user);
    let api = Api::new().post("/a", create_user, "app::a", wire, &mut pending).done();
    let api = api.post("/b", create_user, "app::b", wire, &mut pending).done();
    let (_, routes) = api.build();
    assert_eq!(routes.routes()[0].body_type.as_deref(), Some("Request1"));
    assert!(!routes.routes()[0].redirect);
    assert_eq!(routes.routes()[0].name, "a");
    assert_eq!(routes.routes()[1].body_type, None);
    assert_eq!(exports(&routes), vec!["request"]);
}

#[test]
fn every_http_helper_applies_pending_metadata() {
    let mut pending: PendingMeta<Apply> = PendingMeta::new();
    let mut api = Api::new();
    pending.set_pending_meta(record_redirect);
    api = api.get("/a", create_user, "app::a", wire, &mut pending).done();
    pending.set_pending_meta(record_redirect);
    api = api.put("/b", create_user, "app::b", wire, &mut pending).done();
    pending.set_pending_meta(record_redirect);
    api = api.patch("/c", create_user, "app::c", wire, &mut pending).done();
    pending.set_pending_meta(record_redirect);
    api = api.delete("/d", create_user, "app::d", wire, &mut pending).done();
    let (_, routes) = api.build();
    assert!(routes.iter().all(|route| route.redirect));
    assert!(pending.take_pending_meta().is_none());
}
