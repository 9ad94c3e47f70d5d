use axotyped::collection::RouteCollection;
use axotyped::types::{extract_path_params, HttpMethod, PathParam, RouteDefinition};

fn names(path: &str) -> Vec<String> {
    extract_path_params(path).into_iter().map(|param| param.name).collect()
}

#[test]
fn extract_no_params() {
    assert!(extract_path_params("/register").is_empty());
    assert!(extract_path_params("/admin/users").is_empty());
}

#[test]
fn extract_single_param() {
    let params = extract_path_params("/admin/users/{id}");
    assert_eq!(params.len(), 1);
    assert_eq!(params[0].name, "id");
}

#[test]
fn extract_multiple_params() {
    let params = extract_path_params("/orgs/{org_id}/users/{user_id}");
    assert_eq!(params.len(), 2);
    assert_eq!(params[0].name, "org_id");
    assert_eq!(params[1].name, "user_id");
}

#[test]
fn extract_from_odd_segments() {
    assert_eq!(names(""), Vec::<String>::new());
    assert_eq!(names("{a}"), vec!["a"]);
    assert_eq!(names("/{}/x"), vec![""]);
    assert_eq!(names("/{/}/{"), Vec::<String>::new());
    assert_eq!(names("/a{b}/{c}d"), Vec::<String>::new());
    assert_eq!(names("/files/{*rest}"), vec!["*rest"]);
    assert_eq!(names("/{{a}}/"), vec!["{a}"]);
}

#[test]
fn extract_behind_a_prefix() {
    let mut expected = names("/orgs/{org}");
    expected.extend(names("/users/{user}"));
    assert_eq!(names("/orgs/{org}/users/{user}"), expected);
}

#[test]
fn params_compare_by_name() {
    assert_eq!(extract_path_params("/{id}")[0], PathParam { name: "id".into() });
}

#[test]
fn method_texts() {
    assert_eq!(HttpMethod::Get.as_str(), "GET");
    assert_eq!(HttpMethod::Post.as_str(), "POST");
    assert_eq!(HttpMethod::Put.as_str(), "PUT");
    assert_eq!(HttpMethod::Patch.as_str(), "PATCH");
    assert_eq!(HttpMethod::Delete.as_str(), "DELETE");
    assert_eq!(HttpMethod::Patch.to_string(), "PATCH");
}

fn bare(name: &str) -> RouteDefinition {
    RouteDefinition {
        name: name.into(),
        method: HttpMethod::Get,
        path: "/foo".into(),
        auth: false,
        body_type: None,
        response_type: None,
        query_type: None,
        path_params: vec![],
        group: None,
        redirect: false,
        websocket: false,
        ws_send_type: None,
        ws_receive_type: None,
    }
}

#[test]
fn route_collection_extend() {
    let mut a: RouteCollection = RouteCollection::new();
    a.push(RouteDefinition {
        name: "foo".into(),
        method: HttpMethod::Get,
        path: "/foo".into(),
        auth: false,
        body_type: None,
        response_type: None,
        query_type: None,
        path_params: vec![],
        group: None,
        redirect: false,
        websocket: false,
        ws_send_type: None,
        ws_receive_type: None,
    });

    let mut b: RouteCollection = RouteCollection::new();
    b.push(RouteDefinition {
        name: "bar".into(),
        method: HttpMethod::Post,
        path: "/bar".into(),
        auth: true,
        body_type: Some("BarRequest".into()),
        response_type: Some("BarResponse".into()),
        query_type: None,
        path_params: vec![],
        group: Some("baz".into()),
        redirect: false,
        websocket: false,
        ws_send_type: None,
        ws_receive_type: None,
    });

    a.extend(b);
    assert_eq!(a.len(), 2);
    assert_eq!(a.routes()[1].name, "bar");
}

#[test]
fn collections_are_walked_in_order() {
    let mut routes: RouteCollection = RouteCollection::default();
    assert!(routes.is_empty());
    assert_eq!(routes.len(), 0);
    routes.push(bare("first"));
    routes.push(bare("second"));
    assert!(!routes.is_empty());
    let by_iter: Vec<&str> = routes.iter().map(|route| route.name.as_str()).collect();
    assert_eq!(by_iter, vec!["first", "second"]);
    let mut by_reference: Vec<&str> = Vec::new();
    for route in &routes {
        by_reference.push(&route.name);
    }
    assert_eq!(by_reference, vec!["first", "second"]);
    let copy = routes.clone();
    let owned: Vec<String> = routes.into_iter().map(|route| route.name).collect();
    assert_eq!(owned, vec!["first", "second"]);
    assert_eq!(copy.len(), 2);
}

#[test]
fn collections_extend_in_any_grouping() {
    let one = |name: &str| {
        let mut routes: RouteCollection = RouteCollection::new();
        routes.push(bare(name));
        routes
    };
    let mut left = one("a");
    left.extend(one("b"));
    left.extend(one("c"));
    let mut inner = one("b");
    inner.extend(one("c"));
    let mut right = one("a");
    right.extend(inner);
    let names = |routes: &RouteCollection| {
        routes.iter().map(|route| route.name.clone()).collect::<Vec<String>>()
    };
    assert_eq!(names(&left), vec!["a", "b", "c"]);
    assert_eq!(names(&left), names(&right));
}
