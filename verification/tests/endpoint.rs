use axotyped::endpoint::{
    endpoint, endpoint_of, extract_body_type, extract_generic_from_type, extract_query_type,
    extract_response_type, has_impl, is_status_code, meta_struct_name, register,
    unwrap_container_types, MetaStatement, RegisterError, Registration,
};
use axotyped::signature::{Segment, SegmentArguments, SigType, Signature, TypeShape};
use axotyped::syntax::{read_item, read_type};
use proc_macro2::TokenStream;
use std::rc::Rc;

// -- reading signatures --

fn tokens(source: &str) -> TokenStream {
    source.parse().unwrap()
}

fn item_fn(source: &str) -> Signature<syn::Type> {
    read_item(&syn::parse_str(source).unwrap())
}

fn parsed(source: &str) -> syn::Type {
    syn::parse_str(source).unwrap()
}

fn read(source: &str) -> SigType<syn::Type> {
    read_type(parsed(source))
}

/// A path like `Json(A, B)`.
fn parenthesized(ident: &str, types: Vec<&str>) -> SigType<syn::Type> {
    let arguments = SegmentArguments::Parenthesized(types.into_iter().map(read).collect());
    let segment = Segment { ident: ident.to_string(), arguments };
    SigType { node: Rc::new(parsed(ident)), shape: TypeShape::Path(vec![segment]) }
}

/// The last segment of a path type.
fn last_ident(ty: &SigType<syn::Type>) -> String {
    match &*ty.node {
        syn::Type::Path(p) => p.path.segments.last().unwrap().ident.to_string(),
        _ => panic!("not a path"),
    }
}

#[test]
fn signatures_are_read_as_written() {
    let signature = item_fn("async fn r#type(&self, a: u8, Json(b): Json<B>) -> Vec<C> {}");
    assert_eq!(signature.ident, "r#type");
    assert_eq!(signature.inputs.len(), 3);
    assert!(signature.inputs[0].is_none());
    assert_eq!(*signature.inputs[1].as_ref().unwrap().node, parsed("u8"));
    assert_eq!(*signature.inputs[2].as_ref().unwrap().node, parsed("Json<B>"));
    assert_eq!(*signature.output.unwrap().node, parsed("Vec<C>"));
    assert!(item_fn("fn f() {}").output.is_none());
}

#[test]
fn types_are_read_by_shape() {
    let path = |ty: &SigType<syn::Type>| match &ty.shape {
        TypeShape::Path(segments) => {
            segments.iter().map(|segment| segment.ident.clone()).collect::<Vec<String>>()
        }
        _ => panic!("not a path"),
    };
    assert_eq!(path(&read("a::b::C<D>")), vec!["a", "b", "C"]);
    assert!(matches!(read("impl Trait").shape, TypeShape::ImplTrait));
    assert!(matches!(read("dyn A + Send + 'static").shape,
        TypeShape::TraitObject(bounds) if bounds.len() == 3 && bounds[2].segments.is_empty()));
    assert!(matches!(read("(A, B, C)").shape, TypeShape::Tuple(types) if types.len() == 3));
    assert!(matches!(read("fn(A, B) -> C").shape, TypeShape::Function(types) if types.len() == 3));
    assert!(matches!(read("fn(A)").shape, TypeShape::Function(types) if types.len() == 1));
    assert!(matches!(read("!").shape, TypeShape::Other(types) if types.is_empty()));
    for source in ["&A", "&mut A", "[A]", "[A; 3]", "*const A", "(A)"] {
        match read(source).shape {
            TypeShape::Other(types) => {
                assert_eq!(types.len(), 1);
                assert_eq!(path(&types[0]), vec!["A"]);
            }
            _ => panic!("not around one type"),
        }
    }
}

// -- extracted types --

#[test]
fn test_extract_json_body() {
    let item_fn = item_fn(
        "pub async fn create_user(
            State(state): State<AppState>,
            Json(body): Json<CreateUserRequest>,
        ) -> Result<Json<User>, StatusCode> {}",
    );
    let ty = extract_body_type(&item_fn).unwrap();
    assert_eq!(last_ident(ty), "CreateUserRequest");
}

#[test]
fn test_extract_result_json_response() {
    let item_fn = item_fn(
        "pub async fn get_user(
            Path(id): Path<String>,
        ) -> Result<Json<User>, StatusCode> {}",
    );
    let ty = extract_response_type(&item_fn).unwrap();
    assert_eq!(last_ident(ty), "User");
}

#[test]
fn test_extract_plain_json_response() {
    let item_fn = item_fn("pub async fn health() -> Json<HealthResponse> {}");
    let ty = extract_response_type(&item_fn).unwrap();
    assert_eq!(last_ident(ty), "HealthResponse");
}

#[test]
fn test_no_response_for_status_code() {
    let item_fn = item_fn(
        "pub async fn delete_user(Path(id): Path<String>) -> Result<StatusCode, StatusCode> {}",
    );
    assert!(extract_response_type(&item_fn).is_none());
}

#[test]
fn test_no_body_when_none() {
    let item_fn =
        item_fn("pub async fn list_users() -> Result<Json<Vec<User>>, StatusCode> {}");
    assert!(extract_body_type(&item_fn).is_none());
}

#[test]
fn test_extract_query_type() {
    let item_fn = item_fn(
        "pub async fn search(
            Query(params): Query<SearchParams>,
        ) -> Result<Json<Vec<User>>, StatusCode> {}",
    );
    let ty = extract_query_type(&item_fn).unwrap();
    assert_eq!(last_ident(ty), "SearchParams");
}

#[test]
fn test_unwrap_vec_response() {
    let item_fn =
        item_fn("pub async fn list_users() -> Result<Json<Vec<User>>, StatusCode> {}");
    let ty = extract_response_type(&item_fn).unwrap();
    // Response type should be Vec<User>
    assert_eq!(last_ident(ty), "Vec");
    // Inner types should include User
    let inner = unwrap_container_types(ty);
    assert_eq!(inner.len(), 1);
    assert_eq!(last_ident(inner[0]), "User");
}

#[test]
fn test_unwrap_nested_option_vec() {
    let item_fn =
        item_fn("pub async fn get_items() -> Result<Json<Option<Vec<Item>>>, StatusCode> {}");
    let ty = extract_response_type(&item_fn).unwrap();
    let inner = unwrap_container_types(ty);
    assert_eq!(inner.len(), 1);
    assert_eq!(last_ident(inner[0]), "Item");
}

#[test]
fn test_unwrap_plain_type_unchanged() {
    let item_fn = item_fn("pub async fn get_user() -> Result<Json<User>, StatusCode> {}");
    let ty = extract_response_type(&item_fn).unwrap();
    let inner = unwrap_container_types(ty);
    assert_eq!(inner.len(), 1);
    assert_eq!(last_ident(inner[0]), "User");
}

#[test]
fn the_first_matching_parameter_counts() {
    let item_fn = item_fn(
        "fn two(self, first: axum::Json<A>, query: Query<Q>, second: Json<B>) {}",
    );
    assert_eq!(last_ident(extract_body_type(&item_fn).unwrap()), "A");
    assert_eq!(last_ident(extract_query_type(&item_fn).unwrap()), "Q");
    assert!(extract_response_type(&item_fn).is_none());
}

#[test]
fn results_without_json_give_the_ok_type() {
    let item_fn = item_fn("fn text() -> Result<String, StatusCode> {}");
    assert_eq!(last_ident(extract_response_type(&item_fn).unwrap()), "String");
    let item_fn = self::item_fn("fn full() -> Result<http::StatusCode, Error> {}");
    assert!(extract_response_type(&item_fn).is_none());
    let item_fn = self::item_fn("fn plain() -> String {}");
    assert!(extract_response_type(&item_fn).is_none());
}

#[test]
fn results_do_not_change_the_response() {
    let plain = item_fn("fn a() -> Json<Vec<User>> {}");
    let fallible = item_fn("fn b() -> Result<Json<Vec<User>>, Error> {}");
    assert_eq!(
        extract_response_type(&plain).unwrap().node,
        extract_response_type(&fallible).unwrap().node
    );
}

#[test]
fn impl_types_have_no_metadata() {
    let item_fn = item_fn("fn a(body: Json<impl Body>) -> Result<impl IntoResponse, E> {}");
    assert!(extract_body_type(&item_fn).is_none());
    assert!(extract_response_type(&item_fn).is_none());
    assert!(endpoint_of(&item_fn).statements.is_empty());
    let nested = self::item_fn("fn b() -> Result<Json<Vec<(u8, &impl Trait)>>, E> {}");
    assert!(extract_response_type(&nested).is_none());
    let whole = self::item_fn("fn c() -> impl IntoResponse {}");
    assert!(extract_response_type(&whole).is_none());
}

#[test]
fn impl_is_found_anywhere() {
    assert!(has_impl(&read("impl Trait")));
    assert!(has_impl(&read("Vec<Option<impl Trait>>")));
    assert!(has_impl(&read("(u8, [impl Trait; 2])")));
    assert!(has_impl(&read("Box<Iterator<Item = impl Trait>>")));
    assert!(has_impl(&parenthesized("F", vec!["u8", "impl Trait"])));
    assert!(!has_impl(&parenthesized("F", vec!["u8"])));
    assert!(has_impl(&read("Box<dyn Iterator<Item = impl Trait> + Send>")));
    assert!(has_impl(&read("Box<dyn Iterator<Item: Into<impl Trait>>>")));
    assert!(has_impl(&read("Box<dyn Fn(u8) -> impl Trait>")));
    assert!(has_impl(&read("fn(impl Trait)")));
    assert!(has_impl(&read("&[*const (impl Trait)]")));
    assert!(!has_impl(&read("Box<dyn Fn(u8) -> Vec<User> + 'static>")));
    assert!(!has_impl(&read("Vec<Option<User>>")));
    assert!(!has_impl(&read("(u8, &str)")));
}

#[test]
fn generic_arguments() {
    let ty = read("std::collections::HashMap<Key, Value>");
    let inner = extract_generic_from_type(&ty, "HashMap").unwrap();
    assert_eq!(last_ident(inner), "Key");
    assert!(extract_generic_from_type(&ty, "std").is_none());
    assert!(extract_generic_from_type(&read("Json"), "Json").is_none());
    assert!(extract_generic_from_type(&read("Json<'a, T>"), "Json").is_none());
    assert!(extract_generic_from_type(&read("Json<>"), "Json").is_none());
    assert!(extract_generic_from_type(&parenthesized("Json", vec!["T"]), "Json").is_none());
    assert!(extract_generic_from_type(&read("(Json<T>,)"), "Json").is_none());
}

#[test]
fn status_codes() {
    assert!(is_status_code(&read("StatusCode")));
    assert!(is_status_code(&read("axum::http::StatusCode")));
    assert!(!is_status_code(&read("StatusCode::Other")));
    assert!(!is_status_code(&read("(StatusCode, String)")));
}

#[test]
fn unwrapping_stops_at_other_types() {
    let ty = read("Vec<Json<Vec<User>>>");
    let inner = unwrap_container_types(&ty);
    assert_eq!(*inner[0].node, parsed("Json<Vec<User>>"));
    let again = unwrap_container_types(inner[0]);
    assert_eq!(again[0].node, inner[0].node);
}

// -- metadata --

fn described(source: &str) -> (String, Vec<(String, syn::Type)>) {
    let Ok(endpoint) = endpoint(tokens("some(attribute)"), tokens(source)) else {
        panic!("no function");
    };
    assert_eq!(endpoint.item, syn::parse_str(source).unwrap());
    let expansion = endpoint.expansion;
    let statements = expansion
        .statements
        .iter()
        .map(|statement| match statement {
            MetaStatement::SetBody(ty) => ("body".to_string(), (**ty).clone()),
            MetaStatement::SetQuery(ty) => ("query".to_string(), (**ty).clone()),
            MetaStatement::SetResponse(ty) => ("response".to_string(), (**ty).clone()),
            MetaStatement::Collect(ty) => ("collect".to_string(), (**ty).clone()),
        })
        .collect();
    (expansion.meta_struct_name, statements)
}

fn statement(kind: &str, ty: &str) -> (String, syn::Type) {
    (kind.to_string(), parsed(ty))
}

#[test]
fn endpoint_records_and_collects() {
    let (name, statements) = described(
        "pub async fn create_project(
            Query(q): Query<Filter>,
            Json(body): Json<CreateProjectRequest>,
        ) -> Result<Json<Vec<ProjectResponse>>, StatusCode> {}",
    );
    assert_eq!(name, "create_project__EndpointMeta");
    assert_eq!(
        statements,
        vec![
            statement("body", "CreateProjectRequest"),
            statement("collect", "CreateProjectRequest"),
            statement("collect", "CreateProjectRequest"),
            statement("query", "Filter"),
            statement("collect", "Filter"),
            statement("collect", "Filter"),
            statement("response", "Vec<ProjectResponse>"),
            statement("collect", "Vec<ProjectResponse>"),
            statement("collect", "ProjectResponse"),
        ]
    );
}

#[test]
fn endpoint_without_types_records_nothing() {
    let (name, statements) = described(
        "pub async fn delete_project(
            Path(key): Path<String>,
            State(state): State<Arc<AppState>>,
        ) -> Result<StatusCode, StatusCode> {}",
    );
    assert_eq!(name, "delete_project__EndpointMeta");
    assert!(statements.is_empty());
}

#[test]
fn metadata_is_named_after_the_function() {
    assert_eq!(meta_struct_name("list_users"), "list_users__EndpointMeta");
    assert_eq!(meta_struct_name("r#type"), "type__EndpointMeta");
    assert_eq!(meta_struct_name("r"), "r__EndpointMeta");
    let (name, _) = described("fn r#match() {}");
    assert_eq!(name, "match__EndpointMeta");
}

fn registered(source: &str) -> Registration {
    match register(tokens(source)) {
        Ok(registration) => registration,
        Err(_) => panic!("not registered"),
    }
}

fn path(source: &str) -> syn::Path {
    syn::parse_str(source).unwrap()
}

#[test]
fn register_renames_the_last_segment() {
    let registration = registered("api::admin::create_course");
    assert_eq!(registration.path, path("api::admin::create_course"));
    assert_eq!(registration.meta, path("api::admin::create_course__EndpointMeta"));
    assert_eq!(registered("health").meta, path("health__EndpointMeta"));
}

#[test]
fn register_keeps_the_rest_of_the_path() {
    assert_eq!(registered("::api::health").meta, path("::api::health__EndpointMeta"));
    assert_eq!(
        registered("api::Admin<u8>::list<Vec<User>, 3>").meta,
        path("api::Admin<u8>::list__EndpointMeta<Vec<User>, 3>")
    );
    assert_ne!(registered("::api::health").meta, path("api::health__EndpointMeta"));
}

#[test]
fn register_names_odd_identifiers() {
    assert_eq!(registered("r#type").meta, path("type__EndpointMeta"));
    assert_eq!(registered("a::crate").meta, path("a::crate__EndpointMeta"));
    assert_eq!(registered("übersicht").meta, path("übersicht__EndpointMeta"));
    assert_eq!(registered("_x9").meta, path("_x9__EndpointMeta"));
}

#[test]
fn registered_handlers_find_their_metadata() {
    let source = "async fn r#match(Json(body): Json<User>) {}";
    let (name, _) = described(source);
    let meta = registered("api::r#match").meta;
    assert_eq!(meta.segments.last().unwrap().ident, name);
}

#[test]
fn tokens_of_another_kind_are_refused() {
    for source in ["struct S;", "fn f()", "fn f() {} fn g() {}", ""] {
        match endpoint(TokenStream::new(), tokens(source)) {
            Ok(_) => panic!("not one function"),
            Err(refused) => assert!(!refused.error.to_string().is_empty()),
        }
    }
    for source in ["1 + 2", "a b", ""] {
        match register(tokens(source)) {
            Err(RegisterError::NoPath(refused)) => {
                assert!(!refused.error.to_string().is_empty());
            }
            _ => panic!("not a path"),
        }
    }
}
