//! What is known of a single route.

use vstd::prelude::*;

use crate::text::{chars_of, split, text_of};
use crate::text::{lemma_split_concat, lemma_split_pieces_free, lemma_split_whole};

verus! {

// ---------------------------------------------------------------------------
// HTTP methods
// ---------------------------------------------------------------------------

/// HTTP method for a route.
#[derive(Debug, PartialEq, Eq, Structural)]
pub enum HttpMethod {
    Get,
    Post,
    Put,
    Patch,
    Delete,
}

impl HttpMethod {
    /// The method as it stands in a request.
    pub open spec fn text(self) -> Seq<char> {
        match self {
            HttpMethod::Get => "GET"@,
            HttpMethod::Post => "POST"@,
            HttpMethod::Put => "PUT"@,
            HttpMethod::Patch => "PATCH"@,
            HttpMethod::Delete => "DELETE"@,
        }
    }

    pub fn as_str(&self) -> (text: &'static str)
        ensures
            text@ == self.text(),
    {
        match self {
            HttpMethod::Get => "GET",
            HttpMethod::Post => "POST",
            HttpMethod::Put => "PUT",
            HttpMethod::Patch => "PATCH",
            HttpMethod::Delete => "DELETE",
        }
    }

    /// The method as an owned text.
    pub fn to_string(&self) -> (text: String)
        ensures
            text@ == self.text(),
    {
        self.as_str().to_owned()
    }
}

impl Clone for HttpMethod {
    fn clone(&self) -> (copy: Self)
        ensures
            copy == *self,
    {
        match self {
            HttpMethod::Get => HttpMethod::Get,
            HttpMethod::Post => HttpMethod::Post,
            HttpMethod::Put => HttpMethod::Put,
            HttpMethod::Patch => HttpMethod::Patch,
            HttpMethod::Delete => HttpMethod::Delete,
        }
    }
}

/// Different methods read differently.
pub proof fn method_texts_are_distinct(a: HttpMethod, b: HttpMethod)
    requires
        a.text() == b.text(),
    ensures
        a == b,
{
    reveal_strlit("GET");
    reveal_strlit("POST");
    reveal_strlit("PUT");
    reveal_strlit("PATCH");
    reveal_strlit("DELETE");
    assert("GET"@[0] == 'G' && "POST"@[1] == 'O' && "PUT"@[1] == 'U' && "PATCH"@[1] == 'A'
        && "DELETE"@[0] == 'D');
    assert("POST"@[0] == 'P' && "PUT"@[0] == 'P' && "PATCH"@[0] == 'P');
}

// ---------------------------------------------------------------------------
// Path parameters
// ---------------------------------------------------------------------------

/// A path parameter extracted from a route path (e.g., `{id}` in `/users/{id}`).
#[derive(Debug, PartialEq, Eq)]
pub struct PathParam {
    pub name: String,
}

impl Clone for PathParam {
    fn clone(&self) -> (copy: Self)
        ensures
            copy@ == self@,
    {
        PathParam { name: self.name.clone() }
    }
}

impl View for PathParam {
    type V = Seq<char>;

    open spec fn view(&self) -> Seq<char> {
        self.name@
    }
}

/// The segment is a name in braces.
pub open spec fn is_param(segment: Seq<char>) -> bool {
    segment.len() >= 2 && segment[0] == '{' && segment.last() == '}'
}

/// What stands between the braces.
pub open spec fn param_name(segment: Seq<char>) -> Seq<char> {
    segment.subrange(1, segment.len() - 1)
}

/// The names of those segments that are parameters, in order.
pub open spec fn param_names(segments: Seq<Seq<char>>) -> Seq<Seq<char>>
    decreases segments.len(),
{
    if segments.len() == 0 {
        Seq::empty()
    } else {
        let names = param_names(segments.drop_last());
        if is_param(segments.last()) {
            names.push(param_name(segments.last()))
        } else {
            names
        }
    }
}

/// The names of the parameters of a path, from left to right.
pub open spec fn path_params(path: Seq<char>) -> Seq<Seq<char>> {
    param_names(split(path, '/'))
}

/// The names that a list of parameters holds.
pub open spec fn names_of(params: Seq<PathParam>) -> Seq<Seq<char>> {
    params.map_values(|param: PathParam| param@)
}

/// A list of parameters holds one name for each parameter.
pub proof fn names_are_those_of_the_parameters(params: Seq<PathParam>)
    ensures
        names_of(params).len() == params.len(),
        forall|i: int|
            0 <= i < params.len() ==> #[trigger] names_of(params)[i] == params[i].name@,
{
}

fn push_if_param(params: &mut Vec<PathParam>, chars: &Vec<char>, from: usize, to: usize)
    requires
        from <= to <= chars@.len(),
    ensures
        is_param(chars@.subrange(from as int, to as int)) ==> names_of(final(params)@) == names_of(
            old(params)@,
        ).push(param_name(chars@.subrange(from as int, to as int))),
        !is_param(chars@.subrange(from as int, to as int)) ==> final(params)@ == old(params)@,
{
    let ghost segment = chars@.subrange(from as int, to as int);
    if to - from >= 2 && chars[from] == '{' && chars[to - 1] == '}' {
        let name = text_of(chars, from + 1, to - 1);
        assert(name@ =~= param_name(segment));
        params.push(PathParam { name });
        assert(names_of(params@) =~= names_of(old(params)@).push(param_name(segment)));
    }
}

/// Extract path parameters from a route path string.
///
/// For example, `/admin/users/{id}` gives one parameter, `id`.
pub fn extract_path_params(path: &str) -> (params: Vec<PathParam>)
    ensures
        names_of(params@) == path_params(path@),
{
    let chars = chars_of(path);
    let mut params: Vec<PathParam> = Vec::new();
    let mut start: usize = 0;
    let mut i: usize = 0;
    proof {
        assert(chars@.take(0) =~= Seq::<char>::empty());
        assert(split(chars@.take(0), '/').drop_last() =~= Seq::<Seq<char>>::empty());
        assert(chars@.subrange(0, 0) =~= Seq::<char>::empty());
        assert(names_of(params@) =~= Seq::<Seq<char>>::empty());
    }
    while i < chars.len()
        invariant
            start <= i <= chars@.len(),
            split(chars@.take(i as int), '/').len() >= 1,
            split(chars@.take(i as int), '/').last() == chars@.subrange(start as int, i as int),
            names_of(params@) == param_names(split(chars@.take(i as int), '/').drop_last()),
        decreases chars@.len() - i,
    {
        let ghost before = split(chars@.take(i as int), '/');
        proof {
            assert(chars@.take(i + 1).drop_last() =~= chars@.take(i as int));
            assert(chars@.take(i + 1).last() == chars@[i as int]);
        }
        if chars[i] == '/' {
            push_if_param(&mut params, &chars, start, i);
            proof {
                let after = split(chars@.take(i + 1), '/');
                assert(after.drop_last() =~= before);
                assert(chars@.subrange(i + 1, i + 1) =~= Seq::<char>::empty());
            }
            start = i + 1;
        } else {
            proof {
                let after = split(chars@.take(i + 1), '/');
                assert(after.drop_last() =~= before.drop_last());
                assert(chars@.subrange(start as int, i + 1) =~= chars@.subrange(
                    start as int,
                    i as int,
                ).push(chars@[i as int]));
            }
        }
        i = i + 1;
    }
    proof {
        assert(chars@.take(chars@.len() as int) =~= chars@);
    }
    push_if_param(&mut params, &chars, start, i);
    params
}

proof fn lemma_param_names_concat(a: Seq<Seq<char>>, b: Seq<Seq<char>>)
    ensures
        param_names(a + b) == param_names(a) + param_names(b),
    decreases b.len(),
{
    if b.len() == 0 {
        assert(a + b =~= a);
        assert(param_names(a) + param_names(b) =~= param_names(a));
    } else {
        assert((a + b).drop_last() =~= a + b.drop_last());
        lemma_param_names_concat(a, b.drop_last());
        assert(param_names(a + b) =~= param_names(a) + param_names(b));
    }
}

/// A path that starts with a slash has the same parameters behind a prefix as
/// alone, after those of the prefix.
pub proof fn path_params_behind_prefix(prefix: Seq<char>, path: Seq<char>)
    requires
        path.len() > 0,
        path[0] == '/',
    ensures
        path_params(prefix + path) == path_params(prefix) + path_params(path),
{
    let rest = path.skip(1);
    assert(prefix + path =~= prefix.push('/') + rest);
    assert(path =~= Seq::<char>::empty().push('/') + rest);
    lemma_split_concat(prefix, rest, '/');
    lemma_split_concat(Seq::empty(), rest, '/');
    lemma_param_names_concat(split(prefix, '/'), split(rest, '/'));
    let none = split(Seq::<char>::empty(), '/');
    lemma_param_names_concat(none, split(rest, '/'));
    reveal_with_fuel(param_names, 2);
    assert(none.drop_last() =~= Seq::<Seq<char>>::empty());
    assert(param_names(none) =~= Seq::<Seq<char>>::empty());
    assert(path_params(path) =~= param_names(split(rest, '/')));
}

proof fn lemma_param_names_slash_free(segments: Seq<Seq<char>>)
    requires
        forall|i: int| 0 <= i < segments.len() ==> !(#[trigger] segments[i]).contains('/'),
    ensures
        forall|i: int|
            0 <= i < param_names(segments).len() ==> !(#[trigger] param_names(
                segments,
            )[i]).contains('/'),
        param_names(segments).len() <= segments.len(),
    decreases segments.len(),
{
    if segments.len() > 0 {
        let front = segments.drop_last();
        assert forall|i: int| 0 <= i < front.len() implies !(#[trigger] front[i]).contains('/') by {
            assert(front[i] == segments[i]);
        }
        lemma_param_names_slash_free(front);
        let segment = segments[segments.len() - 1];
        assert(!segment.contains('/'));
        if is_param(segment) {
            let name = param_name(segment);
            assert forall|i: int| 0 <= i < name.len() implies name[i] != '/' by {
                assert(name[i] == segment[i + 1]);
            }
            assert forall|i: int| 0 <= i < param_names(segments).len() implies !(
            #[trigger] param_names(segments)[i]).contains('/') by {
                if i < param_names(front).len() {
                    assert(param_names(segments)[i] == param_names(front)[i]);
                } else {
                    assert(param_names(segments)[i] == name);
                }
            }
        }
    }
}

/// A parameter is one segment: no name holds a slash, and there are no more
/// parameters than segments.
pub proof fn path_params_are_segments(path: Seq<char>)
    ensures
        forall|i: int| 0 <= i < path_params(path).len() ==> !(#[trigger] path_params(path)[i]).contains('/'),
        path_params(path).len() <= split(path, '/').len(),
{
    lemma_split_pieces_free(path, '/');
    lemma_param_names_slash_free(split(path, '/'));
}

/// A name in braces, alone or behind a slash, is the one parameter of its path,
/// whatever the name is.
pub proof fn a_name_in_braces_is_a_parameter(name: Seq<char>)
    requires
        !name.contains('/'),
    ensures
        path_params(seq!['{'] + name + seq!['}']) == seq![name],
        path_params(seq!['/', '{'] + name + seq!['}']) == seq![name],
{
    let segment = seq!['{'] + name + seq!['}'];
    assert forall|i: int| 0 <= i < segment.len() implies segment[i] != '/' by {
        if 0 < i < segment.len() - 1 {
            assert(segment[i] == name[i - 1]);
        }
    }
    lemma_split_whole(segment, '/');
    reveal_with_fuel(param_names, 2);
    assert(seq![segment].drop_last() =~= Seq::<Seq<char>>::empty());
    assert(param_name(segment) =~= name);
    assert(path_params(segment) =~= seq![name]);
    paths_join_their_parameters(Seq::empty(), segment);
    a_plain_segment_is_no_parameter(Seq::empty());
    assert(Seq::<char>::empty().push('/') + segment =~= seq!['/', '{'] + name + seq!['}']);
    assert(Seq::<Seq<char>>::empty() + seq![name] =~= seq![name]);
}

/// A segment that does not both start with `{` and end with `}`, as two
/// characters, gives no parameter.
pub proof fn a_plain_segment_is_no_parameter(segment: Seq<char>)
    requires
        !segment.contains('/'),
        segment.len() < 2 || segment[0] != '{' || segment[segment.len() - 1] != '}',
    ensures
        path_params(segment).len() == 0,
        path_params(segment) == Seq::<Seq<char>>::empty(),
{
    lemma_split_whole(segment, '/');
    reveal_with_fuel(param_names, 2);
    assert(seq![segment].drop_last() =~= Seq::<Seq<char>>::empty());
}

/// The parameters of a path are those before a slash and behind them those
/// behind it, whichever slash it is.
pub proof fn paths_join_their_parameters(before: Seq<char>, behind: Seq<char>)
    ensures
        path_params(before.push('/') + behind) == path_params(before) + path_params(behind),
{
    lemma_split_concat(before, behind, '/');
    lemma_param_names_concat(split(before, '/'), split(behind, '/'));
}

// ---------------------------------------------------------------------------
// Route definitions
// ---------------------------------------------------------------------------

/// Definition of a single API route.
#[derive(Debug)]
pub struct RouteDefinition {
    /// Function name in the generated client (e.g., `register`, `listUsers`).
    pub name: String,
    /// HTTP method.
    pub method: HttpMethod,
    /// Route path (e.g., `/register`, `/admin/users/{id}`).
    pub path: String,
    /// Whether the route requires authentication.
    pub auth: bool,
    /// Type name of the request body.
    pub body_type: Option<String>,
    /// Type name of the response body.
    pub response_type: Option<String>,
    /// Type name for query parameters.
    pub query_type: Option<String>,
    /// Path parameters extracted from the path.
    pub path_params: Vec<PathParam>,
    /// Group name for nested object structure (e.g., `emailPassword`).
    pub group: Option<String>,
    /// Whether this route is a browser redirect (not a fetch call).
    pub redirect: bool,
    /// Whether this route is a WebSocket endpoint (generates WS connection, not fetch).
    pub websocket: bool,
    /// Type name for client-to-server events (send direction).
    pub ws_send_type: Option<String>,
    /// Type name for server-to-client events (receive direction).
    pub ws_receive_type: Option<String>,
}

/// The text that an optional string holds.
pub open spec fn optional_text(text: Option<String>) -> Option<Seq<char>> {
    match text {
        Some(text) => Some(text@),
        None => None,
    }
}

/// A route definition as plain text.
#[verifier::ext_equal]
pub struct RouteView {
    pub name: Seq<char>,
    pub method: HttpMethod,
    pub path: Seq<char>,
    pub auth: bool,
    pub body_type: Option<Seq<char>>,
    pub response_type: Option<Seq<char>>,
    pub query_type: Option<Seq<char>>,
    pub path_params: Seq<Seq<char>>,
    pub group: Option<Seq<char>>,
    pub redirect: bool,
    pub websocket: bool,
    pub ws_send_type: Option<Seq<char>>,
    pub ws_receive_type: Option<Seq<char>>,
}

impl View for RouteDefinition {
    type V = RouteView;

    open spec fn view(&self) -> RouteView {
        RouteView {
            name: self.name@,
            method: self.method,
            path: self.path@,
            auth: self.auth,
            body_type: optional_text(self.body_type),
            response_type: optional_text(self.response_type),
            query_type: optional_text(self.query_type),
            path_params: names_of(self.path_params@),
            group: optional_text(self.group),
            redirect: self.redirect,
            websocket: self.websocket,
            ws_send_type: optional_text(self.ws_send_type),
            ws_receive_type: optional_text(self.ws_receive_type),
        }
    }
}

fn copy_params(params: &Vec<PathParam>) -> (copy: Vec<PathParam>)
    ensures
        names_of(copy@) == names_of(params@),
{
    let mut copy: Vec<PathParam> = Vec::new();
    let mut i: usize = 0;
    while i < params.len()
        invariant
            i <= params.len(),
            copy.len() == i,
            forall|j: int| 0 <= j < i ==> (#[trigger] copy[j])@ == params[j]@,
        decreases params.len() - i,
    {
        copy.push(params[i].clone());
        i = i + 1;
    }
    assert(names_of(copy@) =~= names_of(params@));
    copy
}

impl Clone for RouteDefinition {
    fn clone(&self) -> (copy: Self)
        ensures
            copy@ == self@,
    {
        RouteDefinition {
            name: self.name.clone(),
            method: self.method.clone(),
            path: self.path.clone(),
            auth: self.auth,
            body_type: self.body_type.clone(),
            response_type: self.response_type.clone(),
            query_type: self.query_type.clone(),
            path_params: copy_params(&self.path_params),
            group: self.group.clone(),
            redirect: self.redirect,
            websocket: self.websocket,
            ws_send_type: self.ws_send_type.clone(),
            ws_receive_type: self.ws_receive_type.clone(),
        }
    }
}

} // verus!
