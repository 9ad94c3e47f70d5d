//! Names of types and handlers, and parameters of paths.

use vstd::prelude::*;

use crate::names::{braced_components_are_passed_over, single_components_are_kept};
use crate::names::{camel_drops_an_underscore, camel_keeps_inside_a_word};
use crate::names::{camel_keeps_single_words, camel_raises_behind_an_underscore};
use crate::names::{default_name_from_handler, handler_name_from_type_name, snake_to_camel};
use crate::names::{modules_never_show, paths_are_parted, texts_without_modules_are_kept};
use crate::names::{strip_module_paths, the_last_component_is_the_name, type_string};
use crate::types::{a_name_in_braces_is_a_parameter, a_plain_segment_is_no_parameter};
use crate::types::{extract_path_params, names_are_those_of_the_parameters, names_of};
use crate::types::{paths_join_their_parameters, HttpMethod, PathParam};

verus! {

// ---------------------------------------------------------------------------
// Type names
// ---------------------------------------------------------------------------

/// The name of a type does not depend on the module it is in.
pub proof fn names_do_not_show_modules(
    module: Seq<char>,
    name: &str,
    full_name: &str,
    name_stripped: String,
    stripped: String,
)
    requires
        full_name@ == module + seq![':', ':'] + name@,
        forall|i: int|
            0 <= i < module.len() ==> #[trigger] module[i] != '<' && module[i] != '>' && module[i]
                != ',' && module[i] != ' ' && module[i] != '(' && module[i] != '[' && module[i]
                != '&',
        forall|i: int|
            0 <= i < module.len() - 1 ==> !(#[trigger] module[i] == ':' && module[i + 1] == ':'),
        module.len() > 0 ==> module.last() != ':',
        call_ensures(strip_module_paths, (name,), name_stripped),
        call_ensures(strip_module_paths, (full_name,), stripped),
    ensures
        stripped@ == name_stripped@,
{
    modules_never_show(module, name@);
}

/// What stands before and what stands behind a character that parts paths is
/// named on its own, and the character stays.
pub proof fn names_are_made_piece_by_piece(
    before: &str,
    ch: char,
    behind: &str,
    whole: &str,
    before_stripped: String,
    behind_stripped: String,
    stripped: String,
)
    requires
        ch == '<' || ch == '>' || ch == ',' || ch == ' ' || ch == '(' || ch == '[' || ch == '&',
        whole@ == before@.push(ch) + behind@,
        call_ensures(strip_module_paths, (before,), before_stripped),
        call_ensures(strip_module_paths, (behind,), behind_stripped),
        call_ensures(strip_module_paths, (whole,), stripped),
    ensures
        stripped@ == before_stripped@.push(ch) + behind_stripped@,
{
    paths_are_parted(before@, ch, behind@);
}

/// A text without `::` is its own name.
pub proof fn names_without_modules_are_kept(text: &str, stripped: String)
    requires
        forall|i: int|
            0 <= i < text@.len() - 1 ==> !(#[trigger] text@[i] == ':' && text@[i + 1] == ':'),
        call_ensures(strip_module_paths, (text,), stripped),
    ensures
        stripped@ == text@,
{
    texts_without_modules_are_kept(text@);
}

/// The name of a type is its full name without module paths.
pub proof fn types_are_named_by_stripping(full_name: &str, name: String, stripped: String)
    requires
        call_ensures(type_string, (full_name,), name),
        call_ensures(strip_module_paths, (full_name,), stripped),
    ensures
        name@ == stripped@,
{
}

// ---------------------------------------------------------------------------
// Handler names
// ---------------------------------------------------------------------------

/// A text without `::` names its function itself.
pub proof fn handlers_outside_modules(text: &str, name: &str)
    requires
        forall|i: int|
            0 <= i < text@.len() - 1 ==> !(#[trigger] text@[i] == ':' && text@[i + 1] == ':'),
        call_ensures(handler_name_from_type_name, (text,), name),
    ensures
        name@ == text@,
{
    single_components_are_kept(text@);
}

/// A handler is called what stands behind the last `::`, if that does not start
/// with `{`.
pub proof fn handlers_are_named_by_their_last_component(
    path: Seq<char>,
    component: Seq<char>,
    full_name: &str,
    name: &str,
)
    requires
        full_name@ == path + seq![':', ':'] + component,
        forall|i: int|
            0 <= i < component.len() - 1 ==> !(#[trigger] component[i] == ':' && component[i + 1]
                == ':'),
        component.len() > 0 ==> component[0] != ':' && component[0] != '{',
        call_ensures(handler_name_from_type_name, (full_name,), name),
    ensures
        name@ == component,
{
    the_last_component_is_the_name(path, component);
}

/// A handler is called the same with and without a component like `{{closure}}`
/// behind it, unless its path has no other components.
pub proof fn closures_are_named_after_their_function(
    path: &str,
    component: Seq<char>,
    full_name: &str,
    path_name: &str,
    name: &str,
)
    requires
        full_name@ == path@ + seq![':', ':'] + component,
        forall|i: int|
            0 <= i < component.len() - 1 ==> !(#[trigger] component[i] == ':' && component[i + 1]
                == ':'),
        component.len() > 0,
        component[0] == '{',
        call_ensures(handler_name_from_type_name, (path,), path_name),
        call_ensures(handler_name_from_type_name, (full_name,), name),
    ensures
        !(path_name@.len() > 0 && path_name@[0] == '{') ==> name@ == path_name@,
        path_name@.len() > 0 && path_name@[0] == '{' ==> name@ == full_name@,
{
    braced_components_are_passed_over(path@, component);
}

// ---------------------------------------------------------------------------
// Camel case
// ---------------------------------------------------------------------------

/// A name without underscores is left as it is.
pub proof fn camel_of_one_word(name: &str, camel: String)
    requires
        forall|i: int| 0 <= i < name@.len() ==> #[trigger] name@[i] != '_',
        call_ensures(snake_to_camel, (name,), camel),
    ensures
        camel@ == name@,
{
    camel_keeps_single_words(name@);
}

/// An underscore at the end of a name does not show.
pub proof fn camel_without_the_last_underscore(
    name: &str,
    longer: &str,
    camel: String,
    longer_camel: String,
)
    requires
        longer@ == name@.push('_'),
        call_ensures(snake_to_camel, (name,), camel),
        call_ensures(snake_to_camel, (longer,), longer_camel),
    ensures
        longer_camel@ == camel@,
{
    camel_drops_an_underscore(name@);
}

/// The first letter of a word behind an underscore is made upper case: the ASCII
/// letter with the code that is smaller by 32. Another character stays.
pub proof fn camel_of_a_new_word(
    name: &str,
    ch: char,
    longer: &str,
    camel: String,
    longer_camel: String,
)
    requires
        ch != '_',
        longer@ == name@.push('_').push(ch),
        call_ensures(snake_to_camel, (name,), camel),
        call_ensures(snake_to_camel, (longer,), longer_camel),
    ensures
        'a' <= ch <= 'z' ==> longer_camel@ == camel@.push((ch as u32 - 32) as char),
        !('a' <= ch <= 'z') ==> longer_camel@ == camel@.push(ch),
{
    camel_raises_behind_an_underscore(name@, ch);
}

/// A character that does not stand behind an underscore stays as it is.
pub proof fn camel_inside_a_word(
    name: &str,
    ch: char,
    longer: &str,
    camel: String,
    longer_camel: String,
)
    requires
        ch != '_',
        name@.len() > 0 ==> name@[name@.len() - 1] != '_',
        longer@ == name@.push(ch),
        call_ensures(snake_to_camel, (name,), camel),
        call_ensures(snake_to_camel, (longer,), longer_camel),
    ensures
        longer_camel@ == camel@.push(ch),
{
    camel_keeps_inside_a_word(name@, ch);
}

/// A route is called after its handler function, in camel case.
pub proof fn routes_are_named_after_their_handler(
    full_name: &str,
    handler: &str,
    camel: String,
    name: String,
)
    requires
        call_ensures(handler_name_from_type_name, (full_name,), handler),
        call_ensures(snake_to_camel, (handler,), camel),
        call_ensures(default_name_from_handler, (full_name,), name),
    ensures
        name@ == camel@,
{
}

// ---------------------------------------------------------------------------
// Methods
// ---------------------------------------------------------------------------

/// How each method reads.
pub proof fn methods_read_as_in_requests(method: &HttpMethod, text: &'static str, owned: String)
    requires
        call_ensures(HttpMethod::as_str, (method,), text),
        call_ensures(HttpMethod::to_string, (method,), owned),
    ensures
        owned@ == text@,
        *method == HttpMethod::Get <==> text@ == seq!['G', 'E', 'T'],
        *method == HttpMethod::Post <==> text@ == seq!['P', 'O', 'S', 'T'],
        *method == HttpMethod::Put <==> text@ == seq!['P', 'U', 'T'],
        *method == HttpMethod::Patch <==> text@ == seq!['P', 'A', 'T', 'C', 'H'],
        *method == HttpMethod::Delete <==> text@ == seq!['D', 'E', 'L', 'E', 'T', 'E'],
{
    reveal_strlit("GET");
    reveal_strlit("POST");
    reveal_strlit("PUT");
    reveal_strlit("PATCH");
    reveal_strlit("DELETE");
    assert("GET"@ =~= seq!['G', 'E', 'T']);
    assert("POST"@ =~= seq!['P', 'O', 'S', 'T']);
    assert("PUT"@ =~= seq!['P', 'U', 'T']);
    assert("PATCH"@ =~= seq!['P', 'A', 'T', 'C', 'H']);
    assert("DELETE"@ =~= seq!['D', 'E', 'L', 'E', 'T', 'E']);
    assert(text@[0] == 'G' <==> *method == HttpMethod::Get);
    assert(text@[0] == 'D' <==> *method == HttpMethod::Delete);
    assert(text@[1] == 'O' <==> *method == HttpMethod::Post);
    assert(text@[1] == 'U' <==> *method == HttpMethod::Put);
    assert(text@[1] == 'A' <==> *method == HttpMethod::Patch);
    assert(seq!['G', 'E', 'T'][0] == 'G' && seq!['D', 'E', 'L', 'E', 'T', 'E'][0] == 'D');
    assert(seq!['P', 'O', 'S', 'T'][1] == 'O' && seq!['P', 'U', 'T'][1] == 'U' && seq![
        'P',
        'A',
        'T',
        'C',
        'H',
    ][1] == 'A');
}

// ---------------------------------------------------------------------------
// Path parameters
// ---------------------------------------------------------------------------

/// A name in braces, alone or behind a slash, is the one parameter of its path,
/// whatever the name is.
pub proof fn names_in_braces_are_parameters(name: Seq<char>, path: &str, params: Vec<PathParam>)
    requires
        forall|i: int| 0 <= i < name.len() ==> #[trigger] name[i] != '/',
        path@ == seq!['{'] + name + seq!['}'] || path@ == seq!['/', '{'] + name + seq!['}'],
        call_ensures(extract_path_params, (path,), params),
    ensures
        params@.len() == 1,
        params@[0].name@ == name,
{
    a_name_in_braces_is_a_parameter(name);
    names_are_those_of_the_parameters(params@);
    assert(names_of(params@)[0] == name);
}

/// A text without slashes that does not both start with `{` and end with `}`, as
/// two characters, has no parameters.
pub proof fn other_segments_are_no_parameters(path: &str, params: Vec<PathParam>)
    requires
        forall|i: int| 0 <= i < path@.len() ==> #[trigger] path@[i] != '/',
        path@.len() < 2 || path@[0] != '{' || path@[path@.len() - 1] != '}',
        call_ensures(extract_path_params, (path,), params),
    ensures
        params@.len() == 0,
{
    a_plain_segment_is_no_parameter(path@);
    names_are_those_of_the_parameters(params@);
}

/// The parameters of a path are those before a slash and behind them those
/// behind it, whichever slash it is.
pub proof fn parameters_come_in_order(
    before: &str,
    behind: &str,
    path: &str,
    before_params: Vec<PathParam>,
    behind_params: Vec<PathParam>,
    params: Vec<PathParam>,
)
    requires
        path@ == before@.push('/') + behind@,
        call_ensures(extract_path_params, (before,), before_params),
        call_ensures(extract_path_params, (behind,), behind_params),
        call_ensures(extract_path_params, (path,), params),
    ensures
        params@.len() == before_params@.len() + behind_params@.len(),
        forall|i: int|
            0 <= i < before_params@.len() ==> (#[trigger] params@[i]).name@
                == before_params@[i].name@,
        forall|i: int|
            0 <= i < behind_params@.len() ==> params@[before_params@.len() + i].name@ == (
            #[trigger] behind_params@[i]).name@,
{
    paths_join_their_parameters(before@, behind@);
    let names = names_of(params@);
    let before_names = names_of(before_params@);
    let behind_names = names_of(behind_params@);
    names_are_those_of_the_parameters(params@);
    names_are_those_of_the_parameters(before_params@);
    names_are_those_of_the_parameters(behind_params@);
    assert forall|i: int| 0 <= i < before_params@.len() implies (#[trigger] params@[i]).name@
        == before_params@[i].name@ by {
        assert(names[i] == before_names[i]);
    }
    assert forall|i: int| 0 <= i < behind_params@.len() implies params@[before_params@.len()
        + i].name@ == (#[trigger] behind_params@[i]).name@ by {
        assert(names[before_names.len() + i] == behind_names[i]);
    }
}

} // verus!
