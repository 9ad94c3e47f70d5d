//! Types inferred from signatures, and names of metadata.

use proc_macro2::TokenStream;
use vstd::prelude::*;

use crate::endpoint::{argument_of, mentions_impl, path_mentions_impl, segment_mentions_impl};
use crate::endpoint::{argument_mentions_impl, parameter_type, statement_views};
use crate::endpoint::{endpoint, endpoint_of, extract_body_type, extract_generic_from_type};
use crate::endpoint::{extract_query_type, extract_response_type, has_impl, is_status_code};
use crate::endpoint::{meta_struct_name, register, unwrap_container_types};
use crate::endpoint::{Endpoint, EndpointExpansion, MetaStatement, RegisterError, Registration};
use crate::endpoint::StatementView;
use crate::signature::{ArgumentView, ArgumentsView, SegmentView, ShapeView, SigType, Signature};
use crate::signature::{bound_views, optional_view, segment_views, Argument, Segment, SegmentArguments, TypeShape, TypeView};
use crate::syntax::{item_tree, parsed_item, parsed_path, path_tree, SyntaxError};

verus! {

/// The type has the form `Wrapper<Inner, ..>`: a path whose last segment is
/// called `wrapper`, with a type as its first argument in angle brackets.
pub open spec fn has_form<N>(ty: TypeView<N>, wrapper: Seq<char>, inner: TypeView<N>) -> bool {
    &&& ty.shape matches ShapeView::Path(segments)
    &&& segments.len() > 0
    &&& segments[segments.len() - 1].ident == wrapper
    &&& segments[segments.len() - 1].arguments matches ArgumentsView::AngleBracketed(args)
    &&& args.len() > 0
    &&& args[0] == ArgumentView::Type(inner)
}

/// The type has the form `Wrapper<Inner, ..>` for no `Inner`.
pub open spec fn has_not_form<N>(ty: TypeView<N>, wrapper: Seq<char>) -> bool {
    forall|inner: TypeView<N>| !#[trigger] has_form(ty, wrapper, inner)
}

/// What a signature says is what it holds, part by part.
pub proof fn signatures_say_what_they_hold<N>(
    signature: Signature<N>,
    ty: SigType<N>,
    segment: Segment<N>,
    argument: Argument<N>,
    i: int,
    j: int,
)
    ensures
        signature@.ident == signature.ident@,
        signature@.inputs.len() == signature.inputs@.len(),
        0 <= i < signature.inputs@.len() ==> (signature@.inputs[i] is Some
            <==> signature.inputs@[i] is Some),
        0 <= i < signature.inputs@.len() && signature.inputs@[i] is Some ==> signature@.inputs[i]
            == Some(signature.inputs@[i]->0@),
        signature@.output is Some <==> signature.output is Some,
        signature.output matches Some(output) ==> signature@.output == Some(output@),
        ty@.node == *ty.node,
        ty.shape is ImplTrait <==> ty@.shape is ImplTrait,
        ty.shape matches TypeShape::Path(parts) ==> (ty@.shape matches ShapeView::Path(views)
            && views.len() == parts@.len() && (0 <= i < parts@.len() ==> views[i] == parts@[i]@)),
        ty.shape matches TypeShape::Tuple(parts) ==> (ty@.shape matches ShapeView::Tuple(views)
            && views.len() == parts@.len() && (0 <= i < parts@.len() ==> views[i] == parts@[i]@)),
        ty.shape matches TypeShape::Function(parts) ==> (ty@.shape matches ShapeView::Function(
            views,
        ) && views.len() == parts@.len() && (0 <= i < parts@.len() ==> views[i] == parts@[i]@)),
        ty.shape matches TypeShape::Other(parts) ==> (ty@.shape matches ShapeView::Other(views)
            && views.len() == parts@.len() && (0 <= i < parts@.len() ==> views[i] == parts@[i]@)),
        ty.shape matches TypeShape::TraitObject(parts) ==> (
        ty@.shape matches ShapeView::TraitObject(views) && views.len() == parts@.len() && (0 <= i
            < parts@.len() ==> views[i].len() == parts@[i].segments@.len() && (0 <= j
            < parts@[i].segments@.len() ==> views[i][j] == parts@[i].segments@[j]@))),
        segment@.ident == segment.ident@,
        segment.arguments is Absent <==> segment@.arguments is Absent,
        segment.arguments matches SegmentArguments::AngleBracketed(parts) ==> (
        segment@.arguments matches ArgumentsView::AngleBracketed(views) && views.len()
            == parts@.len() && (0 <= i < parts@.len() ==> views[i] == parts@[i]@)),
        segment.arguments matches SegmentArguments::Parenthesized(parts) ==> (
        segment@.arguments matches ArgumentsView::Parenthesized(views) && views.len()
            == parts@.len() && (0 <= i < parts@.len() ==> views[i] == parts@[i]@)),
        argument matches Argument::Type(part) ==> argument@ == ArgumentView::Type(part@),
        argument matches Argument::Other(parts) ==> (argument@ matches ArgumentView::Other(views)
            && views.len() == parts@.len() && (0 <= i < parts@.len() ==> views[i] == parts@[i]@)),
        argument matches Argument::Constraint(parts) ==> (
        argument@ matches ArgumentView::Constraint(views) && views.len() == parts@.len() && (0 <= i
            < parts@.len() ==> views[i].len() == parts@[i].segments@.len() && (0 <= j
            < parts@[i].segments@.len() ==> views[i][j] == parts@[i].segments@[j]@))),
{
    reveal_with_fuel(segment_views, 2);
    if let TypeShape::TraitObject(parts) = ty.shape {
        if 0 <= i < parts@.len() {
            assert(bound_views(parts)[i] == segment_views(parts@[i].segments));
        }
    }
    if let Argument::Constraint(parts) = argument {
        if 0 <= i < parts@.len() {
            assert(bound_views(parts)[i] == segment_views(parts@[i].segments));
        }
    }
}

// ---------------------------------------------------------------------------
// Generic arguments
// ---------------------------------------------------------------------------

/// What is extracted from a type is what is wrapped in it, and nothing is
/// extracted exactly where nothing is wrapped in it.
pub proof fn extracting_an_argument<N>(
    ty: &SigType<N>,
    wrapper: &str,
    extracted: Option<&SigType<N>>,
    inner: TypeView<N>,
)
    requires
        call_ensures(extract_generic_from_type::<N>, (ty, wrapper), extracted),
    ensures
        extracted matches Some(found) ==> has_form(ty@, wrapper@, found@),
        has_form(ty@, wrapper@, inner) ==> extracted is Some && extracted->0@ == inner,
        extracted is None ==> has_not_form(ty@, wrapper@),
{
}

/// A type is a status code if its path ends in `StatusCode`.
pub proof fn recognizing_status_codes<N>(ty: &SigType<N>, found: bool)
    requires
        call_ensures(is_status_code::<N>, (ty,), found),
    ensures
        found <==> (ty@.shape matches ShapeView::Path(segments) && segments.len() > 0
            && segments[segments.len() - 1].ident == seq![
            'S',
            't',
            'a',
            't',
            'u',
            's',
            'C',
            'o',
            'd',
            'e',
        ]),
{
    reveal_strlit("StatusCode");
    assert("StatusCode"@ =~= seq!['S', 't', 'a', 't', 'u', 's', 'C', 'o', 'd', 'e']);
}

/// A `Vec` or an `Option` around a type is taken off: what is left is what is
/// left of the type inside.
pub proof fn unwrapping_a_container<N>(
    ty: &SigType<N>,
    inside: &SigType<N>,
    found: Vec<&SigType<N>>,
    found_inside: Vec<&SigType<N>>,
)
    requires
        has_form(ty@, seq!['V', 'e', 'c'], inside@) || has_form(
            ty@,
            seq!['O', 'p', 't', 'i', 'o', 'n'],
            inside@,
        ),
        call_ensures(unwrap_container_types::<N>, (ty,), found),
        call_ensures(unwrap_container_types::<N>, (inside,), found_inside),
    ensures
        found@.len() == 1,
        found_inside@.len() == 1,
        found@[0]@ == found_inside@[0]@,
{
    lemma_container_texts();
    assert(argument_of(ty@, "Vec"@) == Some(inside@) || (argument_of(ty@, "Vec"@) is None
        && argument_of(ty@, "Option"@) == Some(inside@)));
}

/// A type that is no `Vec` and no `Option` of a type is left as it is.
pub proof fn unwrapping_another_type<N>(ty: &SigType<N>, found: Vec<&SigType<N>>)
    requires
        has_not_form(ty@, seq!['V', 'e', 'c']),
        has_not_form(ty@, seq!['O', 'p', 't', 'i', 'o', 'n']),
        call_ensures(unwrap_container_types::<N>, (ty,), found),
    ensures
        found@.len() == 1,
        found@[0]@ == ty@,
{
    lemma_container_texts();
    lemma_argument_has_form(ty@, "Vec"@);
    lemma_argument_has_form(ty@, "Option"@);
}

proof fn lemma_container_texts()
    ensures
        "Vec"@ == seq!['V', 'e', 'c'],
        "Option"@ == seq!['O', 'p', 't', 'i', 'o', 'n'],
        "Vec"@ != "Option"@,
{
    reveal_strlit("Vec");
    reveal_strlit("Option");
    assert("Vec"@ =~= seq!['V', 'e', 'c']);
    assert("Option"@ =~= seq!['O', 'p', 't', 'i', 'o', 'n']);
    assert("Vec"@.len() != "Option"@.len());
}

proof fn lemma_wrapper_texts()
    ensures
        "Json"@ == seq!['J', 's', 'o', 'n'],
        "Query"@ == seq!['Q', 'u', 'e', 'r', 'y'],
        "Result"@ == seq!['R', 'e', 's', 'u', 'l', 't'],
{
    reveal_strlit("Json");
    reveal_strlit("Query");
    reveal_strlit("Result");
    assert("Json"@ =~= seq!['J', 's', 'o', 'n']);
    assert("Query"@ =~= seq!['Q', 'u', 'e', 'r', 'y']);
    assert("Result"@ =~= seq!['R', 'e', 's', 'u', 'l', 't']);
}

proof fn lemma_argument_has_form<N>(ty: TypeView<N>, wrapper: Seq<char>)
    ensures
        argument_of(ty, wrapper) matches Some(inner) ==> has_form(ty, wrapper, inner),
        argument_of(ty, wrapper) is None ==> has_not_form(ty, wrapper),
{
}

// ---------------------------------------------------------------------------
// `impl Trait`
// ---------------------------------------------------------------------------

/// An `impl Trait` is found where it is written, and in whatever it is written
/// in: the elements of a tuple, the types of a function type, the one type that
/// a reference, a slice and the like is made around.
pub proof fn finding_impl<N>(ty: &SigType<N>, found: bool)
    requires
        call_ensures(has_impl::<N>, (ty,), found),
    ensures
        found == mentions_impl(ty@),
        ty@.shape is ImplTrait ==> found,
        ty@.shape matches ShapeView::Tuple(types) ==> (found <==> exists|i: int|
            0 <= i < types.len() && mentions_impl(#[trigger] types[i])),
        ty@.shape matches ShapeView::Function(types) ==> (found <==> exists|i: int|
            0 <= i < types.len() && mentions_impl(#[trigger] types[i])),
        ty@.shape matches ShapeView::Other(types) ==> (found <==> exists|i: int|
            0 <= i < types.len() && mentions_impl(#[trigger] types[i])),
        ty@.shape matches ShapeView::Path(segments) ==> (found <==> exists|i: int|
            0 <= i < segments.len() && segment_mentions_impl(#[trigger] segments[i])),
        ty@.shape matches ShapeView::TraitObject(bounds) ==> (found <==> exists|i: int|
            0 <= i < bounds.len() && path_mentions_impl(#[trigger] bounds[i])),
{
}

/// In a path an `impl Trait` is found in each argument of each segment: in types,
/// in the types of associated types, and in bounds.
pub proof fn finding_impl_in_paths<N>(
    path: Seq<SegmentView<N>>,
    segment: SegmentView<N>,
    argument: ArgumentView<N>,
)
    ensures
        path_mentions_impl(path) <==> exists|i: int|
            0 <= i < path.len() && segment_mentions_impl(#[trigger] path[i]),
        segment.arguments is Absent ==> !segment_mentions_impl(segment),
        segment.arguments matches ArgumentsView::AngleBracketed(args) ==> (segment_mentions_impl(
            segment,
        ) <==> exists|i: int| 0 <= i < args.len() && argument_mentions_impl(#[trigger] args[i])),
        segment.arguments matches ArgumentsView::Parenthesized(types) ==> (segment_mentions_impl(
            segment,
        ) <==> exists|i: int| 0 <= i < types.len() && mentions_impl(#[trigger] types[i])),
        argument matches ArgumentView::Type(ty) ==> (argument_mentions_impl(argument)
            <==> mentions_impl(ty)),
        argument matches ArgumentView::Other(types) ==> (argument_mentions_impl(argument)
            <==> exists|i: int| 0 <= i < types.len() && mentions_impl(#[trigger] types[i])),
        argument matches ArgumentView::Constraint(bounds) ==> (argument_mentions_impl(argument)
            <==> exists|i: int| 0 <= i < bounds.len() && path_mentions_impl(#[trigger] bounds[i])),
{
}

// ---------------------------------------------------------------------------
// Parameters
// ---------------------------------------------------------------------------

/// The type found for a wrapper is that of the first parameter of its form,
/// whatever the parameters before it are.
pub proof fn the_first_parameter_counts<N>(
    inputs: Seq<Option<TypeView<N>>>,
    wrapper: Seq<char>,
    at: int,
    inner: TypeView<N>,
)
    requires
        0 <= at < inputs.len(),
        inputs[at] is Some,
        has_form(inputs[at]->0, wrapper, inner),
        forall|i: int|
            0 <= i < at && (#[trigger] inputs[i]) is Some ==> has_not_form(inputs[i]->0, wrapper),
    ensures
        parameter_type(inputs, wrapper) == Some(inner),
    decreases inputs.len(),
{
    if at > 0 {
        let rest = inputs.skip(1);
        assert forall|i: int| 0 <= i < at - 1 && (#[trigger] rest[i]) is Some implies has_not_form(
            rest[i]->0,
            wrapper,
        ) by {
            assert(rest[i] == inputs[i + 1]);
        }
        the_first_parameter_counts(rest, wrapper, at - 1, inner);
        if inputs[0] is Some {
            lemma_argument_has_form(inputs[0]->0, wrapper);
            if let Some(other) = argument_of(inputs[0]->0, wrapper) {
                assert(has_form(inputs[0]->0, wrapper, other));
            }
        }
    }
}

/// No type is found for a wrapper exactly if no parameter has its form.
pub proof fn without_a_parameter_nothing_is_found<N>(
    inputs: Seq<Option<TypeView<N>>>,
    wrapper: Seq<char>,
)
    ensures
        parameter_type(inputs, wrapper) is None <==> forall|i: int|
            0 <= i < inputs.len() && (#[trigger] inputs[i]) is Some ==> has_not_form(
                inputs[i]->0,
                wrapper,
            ),
    decreases inputs.len(),
{
    if inputs.len() > 0 {
        let rest = inputs.skip(1);
        without_a_parameter_nothing_is_found(rest, wrapper);
        assert(forall|i: int| 0 <= i < rest.len() ==> #[trigger] rest[i] == inputs[i + 1]);
        assert(forall|i: int| 0 < i < inputs.len() ==> #[trigger] inputs[i] == rest[i - 1]);
        if inputs[0] is Some {
            lemma_argument_has_form(inputs[0]->0, wrapper);
            if let Some(other) = argument_of(inputs[0]->0, wrapper) {
                assert(has_form(inputs[0]->0, wrapper, other));
            }
        }
    }
}

/// The body type is the `T` of the first `Json<T>` parameter, whatever the
/// parameters before it are. It is skipped if an `impl Trait` is written in it.
pub proof fn the_body_is_the_first_json_parameter<N>(
    signature: &Signature<N>,
    found: Option<&SigType<N>>,
    at: int,
    inner: &SigType<N>,
    inner_has_impl: bool,
)
    requires
        call_ensures(extract_body_type::<N>, (signature,), found),
        0 <= at < signature.inputs@.len(),
        signature.inputs@[at] is Some,
        has_form(signature.inputs@[at]->0@, seq!['J', 's', 'o', 'n'], inner@),
        forall|i: int|
            0 <= i < at && (#[trigger] signature.inputs@[i]) is Some ==> has_not_form(
                signature.inputs@[i]->0@,
                seq!['J', 's', 'o', 'n'],
            ),
        call_ensures(has_impl::<N>, (inner,), inner_has_impl),
    ensures
        !inner_has_impl ==> found is Some && found->0@ == inner@,
        inner_has_impl ==> found is None,
{
    lemma_wrapper_texts();
    let inputs = signature@.inputs;
    assert(forall|i: int|
        0 <= i < inputs.len() ==> #[trigger] inputs[i] == optional_view(signature.inputs@[i]));
    assert forall|i: int| 0 <= i < at && (#[trigger] inputs[i]) is Some implies has_not_form(
        inputs[i]->0,
        "Json"@,
    ) by {
        assert(signature.inputs@[i] is Some);
    }
    the_first_parameter_counts(inputs, "Json"@, at, inner@);
}

/// Without a `Json<T>` parameter there is no body type.
pub proof fn no_body_without_a_json_parameter<N>(
    signature: &Signature<N>,
    found: Option<&SigType<N>>,
)
    requires
        call_ensures(extract_body_type::<N>, (signature,), found),
        forall|i: int|
            0 <= i < signature.inputs@.len() && (#[trigger] signature.inputs@[i]) is Some
                ==> has_not_form(signature.inputs@[i]->0@, seq!['J', 's', 'o', 'n']),
    ensures
        found is None,
{
    lemma_wrapper_texts();
    let inputs = signature@.inputs;
    assert(forall|i: int|
        0 <= i < inputs.len() ==> #[trigger] inputs[i] == optional_view(signature.inputs@[i]));
    assert forall|i: int| 0 <= i < inputs.len() && (#[trigger] inputs[i]) is Some implies has_not_form(
        inputs[i]->0,
        "Json"@,
    ) by {
        assert(signature.inputs@[i] is Some);
    }
    without_a_parameter_nothing_is_found(inputs, "Json"@);
}

/// The query type is the `T` of the first `Query<T>` parameter, whatever the
/// parameters before it are. It is skipped if an `impl Trait` is written in it.
pub proof fn the_query_is_the_first_query_parameter<N>(
    signature: &Signature<N>,
    found: Option<&SigType<N>>,
    at: int,
    inner: &SigType<N>,
    inner_has_impl: bool,
)
    requires
        call_ensures(extract_query_type::<N>, (signature,), found),
        0 <= at < signature.inputs@.len(),
        signature.inputs@[at] is Some,
        has_form(signature.inputs@[at]->0@, seq!['Q', 'u', 'e', 'r', 'y'], inner@),
        forall|i: int|
            0 <= i < at && (#[trigger] signature.inputs@[i]) is Some ==> has_not_form(
                signature.inputs@[i]->0@,
                seq!['Q', 'u', 'e', 'r', 'y'],
            ),
        call_ensures(has_impl::<N>, (inner,), inner_has_impl),
    ensures
        !inner_has_impl ==> found is Some && found->0@ == inner@,
        inner_has_impl ==> found is None,
{
    lemma_wrapper_texts();
    let inputs = signature@.inputs;
    assert(forall|i: int|
        0 <= i < inputs.len() ==> #[trigger] inputs[i] == optional_view(signature.inputs@[i]));
    assert forall|i: int| 0 <= i < at && (#[trigger] inputs[i]) is Some implies has_not_form(
        inputs[i]->0,
        "Query"@,
    ) by {
        assert(signature.inputs@[i] is Some);
    }
    the_first_parameter_counts(inputs, "Query"@, at, inner@);
}

/// Without a `Query<T>` parameter there is no query type.
pub proof fn no_query_without_a_query_parameter<N>(
    signature: &Signature<N>,
    found: Option<&SigType<N>>,
)
    requires
        call_ensures(extract_query_type::<N>, (signature,), found),
        forall|i: int|
            0 <= i < signature.inputs@.len() && (#[trigger] signature.inputs@[i]) is Some
                ==> has_not_form(signature.inputs@[i]->0@, seq!['Q', 'u', 'e', 'r', 'y']),
    ensures
        found is None,
{
    lemma_wrapper_texts();
    let inputs = signature@.inputs;
    assert(forall|i: int|
        0 <= i < inputs.len() ==> #[trigger] inputs[i] == optional_view(signature.inputs@[i]));
    assert forall|i: int| 0 <= i < inputs.len() && (#[trigger] inputs[i]) is Some implies has_not_form(
        inputs[i]->0,
        "Query"@,
    ) by {
        assert(signature.inputs@[i] is Some);
    }
    without_a_parameter_nothing_is_found(inputs, "Query"@);
}

// ---------------------------------------------------------------------------
// Responses
// ---------------------------------------------------------------------------

/// The response type is the `T` of `Json<T>` and of `Result<Json<T>, E>`. It is
/// skipped if an `impl Trait` is written in it.
pub proof fn the_response_is_what_json_holds<N>(
    signature: &Signature<N>,
    returned: &SigType<N>,
    ok: &SigType<N>,
    inner: &SigType<N>,
    inner_has_impl: bool,
    found: Option<&SigType<N>>,
)
    requires
        call_ensures(extract_response_type::<N>, (signature,), found),
        signature.output == Some(*returned),
        has_form(returned@, seq!['J', 's', 'o', 'n'], inner@) || (has_form(
            returned@,
            seq!['R', 'e', 's', 'u', 'l', 't'],
            ok@,
        ) && has_form(ok@, seq!['J', 's', 'o', 'n'], inner@)),
        call_ensures(has_impl::<N>, (inner,), inner_has_impl),
    ensures
        !inner_has_impl ==> found is Some && found->0@ == inner@,
        inner_has_impl ==> found is None,
{
    lemma_wrapper_texts();
    assert("Json"@.len() != "Result"@.len());
}

/// The response type of any other `Result<T, E>` is `T`. There is none if `T` is
/// a status code, or if an `impl Trait` is written in it.
pub proof fn the_response_of_other_results<N>(
    signature: &Signature<N>,
    returned: &SigType<N>,
    ok: &SigType<N>,
    ok_is_status: bool,
    ok_has_impl: bool,
    found: Option<&SigType<N>>,
)
    requires
        call_ensures(extract_response_type::<N>, (signature,), found),
        signature.output == Some(*returned),
        has_form(returned@, seq!['R', 'e', 's', 'u', 'l', 't'], ok@),
        has_not_form(ok@, seq!['J', 's', 'o', 'n']),
        call_ensures(is_status_code::<N>, (ok,), ok_is_status),
        call_ensures(has_impl::<N>, (ok,), ok_has_impl),
    ensures
        !ok_is_status && !ok_has_impl ==> found is Some && found->0@ == ok@,
        ok_is_status || ok_has_impl ==> found is None,
{
    lemma_wrapper_texts();
    lemma_argument_has_form(ok@, "Json"@);
    if let Some(inner) = argument_of(ok@, "Json"@) {
        assert(has_form(ok@, "Json"@, inner));
    }
}

/// A function that returns nothing, or neither a `Json` nor a `Result`, has no
/// response type.
pub proof fn no_response_of_other_types<N>(signature: &Signature<N>, found: Option<&SigType<N>>)
    requires
        call_ensures(extract_response_type::<N>, (signature,), found),
        signature.output matches Some(returned) ==> has_not_form(
            returned@,
            seq!['R', 'e', 's', 'u', 'l', 't'],
        ) && has_not_form(returned@, seq!['J', 's', 'o', 'n']),
    ensures
        found is None,
{
    lemma_wrapper_texts();
    if let Some(returned) = signature.output {
        lemma_argument_has_form(returned@, "Result"@);
        lemma_argument_has_form(returned@, "Json"@);
        if let Some(inner) = argument_of(returned@, "Result"@) {
            assert(has_form(returned@, "Result"@, inner));
        }
        if let Some(inner) = argument_of(returned@, "Json"@) {
            assert(has_form(returned@, "Json"@, inner));
        }
    }
}

// ---------------------------------------------------------------------------
// Metadata
// ---------------------------------------------------------------------------

/// Metadata is called what the function is called, without the `r#` of a raw
/// identifier, and `__EndpointMeta` behind it.
pub proof fn metadata_is_named_after_the_function(plain: Seq<char>, ident: &str, name: String)
    requires
        ident@ == seq!['r', '#'] + plain || (ident@ == plain && !(plain.len() >= 2 && plain[0]
            == 'r' && plain[1] == '#')),
        call_ensures(meta_struct_name, (ident,), name),
    ensures
        name@ == plain + seq![
            '_',
            '_',
            'E',
            'n',
            'd',
            'p',
            'o',
            'i',
            'n',
            't',
            'M',
            'e',
            't',
            'a',
        ],
{
    reveal_strlit("__EndpointMeta");
    assert("__EndpointMeta"@ =~= seq![
        '_',
        '_',
        'E',
        'n',
        'd',
        'p',
        'o',
        'i',
        'n',
        't',
        'M',
        'e',
        't',
        'a',
    ]);
    if ident@ == seq!['r', '#'] + plain {
        assert(ident@[0] == 'r' && ident@[1] == '#');
        assert(ident@.skip(2) =~= plain);
    }
}

/// A statement says what it holds, and a list of statements what each of them
/// says.
pub proof fn statements_say_what_they_hold<N>(statements: Seq<MetaStatement<N>>, i: int)
    requires
        0 <= i < statements.len(),
    ensures
        statement_views(statements).len() == statements.len(),
        statement_views(statements)[i] == statements[i]@,
        statements[i] matches MetaStatement::SetBody(node) ==> statements[i]@
            == StatementView::SetBody(*node),
        statements[i] matches MetaStatement::SetQuery(node) ==> statements[i]@
            == StatementView::SetQuery(*node),
        statements[i] matches MetaStatement::SetResponse(node) ==> statements[i]@
            == StatementView::SetResponse(*node),
        statements[i] matches MetaStatement::Collect(node) ==> statements[i]@
            == StatementView::Collect(*node),
{
}

/// The metadata of a function records the body, the query and the response type,
/// in this order, as far as there are any. Behind each it collects the type and
/// what is left of it without containers, and it does nothing else.
pub proof fn metadata_records_and_collects<N>(
    signature: &Signature<N>,
    expansion: EndpointExpansion<N>,
    ident: &str,
    name: String,
    body: Option<&SigType<N>>,
    query: Option<&SigType<N>>,
    response: Option<&SigType<N>>,
    in_body: Vec<&SigType<N>>,
    in_query: Vec<&SigType<N>>,
    in_response: Vec<&SigType<N>>,
)
    requires
        call_ensures(endpoint_of::<N>, (signature,), expansion),
        ident@ == signature.ident@,
        call_ensures(meta_struct_name, (ident,), name),
        call_ensures(extract_body_type::<N>, (signature,), body),
        call_ensures(extract_query_type::<N>, (signature,), query),
        call_ensures(extract_response_type::<N>, (signature,), response),
        body matches Some(ty) ==> call_ensures(unwrap_container_types::<N>, (ty,), in_body),
        query matches Some(ty) ==> call_ensures(unwrap_container_types::<N>, (ty,), in_query),
        response matches Some(ty) ==> call_ensures(
            unwrap_container_types::<N>,
            (ty,),
            in_response,
        ),
    ensures
        expansion.meta_struct_name@ == name@,
        ({
            let of_body = match body {
                Some(ty) => seq![
                    StatementView::SetBody(ty@.node),
                    StatementView::Collect(ty@.node),
                    StatementView::Collect(in_body@[0]@.node),
                ],
                None => Seq::empty(),
            };
            let of_query = match query {
                Some(ty) => seq![
                    StatementView::SetQuery(ty@.node),
                    StatementView::Collect(ty@.node),
                    StatementView::Collect(in_query@[0]@.node),
                ],
                None => Seq::empty(),
            };
            let of_response = match response {
                Some(ty) => seq![
                    StatementView::SetResponse(ty@.node),
                    StatementView::Collect(ty@.node),
                    StatementView::Collect(in_response@[0]@.node),
                ],
                None => Seq::empty(),
            };
            statement_views(expansion.statements@) == of_body + of_query + of_response
        }),
{
    let of_body = match body {
        Some(ty) => seq![
            StatementView::SetBody(ty@.node),
            StatementView::Collect(ty@.node),
            StatementView::Collect(in_body@[0]@.node),
        ],
        None => Seq::empty(),
    };
    let of_query = match query {
        Some(ty) => seq![
            StatementView::SetQuery(ty@.node),
            StatementView::Collect(ty@.node),
            StatementView::Collect(in_query@[0]@.node),
        ],
        None => Seq::empty(),
    };
    let of_response = match response {
        Some(ty) => seq![
            StatementView::SetResponse(ty@.node),
            StatementView::Collect(ty@.node),
            StatementView::Collect(in_response@[0]@.node),
        ],
        None => Seq::empty(),
    };
    assert(statement_views(expansion.statements@) =~= of_body + of_query + of_response);
}

/// The metadata of a function given by tokens is that of its signature, and the
/// function is handed back. What is given to the attribute does not matter.
pub proof fn tokens_have_the_metadata_of_their_signature(
    attr: TokenStream,
    item: TokenStream,
    result: Result<Endpoint, SyntaxError>,
    signature: &Signature<syn::Type>,
    expansion: EndpointExpansion<syn::Type>,
)
    requires
        call_ensures(endpoint, (attr, item), result),
        parsed_item(item) matches Some(parsed) ==> signature@ == item_tree(parsed),
        call_ensures(endpoint_of::<syn::Type>, (signature,), expansion),
    ensures
        result is Ok <==> parsed_item(item) is Some,
        result matches Ok(found) ==> {
            &&& parsed_item(item) == Some(found.item)
            &&& found.expansion.meta_struct_name@ == expansion.meta_struct_name@
            &&& statement_views(found.expansion.statements@) == statement_views(
                expansion.statements@,
            )
        },
{
}

/// A registered handler is handed back with the path to its metadata, which
/// differs from the path to the handler in its last identifier alone.
pub proof fn registering_renames_the_last_segment(
    input: TokenStream,
    result: Result<Registration, RegisterError>,
    ident: &str,
    name: String,
)
    requires
        call_ensures(register, (input,), result),
        call_ensures(meta_struct_name, (ident,), name),
    ensures
        parsed_path(input) is None <==> (result matches Err(error) && error is NoPath),
        result matches Ok(found) ==> parsed_path(input) == Some(found.path),
        result matches Ok(found) ==> {
            let path = path_tree(found.path);
            let meta = path_tree(found.meta);
            let last = path.segments.len() - 1;
            &&& last >= 0
            &&& meta.leading_colon == path.leading_colon
            &&& meta.segments.len() == path.segments.len()
            &&& forall|i: int| 0 <= i < last ==> #[trigger] meta.segments[i] == path.segments[i]
            &&& meta.segments[last].arguments == path.segments[last].arguments
            &&& path.segments[last].ident == ident@ ==> meta.segments[last].ident
                == name@
        },
{
}

} // verus!
