//! What a handler's signature says of its request and its response.
//!
//! - [`endpoint`] decides what the metadata of a handler is to record: the
//!   types found in `Json<T>` and `Query<T>` parameters and in the return type.
//! - [`register`] names the metadata of a handler, given the path to it.
//!
//! Both take tokens. What is made of the signature that the tokens stand for is
//! in [`endpoint_of`]; what the metadata of a function is called is in
//! [`meta_struct_name`].

use proc_macro2::TokenStream;
use std::any::TypeId;
use std::rc::Rc;
use vstd::prelude::*;

use crate::builder::BuilderView;
use crate::names::stripped;
use crate::signature::{argument_views, bound_views, segment_views, type_views};
use crate::signature::{optional_view, ArgumentView, ArgumentsView, SegmentView, ShapeView};
use crate::signature::{Argument, Bound, Segment, SegmentArguments, SigType, Signature, TypeShape};
use crate::signature::{PathView, SignatureView, TypeView};
use crate::syntax::{is_ascii_ident, is_ident, item_tree, parsed_item, parsed_path, path_tree};
use crate::syntax::{item_of, last_ident, path_of, read_item, rename_last, SyntaxError};
use crate::text::{chars_of, concat, same_text, text_of};
use crate::types::RouteView;

verus! {

// ---------------------------------------------------------------------------
// Generic arguments
// ---------------------------------------------------------------------------

/// The path of a type ends in a segment called `ident`.
pub open spec fn is_called<N>(ty: TypeView<N>, ident: Seq<char>) -> bool {
    match ty.shape {
        ShapeView::Path(segments) => segments.len() > 0 && segments.last().ident == ident,
        _ => false,
    }
}

/// The `Inner` of a type like `Wrapper<Inner>`: the first generic argument of
/// the last path segment, if that segment is called `wrapper`.
pub open spec fn argument_of<N>(ty: TypeView<N>, wrapper: Seq<char>) -> Option<TypeView<N>> {
    if is_called(ty, wrapper) {
        match ty.shape->Path_0.last().arguments {
            ArgumentsView::AngleBracketed(args) => if args.len() > 0 {
                match args[0] {
                    ArgumentView::Type(inner) => Some(inner),
                    _ => None,
                }
            } else {
                None
            },
            _ => None,
        }
    } else {
        None
    }
}

/// Extract the first generic argument from a type like `Wrapper<Inner>`.
pub fn extract_generic_from_type<'a, N>(ty: &'a SigType<N>, wrapper: &str) -> (inner: Option<
    &'a SigType<N>,
>)
    ensures
        referred(inner) == argument_of(ty@, wrapper@),
{
    match &ty.shape {
        TypeShape::Path(segments) => {
            if segments.len() == 0 {
                return None;
            }
            let segment = &segments[segments.len() - 1];
            assert(segment_views(*segments).last() == segment@);
            if !same_text(segment.ident.as_str(), wrapper) {
                return None;
            }
            match &segment.arguments {
                SegmentArguments::AngleBracketed(args) => {
                    if args.len() == 0 {
                        return None;
                    }
                    assert(argument_views(*args)[0] == args[0]@);
                    match &args[0] {
                        Argument::Type(inner) => Some(inner),
                        _ => None,
                    }
                },
                _ => None,
            }
        },
        _ => None,
    }
}

/// An argument is smaller than the type that it is an argument of.
pub proof fn lemma_argument_is_smaller<N>(ty: TypeView<N>, wrapper: Seq<char>)
    ensures
        argument_of(ty, wrapper) is Some ==> decreases_to!(ty => argument_of(ty, wrapper)->0),
{
    if argument_of(ty, wrapper) is Some {
        let segments = ty.shape->Path_0;
        let segment = segments[segments.len() - 1];
        let args = segment.arguments->AngleBracketed_0;
        assert(decreases_to!(ty => ty.shape));
        assert(decreases_to!(ty.shape => segments));
        assert(decreases_to!(segments => segment));
        assert(decreases_to!(segment => segment.arguments));
        assert(decreases_to!(segment.arguments => args));
        assert(decreases_to!(args => args[0]));
        assert(decreases_to!(args[0] => args[0]->Type_0));
    }
}

/// Check if a type is `StatusCode`.
pub fn is_status_code<N>(ty: &SigType<N>) -> (found: bool)
    ensures
        found == is_called(ty@, "StatusCode"@),
{
    match &ty.shape {
        TypeShape::Path(segments) => {
            if segments.len() == 0 {
                return false;
            }
            let segment = &segments[segments.len() - 1];
            assert(segment_views(*segments).last() == segment@);
            same_text(segment.ident.as_str(), "StatusCode")
        },
        _ => false,
    }
}

/// What is left of a type once every `Vec` and `Option` around it is taken off.
pub open spec fn innermost<N>(ty: TypeView<N>) -> TypeView<N>
    decreases ty,
{
    proof {
        lemma_argument_is_smaller(ty, "Vec"@);
        lemma_argument_is_smaller(ty, "Option"@);
    }
    if argument_of(ty, "Vec"@) is Some {
        innermost(argument_of(ty, "Vec"@)->0)
    } else if argument_of(ty, "Option"@) is Some {
        innermost(argument_of(ty, "Option"@)->0)
    } else {
        ty
    }
}

/// Recursively unwrap `Vec<T>` and `Option<T>` wrappers, returning the
/// innermost non-container type. This ensures types that only appear inside a
/// container (e.g. `Vec<SkillProgress>`) still get registered.
pub fn unwrap_container_types<'a, N>(ty: &'a SigType<N>) -> (inner: Vec<&'a SigType<N>>)
    ensures
        inner@.len() == 1,
        inner@[0]@ == innermost(ty@),
{
    let mut current = ty;
    loop
        invariant
            innermost(current@) == innermost(ty@),
        decreases current@,
    {
        proof {
            lemma_argument_is_smaller(current@, "Vec"@);
            lemma_argument_is_smaller(current@, "Option"@);
        }
        if let Some(inner) = extract_generic_from_type(current, "Vec") {
            current = inner;
        } else if let Some(inner) = extract_generic_from_type(current, "Option") {
            current = inner;
        } else {
            let mut found: Vec<&'a SigType<N>> = Vec::new();
            found.push(current);
            return found;
        }
    }
}

// ---------------------------------------------------------------------------
// `impl Trait`
// ---------------------------------------------------------------------------

/// An `impl Trait` is written somewhere in the type.
pub open spec fn mentions_impl<N>(ty: TypeView<N>) -> bool
    decreases ty,
{
    match ty.shape {
        ShapeView::Path(segments) => path_mentions_impl(segments),
        ShapeView::ImplTrait => true,
        ShapeView::TraitObject(bounds) => bounds_mention_impl(bounds),
        ShapeView::Tuple(types) => types_mention_impl(types),
        ShapeView::Function(types) => types_mention_impl(types),
        ShapeView::Other(types) => types_mention_impl(types),
    }
}

/// An `impl Trait` is written somewhere in one of the types.
pub open spec fn types_mention_impl<N>(types: Seq<TypeView<N>>) -> bool
    decreases types,
{
    exists|i: int| 0 <= i < types.len() && mentions_impl(#[trigger] types[i])
}

/// An `impl Trait` is written somewhere in the arguments of a path.
pub open spec fn path_mentions_impl<N>(segments: Seq<SegmentView<N>>) -> bool
    decreases segments,
{
    exists|i: int| 0 <= i < segments.len() && segment_mentions_impl(#[trigger] segments[i])
}

/// An `impl Trait` is written somewhere in the arguments of a path segment.
pub open spec fn segment_mentions_impl<N>(segment: SegmentView<N>) -> bool
    decreases segment,
{
    match segment.arguments {
        ArgumentsView::Absent => false,
        ArgumentsView::AngleBracketed(args) => arguments_mention_impl(args),
        ArgumentsView::Parenthesized(types) => types_mention_impl(types),
    }
}

/// An `impl Trait` is written somewhere in one of the generic arguments.
pub open spec fn arguments_mention_impl<N>(args: Seq<ArgumentView<N>>) -> bool
    decreases args,
{
    exists|i: int| 0 <= i < args.len() && argument_mentions_impl(#[trigger] args[i])
}

/// An `impl Trait` is written somewhere in a generic argument.
pub open spec fn argument_mentions_impl<N>(argument: ArgumentView<N>) -> bool
    decreases argument,
{
    match argument {
        ArgumentView::Type(ty) => mentions_impl(ty),
        ArgumentView::Constraint(bounds) => bounds_mention_impl(bounds),
        ArgumentView::Other(types) => types_mention_impl(types),
    }
}

/// An `impl Trait` is written somewhere in the path of one of the bounds.
pub open spec fn bounds_mention_impl<N>(bounds: Seq<Seq<SegmentView<N>>>) -> bool
    decreases bounds,
{
    exists|i: int| 0 <= i < bounds.len() && path_mentions_impl(#[trigger] bounds[i])
}

fn types_have_impl<N>(types: &Vec<SigType<N>>) -> (found: bool)
    ensures
        found == types_mention_impl(type_views(*types)),
    decreases *types,
{
    let mut i: usize = 0;
    while i < types.len()
        invariant
            i <= types.len(),
            forall|j: int| 0 <= j < i ==> !mentions_impl(#[trigger] type_views(*types)[j]),
        decreases types.len() - i,
    {
        assert(type_views(*types)[i as int] == types[i as int]@);
        if has_impl(&types[i]) {
            return true;
        }
        i = i + 1;
    }
    false
}

fn path_has_impl<N>(segments: &Vec<Segment<N>>) -> (found: bool)
    ensures
        found == path_mentions_impl(segment_views(*segments)),
    decreases *segments,
{
    let mut i: usize = 0;
    while i < segments.len()
        invariant
            i <= segments.len(),
            forall|j: int|
                0 <= j < i ==> !segment_mentions_impl(#[trigger] segment_views(*segments)[j]),
        decreases segments.len() - i,
    {
        assert(segment_views(*segments)[i as int] == segments[i as int]@);
        if segment_has_impl(&segments[i]) {
            return true;
        }
        i = i + 1;
    }
    false
}

fn arguments_have_impl<N>(args: &Vec<Argument<N>>) -> (found: bool)
    ensures
        found == arguments_mention_impl(argument_views(*args)),
    decreases *args,
{
    let mut i: usize = 0;
    while i < args.len()
        invariant
            i <= args.len(),
            forall|j: int|
                0 <= j < i ==> !argument_mentions_impl(#[trigger] argument_views(*args)[j]),
        decreases args.len() - i,
    {
        assert(argument_views(*args)[i as int] == args[i as int]@);
        if argument_has_impl(&args[i]) {
            return true;
        }
        i = i + 1;
    }
    false
}

fn bounds_have_impl<N>(bounds: &Vec<Bound<N>>) -> (found: bool)
    ensures
        found == bounds_mention_impl(bound_views(*bounds)),
    decreases *bounds,
{
    let mut i: usize = 0;
    while i < bounds.len()
        invariant
            i <= bounds.len(),
            forall|j: int| 0 <= j < i ==> !path_mentions_impl(#[trigger] bound_views(*bounds)[j]),
        decreases bounds.len() - i,
    {
        assert(bound_views(*bounds)[i as int] == segment_views(bounds[i as int].segments));
        if path_has_impl(&bounds[i].segments) {
            return true;
        }
        i = i + 1;
    }
    false
}

fn argument_has_impl<N>(argument: &Argument<N>) -> (found: bool)
    ensures
        found == argument_mentions_impl(argument@),
    decreases *argument,
{
    match argument {
        Argument::Type(ty) => has_impl(ty),
        Argument::Constraint(bounds) => bounds_have_impl(bounds),
        Argument::Other(types) => types_have_impl(types),
    }
}

fn segment_has_impl<N>(segment: &Segment<N>) -> (found: bool)
    ensures
        found == segment_mentions_impl(segment@),
    decreases *segment,
{
    match &segment.arguments {
        SegmentArguments::Absent => false,
        SegmentArguments::AngleBracketed(args) => arguments_have_impl(args),
        SegmentArguments::Parenthesized(types) => types_have_impl(types),
    }
}

/// Whether an `impl Trait` is written somewhere in the type.
pub fn has_impl<N>(ty: &SigType<N>) -> (found: bool)
    ensures
        found == mentions_impl(ty@),
    decreases *ty,
{
    match &ty.shape {
        TypeShape::Path(segments) => path_has_impl(segments),
        TypeShape::ImplTrait => true,
        TypeShape::TraitObject(bounds) => bounds_have_impl(bounds),
        TypeShape::Tuple(types) => types_have_impl(types),
        TypeShape::Function(types) => types_have_impl(types),
        TypeShape::Other(types) => types_have_impl(types),
    }
}

/// A type that can be recorded: one without a name, because an `impl Trait` is
/// written in it, is skipped.
pub open spec fn nameable<N>(ty: Option<TypeView<N>>) -> Option<TypeView<N>> {
    match ty {
        Some(ty) => if mentions_impl(ty) {
            None
        } else {
            Some(ty)
        },
        None => None,
    }
}

/// The optional type behind an optional reference.
pub open spec fn referred<N>(ty: Option<&SigType<N>>) -> Option<TypeView<N>> {
    match ty {
        Some(ty) => Some(ty@),
        None => None,
    }
}

fn skip_impl<'a, N>(ty: Option<&'a SigType<N>>) -> (kept: Option<&'a SigType<N>>)
    ensures
        referred(kept) == nameable(referred(ty)),
{
    match ty {
        Some(ty) => {
            if has_impl(ty) {
                None
            } else {
                Some(ty)
            }
        },
        None => None,
    }
}

// ---------------------------------------------------------------------------
// Extracted types
// ---------------------------------------------------------------------------

/// The `T` of the first parameter of the form `Wrapper<T>`.
pub open spec fn parameter_type<N>(
    inputs: Seq<Option<TypeView<N>>>,
    wrapper: Seq<char>,
) -> Option<TypeView<N>>
    decreases inputs.len(),
{
    if inputs.len() == 0 {
        None
    } else {
        match inputs[0] {
            Some(ty) => if argument_of(ty, wrapper) is Some {
                argument_of(ty, wrapper)
            } else {
                parameter_type(inputs.skip(1), wrapper)
            },
            None => parameter_type(inputs.skip(1), wrapper),
        }
    }
}

/// The `T` of a return type `Json<T>` or `Result<Json<T>, E>`; of any other
/// `Result<T, E>` the `T`, unless it is `StatusCode`.
pub open spec fn returned_type<N>(output: Option<TypeView<N>>) -> Option<TypeView<N>> {
    match output {
        None => None,
        Some(ty) => match argument_of(ty, "Result"@) {
            Some(ok) => match argument_of(ok, "Json"@) {
                Some(inner) => Some(inner),
                None => if is_called(ok, "StatusCode"@) {
                    None
                } else {
                    Some(ok)
                },
            },
            None => argument_of(ty, "Json"@),
        },
    }
}

/// The type of a handler's request body.
pub open spec fn body_type<N>(signature: SignatureView<N>) -> Option<TypeView<N>> {
    nameable(parameter_type(signature.inputs, "Json"@))
}

/// The type of a handler's query parameters.
pub open spec fn query_type<N>(signature: SignatureView<N>) -> Option<TypeView<N>> {
    nameable(parameter_type(signature.inputs, "Query"@))
}

/// The type of a handler's response body.
pub open spec fn response_type<N>(signature: SignatureView<N>) -> Option<TypeView<N>> {
    nameable(returned_type(signature.output))
}

fn find_parameter<'a, N>(signature: &'a Signature<N>, wrapper: &str) -> (found: Option<
    &'a SigType<N>,
>)
    ensures
        referred(found) == parameter_type(signature@.inputs, wrapper@),
{
    let inputs = &signature.inputs;
    let ghost types = signature@.inputs;
    let mut i: usize = 0;
    assert(types.skip(0) =~= types);
    while i < inputs.len()
        invariant
            i <= inputs.len(),
            inputs == signature.inputs,
            types == signature@.inputs,
            parameter_type(types, wrapper@) == parameter_type(types.skip(i as int), wrapper@),
        decreases inputs.len() - i,
    {
        proof {
            assert(types.skip(i as int).skip(1) =~= types.skip(i + 1));
            assert(types.skip(i as int)[0] == optional_view(inputs[i as int]));
        }
        if let Some(ty) = &inputs[i] {
            if let Some(inner) = extract_generic_from_type(ty, wrapper) {
                return Some(inner);
            }
        }
        i = i + 1;
    }
    None
}

/// Extract the inner `T` from `Json<T>` in function parameters.
pub fn extract_body_type<N>(signature: &Signature<N>) -> (ty: Option<&SigType<N>>)
    ensures
        referred(ty) == body_type(signature@),
{
    skip_impl(find_parameter(signature, "Json"))
}

/// Extract the inner `T` from `Query<T>` in function parameters.
pub fn extract_query_type<N>(signature: &Signature<N>) -> (ty: Option<&SigType<N>>)
    ensures
        referred(ty) == query_type(signature@),
{
    skip_impl(find_parameter(signature, "Query"))
}

/// Extract the response type from the return type.
///
/// - `Json<T>` gives `T`
/// - `Result<Json<T>, E>` gives `T`
/// - `Result<StatusCode, StatusCode>` gives nothing (no response body)
pub fn extract_response_type<N>(signature: &Signature<N>) -> (ty: Option<&SigType<N>>)
    ensures
        referred(ty) == response_type(signature@),
{
    let returned = match &signature.output {
        None => None,
        Some(ty) => {
            if let Some(ok) = extract_generic_from_type(ty, "Result") {
                if let Some(inner) = extract_generic_from_type(ok, "Json") {
                    Some(inner)
                } else if is_status_code(ok) {
                    None
                } else {
                    Some(ok)
                }
            } else {
                extract_generic_from_type(ty, "Json")
            }
        },
    };
    skip_impl(returned)
}

// ---------------------------------------------------------------------------
// Names of metadata
// ---------------------------------------------------------------------------

/// An identifier without the `r#` of a raw one.
pub open spec fn unraw(ident: Seq<char>) -> Seq<char> {
    if ident.len() >= 2 && ident[0] == 'r' && ident[1] == '#' {
        ident.skip(2)
    } else {
        ident
    }
}

/// The name of the struct that carries the metadata of a function.
pub open spec fn meta_name(ident: Seq<char>) -> Seq<char> {
    unraw(ident) + "__EndpointMeta"@
}

/// The name of the struct that carries the metadata of the function `ident`.
pub fn meta_struct_name(ident: &str) -> (name: String)
    ensures
        name@ == meta_name(ident@),
{
    let chars = chars_of(ident);
    if chars.len() >= 2 && chars[0] == 'r' && chars[1] == '#' {
        let plain = text_of(&chars, 2, chars.len());
        assert(plain@ =~= unraw(ident@));
        concat(plain.as_str(), "__EndpointMeta")
    } else {
        concat(ident, "__EndpointMeta")
    }
}

/// The path to the metadata of the function that a path leads to: the same path,
/// but for the name at its end.
pub open spec fn meta_path<N>(path: PathView<N>) -> PathView<N> {
    path.with_last_ident(meta_name(path.last_ident()))
}

/// A registered handler.
pub struct Registration {
    /// The path to the handler.
    pub path: syn::Path,
    /// The path to the metadata of the handler.
    pub meta: syn::Path,
}

/// Why a handler could not be registered.
pub enum RegisterError {
    /// The tokens are no path.
    NoPath(SyntaxError),
    /// What the metadata of the handler would be called is no identifier. So it
    /// is with `$crate`.
    NoIdent(SyntaxError),
}

/// Register a handler, given by the tokens of the path to it.
pub fn register(input: TokenStream) -> (registration: Result<Registration, RegisterError>)
    ensures
        match registration {
            Ok(registration) => {
                &&& parsed_path(input) == Some(registration.path)
                &&& path_tree(registration.path).segments.len() > 0
                &&& is_ident(meta_name(path_tree(registration.path).last_ident()))
                &&& path_tree(registration.meta) == meta_path(path_tree(registration.path))
            },
            Err(RegisterError::NoPath(_)) => parsed_path(input) is None,
            Err(RegisterError::NoIdent(_)) => {
                &&& parsed_path(input) matches Some(path)
                &&& !is_ident(meta_name(path_tree(path).last_ident()))
                &&& !is_ascii_ident(unraw(path_tree(path).last_ident()))
            },
        },
{
    let path = match path_of(input) {
        Ok(path) => path,
        Err(error) => return Err(RegisterError::NoPath(error)),
    };
    let name = meta_struct_name(last_ident(&path).as_str());
    match rename_last(&path, name.as_str()) {
        Ok(meta) => Ok(Registration { path, meta }),
        Err(error) => {
            proof {
                let ident = path_tree(path).last_ident();
                if is_ascii_ident(unraw(ident)) {
                    lemma_ascii_meta_name(ident);
                }
            }
            Err(RegisterError::NoIdent(error))
        },
    }
}

/// The metadata of a function with an ASCII name has an ASCII name.
proof fn lemma_ascii_meta_name(ident: Seq<char>)
    requires
        is_ascii_ident(unraw(ident)),
    ensures
        is_ascii_ident(meta_name(ident)),
{
    reveal_strlit("__EndpointMeta");
    let name = meta_name(ident);
    let plain = unraw(ident);
    assert forall|i: int| 0 <= i < name.len() implies 'a' <= #[trigger] name[i] <= 'z' || 'A'
        <= name[i] <= 'Z' || '0' <= name[i] <= '9' || name[i] == '_' by {
        if i < plain.len() {
            assert(name[i] == plain[i]);
        } else {
            assert(name[i] == "__EndpointMeta"@[i - plain.len()]);
        }
    }
    assert(name[0] == plain[0]);
}

// ---------------------------------------------------------------------------
// Metadata of a handler
// ---------------------------------------------------------------------------

/// A statement of the function that applies a handler's metadata to a route.
pub enum MetaStatement<N> {
    /// Record the type as the request body.
    SetBody(Rc<N>),
    /// Record the type as the query parameters.
    SetQuery(Rc<N>),
    /// Record the type as the response.
    SetResponse(Rc<N>),
    /// Collect the type for export.
    Collect(Rc<N>),
}

/// A [`MetaStatement`] as plain values.
pub enum StatementView<N> {
    SetBody(N),
    SetQuery(N),
    SetResponse(N),
    Collect(N),
}

impl<N> View for MetaStatement<N> {
    type V = StatementView<N>;

    open spec fn view(&self) -> StatementView<N> {
        match self {
            MetaStatement::SetBody(node) => StatementView::SetBody(**node),
            MetaStatement::SetQuery(node) => StatementView::SetQuery(**node),
            MetaStatement::SetResponse(node) => StatementView::SetResponse(**node),
            MetaStatement::Collect(node) => StatementView::Collect(**node),
        }
    }
}

/// What a list of statements says.
pub open spec fn statement_views<N>(statements: Seq<MetaStatement<N>>) -> Seq<StatementView<N>> {
    statements.map_values(|statement: MetaStatement<N>| statement@)
}

/// The metadata struct of a handler: its name, and what it does to a route.
pub struct EndpointExpansion<N> {
    pub meta_struct_name: String,
    pub statements: Vec<MetaStatement<N>>,
}

/// A type is collected as it is written, and so is what its containers hold.
pub open spec fn collections<N>(ty: TypeView<N>) -> Seq<StatementView<N>> {
    seq![StatementView::Collect(ty.node), StatementView::Collect(innermost(ty).node)]
}

pub open spec fn body_statements<N>(ty: Option<TypeView<N>>) -> Seq<StatementView<N>> {
    match ty {
        Some(ty) => seq![StatementView::SetBody(ty.node)] + collections(ty),
        None => Seq::empty(),
    }
}

pub open spec fn query_statements<N>(ty: Option<TypeView<N>>) -> Seq<StatementView<N>> {
    match ty {
        Some(ty) => seq![StatementView::SetQuery(ty.node)] + collections(ty),
        None => Seq::empty(),
    }
}

pub open spec fn response_statements<N>(ty: Option<TypeView<N>>) -> Seq<StatementView<N>> {
    match ty {
        Some(ty) => seq![StatementView::SetResponse(ty.node)] + collections(ty),
        None => Seq::empty(),
    }
}

/// What the metadata of a handler does to a route, in order.
pub open spec fn meta_statements<N>(signature: SignatureView<N>) -> Seq<StatementView<N>> {
    body_statements(body_type(signature)) + query_statements(query_type(signature))
        + response_statements(response_type(signature))
}

fn push_statements<N>(
    statements: &mut Vec<MetaStatement<N>>,
    set: MetaStatement<N>,
    ty: &SigType<N>,
)
    ensures
        statement_views(final(statements)@) == statement_views(old(statements)@) + (seq![set@]
            + collections(ty@)),
{
    statements.push(set);
    statements.push(MetaStatement::Collect(ty.node.clone()));
    let inner = unwrap_container_types(ty);
    statements.push(MetaStatement::Collect(inner[0].node.clone()));
    assert(statement_views(statements@) =~= statement_views(old(statements)@) + (seq![set@]
        + collections(ty@)));
}

/// Extract request and response types from the handler function signature.
///
/// The result says what the companion struct `<fn_name>__EndpointMeta` is to
/// record of the handler.
pub fn endpoint_of<N>(signature: &Signature<N>) -> (expansion: EndpointExpansion<N>)
    ensures
        expansion.meta_struct_name@ == meta_name(signature@.ident),
        statement_views(expansion.statements@) == meta_statements(signature@),
{
    let mut statements: Vec<MetaStatement<N>> = Vec::new();
    let ghost body = body_statements(body_type(signature@));
    let ghost query = query_statements(query_type(signature@));
    if let Some(ty) = extract_body_type(signature) {
        push_statements(&mut statements, MetaStatement::SetBody(ty.node.clone()), ty);
    }
    assert(statement_views(statements@) =~= body);
    if let Some(ty) = extract_query_type(signature) {
        push_statements(&mut statements, MetaStatement::SetQuery(ty.node.clone()), ty);
    }
    assert(statement_views(statements@) =~= body + query);
    if let Some(ty) = extract_response_type(signature) {
        push_statements(&mut statements, MetaStatement::SetResponse(ty.node.clone()), ty);
    }
    assert(statement_views(statements@) =~= meta_statements(signature@));
    EndpointExpansion { meta_struct_name: meta_struct_name(signature.ident.as_str()), statements }
}

/// A handler with its metadata struct.
pub struct Endpoint {
    /// The handler, unchanged.
    pub item: syn::ItemFn,
    pub expansion: EndpointExpansion<syn::Type>,
}

/// Extract request and response types from the tokens of a handler function.
/// The tokens given to the attribute itself do not matter.
pub fn endpoint(_attr: TokenStream, item: TokenStream) -> (endpoint: Result<Endpoint, SyntaxError>)
    ensures
        match endpoint {
            Ok(endpoint) => {
                &&& parsed_item(item) == Some(endpoint.item)
                &&& endpoint.expansion.meta_struct_name@ == meta_name(
                    item_tree(endpoint.item).ident,
                )
                &&& statement_views(endpoint.expansion.statements@) == meta_statements(
                    item_tree(endpoint.item),
                )
            },
            Err(_) => parsed_item(item) is None,
        },
{
    match item_of(item) {
        Ok(item) => {
            let expansion = endpoint_of(&read_item(&item));
            Ok(Endpoint { item, expansion })
        },
        Err(error) => Err(error),
    }
}

// ---------------------------------------------------------------------------
// Laws
// ---------------------------------------------------------------------------

/// What is collected from inside containers is not a container itself.
pub proof fn innermost_is_no_container<N>(ty: TypeView<N>)
    ensures
        argument_of(innermost(ty), "Vec"@) is None,
        argument_of(innermost(ty), "Option"@) is None,
    decreases ty,
{
    lemma_argument_is_smaller(ty, "Vec"@);
    lemma_argument_is_smaller(ty, "Option"@);
    if argument_of(ty, "Vec"@) is Some {
        innermost_is_no_container(argument_of(ty, "Vec"@)->0);
    } else if argument_of(ty, "Option"@) is Some {
        innermost_is_no_container(argument_of(ty, "Option"@)->0);
    }
}

/// Unwrapping a second time changes nothing.
pub proof fn unwrapping_is_idempotent<N>(ty: TypeView<N>)
    ensures
        innermost(innermost(ty)) == innermost(ty),
{
    innermost_is_no_container(ty);
}

/// A type in which an `impl Trait` is written is never recorded.
pub proof fn impl_types_are_skipped<N>(signature: SignatureView<N>)
    ensures
        body_type(signature) is Some ==> !mentions_impl(body_type(signature)->0),
        query_type(signature) is Some ==> !mentions_impl(query_type(signature)->0),
        response_type(signature) is Some ==> !mentions_impl(response_type(signature)->0),
{
}

/// A handler that returns `Result<impl Trait, E>` or `impl Trait` has no
/// response type.
pub proof fn impl_results_have_no_response_type<N>(
    signature: SignatureView<N>,
    returned: TypeView<N>,
)
    requires
        signature.output == Some(returned),
        returned.shape is ImplTrait || (argument_of(returned, "Result"@) matches Some(ok)
            && ok.shape is ImplTrait),
    ensures
        response_type(signature) is None,
{
}

/// A handler that returns `Result<StatusCode, E>` has no response type.
pub proof fn status_results_have_no_response_type<N>(
    signature: SignatureView<N>,
    returned: TypeView<N>,
    ok: TypeView<N>,
)
    requires
        signature.output == Some(returned),
        argument_of(returned, "Result"@) == Some(ok),
        is_called(ok, "StatusCode"@),
    ensures
        response_type(signature) is None,
{
    reveal_strlit("Json");
    reveal_strlit("StatusCode");
    assert("Json"@.len() != "StatusCode"@.len());
}

/// Whether the response is wrapped in a `Result` does not matter to its type.
pub proof fn results_are_transparent<N>(
    plain: SignatureView<N>,
    fallible: SignatureView<N>,
    json: TypeView<N>,
    result: TypeView<N>,
)
    requires
        plain.output == Some(json),
        argument_of(json, "Json"@) is Some,
        fallible.output == Some(result),
        argument_of(result, "Result"@) == Some(json),
    ensures
        response_type(plain) == response_type(fallible),
        response_type(plain) == nameable(argument_of(json, "Json"@)),
{
    reveal_strlit("Json");
    reveal_strlit("Result");
    assert("Json"@.len() != "Result"@.len());
}

/// The type is recorded by the metadata of a handler.
pub open spec fn is_recorded<N>(signature: SignatureView<N>, ty: TypeView<N>) -> bool {
    body_type(signature) == Some(ty) || query_type(signature) == Some(ty) || response_type(
        signature,
    ) == Some(ty)
}

/// Each type that is recorded is collected, and so is what its containers hold.
pub proof fn recorded_types_are_collected<N>(signature: SignatureView<N>, ty: TypeView<N>)
    requires
        is_recorded(signature, ty),
    ensures
        meta_statements(signature).contains(StatementView::Collect(ty.node)),
        meta_statements(signature).contains(StatementView::Collect(innermost(ty).node)),
{
    let body = body_statements(body_type(signature));
    let query = query_statements(query_type(signature));
    let all = meta_statements(signature);
    let at: int = if body_type(signature) == Some(ty) {
        0
    } else if query_type(signature) == Some(ty) {
        body.len() as int
    } else {
        (body.len() + query.len()) as int
    };
    assert(all[at + 1] == StatementView::Collect(ty.node));
    assert(all[at + 2] == StatementView::Collect(innermost(ty).node));
}

/// What is collected is a recorded type, or what the containers of one hold.
pub proof fn collected_types_are_recorded<N>(signature: SignatureView<N>, node: N)
    requires
        meta_statements(signature).contains(StatementView::Collect(node)),
    ensures
        exists|ty: TypeView<N>| #[trigger]
            is_recorded(signature, ty) && (node == ty.node || node == innermost(ty).node),
{
    let body = body_statements(body_type(signature));
    let query = query_statements(query_type(signature));
    let all = meta_statements(signature);
    let at = choose|at: int| 0 <= at < all.len() && all[at] == StatementView::Collect(node);
    let ty = if at < body.len() {
        body_type(signature)->0
    } else if at < body.len() + query.len() {
        query_type(signature)->0
    } else {
        response_type(signature)->0
    };
    assert(is_recorded(signature, ty));
}

/// What is known of a type besides how it is written: its identifier, its full
/// name, and what exports it.
#[verifier::ext_equal]
pub struct TypeFacts<E> {
    pub id: TypeId,
    pub full_name: Seq<char>,
    pub export: Option<E>,
}

/// A route after a statement of its handler's metadata.
pub open spec fn performed<S, E, N>(
    builder: BuilderView<S, E>,
    statement: StatementView<N>,
    facts: spec_fn(N) -> TypeFacts<E>,
) -> BuilderView<S, E> {
    match statement {
        StatementView::SetBody(node) => BuilderView {
            def: RouteView { body_type: Some(stripped(facts(node).full_name)), ..builder.def },
            ..builder
        },
        StatementView::SetQuery(node) => BuilderView {
            def: RouteView { query_type: Some(stripped(facts(node).full_name)), ..builder.def },
            ..builder
        },
        StatementView::SetResponse(node) => BuilderView {
            def: RouteView { response_type: Some(stripped(facts(node).full_name)), ..builder.def },
            ..builder
        },
        StatementView::Collect(node) => builder.collecting(facts(node).id, facts(node).export),
    }
}

/// A route after statements of its handler's metadata, one after another.
pub open spec fn all_performed<S, E, N>(
    builder: BuilderView<S, E>,
    statements: Seq<StatementView<N>>,
    facts: spec_fn(N) -> TypeFacts<E>,
) -> BuilderView<S, E>
    decreases statements.len(),
{
    if statements.len() == 0 {
        builder
    } else {
        performed(
            all_performed(builder, statements.drop_last(), facts),
            statements.last(),
            facts,
        )
    }
}

/// A route whose body type is given by hand, with what its containers hold
/// collected as well.
pub open spec fn with_body_by_hand<S, E, N>(
    builder: BuilderView<S, E>,
    ty: Option<TypeView<N>>,
    facts: spec_fn(N) -> TypeFacts<E>,
) -> BuilderView<S, E> {
    match ty {
        Some(ty) => builder.with_body(
            facts(ty.node).id,
            facts(ty.node).full_name,
            facts(ty.node).export,
        ).collecting(facts(innermost(ty).node).id, facts(innermost(ty).node).export),
        None => builder,
    }
}

/// A route whose query type is given by hand, with what its containers hold
/// collected as well.
pub open spec fn with_query_by_hand<S, E, N>(
    builder: BuilderView<S, E>,
    ty: Option<TypeView<N>>,
    facts: spec_fn(N) -> TypeFacts<E>,
) -> BuilderView<S, E> {
    match ty {
        Some(ty) => builder.with_query(
            facts(ty.node).id,
            facts(ty.node).full_name,
            facts(ty.node).export,
        ).collecting(facts(innermost(ty).node).id, facts(innermost(ty).node).export),
        None => builder,
    }
}

/// A route whose response type is given by hand, with what its containers hold
/// collected as well.
pub open spec fn with_response_by_hand<S, E, N>(
    builder: BuilderView<S, E>,
    ty: Option<TypeView<N>>,
    facts: spec_fn(N) -> TypeFacts<E>,
) -> BuilderView<S, E> {
    match ty {
        Some(ty) => builder.with_response(
            facts(ty.node).id,
            facts(ty.node).full_name,
            facts(ty.node).export,
        ).collecting(facts(innermost(ty).node).id, facts(innermost(ty).node).export),
        None => builder,
    }
}

proof fn lemma_performed_concat<S, E, N>(
    builder: BuilderView<S, E>,
    first: Seq<StatementView<N>>,
    second: Seq<StatementView<N>>,
    facts: spec_fn(N) -> TypeFacts<E>,
)
    ensures
        all_performed(builder, first + second, facts) == all_performed(
            all_performed(builder, first, facts),
            second,
            facts,
        ),
    decreases second.len(),
{
    if second.len() == 0 {
        assert(first + second =~= first);
    } else {
        assert((first + second).drop_last() =~= first + second.drop_last());
        lemma_performed_concat(builder, first, second.drop_last(), facts);
    }
}

proof fn lemma_three_performed<S, E, N>(
    builder: BuilderView<S, E>,
    set: StatementView<N>,
    ty: TypeView<N>,
    facts: spec_fn(N) -> TypeFacts<E>,
)
    ensures
        all_performed(builder, seq![set] + collections(ty), facts) == performed(
            performed(performed(builder, set, facts), StatementView::Collect(ty.node), facts),
            StatementView::Collect(innermost(ty).node),
            facts,
        ),
{
    let whole = seq![set] + collections(ty);
    reveal_with_fuel(all_performed, 4);
    assert(whole.drop_last() =~= seq![set, StatementView::Collect(ty.node)]);
    assert(whole.drop_last().drop_last() =~= seq![set]);
    assert(whole.drop_last().drop_last().drop_last() =~= Seq::<StatementView<N>>::empty());
}

/// A handler's metadata does to a route what giving the types of the signature
/// by hand does, and collects what their containers hold.
pub proof fn inferred_types_are_those_given_by_hand<S, E, N>(
    builder: BuilderView<S, E>,
    signature: SignatureView<N>,
    facts: spec_fn(N) -> TypeFacts<E>,
)
    ensures
        all_performed(builder, meta_statements(signature), facts) == with_response_by_hand(
            with_query_by_hand(
                with_body_by_hand(builder, body_type(signature), facts),
                query_type(signature),
                facts,
            ),
            response_type(signature),
            facts,
        ),
{
    let body = body_statements(body_type(signature));
    let query = query_statements(query_type(signature));
    let response = response_statements(response_type(signature));
    lemma_performed_concat(builder, body + query, response, facts);
    lemma_performed_concat(builder, body, query, facts);
    let with_body = all_performed(builder, body, facts);
    if let Some(ty) = body_type(signature) {
        lemma_three_performed(builder, StatementView::SetBody(ty.node), ty, facts);
    }
    assert(with_body == with_body_by_hand(builder, body_type(signature), facts));
    let with_query = all_performed(with_body, query, facts);
    if let Some(ty) = query_type(signature) {
        lemma_three_performed(with_body, StatementView::SetQuery(ty.node), ty, facts);
    }
    assert(with_query == with_query_by_hand(with_body, query_type(signature), facts));
    if let Some(ty) = response_type(signature) {
        lemma_three_performed(with_query, StatementView::SetResponse(ty.node), ty, facts);
    }
}

/// A registered path leads to the metadata of the handler that the path leads
/// to. The modules on the way, a leading `::` and all generic arguments are the
/// same.
pub proof fn registered_path_leads_to_metadata<N>(path: PathView<N>, signature: SignatureView<N>)
    requires
        path.segments.len() > 0,
        path.last_ident() == signature.ident,
    ensures
        meta_path(path).last_ident() == meta_name(signature.ident),
        meta_path(path).leading_colon == path.leading_colon,
        meta_path(path).segments.len() == path.segments.len(),
        meta_path(path).segments.drop_last() == path.segments.drop_last(),
        meta_path(path).segments.last().arguments == path.segments.last().arguments,
{
    assert(meta_path(path).segments.drop_last() =~= path.segments.drop_last());
}

/// Functions with different names have different metadata, raw identifiers
/// being named like plain ones.
pub proof fn metadata_names_are_distinct(a: Seq<char>, b: Seq<char>)
    requires
        meta_name(a) == meta_name(b),
    ensures
        unraw(a) == unraw(b),
{
    let suffix = "__EndpointMeta"@;
    assert(unraw(a) =~= meta_name(a).take(meta_name(a).len() - suffix.len()));
    assert(unraw(b) =~= meta_name(b).take(meta_name(b).len() - suffix.len()));
}

} // verus!
