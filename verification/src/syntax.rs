//! Reading signatures from tokens.
//!
//! Tokens are parsed by `syn`. What it parsed is taken apart one level at a
//! time, and put together again as a [`Signature`].

use proc_macro2::TokenStream;
use std::rc::Rc;
use syn::{
    FnArg, GenericArgument, ItemFn, Path, PathArguments, PathSegment, ReturnType, Type,
    TypeParamBound,
};
use vstd::prelude::*;

use crate::endpoint::meta_name;
use crate::signature::{optional_view, type_view, type_views};
use crate::signature::{argument_view, argument_views, bound_views, segment_view, segment_views};
use crate::signature::{Argument, Bound, Segment, SegmentArguments, SigType, Signature, TypeShape};
use crate::signature::{ArgumentView, ArgumentsView, SegmentView, ShapeView};
use crate::signature::{PathView, SignatureView, TypeView};

verus! {

// ---------------------------------------------------------------------------
// Parsing
// ---------------------------------------------------------------------------

#[verifier::external_type_specification]
#[verifier::external_body]
pub struct ExTokenStream(proc_macro2::TokenStream);

#[verifier::external_type_specification]
#[verifier::external_body]
pub struct ExSyntaxError(syn::Error);

#[verifier::external_type_specification]
#[verifier::external_body]
pub struct ExItemFn(syn::ItemFn);

#[verifier::external_type_specification]
#[verifier::external_body]
pub struct ExPath(syn::Path);

#[verifier::external_type_specification]
#[verifier::external_body]
pub struct ExType(syn::Type);

#[verifier::external_type_specification]
#[verifier::external_body]
pub struct ExPathSegment(syn::PathSegment);

#[verifier::external_type_specification]
#[verifier::external_body]
pub struct ExGenericArgument(syn::GenericArgument);

#[verifier::external_type_specification]
#[verifier::external_body]
pub struct ExTypeParamBound(syn::TypeParamBound);

/// The function item that `syn` makes of tokens; `None` where they are none.
pub uninterp spec fn parsed_item(tokens: proc_macro2::TokenStream) -> Option<syn::ItemFn>;

/// The path that `syn` makes of tokens; `None` where they are none.
pub uninterp spec fn parsed_path(tokens: proc_macro2::TokenStream) -> Option<syn::Path>;

/// Calls `syn::parse2` for a function item. Whether there is one, and which,
/// depends on the tokens alone. Of the error nothing is said: it remembers the
/// thread on which it came up.
#[verifier::external_body]
fn parse_item(tokens: TokenStream) -> (item: Result<ItemFn, syn::Error>)
    ensures
        match item {
            Ok(item) => parsed_item(tokens) == Some(item),
            Err(_) => parsed_item(tokens) is None,
        },
{
    syn::parse2(tokens)
}

/// Calls `syn::parse2` for a path. Whether there is one, and which, depends on
/// the tokens alone; a path that was parsed has a segment. Of the error nothing
/// is said: it remembers the thread on which it came up.
#[verifier::external_body]
fn parse_path(tokens: TokenStream) -> (path: Result<Path, syn::Error>)
    ensures
        match path {
            Ok(path) => parsed_path(tokens) == Some(path) && path_tree(path).segments.len() > 0,
            Err(_) => parsed_path(tokens) is None,
        },
{
    syn::parse2(tokens)
}

/// Tokens that are not what a macro expects.
pub struct SyntaxError {
    /// What the parser has to say of it.
    pub error: syn::Error,
}

/// Parse a function item.
pub fn item_of(tokens: TokenStream) -> (item: Result<ItemFn, SyntaxError>)
    ensures
        match item {
            Ok(item) => parsed_item(tokens) == Some(item),
            Err(_) => parsed_item(tokens) is None,
        },
{
    match parse_item(tokens) {
        Ok(item) => Ok(item),
        Err(error) => Err(SyntaxError { error }),
    }
}

/// Parse a path.
pub fn path_of(tokens: TokenStream) -> (path: Result<Path, SyntaxError>)
    ensures
        match path {
            Ok(path) => parsed_path(tokens) == Some(path) && path_tree(path).segments.len() > 0,
            Err(_) => parsed_path(tokens) is None,
        },
{
    match parse_path(tokens) {
        Ok(path) => Ok(path),
        Err(error) => Err(SyntaxError { error }),
    }
}

// ---------------------------------------------------------------------------
// Taking apart
// ---------------------------------------------------------------------------

/// The signature of a function item.
pub uninterp spec fn item_tree(item: syn::ItemFn) -> SignatureView<syn::Type>;

/// A path, down to the types in it.
pub uninterp spec fn path_tree(path: syn::Path) -> PathView<syn::Type>;

/// `syn` takes the text for an identifier.
pub uninterp spec fn is_ident(text: Seq<char>) -> bool;

/// A type, down to the types in it.
pub uninterp spec fn type_tree(ty: syn::Type) -> TypeView<syn::Type>;

/// A path segment, down to the types in it.
pub uninterp spec fn segment_tree(segment: syn::PathSegment) -> SegmentView<syn::Type>;

/// A generic argument, down to the types in it.
pub uninterp spec fn argument_tree(argument: syn::GenericArgument) -> ArgumentView<syn::Type>;

/// The path of a trait bound, down to the types in it; no segments where the
/// bound is no trait.
pub uninterp spec fn bound_tree(bound: syn::TypeParamBound) -> Seq<SegmentView<syn::Type>>;

/// ASCII letters, digits and underscores, of which the first is no digit.
pub open spec fn is_ascii_ident(text: Seq<char>) -> bool {
    &&& text.len() > 0
    &&& !('0' <= text[0] <= '9')
    &&& forall|i: int|
        0 <= i < text.len() ==> 'a' <= #[trigger] text[i] <= 'z' || 'A' <= text[i] <= 'Z' || '0'
            <= text[i] <= '9' || text[i] == '_'
}

/// A type of the given shape, written down as `ty`.
pub open spec fn written(ty: syn::Type, shape: ShapeView<syn::Type>) -> TypeView<syn::Type> {
    TypeView { node: ty, shape }
}

pub open spec fn type_trees(types: Seq<syn::Type>) -> Seq<TypeView<syn::Type>> {
    types.map_values(|ty: syn::Type| type_tree(ty))
}

pub open spec fn segment_trees(segments: Seq<syn::PathSegment>) -> Seq<SegmentView<syn::Type>> {
    segments.map_values(|segment: syn::PathSegment| segment_tree(segment))
}

pub open spec fn argument_trees(
    arguments: Seq<syn::GenericArgument>,
) -> Seq<ArgumentView<syn::Type>> {
    arguments.map_values(|argument: syn::GenericArgument| argument_tree(argument))
}

pub open spec fn bound_trees(
    bounds: Seq<syn::TypeParamBound>,
) -> Seq<Seq<SegmentView<syn::Type>>> {
    bounds.map_values(|bound: syn::TypeParamBound| bound_tree(bound))
}

pub open spec fn optional_tree(ty: Option<syn::Type>) -> Option<TypeView<syn::Type>> {
    match ty {
        Some(ty) => Some(type_tree(ty)),
        None => None,
    }
}

/// What a function item says of its signature.
struct ItemParts {
    ident: String,
    /// The type of each parameter; `None` for `self`.
    inputs: Vec<Option<Type>>,
    output: Option<Type>,
}

/// The types of a function: those of its parameters, and its return type.
struct FunctionTypes {
    inputs: Vec<Type>,
    output: Option<Type>,
}

impl FunctionTypes {
    spec fn trees(self) -> Seq<TypeView<syn::Type>> {
        match self.output {
            Some(output) => type_trees(self.inputs@).push(type_tree(output)),
            None => type_trees(self.inputs@),
        }
    }
}

/// What a type is made of, one level down.
enum TypeParts {
    Path(Vec<PathSegment>),
    ImplTrait,
    TraitObject(Vec<TypeParamBound>),
    Tuple(Vec<Type>),
    /// A function type, or one that is made around at most one other.
    Rest,
}

/// What the arguments of a path segment are made of, one level down.
enum ArgumentsParts {
    Absent,
    AngleBracketed(Vec<GenericArgument>),
    Parenthesized(FunctionTypes),
}

/// What a generic argument is made of, one level down.
enum ArgumentParts {
    Type(Type),
    Constraint(Vec<TypeParamBound>),
    AssocType(Type),
    Plain,
}

/// Copies the fields of a `syn::ItemFn` that make up its signature: the
/// identifier as `Ident` displays it, and the types of the parameters and of
/// the return value.
#[verifier::external_body]
fn item_parts(item: &ItemFn) -> (parts: ItemParts)
    ensures
        item_tree(*item) == (SignatureView {
            ident: parts.ident@,
            inputs: parts.inputs@.map_values(|ty: Option<syn::Type>| optional_tree(ty)),
            output: optional_tree(parts.output),
        }),
{
    let inputs = item.sig.inputs.iter().map(
        |arg| match arg {
            FnArg::Receiver(_) => None,
            FnArg::Typed(it) => Some((*it.ty).clone()),
        },
    );
    let output = match &item.sig.output {
        ReturnType::Default => None,
        ReturnType::Type(_, ty) => Some((**ty).clone()),
    };
    ItemParts { ident: item.sig.ident.to_string(), inputs: inputs.collect(), output }
}

/// Copies what a `syn::Path` is made of: whether it has a leading colon, and its
/// segments.
#[verifier::external_body]
fn path_parts(path: &Path) -> (parts: (bool, Vec<PathSegment>))
    ensures
        path_tree(*path) == (PathView {
            leading_colon: parts.0,
            segments: segment_trees(parts.1@),
        }),
{
    (path.leading_colon.is_some(), path.segments.iter().cloned().collect())
}

/// Parses an identifier with `syn::parse_str` and puts it in the place of the
/// last one of a copy of the path. Whether the text is an identifier depends on
/// the text alone. The name of a handler's metadata is one at least where it is
/// made of ASCII letters, digits and underscores; it holds no space and is no
/// keyword, so it is read as it is written. Of the error nothing is said: it
/// remembers the thread on which it came up.
#[verifier::external_body]
fn replace_last_ident(path: &Path, text: &str) -> (renamed: Result<Path, syn::Error>)
    requires
        path_tree(*path).segments.len() > 0,
        text@ == meta_name(path_tree(*path).last_ident()),
    ensures
        match renamed {
            Ok(renamed) => is_ident(text@) && path_tree(renamed) == path_tree(
                *path,
            ).with_last_ident(text@),
            Err(_) => !is_ident(text@) && !is_ascii_ident(text@),
        },
{
    let mut ident: syn::Ident = syn::parse_str(text)?;
    let mut renamed = path.clone();
    if let Some(last) = renamed.segments.last_mut() {
        ident.set_span(last.ident.span());
        last.ident = ident;
    }
    Ok(renamed)
}

/// Copies what a `syn::Type::BareFn` is made of. Any other type is no function
/// type.
#[verifier::external_body]
fn function_types(ty: &Type) -> (types: Option<FunctionTypes>)
    ensures
        match types {
            Some(types) => type_tree(*ty) == written(*ty, ShapeView::Function(types.trees())),
            None => !(type_tree(*ty).shape is Function),
        },
{
    let Type::BareFn(it) = ty else {
        return None;
    };
    let inputs = it.inputs.iter().map(|arg| arg.ty.clone()).collect();
    let output = match &it.output {
        ReturnType::Default => None,
        ReturnType::Type(_, ty) => Some((**ty).clone()),
    };
    Some(FunctionTypes { inputs, output })
}

/// Copies the type that a `syn::Type` is made around, in those of its variants
/// that have an element: arrays, slices, references and pointers, and types in
/// parentheses or in invisible delimiters.
#[verifier::external_body]
fn element_type(ty: &Type) -> (element: Option<Type>)
    ensures
        match element {
            Some(element) => type_tree(*ty) == written(
                *ty,
                ShapeView::Other(seq![type_tree(element)]),
            ),
            None => type_tree(*ty).shape is Other ==> type_tree(*ty) == written(
                *ty,
                ShapeView::Other(Seq::empty()),
            ),
        },
{
    match ty {
        Type::Array(it) => Some((*it.elem).clone()),
        Type::Group(it) => Some((*it.elem).clone()),
        Type::Paren(it) => Some((*it.elem).clone()),
        Type::Ptr(it) => Some((*it.elem).clone()),
        Type::Reference(it) => Some((*it.elem).clone()),
        Type::Slice(it) => Some((*it.elem).clone()),
        _ => None,
    }
}

/// Copies what a `syn::Type` is made of, in its other variants that hold types.
#[verifier::external_body]
fn type_parts(ty: &Type) -> (parts: TypeParts)
    ensures
        match parts {
            TypeParts::Path(segments) => type_tree(*ty) == written(
                *ty,
                ShapeView::Path(segment_trees(segments@)),
            ),
            TypeParts::ImplTrait => type_tree(*ty) == written(*ty, ShapeView::ImplTrait),
            TypeParts::TraitObject(bounds) => type_tree(*ty) == written(
                *ty,
                ShapeView::TraitObject(bound_trees(bounds@)),
            ),
            TypeParts::Tuple(types) => type_tree(*ty) == written(
                *ty,
                ShapeView::Tuple(type_trees(types@)),
            ),
            TypeParts::Rest => type_tree(*ty).shape is Function || type_tree(*ty).shape is Other,
        },
{
    match ty {
        Type::Path(it) => TypeParts::Path(it.path.segments.iter().cloned().collect()),
        Type::ImplTrait(_) => TypeParts::ImplTrait,
        Type::TraitObject(it) => TypeParts::TraitObject(it.bounds.iter().cloned().collect()),
        Type::Tuple(it) => TypeParts::Tuple(it.elems.iter().cloned().collect()),
        _ => TypeParts::Rest,
    }
}

/// Copies what a `syn::PathSegment` is made of: its identifier, as `Ident`
/// displays it, and its arguments.
#[verifier::external_body]
fn segment_parts(segment: &PathSegment) -> (parts: (String, ArgumentsParts))
    ensures
        segment_tree(*segment).ident == parts.0@,
        segment_tree(*segment).arguments == match parts.1 {
            ArgumentsParts::Absent => ArgumentsView::Absent,
            ArgumentsParts::AngleBracketed(args) => ArgumentsView::AngleBracketed(
                argument_trees(args@),
            ),
            ArgumentsParts::Parenthesized(types) => ArgumentsView::Parenthesized(types.trees()),
        },
{
    let arguments = match &segment.arguments {
        PathArguments::None => ArgumentsParts::Absent,
        PathArguments::AngleBracketed(it) => ArgumentsParts::AngleBracketed(
            it.args.iter().cloned().collect(),
        ),
        PathArguments::Parenthesized(it) => ArgumentsParts::Parenthesized(FunctionTypes {
            inputs: it.inputs.iter().cloned().collect(),
            output: match &it.output {
                ReturnType::Default => None,
                ReturnType::Type(_, ty) => Some((**ty).clone()),
            },
        }),
    };
    (segment.ident.to_string(), arguments)
}

/// Copies what a `syn::GenericArgument` is made of: a type, the bounds of an
/// associated type, or the type that an associated type is to be. Other
/// arguments are taken to hold no types.
#[verifier::external_body]
fn argument_parts(argument: &GenericArgument) -> (parts: ArgumentParts)
    ensures
        argument_tree(*argument) == match parts {
            ArgumentParts::Type(ty) => ArgumentView::Type(type_tree(ty)),
            ArgumentParts::Constraint(bounds) => ArgumentView::Constraint(bound_trees(bounds@)),
            ArgumentParts::AssocType(ty) => ArgumentView::Other(seq![type_tree(ty)]),
            ArgumentParts::Plain => ArgumentView::Other(Seq::<TypeView<syn::Type>>::empty()),
        },
{
    match argument {
        GenericArgument::Type(ty) => ArgumentParts::Type(ty.clone()),
        GenericArgument::Constraint(it) => ArgumentParts::Constraint(
            it.bounds.iter().cloned().collect(),
        ),
        GenericArgument::AssocType(it) => ArgumentParts::AssocType(it.ty.clone()),
        _ => ArgumentParts::Plain,
    }
}

/// Copies the segments of the path of a `syn::TypeParamBound::Trait`. Any other
/// bound has none.
#[verifier::external_body]
fn bound_parts(bound: &TypeParamBound) -> (segments: Vec<PathSegment>)
    ensures
        segment_trees(segments@) == bound_tree(*bound),
{
    match bound {
        TypeParamBound::Trait(it) => it.path.segments.iter().cloned().collect(),
        _ => Vec::new(),
    }
}

// ---------------------------------------------------------------------------
// Reading
// ---------------------------------------------------------------------------

/// Read a type, down to the types in it.
pub fn read_type(ty: Type) -> (tree: SigType<Type>)
    ensures
        tree@ == type_tree(ty),
    decreases type_tree(ty),
{
    let ghost whole = type_tree(ty);
    assert(decreases_to!(whole => whole.shape));
    let shape = match function_types(&ty) {
        Some(types) => {
            assert(decreases_to!(whole.shape => whole.shape->Function_0));
            TypeShape::Function(read_function_types(types))
        },
        None => match type_parts(&ty) {
            TypeParts::Path(segments) => {
                assert(decreases_to!(whole.shape => whole.shape->Path_0));
                TypeShape::Path(read_segments(segments))
            },
            TypeParts::ImplTrait => TypeShape::ImplTrait,
            TypeParts::TraitObject(bounds) => {
                assert(decreases_to!(whole.shape => whole.shape->TraitObject_0));
                TypeShape::TraitObject(read_bounds(bounds))
            },
            TypeParts::Tuple(types) => {
                assert(decreases_to!(whole.shape => whole.shape->Tuple_0));
                TypeShape::Tuple(read_types(types))
            },
            TypeParts::Rest => {
                let mut types: Vec<SigType<Type>> = Vec::new();
                if let Some(element) = element_type(&ty) {
                    assert(decreases_to!(whole.shape => whole.shape->Other_0));
                    assert(decreases_to!(whole.shape->Other_0 => whole.shape->Other_0[0]));
                    types.push(read_type(element));
                }
                assert(type_views(types) =~= whole.shape->Other_0);
                TypeShape::Other(types)
            },
        },
    };
    SigType { node: Rc::new(ty), shape }
}

fn read_types(types: Vec<Type>) -> (trees: Vec<SigType<Type>>)
    ensures
        type_views(trees) == type_trees(types@),
    decreases type_trees(types@),
{
    let mut trees: Vec<SigType<Type>> = Vec::new();
    for ty in it: types.into_iter()
        invariant
            it.seq() == types@,
            trees@.len() == it.index(),
            forall|i: int|
                0 <= i < trees@.len() ==> type_view(#[trigger] trees@[i]) == type_tree(types@[i]),
    {
        proof {
            assert(decreases_to!(type_trees(types@) => type_trees(types@)[it.index()]));
        }
        trees.push(read_type(ty));
    }
    assert(type_views(trees) =~= type_trees(types@));
    trees
}

fn read_function_types(types: FunctionTypes) -> (trees: Vec<SigType<Type>>)
    ensures
        type_views(trees) == types.trees(),
    decreases types.trees(),
{
    let FunctionTypes { inputs, output } = types;
    let mut trees: Vec<SigType<Type>> = Vec::new();
    for ty in it: inputs.into_iter()
        invariant
            it.seq() == inputs@,
            trees@.len() == it.index(),
            forall|i: int|
                0 <= i < trees@.len() ==> type_view(#[trigger] trees@[i]) == type_tree(inputs@[i]),
            inputs@.len() <= types.trees().len(),
            forall|i: int|
                0 <= i < inputs@.len() ==> type_tree(#[trigger] inputs@[i]) == types.trees()[i],
    {
        proof {
            assert(decreases_to!(types.trees() => types.trees()[it.index()]));
        }
        trees.push(read_type(ty));
    }
    if let Some(ty) = output {
        proof {
            assert(decreases_to!(types.trees() => types.trees()[inputs@.len() as int]));
        }
        trees.push(read_type(ty));
    }
    assert(type_views(trees) =~= types.trees());
    trees
}

fn read_segment(segment: PathSegment) -> (tree: Segment<Type>)
    ensures
        tree@ == segment_tree(segment),
    decreases segment_tree(segment),
{
    let (ident, parts) = segment_parts(&segment);
    let ghost whole = segment_tree(segment);
    assert(decreases_to!(whole => whole.arguments));
    let arguments = match parts {
        ArgumentsParts::Absent => SegmentArguments::Absent,
        ArgumentsParts::AngleBracketed(args) => {
            assert(decreases_to!(whole.arguments => whole.arguments->AngleBracketed_0));
            SegmentArguments::AngleBracketed(read_arguments(args))
        },
        ArgumentsParts::Parenthesized(types) => {
            assert(decreases_to!(whole.arguments => whole.arguments->Parenthesized_0));
            SegmentArguments::Parenthesized(read_function_types(types))
        },
    };
    Segment { ident, arguments }
}

fn read_segments(segments: Vec<PathSegment>) -> (trees: Vec<Segment<Type>>)
    ensures
        segment_views(trees) == segment_trees(segments@),
    decreases segment_trees(segments@),
{
    let mut trees: Vec<Segment<Type>> = Vec::new();
    for segment in it: segments.into_iter()
        invariant
            it.seq() == segments@,
            trees@.len() == it.index(),
            forall|i: int|
                0 <= i < trees@.len() ==> segment_view(#[trigger] trees@[i]) == segment_tree(
                    segments@[i],
                ),
    {
        proof {
            assert(decreases_to!(segment_trees(segments@) => segment_trees(segments@)[it.index()]));
        }
        trees.push(read_segment(segment));
    }
    assert(segment_views(trees) =~= segment_trees(segments@));
    trees
}

fn read_argument(argument: GenericArgument) -> (tree: Argument<Type>)
    ensures
        tree@ == argument_tree(argument),
    decreases argument_tree(argument),
{
    let ghost whole = argument_tree(argument);
    match argument_parts(&argument) {
        ArgumentParts::Type(ty) => {
            assert(decreases_to!(whole => whole->Type_0));
            Argument::Type(read_type(ty))
        },
        ArgumentParts::Constraint(bounds) => {
            assert(decreases_to!(whole => whole->Constraint_0));
            Argument::Constraint(read_bounds(bounds))
        },
        ArgumentParts::AssocType(ty) => {
            assert(decreases_to!(whole => whole->Other_0));
            assert(decreases_to!(whole->Other_0 => whole->Other_0[0]));
            let mut types: Vec<SigType<Type>> = Vec::new();
            types.push(read_type(ty));
            assert(type_views(types) =~= whole->Other_0);
            Argument::Other(types)
        },
        ArgumentParts::Plain => {
            let types: Vec<SigType<Type>> = Vec::new();
            assert(type_views(types) =~= whole->Other_0);
            Argument::Other(types)
        },
    }
}

fn read_arguments(arguments: Vec<GenericArgument>) -> (trees: Vec<Argument<Type>>)
    ensures
        argument_views(trees) == argument_trees(arguments@),
    decreases argument_trees(arguments@),
{
    let mut trees: Vec<Argument<Type>> = Vec::new();
    for argument in it: arguments.into_iter()
        invariant
            it.seq() == arguments@,
            trees@.len() == it.index(),
            forall|i: int|
                0 <= i < trees@.len() ==> argument_view(#[trigger] trees@[i]) == argument_tree(
                    arguments@[i],
                ),
    {
        proof {
            assert(decreases_to!(
                argument_trees(arguments@) => argument_trees(arguments@)[it.index()]
            ));
        }
        trees.push(read_argument(argument));
    }
    assert(argument_views(trees) =~= argument_trees(arguments@));
    trees
}

fn read_bounds(bounds: Vec<TypeParamBound>) -> (trees: Vec<Bound<Type>>)
    ensures
        bound_views(trees) == bound_trees(bounds@),
    decreases bound_trees(bounds@),
{
    let mut trees: Vec<Bound<Type>> = Vec::new();
    for bound in it: bounds.into_iter()
        invariant
            it.seq() == bounds@,
            trees@.len() == it.index(),
            forall|i: int|
                0 <= i < trees@.len() ==> segment_views((#[trigger] trees@[i]).segments)
                    == bound_tree(bounds@[i]),
    {
        proof {
            assert(decreases_to!(bound_trees(bounds@) => bound_trees(bounds@)[it.index()]));
        }
        trees.push(Bound { segments: read_segments(bound_parts(&bound)) });
    }
    assert(bound_views(trees) =~= bound_trees(bounds@));
    trees
}

fn read_optional(ty: Option<Type>) -> (tree: Option<SigType<Type>>)
    ensures
        optional_view(tree) == optional_tree(ty),
{
    match ty {
        Some(ty) => Some(read_type(ty)),
        None => None,
    }
}

/// Read the signature of a function item.
pub fn read_item(item: &ItemFn) -> (signature: Signature<Type>)
    ensures
        signature@ == item_tree(*item),
{
    let ItemParts { ident, inputs: types, output } = item_parts(item);
    let mut inputs: Vec<Option<SigType<Type>>> = Vec::new();
    for ty in it: types.into_iter()
        invariant
            it.seq() == types@,
            inputs@.len() == it.index(),
            forall|i: int|
                0 <= i < inputs@.len() ==> optional_view(#[trigger] inputs@[i]) == optional_tree(
                    types@[i],
                ),
    {
        inputs.push(read_optional(ty));
    }
    let signature = Signature { ident, inputs, output: read_optional(output) };
    assert(signature@.inputs =~= item_tree(*item).inputs);
    signature
}

/// The identifier that a path ends in.
pub(crate) fn last_ident(path: &Path) -> (ident: String)
    requires
        path_tree(*path).segments.len() > 0,
    ensures
        ident@ == path_tree(*path).last_ident(),
{
    let (_, segments) = path_parts(path);
    let (ident, _) = segment_parts(&segments[segments.len() - 1]);
    ident
}

/// The path with the name of a handler's metadata in the place of the handler's.
pub(crate) fn rename_last(path: &Path, name: &str) -> (renamed: Result<Path, SyntaxError>)
    requires
        path_tree(*path).segments.len() > 0,
        name@ == meta_name(path_tree(*path).last_ident()),
    ensures
        match renamed {
            Ok(renamed) => is_ident(name@) && path_tree(renamed) == path_tree(
                *path,
            ).with_last_ident(name@),
            Err(_) => !is_ident(name@) && !is_ascii_ident(name@),
        },
{
    match replace_last_ident(path, name) {
        Ok(renamed) => Ok(renamed),
        Err(error) => Err(SyntaxError { error }),
    }
}

} // verus!
