//! The signature of a handler, as far as its metadata depends on it.
//!
//! `N` is what a type is written down as, kept for where it is needed again.

use std::rc::Rc;
use vstd::prelude::*;

verus! {

// ---------------------------------------------------------------------------
// Signatures
// ---------------------------------------------------------------------------

/// A function's name, the types of its parameters and its return type.
pub struct Signature<N> {
    pub ident: String,
    /// The type of each parameter; `None` for `self`.
    pub inputs: Vec<Option<SigType<N>>>,
    /// The return type, if one is written.
    pub output: Option<SigType<N>>,
}

/// A type in a signature.
pub struct SigType<N> {
    /// What the type is written down as.
    pub node: Rc<N>,
    pub shape: TypeShape<N>,
}

/// How a type is made up.
pub enum TypeShape<N> {
    /// A path like `core::slice::Iter<u8>`, without the self type of a qualified
    /// one.
    Path(Vec<Segment<N>>),
    /// An `impl Trait` type.
    ImplTrait,
    /// A `dyn Trait` type, with its bounds.
    TraitObject(Vec<Bound<N>>),
    /// A tuple type, with its elements.
    Tuple(Vec<SigType<N>>),
    /// A type like `fn(A, B) -> C`, with the types in it.
    Function(Vec<SigType<N>>),
    /// Any other type, with the types written directly inside it.
    Other(Vec<SigType<N>>),
}

/// A segment of a path, with its arguments.
pub struct Segment<N> {
    pub ident: String,
    pub arguments: SegmentArguments<N>,
}

/// The arguments of a path segment.
pub enum SegmentArguments<N> {
    /// None are written.
    Absent,
    /// The `<K, V>` in `HashMap<K, V>`.
    AngleBracketed(Vec<Argument<N>>),
    /// The types in `Fn(A, B) -> C`.
    Parenthesized(Vec<SigType<N>>),
}

/// A generic argument.
pub enum Argument<N> {
    Type(SigType<N>),
    /// The bounds in `Iterator<Item: Display>`.
    Constraint(Vec<Bound<N>>),
    /// Any other argument, with the types written directly inside it.
    Other(Vec<SigType<N>>),
}

/// A bound: the path of a trait, or no path where the bound is a lifetime.
pub struct Bound<N> {
    pub segments: Vec<Segment<N>>,
}

// ---------------------------------------------------------------------------
// Signatures as plain values
// ---------------------------------------------------------------------------

/// A [`Signature`] as plain values.
pub struct SignatureView<N> {
    pub ident: Seq<char>,
    pub inputs: Seq<Option<TypeView<N>>>,
    pub output: Option<TypeView<N>>,
}

/// A [`SigType`] as plain values.
pub struct TypeView<N> {
    pub node: N,
    pub shape: ShapeView<N>,
}

/// A [`TypeShape`] as plain values.
pub enum ShapeView<N> {
    Path(Seq<SegmentView<N>>),
    ImplTrait,
    TraitObject(Seq<Seq<SegmentView<N>>>),
    Tuple(Seq<TypeView<N>>),
    Function(Seq<TypeView<N>>),
    Other(Seq<TypeView<N>>),
}

/// A [`Segment`] as plain values.
pub struct SegmentView<N> {
    pub ident: Seq<char>,
    pub arguments: ArgumentsView<N>,
}

/// [`SegmentArguments`] as plain values.
pub enum ArgumentsView<N> {
    Absent,
    AngleBracketed(Seq<ArgumentView<N>>),
    Parenthesized(Seq<TypeView<N>>),
}

/// An [`Argument`] as plain values.
pub enum ArgumentView<N> {
    Type(TypeView<N>),
    Constraint(Seq<Seq<SegmentView<N>>>),
    Other(Seq<TypeView<N>>),
}

/// A path as plain values: whether it starts with `::`, and its segments.
pub struct PathView<N> {
    pub leading_colon: bool,
    pub segments: Seq<SegmentView<N>>,
}

impl<N> PathView<N> {
    /// The identifier that the path ends in.
    pub open spec fn last_ident(self) -> Seq<char> {
        self.segments.last().ident
    }

    /// The path with another identifier at its end, and nothing else changed.
    pub open spec fn with_last_ident(self, ident: Seq<char>) -> Self {
        PathView {
            segments: self.segments.update(
                self.segments.len() - 1,
                SegmentView { ident, ..self.segments.last() },
            ),
            ..self
        }
    }
}

pub open spec fn type_view<N>(ty: SigType<N>) -> TypeView<N>
    decreases ty,
{
    TypeView {
        node: *ty.node,
        shape: match ty.shape {
            TypeShape::Path(segments) => ShapeView::Path(segment_views(segments)),
            TypeShape::ImplTrait => ShapeView::ImplTrait,
            TypeShape::TraitObject(bounds) => ShapeView::TraitObject(bound_views(bounds)),
            TypeShape::Tuple(types) => ShapeView::Tuple(type_views(types)),
            TypeShape::Function(types) => ShapeView::Function(type_views(types)),
            TypeShape::Other(types) => ShapeView::Other(type_views(types)),
        },
    }
}

pub open spec fn type_views<N>(types: Vec<SigType<N>>) -> Seq<TypeView<N>>
    decreases types,
{
    Seq::new(
        types@.len(),
        |i: int|
            if 0 <= i < types@.len() {
                type_view(types@[i])
            } else {
                arbitrary()
            },
    )
}

pub open spec fn segment_view<N>(segment: Segment<N>) -> SegmentView<N>
    decreases segment,
{
    SegmentView {
        ident: segment.ident@,
        arguments: match segment.arguments {
            SegmentArguments::Absent => ArgumentsView::Absent,
            SegmentArguments::AngleBracketed(args) => ArgumentsView::AngleBracketed(
                argument_views(args),
            ),
            SegmentArguments::Parenthesized(types) => ArgumentsView::Parenthesized(
                type_views(types),
            ),
        },
    }
}

pub open spec fn segment_views<N>(segments: Vec<Segment<N>>) -> Seq<SegmentView<N>>
    decreases segments,
{
    Seq::new(
        segments@.len(),
        |i: int|
            if 0 <= i < segments@.len() {
                segment_view(segments@[i])
            } else {
                arbitrary()
            },
    )
}

pub open spec fn argument_view<N>(argument: Argument<N>) -> ArgumentView<N>
    decreases argument,
{
    match argument {
        Argument::Type(ty) => ArgumentView::Type(type_view(ty)),
        Argument::Constraint(bounds) => ArgumentView::Constraint(bound_views(bounds)),
        Argument::Other(types) => ArgumentView::Other(type_views(types)),
    }
}

pub open spec fn argument_views<N>(arguments: Vec<Argument<N>>) -> Seq<ArgumentView<N>>
    decreases arguments,
{
    Seq::new(
        arguments@.len(),
        |i: int|
            if 0 <= i < arguments@.len() {
                argument_view(arguments@[i])
            } else {
                arbitrary()
            },
    )
}

pub open spec fn bound_views<N>(bounds: Vec<Bound<N>>) -> Seq<Seq<SegmentView<N>>>
    decreases bounds,
{
    Seq::new(
        bounds@.len(),
        |i: int|
            if 0 <= i < bounds@.len() {
                segment_views(bounds@[i].segments)
            } else {
                arbitrary()
            },
    )
}

/// An optional type as plain values.
pub open spec fn optional_view<N>(ty: Option<SigType<N>>) -> Option<TypeView<N>> {
    match ty {
        Some(ty) => Some(ty@),
        None => None,
    }
}

impl<N> View for SigType<N> {
    type V = TypeView<N>;

    open spec fn view(&self) -> TypeView<N> {
        type_view(*self)
    }
}

impl<N> View for Segment<N> {
    type V = SegmentView<N>;

    open spec fn view(&self) -> SegmentView<N> {
        segment_view(*self)
    }
}

impl<N> View for Argument<N> {
    type V = ArgumentView<N>;

    open spec fn view(&self) -> ArgumentView<N> {
        argument_view(*self)
    }
}

impl<N> View for Signature<N> {
    type V = SignatureView<N>;

    open spec fn view(&self) -> SignatureView<N> {
        SignatureView {
            ident: self.ident@,
            inputs: self.inputs@.map_values(|ty: Option<SigType<N>>| optional_view(ty)),
            output: optional_view(self.output),
        }
    }
}

} // verus!
