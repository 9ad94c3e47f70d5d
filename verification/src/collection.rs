//! The routes of an API, with the types that they use.

use std::any::TypeId;
use vstd::prelude::*;
use vstd::std_specs::iter::IteratorSpec;

use crate::registry::TypeRegistry;
use crate::registry::{distinct_types, merged, registered, type_id};
use crate::registry::{merging_into_empty, merging_is_associative, merging_keeps_slots};
use crate::types::{RouteDefinition, RouteView};

verus! {

/// A route collection as plain values: the routes in the order in which they
/// were added, and the slots of the type registry.
#[verifier::ext_equal]
pub struct CollectionView<E> {
    pub routes: Seq<RouteView>,
    pub types: Seq<(TypeId, E)>,
}

impl<E> CollectionView<E> {
    /// No routes and no types.
    pub open spec fn empty() -> Self {
        CollectionView { routes: Seq::empty(), types: Seq::empty() }
    }

    /// One more route at the end.
    pub open spec fn with_route(self, route: RouteView) -> Self {
        CollectionView { routes: self.routes.push(route), ..self }
    }

    /// A type registered.
    pub open spec fn with_type(self, id: TypeId, export: E) -> Self {
        CollectionView { types: registered(self.types, id, export), ..self }
    }

    /// A type registered, if there is something to export it with.
    pub open spec fn collecting(self, id: TypeId, export: Option<E>) -> Self {
        match export {
            Some(export) => self.with_type(id, export),
            None => self,
        }
    }

    /// The routes of another collection behind these, its types merged in.
    pub open spec fn extended(self, other: Self) -> Self {
        CollectionView {
            routes: self.routes + other.routes,
            types: merged(self.types, other.types),
        }
    }
}

/// A collection of route definitions and their associated TypeScript types.
#[derive(Debug)]
pub struct RouteCollection<E = ()> {
    routes: Vec<RouteDefinition>,
    types: TypeRegistry<E>,
}

/// What a list of route definitions says.
pub open spec fn route_views(routes: Seq<RouteDefinition>) -> Seq<RouteView> {
    routes.map_values(|route: RouteDefinition| route@)
}

/// A list of route definitions says what each of them says, in order.
pub proof fn routes_are_read_in_order(routes: Seq<RouteDefinition>)
    ensures
        route_views(routes).len() == routes.len(),
        forall|i: int| 0 <= i < routes.len() ==> #[trigger] route_views(routes)[i] == routes[i]@,
{
}

impl<E> View for RouteCollection<E> {
    type V = CollectionView<E>;

    open spec fn view(&self) -> CollectionView<E> {
        CollectionView { routes: route_views(self.definitions()), types: self.registry()@ }
    }
}

impl<E> RouteCollection<E> {
    /// The route definitions.
    pub closed spec fn definitions(&self) -> Seq<RouteDefinition> {
        self.routes@
    }

    /// The type registry.
    pub closed spec fn registry(&self) -> TypeRegistry<E> {
        self.types
    }

    pub fn new() -> (collection: Self)
        ensures
            collection@ == CollectionView::<E>::empty(),
    {
        let collection = RouteCollection { routes: Vec::new(), types: TypeRegistry::new() };
        assert(collection@ =~= CollectionView::<E>::empty());
        collection
    }

    pub fn push(&mut self, route: RouteDefinition)
        ensures
            final(self)@ == old(self)@.with_route(route@),
            final(self).definitions() == old(self).definitions().push(route),
    {
        self.routes.push(route);
        assert(self@ =~= old(self)@.with_route(route@));
    }

    pub fn extend(&mut self, other: RouteCollection<E>)
        ensures
            final(self)@ == old(self)@.extended(other@),
            final(self).definitions() == old(self).definitions() + other.definitions(),
    {
        let RouteCollection { routes, types } = other;
        let mut routes = routes;
        self.routes.append(&mut routes);
        self.types.extend(types);
        assert(self@ =~= old(self)@.extended(other@));
    }

    pub fn routes(&self) -> (routes: &[RouteDefinition])
        ensures
            routes@ == self.definitions(),
    {
        self.routes.as_slice()
    }

    pub fn types(&self) -> (types: &TypeRegistry<E>)
        ensures
            *types == self.registry(),
    {
        &self.types
    }

    /// Register a type for TypeScript export. Deduplicates by `TypeId`.
    pub fn register_type<T: 'static>(&mut self, export: E)
        ensures
            final(self)@ == old(self)@.with_type(type_id::<T>(), export),
            final(self).definitions() == old(self).definitions(),
    {
        self.types.register::<T>(export);
        assert(self@ =~= old(self)@.with_type(type_id::<T>(), export));
    }

    pub fn len(&self) -> (len: usize)
        ensures
            len == self@.routes.len(),
    {
        self.routes.len()
    }

    pub fn is_empty(&self) -> (empty: bool)
        ensures
            empty == (self@.routes.len() == 0),
    {
        self.routes.is_empty()
    }

    pub fn iter(&self) -> (iter: std::slice::Iter<'_, RouteDefinition>)
        ensures
            IteratorSpec::remaining(&iter) == self.definitions().as_ref(),
    {
        self.routes.as_slice().iter()
    }
}

impl<E> Default for RouteCollection<E> {
    fn default() -> (collection: Self)
        ensures
            collection@ == CollectionView::<E>::empty(),
    {
        Self::new()
    }
}

impl<E: Clone> Clone for RouteCollection<E> {
    fn clone(&self) -> (copy: Self)
        ensures
            copy@.routes == self@.routes,
            copy@.types.len() == self@.types.len(),
            forall|i: int|
                0 <= i < self@.types.len() ==> (#[trigger] copy@.types[i]).0 == self@.types[i].0
                    && cloned(self@.types[i].1, copy@.types[i].1),
    {
        let mut routes: Vec<RouteDefinition> = Vec::new();
        let mut i: usize = 0;
        while i < self.routes.len()
            invariant
                i <= self.routes.len(),
                routes.len() == i,
                forall|j: int| 0 <= j < i ==> (#[trigger] routes[j])@ == self.routes[j]@,
            decreases self.routes.len() - i,
        {
            routes.push(self.routes[i].clone());
            i = i + 1;
        }
        assert(route_views(routes@) =~= route_views(self.routes@));
        RouteCollection { routes, types: self.types.clone() }
    }
}

impl<E> IntoIterator for RouteCollection<E> {
    type Item = RouteDefinition;
    type IntoIter = std::vec::IntoIter<RouteDefinition>;

    fn into_iter(self) -> (iter: std::vec::IntoIter<RouteDefinition>)
        ensures
            IteratorSpec::remaining(&iter) == self.definitions(),
    {
        self.routes.into_iter()
    }
}

impl<'a, E> IntoIterator for &'a RouteCollection<E> {
    type Item = &'a RouteDefinition;
    type IntoIter = std::slice::Iter<'a, RouteDefinition>;

    fn into_iter(self) -> (iter: std::slice::Iter<'a, RouteDefinition>)
        ensures
            IteratorSpec::remaining(&iter) == self.definitions().as_ref(),
    {
        self.iter()
    }
}

// ---------------------------------------------------------------------------
// Laws
// ---------------------------------------------------------------------------

/// It does not matter in which grouping collections are put together.
pub proof fn extending_is_associative<E>(
    a: CollectionView<E>,
    b: CollectionView<E>,
    c: CollectionView<E>,
)
    ensures
        a.extended(b).extended(c) == a.extended(b.extended(c)),
{
    merging_is_associative(a.types, b.types, c.types);
    assert(a.extended(b).extended(c) =~= a.extended(b.extended(c)));
}

/// An empty collection adds nothing, and takes over what it is extended by.
pub proof fn extending_by_empty<E>(a: CollectionView<E>)
    requires
        distinct_types(a.types),
    ensures
        a.extended(CollectionView::empty()) == a,
        CollectionView::empty().extended(a) == a,
{
    merging_into_empty(a.types);
    assert(a.extended(CollectionView::empty()) =~= a);
    assert(CollectionView::empty().extended(a) =~= a);
}

/// Extending keeps the routes and types that are there, in their places; the
/// routes of the other collection follow in their order.
pub proof fn extending_keeps_routes<E>(a: CollectionView<E>, b: CollectionView<E>)
    ensures
        a.extended(b).routes.len() == a.routes.len() + b.routes.len(),
        forall|i: int|
            0 <= i < a.routes.len() ==> #[trigger] a.extended(b).routes[i] == a.routes[i],
        forall|i: int|
            0 <= i < b.routes.len() ==> #[trigger] b.routes[i] == a.extended(b).routes[a.routes.len()
                + i],
        a.types.is_prefix_of(a.extended(b).types),
{
    merging_keeps_slots(a.types, b.types);
}

} // verus!
