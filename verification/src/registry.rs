//! The types met while routes are defined, each kept once.

use std::any::TypeId;
use vstd::prelude::*;

verus! {

// ---------------------------------------------------------------------------
// Type identity
// ---------------------------------------------------------------------------

#[verifier::external_type_specification]
#[verifier::external_body]
pub struct ExTypeId(std::any::TypeId);

/// `TypeId::of` takes no argument but the type. Nothing is claimed of it here:
/// the declaration only lets [`type_id`] speak of what it returns.
pub assume_specification<T: ?Sized + 'static>[ std::any::TypeId::of::<T> ]() -> (id: TypeId);

/// The identifier that `TypeId::of` returns for `T`.
pub open spec fn type_id<T: ?Sized + 'static>() -> TypeId {
    choose|id: TypeId| call_ensures(TypeId::of::<T>, (), id)
}

/// Calls `TypeId::of`. A type has one identifier, so each call for `T` returns
/// the same one.
#[verifier::external_body]
fn type_id_of<T: ?Sized + 'static>() -> (id: TypeId)
    ensures
        id == type_id::<T>(),
{
    TypeId::of::<T>()
}

/// Compares with `TypeId`'s `==`: two identifiers are equal exactly if they
/// are the same.
#[verifier::external_body]
fn same_type_id(a: &TypeId, b: &TypeId) -> (same: bool)
    ensures
        same == (*a == *b),
{
    a == b
}

// ---------------------------------------------------------------------------
// Slots
// ---------------------------------------------------------------------------

/// A slot for the type stands in the list.
pub open spec fn has_type<E>(slots: Seq<(TypeId, E)>, id: TypeId) -> bool {
    exists|i: int| 0 <= i < slots.len() && (#[trigger] slots[i]).0 == id
}

/// No two slots are for the same type.
pub open spec fn distinct_types<E>(slots: Seq<(TypeId, E)>) -> bool {
    forall|i: int, j: int|
        0 <= i < j < slots.len() ==> (#[trigger] slots[i]).0 != (#[trigger] slots[j]).0
}

/// The list with a slot for the type: as it was, if there is one already.
pub open spec fn registered<E>(slots: Seq<(TypeId, E)>, id: TypeId, export: E) -> Seq<(TypeId, E)> {
    if has_type(slots, id) {
        slots
    } else {
        slots.push((id, export))
    }
}

/// The first list, and those slots of the second that are for other types.
pub open spec fn merged<E>(slots: Seq<(TypeId, E)>, more: Seq<(TypeId, E)>) -> Seq<(TypeId, E)>
    decreases more.len(),
{
    if more.len() == 0 {
        slots
    } else {
        registered(merged(slots, more.drop_last()), more.last().0, more.last().1)
    }
}

/// Collects types encountered during route building so their TypeScript
/// declarations can be exported. `E` is what exports one type.
///
/// Types are told apart by `TypeId`, so each instance of a generic type has a
/// slot of its own.
#[derive(Debug)]
pub struct TypeRegistry<E = ()> {
    slots: Vec<(TypeId, E)>,
}

impl<E> View for TypeRegistry<E> {
    type V = Seq<(TypeId, E)>;

    closed spec fn view(&self) -> Seq<(TypeId, E)> {
        self.slots@
    }
}

impl<E> TypeRegistry<E> {
    #[verifier::type_invariant]
    spec fn well_formed(self) -> bool {
        distinct_types(self.slots@)
    }

    pub fn new() -> (registry: Self)
        ensures
            registry@ == Seq::<(TypeId, E)>::empty(),
    {
        TypeRegistry { slots: Vec::new() }
    }

    fn contains_id(&self, id: &TypeId) -> (found: bool)
        ensures
            found == has_type(self@, *id),
    {
        let mut i: usize = 0;
        while i < self.slots.len()
            invariant
                i <= self.slots@.len(),
                forall|j: int| 0 <= j < i ==> (#[trigger] self.slots@[j]).0 != *id,
            decreases self.slots@.len() - i,
        {
            if same_type_id(&self.slots[i].0, id) {
                return true;
            }
            i = i + 1;
        }
        false
    }

    fn insert(&mut self, id: TypeId, export: E)
        ensures
            final(self)@ == registered(old(self)@, id, export),
    {
        proof {
            use_type_invariant(&*self);
        }
        if !self.contains_id(&id) {
            let mut slots: Vec<(TypeId, E)> = Vec::new();
            std::mem::swap(&mut slots, &mut self.slots);
            slots.push((id, export));
            self.slots = slots;
        }
    }

    /// Register what exports a type. Deduplicates by `TypeId`.
    pub fn register<T: 'static>(&mut self, export: E)
        ensures
            final(self)@ == registered(old(self)@, type_id::<T>(), export),
    {
        self.insert(type_id_of::<T>(), export);
    }

    /// Whether a type has already been registered.
    pub fn contains_type<T: 'static>(&self) -> (found: bool)
        ensures
            found == has_type(self@, type_id::<T>()),
    {
        self.contains_id(&type_id_of::<T>())
    }

    /// All registered types with what exports them, in the order in which
    /// they were first registered.
    pub fn slots(&self) -> (slots: &[(TypeId, E)])
        ensures
            slots@ == self@,
            distinct_types(slots@),
    {
        proof {
            use_type_invariant(self);
        }
        self.slots.as_slice()
    }

    pub fn is_empty(&self) -> (empty: bool)
        ensures
            empty == (self@.len() == 0),
    {
        self.slots.is_empty()
    }

    pub fn len(&self) -> (len: usize)
        ensures
            len == self@.len(),
    {
        self.slots.len()
    }

    /// Merge another registry into this one. Duplicates are skipped.
    pub fn extend(&mut self, other: TypeRegistry<E>)
        ensures
            final(self)@ == merged(old(self)@, other@),
    {
        let ghost before = self@;
        let TypeRegistry { slots } = other;
        for slot in it: slots.into_iter()
            invariant
                it.seq() == slots@,
                self@ == merged(before, slots@.take(it.index())),
        {
            let (id, export) = slot;
            proof {
                assert(slots@.take(it.index() + 1).drop_last() =~= slots@.take(it.index()));
            }
            self.insert(id, export);
        }
        assert(slots@.take(slots@.len() as int) =~= slots@);
    }
}

impl<E> Default for TypeRegistry<E> {
    fn default() -> (registry: Self)
        ensures
            registry@ == Seq::<(TypeId, E)>::empty(),
    {
        Self::new()
    }
}

impl<E: Clone> Clone for TypeRegistry<E> {
    fn clone(&self) -> (copy: Self)
        ensures
            copy@.len() == self@.len(),
            forall|i: int|
                0 <= i < self@.len() ==> (#[trigger] copy@[i]).0 == self@[i].0 && cloned(
                    self@[i].1,
                    copy@[i].1,
                ),
    {
        proof {
            use_type_invariant(self);
        }
        let mut slots: Vec<(TypeId, E)> = Vec::new();
        let mut i: usize = 0;
        while i < self.slots.len()
            invariant
                i <= self.slots@.len(),
                slots@.len() == i,
                forall|j: int|
                    0 <= j < i ==> (#[trigger] slots@[j]).0 == self.slots@[j].0 && cloned(
                        self.slots@[j].1,
                        slots@[j].1,
                    ),
            decreases self.slots@.len() - i,
        {
            slots.push((self.slots[i].0, self.slots[i].1.clone()));
            i = i + 1;
        }
        TypeRegistry { slots }
    }
}

// ---------------------------------------------------------------------------
// Laws
// ---------------------------------------------------------------------------

proof fn lemma_push_has_type<E>(slots: Seq<(TypeId, E)>, slot: (TypeId, E), id: TypeId)
    ensures
        has_type(slots.push(slot), id) == (has_type(slots, id) || slot.0 == id),
{
    let grown = slots.push(slot);
    if has_type(slots, id) {
        let i = choose|i: int| 0 <= i < slots.len() && (#[trigger] slots[i]).0 == id;
        assert(grown[i] == slots[i]);
    }
    if slot.0 == id {
        assert(grown[slots.len() as int].0 == id);
    }
    if has_type(grown, id) {
        let i = choose|i: int| 0 <= i < grown.len() && (#[trigger] grown[i]).0 == id;
        if i < slots.len() {
            assert(slots[i] == grown[i]);
        }
    }
}

/// After a type is registered it is found, and each other type is found
/// exactly if it was before.
pub proof fn registered_types<E>(slots: Seq<(TypeId, E)>, id: TypeId, export: E, other: TypeId)
    ensures
        has_type(registered(slots, id, export), other) == (has_type(slots, other) || other == id),
{
    if !has_type(slots, id) {
        lemma_push_has_type(slots, (id, export), other);
    }
}

/// Registering a type a second time changes nothing, whatever is to export it.
pub proof fn registering_is_idempotent<E>(
    slots: Seq<(TypeId, E)>,
    id: TypeId,
    first: E,
    second: E,
)
    ensures
        registered(registered(slots, id, first), id, second) == registered(slots, id, first),
{
    registered_types(slots, id, first, id);
}

/// Registering a type keeps the slots that are there, in their places, and
/// keeps the types distinct.
pub proof fn registering_keeps_slots<E>(slots: Seq<(TypeId, E)>, id: TypeId, export: E)
    ensures
        slots.is_prefix_of(registered(slots, id, export)),
        distinct_types(slots) ==> distinct_types(registered(slots, id, export)),
{
    let after = registered(slots, id, export);
    assert(slots =~= after.take(slots.len() as int));
    if distinct_types(slots) && !has_type(slots, id) {
        assert forall|i: int, j: int| 0 <= i < j < after.len() implies (#[trigger] after[i]).0 != (
        #[trigger] after[j]).0 by {
            assert(after[i] == slots[i]);
            if j < slots.len() {
                assert(after[j] == slots[j]);
            }
        }
    }
}

/// A type for which there is no slot gets one at the end, with what exports it;
/// one for which there is a slot changes nothing.
pub proof fn types_are_registered_once<E>(slots: Seq<(TypeId, E)>, id: TypeId, export: E)
    ensures
        (forall|i: int| 0 <= i < slots.len() ==> (#[trigger] slots[i]).0 != id) ==> registered(
            slots,
            id,
            export,
        ) == slots.push((id, export)),
        forall|i: int|
            0 <= i < slots.len() && (#[trigger] slots[i]).0 == id ==> registered(slots, id, export)
                == slots,
{
}

/// A registry merged into another adds those of its slots, in their order, for
/// whose types the other has none.
pub proof fn merging_adds_the_missing_slots<E>(slots: Seq<(TypeId, E)>, more: Seq<(TypeId, E)>)
    requires
        forall|i: int, j: int|
            0 <= i < j < more.len() ==> (#[trigger] more[i]).0 != (#[trigger] more[j]).0,
    ensures
        merged(slots, more) == slots + more.filter(
            |slot: (TypeId, E)|
                forall|i: int| 0 <= i < slots.len() ==> (#[trigger] slots[i]).0 != slot.0,
        ),
    decreases more.len(),
{
    let missing = |slot: (TypeId, E)|
        forall|i: int| 0 <= i < slots.len() ==> (#[trigger] slots[i]).0 != slot.0;
    reveal(Seq::filter);
    if more.len() == 0 {
        assert(slots + more.filter(missing) =~= slots);
    } else {
        let front = more.drop_last();
        let last = more[more.len() - 1];
        assert forall|i: int, j: int| 0 <= i < j < front.len() implies (#[trigger] front[i]).0 != (
        #[trigger] front[j]).0 by {
            assert(front[i] == more[i] && front[j] == more[j]);
        }
        merging_adds_the_missing_slots(slots, front);
        if has_type(front, last.0) {
            let i = choose|i: int| 0 <= i < front.len() && (#[trigger] front[i]).0 == last.0;
            assert(front[i] == more[i]);
            assert(more[i].0 != last.0);
        }
        merged_types(slots, front, last.0);
        assert(has_type(slots, last.0) == !missing(last));
        if missing(last) {
            assert(slots + front.filter(missing).push(last) =~= (slots + front.filter(
                missing,
            )).push(last));
        }
    }
}

/// A merged registry holds the types of both, and no others.
pub proof fn merged_types<E>(slots: Seq<(TypeId, E)>, more: Seq<(TypeId, E)>, id: TypeId)
    ensures
        has_type(merged(slots, more), id) == (has_type(slots, id) || has_type(more, id)),
    decreases more.len(),
{
    if more.len() > 0 {
        merged_types(slots, more.drop_last(), id);
        registered_types(
            merged(slots, more.drop_last()),
            more.last().0,
            more.last().1,
            id,
        );
        lemma_push_has_type(more.drop_last(), more.last(), id);
        assert(more.drop_last().push(more.last()) =~= more);
    }
}

/// Merging keeps the slots that are there, in their places, and keeps the
/// types distinct.
pub proof fn merging_keeps_slots<E>(slots: Seq<(TypeId, E)>, more: Seq<(TypeId, E)>)
    ensures
        slots.is_prefix_of(merged(slots, more)),
        distinct_types(slots) ==> distinct_types(merged(slots, more)),
    decreases more.len(),
{
    if more.len() > 0 {
        let front = merged(slots, more.drop_last());
        merging_keeps_slots(slots, more.drop_last());
        registering_keeps_slots(front, more.last().0, more.last().1);
        let whole = merged(slots, more);
        assert(slots =~= whole.take(slots.len() as int)) by {
            assert(slots == front.take(slots.len() as int));
            assert(front == whole.take(front.len() as int));
            assert(whole.take(front.len() as int).take(slots.len() as int) =~= whole.take(
                slots.len() as int,
            ));
        }
    } else {
        assert(slots =~= slots.take(slots.len() as int));
    }
}

/// Merging what is there already changes nothing.
pub proof fn merging_known_types<E>(slots: Seq<(TypeId, E)>, more: Seq<(TypeId, E)>)
    requires
        forall|i: int| 0 <= i < more.len() ==> has_type(slots, (#[trigger] more[i]).0),
    ensures
        merged(slots, more) == slots,
    decreases more.len(),
{
    if more.len() > 0 {
        assert forall|i: int| 0 <= i < more.drop_last().len() implies has_type(
            slots,
            (#[trigger] more.drop_last()[i]).0,
        ) by {
            assert(more.drop_last()[i] == more[i]);
        }
        merging_known_types(slots, more.drop_last());
        assert(has_type(slots, more[more.len() - 1].0));
    }
}

/// Merging a registry into an empty one gives the registry.
pub proof fn merging_into_empty<E>(more: Seq<(TypeId, E)>)
    requires
        distinct_types(more),
    ensures
        merged(Seq::empty(), more) == more,
    decreases more.len(),
{
    if more.len() > 0 {
        let front = more.drop_last();
        assert forall|i: int, j: int| 0 <= i < j < front.len() implies (#[trigger] front[i]).0 != (
        #[trigger] front[j]).0 by {
            assert(front[i] == more[i] && front[j] == more[j]);
        }
        merging_into_empty(front);
        let last = more[more.len() - 1];
        if has_type(front, last.0) {
            let i = choose|i: int| 0 <= i < front.len() && (#[trigger] front[i]).0 == last.0;
            assert(front[i] == more[i]);
            assert(more[i].0 != last.0);
        }
        assert(front.push(last) =~= more);
    }
}

proof fn lemma_merged_registered<E>(
    slots: Seq<(TypeId, E)>,
    more: Seq<(TypeId, E)>,
    id: TypeId,
    export: E,
)
    ensures
        merged(slots, registered(more, id, export)) == registered(
            merged(slots, more),
            id,
            export,
        ),
{
    if has_type(more, id) {
        merged_types(slots, more, id);
    } else {
        assert(more.push((id, export)).drop_last() =~= more);
    }
}

/// It does not matter in which grouping registries are merged.
pub proof fn merging_is_associative<E>(
    a: Seq<(TypeId, E)>,
    b: Seq<(TypeId, E)>,
    c: Seq<(TypeId, E)>,
)
    ensures
        merged(merged(a, b), c) == merged(a, merged(b, c)),
    decreases c.len(),
{
    if c.len() > 0 {
        merging_is_associative(a, b, c.drop_last());
        lemma_merged_registered(a, merged(b, c.drop_last()), c.last().0, c.last().1);
    }
}

} // verus!
