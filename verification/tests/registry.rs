use axotyped::collection::RouteCollection;
use axotyped::registry::TypeRegistry;
use std::any::TypeId;

struct User;
struct Project;
struct Wrapper<T>(std::marker::PhantomData<T>);

fn exports(registry: &TypeRegistry<&'static str>) -> Vec<&'static str> {
    registry.slots().iter().map(|slot| slot.1).collect()
}

#[test]
fn new_registry_is_empty() {
    let registry: TypeRegistry<&'static str> = TypeRegistry::new();
    assert!(registry.is_empty());
    assert_eq!(registry.len(), 0);
    assert!(registry.slots().is_empty());
    assert!(!registry.contains_type::<User>());
    let default: TypeRegistry = TypeRegistry::default();
    assert!(default.is_empty());
}

#[test]
fn registered_types_are_found() {
    let mut registry = TypeRegistry::new();
    registry.register::<User>("user");
    assert!(!registry.is_empty());
    assert_eq!(registry.len(), 1);
    assert!(registry.contains_type::<User>());
    assert!(!registry.contains_type::<Project>());
    assert_eq!(registry.slots()[0], (TypeId::of::<User>(), "user"));
}

#[test]
fn registering_twice_keeps_the_first() {
    let mut registry = TypeRegistry::new();
    registry.register::<User>("first");
    registry.register::<Project>("project");
    registry.register::<User>("second");
    assert_eq!(exports(&registry), vec!["first", "project"]);
}

#[test]
fn generic_instances_are_told_apart() {
    let mut registry = TypeRegistry::new();
    registry.register::<Wrapper<User>>("of user");
    registry.register::<Wrapper<Project>>("of project");
    registry.register::<Wrapper<User>>("again");
    assert_eq!(exports(&registry), vec!["of user", "of project"]);
    assert!(!registry.contains_type::<User>());
}

#[test]
fn slots_keep_the_order_of_registration() {
    let mut registry = TypeRegistry::new();
    registry.register::<u64>("u64");
    registry.register::<u8>("u8");
    registry.register::<String>("String");
    registry.register::<bool>("bool");
    assert_eq!(exports(&registry), vec!["u64", "u8", "String", "bool"]);
}

#[test]
fn merging_skips_duplicates() {
    let mut a = TypeRegistry::new();
    a.register::<User>("user of a");
    let mut b = TypeRegistry::new();
    b.register::<Project>("project of b");
    b.register::<User>("user of b");
    b.register::<u8>("u8 of b");
    a.extend(b);
    assert_eq!(exports(&a), vec!["user of a", "project of b", "u8 of b"]);
    assert!(a.contains_type::<Project>());
    a.register::<Project>("project of a");
    assert_eq!(a.len(), 3);
}

#[test]
fn merging_groups_either_way() {
    let make = |users: bool, projects: bool, tag: &'static str| {
        let mut registry = TypeRegistry::new();
        if projects {
            registry.register::<Project>(tag);
        }
        if users {
            registry.register::<User>(tag);
        }
        registry
    };
    let mut left = make(true, false, "a");
    left.extend(make(true, true, "b"));
    left.extend(make(false, true, "c"));
    let mut inner = make(true, true, "b");
    inner.extend(make(false, true, "c"));
    let mut right = make(true, false, "a");
    right.extend(inner);
    assert_eq!(left.slots(), right.slots());
    assert_eq!(exports(&left), vec!["a", "b"]);
}

#[test]
fn merging_with_empty_changes_nothing() {
    let mut registry = TypeRegistry::new();
    registry.register::<User>("user");
    registry.extend(TypeRegistry::new());
    assert_eq!(exports(&registry), vec!["user"]);
    let mut empty = TypeRegistry::new();
    empty.extend(registry.clone());
    assert_eq!(empty.slots(), registry.slots());
}

#[test]
fn copies_are_independent() {
    let mut registry = TypeRegistry::new();
    registry.register::<User>("user");
    let mut copy = registry.clone();
    copy.register::<Project>("project");
    assert_eq!(registry.len(), 1);
    assert_eq!(exports(&copy), vec!["user", "project"]);
}

#[test]
fn collections_merge_their_types() {
    let mut a = RouteCollection::new();
    a.register_type::<User>("user");
    let mut b = RouteCollection::new();
    b.register_type::<Project>("project");
    b.register_type::<User>("other");
    a.extend(b);
    assert_eq!(exports(a.types()), vec!["user", "project"]);
    assert!(a.is_empty());
    assert_eq!(exports(a.clone().types()), vec!["user", "project"]);
}
