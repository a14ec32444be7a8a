use bonaventure::entity::flag_set_component::FlagSetComponent;
use bonaventure::types::Flag;
use bonaventure::types::Flag::Seen;
use std::collections::HashSet;

#[test]
fn flag_set_component_new() {
    let set = FlagSetComponent::new();
    assert_eq!(set.len(), 0);
    assert!(!set.has(Seen(1)));
}

#[test]
fn flag_set_component_set() {
    let mut set = FlagSetComponent::new();

    set.set(Seen(1));
    assert_eq!(set.len(), 1);
    assert!(set.has(Seen(1)));
    assert!(!set.has(Seen(2)));

    set.set(Seen(2));
    assert_eq!(set.len(), 2);
    assert!(set.has(Seen(1)));
    assert!(set.has(Seen(2)));
}

#[test]
fn flag_set_component_unset() {
    let mut set = FlagSetComponent::new();
    set.set(Seen(1));
    set.set(Seen(2));

    set.unset(Seen(1));
    assert_eq!(set.len(), 1);
    assert!(!set.has(Seen(1)));
    assert!(set.has(Seen(2)));
}

#[test]
fn flag_set_component_iter() {
    let mut set = FlagSetComponent::new();
    set.set(Seen(1));
    set.set(Seen(2));

    let copy: HashSet<Flag> = set.iter().iter().cloned().collect();
    assert_eq!(copy.len(), 2);
    assert!(copy.contains(&Seen(1)));
    assert!(copy.contains(&Seen(2)));
}

#[test]
fn flag_set_component_set_twice_keeps_one() {
    let mut set = FlagSetComponent::new();
    set.set(Flag::User("DIRTY"));
    set.set(Flag::User("DIRTY"));
    assert_eq!(set.len(), 1);
    assert!(set.has(Flag::User("DIRTY")));
    assert!(!set.has(Flag::User("CLEAN")));
}

#[test]
fn flag_set_component_unset_missing_is_harmless() {
    let mut set = FlagSetComponent::new();
    set.set(Flag::Dead);
    set.unset(Flag::Scenery);
    assert_eq!(set.len(), 1);
    assert!(set.has(Flag::Dead));
}
