use bonaventure::types::flags::Flag;
use bonaventure::types::flags::Flag::Seen;
use bonaventure::types::flags::FlagSet;
use std::collections::HashSet;

#[test]
fn flags_new() {
    let set = FlagSet::new();
    assert_eq!(set.len(), 0);
    assert!(!set.has(Seen(1)));
}

#[test]
fn flags_set() {
    let mut set = FlagSet::new();

    set.set(Seen(1));
    assert_eq!(set.len(), 1);
    assert!(set.has(Seen(1)));
    assert!(!set.has(Seen(2)));

    set.set(Seen(2));
    assert_eq!(set.len(), 2);
    assert!(set.has(Seen(1)));
    assert!(set.has(Seen(2)));
}

#[test]
fn flags_unset() {
    let mut set = FlagSet::new();
    set.set(Seen(1));
    set.set(Seen(2));

    set.unset(Seen(1));
    assert_eq!(set.len(), 1);
    assert!(!set.has(Seen(1)));
    assert!(set.has(Seen(2)));
}

#[test]
fn replace() {
    let mut set = FlagSet::new();
    set.set(Seen(1));
    set.set(Seen(2));

    set.replace(Seen(3));

    assert_eq!(set.len(), 1);
    assert!(!set.has(Seen(1)));
    assert!(!set.has(Seen(2)));
    assert!(set.has(Seen(3)));
}

#[test]
fn flags_iter() {
    let mut set = FlagSet::new();
    set.set(Seen(1));
    set.set(Seen(2));

    let copy: HashSet<Flag> = set.iter().iter().cloned().collect();
    assert_eq!(copy.len(), 2);
    assert!(copy.contains(&Seen(1)));
    assert!(copy.contains(&Seen(2)));
}

#[test]
fn flags_replace_keeps_other_variants() {
    let mut set = FlagSet::new();
    set.set(Seen(1));
    set.set(Flag::Dirty);
    set.replace(Seen(4));
    assert_eq!(set.len(), 2);
    assert!(set.has(Flag::Dirty));
    assert!(set.has(Seen(4)));
    assert!(!set.has(Seen(1)));
}
