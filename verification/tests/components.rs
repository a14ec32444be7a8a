use bonaventure::entity::inventory_component::InventoryComponent;
use bonaventure::entity::location_component::LocationComponent;
use bonaventure::entity::player_component::PlayerComponent;
use bonaventure::entity::prose_component::Prose;
use bonaventure::entity::prose_component::ProseComponent;
use bonaventure::entity::room_component::RoomComponent;
use bonaventure::entity::rule_component::RuleComponent;
use bonaventure::entity::tag_component::TagComponent;
use bonaventure::entity::thing_component::ThingComponent;
use bonaventure::types::Dir;
use bonaventure::types::Event;
use bonaventure::types::LinkDest;
use bonaventure::types::Predicate;
use bonaventure::types::ProseBuffer;
use bonaventure::types::ProseType;

#[test]
fn inventory_keeps_order_of_adding() {
    let mut inv = InventoryComponent::new();
    assert!(inv.is_empty());
    inv.add(5);
    inv.add(2);
    inv.add(9);
    inv.add(2);
    assert_eq!(inv.iter(), vec![5, 2, 9]);
    assert!(inv.has(5));
    assert!(!inv.has(3));
    assert!(!inv.is_empty());
}

#[test]
fn inventory_add_remove_roundtrip() {
    let mut inv = InventoryComponent::new();
    inv.add(1);
    inv.add(4);
    let before = inv.iter();
    inv.add(3);
    assert!(inv.has(3));
    inv.remove(3);
    assert_eq!(inv.iter(), before);
    inv.remove(7);
    assert_eq!(inv.iter(), vec![1, 4]);
    inv.add(3);
    inv.remove(1);
    assert_eq!(inv.iter(), vec![4, 3]);
}

#[test]
fn location_starts_in_limbo() {
    assert_eq!(LocationComponent::new().id, 0);
}

#[test]
fn simple_components() {
    let _ = PlayerComponent::new();
    let tc = TagComponent::new(3, "note");
    assert_eq!(tc.id, 3);
    assert_eq!(tc.tag, "note");
    let copy = tc.copy();
    assert_eq!(copy.tag, "note");
    let thing = ThingComponent::new("a note", "note");
    assert_eq!(thing.name, "a note");
    assert_eq!(thing.noun, "note");
}

#[test]
fn room_links_last_wins() {
    let mut room = RoomComponent::new("Hall");
    assert_eq!(room.name, "Hall");
    assert!(room.get_link(Dir::North).is_none());
    room.set_link(Dir::North, LinkDest::Room(4));
    room.set_link(Dir::South, LinkDest::DeadEnd("No.".to_string()));
    room.set_link(Dir::North, LinkDest::Room(6));
    assert!(matches!(room.get_link(Dir::North), Some(LinkDest::Room(6))));
    match room.get_link(Dir::South) {
        Some(LinkDest::DeadEnd(text)) => assert_eq!(text, "No."),
        _ => panic!("expected a dead end"),
    }
    assert!(room.get_link(Dir::East).is_none());
}

#[test]
fn prose_component_last_wins() {
    let mut pc = ProseComponent::new();
    assert!(pc.get(ProseType::Thing).is_none());
    pc.insert(ProseType::Thing, Prose::Prose("old".to_string()));
    pc.insert(ProseType::Book, Prose::Default);
    pc.insert(ProseType::Thing, Prose::Prose("new".to_string()));
    match pc.get(ProseType::Thing) {
        Some(Prose::Prose(text)) => assert_eq!(text, "new"),
        _ => panic!("expected prose"),
    }
    assert!(matches!(pc.get(ProseType::Book), Some(Prose::Default)));
    assert!(pc.get(ProseType::Room).is_none());
}

#[test]
fn rule_component_constructors() {
    let r = RuleComponent::new();
    assert_eq!(r.event, Event::Turn);
    assert!(!r.is_guard);
    assert!(r.script.actions.is_empty());
    let g = RuleComponent::guard(Event::GetThing(1, 2), Predicate::ClockIs(3));
    assert!(g.is_guard);
    assert_eq!(g.event, Event::GetThing(1, 2));
    let x = RuleComponent::newx(Event::ReadThing(1, 2), Predicate::Always);
    assert!(!x.is_guard);
    assert_eq!(x.event, Event::ReadThing(1, 2));
}

#[test]
fn prose_buffer_sentences() {
    let mut buff = ProseBuffer::new();
    assert_eq!(buff.get(), "");
    buff.puts("One.");
    assert_eq!(buff.get(), "One.");
    buff.puts("Two.");
    assert_eq!(buff.get(), "One.\nTwo.");
    buff.put_raw(" ");
    buff.puts("Three.");
    assert_eq!(buff.get(), "One.\nTwo. Three.");
}

#[test]
fn prose_buffer_paragraphs() {
    let mut buff = ProseBuffer::new();
    buff.para();
    assert_eq!(buff.get(), "||");
    buff.para();
    assert_eq!(buff.get(), "||");
    let mut buff = ProseBuffer::new();
    buff.put_raw("Name|");
    buff.para();
    assert_eq!(buff.get(), "Name||");
    buff.puts("Text.");
    assert_eq!(buff.get(), "Name||Text.");
}
