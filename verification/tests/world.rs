use bonaventure::entity::flag_set_component::FlagComponent;
use bonaventure::entity::inventory_component::InventoryView;
use bonaventure::entity::prose_component::Prose;
use bonaventure::entity::prose_component::ProseView;
use bonaventure::entity::room_component::RoomView;
use bonaventure::entity::thing_component::ThingView;
use bonaventure::types::LinkDest;
use bonaventure::types::ProseType;
use bonaventure::debug::dump_entity;
use bonaventure::debug::id_text;
use bonaventure::debug::list_world;
use bonaventure::phys;
use bonaventure::rule;
use bonaventure::script::Script;
use bonaventure::script::ScriptBuilder;
use bonaventure::types::Action;
use bonaventure::types::Dir;
use bonaventure::types::Event;
use bonaventure::types::Flag;
use bonaventure::types::Predicate;
use bonaventure::world::World;
use bonaventure::world::WorldQuery;
use bonaventure::world_builder::WorldBuilder;
use bonaventure::world_builder::PLAYER;

/// A small world: two rooms, a lamp, and a couple of rules.
fn small_world() -> World {
    let mut wb = WorldBuilder::new();
    wb.player().location("hall").prose("Just you.");
    wb.room("hall", "The Hall").prose("A hall.").link(Dir::East, "den");
    wb.room("den", "The Den").prose("A den.").link(Dir::West, "hall");
    let lamp = wb.thing("lamp", "brass lamp", "lamp").location("hall").prose("A brass lamp.").id;
    wb.feature("rug", "rug", "rug").location("hall");
    wb.rule("rule-lamp").on(Event::GetThing(1, lamp)).once_only().print("The lamp flickers.");
    wb.allow("guard-den", Event::EnterRoom(1, 3))
        .when(Predicate::Owns(PLAYER, "lamp"))
        .print("Too bright.");
    wb.world()
}

#[test]
fn new_world_knows_the_verbs() {
    let w = World::new();
    assert_eq!(w.verbs.len(), 28);
    assert_eq!(w.verbs[0], "go");
    assert_eq!(w.synonyms[2], ("n".to_string(), "north".to_string()));
    assert_eq!(w.tags.len(), 0);
}

#[test]
fn allocate_is_idempotent() {
    let mut w = World::new();
    let a = w.allocate("alpha");
    let b = w.allocate("beta");
    let a2 = w.allocate("alpha");
    assert_eq!((a, b, a2), (0, 1, 0));
    assert_eq!(w.tags.len(), 2);
    assert_eq!(w.lookup_id("beta"), Some(1));
    assert_eq!(w.lookup_id("gamma"), None);
    assert_eq!(w.lookup("alpha"), 0);
    assert_eq!(w.tag(1), "beta");
}

#[test]
fn builder_makes_entities() {
    let w = small_world();
    assert_eq!(w.lookup("LIMBO"), 0);
    assert_eq!(w.lookup(PLAYER), 1);
    assert_eq!(w.lookup("hall"), 2);
    assert_eq!(w.lookup("den"), 3);
    assert_eq!(w.lookup("lamp"), 4);
    assert_eq!(w.lookup("rug"), 5);
    assert!(w.is_player(1));
    assert!(w.is_room(2));
    assert!(!w.is_room(4));
    assert!(w.is_thing(4));
    assert!(w.is_rule(w.lookup("rule-lamp")));
    assert!(w.has_prose(2));
    assert!(w.has_prose_type(4, bonaventure::types::ProseType::Thing));
    assert!(w.has_flag(1, Flag::Seen(2)));
    assert!(w.has_flag(1, Flag::Scenery));
    assert!(phys::is_scenery(&w, w.lookup("rug")));
    assert_eq!(phys::loc(&w, 1), 2);
}

#[test]
fn flags_set_and_unset() {
    let mut w = small_world();
    assert!(!w.has_flag(4, Flag::User("LIT")));
    w.set(4, Flag::User("LIT"));
    assert!(w.has_flag(4, Flag::User("LIT")));
    assert!(w.has("lamp", Flag::User("LIT")));
    w.unset(4, Flag::User("LIT"));
    assert!(!w.has_flag(4, Flag::User("LIT")));
}

#[test]
fn things_are_in_one_place() {
    let mut w = small_world();
    let rug = w.lookup("rug");
    assert_eq!(phys::contents(&w, 2), vec![1, 4, rug]);
    assert_eq!(phys::scenery(&w, 2), vec![1, rug]);
    assert_eq!(phys::non_scenery(&w, 2), vec![4]);
    assert_eq!(phys::gettable(&w, 1), vec![4]);
    phys::put_in(&mut w, 4, 1);
    assert!(phys::owns(&w, 1, 4));
    assert!(!phys::owns(&w, 2, 4));
    assert!(w.owns(PLAYER, "lamp"));
    assert_eq!(phys::loc(&w, 4), 1);
    assert_eq!(phys::droppable(&w, 1), vec![4]);
    // What is here comes first, then what the player holds.
    assert_eq!(phys::visible(&w, 1), vec![1, rug, 4]);
    phys::take_out(&mut w, 4);
    assert_eq!(phys::loc(&w, 4), 0);
    assert_eq!(phys::contents(&w, 0), vec![4]);
    assert!(phys::contents(&w, 1).is_empty());
}

#[test]
fn predicates_evaluate() {
    let mut w = small_world();
    assert!(w.eval(&Predicate::Always));
    assert!(w.eval(&Predicate::ClockIs(0)));
    assert!(!w.eval(&Predicate::ClockIs(1)));
    assert!(w.eval(&Predicate::Has(PLAYER, Flag::Seen(2))));
    assert!(!w.eval(&Predicate::Owns(PLAYER, "lamp")));
    phys::put_in(&mut w, 4, 1);
    assert!(w.eval(&Predicate::Owns(PLAYER, "lamp")));
    assert!(w.eval(&Predicate::And(
        Box::new(Predicate::Always),
        Box::new(Predicate::Not(Box::new(Predicate::ClockIs(3))))
    )));
}

#[test]
fn scripts_act_and_print() {
    let mut w = small_world();
    let mut out: Vec<String> = Vec::new();
    let mut script = Script::new();
    script.add(Action::Print("Hello.".to_string()));
    script.add(Action::PutIn(4, 1));
    script.add(Action::Kill(1));
    script.add(Action::SetFlag(4, Flag::User("LIT")));
    script.execute(&mut w, &mut out);
    assert_eq!(out, vec!["Hello.".to_string(), "*** You have died. ***".to_string()]);
    assert!(phys::owns(&w, 1, 4));
    assert!(w.has_flag(1, Flag::Dead));
    assert!(w.has_flag(4, Flag::User("LIT")));

    let mut script = Script::new();
    script.add(Action::Revive(1));
    script.add(Action::Drop(1, 4));
    script.add(Action::UnsetFlag(4, Flag::User("LIT")));
    script.execute(&mut w, &mut out);
    assert_eq!(out.len(), 3);
    assert_eq!(out[2], "*** You are alive! ***");
    assert!(!w.has_flag(1, Flag::Dead));
    assert_eq!(phys::loc(&w, 4), 2);
    assert!(!w.has_flag(4, Flag::User("LIT")));
}

#[test]
fn scripts_in_sequence_are_one_script() {
    let mut w1 = small_world();
    let mut w2 = small_world();
    let mut o1: Vec<String> = Vec::new();
    let mut o2: Vec<String> = Vec::new();
    let mut first = Script::new();
    first.add(Action::Print("a".to_string()));
    first.add(Action::PutIn(4, 3));
    let mut second = Script::new();
    second.add(Action::Swap(4, 1));
    second.add(Action::Print("b".to_string()));
    first.execute(&mut w1, &mut o1);
    second.execute(&mut w1, &mut o1);
    let mut both = Script::new();
    for a in first.actions.iter().chain(second.actions.iter()) {
        both.add(a.clone());
    }
    both.execute(&mut w2, &mut o2);
    assert_eq!(o1, o2);
    assert_eq!(phys::loc(&w1, 4), phys::loc(&w2, 4));
    assert_eq!(phys::loc(&w1, 1), phys::loc(&w2, 1));
    assert_eq!(phys::loc(&w1, 1), 3);
    assert_eq!(phys::loc(&w1, 4), 0);
}

#[test]
fn script_builder_adds_actions() {
    let w = small_world();
    let mut sb = ScriptBuilder::new(&w);
    sb.print("x");
    sb.set_flag("lamp", Flag::User("LIT"));
    sb.forget("lamp");
    sb.kill(PLAYER);
    sb.revive(PLAYER);
    let script = sb.get();
    assert_eq!(script.actions.len(), 5);
    assert!(matches!(script.actions[1], Action::SetFlag(4, Flag::User("LIT"))));
    assert!(matches!(script.actions[2], Action::PutIn(4, 0)));
    assert!(matches!(script.actions[3], Action::Kill(1)));
    assert!(matches!(script.actions[4], Action::Revive(1)));
}

#[test]
fn once_only_rules_fire_once() {
    let mut w = small_world();
    let mut out: Vec<String> = Vec::new();
    rule::fire_event(&mut w, &Event::GetThing(1, 4), &mut out);
    assert_eq!(out, vec!["The lamp flickers.".to_string()]);
    let rid = w.lookup("rule-lamp");
    assert!(w.has_flag(rid, Flag::Fired));
    rule::fire_event(&mut w, &Event::GetThing(1, 4), &mut out);
    assert_eq!(out.len(), 1);
}

#[test]
fn unattached_events_change_nothing() {
    let mut w = small_world();
    let mut out: Vec<String> = Vec::new();
    rule::fire_events(&mut w, &[Event::Turn, Event::ReadThing(1, 4)], &mut out);
    assert!(out.is_empty());
    assert!(!w.has_flag(w.lookup("rule-lamp"), Flag::Fired));
}

#[test]
fn guards_refuse_and_explain() {
    let mut w = small_world();
    let mut out: Vec<String> = Vec::new();
    assert!(rule::allows(&mut w, &Event::EnterRoom(1, 3), &mut out));
    assert!(out.is_empty());
    assert!(rule::allows(&mut w, &Event::GetThing(1, 4), &mut out));
    phys::put_in(&mut w, 4, 1);
    assert!(!rule::allows(&mut w, &Event::EnterRoom(1, 3), &mut out));
    assert_eq!(out, vec!["Too bright.".to_string()]);
}

#[test]
fn numbers_as_text() {
    assert_eq!(id_text(0), "0");
    assert_eq!(id_text(7), "7");
    assert_eq!(id_text(10), "10");
    assert_eq!(id_text(1234), "1234");
}

#[test]
fn listing_and_dumping() {
    let w = small_world();
    assert_eq!(
        list_world(&w),
        "[0] LIMBO|[1] PLAYER|[2] hall|[3] den|[4] lamp|[5] rug|[6] rule-lamp|[7] guard-den"
    );
    assert_eq!(
        dump_entity(&w, 2),
        "[2] hall|  Room name: The Hall|    Link: East to [3] den|  Contains: [1] PLAYER|  Contains: [4] lamp|  Contains: [5] rug|  Prose [Room]: A hall."
    );
    assert_eq!(
        dump_entity(&w, 6),
        "[6] rule-lamp|  Rule Action: Print(\"The lamp flickers.\")|  Flag: FireOnce"
    );
    assert_eq!(
        dump_entity(&w, 7),
        "[7] guard-den|  Rule Action: Print(\"Too bright.\")"
    );
    assert_eq!(dump_entity(&w, 0), "[0] LIMBO|  Contains: nothing");
}

#[test]
fn views_read_and_save() {
    let mut w = small_world();
    let before = dump_entity(&w, 2);
    let mut rv = RoomView::from(&w, 2);
    assert_eq!(rv.tag, "hall");
    assert_eq!(rv.room.name, "The Hall");
    assert_eq!(rv.inventory.iter(), vec![1, 4, 5]);
    rv.save(&mut w);
    assert_eq!(dump_entity(&w, 2), before);

    rv.room.set_link(Dir::North, LinkDest::DeadEnd("A wall.".to_string()));
    rv.inventory.remove(4);
    rv.flag_set.set(Flag::User("DARK"));
    rv.save(&mut w);
    assert_eq!(
        dump_entity(&w, 2),
        "[2] hall|  Room name: The Hall|    Link: North to DeadEnd: A wall.|    Link: East to [3] den|  Flag: User(\"DARK\")|  Contains: [1] PLAYER|  Contains: [5] rug|  Prose [Room]: A hall."
    );

    let mut tv = ThingView::from(&w, 4);
    assert_eq!(tv.thing.noun, "lamp");
    tv.flag_set.set(Flag::User("LIT"));
    tv.save(&mut w);
    assert!(w.has_flag(4, Flag::User("LIT")));

    let mut iv = InventoryView::from(&w, 2);
    assert_eq!(iv.tag, "hall");
    assert_eq!(iv.inventory.iter(), vec![1, 5]);
    iv.inventory.remove(5);
    iv.save(&mut w);
    assert_eq!(phys::contents(&w, 2), vec![1]);

    let pv = ProseView::from(&w, 4);
    assert_eq!(pv.tag, "lamp");
    assert!(matches!(pv.prose.get(ProseType::Thing), Some(Prose::Prose(_))));

    let fc = FlagComponent::new();
    assert_eq!(fc.set.len(), 0);
}
