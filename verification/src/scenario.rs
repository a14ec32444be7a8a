//! Scenario definition
use vstd::prelude::*;
use crate::entity::prose_component::ProseClause;
use crate::entity::prose_component::ProseHook;
use crate::entity::prose_component::Prose;
use crate::entity::rule_component::RuleComponent;
use crate::types::Dir;
use crate::types::LinkDest;
use crate::types::Action;
use crate::types::Event;
use crate::types::Flag;
use crate::types::FlagView;
use crate::types::ID;
use crate::types::Predicate;
use crate::types::ProseType;
use crate::types::to_string;
use crate::world::World;
use crate::world::LIMBO;
use crate::world::standard_verbs;
use crate::world::standard_synonyms;
use crate::world_builder::WorldBuilder;
use crate::world_builder::PLAYER;
use crate::world_builder::kept;
use crate::world_builder::placed;
use crate::world::lemma_tags_differ;
use crate::world::lemma_tag_id;

verus! {

broadcast use vstd::std_specs::hash::group_hash_axioms;

//------------------------------------------------------------------------------------------------
// User-defined flags

/// The flag of things that are dirty.
pub fn dirty() -> (res: Flag)
    ensures
        res == Flag::User("DIRTY"),
{
    Flag::User("DIRTY")
}

/// The flag of places where there is water.
pub fn has_water() -> (res: Flag)
    ensures
        res == Flag::User("HAS_WATER"),
{
    Flag::User("HAS_WATER")
}

/// The flag of things that have been taken.
pub fn taken() -> (res: Flag)
    ensures
        res == Flag::User("TAKEN"),
{
    Flag::User("TAKEN")
}

/// Where the game begins: the player stands in the clearing, which is a room, and has
/// seen it.
pub open spec fn starts_in_clearing(w: &World) -> bool {
    &&& w.is_room_spec(w.tag_id("clearing"@))
    &&& placed(w, w.pid, "clearing"@)
    &&& seen_clearing(w)
}

/// The entity with the tag has a flag set, with exactly these flags.
pub open spec fn flagged(w: &World, tag: Seq<char>, flags: Set<FlagView>) -> bool {
    w.has_flags_spec(w.tag_id(tag)) && w.flags_of(w.tag_id(tag)) == flags
}

/// The entity with the tag is a thing with the name and the noun.
pub open spec fn named(w: &World, tag: Seq<char>, name: Seq<char>, noun: Seq<char>) -> bool {
    let id = w.tag_id(tag);
    &&& w.things@.contains_key(id)
    &&& w.things@[id].name@ == name
    &&& w.things@[id].noun@ == noun
}

/// The flags of the rooms: the grotto has water; the others have no flags.
pub open spec fn rooms_flagged(w: &World) -> bool {
    &&& flagged(w, "clearing"@, Set::empty())
    &&& flagged(w, "grotto"@, set![FlagView::User("HAS_WATER"@)])
    &&& flagged(w, "hilltop"@, Set::empty())
    &&& flagged(w, "cave-mouth"@, Set::empty())
    &&& flagged(w, "cave-1"@, Set::empty())
}

/// The names, nouns and flags of the player and the things: the hands are scenery,
/// and dirty; the note has no flags; the pool, the stone and the sword are scenery.
pub open spec fn things_named(w: &World) -> bool {
    &&& named(w, "PLAYER"@, "Yourself"@, "self"@)
    &&& named(w, "hands"@, "hands"@, "hands"@)
    &&& flagged(w, "hands"@, set![FlagView::Scenery, FlagView::User("DIRTY"@)])
    &&& named(w, "note"@, "note"@, "note"@)
    &&& flagged(w, "note"@, Set::empty())
    &&& named(w, "pool"@, "pool"@, "pool"@)
    &&& flagged(w, "pool"@, set![FlagView::Scenery])
    &&& named(w, "stone"@, "stone"@, "stone"@)
    &&& flagged(w, "stone"@, set![FlagView::Scenery])
    &&& named(w, "sword"@, "sword"@, "sword"@)
    &&& flagged(w, "sword"@, set![FlagView::Scenery])
}

/// The flags of the rules: the two that fire only once are marked so; the others have
/// no flags.
pub open spec fn rules_flagged(w: &World) -> bool {
    &&& flagged(w, "rule-story-1"@, Set::empty())
    &&& flagged(w, "guard-read-note"@, Set::empty())
    &&& flagged(w, "rule-dirty-note"@, Set::empty())
    &&& flagged(w, "guard-get-sword"@, Set::empty())
    &&& flagged(w, "rule-take-sword"@, set![FlagView::FireOnce])
    &&& flagged(w, "guard-enter-cave"@, Set::empty())
    &&& flagged(w, "rule-enter-cave"@, set![FlagView::FireOnce])
    &&& flagged(w, "fairy-godmother-rule"@, Set::empty())
}

/// The player has seen the clearing: the player's flags are that, and being part of
/// the scenery.
pub open spec fn seen_clearing(w: &World) -> bool {
    &&& w.has_flags_spec(w.pid)
    &&& w.flags_of(w.pid) == set![FlagView::Scenery, FlagView::Seen(w.tag_id("clearing"@))]
}

/// The description of the clearing.
pub const CLEARING: &'static str = "\
A wide spot in the woods.  The trees are dense, but there seem to be paths
heading to the north, south, and east.
        ";

/// The description of the grotto.
pub const GROTTO: &'static str = "\
Nestled in a grotto among the trees you find a pool of water.
A path leads west.
        ";

/// The description of the hilltop.
pub const HILLTOP: &'static str = "\
The path has led you to the top of a hill, where there is a broad open
space.  Trails lead to the north and south.
        ";

/// The description of the mouth of the cave.
pub const CAVE_MOUTH: &'static str = "\
The trail ends at the mouth of a dark and forbidding cave.  You just
know that if you go any closer, a stream of bats will fly out and
scare you silly.  If you choose, you can enter the cave to the east, or
go back up the trail to the west.
        ";

/// The description of the cave.
pub const CAVE: &'static str = "\
You're in a damp, muddy cave, dimly lit by patches of the glowing fungus
that indicates that game designer didn't want to be bothered with providing
you a light source. The entrance is to the west, and a narrow passage continues
to the east.
        ";

/// The description of the player's dirty hands.
pub const HANDS_DIRTY: &'static str = "You don't remember what you were doing, but it must have been messy.";

/// What the note says.
pub const NOTE_BOOK: &'static str = "\
If you ever wish to see your toy aisle alive again, put $10,000 dollars
under the statue in the castle courtyard before nine o'clock tomorrow morning.
||   -- Your host.
||Well.  That's a bit alarming.  Where are you going to find $10,000 at this time of day?
         ";

/// The description of the pool.
pub const POOL: &'static str = "\
Moss grows on the stones around the edge, but the water is clear and
deep and cold.
        ";

/// How the stone looks from the hilltop.
pub const STONE_SCENERY: &'static str = "\
A massive block of stone squats on the crest of the hill.  There seems to be a sword hilt
poking out of the top, and there's something on one of the sides.
        ";

/// The description of the stone.
pub const STONE: &'static str = "\
It's a massive block of marble, four feet wide and three feet high.  The top is flat, and the
four sides slope inward.  There's a sword sticking out of the top.  These words are chiseled
into one side:
||   * Only The Pure *
        ";

/// The description of the sword, once it is taken.
pub const SWORD_EXAMINED: &'static str = "\
The sword, if you want to call it that, is a three-foot length of dark hardwood
with a sharkskin hilt on one end.  It's polished so that it gleams, and it has no
sharp edges anywhere.  Carved along the length of it are the words
\"Emotional Support Sword (TM)\".
                ";

/// The entity with the tag has the text as its prose of the type.
pub open spec fn has_text(w: &World, tag: Seq<char>, t: ProseType, text: Seq<char>) -> bool {
    let id = w.tag_id(tag);
    &&& w.proses@.contains_key(id)
    &&& w.proses@[id].prose(t) matches Some(Prose::Prose(s)) && s@ == text
}

/// The clause gives the text when the predicate holds.
pub open spec fn says(c: ProseClause, when: Predicate, text: Seq<char>) -> bool {
    c.when == when && c.text@ == text
}

/// The player's own description.
pub open spec fn player_described(w: &World) -> bool {
    has_text(w, "PLAYER"@, ProseType::Thing, "You've got all the usual bits."@)
}

/// The hands look dirty or clean as they are, and show as dirty in the description of
/// the player while they are.
pub open spec fn hands_described(w: &World) -> bool {
    let id = w.tag_id("hands"@);
    let dirty = Predicate::Has("hands", Flag::User("DIRTY"));
    &&& w.proses@.contains_key(id)
    &&& w.proses@[id].prose(ProseType::Thing) matches Some(Prose::Hook(h)) && h.clauses@.len()
        == 2 && says(h.clauses@[0], dirty, HANDS_DIRTY@) && says(
        h.clauses@[1],
        Predicate::Not(Box::new(dirty)),
        "Fresh and clean."@,
    )
    &&& w.proses@[id].prose(ProseType::Scenery) matches Some(Prose::Hook(h)) && h.clauses@.len()
        == 1 && says(h.clauses@[0], dirty, "Your hands are kind of dirty, though."@)
}

/// The note looks like a note, and grubby once it is dirty; it says `NOTE_BOOK`.
pub open spec fn note_described(w: &World) -> bool {
    let id = w.tag_id("note"@);
    &&& w.proses@.contains_key(id)
    &&& w.proses@[id].prose(ProseType::Thing) matches Some(Prose::Hook(h)) && h.clauses@.len()
        == 2 && says(h.clauses@[0], Predicate::Always, "A note, on plain paper."@) && says(
        h.clauses@[1],
        Predicate::Has("note", Flag::User("DIRTY")),
        "It looks pretty grubby; someone's been mishandling it."@,
    )
    &&& has_text(w, "note"@, ProseType::Book, NOTE_BOOK@)
}

/// The pool is described.
pub open spec fn pool_described(w: &World) -> bool {
    has_text(w, "pool"@, ProseType::Thing, POOL@)
}

/// The stone is described, and shows in the description of the hilltop.
pub open spec fn stone_described(w: &World) -> bool {
    &&& has_text(w, "stone"@, ProseType::Scenery, STONE_SCENERY@)
    &&& has_text(w, "stone"@, ProseType::Thing, STONE@)
}

/// The sword shows only its hilt until it is taken.
pub open spec fn sword_described(w: &World) -> bool {
    let id = w.tag_id("sword"@);
    let taken = Predicate::Has("sword", Flag::User("TAKEN"));
    &&& w.proses@.contains_key(id)
    &&& w.proses@[id].prose(ProseType::Thing) matches Some(Prose::Hook(h)) && h.clauses@.len()
        == 2 && says(h.clauses@[0], taken, SWORD_EXAMINED@) && says(
        h.clauses@[1],
        Predicate::Not(Box::new(taken)),
        "All you can really see is the hilt; the rest is embedded in the stone."@,
    )
}

/// The descriptions of the player and the things.
pub open spec fn things_described(w: &World) -> bool {
    &&& player_described(w)
    &&& hands_described(w)
    &&& note_described(w)
    &&& pool_described(w)
    &&& stone_described(w)
    &&& sword_described(w)
}

/// The room with the tag has the name, and the description.
pub open spec fn described(w: &World, tag: Seq<char>, name: Seq<char>, text: Seq<char>) -> bool {
    let id = w.tag_id(tag);
    &&& w.rooms@.contains_key(id)
    &&& w.rooms@[id].name@ == name
    &&& w.proses@.contains_key(id)
    &&& w.proses@[id].prose(ProseType::Room) matches Some(Prose::Prose(s)) && s@ == text
}

/// The clearing is described.
pub open spec fn clearing_described(w: &World) -> bool {
    described(w, "clearing"@, "A Dreary Clearing"@, CLEARING@)
}

/// The grotto is described.
pub open spec fn grotto_described(w: &World) -> bool {
    described(w, "grotto"@, "A Grotto in the Woods"@, GROTTO@)
}

/// The hilltop is described.
pub open spec fn hilltop_described(w: &World) -> bool {
    described(w, "hilltop"@, "A Windy Hilltop"@, HILLTOP@)
}

/// The mouth of the cave is described.
pub open spec fn cave_mouth_described(w: &World) -> bool {
    described(w, "cave-mouth"@, "The Mouth of a Forbidding Cave"@, CAVE_MOUTH@)
}

/// The cave is described.
pub open spec fn cave_described(w: &World) -> bool {
    described(w, "cave-1"@, "In the Cave"@, CAVE@)
}

/// The names and descriptions of the rooms.
pub open spec fn rooms_described(w: &World) -> bool {
    &&& clearing_described(w)
    &&& grotto_described(w)
    &&& hilltop_described(w)
    &&& cave_mouth_described(w)
    &&& cave_described(w)
}

/// The ways out of the clearing: a dead end to the north, the grotto to the east, and
/// the hilltop to the south.
pub open spec fn clearing_ways(w: &World) -> bool {
    let r = w.rooms@[w.tag_id("clearing"@)];
    &&& w.tag_exists("clearing"@)
    &&& w.tag_exists("grotto"@)
    &&& w.tag_exists("hilltop"@)
    &&& w.is_room_spec(w.tag_id("clearing"@))
    &&& r.link(Dir::North) matches Some(LinkDest::DeadEnd(_))
    &&& r.link(Dir::East) == Some(LinkDest::Room(w.tag_id("grotto"@)))
    &&& r.link(Dir::South) == Some(LinkDest::Room(w.tag_id("hilltop"@)))
    &&& forall|d: Dir|
        d != Dir::North && d != Dir::East && d != Dir::South ==> #[trigger] r.link(d) is None
}

/// The way out of the grotto: the clearing, to the west.
pub open spec fn grotto_ways(w: &World) -> bool {
    let r = w.rooms@[w.tag_id("grotto"@)];
    &&& w.tag_exists("grotto"@)
    &&& w.tag_exists("clearing"@)
    &&& w.is_room_spec(w.tag_id("grotto"@))
    &&& r.link(Dir::West) == Some(LinkDest::Room(w.tag_id("clearing"@)))
    &&& forall|d: Dir| d != Dir::West ==> #[trigger] r.link(d) is None
}

/// The ways out of the hilltop: the clearing to the north, and the mouth of the cave
/// to the south.
pub open spec fn hilltop_ways(w: &World) -> bool {
    let r = w.rooms@[w.tag_id("hilltop"@)];
    &&& w.tag_exists("hilltop"@)
    &&& w.tag_exists("clearing"@)
    &&& w.tag_exists("cave-mouth"@)
    &&& w.is_room_spec(w.tag_id("hilltop"@))
    &&& r.link(Dir::North) == Some(LinkDest::Room(w.tag_id("clearing"@)))
    &&& r.link(Dir::South) == Some(LinkDest::Room(w.tag_id("cave-mouth"@)))
    &&& forall|d: Dir| d != Dir::North && d != Dir::South ==> #[trigger] r.link(d) is None
}

/// The ways out of the mouth of the cave: the hilltop to the west, and the cave to the
/// east.
pub open spec fn cave_mouth_ways(w: &World) -> bool {
    let r = w.rooms@[w.tag_id("cave-mouth"@)];
    &&& w.tag_exists("cave-mouth"@)
    &&& w.tag_exists("hilltop"@)
    &&& w.tag_exists("cave-1"@)
    &&& w.is_room_spec(w.tag_id("cave-mouth"@))
    &&& r.link(Dir::West) == Some(LinkDest::Room(w.tag_id("hilltop"@)))
    &&& r.link(Dir::East) == Some(LinkDest::Room(w.tag_id("cave-1"@)))
    &&& forall|d: Dir| d != Dir::West && d != Dir::East ==> #[trigger] r.link(d) is None
}

/// The ways out of the cave: its mouth to the west, and a dead end to the east.
pub open spec fn cave_ways(w: &World) -> bool {
    let r = w.rooms@[w.tag_id("cave-1"@)];
    &&& w.tag_exists("cave-1"@)
    &&& w.tag_exists("cave-mouth"@)
    &&& w.is_room_spec(w.tag_id("cave-1"@))
    &&& r.link(Dir::West) == Some(LinkDest::Room(w.tag_id("cave-mouth"@)))
    &&& r.link(Dir::East) matches Some(LinkDest::DeadEnd(_))
    &&& forall|d: Dir| d != Dir::West && d != Dir::East ==> #[trigger] r.link(d) is None
}

/// The rooms in the open air, and the ways out of them.
pub open spec fn open_air_ways(w: &World) -> bool {
    &&& clearing_ways(w)
    &&& grotto_ways(w)
    &&& hilltop_ways(w)
}

/// The map of the scenario: its rooms, and the ways between them.
pub open spec fn scenario_map(w: &World) -> bool {
    &&& open_air_ways(w)
    &&& cave_mouth_ways(w)
    &&& cave_ways(w)
}

/// The player's hands are on the player, and dirty.
pub open spec fn hands_start(w: &World) -> bool {
    &&& w.tag_exists("hands"@)
    &&& placed(w, w.tag_id("hands"@), "PLAYER"@)
    &&& w.has_flags_spec(w.tag_id("hands"@))
    &&& w.flags_of(w.tag_id("hands"@)).contains(FlagView::User("DIRTY"@))
}

/// The note is in the clearing.
pub open spec fn note_starts(w: &World) -> bool {
    w.tag_exists("note"@) && placed(w, w.tag_id("note"@), "clearing"@)
}

/// The pool is in the grotto.
pub open spec fn pool_starts(w: &World) -> bool {
    w.tag_exists("pool"@) && placed(w, w.tag_id("pool"@), "grotto"@)
}

/// The stone is on the hilltop.
pub open spec fn stone_starts(w: &World) -> bool {
    w.tag_exists("stone"@) && placed(w, w.tag_id("stone"@), "hilltop"@)
}

/// The sword is on the hilltop too, stuck in the stone: part of the scenery.
pub open spec fn sword_starts(w: &World) -> bool {
    &&& w.tag_exists("sword"@)
    &&& placed(w, w.tag_id("sword"@), "hilltop"@)
    &&& w.has_flags_spec(w.tag_id("sword"@))
    &&& w.flags_of(w.tag_id("sword"@)).contains(FlagView::Scenery)
}

/// Where the things of the scenario start.
pub open spec fn things_start(w: &World) -> bool {
    &&& hands_start(w)
    &&& note_starts(w)
    &&& pool_starts(w)
    &&& stone_starts(w)
    &&& sword_starts(w)
}

/// The change kept the tags, the rooms, where everything is, and the flags that
/// were set: all that the invariants of the scenario read.
pub open spec fn places_kept(w0: &World, w1: &World) -> bool {
    &&& w0.tags_kept(w1)
    &&& w1.pid == w0.pid
    &&& w1.locations@ == w0.locations@
    &&& w1.inventories@ == w0.inventories@
    &&& w1.rooms@ == w0.rooms@
    &&& w1.flags_of(w1.pid) == w0.flags_of(w0.pid)
    &&& forall|x: ID| #[trigger]
        w0.flag_sets@.contains_key(x) ==> w1.flag_sets@.contains_key(x) && w0.flags_of(
            x,
        ).subset_of(w1.flags_of(x))
}

/// A change that keeps the places keeps the invariants of the scenario.
proof fn lemma_places_kept(w0: &World, w1: &World)
    requires
        places_kept(w0, w1),
    ensures
        known_tags(w0) ==> known_tags(w1),
        starts_in_clearing(w0) ==> starts_in_clearing(w1),
        things_start(w0) ==> things_start(w1),
        open_air_ways(w0) ==> open_air_ways(w1),
        scenario_map(w0) ==> scenario_map(w1),
{
}

//------------------------------------------------------------------------------------------------
// The rules of the scenario

/// The beginning of the story.
pub const STORY: &'static str = "\
You don't know where you are.  You don't even know where you want to
be.  All you know is that your feet are wet, your hands are dirty,
and gosh, this doesn't look anything like the toy aisle.
        ";

/// The rule with the given tag, which exists and is a rule.
pub open spec fn has_rule(w: &World, tag: Seq<char>) -> bool {
    w.tag_exists(tag) && w.rules@.contains_key(w.tag_id(tag))
}

/// The rule with the given tag.
pub open spec fn rule_of(w: &World, tag: Seq<char>) -> RuleComponent {
    w.rules@[w.tag_id(tag)]
}

/// The action prints the text.
pub open spec fn prints(a: Action, text: Seq<char>) -> bool {
    a matches Action::Print(t) && t@ == text
}

/// The rule "rule-story-1": on the first turn, it tells the beginning of the story.
pub open spec fn story_rule(w: &World) -> bool {
    let r = rule_of(w, "rule-story-1"@);
    &&& has_rule(w, "rule-story-1"@)
    &&& r.event == Event::Turn
    &&& !r.is_guard
    &&& r.predicate == Predicate::ClockIs(0)
    &&& r.script.actions@.len() == 1
    &&& prints(r.script.actions@[0], STORY@)
}

/// The rules about the note: the guard "guard-read-note" refuses to let the player read
/// it while it is dirty, and the rule "rule-dirty-note" dirties it when the player
/// picks it up with dirty hands.
pub open spec fn note_rules(w: &World, pid: ID, note: ID) -> bool {
    let g = rule_of(w, "guard-read-note"@);
    let r = rule_of(w, "rule-dirty-note"@);
    &&& has_rule(w, "guard-read-note"@)
    &&& g.event == Event::ReadThing(pid, note)
    &&& g.is_guard
    &&& g.predicate == Predicate::Has("note", Flag::User("DIRTY"))
    &&& g.script.actions@.len() == 1
    &&& prints(g.script.actions@[0], "You've gotten it too dirty to read."@)
    &&& has_rule(w, "rule-dirty-note"@)
    &&& r.event == Event::GetThing(pid, note)
    &&& !r.is_guard
    &&& r.predicate == Predicate::And(
        Box::new(Predicate::Has("hands", Flag::User("DIRTY"))),
        Box::new(Predicate::Not(Box::new(Predicate::Has("note", Flag::User("DIRTY"))))),
    )
    &&& r.script.actions@.len() == 2
    &&& prints(r.script.actions@[0], "The dirt from your hands got all over the note."@)
    &&& r.script.actions@[1] == Action::SetFlag(w.tag_id("note"@), Flag::User("DIRTY"))
}

/// What happens to a player who touches the sword with dirty hands.
pub const SWORD_REFUSED: &'static str = "\
Oh, you so didn't want to touch the sword with dirty hands.
Weren't you paying attention? Only the pure may touch this sword.
        ";

/// What happens when the player takes the sword.
pub const SWORD_TAKEN: &'static str = "\
The sword almost seems to leap into your hands.  As you marvel at it
(and, really, there's something odd about it), the marble block dissolves
into white mist and blows away.
        ";

/// The rules about the sword: its guard, and the rule for taking it.
pub open spec fn sword_rules(w: &World, pid: ID, sword: ID) -> bool {
    sword_guard(w, pid, sword) && take_sword_rule(w, pid, sword)
}

/// The guard "guard-get-sword": it kills a player who tries to get the sword with
/// dirty hands.
pub open spec fn sword_guard(w: &World, pid: ID, sword: ID) -> bool {
    let g = rule_of(w, "guard-get-sword"@);
    &&& has_rule(w, "guard-get-sword"@)
    &&& g.event == Event::GetThing(pid, sword)
    &&& g.is_guard
    &&& g.predicate == Predicate::Has("hands", Flag::User("DIRTY"))
    &&& g.script.actions@.len() == 2
    &&& prints(g.script.actions@[0], SWORD_REFUSED@)
    &&& g.script.actions@[1] == Action::Kill(w.pid)
}

/// The rule "rule-take-sword": once only, it takes the stone away and frees the sword
/// when the player gets it.
pub open spec fn take_sword_rule(w: &World, pid: ID, sword: ID) -> bool {
    let r = rule_of(w, "rule-take-sword"@);
    &&& has_rule(w, "rule-take-sword"@)
    &&& r.event == Event::GetThing(pid, sword)
    &&& !r.is_guard
    &&& r.predicate == Predicate::Always
    &&& w.flags_of(w.tag_id("rule-take-sword"@)).contains(FlagView::FireOnce)
    &&& r.script.actions@.len() == 4
    &&& r.script.actions@[0] == Action::PutIn(w.tag_id("stone"@), LIMBO)
    &&& r.script.actions@[1] == Action::SetFlag(w.tag_id("sword"@), Flag::User("TAKEN"))
    &&& r.script.actions@[2] == Action::UnsetFlag(w.tag_id("sword"@), Flag::Scenery)
    &&& prints(r.script.actions@[3], SWORD_TAKEN@)
}

/// What the player is told who tries to enter the cave without the sword.
pub const CAVE_REFUSED: &'static str = "\
Oh, hell, no, you're not going in there empty handed.  You'd better go back
and get that sword.
        ";

/// What the player feels on entering the cave.
pub const CAVE_ENTERED: &'static str = "\
It's an unpleasant place but your sword gives you confidence and warm fuzzies.
        ";

/// What the fairy godmother does.
pub const FAIRY_GODMOTHER: &'static str = "\
A fairy godmother hovers over your limp body.  She frowns;
then, apparently against her better judgment, she waves
her wand.  There's a flash, and she disappears.
        ";

/// The rules about the cave: its guard, and the rule for entering it.
pub open spec fn cave_rules(w: &World, pid: ID, cave: ID) -> bool {
    cave_guard(w, pid, cave) && enter_cave_rule(w, pid, cave)
}

/// The guard "guard-enter-cave": it keeps the player out of the cave unless the player
/// has the sword.
pub open spec fn cave_guard(w: &World, pid: ID, cave: ID) -> bool {
    let g = rule_of(w, "guard-enter-cave"@);
    &&& has_rule(w, "guard-enter-cave"@)
    &&& g.event == Event::EnterRoom(pid, cave)
    &&& g.is_guard
    &&& g.predicate == Predicate::Not(Box::new(Predicate::Owns(PLAYER, "sword")))
    &&& g.script.actions@.len() == 1
    &&& prints(g.script.actions@[0], CAVE_REFUSED@)
}

/// The rule "rule-enter-cave": the first time the player enters the cave, it says so.
pub open spec fn enter_cave_rule(w: &World, pid: ID, cave: ID) -> bool {
    let r = rule_of(w, "rule-enter-cave"@);
    &&& has_rule(w, "rule-enter-cave"@)
    &&& r.event == Event::EnterRoom(pid, cave)
    &&& !r.is_guard
    &&& r.predicate == Predicate::Always
    &&& w.flags_of(w.tag_id("rule-enter-cave"@)).contains(FlagView::FireOnce)
    &&& r.script.actions@.len() == 1
    &&& prints(r.script.actions@[0], CAVE_ENTERED@)
}

/// The rule "fairy-godmother-rule": each turn that the player is dead, the fairy
/// godmother revives the player.
pub open spec fn fairy_rule(w: &World) -> bool {
    let r = rule_of(w, "fairy-godmother-rule"@);
    &&& has_rule(w, "fairy-godmother-rule"@)
    &&& r.event == Event::Turn
    &&& !r.is_guard
    &&& r.predicate == Predicate::Has(PLAYER, Flag::Dead)
    &&& r.script.actions@.len() == 2
    &&& prints(r.script.actions@[0], FAIRY_GODMOTHER@)
    &&& r.script.actions@[1] == Action::Revive(w.pid)
}

/// The rules of the scenario are the story, the guards and rules about the note, the
/// sword and the cave, and the fairy godmother's rule.
pub open spec fn the_rules(w: &World) -> Set<ID> {
    set![w.tag_id("rule-story-1"@), w.tag_id("guard-read-note"@), w.tag_id("rule-dirty-note"@), w.tag_id("guard-get-sword"@), w.tag_id("rule-take-sword"@), w.tag_id("guard-enter-cave"@), w.tag_id("rule-enter-cave"@), w.tag_id("fairy-godmother-rule"@)]
}

/// What each inventory holds: the player holds the hands; the player and the note are
/// in the clearing, the pool in the grotto, and the stone and the sword on the hilltop;
/// LIMBO and the cave and its mouth hold nothing.
pub open spec fn contents_start(w: &World) -> bool {
    &&& w.inv_of(w.tag_id("LIMBO"@)).to_set() == Set::<ID>::empty()
    &&& w.inv_of(w.tag_id("PLAYER"@)).to_set() == set![w.tag_id("hands"@)]
    &&& w.inv_of(w.tag_id("clearing"@)).to_set() == set![w.tag_id("PLAYER"@), w.tag_id("note"@)]
    &&& w.inv_of(w.tag_id("grotto"@)).to_set() == set![w.tag_id("pool"@)]
    &&& w.inv_of(w.tag_id("hilltop"@)).to_set() == set![w.tag_id("stone"@), w.tag_id("sword"@)]
    &&& w.inv_of(w.tag_id("cave-mouth"@)).to_set() == Set::<ID>::empty()
    &&& w.inv_of(w.tag_id("cave-1"@)).to_set() == Set::<ID>::empty()
}

/// Where everything is located fixes what each inventory holds.
proof fn lemma_contents_start(w: &World)
    requires
        w.wf(),
        known_tags(w),
        starts_in_clearing(w),
        scenario_map(w),
        things_start(w),
        places_listed(w),
        w.locations@.dom() == the_located(w),
        w.inventories@.dom() == the_rooms(w).insert(LIMBO).insert(w.pid),
    ensures
        contents_start(w),
{
    reveal_strlit("LIMBO");
    reveal_strlit("PLAYER");
    reveal_strlit("clearing");
    reveal_strlit("grotto");
    reveal_strlit("hilltop");
    reveal_strlit("cave-mouth");
    reveal_strlit("cave-1");
    reveal_strlit("hands");
    reveal_strlit("note");
    reveal_strlit("pool");
    reveal_strlit("stone");
    reveal_strlit("sword");
    lemma_differ_by_len(w, "LIMBO"@, "PLAYER"@);
    lemma_differ_by_len(w, "LIMBO"@, "clearing"@);
    lemma_differ_by_len(w, "LIMBO"@, "grotto"@);
    lemma_differ_by_len(w, "LIMBO"@, "hilltop"@);
    lemma_differ_by_len(w, "LIMBO"@, "cave-mouth"@);
    lemma_differ_by_len(w, "LIMBO"@, "cave-1"@);
    lemma_differ_at(w, "LIMBO"@, "hands"@, 0);
    lemma_differ_by_len(w, "LIMBO"@, "note"@);
    lemma_differ_by_len(w, "LIMBO"@, "pool"@);
    lemma_differ_at(w, "LIMBO"@, "stone"@, 0);
    lemma_differ_at(w, "LIMBO"@, "sword"@, 0);
    lemma_differ_by_len(w, "PLAYER"@, "clearing"@);
    lemma_differ_at(w, "PLAYER"@, "grotto"@, 0);
    lemma_differ_by_len(w, "PLAYER"@, "hilltop"@);
    lemma_differ_by_len(w, "PLAYER"@, "cave-mouth"@);
    lemma_differ_at(w, "PLAYER"@, "cave-1"@, 0);
    lemma_differ_by_len(w, "PLAYER"@, "hands"@);
    lemma_differ_by_len(w, "PLAYER"@, "note"@);
    lemma_differ_by_len(w, "PLAYER"@, "pool"@);
    lemma_differ_by_len(w, "PLAYER"@, "stone"@);
    lemma_differ_by_len(w, "PLAYER"@, "sword"@);
    lemma_differ_by_len(w, "clearing"@, "grotto"@);
    lemma_differ_by_len(w, "clearing"@, "hilltop"@);
    lemma_differ_by_len(w, "clearing"@, "cave-mouth"@);
    lemma_differ_by_len(w, "clearing"@, "cave-1"@);
    lemma_differ_by_len(w, "clearing"@, "hands"@);
    lemma_differ_by_len(w, "clearing"@, "note"@);
    lemma_differ_by_len(w, "clearing"@, "pool"@);
    lemma_differ_by_len(w, "clearing"@, "stone"@);
    lemma_differ_by_len(w, "clearing"@, "sword"@);
    lemma_differ_by_len(w, "grotto"@, "hilltop"@);
    lemma_differ_by_len(w, "grotto"@, "cave-mouth"@);
    lemma_differ_at(w, "grotto"@, "cave-1"@, 0);
    lemma_differ_by_len(w, "grotto"@, "hands"@);
    lemma_differ_by_len(w, "grotto"@, "note"@);
    lemma_differ_by_len(w, "grotto"@, "pool"@);
    lemma_differ_by_len(w, "grotto"@, "stone"@);
    lemma_differ_by_len(w, "grotto"@, "sword"@);
    lemma_differ_by_len(w, "hilltop"@, "cave-mouth"@);
    lemma_differ_by_len(w, "hilltop"@, "cave-1"@);
    lemma_differ_by_len(w, "hilltop"@, "hands"@);
    lemma_differ_by_len(w, "hilltop"@, "note"@);
    lemma_differ_by_len(w, "hilltop"@, "pool"@);
    lemma_differ_by_len(w, "hilltop"@, "stone"@);
    lemma_differ_by_len(w, "hilltop"@, "sword"@);
    lemma_differ_by_len(w, "cave-mouth"@, "cave-1"@);
    lemma_differ_by_len(w, "cave-mouth"@, "hands"@);
    lemma_differ_by_len(w, "cave-mouth"@, "note"@);
    lemma_differ_by_len(w, "cave-mouth"@, "pool"@);
    lemma_differ_by_len(w, "cave-mouth"@, "stone"@);
    lemma_differ_by_len(w, "cave-mouth"@, "sword"@);
    lemma_differ_by_len(w, "cave-1"@, "hands"@);
    lemma_differ_by_len(w, "cave-1"@, "note"@);
    lemma_differ_by_len(w, "cave-1"@, "pool"@);
    lemma_differ_by_len(w, "cave-1"@, "stone"@);
    lemma_differ_by_len(w, "cave-1"@, "sword"@);
    lemma_differ_by_len(w, "hands"@, "note"@);
    lemma_differ_by_len(w, "hands"@, "pool"@);
    lemma_differ_at(w, "hands"@, "stone"@, 0);
    lemma_differ_at(w, "hands"@, "sword"@, 0);
    lemma_differ_at(w, "note"@, "pool"@, 0);
    lemma_differ_by_len(w, "note"@, "stone"@);
    lemma_differ_by_len(w, "note"@, "sword"@);
    lemma_differ_by_len(w, "pool"@, "stone"@);
    lemma_differ_by_len(w, "pool"@, "sword"@);
    lemma_differ_at(w, "stone"@, "sword"@, 1);
    assert forall|x: ID| w.inv_of(w.tag_id("LIMBO"@)).contains(x) <==> Set::<ID>::empty().contains(x) by {
        if w.inv_of(w.tag_id("LIMBO"@)).contains(x) {
            assert(w.inventories@[w.tag_id("LIMBO"@)]@.contains(x));
            assert(the_located(w).contains(x));
        }
    }
    assert(w.inv_of(w.tag_id("LIMBO"@)).to_set() =~= Set::<ID>::empty());
    assert forall|x: ID| w.inv_of(w.tag_id("PLAYER"@)).contains(x) <==> set![w.tag_id("hands"@)].contains(x) by {
        if w.inv_of(w.tag_id("PLAYER"@)).contains(x) {
            assert(w.inventories@[w.tag_id("PLAYER"@)]@.contains(x));
            assert(the_located(w).contains(x));
        }
    }
    assert(w.inv_of(w.tag_id("PLAYER"@)).to_set() =~= set![w.tag_id("hands"@)]);
    assert forall|x: ID| w.inv_of(w.tag_id("clearing"@)).contains(x) <==> set![w.tag_id("PLAYER"@), w.tag_id("note"@)].contains(x) by {
        if w.inv_of(w.tag_id("clearing"@)).contains(x) {
            assert(w.inventories@[w.tag_id("clearing"@)]@.contains(x));
            assert(the_located(w).contains(x));
        }
    }
    assert(w.inv_of(w.tag_id("clearing"@)).to_set() =~= set![w.tag_id("PLAYER"@), w.tag_id("note"@)]);
    assert forall|x: ID| w.inv_of(w.tag_id("grotto"@)).contains(x) <==> set![w.tag_id("pool"@)].contains(x) by {
        if w.inv_of(w.tag_id("grotto"@)).contains(x) {
            assert(w.inventories@[w.tag_id("grotto"@)]@.contains(x));
            assert(the_located(w).contains(x));
        }
    }
    assert(w.inv_of(w.tag_id("grotto"@)).to_set() =~= set![w.tag_id("pool"@)]);
    assert forall|x: ID| w.inv_of(w.tag_id("hilltop"@)).contains(x) <==> set![w.tag_id("stone"@), w.tag_id("sword"@)].contains(x) by {
        if w.inv_of(w.tag_id("hilltop"@)).contains(x) {
            assert(w.inventories@[w.tag_id("hilltop"@)]@.contains(x));
            assert(the_located(w).contains(x));
        }
    }
    assert(w.inv_of(w.tag_id("hilltop"@)).to_set() =~= set![w.tag_id("stone"@), w.tag_id("sword"@)]);
    assert forall|x: ID| w.inv_of(w.tag_id("cave-mouth"@)).contains(x) <==> Set::<ID>::empty().contains(x) by {
        if w.inv_of(w.tag_id("cave-mouth"@)).contains(x) {
            assert(w.inventories@[w.tag_id("cave-mouth"@)]@.contains(x));
            assert(the_located(w).contains(x));
        }
    }
    assert(w.inv_of(w.tag_id("cave-mouth"@)).to_set() =~= Set::<ID>::empty());
    assert forall|x: ID| w.inv_of(w.tag_id("cave-1"@)).contains(x) <==> Set::<ID>::empty().contains(x) by {
        if w.inv_of(w.tag_id("cave-1"@)).contains(x) {
            assert(w.inventories@[w.tag_id("cave-1"@)]@.contains(x));
            assert(the_located(w).contains(x));
        }
    }
    assert(w.inv_of(w.tag_id("cave-1"@)).to_set() =~= Set::<ID>::empty());
}

/// Every way out of a room leads to a room (or is a dead end).
pub open spec fn links_to_rooms(w: &World) -> bool {
    forall|r: ID, d: Dir|
        w.rooms@.contains_key(r) ==> match #[trigger] w.rooms@[r].link(d) {
            Some(LinkDest::Room(dest)) => w.is_room_spec(dest),
            _ => true,
        }
}

/// Every thing that has a location is in that place's inventory.
pub open spec fn places_listed(w: &World) -> bool {
    forall|x: ID| #[trigger]
        w.locations@.contains_key(x) ==> w.inventories@.contains_key(w.loc_of(x)) && w.inv_of(
            w.loc_of(x),
        ).contains(x)
}

/// The rooms of the scenario are the clearing, the grotto, the hilltop, the mouth of
/// the cave, and the cave.
pub open spec fn the_rooms(w: &World) -> Set<ID> {
    set![
        w.tag_id("clearing"@),
        w.tag_id("grotto"@),
        w.tag_id("hilltop"@),
        w.tag_id("cave-mouth"@),
        w.tag_id("cave-1"@)
    ]
}

/// The entities of the scenario that have a location: the player, the hands, the note,
/// the pool, the stone and the sword.
pub open spec fn the_located(w: &World) -> Set<ID> {
    set![
        w.pid,
        w.tag_id("hands"@),
        w.tag_id("note"@),
        w.tag_id("pool"@),
        w.tag_id("stone"@),
        w.tag_id("sword"@)
    ]
}

/// With only the scenario's rooms, every way leads to a room.
proof fn lemma_links_to_rooms(w: &World)
    requires
        scenario_map(w),
        w.rooms@.dom() == the_rooms(w),
    ensures
        links_to_rooms(w),
{
    assert forall|r: ID, d: Dir|
        w.rooms@.contains_key(r) implies match #[trigger] w.rooms@[r].link(d) {
        Some(LinkDest::Room(dest)) => w.is_room_spec(dest),
        _ => true,
    } by {
        assert(the_rooms(w).contains(r));
    }
}

/// With only the scenario's located entities, each is in its place's inventory.
proof fn lemma_places_listed(w: &World)
    requires
        starts_in_clearing(w),
        things_start(w),
        w.locations@.dom() == the_located(w),
    ensures
        places_listed(w),
{
    assert forall|x: ID| #[trigger] w.locations@.contains_key(x) implies w.inventories@.contains_key(
        w.loc_of(x),
    ) && w.inv_of(w.loc_of(x)).contains(x) by {
        assert(the_located(w).contains(x));
    }
}

/// The world as the scenario builds it, at the start of the game: playable, with the
/// player as entity 1, the clock at 0 and the standard verbs; with its well-known
/// tags, its map, the names, descriptions and flags of its rooms, the names,
/// descriptions and flags of the player and the things, its rules and no others, the
/// player in the clearing and the things where they start; which entities have which
/// components; every way leads to a room, every located thing is in its place's
/// inventory, and each inventory holds just what starts there.
pub open spec fn scenario_world(w: &World) -> bool {
    &&& w.playable()
    &&& w.pid == 1
    &&& w.clock == 0
    &&& w.verbs_view() == standard_verbs()
    &&& w.synonyms_view() == standard_synonyms()
    &&& known_tags(w)
    &&& starts_in_clearing(w)
    &&& scenario_map(w)
    &&& things_start(w)
    &&& scenario_rules(w)
    &&& w.rules@.dom() == the_rules(w)
    &&& w.rooms@.dom() == the_rooms(w)
    &&& w.locations@.dom() == the_located(w)
    &&& w.things@.dom() == the_located(w)
    &&& w.players@.dom() == set![w.pid]
    &&& w.proses@.dom() == the_located(w).union(the_rooms(w))
    &&& w.inventories@.dom() == the_rooms(w).insert(LIMBO).insert(w.pid)
    &&& w.flag_sets@.dom() == the_located(w).union(the_rooms(w)).union(the_rules(w))
    &&& rooms_described(w)
    &&& rooms_flagged(w)
    &&& rules_flagged(w)
    &&& things_described(w)
    &&& things_named(w)
    &&& links_to_rooms(w)
    &&& places_listed(w)
    &&& contents_start(w)
}

/// The rules of the scenario: the story, and the rules about the note, the sword, the
/// cave and the player's death.
pub open spec fn scenario_rules(w: &World) -> bool {
    &&& story_rule(w)
    &&& note_rules(w, w.pid, w.tag_id("note"@))
    &&& sword_rules(w, w.pid, w.tag_id("sword"@))
    &&& cave_rules(w, w.pid, w.tag_id("cave-1"@))
    &&& fairy_rule(w)
}

/// The player entity is the one tagged "PLAYER", and LIMBO, entity 0, is tagged
/// "LIMBO".
pub open spec fn known_tags(w: &World) -> bool {
    &&& w.tag_exists("PLAYER"@)
    &&& w.tag_id("PLAYER"@) == w.pid
    &&& w.tag_exists("LIMBO"@)
    &&& w.tag_id("LIMBO"@) == LIMBO
}

/// An entity with a tag other than the player's is not the player.
proof fn lemma_not_player(w: &World, t: Seq<char>)
    requires
        w.wf_tags(),
        known_tags(w),
        w.tag_exists(t),
        t.len() != 6,
    ensures
        w.tag_id(t) != w.pid,
{
    reveal_strlit("PLAYER");
    assert("PLAYER"@.len() == 6);
    lemma_tags_differ(w, t, "PLAYER"@);
}

/// Tags of different lengths name different entities.
proof fn lemma_differ_by_len(w: &World, a: Seq<char>, b: Seq<char>)
    requires
        w.wf_tags(),
        w.tag_exists(a),
        w.tag_exists(b),
        a.len() != b.len(),
    ensures
        w.tag_id(a) != w.tag_id(b),
{
    lemma_tags_differ(w, a, b);
}

/// Tags that differ at a position name different entities.
proof fn lemma_differ_at(w: &World, a: Seq<char>, b: Seq<char>, i: int)
    requires
        w.wf_tags(),
        w.tag_exists(a),
        w.tag_exists(b),
        0 <= i < a.len(),
        0 <= i < b.len(),
        a[i] != b[i],
    ensures
        w.tag_id(a) != w.tag_id(b),
{
    lemma_tags_differ(w, a, b);
}

/// A clause of a prose hook.
fn clause(when: Predicate, text: &str) -> (res: ProseClause)
    ensures
        res.when == when,
        res.text@ == text@,
{
    ProseClause { when, text: to_string(text) }
}

/// Configures the player, and adds the player's hands.
#[verifier::spinoff_prover]
fn add_player(wb: &mut WorldBuilder)
    requires
        old(wb).ok(),
        known_tags(&old(wb).world),
        old(wb).world.flags_of(old(wb).world.pid) == set![FlagView::Scenery],
        old(wb).world.rooms@.dom() == Set::<ID>::empty(),
        old(wb).world.locations@.dom() == set![old(wb).world.pid],
        old(wb).world.rules@.dom() == Set::<ID>::empty(),
        old(wb).world.flag_sets@.dom() == set![old(wb).world.pid],
        named(&old(wb).world, "PLAYER"@, "Yourself"@, "self"@),
        old(wb).world.inventories@.dom() == set![LIMBO, old(wb).world.pid],
        old(wb).world.things@.dom() == set![old(wb).world.pid],
        old(wb).world.proses@.dom() == Set::<ID>::empty(),
        old(wb).world.players@.dom() == set![old(wb).world.pid],
    ensures
        final(wb).ok(),
        kept(&old(wb).world, &final(wb).world),
        final(wb).world.tag_exists("hands"@),
        final(wb).world.has_flags_spec(final(wb).world.tag_id("hands"@)),
        final(wb).world.tag_exists("PLAYER"@),
        final(wb).world.has_flags_spec(final(wb).world.tag_id("PLAYER"@)),
        known_tags(&final(wb).world),
        placed(&final(wb).world, final(wb).world.pid, "clearing"@),
        seen_clearing(&final(wb).world),
        hands_start(&final(wb).world),
        final(wb).world.rooms@.dom() == Set::<ID>::empty(),
        final(wb).world.locations@.dom() == set![final(wb).world.pid, final(wb).world.tag_id("hands"@)],
        player_described(&final(wb).world),
        hands_described(&final(wb).world),
        final(wb).world.rules@.dom() == Set::<ID>::empty(),
        final(wb).world.flag_sets@.dom() == set![final(wb).world.pid, final(wb).world.tag_id("hands"@)],
        named(&final(wb).world, "PLAYER"@, "Yourself"@, "self"@),
        named(&final(wb).world, "hands"@, "hands"@, "hands"@),
        flagged(&final(wb).world, "hands"@, set![FlagView::Scenery, FlagView::User("DIRTY"@)]),
        final(wb).world.inventories@.dom() == set![LIMBO, final(wb).world.pid, final(wb).world.tag_id("clearing"@)],
        final(wb).world.things@.dom() == set![final(wb).world.pid, final(wb).world.tag_id("hands"@)],
        final(wb).world.proses@.dom() == set![final(wb).world.pid, final(wb).world.tag_id("hands"@)],
        final(wb).world.players@.dom() == set![final(wb).world.pid],
{
    // NEXT, configure the player
    wb.player().location("clearing").prose("You've got all the usual bits.");
    let ghost w1 = wb.world;
    assert(w1.flags_of(w1.pid) =~= set![
        FlagView::Scenery,
        FlagView::Seen(w1.tag_id("clearing"@))
    ]);

    // The player's hands.
    let mut clauses: Vec<ProseClause> = Vec::new();
    clauses.push(
        clause(
            Predicate::Has("hands", dirty()),
            HANDS_DIRTY,
        ),
    );
    clauses.push(
        clause(Predicate::Not(Box::new(Predicate::Has("hands", dirty()))), "Fresh and clean."),
    );
    let examine_hands = ProseHook::new(clauses);
    let mut clauses: Vec<ProseClause> = Vec::new();
    clauses.push(clause(Predicate::Has("hands", dirty()), "Your hands are kind of dirty, though."));
    let hands_scenery = ProseHook::new(clauses);
    proof {
        let dirty = Predicate::Has("hands", Flag::User("DIRTY"));
        assert(says(examine_hands.clauses@[0], dirty, HANDS_DIRTY@));
        assert(says(examine_hands.clauses@[1], Predicate::Not(Box::new(dirty)), "Fresh and clean."@));
        assert(says(hands_scenery.clauses@[0], dirty, "Your hands are kind of dirty, though."@));
    }
    let fb = wb.feature("hands", "hands", "hands");
    proof {
        reveal_strlit("hands");
        reveal_strlit("PLAYER");
        assert("hands"@.len() == 5);
        assert("PLAYER"@.len() == 6);
        lemma_tags_differ(&fb.wb.world, "hands"@, "PLAYER"@);
        assert(placed(&fb.wb.world, w1.pid, "clearing"@));
    }
    let lb = fb.location(PLAYER);
    assert(placed(&lb.wb.world, w1.pid, "clearing"@));
    let tb = lb.flag(dirty());
    assert(placed(&tb.wb.world, w1.pid, "clearing"@));
    proof {
        let w = tb.wb.world;
        assert(w.pred_ok(Predicate::Has("hands", Flag::User("DIRTY"))));
        assert(w.pred_ok(Predicate::Not(Box::new(Predicate::Has("hands", Flag::User("DIRTY"))))));
        assert(examine_hands.clauses@.len() == 2);
        assert(hands_scenery.clauses@.len() == 1);
    }
    tb.prose_hook(examine_hands).scenery_hook(hands_scenery);

}

/// Adds the rule that tells the beginning of the story.
#[verifier::spinoff_prover]
fn add_story(wb: &mut WorldBuilder)
    requires
        old(wb).ok(),
        known_tags(&old(wb).world),
        placed(&old(wb).world, old(wb).world.pid, "clearing"@),
        hands_start(&old(wb).world),
        seen_clearing(&old(wb).world),
        old(wb).world.rooms@.dom() == Set::<ID>::empty(),
        old(wb).world.locations@.dom() == set![old(wb).world.pid, old(wb).world.tag_id("hands"@)],
        player_described(&old(wb).world),
        hands_described(&old(wb).world),
        old(wb).world.rules@.dom() == Set::<ID>::empty(),
        old(wb).world.flag_sets@.dom() == set![old(wb).world.pid, old(wb).world.tag_id("hands"@)],
        named(&old(wb).world, "PLAYER"@, "Yourself"@, "self"@),
        named(&old(wb).world, "hands"@, "hands"@, "hands"@),
        flagged(&old(wb).world, "hands"@, set![FlagView::Scenery, FlagView::User("DIRTY"@)]),
        old(wb).world.inventories@.dom() == set![LIMBO, old(wb).world.pid, old(wb).world.tag_id("clearing"@)],
        old(wb).world.things@.dom() == set![old(wb).world.pid, old(wb).world.tag_id("hands"@)],
        old(wb).world.proses@.dom() == set![old(wb).world.pid, old(wb).world.tag_id("hands"@)],
        old(wb).world.players@.dom() == set![old(wb).world.pid],
    ensures
        final(wb).ok(),
        kept(&old(wb).world, &final(wb).world),
        known_tags(&final(wb).world),
        placed(&final(wb).world, final(wb).world.pid, "clearing"@),
        hands_start(&final(wb).world),
        story_rule(&final(wb).world),
        seen_clearing(&final(wb).world),
        final(wb).world.rooms@.dom() == Set::<ID>::empty(),
        final(wb).world.locations@.dom() == set![final(wb).world.pid, final(wb).world.tag_id("hands"@)],
        player_described(&final(wb).world),
        hands_described(&final(wb).world),
        final(wb).world.rules@.dom() == set![final(wb).world.tag_id("rule-story-1"@)],
        final(wb).world.flag_sets@.dom() == set![final(wb).world.pid, final(wb).world.tag_id("hands"@), final(wb).world.tag_id("rule-story-1"@)],
        named(&final(wb).world, "PLAYER"@, "Yourself"@, "self"@),
        named(&final(wb).world, "hands"@, "hands"@, "hands"@),
        flagged(&final(wb).world, "hands"@, set![FlagView::Scenery, FlagView::User("DIRTY"@)]),
        final(wb).world.inventories@.dom() == set![LIMBO, final(wb).world.pid, final(wb).world.tag_id("clearing"@)],
        final(wb).world.things@.dom() == set![final(wb).world.pid, final(wb).world.tag_id("hands"@)],
        final(wb).world.proses@.dom() == set![final(wb).world.pid, final(wb).world.tag_id("hands"@)],
        final(wb).world.players@.dom() == set![final(wb).world.pid],
        flagged(&final(wb).world, "rule-story-1"@, Set::empty()),
{
    // Rule: Story 1
    let rb = wb.rule("rule-story-1");
    proof {
        reveal_strlit("rule-story-1");
        reveal_strlit("PLAYER");
        reveal_strlit("hands");
        lemma_differ_by_len(&rb.wb.world, "rule-story-1"@, "PLAYER"@);
        lemma_differ_by_len(&rb.wb.world, "rule-story-1"@, "hands"@);
    }
    rb.when(Predicate::ClockIs(0)).print(STORY);
}

/// Adds the clearing, and the note that is found there.
#[verifier::spinoff_prover]
#[verifier::rlimit(40)]
fn add_clearing(wb: &mut WorldBuilder) -> (note: ID)
    requires
        old(wb).ok(),
        known_tags(&old(wb).world),
        placed(&old(wb).world, old(wb).world.pid, "clearing"@),
        hands_start(&old(wb).world),
        seen_clearing(&old(wb).world),
        story_rule(&old(wb).world),
        old(wb).world.rooms@.dom() == Set::<ID>::empty(),
        old(wb).world.locations@.dom() == set![old(wb).world.pid, old(wb).world.tag_id("hands"@)],
        player_described(&old(wb).world),
        hands_described(&old(wb).world),
        old(wb).world.rules@.dom() == set![old(wb).world.tag_id("rule-story-1"@)],
        old(wb).world.flag_sets@.dom() == set![old(wb).world.pid, old(wb).world.tag_id("hands"@), old(wb).world.tag_id("rule-story-1"@)],
        named(&old(wb).world, "PLAYER"@, "Yourself"@, "self"@),
        named(&old(wb).world, "hands"@, "hands"@, "hands"@),
        flagged(&old(wb).world, "hands"@, set![FlagView::Scenery, FlagView::User("DIRTY"@)]),
        old(wb).world.inventories@.dom() == set![LIMBO, old(wb).world.pid, old(wb).world.tag_id("clearing"@)],
        old(wb).world.things@.dom() == set![old(wb).world.pid, old(wb).world.tag_id("hands"@)],
        old(wb).world.proses@.dom() == set![old(wb).world.pid, old(wb).world.tag_id("hands"@)],
        old(wb).world.players@.dom() == set![old(wb).world.pid],
        flagged(&old(wb).world, "rule-story-1"@, Set::empty()),
    ensures
        final(wb).ok(),
        kept(&old(wb).world, &final(wb).world),
        known_tags(&final(wb).world),
        starts_in_clearing(&final(wb).world),
        hands_start(&final(wb).world),
        note_starts(&final(wb).world),
        clearing_ways(&final(wb).world),
        final(wb).world.tag_exists("note"@),
        final(wb).world.has_flags_spec(final(wb).world.tag_id("note"@)),
        note == final(wb).world.tag_id("note"@),
        story_rule(&final(wb).world),
        final(wb).world.rooms@.dom() == set![final(wb).world.tag_id("clearing"@)],
        final(wb).world.locations@.dom() == set![final(wb).world.pid, final(wb).world.tag_id("hands"@), final(wb).world.tag_id("note"@)],
        clearing_described(&final(wb).world),
        player_described(&final(wb).world),
        hands_described(&final(wb).world),
        note_described(&final(wb).world),
        final(wb).world.rules@.dom() == set![final(wb).world.tag_id("rule-story-1"@)],
        final(wb).world.flag_sets@.dom() == set![final(wb).world.pid, final(wb).world.tag_id("hands"@), final(wb).world.tag_id("rule-story-1"@), final(wb).world.tag_id("clearing"@), final(wb).world.tag_id("note"@)],
        named(&final(wb).world, "PLAYER"@, "Yourself"@, "self"@),
        named(&final(wb).world, "hands"@, "hands"@, "hands"@),
        flagged(&final(wb).world, "hands"@, set![FlagView::Scenery, FlagView::User("DIRTY"@)]),
        flagged(&final(wb).world, "clearing"@, Set::empty()),
        named(&final(wb).world, "note"@, "note"@, "note"@),
        flagged(&final(wb).world, "note"@, Set::empty()),
        final(wb).world.inventories@.dom() == set![LIMBO, final(wb).world.pid, final(wb).world.tag_id("clearing"@)],
        final(wb).world.things@.dom() == set![final(wb).world.pid, final(wb).world.tag_id("hands"@), final(wb).world.tag_id("note"@)],
        final(wb).world.proses@.dom() == set![final(wb).world.pid, final(wb).world.tag_id("hands"@), final(wb).world.tag_id("clearing"@), final(wb).world.tag_id("note"@)],
        final(wb).world.players@.dom() == set![final(wb).world.pid],
        flagged(&final(wb).world, "rule-story-1"@, Set::empty()),
{
    proof {
        reveal_strlit("clearing");
        reveal_strlit("rule-story-1");
        lemma_differ_by_len(&wb.world, "clearing"@, "rule-story-1"@);
    }
    proof {
        reveal_strlit("clearing");
        reveal_strlit("PLAYER");
        reveal_strlit("hands");
        lemma_differ_by_len(&wb.world, "clearing"@, "PLAYER"@);
        lemma_differ_by_len(&wb.world, "clearing"@, "hands"@);
    }
    // Room: Clearing
    wb.room("clearing", "A Dreary Clearing").prose(CLEARING).dead_end(Dir::North, "\
You feel a chill as you approach the edge of the clearing, and after a few more steps are
overcome with a vague but horrifying sense of deja vu.  You don't remember
what's back under the trees to the north, but you're pretty sure you didn't like it
and that you don't want to go find it again.
        ").link(Dir::East, "grotto").link(Dir::South, "hilltop");
    assert(starts_in_clearing(&wb.world));
    assert(clearing_ways(&wb.world));
    assert(clearing_described(&wb.world));
    assert(player_described(&wb.world));
    assert(hands_described(&wb.world));
    assert(hands_start(&wb.world));

    // Thing: A ransom note, found in the clearing
    let mut clauses: Vec<ProseClause> = Vec::new();
    clauses.push(clause(Predicate::Always, "A note, on plain paper."));
    clauses.push(
        clause(
            Predicate::Has("note", dirty()),
            "It looks pretty grubby; someone's been mishandling it.",
        ),
    );
    let examine_note = ProseHook::new(clauses);
    let nb = wb.thing("note", "note", "note");
    proof {
        reveal_strlit("note");
        reveal_strlit("PLAYER");
        assert("note"@.len() == 4);
        assert("PLAYER"@.len() == 6);
        lemma_tags_differ(&nb.wb.world, "note"@, "PLAYER"@);
        reveal_strlit("note");
        reveal_strlit("rule-story-1");
        lemma_differ_by_len(&nb.wb.world, "note"@, "rule-story-1"@);
        assert(starts_in_clearing(&nb.wb.world));
        assert(clearing_described(&nb.wb.world));
        assert(player_described(&nb.wb.world));
        assert(hands_described(&nb.wb.world));
        reveal_strlit("hands");
        lemma_differ_by_len(&nb.wb.world, "note"@, "hands"@);
        reveal_strlit("clearing");
        lemma_differ_by_len(&nb.wb.world, "note"@, "clearing"@);
        assert(hands_start(&nb.wb.world));
    }
    let tb = nb.location("clearing");
    let note = tb.id;
    assert(starts_in_clearing(&tb.wb.world));
    assert(clearing_described(&tb.wb.world));
    assert(player_described(&tb.wb.world));
    assert(hands_described(&tb.wb.world));
    assert(hands_start(&tb.wb.world));
    assert(note_starts(&tb.wb.world));
    proof {
        let w = tb.wb.world;
        assert(w.pred_ok(Predicate::Has("note", Flag::User("DIRTY"))));
        assert(examine_note.clauses@.len() == 2);
    }
    let hb = tb.prose_hook(examine_note);
    assert(clearing_described(&hb.wb.world));
    assert(player_described(&hb.wb.world));
    assert(hands_described(&hb.wb.world));
    hb.book_prose(NOTE_BOOK);

    note
}

/// Adds the rules about the note.
#[verifier::spinoff_prover]
fn add_note_rules(wb: &mut WorldBuilder, pid: ID, note: ID)
    requires
        old(wb).ok(),
        old(wb).world.tag_exists("note"@),
        old(wb).world.has_flags_spec(old(wb).world.tag_id("note"@)),
        old(wb).world.tag_exists("hands"@),
        old(wb).world.has_flags_spec(old(wb).world.tag_id("hands"@)),
        known_tags(&old(wb).world),
        starts_in_clearing(&old(wb).world),
        clearing_ways(&old(wb).world),
        hands_start(&old(wb).world),
        note_starts(&old(wb).world),
        story_rule(&old(wb).world),
        old(wb).world.rooms@.dom() == set![old(wb).world.tag_id("clearing"@)],
        old(wb).world.locations@.dom() == set![old(wb).world.pid, old(wb).world.tag_id("hands"@), old(wb).world.tag_id("note"@)],
        clearing_described(&old(wb).world),
        player_described(&old(wb).world),
        hands_described(&old(wb).world),
        note_described(&old(wb).world),
        old(wb).world.rules@.dom() == set![old(wb).world.tag_id("rule-story-1"@)],
        old(wb).world.flag_sets@.dom() == set![old(wb).world.pid, old(wb).world.tag_id("hands"@), old(wb).world.tag_id("rule-story-1"@), old(wb).world.tag_id("clearing"@), old(wb).world.tag_id("note"@)],
        named(&old(wb).world, "PLAYER"@, "Yourself"@, "self"@),
        named(&old(wb).world, "hands"@, "hands"@, "hands"@),
        flagged(&old(wb).world, "hands"@, set![FlagView::Scenery, FlagView::User("DIRTY"@)]),
        flagged(&old(wb).world, "clearing"@, Set::empty()),
        named(&old(wb).world, "note"@, "note"@, "note"@),
        flagged(&old(wb).world, "note"@, Set::empty()),
        old(wb).world.inventories@.dom() == set![LIMBO, old(wb).world.pid, old(wb).world.tag_id("clearing"@)],
        old(wb).world.things@.dom() == set![old(wb).world.pid, old(wb).world.tag_id("hands"@), old(wb).world.tag_id("note"@)],
        old(wb).world.proses@.dom() == set![old(wb).world.pid, old(wb).world.tag_id("hands"@), old(wb).world.tag_id("clearing"@), old(wb).world.tag_id("note"@)],
        old(wb).world.players@.dom() == set![old(wb).world.pid],
        flagged(&old(wb).world, "rule-story-1"@, Set::empty()),
    ensures
        final(wb).ok(),
        kept(&old(wb).world, &final(wb).world),
        known_tags(&final(wb).world),
        starts_in_clearing(&final(wb).world),
        hands_start(&final(wb).world),
        note_starts(&final(wb).world),
        clearing_ways(&final(wb).world),
        note_rules(&final(wb).world, pid, note),
        story_rule(&final(wb).world),
        final(wb).world.rooms@.dom() == set![final(wb).world.tag_id("clearing"@)],
        final(wb).world.locations@.dom() == set![final(wb).world.pid, final(wb).world.tag_id("hands"@), final(wb).world.tag_id("note"@)],
        clearing_described(&final(wb).world),
        player_described(&final(wb).world),
        hands_described(&final(wb).world),
        note_described(&final(wb).world),
        final(wb).world.rules@.dom() == set![final(wb).world.tag_id("rule-story-1"@), final(wb).world.tag_id("guard-read-note"@), final(wb).world.tag_id("rule-dirty-note"@)],
        final(wb).world.flag_sets@.dom() == set![final(wb).world.pid, final(wb).world.tag_id("hands"@), final(wb).world.tag_id("rule-story-1"@), final(wb).world.tag_id("clearing"@), final(wb).world.tag_id("note"@), final(wb).world.tag_id("guard-read-note"@), final(wb).world.tag_id("rule-dirty-note"@)],
        named(&final(wb).world, "PLAYER"@, "Yourself"@, "self"@),
        named(&final(wb).world, "hands"@, "hands"@, "hands"@),
        flagged(&final(wb).world, "hands"@, set![FlagView::Scenery, FlagView::User("DIRTY"@)]),
        flagged(&final(wb).world, "clearing"@, Set::empty()),
        named(&final(wb).world, "note"@, "note"@, "note"@),
        flagged(&final(wb).world, "note"@, Set::empty()),
        final(wb).world.inventories@.dom() == set![LIMBO, final(wb).world.pid, final(wb).world.tag_id("clearing"@)],
        final(wb).world.things@.dom() == set![final(wb).world.pid, final(wb).world.tag_id("hands"@), final(wb).world.tag_id("note"@)],
        final(wb).world.proses@.dom() == set![final(wb).world.pid, final(wb).world.tag_id("hands"@), final(wb).world.tag_id("clearing"@), final(wb).world.tag_id("note"@)],
        final(wb).world.players@.dom() == set![final(wb).world.pid],
        flagged(&final(wb).world, "rule-story-1"@, Set::empty()),
        flagged(&final(wb).world, "guard-read-note"@, Set::empty()),
        flagged(&final(wb).world, "rule-dirty-note"@, Set::empty()),
{
    // You can't read the note if it's dirty.
    let tb = wb.allow("guard-read-note", Event::ReadThing(pid, note));
    proof {
        reveal_strlit("guard-read-note");
        reveal_strlit("PLAYER");
        reveal_strlit("hands");
        reveal_strlit("rule-story-1");
        reveal_strlit("clearing");
        reveal_strlit("note");
        lemma_differ_by_len(&tb.wb.world, "guard-read-note"@, "PLAYER"@);
        lemma_differ_by_len(&tb.wb.world, "guard-read-note"@, "hands"@);
        lemma_differ_by_len(&tb.wb.world, "guard-read-note"@, "rule-story-1"@);
        lemma_differ_by_len(&tb.wb.world, "guard-read-note"@, "clearing"@);
        lemma_differ_by_len(&tb.wb.world, "guard-read-note"@, "note"@);
        let w = tb.wb.world;
        assert(w.pred_ok(Predicate::Has("note", Flag::User("DIRTY"))));
        reveal_strlit("guard-read-note");
        reveal_strlit("rule-story-1");
        lemma_differ_by_len(&w, "guard-read-note"@, "rule-story-1"@);
        assert(story_rule(&w));
    }
    tb.when(Predicate::Has("note", dirty())).print("You've gotten it too dirty to read.");
    assert(story_rule(&wb.world));

    // The note gets dirty if the player picks it up with dirty hands.
    let rb = wb.rule("rule-dirty-note");
    proof {
        reveal_strlit("rule-dirty-note");
        reveal_strlit("PLAYER");
        reveal_strlit("hands");
        reveal_strlit("rule-story-1");
        reveal_strlit("clearing");
        reveal_strlit("note");
        reveal_strlit("guard-read-note");
        lemma_differ_by_len(&rb.wb.world, "rule-dirty-note"@, "PLAYER"@);
        lemma_differ_by_len(&rb.wb.world, "rule-dirty-note"@, "hands"@);
        lemma_differ_by_len(&rb.wb.world, "rule-dirty-note"@, "rule-story-1"@);
        lemma_differ_by_len(&rb.wb.world, "rule-dirty-note"@, "clearing"@);
        lemma_differ_by_len(&rb.wb.world, "rule-dirty-note"@, "note"@);
        lemma_differ_at(&rb.wb.world, "rule-dirty-note"@, "guard-read-note"@, 0);
        reveal_strlit("guard-read-note");
        reveal_strlit("rule-dirty-note");
        lemma_differ_at(&rb.wb.world, "guard-read-note"@, "rule-dirty-note"@, 0);
        reveal_strlit("rule-story-1");
        lemma_differ_by_len(&rb.wb.world, "rule-dirty-note"@, "rule-story-1"@);
        assert(story_rule(&rb.wb.world));
    }
    let tb = rb.on(Event::GetThing(pid, note));
    let when = Predicate::And(
        Box::new(Predicate::Has("hands", dirty())),
        Box::new(Predicate::Not(Box::new(Predicate::Has("note", dirty())))),
    );
    proof {
        let w = tb.wb.world;
        assert(w.pred_ok(Predicate::Has("note", Flag::User("DIRTY"))));
        assert(w.pred_ok(Predicate::Has("hands", Flag::User("DIRTY"))));
        assert(w.pred_ok(Predicate::Not(Box::new(Predicate::Has("note", Flag::User("DIRTY"))))));
    }
    tb.when(when).print("The dirt from your hands got all over the note.").set_flag(
        "note",
        dirty(),
    );

}

/// Adds the grotto and its pool.
#[verifier::spinoff_prover]
#[verifier::rlimit(60)]
fn add_grotto(wb: &mut WorldBuilder)
    requires
        old(wb).ok(),
        known_tags(&old(wb).world),
        starts_in_clearing(&old(wb).world),
        clearing_ways(&old(wb).world),
        hands_start(&old(wb).world),
        note_starts(&old(wb).world),
        story_rule(&old(wb).world),
        note_rules(&old(wb).world, old(wb).world.pid, old(wb).world.tag_id("note"@)),
        old(wb).world.rooms@.dom() == set![old(wb).world.tag_id("clearing"@)],
        old(wb).world.locations@.dom() == set![old(wb).world.pid, old(wb).world.tag_id("hands"@), old(wb).world.tag_id("note"@)],
        clearing_described(&old(wb).world),
        player_described(&old(wb).world),
        hands_described(&old(wb).world),
        note_described(&old(wb).world),
        old(wb).world.rules@.dom() == set![old(wb).world.tag_id("rule-story-1"@), old(wb).world.tag_id("guard-read-note"@), old(wb).world.tag_id("rule-dirty-note"@)],
        old(wb).world.flag_sets@.dom() == set![old(wb).world.pid, old(wb).world.tag_id("hands"@), old(wb).world.tag_id("rule-story-1"@), old(wb).world.tag_id("clearing"@), old(wb).world.tag_id("note"@), old(wb).world.tag_id("guard-read-note"@), old(wb).world.tag_id("rule-dirty-note"@)],
        named(&old(wb).world, "PLAYER"@, "Yourself"@, "self"@),
        named(&old(wb).world, "hands"@, "hands"@, "hands"@),
        flagged(&old(wb).world, "hands"@, set![FlagView::Scenery, FlagView::User("DIRTY"@)]),
        flagged(&old(wb).world, "clearing"@, Set::empty()),
        named(&old(wb).world, "note"@, "note"@, "note"@),
        flagged(&old(wb).world, "note"@, Set::empty()),
        old(wb).world.inventories@.dom() == set![LIMBO, old(wb).world.pid, old(wb).world.tag_id("clearing"@)],
        old(wb).world.things@.dom() == set![old(wb).world.pid, old(wb).world.tag_id("hands"@), old(wb).world.tag_id("note"@)],
        old(wb).world.proses@.dom() == set![old(wb).world.pid, old(wb).world.tag_id("hands"@), old(wb).world.tag_id("clearing"@), old(wb).world.tag_id("note"@)],
        old(wb).world.players@.dom() == set![old(wb).world.pid],
        flagged(&old(wb).world, "rule-story-1"@, Set::empty()),
        flagged(&old(wb).world, "guard-read-note"@, Set::empty()),
        flagged(&old(wb).world, "rule-dirty-note"@, Set::empty()),
    ensures
        final(wb).ok(),
        kept(&old(wb).world, &final(wb).world),
        known_tags(&final(wb).world),
        starts_in_clearing(&final(wb).world),
        hands_start(&final(wb).world),
        note_starts(&final(wb).world),
        pool_starts(&final(wb).world),
        clearing_ways(&final(wb).world),
        grotto_ways(&final(wb).world),
        story_rule(&final(wb).world),
        note_rules(&final(wb).world, final(wb).world.pid, final(wb).world.tag_id("note"@)),
        final(wb).world.rooms@.dom() == set![final(wb).world.tag_id("clearing"@), final(wb).world.tag_id("grotto"@)],
        final(wb).world.locations@.dom() == set![final(wb).world.pid, final(wb).world.tag_id("hands"@), final(wb).world.tag_id("note"@), final(wb).world.tag_id("pool"@)],
        clearing_described(&final(wb).world),
        grotto_described(&final(wb).world),
        player_described(&final(wb).world),
        hands_described(&final(wb).world),
        note_described(&final(wb).world),
        pool_described(&final(wb).world),
        final(wb).world.rules@.dom() == set![final(wb).world.tag_id("rule-story-1"@), final(wb).world.tag_id("guard-read-note"@), final(wb).world.tag_id("rule-dirty-note"@)],
        final(wb).world.flag_sets@.dom() == set![final(wb).world.pid, final(wb).world.tag_id("hands"@), final(wb).world.tag_id("rule-story-1"@), final(wb).world.tag_id("clearing"@), final(wb).world.tag_id("note"@), final(wb).world.tag_id("guard-read-note"@), final(wb).world.tag_id("rule-dirty-note"@), final(wb).world.tag_id("grotto"@), final(wb).world.tag_id("pool"@)],
        named(&final(wb).world, "PLAYER"@, "Yourself"@, "self"@),
        named(&final(wb).world, "hands"@, "hands"@, "hands"@),
        flagged(&final(wb).world, "hands"@, set![FlagView::Scenery, FlagView::User("DIRTY"@)]),
        flagged(&final(wb).world, "clearing"@, Set::empty()),
        named(&final(wb).world, "note"@, "note"@, "note"@),
        flagged(&final(wb).world, "note"@, Set::empty()),
        flagged(&final(wb).world, "grotto"@, set![FlagView::User("HAS_WATER"@)]),
        named(&final(wb).world, "pool"@, "pool"@, "pool"@),
        flagged(&final(wb).world, "pool"@, set![FlagView::Scenery]),
        final(wb).world.inventories@.dom() == set![LIMBO, final(wb).world.pid, final(wb).world.tag_id("clearing"@), final(wb).world.tag_id("grotto"@)],
        final(wb).world.things@.dom() == set![final(wb).world.pid, final(wb).world.tag_id("hands"@), final(wb).world.tag_id("note"@), final(wb).world.tag_id("pool"@)],
        final(wb).world.proses@.dom() == set![final(wb).world.pid, final(wb).world.tag_id("hands"@), final(wb).world.tag_id("clearing"@), final(wb).world.tag_id("note"@), final(wb).world.tag_id("grotto"@), final(wb).world.tag_id("pool"@)],
        final(wb).world.players@.dom() == set![final(wb).world.pid],
        flagged(&final(wb).world, "rule-story-1"@, Set::empty()),
        flagged(&final(wb).world, "guard-read-note"@, Set::empty()),
        flagged(&final(wb).world, "rule-dirty-note"@, Set::empty()),
{
    proof {
        reveal_strlit("grotto");
        reveal_strlit("rule-story-1");
        reveal_strlit("guard-read-note");
        reveal_strlit("rule-dirty-note");
        lemma_differ_by_len(&wb.world, "grotto"@, "rule-story-1"@);
        lemma_differ_by_len(&wb.world, "grotto"@, "guard-read-note"@);
        lemma_differ_by_len(&wb.world, "grotto"@, "rule-dirty-note"@);
    }
    proof {
        reveal_strlit("grotto");
        reveal_strlit("PLAYER");
        reveal_strlit("hands");
        reveal_strlit("note");
        lemma_differ_at(&wb.world, "grotto"@, "PLAYER"@, 0);
        lemma_differ_by_len(&wb.world, "grotto"@, "hands"@);
        lemma_differ_by_len(&wb.world, "grotto"@, "note"@);
    }
    // Room: Grotto
    let rb = wb.room("grotto", "A Grotto in the Woods");
    proof {
        reveal_strlit("grotto");
        reveal_strlit("clearing");
        lemma_differ_by_len(&rb.wb.world, "grotto"@, "clearing"@);
        assert(clearing_ways(&rb.wb.world));
        reveal_strlit("PLAYER");
        lemma_differ_at(&rb.wb.world, "grotto"@, "PLAYER"@, 0);
    }
    rb.link(Dir::West, "clearing").prose(GROTTO).flag(has_water());
    assert(starts_in_clearing(&wb.world));
    assert(clearing_ways(&wb.world));
    assert(clearing_described(&wb.world));
    assert(player_described(&wb.world));
    assert(hands_described(&wb.world));
    assert(note_described(&wb.world));
    assert(grotto_ways(&wb.world));
    assert(hands_start(&wb.world));
    assert(note_starts(&wb.world));

    // Feature: Pool, a pool in the Grotto
    let fb = wb.feature("pool", "pool", "pool");
    proof {
        reveal_strlit("pool");
        lemma_not_player(&fb.wb.world, "pool"@);
        reveal_strlit("pool");
        reveal_strlit("rule-story-1");
        reveal_strlit("guard-read-note");
        reveal_strlit("rule-dirty-note");
        lemma_differ_by_len(&fb.wb.world, "pool"@, "rule-story-1"@);
        lemma_differ_by_len(&fb.wb.world, "pool"@, "guard-read-note"@);
        lemma_differ_by_len(&fb.wb.world, "pool"@, "rule-dirty-note"@);
        assert(starts_in_clearing(&fb.wb.world));
        assert(clearing_described(&fb.wb.world));
        assert(player_described(&fb.wb.world));
        assert(hands_described(&fb.wb.world));
        assert(note_described(&fb.wb.world));
        reveal_strlit("hands");
        reveal_strlit("note");
        lemma_differ_by_len(&fb.wb.world, "pool"@, "hands"@);
        lemma_differ_at(&fb.wb.world, "pool"@, "note"@, 0);
        reveal_strlit("clearing");
        reveal_strlit("grotto");
        lemma_differ_by_len(&fb.wb.world, "pool"@, "clearing"@);
        lemma_differ_by_len(&fb.wb.world, "pool"@, "grotto"@);
        assert(hands_start(&fb.wb.world));
        assert(note_starts(&fb.wb.world));
    }
    let lb = fb.location("grotto");
    assert(starts_in_clearing(&lb.wb.world));
    assert(clearing_described(&lb.wb.world));
    assert(player_described(&lb.wb.world));
    assert(hands_described(&lb.wb.world));
    assert(note_described(&lb.wb.world));
    assert(hands_start(&lb.wb.world));
    assert(note_starts(&lb.wb.world));
    assert(pool_starts(&lb.wb.world));
    lb.prose(POOL);

}

/// Adds the hilltop.
#[verifier::spinoff_prover]
fn add_hilltop(wb: &mut WorldBuilder)
    requires
        old(wb).ok(),
        known_tags(&old(wb).world),
        starts_in_clearing(&old(wb).world),
        clearing_ways(&old(wb).world),
        grotto_ways(&old(wb).world),
        hands_start(&old(wb).world),
        note_starts(&old(wb).world),
        pool_starts(&old(wb).world),
        story_rule(&old(wb).world),
        note_rules(&old(wb).world, old(wb).world.pid, old(wb).world.tag_id("note"@)),
        old(wb).world.rooms@.dom() == set![old(wb).world.tag_id("clearing"@), old(wb).world.tag_id("grotto"@)],
        old(wb).world.locations@.dom() == set![old(wb).world.pid, old(wb).world.tag_id("hands"@), old(wb).world.tag_id("note"@), old(wb).world.tag_id("pool"@)],
        clearing_described(&old(wb).world),
        grotto_described(&old(wb).world),
        player_described(&old(wb).world),
        hands_described(&old(wb).world),
        note_described(&old(wb).world),
        pool_described(&old(wb).world),
        old(wb).world.rules@.dom() == set![old(wb).world.tag_id("rule-story-1"@), old(wb).world.tag_id("guard-read-note"@), old(wb).world.tag_id("rule-dirty-note"@)],
        old(wb).world.flag_sets@.dom() == set![old(wb).world.pid, old(wb).world.tag_id("hands"@), old(wb).world.tag_id("rule-story-1"@), old(wb).world.tag_id("clearing"@), old(wb).world.tag_id("note"@), old(wb).world.tag_id("guard-read-note"@), old(wb).world.tag_id("rule-dirty-note"@), old(wb).world.tag_id("grotto"@), old(wb).world.tag_id("pool"@)],
        named(&old(wb).world, "PLAYER"@, "Yourself"@, "self"@),
        named(&old(wb).world, "hands"@, "hands"@, "hands"@),
        flagged(&old(wb).world, "hands"@, set![FlagView::Scenery, FlagView::User("DIRTY"@)]),
        flagged(&old(wb).world, "clearing"@, Set::empty()),
        named(&old(wb).world, "note"@, "note"@, "note"@),
        flagged(&old(wb).world, "note"@, Set::empty()),
        flagged(&old(wb).world, "grotto"@, set![FlagView::User("HAS_WATER"@)]),
        named(&old(wb).world, "pool"@, "pool"@, "pool"@),
        flagged(&old(wb).world, "pool"@, set![FlagView::Scenery]),
        old(wb).world.inventories@.dom() == set![LIMBO, old(wb).world.pid, old(wb).world.tag_id("clearing"@), old(wb).world.tag_id("grotto"@)],
        old(wb).world.things@.dom() == set![old(wb).world.pid, old(wb).world.tag_id("hands"@), old(wb).world.tag_id("note"@), old(wb).world.tag_id("pool"@)],
        old(wb).world.proses@.dom() == set![old(wb).world.pid, old(wb).world.tag_id("hands"@), old(wb).world.tag_id("clearing"@), old(wb).world.tag_id("note"@), old(wb).world.tag_id("grotto"@), old(wb).world.tag_id("pool"@)],
        old(wb).world.players@.dom() == set![old(wb).world.pid],
        flagged(&old(wb).world, "rule-story-1"@, Set::empty()),
        flagged(&old(wb).world, "guard-read-note"@, Set::empty()),
        flagged(&old(wb).world, "rule-dirty-note"@, Set::empty()),
    ensures
        final(wb).ok(),
        kept(&old(wb).world, &final(wb).world),
        known_tags(&final(wb).world),
        starts_in_clearing(&final(wb).world),
        hands_start(&final(wb).world),
        note_starts(&final(wb).world),
        pool_starts(&final(wb).world),
        open_air_ways(&final(wb).world),
        story_rule(&final(wb).world),
        note_rules(&final(wb).world, final(wb).world.pid, final(wb).world.tag_id("note"@)),
        final(wb).world.rooms@.dom() == set![final(wb).world.tag_id("clearing"@), final(wb).world.tag_id("grotto"@), final(wb).world.tag_id("hilltop"@)],
        final(wb).world.locations@.dom() == set![final(wb).world.pid, final(wb).world.tag_id("hands"@), final(wb).world.tag_id("note"@), final(wb).world.tag_id("pool"@)],
        clearing_described(&final(wb).world),
        grotto_described(&final(wb).world),
        hilltop_described(&final(wb).world),
        player_described(&final(wb).world),
        hands_described(&final(wb).world),
        note_described(&final(wb).world),
        pool_described(&final(wb).world),
        final(wb).world.rules@.dom() == set![final(wb).world.tag_id("rule-story-1"@), final(wb).world.tag_id("guard-read-note"@), final(wb).world.tag_id("rule-dirty-note"@)],
        final(wb).world.flag_sets@.dom() == set![final(wb).world.pid, final(wb).world.tag_id("hands"@), final(wb).world.tag_id("rule-story-1"@), final(wb).world.tag_id("clearing"@), final(wb).world.tag_id("note"@), final(wb).world.tag_id("guard-read-note"@), final(wb).world.tag_id("rule-dirty-note"@), final(wb).world.tag_id("grotto"@), final(wb).world.tag_id("pool"@), final(wb).world.tag_id("hilltop"@)],
        named(&final(wb).world, "PLAYER"@, "Yourself"@, "self"@),
        named(&final(wb).world, "hands"@, "hands"@, "hands"@),
        flagged(&final(wb).world, "hands"@, set![FlagView::Scenery, FlagView::User("DIRTY"@)]),
        flagged(&final(wb).world, "clearing"@, Set::empty()),
        named(&final(wb).world, "note"@, "note"@, "note"@),
        flagged(&final(wb).world, "note"@, Set::empty()),
        flagged(&final(wb).world, "grotto"@, set![FlagView::User("HAS_WATER"@)]),
        named(&final(wb).world, "pool"@, "pool"@, "pool"@),
        flagged(&final(wb).world, "pool"@, set![FlagView::Scenery]),
        flagged(&final(wb).world, "hilltop"@, Set::empty()),
        final(wb).world.inventories@.dom() == set![LIMBO, final(wb).world.pid, final(wb).world.tag_id("clearing"@), final(wb).world.tag_id("grotto"@), final(wb).world.tag_id("hilltop"@)],
        final(wb).world.things@.dom() == set![final(wb).world.pid, final(wb).world.tag_id("hands"@), final(wb).world.tag_id("note"@), final(wb).world.tag_id("pool"@)],
        final(wb).world.proses@.dom() == set![final(wb).world.pid, final(wb).world.tag_id("hands"@), final(wb).world.tag_id("clearing"@), final(wb).world.tag_id("note"@), final(wb).world.tag_id("grotto"@), final(wb).world.tag_id("pool"@), final(wb).world.tag_id("hilltop"@)],
        final(wb).world.players@.dom() == set![final(wb).world.pid],
        flagged(&final(wb).world, "rule-story-1"@, Set::empty()),
        flagged(&final(wb).world, "guard-read-note"@, Set::empty()),
        flagged(&final(wb).world, "rule-dirty-note"@, Set::empty()),
{
    proof {
        reveal_strlit("hilltop");
        reveal_strlit("PLAYER");
        reveal_strlit("hands");
        reveal_strlit("rule-story-1");
        reveal_strlit("clearing");
        reveal_strlit("note");
        reveal_strlit("guard-read-note");
        reveal_strlit("rule-dirty-note");
        reveal_strlit("grotto");
        reveal_strlit("pool");
        lemma_differ_by_len(&wb.world, "hilltop"@, "PLAYER"@);
        lemma_differ_by_len(&wb.world, "hilltop"@, "hands"@);
        lemma_differ_by_len(&wb.world, "hilltop"@, "rule-story-1"@);
        lemma_differ_by_len(&wb.world, "hilltop"@, "clearing"@);
        lemma_differ_by_len(&wb.world, "hilltop"@, "note"@);
        lemma_differ_by_len(&wb.world, "hilltop"@, "guard-read-note"@);
        lemma_differ_by_len(&wb.world, "hilltop"@, "rule-dirty-note"@);
        lemma_differ_by_len(&wb.world, "hilltop"@, "grotto"@);
        lemma_differ_by_len(&wb.world, "hilltop"@, "pool"@);
    }
    proof {
        reveal_strlit("hilltop");
        reveal_strlit("PLAYER");
        reveal_strlit("hands");
        reveal_strlit("note");
        reveal_strlit("pool");
        lemma_differ_by_len(&wb.world, "hilltop"@, "PLAYER"@);
        lemma_differ_by_len(&wb.world, "hilltop"@, "hands"@);
        lemma_differ_by_len(&wb.world, "hilltop"@, "note"@);
        lemma_differ_by_len(&wb.world, "hilltop"@, "pool"@);
    }
    // Room: Hilltop
    let rb = wb.room("hilltop", "A Windy Hilltop");
    proof {
        reveal_strlit("hilltop");
        reveal_strlit("grotto");
        reveal_strlit("clearing");
        lemma_differ_by_len(&rb.wb.world, "hilltop"@, "clearing"@);
        lemma_differ_by_len(&rb.wb.world, "hilltop"@, "grotto"@);
        assert(clearing_ways(&rb.wb.world));
        assert(grotto_ways(&rb.wb.world));
    }
    rb.link(Dir::North, "clearing").link(
        Dir::South,
        "cave-mouth",
    ).prose(HILLTOP);

    assert(open_air_ways(&wb.world));
    assert(starts_in_clearing(&wb.world));
    assert(hands_start(&wb.world));
    assert(note_starts(&wb.world));
    assert(pool_starts(&wb.world));
}

/// Adds the stone on the hilltop.
#[verifier::spinoff_prover]
fn add_stone(wb: &mut WorldBuilder)
    requires
        old(wb).ok(),
        known_tags(&old(wb).world),
        starts_in_clearing(&old(wb).world),
        open_air_ways(&old(wb).world),
        hands_start(&old(wb).world),
        note_starts(&old(wb).world),
        pool_starts(&old(wb).world),
        story_rule(&old(wb).world),
        note_rules(&old(wb).world, old(wb).world.pid, old(wb).world.tag_id("note"@)),
        old(wb).world.rooms@.dom() == set![old(wb).world.tag_id("clearing"@), old(wb).world.tag_id("grotto"@), old(wb).world.tag_id("hilltop"@)],
        old(wb).world.locations@.dom() == set![old(wb).world.pid, old(wb).world.tag_id("hands"@), old(wb).world.tag_id("note"@), old(wb).world.tag_id("pool"@)],
        clearing_described(&old(wb).world),
        grotto_described(&old(wb).world),
        hilltop_described(&old(wb).world),
        player_described(&old(wb).world),
        hands_described(&old(wb).world),
        note_described(&old(wb).world),
        pool_described(&old(wb).world),
        old(wb).world.rules@.dom() == set![old(wb).world.tag_id("rule-story-1"@), old(wb).world.tag_id("guard-read-note"@), old(wb).world.tag_id("rule-dirty-note"@)],
        old(wb).world.flag_sets@.dom() == set![old(wb).world.pid, old(wb).world.tag_id("hands"@), old(wb).world.tag_id("rule-story-1"@), old(wb).world.tag_id("clearing"@), old(wb).world.tag_id("note"@), old(wb).world.tag_id("guard-read-note"@), old(wb).world.tag_id("rule-dirty-note"@), old(wb).world.tag_id("grotto"@), old(wb).world.tag_id("pool"@), old(wb).world.tag_id("hilltop"@)],
        named(&old(wb).world, "PLAYER"@, "Yourself"@, "self"@),
        named(&old(wb).world, "hands"@, "hands"@, "hands"@),
        flagged(&old(wb).world, "hands"@, set![FlagView::Scenery, FlagView::User("DIRTY"@)]),
        flagged(&old(wb).world, "clearing"@, Set::empty()),
        named(&old(wb).world, "note"@, "note"@, "note"@),
        flagged(&old(wb).world, "note"@, Set::empty()),
        flagged(&old(wb).world, "grotto"@, set![FlagView::User("HAS_WATER"@)]),
        named(&old(wb).world, "pool"@, "pool"@, "pool"@),
        flagged(&old(wb).world, "pool"@, set![FlagView::Scenery]),
        flagged(&old(wb).world, "hilltop"@, Set::empty()),
        old(wb).world.inventories@.dom() == set![LIMBO, old(wb).world.pid, old(wb).world.tag_id("clearing"@), old(wb).world.tag_id("grotto"@), old(wb).world.tag_id("hilltop"@)],
        old(wb).world.things@.dom() == set![old(wb).world.pid, old(wb).world.tag_id("hands"@), old(wb).world.tag_id("note"@), old(wb).world.tag_id("pool"@)],
        old(wb).world.proses@.dom() == set![old(wb).world.pid, old(wb).world.tag_id("hands"@), old(wb).world.tag_id("clearing"@), old(wb).world.tag_id("note"@), old(wb).world.tag_id("grotto"@), old(wb).world.tag_id("pool"@), old(wb).world.tag_id("hilltop"@)],
        old(wb).world.players@.dom() == set![old(wb).world.pid],
        flagged(&old(wb).world, "rule-story-1"@, Set::empty()),
        flagged(&old(wb).world, "guard-read-note"@, Set::empty()),
        flagged(&old(wb).world, "rule-dirty-note"@, Set::empty()),
    ensures
        final(wb).ok(),
        kept(&old(wb).world, &final(wb).world),
        known_tags(&final(wb).world),
        starts_in_clearing(&final(wb).world),
        hands_start(&final(wb).world),
        note_starts(&final(wb).world),
        pool_starts(&final(wb).world),
        stone_starts(&final(wb).world),
        open_air_ways(&final(wb).world),
        final(wb).world.tag_exists("stone"@),
        final(wb).world.has_location_spec(final(wb).world.tag_id("stone"@)),
        story_rule(&final(wb).world),
        note_rules(&final(wb).world, final(wb).world.pid, final(wb).world.tag_id("note"@)),
        final(wb).world.rooms@.dom() == set![final(wb).world.tag_id("clearing"@), final(wb).world.tag_id("grotto"@), final(wb).world.tag_id("hilltop"@)],
        final(wb).world.locations@.dom() == set![final(wb).world.pid, final(wb).world.tag_id("hands"@), final(wb).world.tag_id("note"@), final(wb).world.tag_id("pool"@), final(wb).world.tag_id("stone"@)],
        clearing_described(&final(wb).world),
        grotto_described(&final(wb).world),
        hilltop_described(&final(wb).world),
        player_described(&final(wb).world),
        hands_described(&final(wb).world),
        note_described(&final(wb).world),
        pool_described(&final(wb).world),
        stone_described(&final(wb).world),
        final(wb).world.rules@.dom() == set![final(wb).world.tag_id("rule-story-1"@), final(wb).world.tag_id("guard-read-note"@), final(wb).world.tag_id("rule-dirty-note"@)],
        final(wb).world.flag_sets@.dom() == set![final(wb).world.pid, final(wb).world.tag_id("hands"@), final(wb).world.tag_id("rule-story-1"@), final(wb).world.tag_id("clearing"@), final(wb).world.tag_id("note"@), final(wb).world.tag_id("guard-read-note"@), final(wb).world.tag_id("rule-dirty-note"@), final(wb).world.tag_id("grotto"@), final(wb).world.tag_id("pool"@), final(wb).world.tag_id("hilltop"@), final(wb).world.tag_id("stone"@)],
        named(&final(wb).world, "PLAYER"@, "Yourself"@, "self"@),
        named(&final(wb).world, "hands"@, "hands"@, "hands"@),
        flagged(&final(wb).world, "hands"@, set![FlagView::Scenery, FlagView::User("DIRTY"@)]),
        flagged(&final(wb).world, "clearing"@, Set::empty()),
        named(&final(wb).world, "note"@, "note"@, "note"@),
        flagged(&final(wb).world, "note"@, Set::empty()),
        flagged(&final(wb).world, "grotto"@, set![FlagView::User("HAS_WATER"@)]),
        named(&final(wb).world, "pool"@, "pool"@, "pool"@),
        flagged(&final(wb).world, "pool"@, set![FlagView::Scenery]),
        flagged(&final(wb).world, "hilltop"@, Set::empty()),
        named(&final(wb).world, "stone"@, "stone"@, "stone"@),
        flagged(&final(wb).world, "stone"@, set![FlagView::Scenery]),
        final(wb).world.inventories@.dom() == set![LIMBO, final(wb).world.pid, final(wb).world.tag_id("clearing"@), final(wb).world.tag_id("grotto"@), final(wb).world.tag_id("hilltop"@)],
        final(wb).world.things@.dom() == set![final(wb).world.pid, final(wb).world.tag_id("hands"@), final(wb).world.tag_id("note"@), final(wb).world.tag_id("pool"@), final(wb).world.tag_id("stone"@)],
        final(wb).world.proses@.dom() == set![final(wb).world.pid, final(wb).world.tag_id("hands"@), final(wb).world.tag_id("clearing"@), final(wb).world.tag_id("note"@), final(wb).world.tag_id("grotto"@), final(wb).world.tag_id("pool"@), final(wb).world.tag_id("hilltop"@), final(wb).world.tag_id("stone"@)],
        final(wb).world.players@.dom() == set![final(wb).world.pid],
        flagged(&final(wb).world, "rule-story-1"@, Set::empty()),
        flagged(&final(wb).world, "guard-read-note"@, Set::empty()),
        flagged(&final(wb).world, "rule-dirty-note"@, Set::empty()),
{
    // Thing: The Stone on the Hilltop
    let fb = wb.feature("stone", "stone", "stone");
    proof {
        reveal_strlit("stone");
        lemma_not_player(&fb.wb.world, "stone"@);
        reveal_strlit("stone");
        reveal_strlit("PLAYER");
        reveal_strlit("hands");
        reveal_strlit("rule-story-1");
        reveal_strlit("clearing");
        reveal_strlit("note");
        reveal_strlit("guard-read-note");
        reveal_strlit("rule-dirty-note");
        reveal_strlit("grotto");
        reveal_strlit("pool");
        reveal_strlit("hilltop");
        lemma_differ_by_len(&fb.wb.world, "stone"@, "PLAYER"@);
        lemma_differ_at(&fb.wb.world, "stone"@, "hands"@, 0);
        lemma_differ_by_len(&fb.wb.world, "stone"@, "rule-story-1"@);
        lemma_differ_by_len(&fb.wb.world, "stone"@, "clearing"@);
        lemma_differ_by_len(&fb.wb.world, "stone"@, "note"@);
        lemma_differ_by_len(&fb.wb.world, "stone"@, "guard-read-note"@);
        lemma_differ_by_len(&fb.wb.world, "stone"@, "rule-dirty-note"@);
        lemma_differ_by_len(&fb.wb.world, "stone"@, "grotto"@);
        lemma_differ_by_len(&fb.wb.world, "stone"@, "pool"@);
        lemma_differ_by_len(&fb.wb.world, "stone"@, "hilltop"@);
        assert(starts_in_clearing(&fb.wb.world));
        reveal_strlit("hands");
        reveal_strlit("note");
        reveal_strlit("pool");
        lemma_differ_at(&fb.wb.world, "stone"@, "hands"@, 0);
        lemma_differ_by_len(&fb.wb.world, "stone"@, "note"@);
        lemma_differ_by_len(&fb.wb.world, "stone"@, "pool"@);
        reveal_strlit("clearing");
        reveal_strlit("grotto");
        reveal_strlit("hilltop");
        lemma_differ_by_len(&fb.wb.world, "stone"@, "clearing"@);
        lemma_differ_by_len(&fb.wb.world, "stone"@, "grotto"@);
        lemma_differ_by_len(&fb.wb.world, "stone"@, "hilltop"@);
        assert(hands_start(&fb.wb.world));
        assert(note_starts(&fb.wb.world));
        assert(pool_starts(&fb.wb.world));
        assert(clearing_described(&fb.wb.world));
        assert(grotto_described(&fb.wb.world));
        assert(hilltop_described(&fb.wb.world));
        assert(player_described(&fb.wb.world));
        assert(hands_described(&fb.wb.world));
        assert(pool_described(&fb.wb.world));
    }
    let lb = fb.location("hilltop");
    assert(starts_in_clearing(&lb.wb.world));
    assert(hands_start(&lb.wb.world));
    assert(note_starts(&lb.wb.world));
    assert(pool_starts(&lb.wb.world));
    assert(stone_starts(&lb.wb.world));
    assert(clearing_described(&lb.wb.world));
    assert(grotto_described(&lb.wb.world));
    assert(hilltop_described(&lb.wb.world));
    let sb = lb.scenery_prose(STONE_SCENERY);
    assert(clearing_described(&sb.wb.world));
    assert(grotto_described(&sb.wb.world));
    assert(hilltop_described(&sb.wb.world));
    assert(player_described(&sb.wb.world));
    assert(hands_described(&sb.wb.world));
    assert(pool_described(&sb.wb.world));
    sb.prose(STONE);
    proof {
        let w = wb.world;
        assert(clearing_described(&w));
        assert(grotto_described(&w));
        assert(hilltop_described(&w));
    }
}

/// Adds the sword in the stone.
#[verifier::spinoff_prover]
fn add_sword(wb: &mut WorldBuilder) -> (sword: ID)
    requires
        old(wb).ok(),
        known_tags(&old(wb).world),
        starts_in_clearing(&old(wb).world),
        open_air_ways(&old(wb).world),
        hands_start(&old(wb).world),
        note_starts(&old(wb).world),
        pool_starts(&old(wb).world),
        stone_starts(&old(wb).world),
        story_rule(&old(wb).world),
        note_rules(&old(wb).world, old(wb).world.pid, old(wb).world.tag_id("note"@)),
        old(wb).world.rooms@.dom() == set![old(wb).world.tag_id("clearing"@), old(wb).world.tag_id("grotto"@), old(wb).world.tag_id("hilltop"@)],
        old(wb).world.locations@.dom() == set![old(wb).world.pid, old(wb).world.tag_id("hands"@), old(wb).world.tag_id("note"@), old(wb).world.tag_id("pool"@), old(wb).world.tag_id("stone"@)],
        clearing_described(&old(wb).world),
        grotto_described(&old(wb).world),
        hilltop_described(&old(wb).world),
        player_described(&old(wb).world),
        hands_described(&old(wb).world),
        note_described(&old(wb).world),
        pool_described(&old(wb).world),
        stone_described(&old(wb).world),
        old(wb).world.rules@.dom() == set![old(wb).world.tag_id("rule-story-1"@), old(wb).world.tag_id("guard-read-note"@), old(wb).world.tag_id("rule-dirty-note"@)],
        old(wb).world.flag_sets@.dom() == set![old(wb).world.pid, old(wb).world.tag_id("hands"@), old(wb).world.tag_id("rule-story-1"@), old(wb).world.tag_id("clearing"@), old(wb).world.tag_id("note"@), old(wb).world.tag_id("guard-read-note"@), old(wb).world.tag_id("rule-dirty-note"@), old(wb).world.tag_id("grotto"@), old(wb).world.tag_id("pool"@), old(wb).world.tag_id("hilltop"@), old(wb).world.tag_id("stone"@)],
        named(&old(wb).world, "PLAYER"@, "Yourself"@, "self"@),
        named(&old(wb).world, "hands"@, "hands"@, "hands"@),
        flagged(&old(wb).world, "hands"@, set![FlagView::Scenery, FlagView::User("DIRTY"@)]),
        flagged(&old(wb).world, "clearing"@, Set::empty()),
        named(&old(wb).world, "note"@, "note"@, "note"@),
        flagged(&old(wb).world, "note"@, Set::empty()),
        flagged(&old(wb).world, "grotto"@, set![FlagView::User("HAS_WATER"@)]),
        named(&old(wb).world, "pool"@, "pool"@, "pool"@),
        flagged(&old(wb).world, "pool"@, set![FlagView::Scenery]),
        flagged(&old(wb).world, "hilltop"@, Set::empty()),
        named(&old(wb).world, "stone"@, "stone"@, "stone"@),
        flagged(&old(wb).world, "stone"@, set![FlagView::Scenery]),
        old(wb).world.inventories@.dom() == set![LIMBO, old(wb).world.pid, old(wb).world.tag_id("clearing"@), old(wb).world.tag_id("grotto"@), old(wb).world.tag_id("hilltop"@)],
        old(wb).world.things@.dom() == set![old(wb).world.pid, old(wb).world.tag_id("hands"@), old(wb).world.tag_id("note"@), old(wb).world.tag_id("pool"@), old(wb).world.tag_id("stone"@)],
        old(wb).world.proses@.dom() == set![old(wb).world.pid, old(wb).world.tag_id("hands"@), old(wb).world.tag_id("clearing"@), old(wb).world.tag_id("note"@), old(wb).world.tag_id("grotto"@), old(wb).world.tag_id("pool"@), old(wb).world.tag_id("hilltop"@), old(wb).world.tag_id("stone"@)],
        old(wb).world.players@.dom() == set![old(wb).world.pid],
        flagged(&old(wb).world, "rule-story-1"@, Set::empty()),
        flagged(&old(wb).world, "guard-read-note"@, Set::empty()),
        flagged(&old(wb).world, "rule-dirty-note"@, Set::empty()),
    ensures
        final(wb).ok(),
        kept(&old(wb).world, &final(wb).world),
        known_tags(&final(wb).world),
        starts_in_clearing(&final(wb).world),
        things_start(&final(wb).world),
        open_air_ways(&final(wb).world),
        final(wb).world.tag_exists("sword"@),
        final(wb).world.has_flags_spec(final(wb).world.tag_id("sword"@)),
        sword == final(wb).world.tag_id("sword"@),
        story_rule(&final(wb).world),
        note_rules(&final(wb).world, final(wb).world.pid, final(wb).world.tag_id("note"@)),
        final(wb).world.rooms@.dom() == set![final(wb).world.tag_id("clearing"@), final(wb).world.tag_id("grotto"@), final(wb).world.tag_id("hilltop"@)],
        final(wb).world.locations@.dom() == set![final(wb).world.pid, final(wb).world.tag_id("hands"@), final(wb).world.tag_id("note"@), final(wb).world.tag_id("pool"@), final(wb).world.tag_id("stone"@), final(wb).world.tag_id("sword"@)],
        clearing_described(&final(wb).world),
        grotto_described(&final(wb).world),
        hilltop_described(&final(wb).world),
        things_described(&final(wb).world),
        final(wb).world.rules@.dom() == set![final(wb).world.tag_id("rule-story-1"@), final(wb).world.tag_id("guard-read-note"@), final(wb).world.tag_id("rule-dirty-note"@)],
        final(wb).world.flag_sets@.dom() == set![final(wb).world.pid, final(wb).world.tag_id("hands"@), final(wb).world.tag_id("rule-story-1"@), final(wb).world.tag_id("clearing"@), final(wb).world.tag_id("note"@), final(wb).world.tag_id("guard-read-note"@), final(wb).world.tag_id("rule-dirty-note"@), final(wb).world.tag_id("grotto"@), final(wb).world.tag_id("pool"@), final(wb).world.tag_id("hilltop"@), final(wb).world.tag_id("stone"@), final(wb).world.tag_id("sword"@)],
        named(&final(wb).world, "PLAYER"@, "Yourself"@, "self"@),
        named(&final(wb).world, "hands"@, "hands"@, "hands"@),
        flagged(&final(wb).world, "hands"@, set![FlagView::Scenery, FlagView::User("DIRTY"@)]),
        flagged(&final(wb).world, "clearing"@, Set::empty()),
        named(&final(wb).world, "note"@, "note"@, "note"@),
        flagged(&final(wb).world, "note"@, Set::empty()),
        flagged(&final(wb).world, "grotto"@, set![FlagView::User("HAS_WATER"@)]),
        named(&final(wb).world, "pool"@, "pool"@, "pool"@),
        flagged(&final(wb).world, "pool"@, set![FlagView::Scenery]),
        flagged(&final(wb).world, "hilltop"@, Set::empty()),
        named(&final(wb).world, "stone"@, "stone"@, "stone"@),
        flagged(&final(wb).world, "stone"@, set![FlagView::Scenery]),
        named(&final(wb).world, "sword"@, "sword"@, "sword"@),
        flagged(&final(wb).world, "sword"@, set![FlagView::Scenery]),
        final(wb).world.inventories@.dom() == set![LIMBO, final(wb).world.pid, final(wb).world.tag_id("clearing"@), final(wb).world.tag_id("grotto"@), final(wb).world.tag_id("hilltop"@)],
        final(wb).world.things@.dom() == set![final(wb).world.pid, final(wb).world.tag_id("hands"@), final(wb).world.tag_id("note"@), final(wb).world.tag_id("pool"@), final(wb).world.tag_id("stone"@), final(wb).world.tag_id("sword"@)],
        final(wb).world.proses@.dom() == set![final(wb).world.pid, final(wb).world.tag_id("hands"@), final(wb).world.tag_id("clearing"@), final(wb).world.tag_id("note"@), final(wb).world.tag_id("grotto"@), final(wb).world.tag_id("pool"@), final(wb).world.tag_id("hilltop"@), final(wb).world.tag_id("stone"@), final(wb).world.tag_id("sword"@)],
        final(wb).world.players@.dom() == set![final(wb).world.pid],
        flagged(&final(wb).world, "rule-story-1"@, Set::empty()),
        flagged(&final(wb).world, "guard-read-note"@, Set::empty()),
        flagged(&final(wb).world, "rule-dirty-note"@, Set::empty()),
{
    // Thing: The Sword in the Stone on the Hilltop
    let mut clauses: Vec<ProseClause> = Vec::new();
    clauses.push(
        clause(
            Predicate::Has("sword", taken()),
            SWORD_EXAMINED,
        ),
    );
    clauses.push(
        clause(
            Predicate::Not(Box::new(Predicate::Has("sword", taken()))),
            "All you can really see is the hilt; the rest is embedded in the stone.",
        ),
    );
    let examine_sword = ProseHook::new(clauses);
    // It will appear as part of the stone until removed.
    let sb = wb.thing("sword", "sword", "sword");
    proof {
        reveal_strlit("sword");
        lemma_not_player(&sb.wb.world, "sword"@);
        reveal_strlit("sword");
        reveal_strlit("PLAYER");
        reveal_strlit("hands");
        reveal_strlit("rule-story-1");
        reveal_strlit("clearing");
        reveal_strlit("note");
        reveal_strlit("guard-read-note");
        reveal_strlit("rule-dirty-note");
        reveal_strlit("grotto");
        reveal_strlit("pool");
        reveal_strlit("hilltop");
        reveal_strlit("stone");
        lemma_differ_by_len(&sb.wb.world, "sword"@, "PLAYER"@);
        lemma_differ_at(&sb.wb.world, "sword"@, "hands"@, 0);
        lemma_differ_by_len(&sb.wb.world, "sword"@, "rule-story-1"@);
        lemma_differ_by_len(&sb.wb.world, "sword"@, "clearing"@);
        lemma_differ_by_len(&sb.wb.world, "sword"@, "note"@);
        lemma_differ_by_len(&sb.wb.world, "sword"@, "guard-read-note"@);
        lemma_differ_by_len(&sb.wb.world, "sword"@, "rule-dirty-note"@);
        lemma_differ_by_len(&sb.wb.world, "sword"@, "grotto"@);
        lemma_differ_by_len(&sb.wb.world, "sword"@, "pool"@);
        lemma_differ_by_len(&sb.wb.world, "sword"@, "hilltop"@);
        lemma_differ_at(&sb.wb.world, "sword"@, "stone"@, 1);
        assert(starts_in_clearing(&sb.wb.world));
        reveal_strlit("hands");
        reveal_strlit("note");
        reveal_strlit("pool");
        reveal_strlit("stone");
        lemma_differ_at(&sb.wb.world, "sword"@, "hands"@, 0);
        lemma_differ_by_len(&sb.wb.world, "sword"@, "note"@);
        lemma_differ_by_len(&sb.wb.world, "sword"@, "pool"@);
        lemma_differ_at(&sb.wb.world, "sword"@, "stone"@, 1);
        reveal_strlit("clearing");
        reveal_strlit("grotto");
        reveal_strlit("hilltop");
        lemma_differ_by_len(&sb.wb.world, "sword"@, "clearing"@);
        lemma_differ_by_len(&sb.wb.world, "sword"@, "grotto"@);
        lemma_differ_by_len(&sb.wb.world, "sword"@, "hilltop"@);
        assert(hands_start(&sb.wb.world));
        assert(note_starts(&sb.wb.world));
        assert(pool_starts(&sb.wb.world));
        assert(stone_starts(&sb.wb.world));
    }
    let lb = sb.location("hilltop");
    assert(starts_in_clearing(&lb.wb.world));
    assert(hands_start(&lb.wb.world));
    assert(note_starts(&lb.wb.world));
    assert(pool_starts(&lb.wb.world));
    assert(stone_starts(&lb.wb.world));
    let tb = lb.flag(Flag::Scenery);
    assert(starts_in_clearing(&tb.wb.world));
    assert(things_start(&tb.wb.world));
    let sword = tb.id;
    proof {
        let w = tb.wb.world;
        assert(w.pred_ok(Predicate::Has("sword", Flag::User("TAKEN"))));
        assert(w.pred_ok(Predicate::Not(Box::new(Predicate::Has("sword", Flag::User("TAKEN"))))));
        assert(examine_sword.clauses@.len() == 2);
    }
    tb.prose_hook(examine_sword);

    sword
}

/// Adds the rules about the sword.
#[verifier::spinoff_prover]
#[verifier::rlimit(40)]
fn add_sword_rules(wb: &mut WorldBuilder, pid: ID, sword: ID)
    requires
        old(wb).ok(),
        old(wb).world.tag_exists("hands"@),
        old(wb).world.has_flags_spec(old(wb).world.tag_id("hands"@)),
        old(wb).world.tag_exists("stone"@),
        old(wb).world.has_location_spec(old(wb).world.tag_id("stone"@)),
        old(wb).world.tag_exists("sword"@),
        old(wb).world.has_flags_spec(old(wb).world.tag_id("sword"@)),
        old(wb).world.tag_exists("PLAYER"@),
        old(wb).world.has_flags_spec(old(wb).world.tag_id("PLAYER"@)),
        known_tags(&old(wb).world),
        starts_in_clearing(&old(wb).world),
        open_air_ways(&old(wb).world),
        things_start(&old(wb).world),
        story_rule(&old(wb).world),
        note_rules(&old(wb).world, old(wb).world.pid, old(wb).world.tag_id("note"@)),
        old(wb).world.rooms@.dom() == set![old(wb).world.tag_id("clearing"@), old(wb).world.tag_id("grotto"@), old(wb).world.tag_id("hilltop"@)],
        old(wb).world.locations@.dom() == set![old(wb).world.pid, old(wb).world.tag_id("hands"@), old(wb).world.tag_id("note"@), old(wb).world.tag_id("pool"@), old(wb).world.tag_id("stone"@), old(wb).world.tag_id("sword"@)],
        clearing_described(&old(wb).world),
        grotto_described(&old(wb).world),
        hilltop_described(&old(wb).world),
        things_described(&old(wb).world),
        old(wb).world.rules@.dom() == set![old(wb).world.tag_id("rule-story-1"@), old(wb).world.tag_id("guard-read-note"@), old(wb).world.tag_id("rule-dirty-note"@)],
        old(wb).world.flag_sets@.dom() == set![old(wb).world.pid, old(wb).world.tag_id("hands"@), old(wb).world.tag_id("rule-story-1"@), old(wb).world.tag_id("clearing"@), old(wb).world.tag_id("note"@), old(wb).world.tag_id("guard-read-note"@), old(wb).world.tag_id("rule-dirty-note"@), old(wb).world.tag_id("grotto"@), old(wb).world.tag_id("pool"@), old(wb).world.tag_id("hilltop"@), old(wb).world.tag_id("stone"@), old(wb).world.tag_id("sword"@)],
        named(&old(wb).world, "PLAYER"@, "Yourself"@, "self"@),
        named(&old(wb).world, "hands"@, "hands"@, "hands"@),
        flagged(&old(wb).world, "hands"@, set![FlagView::Scenery, FlagView::User("DIRTY"@)]),
        flagged(&old(wb).world, "clearing"@, Set::empty()),
        named(&old(wb).world, "note"@, "note"@, "note"@),
        flagged(&old(wb).world, "note"@, Set::empty()),
        flagged(&old(wb).world, "grotto"@, set![FlagView::User("HAS_WATER"@)]),
        named(&old(wb).world, "pool"@, "pool"@, "pool"@),
        flagged(&old(wb).world, "pool"@, set![FlagView::Scenery]),
        flagged(&old(wb).world, "hilltop"@, Set::empty()),
        named(&old(wb).world, "stone"@, "stone"@, "stone"@),
        flagged(&old(wb).world, "stone"@, set![FlagView::Scenery]),
        named(&old(wb).world, "sword"@, "sword"@, "sword"@),
        flagged(&old(wb).world, "sword"@, set![FlagView::Scenery]),
        old(wb).world.inventories@.dom() == set![LIMBO, old(wb).world.pid, old(wb).world.tag_id("clearing"@), old(wb).world.tag_id("grotto"@), old(wb).world.tag_id("hilltop"@)],
        old(wb).world.things@.dom() == set![old(wb).world.pid, old(wb).world.tag_id("hands"@), old(wb).world.tag_id("note"@), old(wb).world.tag_id("pool"@), old(wb).world.tag_id("stone"@), old(wb).world.tag_id("sword"@)],
        old(wb).world.proses@.dom() == set![old(wb).world.pid, old(wb).world.tag_id("hands"@), old(wb).world.tag_id("clearing"@), old(wb).world.tag_id("note"@), old(wb).world.tag_id("grotto"@), old(wb).world.tag_id("pool"@), old(wb).world.tag_id("hilltop"@), old(wb).world.tag_id("stone"@), old(wb).world.tag_id("sword"@)],
        old(wb).world.players@.dom() == set![old(wb).world.pid],
        flagged(&old(wb).world, "rule-story-1"@, Set::empty()),
        flagged(&old(wb).world, "guard-read-note"@, Set::empty()),
        flagged(&old(wb).world, "rule-dirty-note"@, Set::empty()),
    ensures
        final(wb).ok(),
        kept(&old(wb).world, &final(wb).world),
        known_tags(&final(wb).world),
        starts_in_clearing(&final(wb).world),
        things_start(&final(wb).world),
        open_air_ways(&final(wb).world),
        sword_rules(&final(wb).world, pid, sword),
        story_rule(&final(wb).world),
        note_rules(&final(wb).world, final(wb).world.pid, final(wb).world.tag_id("note"@)),
        final(wb).world.rooms@.dom() == set![final(wb).world.tag_id("clearing"@), final(wb).world.tag_id("grotto"@), final(wb).world.tag_id("hilltop"@)],
        final(wb).world.locations@.dom() == set![final(wb).world.pid, final(wb).world.tag_id("hands"@), final(wb).world.tag_id("note"@), final(wb).world.tag_id("pool"@), final(wb).world.tag_id("stone"@), final(wb).world.tag_id("sword"@)],
        clearing_described(&final(wb).world),
        grotto_described(&final(wb).world),
        hilltop_described(&final(wb).world),
        things_described(&final(wb).world),
        final(wb).world.rules@.dom() == set![final(wb).world.tag_id("rule-story-1"@), final(wb).world.tag_id("guard-read-note"@), final(wb).world.tag_id("rule-dirty-note"@), final(wb).world.tag_id("guard-get-sword"@), final(wb).world.tag_id("rule-take-sword"@)],
        final(wb).world.flag_sets@.dom() == set![final(wb).world.pid, final(wb).world.tag_id("hands"@), final(wb).world.tag_id("rule-story-1"@), final(wb).world.tag_id("clearing"@), final(wb).world.tag_id("note"@), final(wb).world.tag_id("guard-read-note"@), final(wb).world.tag_id("rule-dirty-note"@), final(wb).world.tag_id("grotto"@), final(wb).world.tag_id("pool"@), final(wb).world.tag_id("hilltop"@), final(wb).world.tag_id("stone"@), final(wb).world.tag_id("sword"@), final(wb).world.tag_id("guard-get-sword"@), final(wb).world.tag_id("rule-take-sword"@)],
        named(&final(wb).world, "PLAYER"@, "Yourself"@, "self"@),
        named(&final(wb).world, "hands"@, "hands"@, "hands"@),
        flagged(&final(wb).world, "hands"@, set![FlagView::Scenery, FlagView::User("DIRTY"@)]),
        flagged(&final(wb).world, "clearing"@, Set::empty()),
        named(&final(wb).world, "note"@, "note"@, "note"@),
        flagged(&final(wb).world, "note"@, Set::empty()),
        flagged(&final(wb).world, "grotto"@, set![FlagView::User("HAS_WATER"@)]),
        named(&final(wb).world, "pool"@, "pool"@, "pool"@),
        flagged(&final(wb).world, "pool"@, set![FlagView::Scenery]),
        flagged(&final(wb).world, "hilltop"@, Set::empty()),
        named(&final(wb).world, "stone"@, "stone"@, "stone"@),
        flagged(&final(wb).world, "stone"@, set![FlagView::Scenery]),
        named(&final(wb).world, "sword"@, "sword"@, "sword"@),
        flagged(&final(wb).world, "sword"@, set![FlagView::Scenery]),
        final(wb).world.inventories@.dom() == set![LIMBO, final(wb).world.pid, final(wb).world.tag_id("clearing"@), final(wb).world.tag_id("grotto"@), final(wb).world.tag_id("hilltop"@)],
        final(wb).world.things@.dom() == set![final(wb).world.pid, final(wb).world.tag_id("hands"@), final(wb).world.tag_id("note"@), final(wb).world.tag_id("pool"@), final(wb).world.tag_id("stone"@), final(wb).world.tag_id("sword"@)],
        final(wb).world.proses@.dom() == set![final(wb).world.pid, final(wb).world.tag_id("hands"@), final(wb).world.tag_id("clearing"@), final(wb).world.tag_id("note"@), final(wb).world.tag_id("grotto"@), final(wb).world.tag_id("pool"@), final(wb).world.tag_id("hilltop"@), final(wb).world.tag_id("stone"@), final(wb).world.tag_id("sword"@)],
        final(wb).world.players@.dom() == set![final(wb).world.pid],
        flagged(&final(wb).world, "rule-story-1"@, Set::empty()),
        flagged(&final(wb).world, "guard-read-note"@, Set::empty()),
        flagged(&final(wb).world, "rule-dirty-note"@, Set::empty()),
        flagged(&final(wb).world, "guard-get-sword"@, Set::empty()),
        flagged(&final(wb).world, "rule-take-sword"@, set![FlagView::FireOnce]),
{
    // If the player tries to pick up the sword with dirty hands, it kills him.
    let tb = wb.allow("guard-get-sword", Event::GetThing(pid, sword));
    proof {
        reveal_strlit("guard-get-sword");
        reveal_strlit("PLAYER");
        reveal_strlit("hands");
        reveal_strlit("rule-story-1");
        reveal_strlit("clearing");
        reveal_strlit("note");
        reveal_strlit("guard-read-note");
        reveal_strlit("rule-dirty-note");
        reveal_strlit("grotto");
        reveal_strlit("pool");
        reveal_strlit("hilltop");
        reveal_strlit("stone");
        reveal_strlit("sword");
        lemma_differ_by_len(&tb.wb.world, "guard-get-sword"@, "PLAYER"@);
        lemma_differ_by_len(&tb.wb.world, "guard-get-sword"@, "hands"@);
        lemma_differ_by_len(&tb.wb.world, "guard-get-sword"@, "rule-story-1"@);
        lemma_differ_by_len(&tb.wb.world, "guard-get-sword"@, "clearing"@);
        lemma_differ_by_len(&tb.wb.world, "guard-get-sword"@, "note"@);
        lemma_differ_at(&tb.wb.world, "guard-get-sword"@, "guard-read-note"@, 6);
        lemma_differ_at(&tb.wb.world, "guard-get-sword"@, "rule-dirty-note"@, 0);
        lemma_differ_by_len(&tb.wb.world, "guard-get-sword"@, "grotto"@);
        lemma_differ_by_len(&tb.wb.world, "guard-get-sword"@, "pool"@);
        lemma_differ_by_len(&tb.wb.world, "guard-get-sword"@, "hilltop"@);
        lemma_differ_by_len(&tb.wb.world, "guard-get-sword"@, "stone"@);
        lemma_differ_by_len(&tb.wb.world, "guard-get-sword"@, "sword"@);
        let w = tb.wb.world;
        assert(w.pred_ok(Predicate::Has("hands", Flag::User("DIRTY"))));
        reveal_strlit("guard-get-sword");
        reveal_strlit("rule-story-1");
        reveal_strlit("guard-read-note");
        reveal_strlit("rule-dirty-note");
        lemma_differ_by_len(&w, "guard-get-sword"@, "rule-story-1"@);
        lemma_differ_at(&w, "guard-get-sword"@, "guard-read-note"@, 6);
        lemma_differ_at(&w, "guard-get-sword"@, "rule-dirty-note"@, 0);
        assert(story_rule(&w));
        assert(note_rules(&w, w.pid, w.tag_id("note"@)));
    }
    tb.when(Predicate::Has("hands", dirty())).print(SWORD_REFUSED).kill(PLAYER);
    assert(story_rule(&wb.world));
    assert(note_rules(&wb.world, wb.world.pid, wb.world.tag_id("note"@)));
    assert(places_kept(&old(wb).world, &wb.world));
    assert(sword_guard(&wb.world, pid, sword));
    let ghost w1 = wb.world;

    // When the player takes the sword successfully, magic stuff happens.
    let rb = wb.rule("rule-take-sword");
    proof {
        reveal_strlit("rule-take-sword");
        reveal_strlit("PLAYER");
        reveal_strlit("hands");
        reveal_strlit("rule-story-1");
        reveal_strlit("clearing");
        reveal_strlit("note");
        reveal_strlit("guard-read-note");
        reveal_strlit("rule-dirty-note");
        reveal_strlit("grotto");
        reveal_strlit("pool");
        reveal_strlit("hilltop");
        reveal_strlit("stone");
        reveal_strlit("sword");
        reveal_strlit("guard-get-sword");
        lemma_differ_by_len(&rb.wb.world, "rule-take-sword"@, "PLAYER"@);
        lemma_differ_by_len(&rb.wb.world, "rule-take-sword"@, "hands"@);
        lemma_differ_by_len(&rb.wb.world, "rule-take-sword"@, "rule-story-1"@);
        lemma_differ_by_len(&rb.wb.world, "rule-take-sword"@, "clearing"@);
        lemma_differ_by_len(&rb.wb.world, "rule-take-sword"@, "note"@);
        lemma_differ_at(&rb.wb.world, "rule-take-sword"@, "guard-read-note"@, 0);
        lemma_differ_at(&rb.wb.world, "rule-take-sword"@, "rule-dirty-note"@, 5);
        lemma_differ_by_len(&rb.wb.world, "rule-take-sword"@, "grotto"@);
        lemma_differ_by_len(&rb.wb.world, "rule-take-sword"@, "pool"@);
        lemma_differ_by_len(&rb.wb.world, "rule-take-sword"@, "hilltop"@);
        lemma_differ_by_len(&rb.wb.world, "rule-take-sword"@, "stone"@);
        lemma_differ_by_len(&rb.wb.world, "rule-take-sword"@, "sword"@);
        lemma_differ_at(&rb.wb.world, "rule-take-sword"@, "guard-get-sword"@, 0);
        reveal_strlit("guard-get-sword");
        reveal_strlit("rule-take-sword");
        lemma_differ_at(&rb.wb.world, "guard-get-sword"@, "rule-take-sword"@, 0);
        lemma_not_player(&rb.wb.world, "rule-take-sword"@);
        reveal_strlit("rule-take-sword");
        reveal_strlit("hands");
        reveal_strlit("note");
        reveal_strlit("pool");
        reveal_strlit("stone");
        reveal_strlit("sword");
        reveal_strlit("clearing");
        reveal_strlit("grotto");
        reveal_strlit("hilltop");
        lemma_differ_by_len(&rb.wb.world, "rule-take-sword"@, "hands"@);
        lemma_differ_by_len(&rb.wb.world, "rule-take-sword"@, "note"@);
        lemma_differ_by_len(&rb.wb.world, "rule-take-sword"@, "pool"@);
        lemma_differ_by_len(&rb.wb.world, "rule-take-sword"@, "stone"@);
        lemma_differ_by_len(&rb.wb.world, "rule-take-sword"@, "sword"@);
        lemma_differ_by_len(&rb.wb.world, "rule-take-sword"@, "clearing"@);
        lemma_differ_by_len(&rb.wb.world, "rule-take-sword"@, "grotto"@);
        lemma_differ_by_len(&rb.wb.world, "rule-take-sword"@, "hilltop"@);
        assert(sword_guard(&rb.wb.world, pid, sword));
        reveal_strlit("rule-story-1");
        reveal_strlit("guard-read-note");
        reveal_strlit("rule-dirty-note");
        lemma_differ_by_len(&rb.wb.world, "rule-take-sword"@, "rule-story-1"@);
        lemma_differ_at(&rb.wb.world, "rule-take-sword"@, "guard-read-note"@, 0);
        lemma_differ_at(&rb.wb.world, "rule-take-sword"@, "rule-dirty-note"@, 5);
        assert(story_rule(&rb.wb.world));
        assert(note_rules(&rb.wb.world, rb.wb.world.pid, rb.wb.world.tag_id("note"@)));
    }
    let ghost rid = rb.id;
    let ob = rb.on(Event::GetThing(pid, sword)).once_only();
    assert(ob.wb.world.rules@[rid].script.actions@ == Seq::<Action>::empty());
    assert(ob.wb.world.has_location_spec(ob.wb.world.tag_id("stone"@)));
    assert(ob.wb.world.has_flags_spec(ob.wb.world.tag_id("sword"@)));
    let fb = ob.forget("stone").set_flag("sword", taken());
    assert(fb.wb.world.rules@[rid].script.actions@ == seq![
        Action::PutIn(fb.wb.world.tag_id("stone"@), LIMBO),
        Action::SetFlag(fb.wb.world.tag_id("sword"@), Flag::User("TAKEN")),
    ]);
    let ub = fb.unset_flag("sword", Flag::Scenery);
    let ghost acts = ub.wb.world.rules@[rid].script.actions@;
    assert(acts == seq![
        Action::PutIn(ub.wb.world.tag_id("stone"@), LIMBO),
        Action::SetFlag(ub.wb.world.tag_id("sword"@), Flag::User("TAKEN")),
        Action::UnsetFlag(ub.wb.world.tag_id("sword"@), Flag::Scenery),
    ]);
    let pb = ub.print(SWORD_TAKEN);
    proof {
        let a = pb.wb.world.rules@[rid].script.actions@;
        assert(a.drop_last() == acts);
        assert(a[0] == acts[0] && a[1] == acts[1] && a[2] == acts[2]);
        assert(prints(a[3], SWORD_TAKEN@));
    }
    proof {
        assert(sword_guard(&wb.world, pid, sword));
        assert(take_sword_rule(&wb.world, pid, sword));
        assert(places_kept(&w1, &wb.world));
        assert(places_kept(&old(wb).world, &wb.world));
        lemma_places_kept(&old(wb).world, &wb.world);
    }
}

/// Adds the mouth of the cave.
#[verifier::spinoff_prover]
#[verifier::rlimit(60)]
fn add_cave_mouth(wb: &mut WorldBuilder)
    requires
        old(wb).ok(),
        known_tags(&old(wb).world),
        starts_in_clearing(&old(wb).world),
        open_air_ways(&old(wb).world),
        things_start(&old(wb).world),
        story_rule(&old(wb).world),
        note_rules(&old(wb).world, old(wb).world.pid, old(wb).world.tag_id("note"@)),
        sword_rules(&old(wb).world, old(wb).world.pid, old(wb).world.tag_id("sword"@)),
        old(wb).world.rooms@.dom() == set![old(wb).world.tag_id("clearing"@), old(wb).world.tag_id("grotto"@), old(wb).world.tag_id("hilltop"@)],
        old(wb).world.locations@.dom() == set![old(wb).world.pid, old(wb).world.tag_id("hands"@), old(wb).world.tag_id("note"@), old(wb).world.tag_id("pool"@), old(wb).world.tag_id("stone"@), old(wb).world.tag_id("sword"@)],
        clearing_described(&old(wb).world),
        grotto_described(&old(wb).world),
        hilltop_described(&old(wb).world),
        things_described(&old(wb).world),
        old(wb).world.rules@.dom() == set![old(wb).world.tag_id("rule-story-1"@), old(wb).world.tag_id("guard-read-note"@), old(wb).world.tag_id("rule-dirty-note"@), old(wb).world.tag_id("guard-get-sword"@), old(wb).world.tag_id("rule-take-sword"@)],
        old(wb).world.flag_sets@.dom() == set![old(wb).world.pid, old(wb).world.tag_id("hands"@), old(wb).world.tag_id("rule-story-1"@), old(wb).world.tag_id("clearing"@), old(wb).world.tag_id("note"@), old(wb).world.tag_id("guard-read-note"@), old(wb).world.tag_id("rule-dirty-note"@), old(wb).world.tag_id("grotto"@), old(wb).world.tag_id("pool"@), old(wb).world.tag_id("hilltop"@), old(wb).world.tag_id("stone"@), old(wb).world.tag_id("sword"@), old(wb).world.tag_id("guard-get-sword"@), old(wb).world.tag_id("rule-take-sword"@)],
        named(&old(wb).world, "PLAYER"@, "Yourself"@, "self"@),
        named(&old(wb).world, "hands"@, "hands"@, "hands"@),
        flagged(&old(wb).world, "hands"@, set![FlagView::Scenery, FlagView::User("DIRTY"@)]),
        flagged(&old(wb).world, "clearing"@, Set::empty()),
        named(&old(wb).world, "note"@, "note"@, "note"@),
        flagged(&old(wb).world, "note"@, Set::empty()),
        flagged(&old(wb).world, "grotto"@, set![FlagView::User("HAS_WATER"@)]),
        named(&old(wb).world, "pool"@, "pool"@, "pool"@),
        flagged(&old(wb).world, "pool"@, set![FlagView::Scenery]),
        flagged(&old(wb).world, "hilltop"@, Set::empty()),
        named(&old(wb).world, "stone"@, "stone"@, "stone"@),
        flagged(&old(wb).world, "stone"@, set![FlagView::Scenery]),
        named(&old(wb).world, "sword"@, "sword"@, "sword"@),
        flagged(&old(wb).world, "sword"@, set![FlagView::Scenery]),
        old(wb).world.inventories@.dom() == set![LIMBO, old(wb).world.pid, old(wb).world.tag_id("clearing"@), old(wb).world.tag_id("grotto"@), old(wb).world.tag_id("hilltop"@)],
        old(wb).world.things@.dom() == set![old(wb).world.pid, old(wb).world.tag_id("hands"@), old(wb).world.tag_id("note"@), old(wb).world.tag_id("pool"@), old(wb).world.tag_id("stone"@), old(wb).world.tag_id("sword"@)],
        old(wb).world.proses@.dom() == set![old(wb).world.pid, old(wb).world.tag_id("hands"@), old(wb).world.tag_id("clearing"@), old(wb).world.tag_id("note"@), old(wb).world.tag_id("grotto"@), old(wb).world.tag_id("pool"@), old(wb).world.tag_id("hilltop"@), old(wb).world.tag_id("stone"@), old(wb).world.tag_id("sword"@)],
        old(wb).world.players@.dom() == set![old(wb).world.pid],
        flagged(&old(wb).world, "rule-story-1"@, Set::empty()),
        flagged(&old(wb).world, "guard-read-note"@, Set::empty()),
        flagged(&old(wb).world, "rule-dirty-note"@, Set::empty()),
        flagged(&old(wb).world, "guard-get-sword"@, Set::empty()),
        flagged(&old(wb).world, "rule-take-sword"@, set![FlagView::FireOnce]),
    ensures
        final(wb).ok(),
        kept(&old(wb).world, &final(wb).world),
        known_tags(&final(wb).world),
        starts_in_clearing(&final(wb).world),
        things_start(&final(wb).world),
        open_air_ways(&final(wb).world),
        cave_mouth_ways(&final(wb).world),
        story_rule(&final(wb).world),
        note_rules(&final(wb).world, final(wb).world.pid, final(wb).world.tag_id("note"@)),
        sword_rules(&final(wb).world, final(wb).world.pid, final(wb).world.tag_id("sword"@)),
        final(wb).world.rooms@.dom() == set![final(wb).world.tag_id("clearing"@), final(wb).world.tag_id("grotto"@), final(wb).world.tag_id("hilltop"@), final(wb).world.tag_id("cave-mouth"@)],
        final(wb).world.locations@.dom() == set![final(wb).world.pid, final(wb).world.tag_id("hands"@), final(wb).world.tag_id("note"@), final(wb).world.tag_id("pool"@), final(wb).world.tag_id("stone"@), final(wb).world.tag_id("sword"@)],
        clearing_described(&final(wb).world),
        grotto_described(&final(wb).world),
        hilltop_described(&final(wb).world),
        cave_mouth_described(&final(wb).world),
        things_described(&final(wb).world),
        final(wb).world.rules@.dom() == set![final(wb).world.tag_id("rule-story-1"@), final(wb).world.tag_id("guard-read-note"@), final(wb).world.tag_id("rule-dirty-note"@), final(wb).world.tag_id("guard-get-sword"@), final(wb).world.tag_id("rule-take-sword"@)],
        final(wb).world.flag_sets@.dom() == set![final(wb).world.pid, final(wb).world.tag_id("hands"@), final(wb).world.tag_id("rule-story-1"@), final(wb).world.tag_id("clearing"@), final(wb).world.tag_id("note"@), final(wb).world.tag_id("guard-read-note"@), final(wb).world.tag_id("rule-dirty-note"@), final(wb).world.tag_id("grotto"@), final(wb).world.tag_id("pool"@), final(wb).world.tag_id("hilltop"@), final(wb).world.tag_id("stone"@), final(wb).world.tag_id("sword"@), final(wb).world.tag_id("guard-get-sword"@), final(wb).world.tag_id("rule-take-sword"@), final(wb).world.tag_id("cave-mouth"@)],
        named(&final(wb).world, "PLAYER"@, "Yourself"@, "self"@),
        named(&final(wb).world, "hands"@, "hands"@, "hands"@),
        flagged(&final(wb).world, "hands"@, set![FlagView::Scenery, FlagView::User("DIRTY"@)]),
        flagged(&final(wb).world, "clearing"@, Set::empty()),
        named(&final(wb).world, "note"@, "note"@, "note"@),
        flagged(&final(wb).world, "note"@, Set::empty()),
        flagged(&final(wb).world, "grotto"@, set![FlagView::User("HAS_WATER"@)]),
        named(&final(wb).world, "pool"@, "pool"@, "pool"@),
        flagged(&final(wb).world, "pool"@, set![FlagView::Scenery]),
        flagged(&final(wb).world, "hilltop"@, Set::empty()),
        named(&final(wb).world, "stone"@, "stone"@, "stone"@),
        flagged(&final(wb).world, "stone"@, set![FlagView::Scenery]),
        named(&final(wb).world, "sword"@, "sword"@, "sword"@),
        flagged(&final(wb).world, "sword"@, set![FlagView::Scenery]),
        flagged(&final(wb).world, "cave-mouth"@, Set::empty()),
        final(wb).world.inventories@.dom() == set![LIMBO, final(wb).world.pid, final(wb).world.tag_id("clearing"@), final(wb).world.tag_id("grotto"@), final(wb).world.tag_id("hilltop"@), final(wb).world.tag_id("cave-mouth"@)],
        final(wb).world.things@.dom() == set![final(wb).world.pid, final(wb).world.tag_id("hands"@), final(wb).world.tag_id("note"@), final(wb).world.tag_id("pool"@), final(wb).world.tag_id("stone"@), final(wb).world.tag_id("sword"@)],
        final(wb).world.proses@.dom() == set![final(wb).world.pid, final(wb).world.tag_id("hands"@), final(wb).world.tag_id("clearing"@), final(wb).world.tag_id("note"@), final(wb).world.tag_id("grotto"@), final(wb).world.tag_id("pool"@), final(wb).world.tag_id("hilltop"@), final(wb).world.tag_id("stone"@), final(wb).world.tag_id("sword"@), final(wb).world.tag_id("cave-mouth"@)],
        final(wb).world.players@.dom() == set![final(wb).world.pid],
        flagged(&final(wb).world, "rule-story-1"@, Set::empty()),
        flagged(&final(wb).world, "guard-read-note"@, Set::empty()),
        flagged(&final(wb).world, "rule-dirty-note"@, Set::empty()),
        flagged(&final(wb).world, "guard-get-sword"@, Set::empty()),
        flagged(&final(wb).world, "rule-take-sword"@, set![FlagView::FireOnce]),
{
    proof {
        reveal_strlit("cave-mouth");
        reveal_strlit("PLAYER");
        reveal_strlit("hands");
        reveal_strlit("rule-story-1");
        reveal_strlit("clearing");
        reveal_strlit("note");
        reveal_strlit("guard-read-note");
        reveal_strlit("rule-dirty-note");
        reveal_strlit("grotto");
        reveal_strlit("pool");
        reveal_strlit("hilltop");
        reveal_strlit("stone");
        reveal_strlit("sword");
        reveal_strlit("guard-get-sword");
        reveal_strlit("rule-take-sword");
        lemma_differ_by_len(&wb.world, "cave-mouth"@, "PLAYER"@);
        lemma_differ_by_len(&wb.world, "cave-mouth"@, "hands"@);
        lemma_differ_by_len(&wb.world, "cave-mouth"@, "rule-story-1"@);
        lemma_differ_by_len(&wb.world, "cave-mouth"@, "clearing"@);
        lemma_differ_by_len(&wb.world, "cave-mouth"@, "note"@);
        lemma_differ_by_len(&wb.world, "cave-mouth"@, "guard-read-note"@);
        lemma_differ_by_len(&wb.world, "cave-mouth"@, "rule-dirty-note"@);
        lemma_differ_by_len(&wb.world, "cave-mouth"@, "grotto"@);
        lemma_differ_by_len(&wb.world, "cave-mouth"@, "pool"@);
        lemma_differ_by_len(&wb.world, "cave-mouth"@, "hilltop"@);
        lemma_differ_by_len(&wb.world, "cave-mouth"@, "stone"@);
        lemma_differ_by_len(&wb.world, "cave-mouth"@, "sword"@);
        lemma_differ_by_len(&wb.world, "cave-mouth"@, "guard-get-sword"@);
        lemma_differ_by_len(&wb.world, "cave-mouth"@, "rule-take-sword"@);
    }
    proof {
        reveal_strlit("cave-mouth");
        reveal_strlit("PLAYER");
        reveal_strlit("hands");
        reveal_strlit("note");
        reveal_strlit("pool");
        reveal_strlit("stone");
        reveal_strlit("sword");
        lemma_differ_by_len(&wb.world, "cave-mouth"@, "PLAYER"@);
        lemma_differ_by_len(&wb.world, "cave-mouth"@, "hands"@);
        lemma_differ_by_len(&wb.world, "cave-mouth"@, "note"@);
        lemma_differ_by_len(&wb.world, "cave-mouth"@, "pool"@);
        lemma_differ_by_len(&wb.world, "cave-mouth"@, "stone"@);
        lemma_differ_by_len(&wb.world, "cave-mouth"@, "sword"@);
    }
    // Room: Mouth of Cave
    let rb = wb.room("cave-mouth", "The Mouth of a Forbidding Cave");
    proof {
        reveal_strlit("cave-mouth");
        reveal_strlit("hilltop");
        reveal_strlit("grotto");
        reveal_strlit("clearing");
        lemma_differ_by_len(&rb.wb.world, "cave-mouth"@, "clearing"@);
        lemma_differ_by_len(&rb.wb.world, "cave-mouth"@, "grotto"@);
        lemma_differ_by_len(&rb.wb.world, "cave-mouth"@, "hilltop"@);
        assert(open_air_ways(&rb.wb.world));
        assert(things_described(&rb.wb.world));
    }
    let lb = rb.link(Dir::West, "hilltop").link(Dir::East, "cave-1");
    assert(things_described(&lb.wb.world));
    assert(clearing_described(&lb.wb.world));
    assert(grotto_described(&lb.wb.world));
    assert(hilltop_described(&lb.wb.world));
    lb.prose(CAVE_MOUTH);
    assert(open_air_ways(&wb.world));
    assert(cave_mouth_ways(&wb.world));
}

/// Adds the cave itself, its first chamber.
#[verifier::spinoff_prover]
fn add_cave(wb: &mut WorldBuilder) -> (cave: ID)
    requires
        old(wb).ok(),
        known_tags(&old(wb).world),
        starts_in_clearing(&old(wb).world),
        open_air_ways(&old(wb).world),
        cave_mouth_ways(&old(wb).world),
        things_start(&old(wb).world),
        story_rule(&old(wb).world),
        note_rules(&old(wb).world, old(wb).world.pid, old(wb).world.tag_id("note"@)),
        sword_rules(&old(wb).world, old(wb).world.pid, old(wb).world.tag_id("sword"@)),
        old(wb).world.rooms@.dom() == set![old(wb).world.tag_id("clearing"@), old(wb).world.tag_id("grotto"@), old(wb).world.tag_id("hilltop"@), old(wb).world.tag_id("cave-mouth"@)],
        old(wb).world.locations@.dom() == set![old(wb).world.pid, old(wb).world.tag_id("hands"@), old(wb).world.tag_id("note"@), old(wb).world.tag_id("pool"@), old(wb).world.tag_id("stone"@), old(wb).world.tag_id("sword"@)],
        clearing_described(&old(wb).world),
        grotto_described(&old(wb).world),
        hilltop_described(&old(wb).world),
        cave_mouth_described(&old(wb).world),
        things_described(&old(wb).world),
        old(wb).world.rules@.dom() == set![old(wb).world.tag_id("rule-story-1"@), old(wb).world.tag_id("guard-read-note"@), old(wb).world.tag_id("rule-dirty-note"@), old(wb).world.tag_id("guard-get-sword"@), old(wb).world.tag_id("rule-take-sword"@)],
        old(wb).world.flag_sets@.dom() == set![old(wb).world.pid, old(wb).world.tag_id("hands"@), old(wb).world.tag_id("rule-story-1"@), old(wb).world.tag_id("clearing"@), old(wb).world.tag_id("note"@), old(wb).world.tag_id("guard-read-note"@), old(wb).world.tag_id("rule-dirty-note"@), old(wb).world.tag_id("grotto"@), old(wb).world.tag_id("pool"@), old(wb).world.tag_id("hilltop"@), old(wb).world.tag_id("stone"@), old(wb).world.tag_id("sword"@), old(wb).world.tag_id("guard-get-sword"@), old(wb).world.tag_id("rule-take-sword"@), old(wb).world.tag_id("cave-mouth"@)],
        named(&old(wb).world, "PLAYER"@, "Yourself"@, "self"@),
        named(&old(wb).world, "hands"@, "hands"@, "hands"@),
        flagged(&old(wb).world, "hands"@, set![FlagView::Scenery, FlagView::User("DIRTY"@)]),
        flagged(&old(wb).world, "clearing"@, Set::empty()),
        named(&old(wb).world, "note"@, "note"@, "note"@),
        flagged(&old(wb).world, "note"@, Set::empty()),
        flagged(&old(wb).world, "grotto"@, set![FlagView::User("HAS_WATER"@)]),
        named(&old(wb).world, "pool"@, "pool"@, "pool"@),
        flagged(&old(wb).world, "pool"@, set![FlagView::Scenery]),
        flagged(&old(wb).world, "hilltop"@, Set::empty()),
        named(&old(wb).world, "stone"@, "stone"@, "stone"@),
        flagged(&old(wb).world, "stone"@, set![FlagView::Scenery]),
        named(&old(wb).world, "sword"@, "sword"@, "sword"@),
        flagged(&old(wb).world, "sword"@, set![FlagView::Scenery]),
        flagged(&old(wb).world, "cave-mouth"@, Set::empty()),
        old(wb).world.inventories@.dom() == set![LIMBO, old(wb).world.pid, old(wb).world.tag_id("clearing"@), old(wb).world.tag_id("grotto"@), old(wb).world.tag_id("hilltop"@), old(wb).world.tag_id("cave-mouth"@)],
        old(wb).world.things@.dom() == set![old(wb).world.pid, old(wb).world.tag_id("hands"@), old(wb).world.tag_id("note"@), old(wb).world.tag_id("pool"@), old(wb).world.tag_id("stone"@), old(wb).world.tag_id("sword"@)],
        old(wb).world.proses@.dom() == set![old(wb).world.pid, old(wb).world.tag_id("hands"@), old(wb).world.tag_id("clearing"@), old(wb).world.tag_id("note"@), old(wb).world.tag_id("grotto"@), old(wb).world.tag_id("pool"@), old(wb).world.tag_id("hilltop"@), old(wb).world.tag_id("stone"@), old(wb).world.tag_id("sword"@), old(wb).world.tag_id("cave-mouth"@)],
        old(wb).world.players@.dom() == set![old(wb).world.pid],
        flagged(&old(wb).world, "rule-story-1"@, Set::empty()),
        flagged(&old(wb).world, "guard-read-note"@, Set::empty()),
        flagged(&old(wb).world, "rule-dirty-note"@, Set::empty()),
        flagged(&old(wb).world, "guard-get-sword"@, Set::empty()),
        flagged(&old(wb).world, "rule-take-sword"@, set![FlagView::FireOnce]),
    ensures
        final(wb).ok(),
        kept(&old(wb).world, &final(wb).world),
        known_tags(&final(wb).world),
        starts_in_clearing(&final(wb).world),
        things_start(&final(wb).world),
        scenario_map(&final(wb).world),
        cave == final(wb).world.tag_id("cave-1"@),
        story_rule(&final(wb).world),
        note_rules(&final(wb).world, final(wb).world.pid, final(wb).world.tag_id("note"@)),
        sword_rules(&final(wb).world, final(wb).world.pid, final(wb).world.tag_id("sword"@)),
        final(wb).world.rooms@.dom() == set![final(wb).world.tag_id("clearing"@), final(wb).world.tag_id("grotto"@), final(wb).world.tag_id("hilltop"@), final(wb).world.tag_id("cave-mouth"@), final(wb).world.tag_id("cave-1"@)],
        final(wb).world.locations@.dom() == set![final(wb).world.pid, final(wb).world.tag_id("hands"@), final(wb).world.tag_id("note"@), final(wb).world.tag_id("pool"@), final(wb).world.tag_id("stone"@), final(wb).world.tag_id("sword"@)],
        rooms_described(&final(wb).world),
        things_described(&final(wb).world),
        final(wb).world.rules@.dom() == set![final(wb).world.tag_id("rule-story-1"@), final(wb).world.tag_id("guard-read-note"@), final(wb).world.tag_id("rule-dirty-note"@), final(wb).world.tag_id("guard-get-sword"@), final(wb).world.tag_id("rule-take-sword"@)],
        final(wb).world.flag_sets@.dom() == set![final(wb).world.pid, final(wb).world.tag_id("hands"@), final(wb).world.tag_id("rule-story-1"@), final(wb).world.tag_id("clearing"@), final(wb).world.tag_id("note"@), final(wb).world.tag_id("guard-read-note"@), final(wb).world.tag_id("rule-dirty-note"@), final(wb).world.tag_id("grotto"@), final(wb).world.tag_id("pool"@), final(wb).world.tag_id("hilltop"@), final(wb).world.tag_id("stone"@), final(wb).world.tag_id("sword"@), final(wb).world.tag_id("guard-get-sword"@), final(wb).world.tag_id("rule-take-sword"@), final(wb).world.tag_id("cave-mouth"@), final(wb).world.tag_id("cave-1"@)],
        named(&final(wb).world, "PLAYER"@, "Yourself"@, "self"@),
        named(&final(wb).world, "hands"@, "hands"@, "hands"@),
        flagged(&final(wb).world, "hands"@, set![FlagView::Scenery, FlagView::User("DIRTY"@)]),
        flagged(&final(wb).world, "clearing"@, Set::empty()),
        named(&final(wb).world, "note"@, "note"@, "note"@),
        flagged(&final(wb).world, "note"@, Set::empty()),
        flagged(&final(wb).world, "grotto"@, set![FlagView::User("HAS_WATER"@)]),
        named(&final(wb).world, "pool"@, "pool"@, "pool"@),
        flagged(&final(wb).world, "pool"@, set![FlagView::Scenery]),
        flagged(&final(wb).world, "hilltop"@, Set::empty()),
        named(&final(wb).world, "stone"@, "stone"@, "stone"@),
        flagged(&final(wb).world, "stone"@, set![FlagView::Scenery]),
        named(&final(wb).world, "sword"@, "sword"@, "sword"@),
        flagged(&final(wb).world, "sword"@, set![FlagView::Scenery]),
        flagged(&final(wb).world, "cave-mouth"@, Set::empty()),
        flagged(&final(wb).world, "cave-1"@, Set::empty()),
        final(wb).world.inventories@.dom() == set![LIMBO, final(wb).world.pid, final(wb).world.tag_id("clearing"@), final(wb).world.tag_id("grotto"@), final(wb).world.tag_id("hilltop"@), final(wb).world.tag_id("cave-mouth"@), final(wb).world.tag_id("cave-1"@)],
        final(wb).world.things@.dom() == set![final(wb).world.pid, final(wb).world.tag_id("hands"@), final(wb).world.tag_id("note"@), final(wb).world.tag_id("pool"@), final(wb).world.tag_id("stone"@), final(wb).world.tag_id("sword"@)],
        final(wb).world.proses@.dom() == set![final(wb).world.pid, final(wb).world.tag_id("hands"@), final(wb).world.tag_id("clearing"@), final(wb).world.tag_id("note"@), final(wb).world.tag_id("grotto"@), final(wb).world.tag_id("pool"@), final(wb).world.tag_id("hilltop"@), final(wb).world.tag_id("stone"@), final(wb).world.tag_id("sword"@), final(wb).world.tag_id("cave-mouth"@), final(wb).world.tag_id("cave-1"@)],
        final(wb).world.players@.dom() == set![final(wb).world.pid],
        flagged(&final(wb).world, "rule-story-1"@, Set::empty()),
        flagged(&final(wb).world, "guard-read-note"@, Set::empty()),
        flagged(&final(wb).world, "rule-dirty-note"@, Set::empty()),
        flagged(&final(wb).world, "guard-get-sword"@, Set::empty()),
        flagged(&final(wb).world, "rule-take-sword"@, set![FlagView::FireOnce]),
{
    proof {
        reveal_strlit("cave-1");
        reveal_strlit("PLAYER");
        reveal_strlit("hands");
        reveal_strlit("rule-story-1");
        reveal_strlit("clearing");
        reveal_strlit("note");
        reveal_strlit("guard-read-note");
        reveal_strlit("rule-dirty-note");
        reveal_strlit("grotto");
        reveal_strlit("pool");
        reveal_strlit("hilltop");
        reveal_strlit("stone");
        reveal_strlit("sword");
        reveal_strlit("guard-get-sword");
        reveal_strlit("rule-take-sword");
        reveal_strlit("cave-mouth");
        lemma_differ_at(&wb.world, "cave-1"@, "PLAYER"@, 0);
        lemma_differ_by_len(&wb.world, "cave-1"@, "hands"@);
        lemma_differ_by_len(&wb.world, "cave-1"@, "rule-story-1"@);
        lemma_differ_by_len(&wb.world, "cave-1"@, "clearing"@);
        lemma_differ_by_len(&wb.world, "cave-1"@, "note"@);
        lemma_differ_by_len(&wb.world, "cave-1"@, "guard-read-note"@);
        lemma_differ_by_len(&wb.world, "cave-1"@, "rule-dirty-note"@);
        lemma_differ_at(&wb.world, "cave-1"@, "grotto"@, 0);
        lemma_differ_by_len(&wb.world, "cave-1"@, "pool"@);
        lemma_differ_by_len(&wb.world, "cave-1"@, "hilltop"@);
        lemma_differ_by_len(&wb.world, "cave-1"@, "stone"@);
        lemma_differ_by_len(&wb.world, "cave-1"@, "sword"@);
        lemma_differ_by_len(&wb.world, "cave-1"@, "guard-get-sword"@);
        lemma_differ_by_len(&wb.world, "cave-1"@, "rule-take-sword"@);
        lemma_differ_by_len(&wb.world, "cave-1"@, "cave-mouth"@);
    }
    proof {
        reveal_strlit("cave-1");
        reveal_strlit("PLAYER");
        reveal_strlit("hands");
        reveal_strlit("note");
        reveal_strlit("pool");
        reveal_strlit("stone");
        reveal_strlit("sword");
        lemma_differ_at(&wb.world, "cave-1"@, "PLAYER"@, 0);
        lemma_differ_by_len(&wb.world, "cave-1"@, "hands"@);
        lemma_differ_by_len(&wb.world, "cave-1"@, "note"@);
        lemma_differ_by_len(&wb.world, "cave-1"@, "pool"@);
        lemma_differ_by_len(&wb.world, "cave-1"@, "stone"@);
        lemma_differ_by_len(&wb.world, "cave-1"@, "sword"@);
    }
    // Room: The Cave, First Chamber
    let rb = wb.room("cave-1", "In the Cave");
    proof {
        reveal_strlit("cave-1");
        reveal_strlit("cave-mouth");
        reveal_strlit("hilltop");
        reveal_strlit("grotto");
        reveal_strlit("clearing");
        lemma_differ_by_len(&rb.wb.world, "cave-1"@, "clearing"@);
        lemma_differ_by_len(&rb.wb.world, "cave-1"@, "hilltop"@);
        lemma_differ_by_len(&rb.wb.world, "cave-1"@, "cave-mouth"@);
        assert("cave-1"@[0] != "grotto"@[0]);
        lemma_tags_differ(&rb.wb.world, "cave-1"@, "grotto"@);
        assert(open_air_ways(&rb.wb.world));
        assert(cave_mouth_ways(&rb.wb.world));
    }
    assert(clearing_described(&rb.wb.world));
    assert(grotto_described(&rb.wb.world));
    assert(hilltop_described(&rb.wb.world));
    assert(cave_mouth_described(&rb.wb.world));
    let db = rb.link(Dir::West, "cave-mouth").dead_end(
        Dir::East,
        "\
At least, it would if the developer had implemented it yet.
        ",
    );
    assert(clearing_described(&db.wb.world));
    assert(grotto_described(&db.wb.world));
    assert(hilltop_described(&db.wb.world));
    assert(cave_mouth_described(&db.wb.world));
    let cave = db.prose(CAVE).id;
    assert(clearing_described(&wb.world));
    assert(grotto_described(&wb.world));
    assert(hilltop_described(&wb.world));
    assert(cave_mouth_described(&wb.world));
    assert(cave_described(&wb.world));
    assert(open_air_ways(&wb.world));
    assert(cave_mouth_ways(&wb.world));
    assert(cave_ways(&wb.world));
    cave
}

/// Adds the rules about the cave.
#[verifier::spinoff_prover]
#[verifier::rlimit(60)]
fn add_cave_rules(wb: &mut WorldBuilder, pid: ID, cave: ID)
    requires
        old(wb).ok(),
        old(wb).world.tag_exists("sword"@),
        old(wb).world.has_flags_spec(old(wb).world.tag_id("sword"@)),
        old(wb).world.tag_exists("PLAYER"@),
        old(wb).world.has_flags_spec(old(wb).world.tag_id("PLAYER"@)),
        known_tags(&old(wb).world),
        starts_in_clearing(&old(wb).world),
        scenario_map(&old(wb).world),
        things_start(&old(wb).world),
        story_rule(&old(wb).world),
        note_rules(&old(wb).world, old(wb).world.pid, old(wb).world.tag_id("note"@)),
        sword_rules(&old(wb).world, old(wb).world.pid, old(wb).world.tag_id("sword"@)),
        old(wb).world.rooms@.dom() == set![old(wb).world.tag_id("clearing"@), old(wb).world.tag_id("grotto"@), old(wb).world.tag_id("hilltop"@), old(wb).world.tag_id("cave-mouth"@), old(wb).world.tag_id("cave-1"@)],
        old(wb).world.locations@.dom() == set![old(wb).world.pid, old(wb).world.tag_id("hands"@), old(wb).world.tag_id("note"@), old(wb).world.tag_id("pool"@), old(wb).world.tag_id("stone"@), old(wb).world.tag_id("sword"@)],
        rooms_described(&old(wb).world),
        things_described(&old(wb).world),
        old(wb).world.rules@.dom() == set![old(wb).world.tag_id("rule-story-1"@), old(wb).world.tag_id("guard-read-note"@), old(wb).world.tag_id("rule-dirty-note"@), old(wb).world.tag_id("guard-get-sword"@), old(wb).world.tag_id("rule-take-sword"@)],
        old(wb).world.flag_sets@.dom() == set![old(wb).world.pid, old(wb).world.tag_id("hands"@), old(wb).world.tag_id("rule-story-1"@), old(wb).world.tag_id("clearing"@), old(wb).world.tag_id("note"@), old(wb).world.tag_id("guard-read-note"@), old(wb).world.tag_id("rule-dirty-note"@), old(wb).world.tag_id("grotto"@), old(wb).world.tag_id("pool"@), old(wb).world.tag_id("hilltop"@), old(wb).world.tag_id("stone"@), old(wb).world.tag_id("sword"@), old(wb).world.tag_id("guard-get-sword"@), old(wb).world.tag_id("rule-take-sword"@), old(wb).world.tag_id("cave-mouth"@), old(wb).world.tag_id("cave-1"@)],
        named(&old(wb).world, "PLAYER"@, "Yourself"@, "self"@),
        named(&old(wb).world, "hands"@, "hands"@, "hands"@),
        flagged(&old(wb).world, "hands"@, set![FlagView::Scenery, FlagView::User("DIRTY"@)]),
        flagged(&old(wb).world, "clearing"@, Set::empty()),
        named(&old(wb).world, "note"@, "note"@, "note"@),
        flagged(&old(wb).world, "note"@, Set::empty()),
        flagged(&old(wb).world, "grotto"@, set![FlagView::User("HAS_WATER"@)]),
        named(&old(wb).world, "pool"@, "pool"@, "pool"@),
        flagged(&old(wb).world, "pool"@, set![FlagView::Scenery]),
        flagged(&old(wb).world, "hilltop"@, Set::empty()),
        named(&old(wb).world, "stone"@, "stone"@, "stone"@),
        flagged(&old(wb).world, "stone"@, set![FlagView::Scenery]),
        named(&old(wb).world, "sword"@, "sword"@, "sword"@),
        flagged(&old(wb).world, "sword"@, set![FlagView::Scenery]),
        flagged(&old(wb).world, "cave-mouth"@, Set::empty()),
        flagged(&old(wb).world, "cave-1"@, Set::empty()),
        old(wb).world.inventories@.dom() == set![LIMBO, old(wb).world.pid, old(wb).world.tag_id("clearing"@), old(wb).world.tag_id("grotto"@), old(wb).world.tag_id("hilltop"@), old(wb).world.tag_id("cave-mouth"@), old(wb).world.tag_id("cave-1"@)],
        old(wb).world.things@.dom() == set![old(wb).world.pid, old(wb).world.tag_id("hands"@), old(wb).world.tag_id("note"@), old(wb).world.tag_id("pool"@), old(wb).world.tag_id("stone"@), old(wb).world.tag_id("sword"@)],
        old(wb).world.proses@.dom() == set![old(wb).world.pid, old(wb).world.tag_id("hands"@), old(wb).world.tag_id("clearing"@), old(wb).world.tag_id("note"@), old(wb).world.tag_id("grotto"@), old(wb).world.tag_id("pool"@), old(wb).world.tag_id("hilltop"@), old(wb).world.tag_id("stone"@), old(wb).world.tag_id("sword"@), old(wb).world.tag_id("cave-mouth"@), old(wb).world.tag_id("cave-1"@)],
        old(wb).world.players@.dom() == set![old(wb).world.pid],
        flagged(&old(wb).world, "rule-story-1"@, Set::empty()),
        flagged(&old(wb).world, "guard-read-note"@, Set::empty()),
        flagged(&old(wb).world, "rule-dirty-note"@, Set::empty()),
        flagged(&old(wb).world, "guard-get-sword"@, Set::empty()),
        flagged(&old(wb).world, "rule-take-sword"@, set![FlagView::FireOnce]),
    ensures
        final(wb).ok(),
        kept(&old(wb).world, &final(wb).world),
        known_tags(&final(wb).world),
        starts_in_clearing(&final(wb).world),
        things_start(&final(wb).world),
        scenario_map(&final(wb).world),
        cave_rules(&final(wb).world, pid, cave),
        story_rule(&final(wb).world),
        note_rules(&final(wb).world, final(wb).world.pid, final(wb).world.tag_id("note"@)),
        sword_rules(&final(wb).world, final(wb).world.pid, final(wb).world.tag_id("sword"@)),
        final(wb).world.rooms@.dom() == set![final(wb).world.tag_id("clearing"@), final(wb).world.tag_id("grotto"@), final(wb).world.tag_id("hilltop"@), final(wb).world.tag_id("cave-mouth"@), final(wb).world.tag_id("cave-1"@)],
        final(wb).world.locations@.dom() == set![final(wb).world.pid, final(wb).world.tag_id("hands"@), final(wb).world.tag_id("note"@), final(wb).world.tag_id("pool"@), final(wb).world.tag_id("stone"@), final(wb).world.tag_id("sword"@)],
        rooms_described(&final(wb).world),
        things_described(&final(wb).world),
        final(wb).world.rules@.dom() == set![final(wb).world.tag_id("rule-story-1"@), final(wb).world.tag_id("guard-read-note"@), final(wb).world.tag_id("rule-dirty-note"@), final(wb).world.tag_id("guard-get-sword"@), final(wb).world.tag_id("rule-take-sword"@), final(wb).world.tag_id("guard-enter-cave"@), final(wb).world.tag_id("rule-enter-cave"@)],
        final(wb).world.flag_sets@.dom() == set![final(wb).world.pid, final(wb).world.tag_id("hands"@), final(wb).world.tag_id("rule-story-1"@), final(wb).world.tag_id("clearing"@), final(wb).world.tag_id("note"@), final(wb).world.tag_id("guard-read-note"@), final(wb).world.tag_id("rule-dirty-note"@), final(wb).world.tag_id("grotto"@), final(wb).world.tag_id("pool"@), final(wb).world.tag_id("hilltop"@), final(wb).world.tag_id("stone"@), final(wb).world.tag_id("sword"@), final(wb).world.tag_id("guard-get-sword"@), final(wb).world.tag_id("rule-take-sword"@), final(wb).world.tag_id("cave-mouth"@), final(wb).world.tag_id("cave-1"@), final(wb).world.tag_id("guard-enter-cave"@), final(wb).world.tag_id("rule-enter-cave"@)],
        named(&final(wb).world, "PLAYER"@, "Yourself"@, "self"@),
        named(&final(wb).world, "hands"@, "hands"@, "hands"@),
        flagged(&final(wb).world, "hands"@, set![FlagView::Scenery, FlagView::User("DIRTY"@)]),
        flagged(&final(wb).world, "clearing"@, Set::empty()),
        named(&final(wb).world, "note"@, "note"@, "note"@),
        flagged(&final(wb).world, "note"@, Set::empty()),
        flagged(&final(wb).world, "grotto"@, set![FlagView::User("HAS_WATER"@)]),
        named(&final(wb).world, "pool"@, "pool"@, "pool"@),
        flagged(&final(wb).world, "pool"@, set![FlagView::Scenery]),
        flagged(&final(wb).world, "hilltop"@, Set::empty()),
        named(&final(wb).world, "stone"@, "stone"@, "stone"@),
        flagged(&final(wb).world, "stone"@, set![FlagView::Scenery]),
        named(&final(wb).world, "sword"@, "sword"@, "sword"@),
        flagged(&final(wb).world, "sword"@, set![FlagView::Scenery]),
        flagged(&final(wb).world, "cave-mouth"@, Set::empty()),
        flagged(&final(wb).world, "cave-1"@, Set::empty()),
        final(wb).world.inventories@.dom() == set![LIMBO, final(wb).world.pid, final(wb).world.tag_id("clearing"@), final(wb).world.tag_id("grotto"@), final(wb).world.tag_id("hilltop"@), final(wb).world.tag_id("cave-mouth"@), final(wb).world.tag_id("cave-1"@)],
        final(wb).world.things@.dom() == set![final(wb).world.pid, final(wb).world.tag_id("hands"@), final(wb).world.tag_id("note"@), final(wb).world.tag_id("pool"@), final(wb).world.tag_id("stone"@), final(wb).world.tag_id("sword"@)],
        final(wb).world.proses@.dom() == set![final(wb).world.pid, final(wb).world.tag_id("hands"@), final(wb).world.tag_id("clearing"@), final(wb).world.tag_id("note"@), final(wb).world.tag_id("grotto"@), final(wb).world.tag_id("pool"@), final(wb).world.tag_id("hilltop"@), final(wb).world.tag_id("stone"@), final(wb).world.tag_id("sword"@), final(wb).world.tag_id("cave-mouth"@), final(wb).world.tag_id("cave-1"@)],
        final(wb).world.players@.dom() == set![final(wb).world.pid],
        flagged(&final(wb).world, "rule-story-1"@, Set::empty()),
        flagged(&final(wb).world, "guard-read-note"@, Set::empty()),
        flagged(&final(wb).world, "rule-dirty-note"@, Set::empty()),
        flagged(&final(wb).world, "guard-get-sword"@, Set::empty()),
        flagged(&final(wb).world, "rule-take-sword"@, set![FlagView::FireOnce]),
        flagged(&final(wb).world, "guard-enter-cave"@, Set::empty()),
        flagged(&final(wb).world, "rule-enter-cave"@, set![FlagView::FireOnce]),
{
    // The player can't enter the cave without the sword.
    let tb = wb.allow("guard-enter-cave", Event::EnterRoom(pid, cave));
    proof {
        reveal_strlit("guard-enter-cave");
        reveal_strlit("PLAYER");
        reveal_strlit("hands");
        reveal_strlit("rule-story-1");
        reveal_strlit("clearing");
        reveal_strlit("note");
        reveal_strlit("guard-read-note");
        reveal_strlit("rule-dirty-note");
        reveal_strlit("grotto");
        reveal_strlit("pool");
        reveal_strlit("hilltop");
        reveal_strlit("stone");
        reveal_strlit("sword");
        reveal_strlit("guard-get-sword");
        reveal_strlit("rule-take-sword");
        reveal_strlit("cave-mouth");
        reveal_strlit("cave-1");
        lemma_differ_by_len(&tb.wb.world, "guard-enter-cave"@, "PLAYER"@);
        lemma_differ_by_len(&tb.wb.world, "guard-enter-cave"@, "hands"@);
        lemma_differ_by_len(&tb.wb.world, "guard-enter-cave"@, "rule-story-1"@);
        lemma_differ_by_len(&tb.wb.world, "guard-enter-cave"@, "clearing"@);
        lemma_differ_by_len(&tb.wb.world, "guard-enter-cave"@, "note"@);
        lemma_differ_by_len(&tb.wb.world, "guard-enter-cave"@, "guard-read-note"@);
        lemma_differ_by_len(&tb.wb.world, "guard-enter-cave"@, "rule-dirty-note"@);
        lemma_differ_by_len(&tb.wb.world, "guard-enter-cave"@, "grotto"@);
        lemma_differ_by_len(&tb.wb.world, "guard-enter-cave"@, "pool"@);
        lemma_differ_by_len(&tb.wb.world, "guard-enter-cave"@, "hilltop"@);
        lemma_differ_by_len(&tb.wb.world, "guard-enter-cave"@, "stone"@);
        lemma_differ_by_len(&tb.wb.world, "guard-enter-cave"@, "sword"@);
        lemma_differ_by_len(&tb.wb.world, "guard-enter-cave"@, "guard-get-sword"@);
        lemma_differ_by_len(&tb.wb.world, "guard-enter-cave"@, "rule-take-sword"@);
        lemma_differ_by_len(&tb.wb.world, "guard-enter-cave"@, "cave-mouth"@);
        lemma_differ_by_len(&tb.wb.world, "guard-enter-cave"@, "cave-1"@);
        let w = tb.wb.world;
        assert(w.pred_ok(Predicate::Owns("PLAYER", "sword")));
        reveal_strlit("guard-enter-cave");
        reveal_strlit("rule-story-1");
        reveal_strlit("guard-read-note");
        reveal_strlit("rule-dirty-note");
        reveal_strlit("guard-get-sword");
        reveal_strlit("rule-take-sword");
        lemma_differ_by_len(&w, "guard-enter-cave"@, "rule-story-1"@);
        lemma_differ_by_len(&w, "guard-enter-cave"@, "guard-read-note"@);
        lemma_differ_by_len(&w, "guard-enter-cave"@, "rule-dirty-note"@);
        lemma_differ_by_len(&w, "guard-enter-cave"@, "guard-get-sword"@);
        lemma_differ_by_len(&w, "guard-enter-cave"@, "rule-take-sword"@);
        assert(story_rule(&w));
        assert(note_rules(&w, w.pid, w.tag_id("note"@)));
        assert(sword_rules(&w, w.pid, w.tag_id("sword"@)));
    }
    tb.when(Predicate::Not(Box::new(Predicate::Owns(PLAYER, "sword")))).print(CAVE_REFUSED);
    proof {
        assert(story_rule(&wb.world));
        assert(note_rules(&wb.world, wb.world.pid, wb.world.tag_id("note"@)));
        assert(sword_rules(&wb.world, wb.world.pid, wb.world.tag_id("sword"@)));
    }
    assert(places_kept(&old(wb).world, &wb.world));
    assert(cave_guard(&wb.world, pid, cave));
    let ghost w1 = wb.world;

    // The first time the player enters the cave, magic happens.
    let rb = wb.rule("rule-enter-cave");
    proof {
        reveal_strlit("rule-enter-cave");
        reveal_strlit("PLAYER");
        reveal_strlit("hands");
        reveal_strlit("rule-story-1");
        reveal_strlit("clearing");
        reveal_strlit("note");
        reveal_strlit("guard-read-note");
        reveal_strlit("rule-dirty-note");
        reveal_strlit("grotto");
        reveal_strlit("pool");
        reveal_strlit("hilltop");
        reveal_strlit("stone");
        reveal_strlit("sword");
        reveal_strlit("guard-get-sword");
        reveal_strlit("rule-take-sword");
        reveal_strlit("cave-mouth");
        reveal_strlit("cave-1");
        reveal_strlit("guard-enter-cave");
        lemma_differ_by_len(&rb.wb.world, "rule-enter-cave"@, "PLAYER"@);
        lemma_differ_by_len(&rb.wb.world, "rule-enter-cave"@, "hands"@);
        lemma_differ_by_len(&rb.wb.world, "rule-enter-cave"@, "rule-story-1"@);
        lemma_differ_by_len(&rb.wb.world, "rule-enter-cave"@, "clearing"@);
        lemma_differ_by_len(&rb.wb.world, "rule-enter-cave"@, "note"@);
        lemma_differ_at(&rb.wb.world, "rule-enter-cave"@, "guard-read-note"@, 0);
        lemma_differ_at(&rb.wb.world, "rule-enter-cave"@, "rule-dirty-note"@, 5);
        lemma_differ_by_len(&rb.wb.world, "rule-enter-cave"@, "grotto"@);
        lemma_differ_by_len(&rb.wb.world, "rule-enter-cave"@, "pool"@);
        lemma_differ_by_len(&rb.wb.world, "rule-enter-cave"@, "hilltop"@);
        lemma_differ_by_len(&rb.wb.world, "rule-enter-cave"@, "stone"@);
        lemma_differ_by_len(&rb.wb.world, "rule-enter-cave"@, "sword"@);
        lemma_differ_at(&rb.wb.world, "rule-enter-cave"@, "guard-get-sword"@, 0);
        lemma_differ_at(&rb.wb.world, "rule-enter-cave"@, "rule-take-sword"@, 5);
        lemma_differ_by_len(&rb.wb.world, "rule-enter-cave"@, "cave-mouth"@);
        lemma_differ_by_len(&rb.wb.world, "rule-enter-cave"@, "cave-1"@);
        lemma_differ_by_len(&rb.wb.world, "rule-enter-cave"@, "guard-enter-cave"@);
        reveal_strlit("guard-enter-cave");
        reveal_strlit("rule-enter-cave");
        lemma_differ_by_len(&rb.wb.world, "guard-enter-cave"@, "rule-enter-cave"@);
        lemma_not_player(&rb.wb.world, "rule-enter-cave"@);
        reveal_strlit("rule-enter-cave");
        reveal_strlit("hands");
        reveal_strlit("note");
        reveal_strlit("pool");
        reveal_strlit("stone");
        reveal_strlit("sword");
        reveal_strlit("clearing");
        reveal_strlit("grotto");
        reveal_strlit("hilltop");
        reveal_strlit("cave-mouth");
        reveal_strlit("cave-1");
        lemma_differ_by_len(&rb.wb.world, "rule-enter-cave"@, "hands"@);
        lemma_differ_by_len(&rb.wb.world, "rule-enter-cave"@, "note"@);
        lemma_differ_by_len(&rb.wb.world, "rule-enter-cave"@, "pool"@);
        lemma_differ_by_len(&rb.wb.world, "rule-enter-cave"@, "stone"@);
        lemma_differ_by_len(&rb.wb.world, "rule-enter-cave"@, "sword"@);
        lemma_differ_by_len(&rb.wb.world, "rule-enter-cave"@, "clearing"@);
        lemma_differ_by_len(&rb.wb.world, "rule-enter-cave"@, "grotto"@);
        lemma_differ_by_len(&rb.wb.world, "rule-enter-cave"@, "hilltop"@);
        lemma_differ_by_len(&rb.wb.world, "rule-enter-cave"@, "cave-mouth"@);
        lemma_differ_by_len(&rb.wb.world, "rule-enter-cave"@, "cave-1"@);
        assert(cave_guard(&rb.wb.world, pid, cave));
        reveal_strlit("rule-story-1");
        reveal_strlit("guard-read-note");
        reveal_strlit("rule-dirty-note");
        reveal_strlit("guard-get-sword");
        reveal_strlit("rule-take-sword");
        let w = rb.wb.world;
        lemma_differ_by_len(&w, "rule-enter-cave"@, "rule-story-1"@);
        lemma_differ_at(&w, "rule-enter-cave"@, "guard-read-note"@, 0);
        lemma_differ_at(&w, "rule-enter-cave"@, "rule-dirty-note"@, 5);
        lemma_differ_at(&w, "rule-enter-cave"@, "guard-get-sword"@, 0);
        lemma_differ_at(&w, "rule-enter-cave"@, "rule-take-sword"@, 5);
        assert(story_rule(&w));
        assert(note_rules(&w, w.pid, w.tag_id("note"@)));
        assert(sword_rules(&w, w.pid, w.tag_id("sword"@)));
    }
    rb.on(Event::EnterRoom(pid, cave)).once_only().print(CAVE_ENTERED);
    proof {
        assert(cave_guard(&wb.world, pid, cave));
        assert(enter_cave_rule(&wb.world, pid, cave));
        assert(places_kept(&w1, &wb.world));
        assert(places_kept(&old(wb).world, &wb.world));
        lemma_places_kept(&old(wb).world, &wb.world);
    }
}

/// Adds the rule that revives a dead player.
#[verifier::spinoff_prover]
#[verifier::rlimit(60)]
fn add_fairy_godmother(wb: &mut WorldBuilder)
    requires
        old(wb).ok(),
        old(wb).world.tag_exists("PLAYER"@),
        old(wb).world.has_flags_spec(old(wb).world.tag_id("PLAYER"@)),
        known_tags(&old(wb).world),
        starts_in_clearing(&old(wb).world),
        scenario_map(&old(wb).world),
        things_start(&old(wb).world),
        story_rule(&old(wb).world),
        note_rules(&old(wb).world, old(wb).world.pid, old(wb).world.tag_id("note"@)),
        sword_rules(&old(wb).world, old(wb).world.pid, old(wb).world.tag_id("sword"@)),
        cave_rules(&old(wb).world, old(wb).world.pid, old(wb).world.tag_id("cave-1"@)),
        old(wb).world.rooms@.dom() == set![old(wb).world.tag_id("clearing"@), old(wb).world.tag_id("grotto"@), old(wb).world.tag_id("hilltop"@), old(wb).world.tag_id("cave-mouth"@), old(wb).world.tag_id("cave-1"@)],
        old(wb).world.locations@.dom() == set![old(wb).world.pid, old(wb).world.tag_id("hands"@), old(wb).world.tag_id("note"@), old(wb).world.tag_id("pool"@), old(wb).world.tag_id("stone"@), old(wb).world.tag_id("sword"@)],
        rooms_described(&old(wb).world),
        things_described(&old(wb).world),
        old(wb).world.rules@.dom() == set![old(wb).world.tag_id("rule-story-1"@), old(wb).world.tag_id("guard-read-note"@), old(wb).world.tag_id("rule-dirty-note"@), old(wb).world.tag_id("guard-get-sword"@), old(wb).world.tag_id("rule-take-sword"@), old(wb).world.tag_id("guard-enter-cave"@), old(wb).world.tag_id("rule-enter-cave"@)],
        old(wb).world.flag_sets@.dom() == set![old(wb).world.pid, old(wb).world.tag_id("hands"@), old(wb).world.tag_id("rule-story-1"@), old(wb).world.tag_id("clearing"@), old(wb).world.tag_id("note"@), old(wb).world.tag_id("guard-read-note"@), old(wb).world.tag_id("rule-dirty-note"@), old(wb).world.tag_id("grotto"@), old(wb).world.tag_id("pool"@), old(wb).world.tag_id("hilltop"@), old(wb).world.tag_id("stone"@), old(wb).world.tag_id("sword"@), old(wb).world.tag_id("guard-get-sword"@), old(wb).world.tag_id("rule-take-sword"@), old(wb).world.tag_id("cave-mouth"@), old(wb).world.tag_id("cave-1"@), old(wb).world.tag_id("guard-enter-cave"@), old(wb).world.tag_id("rule-enter-cave"@)],
        named(&old(wb).world, "PLAYER"@, "Yourself"@, "self"@),
        named(&old(wb).world, "hands"@, "hands"@, "hands"@),
        flagged(&old(wb).world, "hands"@, set![FlagView::Scenery, FlagView::User("DIRTY"@)]),
        flagged(&old(wb).world, "clearing"@, Set::empty()),
        named(&old(wb).world, "note"@, "note"@, "note"@),
        flagged(&old(wb).world, "note"@, Set::empty()),
        flagged(&old(wb).world, "grotto"@, set![FlagView::User("HAS_WATER"@)]),
        named(&old(wb).world, "pool"@, "pool"@, "pool"@),
        flagged(&old(wb).world, "pool"@, set![FlagView::Scenery]),
        flagged(&old(wb).world, "hilltop"@, Set::empty()),
        named(&old(wb).world, "stone"@, "stone"@, "stone"@),
        flagged(&old(wb).world, "stone"@, set![FlagView::Scenery]),
        named(&old(wb).world, "sword"@, "sword"@, "sword"@),
        flagged(&old(wb).world, "sword"@, set![FlagView::Scenery]),
        flagged(&old(wb).world, "cave-mouth"@, Set::empty()),
        flagged(&old(wb).world, "cave-1"@, Set::empty()),
        old(wb).world.inventories@.dom() == set![LIMBO, old(wb).world.pid, old(wb).world.tag_id("clearing"@), old(wb).world.tag_id("grotto"@), old(wb).world.tag_id("hilltop"@), old(wb).world.tag_id("cave-mouth"@), old(wb).world.tag_id("cave-1"@)],
        old(wb).world.things@.dom() == set![old(wb).world.pid, old(wb).world.tag_id("hands"@), old(wb).world.tag_id("note"@), old(wb).world.tag_id("pool"@), old(wb).world.tag_id("stone"@), old(wb).world.tag_id("sword"@)],
        old(wb).world.proses@.dom() == set![old(wb).world.pid, old(wb).world.tag_id("hands"@), old(wb).world.tag_id("clearing"@), old(wb).world.tag_id("note"@), old(wb).world.tag_id("grotto"@), old(wb).world.tag_id("pool"@), old(wb).world.tag_id("hilltop"@), old(wb).world.tag_id("stone"@), old(wb).world.tag_id("sword"@), old(wb).world.tag_id("cave-mouth"@), old(wb).world.tag_id("cave-1"@)],
        old(wb).world.players@.dom() == set![old(wb).world.pid],
        flagged(&old(wb).world, "rule-story-1"@, Set::empty()),
        flagged(&old(wb).world, "guard-read-note"@, Set::empty()),
        flagged(&old(wb).world, "rule-dirty-note"@, Set::empty()),
        flagged(&old(wb).world, "guard-get-sword"@, Set::empty()),
        flagged(&old(wb).world, "rule-take-sword"@, set![FlagView::FireOnce]),
        flagged(&old(wb).world, "guard-enter-cave"@, Set::empty()),
        flagged(&old(wb).world, "rule-enter-cave"@, set![FlagView::FireOnce]),
    ensures
        final(wb).ok(),
        kept(&old(wb).world, &final(wb).world),
        known_tags(&final(wb).world),
        starts_in_clearing(&final(wb).world),
        things_start(&final(wb).world),
        scenario_map(&final(wb).world),
        fairy_rule(&final(wb).world),
        story_rule(&final(wb).world),
        note_rules(&final(wb).world, final(wb).world.pid, final(wb).world.tag_id("note"@)),
        sword_rules(&final(wb).world, final(wb).world.pid, final(wb).world.tag_id("sword"@)),
        cave_rules(&final(wb).world, final(wb).world.pid, final(wb).world.tag_id("cave-1"@)),
        final(wb).world.rooms@.dom() == set![final(wb).world.tag_id("clearing"@), final(wb).world.tag_id("grotto"@), final(wb).world.tag_id("hilltop"@), final(wb).world.tag_id("cave-mouth"@), final(wb).world.tag_id("cave-1"@)],
        final(wb).world.locations@.dom() == set![final(wb).world.pid, final(wb).world.tag_id("hands"@), final(wb).world.tag_id("note"@), final(wb).world.tag_id("pool"@), final(wb).world.tag_id("stone"@), final(wb).world.tag_id("sword"@)],
        rooms_described(&final(wb).world),
        things_described(&final(wb).world),
        final(wb).world.rules@.dom() == set![final(wb).world.tag_id("rule-story-1"@), final(wb).world.tag_id("guard-read-note"@), final(wb).world.tag_id("rule-dirty-note"@), final(wb).world.tag_id("guard-get-sword"@), final(wb).world.tag_id("rule-take-sword"@), final(wb).world.tag_id("guard-enter-cave"@), final(wb).world.tag_id("rule-enter-cave"@), final(wb).world.tag_id("fairy-godmother-rule"@)],
        final(wb).world.flag_sets@.dom() == set![final(wb).world.pid, final(wb).world.tag_id("hands"@), final(wb).world.tag_id("rule-story-1"@), final(wb).world.tag_id("clearing"@), final(wb).world.tag_id("note"@), final(wb).world.tag_id("guard-read-note"@), final(wb).world.tag_id("rule-dirty-note"@), final(wb).world.tag_id("grotto"@), final(wb).world.tag_id("pool"@), final(wb).world.tag_id("hilltop"@), final(wb).world.tag_id("stone"@), final(wb).world.tag_id("sword"@), final(wb).world.tag_id("guard-get-sword"@), final(wb).world.tag_id("rule-take-sword"@), final(wb).world.tag_id("cave-mouth"@), final(wb).world.tag_id("cave-1"@), final(wb).world.tag_id("guard-enter-cave"@), final(wb).world.tag_id("rule-enter-cave"@), final(wb).world.tag_id("fairy-godmother-rule"@)],
        named(&final(wb).world, "PLAYER"@, "Yourself"@, "self"@),
        named(&final(wb).world, "hands"@, "hands"@, "hands"@),
        flagged(&final(wb).world, "hands"@, set![FlagView::Scenery, FlagView::User("DIRTY"@)]),
        flagged(&final(wb).world, "clearing"@, Set::empty()),
        named(&final(wb).world, "note"@, "note"@, "note"@),
        flagged(&final(wb).world, "note"@, Set::empty()),
        flagged(&final(wb).world, "grotto"@, set![FlagView::User("HAS_WATER"@)]),
        named(&final(wb).world, "pool"@, "pool"@, "pool"@),
        flagged(&final(wb).world, "pool"@, set![FlagView::Scenery]),
        flagged(&final(wb).world, "hilltop"@, Set::empty()),
        named(&final(wb).world, "stone"@, "stone"@, "stone"@),
        flagged(&final(wb).world, "stone"@, set![FlagView::Scenery]),
        named(&final(wb).world, "sword"@, "sword"@, "sword"@),
        flagged(&final(wb).world, "sword"@, set![FlagView::Scenery]),
        flagged(&final(wb).world, "cave-mouth"@, Set::empty()),
        flagged(&final(wb).world, "cave-1"@, Set::empty()),
        final(wb).world.inventories@.dom() == set![LIMBO, final(wb).world.pid, final(wb).world.tag_id("clearing"@), final(wb).world.tag_id("grotto"@), final(wb).world.tag_id("hilltop"@), final(wb).world.tag_id("cave-mouth"@), final(wb).world.tag_id("cave-1"@)],
        final(wb).world.things@.dom() == set![final(wb).world.pid, final(wb).world.tag_id("hands"@), final(wb).world.tag_id("note"@), final(wb).world.tag_id("pool"@), final(wb).world.tag_id("stone"@), final(wb).world.tag_id("sword"@)],
        final(wb).world.proses@.dom() == set![final(wb).world.pid, final(wb).world.tag_id("hands"@), final(wb).world.tag_id("clearing"@), final(wb).world.tag_id("note"@), final(wb).world.tag_id("grotto"@), final(wb).world.tag_id("pool"@), final(wb).world.tag_id("hilltop"@), final(wb).world.tag_id("stone"@), final(wb).world.tag_id("sword"@), final(wb).world.tag_id("cave-mouth"@), final(wb).world.tag_id("cave-1"@)],
        final(wb).world.players@.dom() == set![final(wb).world.pid],
        flagged(&final(wb).world, "rule-story-1"@, Set::empty()),
        flagged(&final(wb).world, "guard-read-note"@, Set::empty()),
        flagged(&final(wb).world, "rule-dirty-note"@, Set::empty()),
        flagged(&final(wb).world, "guard-get-sword"@, Set::empty()),
        flagged(&final(wb).world, "rule-take-sword"@, set![FlagView::FireOnce]),
        flagged(&final(wb).world, "guard-enter-cave"@, Set::empty()),
        flagged(&final(wb).world, "rule-enter-cave"@, set![FlagView::FireOnce]),
        flagged(&final(wb).world, "fairy-godmother-rule"@, Set::empty()),
{
    // If the player dies, the fairy godmother revives him.
    let tb = wb.rule("fairy-godmother-rule");
    proof {
        reveal_strlit("fairy-godmother-rule");
        reveal_strlit("PLAYER");
        reveal_strlit("hands");
        reveal_strlit("rule-story-1");
        reveal_strlit("clearing");
        reveal_strlit("note");
        reveal_strlit("guard-read-note");
        reveal_strlit("rule-dirty-note");
        reveal_strlit("grotto");
        reveal_strlit("pool");
        reveal_strlit("hilltop");
        reveal_strlit("stone");
        reveal_strlit("sword");
        reveal_strlit("guard-get-sword");
        reveal_strlit("rule-take-sword");
        reveal_strlit("cave-mouth");
        reveal_strlit("cave-1");
        reveal_strlit("guard-enter-cave");
        reveal_strlit("rule-enter-cave");
        lemma_differ_by_len(&tb.wb.world, "fairy-godmother-rule"@, "PLAYER"@);
        lemma_differ_by_len(&tb.wb.world, "fairy-godmother-rule"@, "hands"@);
        lemma_differ_by_len(&tb.wb.world, "fairy-godmother-rule"@, "rule-story-1"@);
        lemma_differ_by_len(&tb.wb.world, "fairy-godmother-rule"@, "clearing"@);
        lemma_differ_by_len(&tb.wb.world, "fairy-godmother-rule"@, "note"@);
        lemma_differ_by_len(&tb.wb.world, "fairy-godmother-rule"@, "guard-read-note"@);
        lemma_differ_by_len(&tb.wb.world, "fairy-godmother-rule"@, "rule-dirty-note"@);
        lemma_differ_by_len(&tb.wb.world, "fairy-godmother-rule"@, "grotto"@);
        lemma_differ_by_len(&tb.wb.world, "fairy-godmother-rule"@, "pool"@);
        lemma_differ_by_len(&tb.wb.world, "fairy-godmother-rule"@, "hilltop"@);
        lemma_differ_by_len(&tb.wb.world, "fairy-godmother-rule"@, "stone"@);
        lemma_differ_by_len(&tb.wb.world, "fairy-godmother-rule"@, "sword"@);
        lemma_differ_by_len(&tb.wb.world, "fairy-godmother-rule"@, "guard-get-sword"@);
        lemma_differ_by_len(&tb.wb.world, "fairy-godmother-rule"@, "rule-take-sword"@);
        lemma_differ_by_len(&tb.wb.world, "fairy-godmother-rule"@, "cave-mouth"@);
        lemma_differ_by_len(&tb.wb.world, "fairy-godmother-rule"@, "cave-1"@);
        lemma_differ_by_len(&tb.wb.world, "fairy-godmother-rule"@, "guard-enter-cave"@);
        lemma_differ_by_len(&tb.wb.world, "fairy-godmother-rule"@, "rule-enter-cave"@);
        let w = tb.wb.world;
        assert(w.pred_ok(Predicate::Has("PLAYER", Flag::Dead)));
        reveal_strlit("fairy-godmother-rule");
        reveal_strlit("guard-enter-cave");
        reveal_strlit("rule-enter-cave");
        reveal_strlit("rule-story-1");
        reveal_strlit("guard-read-note");
        reveal_strlit("rule-dirty-note");
        reveal_strlit("guard-get-sword");
        reveal_strlit("rule-take-sword");
        lemma_differ_by_len(&w, "fairy-godmother-rule"@, "rule-story-1"@);
        lemma_differ_by_len(&w, "fairy-godmother-rule"@, "guard-read-note"@);
        lemma_differ_by_len(&w, "fairy-godmother-rule"@, "rule-dirty-note"@);
        lemma_differ_by_len(&w, "fairy-godmother-rule"@, "guard-get-sword"@);
        lemma_differ_by_len(&w, "fairy-godmother-rule"@, "rule-take-sword"@);
        lemma_differ_by_len(&w, "fairy-godmother-rule"@, "guard-enter-cave"@);
        lemma_differ_by_len(&w, "fairy-godmother-rule"@, "rule-enter-cave"@);
        assert(story_rule(&w));
        assert(note_rules(&w, w.pid, w.tag_id("note"@)));
        assert(sword_rules(&w, w.pid, w.tag_id("sword"@)));
        assert(cave_rules(&w, w.pid, w.tag_id("cave-1"@)));
    }
    tb.when(Predicate::Has(PLAYER, Flag::Dead)).print(FAIRY_GODMOTHER).revive(PLAYER);

}

/// Build the initial state of the game world.
#[verifier::spinoff_prover]
#[verifier::rlimit(100)]
pub fn build() -> (res: World)
    ensures
        scenario_world(&res),
{
    // FIRST, create the world builder
    let mut wb = WorldBuilder::new();
    let pid = wb.world.pid;
    proof {
        lemma_tag_id(&wb.world, LIMBO);
    }

    // NEXT, configure the player
    add_player(&mut wb);

    // NEXT, create and configure the things in the world.
    add_story(&mut wb);
    let note = add_clearing(&mut wb);
    add_note_rules(&mut wb, pid, note);
    add_grotto(&mut wb);
    add_hilltop(&mut wb);
    add_stone(&mut wb);
    let sword = add_sword(&mut wb);
    add_sword_rules(&mut wb, pid, sword);
    add_cave_mouth(&mut wb);
    let cave = add_cave(&mut wb);
    add_cave_rules(&mut wb, pid, cave);
    add_fairy_godmother(&mut wb);

    proof {
        let w = wb.world;
        assert(w.rooms@.dom() =~= the_rooms(&w));
        assert(w.locations@.dom() =~= the_located(&w));
        assert(w.things@.dom() =~= the_located(&w));
        assert(w.proses@.dom() =~= the_located(&w).union(the_rooms(&w)));
        assert(w.inventories@.dom() =~= the_rooms(&w).insert(LIMBO).insert(w.pid));
        assert(w.flag_sets@.dom() =~= the_located(&w).union(the_rooms(&w)).union(the_rules(&w)));
        lemma_links_to_rooms(&w);
        lemma_places_listed(&w);
        lemma_contents_start(&w);
    }

    // NEXT, return the world.
    wb.world()
}

} // verus!
