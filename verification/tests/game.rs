use bonaventure::Game;
use bonaventure::types::Dir;
use bonaventure::types::LinkDest;
use bonaventure::types::Flag;
use bonaventure::types::ProseType;
use bonaventure::types::Event;
use bonaventure::types::Action;

/// Plays one turn, and returns what it printed.
fn play(game: &mut Game, input: &str) -> (bool, Vec<String>) {
    let mut out: Vec<String> = Vec::new();
    let quit = game.turn(input, &mut out);
    (quit, out)
}

/// A new game, introduced.
fn started() -> (Game, Vec<String>) {
    let mut game = Game::new();
    let mut out: Vec<String> = Vec::new();
    game.introduce(&mut out);
    (game, out)
}

#[test]
fn introduction_describes_the_clearing() {
    let (game, out) = started();
    assert_eq!(out.len(), 4);
    assert_eq!(out[0], "Welcome to Bonaventure!\n");
    assert!(out[1].starts_with("A Dreary Clearing||A wide spot in the woods."));
    assert_eq!(out[2], "You see: note.");
    assert!(out[3].starts_with("You don't know where you are."));
    assert_eq!(game.world.clock, 1);
    assert!(game.has_undo());
}

#[test]
fn dead_end_explains() {
    let (mut game, _) = started();
    let (quit, out) = play(&mut game, "north");
    assert!(!quit);
    assert_eq!(out.len(), 1);
    assert!(out[0].starts_with("You feel a chill as you approach the edge of the clearing"));
    assert_eq!(game.world.clock, 2);
}

#[test]
fn synonyms_are_not_understood() {
    let (mut game, _) = started();
    let (_, out) = play(&mut game, "e");
    assert_eq!(out, vec!["I don't understand.".to_string()]);
}

#[test]
fn period_is_refused() {
    let (mut game, _) = started();
    let (_, out) = play(&mut game, "look. look");
    assert_eq!(out, vec!["Input contains '.'; multiple commands not yet support.".to_string()]);
}

#[test]
fn walk_to_the_grotto_and_wash() {
    let (mut game, _) = started();
    let (_, out) = play(&mut game, "go east");
    assert_eq!(out.len(), 1);
    assert!(out[0].starts_with("A Grotto in the Woods||Nestled in a grotto"));

    let (_, out) = play(&mut game, "examine hands");
    assert_eq!(
        out,
        vec!["You don't remember what you were doing, but it must have been messy.".to_string()]
    );

    let (_, out) = play(&mut game, "wash hands");
    assert_eq!(
        out,
        vec!["You wash your hands in the water.\nThey look much cleaner now.".to_string()]
    );

    let (_, out) = play(&mut game, "wash hands");
    assert_eq!(out, vec!["You wash your hands in the water.".to_string()]);

    let (_, out) = play(&mut game, "x hands");
    assert_eq!(out, vec!["I don't understand.".to_string()]);

    let (_, out) = play(&mut game, "examine hands");
    assert_eq!(out, vec!["Fresh and clean.".to_string()]);

    let (_, out) = play(&mut game, "wash pool");
    assert_eq!(out, vec!["Whatever for?".to_string()]);

    // Coming back, the clearing is described briefly.
    let (_, out) = play(&mut game, "west");
    assert_eq!(out, vec!["A Dreary Clearing".to_string(), "You see: note.".to_string()]);
}

#[test]
fn no_water_in_the_clearing() {
    let (mut game, _) = started();
    let (_, out) = play(&mut game, "wash hands");
    assert_eq!(
        out,
        vec!["That'd be a neat trick, since there's no water here.".to_string()]
    );
}

#[test]
fn dirty_hands_spoil_the_note() {
    let (mut game, _) = started();
    let (_, out) = play(&mut game, "get note");
    assert_eq!(
        out,
        vec![
            "Taken.".to_string(),
            "The dirt from your hands got all over the note.".to_string()
        ]
    );
    let (_, out) = play(&mut game, "read note");
    assert_eq!(out, vec!["You've gotten it too dirty to read.".to_string()]);
    let (_, out) = play(&mut game, "examine note");
    assert_eq!(
        out,
        vec!["A note, on plain paper.\nIt looks pretty grubby; someone's been mishandling it."
            .to_string()]
    );
    let (_, out) = play(&mut game, "get note");
    assert_eq!(out, vec!["You already have that.".to_string()]);
    let (_, out) = play(&mut game, "inventory");
    assert_eq!(out, vec!["You have: note.\n".to_string()]);
    let (_, out) = play(&mut game, "drop note");
    assert_eq!(out, vec!["Dropped.".to_string()]);
    let (_, out) = play(&mut game, "drop note");
    assert_eq!(out, vec!["You aren't carrying that.".to_string()]);
    let (_, out) = play(&mut game, "drop hands");
    assert_eq!(out, vec!["You can't drop that!".to_string()]);
    let (_, out) = play(&mut game, "drop sword");
    assert_eq!(out, vec!["You don't see any such thing.".to_string()]);
}

#[test]
fn clean_hands_keep_the_note_readable() {
    let (mut game, _) = started();
    play(&mut game, "east");
    play(&mut game, "wash hands");
    play(&mut game, "west");
    let (_, out) = play(&mut game, "read note");
    assert_eq!(out, vec!["You don't have it.".to_string()]);
    let (_, out) = play(&mut game, "pick up note");
    assert_eq!(out, vec!["Taken.".to_string()]);
    let (_, out) = play(&mut game, "read note");
    assert_eq!(out.len(), 1);
    assert!(out[0].starts_with("The\nnote\nreads:\nIf you ever wish to see your toy aisle"));
    let (_, out) = play(&mut game, "read hands");
    assert_eq!(out, vec!["You can't read that.".to_string()]);
}

#[test]
fn inventory_starts_empty() {
    let (mut game, _) = started();
    let (_, out) = play(&mut game, "inventory");
    assert_eq!(out, vec!["You aren't carrying anything.".to_string()]);
}

#[test]
fn the_cave_needs_the_sword() {
    let (mut game, _) = started();
    let (_, out) = play(&mut game, "south");
    assert!(out[0].starts_with("A Windy Hilltop||The path has led you to the top of a hill"));
    assert!(out[0].contains("A massive block of stone squats on the crest of the hill."));
    let (_, out) = play(&mut game, "get sword");
    assert_eq!(out, vec!["You can't take that!".to_string()]);
    let (_, out) = play(&mut game, "get stone");
    assert_eq!(out, vec!["You can't take that!".to_string()]);
    let (_, out) = play(&mut game, "examine sword");
    assert_eq!(
        out,
        vec!["All you can really see is the hilt; the rest is embedded in the stone.".to_string()]
    );
    play(&mut game, "south");
    let (_, out) = play(&mut game, "east");
    assert_eq!(out.len(), 1);
    assert!(out[0].starts_with("Oh, hell, no, you're not going in there empty handed."));
    let (_, out) = play(&mut game, "up");
    assert_eq!(out, vec!["I don't understand.".to_string()]);
    let (_, out) = play(&mut game, "north");
    assert_eq!(out, vec!["You can't go that way.".to_string()]);
}

#[test]
fn undo_restores_the_world() {
    let (mut game, _) = started();
    play(&mut game, "get note");
    let (_, out) = play(&mut game, "inventory");
    assert_eq!(out, vec!["You have: note.\n".to_string()]);
    // The inventory command itself is undone first, and then nothing more.
    let (_, out) = play(&mut game, "undo");
    assert_eq!(out, vec!["Undone.".to_string()]);
    let (_, out) = play(&mut game, "undo");
    assert_eq!(out, vec!["Nothing to undo.".to_string()]);
}

#[test]
fn undo_puts_the_note_back() {
    let (mut game, _) = started();
    play(&mut game, "get note");
    let (_, out) = play(&mut game, "undo");
    assert_eq!(out, vec!["Undone.".to_string()]);
    let (_, out) = play(&mut game, "inventory");
    assert_eq!(out, vec!["You aren't carrying anything.".to_string()]);
    let (_, out) = play(&mut game, "look");
    assert!(out.contains(&"You see: note.".to_string()));
}

#[test]
fn restart_starts_over() {
    let (mut game, _) = started();
    play(&mut game, "east");
    let (quit, out) = play(&mut game, "restart");
    assert!(!quit);
    assert_eq!(out[0], "Restarting...");
    assert_eq!(out[1], "Welcome to Bonaventure!\n");
    assert!(out[2].starts_with("A Dreary Clearing||"));
    assert_eq!(out[3], "You see: note.");
    assert!(out[4].starts_with("You don't know where you are."));
    assert_eq!(out.len(), 5);
    assert_eq!(game.world.clock, 2);
}

#[test]
fn quit_ends_the_game() {
    let (mut game, _) = started();
    let (quit, out) = play(&mut game, "quit");
    assert!(quit);
    assert_eq!(out, vec!["Bye, then.".to_string()]);
    assert_eq!(game.world.clock, 1);
}

#[test]
fn help_lists_the_commands() {
    let (mut game, _) = started();
    let (_, out) = play(&mut game, "help");
    assert_eq!(
        out,
        vec!["You've got the usual commands: n, s, e, w, look, get, drop, quit.\nYou know.  Like that.\n    "
            .to_string()]
    );
}

#[test]
fn debug_commands() {
    let (mut game, _) = started();
    let (_, out) = play(&mut game, "!list");
    assert_eq!(out.len(), 1);
    assert!(out[0].starts_with("[0] LIMBO|[1] PLAYER|[2] clearing|[3] hands|[4] rule-story-1|"));
    assert!(out[0].ends_with("|[19] fairy-godmother-rule"));

    let (_, out) = play(&mut game, "!look 7");
    assert_eq!(out, vec!["Entity 7 is not a room.".to_string()]);
    let (_, out) = play(&mut game, "!examine clearing");
    assert_eq!(out, vec!["Entity 2 is not a thing.".to_string()]);
    let (_, out) = play(&mut game, "!dump 99");
    assert_eq!(out, vec!["Not an ID: 99".to_string()]);
    let (_, out) = play(&mut game, "!dump -1");
    assert_eq!(out, vec!["Not an ID: -1".to_string()]);
    let (_, out) = play(&mut game, "!frob");
    assert_eq!(out, vec!["I don't understand.".to_string()]);
    let (_, out) = play(&mut game, "!examine +7");
    assert_eq!(out, vec!["A note, on plain paper.".to_string()]);

    let (_, out) = play(&mut game, "!dump note");
    assert_eq!(out.len(), 1);
    assert!(out[0].starts_with(
        "[7] note|  Location: [2] clearing|  Thing name: note|    Noun: note|  Prose [Thing]: A note, on plain paper.|  Prose [Book]: If you ever"
    ));

    let (_, out) = play(&mut game, "!dump 1");
    assert_eq!(
        out,
        vec!["[1] PLAYER|  Location: [2] clearing|  Player|  Thing name: Yourself|    Noun: self|  Flag: Scenery|  Flag: Seen(2)|  Contains: [3] hands|  Prose [Thing]: You've got all the usual bits."
            .to_string()]
    );

    let (_, out) = play(&mut game, "!go grotto");
    assert!(out[0].starts_with("A Grotto in the Woods||"));
    let (_, out) = play(&mut game, "wash hands");
    assert_eq!(
        out,
        vec!["You wash your hands in the water.\nThey look much cleaner now.".to_string()]
    );
}

#[test]
fn parsed_words_are_plain() {
    let (mut game, _) = started();
    // Commas and exclamation marks are dropped, and white space separates words.
    let (_, out) = play(&mut game, "  go,   east!  ");
    assert_eq!(out.len(), 1);
    assert!(out[0].starts_with("A Grotto in the Woods||"));
}

#[test]
fn parse_splits_words() {
    let w = bonaventure::world::World::new();
    let cmd = bonaventure::command::parse(&w, "  pick, up\tthe  note! ").unwrap();
    assert_eq!(cmd.input, "pick, up\tthe  note!");
    assert_eq!(cmd.words, vec!["pick", "up", "the", "note"]);
    assert!(!cmd.is_debug);
    let cmd = bonaventure::command::parse(&w, "!dump 3").unwrap();
    assert!(cmd.is_debug);
    assert_eq!(cmd.words, vec!["dump", "3"]);
    let err = bonaventure::command::parse(&w, "look.").err().unwrap();
    assert_eq!(err, "Input contains '.'; multiple commands not yet support.");
    assert_eq!(bonaventure::command::trim("  a b \n"), "a b");
}

#[test]
fn formatted_text_has_no_pipes() {
    let text = bonaventure::conmark::confmt(" a|b||c ");
    assert_eq!(text, "a\nb\n\nc");
    assert!(!text.contains('|'));
}

#[test]
fn the_clock_counts_turns() {
    let (mut game, _) = started();
    assert_eq!(game.world.clock, 1);
    play(&mut game, "get note");
    assert_eq!(game.world.clock, 2);
    // A command that fails takes a turn too.
    play(&mut game, "xyzzy");
    assert_eq!(game.world.clock, 3);
    // Undo goes back to the world saved before "get note", and a turn passes.
    play(&mut game, "undo");
    assert_eq!(game.world.clock, 2);
}

#[test]
fn a_new_game_starts_in_the_clearing() {
    let game = Game::new();
    let pid = game.world.pid;
    let loc = bonaventure::phys::loc(&game.world, pid);
    assert_eq!(game.world.tag(loc), "clearing");
    assert!(game.world.is_room(loc));
    assert!(bonaventure::phys::contents(&game.world, loc).contains(&pid));
    assert_eq!(game.world.clock, 0);
    assert!(game.world.has_flag(pid, Flag::Seen(loc)));
    assert_eq!(game.world.lookup("LIMBO"), 0);
    // Every located entity is in its place's inventory.
    for id in 0..game.world.tags.len() {
        if game.world.has_location(id) {
            let at = bonaventure::phys::loc(&game.world, id);
            assert!(bonaventure::phys::contents(&game.world, at).contains(&id));
        }
    }
}

#[test]
fn each_inventory_holds_what_starts_there() {
    let game = Game::new();
    let w = &game.world;
    let holds = |tag: &str| -> Vec<String> {
        let mut tags: Vec<String> = bonaventure::phys::contents(w, w.lookup(tag))
            .iter()
            .map(|id| w.tag(*id))
            .collect();
        tags.sort();
        tags
    };
    assert!(holds("LIMBO").is_empty());
    assert_eq!(holds("PLAYER"), vec!["hands"]);
    assert_eq!(holds("clearing"), vec!["PLAYER", "note"]);
    assert_eq!(holds("grotto"), vec!["pool"]);
    assert_eq!(holds("hilltop"), vec!["stone", "sword"]);
    assert!(holds("cave-mouth").is_empty());
    assert!(holds("cave-1").is_empty());
}

#[test]
fn the_map_of_the_scenario() {
    let game = Game::new();
    let w = &game.world;
    let way = |from: &str, dir: Dir| -> Option<String> {
        let id = w.lookup(from);
        match w.rooms.get(&id).unwrap().get_link(dir) {
            Some(LinkDest::Room(to)) => Some(w.tag(*to)),
            Some(LinkDest::DeadEnd(_)) => Some("dead end".to_string()),
            None => None,
        }
    };
    assert_eq!(way("clearing", Dir::North), Some("dead end".to_string()));
    assert_eq!(way("clearing", Dir::East), Some("grotto".to_string()));
    assert_eq!(way("clearing", Dir::South), Some("hilltop".to_string()));
    assert_eq!(way("clearing", Dir::West), None);
    assert_eq!(way("grotto", Dir::West), Some("clearing".to_string()));
    assert_eq!(way("grotto", Dir::East), None);
    assert_eq!(way("hilltop", Dir::North), Some("clearing".to_string()));
    assert_eq!(way("hilltop", Dir::South), Some("cave-mouth".to_string()));
    assert_eq!(way("cave-mouth", Dir::West), Some("hilltop".to_string()));
    assert_eq!(way("cave-mouth", Dir::East), Some("cave-1".to_string()));
    assert_eq!(way("cave-1", Dir::West), Some("cave-mouth".to_string()));
    assert_eq!(way("cave-1", Dir::East), Some("dead end".to_string()));
    assert_eq!(way("cave-1", Dir::Up), None);
}

#[test]
fn where_the_things_start() {
    let game = Game::new();
    let w = &game.world;
    let place = |tag: &str| -> String {
        let id = w.lookup(tag);
        let loc = bonaventure::phys::loc(w, id);
        assert!(bonaventure::phys::contents(w, loc).contains(&id));
        w.tag(loc)
    };
    assert_eq!(place("hands"), "PLAYER");
    assert_eq!(place("note"), "clearing");
    assert_eq!(place("pool"), "grotto");
    assert_eq!(place("stone"), "hilltop");
    assert_eq!(place("sword"), "hilltop");
    assert!(w.has_flag(w.lookup("hands"), bonaventure::scenario::dirty()));
    assert!(w.has_flag(w.lookup("sword"), Flag::Scenery));
    assert!(!w.has_flag(w.lookup("sword"), bonaventure::scenario::taken()));
    assert!(w.has_flag(w.lookup("grotto"), bonaventure::scenario::has_water()));
    assert!(!w.has_flag(w.lookup("clearing"), bonaventure::scenario::has_water()));
    for tag in ["hands", "pool", "stone", "sword"] {
        assert!(w.has_flag(w.lookup(tag), Flag::Scenery));
    }
    for tag in ["hands", "note", "pool", "stone", "sword"] {
        let thing = w.things.get(&w.lookup(tag)).unwrap();
        assert_eq!(thing.name, tag);
        assert_eq!(thing.noun, tag);
    }
    let prose = |tag: &str, t: ProseType| bonaventure::visual::get_prose(w, w.lookup(tag), t);
    assert_eq!(prose("clearing", ProseType::Room), bonaventure::scenario::CLEARING);
    assert_eq!(prose("cave-1", ProseType::Room), bonaventure::scenario::CAVE);
    assert_eq!(prose("pool", ProseType::Thing), bonaventure::scenario::POOL);
    assert_eq!(prose("stone", ProseType::Scenery), bonaventure::scenario::STONE_SCENERY);
    assert_eq!(prose("note", ProseType::Book), bonaventure::scenario::NOTE_BOOK);
    assert_eq!(prose("hands", ProseType::Thing), bonaventure::scenario::HANDS_DIRTY);
}

#[test]
fn the_rules_of_the_scenario() {
    let game = Game::new();
    let w = &game.world;
    let pid = w.pid;
    let rule = |tag: &str| w.rules.get(&w.lookup(tag)).unwrap();
    let note = w.lookup("note");
    let sword = w.lookup("sword");
    let cave = w.lookup("cave-1");

    let g = rule("guard-read-note");
    assert!(g.is_guard);
    assert_eq!(g.event, Event::ReadThing(pid, note));
    assert_eq!(g.script.actions.len(), 1);

    let r = rule("rule-dirty-note");
    assert!(!r.is_guard);
    assert_eq!(r.event, Event::GetThing(pid, note));
    assert_eq!(r.script.actions.len(), 2);
    assert!(matches!(r.script.actions[1], Action::SetFlag(id, _) if id == note));

    let g = rule("guard-get-sword");
    assert!(g.is_guard);
    assert_eq!(g.event, Event::GetThing(pid, sword));
    assert!(matches!(g.script.actions[1], Action::Kill(id) if id == pid));

    let r = rule("rule-take-sword");
    assert_eq!(r.event, Event::GetThing(pid, sword));
    assert_eq!(r.script.actions.len(), 4);
    assert!(w.has_flag(w.lookup("rule-take-sword"), Flag::FireOnce));

    let g = rule("guard-enter-cave");
    assert!(g.is_guard);
    assert_eq!(g.event, Event::EnterRoom(pid, cave));

    let r = rule("rule-enter-cave");
    assert_eq!(r.event, Event::EnterRoom(pid, cave));
    assert!(w.has_flag(w.lookup("rule-enter-cave"), Flag::FireOnce));

    let r = rule("fairy-godmother-rule");
    assert_eq!(r.event, Event::Turn);
    assert!(matches!(r.script.actions[1], Action::Revive(id) if id == pid));

    let r = rule("rule-story-1");
    assert_eq!(r.event, Event::Turn);
    assert!(matches!(&r.script.actions[0], Action::Print(t) if t.as_str() == bonaventure::scenario::STORY));
}
