//! The Player Control System
use vstd::prelude::*;
use crate::command;
use crate::command::word_texts;
use crate::command::Command;
use crate::command::period_error;
use crate::command::stripped;
use crate::command::trimmed;
use crate::command::words_of;
use crate::Game;
use crate::restarted;
use crate::debug::decimal;
use crate::debug::digit;
use crate::debug::dump_entity;
use crate::debug::dump_text;
use crate::debug::id_text;
use crate::debug::list_lines;
use crate::debug::list_world;
use crate::phys;
use crate::phys::scenery_in;
use crate::phys::visible_ids;
use crate::rule;
use crate::rule::allowed;
use crate::rule::candidates;
use crate::rule::fire_spec;
use crate::rule::guard_for;
use crate::scenario::dirty;
use crate::scenario::has_water;
use crate::types::is_white_space;
use crate::types::str_eq;
use crate::types::to_string;
use crate::types::with_separator;
use crate::types::Dir;
use crate::types::Event;
use crate::types::Flag;
use crate::types::FlagView;
use crate::types::LinkDest;
use crate::types::ProseType;
use crate::types::ID;
use crate::visual;
use crate::visual::book_para;
use crate::visual::has_prose_of;
use crate::visual::inventory_para;
use crate::visual::player_description;
use crate::visual::prose_of;
use crate::visual::room_ok;
use crate::visual::room_paras;
use crate::world::World;
use crate::world::script_output;
use crate::world::texts;

verus! {

broadcast use vstd::std_specs::hash::group_hash_axioms;

/// A status result.  Indicates the general category of the change.
#[derive(Copy, Clone, Debug, PartialEq, Eq, Structural)]
pub enum Status {
    /// Normal response: the world has been updated, and the change can be undone.
    Normal,
    /// Restart response; the game should be restarted from scratch.
    Restart,
    /// Undo the last command (plus anything that happened after, e.g., rule firings)
    Undo,
    /// The player is done; the game should end.
    Quit,
}

/// The result of a command: a status, or an error message.
pub type CmdResult = Result<Status, String>;

/// Is the result the given error message?
pub open spec fn is_err(res: CmdResult, msg: Seq<char>) -> bool {
    res matches Err(m) && m@ == msg
}

/// Player Context: ID and initial location.
pub struct Player {
    pub id: ID,
    pub loc: ID,
}

//-------------------------------------------------------------------------
// Parsing Tools

/// The first of the things whose noun is the given one.
pub open spec fn first_with_noun(w: &World, s: Seq<ID>, noun: Seq<char>) -> Option<ID>
    decreases s.len(),
{
    if s.len() == 0 {
        None
    } else if w.things@[s[0]].noun@ == noun {
        Some(s[0])
    } else {
        first_with_noun(w, s.drop_first(), noun)
    }
}

/// The thing found is in the sequence, and has the noun.
proof fn lemma_first_with_noun(w: &World, s: Seq<ID>, noun: Seq<char>)
    requires
        first_with_noun(w, s, noun) is Some,
    ensures
        s.contains(first_with_noun(w, s, noun)->Some_0),
        w.things@[first_with_noun(w, s, noun)->Some_0].noun@ == noun,
    decreases s.len(),
{
    if w.things@[s[0]].noun@ != noun {
        lemma_first_with_noun(w, s.drop_first(), noun);
        let x = first_with_noun(w, s, noun)->Some_0;
        let k = choose|k: int| 0 <= k < s.drop_first().len() && s.drop_first()[k] == x;
        assert(s[k + 1] == x);
    } else {
        assert(s[0] == first_with_noun(w, s, noun)->Some_0);
    }
}

/// Are all the entities of the sequence things?
pub open spec fn all_things(w: &World, s: Seq<ID>) -> bool {
    forall|i: int| 0 <= i < s.len() ==> w.things@.contains_key(#[trigger] s[i])
}

/// Finds a noun in the list of things.
fn find_noun(world: &World, ids: &Vec<ID>, noun: &str) -> (res: Option<ID>)
    requires
        all_things(world, ids@),
    ensures
        res == first_with_noun(world, ids@, noun@),
{
    let mut i: usize = 0;
    assert(ids@.skip(0) =~= ids@);
    while i < ids.len()
        invariant
            all_things(world, ids@),
            i <= ids@.len(),
            first_with_noun(world, ids@, noun@) == first_with_noun(world, ids@.skip(i as int), noun@),
        decreases ids@.len() - i,
    {
        let id = ids[i];
        assert(ids@.skip(i as int)[0] == id);
        assert(ids@.skip(i as int).drop_first() =~= ids@.skip(i + 1));
        let thingc = world.things.get(&id).unwrap();
        if str_eq(thingc.noun.as_str(), noun) {
            return Some(id);
        }
        i = i + 1;
    }
    None
}

//-------------------------------------------------------------------------
// What commands do

/// The world and the output are unchanged, and the result is the error.
pub open spec fn failed(
    w0: &World,
    w1: &World,
    o0: Seq<String>,
    o1: Seq<String>,
    res: CmdResult,
    msg: Seq<char>,
) -> bool {
    &&& *w1 == *w0
    &&& o1 == o0
    &&& is_err(res, msg)
}

/// The world is unchanged, the paragraph was output, and the result is normal.
pub open spec fn said(
    w0: &World,
    w1: &World,
    o0: Seq<String>,
    o1: Seq<String>,
    res: CmdResult,
    para: Seq<char>,
) -> bool {
    &&& *w1 == *w0
    &&& texts(o1) == texts(o0).push(para)
    &&& res == Ok::<Status, String>(Status::Normal)
}

/// The event's guard refused it, and the guard's script was executed.
pub open spec fn refused(w0: &World, w1: &World, o0: Seq<String>, o1: Seq<String>, e: Event) -> bool {
    let r = w0.rules@[guard_for(w0, e)->Some_0];
    &&& !allowed(w0, e)
    &&& w1.wf()
    &&& w0.same_statics(w1)
    &&& w1.model() == w0.model().apply_all(r.script.actions@)
    &&& texts(o1) == texts(o0) + script_output(r.script.actions@)
}

/// The rules for the event were fired.
pub open spec fn fired(w0: &World, w1: &World, o0: Seq<String>, o1: Seq<String>, e: Event) -> bool {
    let (m, o) = fire_spec(w0.model(), w0.rules@, seq![e], candidates(w0));
    &&& w1.wf()
    &&& w0.same_statics(w1)
    &&& w1.model() == m
    &&& texts(o1) == texts(o0) + o
}

/// The link in the given direction from the place, if the place is a room.
pub open spec fn link_from(w: &World, place: ID, dir: Dir) -> Option<LinkDest> {
    if w.rooms@.contains_key(place) {
        w.rooms@[place].link(dir)
    } else {
        None
    }
}

/// The player moved into the room, saw it (in full, unless seen before), and the
/// rules for entering it were fired.
pub open spec fn entered(w0: &World, w1: &World, o0: Seq<String>, o1: Seq<String>, dest: ID) -> bool {
    let p = w0.pid;
    exists|wa: World, wb: World, oa: Seq<String>|
        #![trigger w0.moved(&wa, p, dest), fired(&wb, w1, oa, o1, Event::EnterRoom(p, dest))]
        {
            &&& wa.wf()
            &&& w0.moved(&wa, p, dest)
            &&& wa.model() == w0.model().with_move(p, dest)
            &&& texts(oa) == texts(o0) + room_paras(
                &wa,
                dest,
                !w0.flags_of(p).contains(FlagView::Seen(dest)),
            )
            &&& wb.wf()
            &&& wa.same_but_flags(&wb)
            &&& wb.model() == wa.model().with_flag(p, FlagView::Seen(dest))
            &&& fired(&wb, w1, oa, o1, Event::EnterRoom(p, dest))
        }
}

/// What going in the direction does.
pub open spec fn go_spec(
    w0: &World,
    w1: &World,
    o0: Seq<String>,
    o1: Seq<String>,
    dir: Dir,
    res: CmdResult,
) -> bool {
    let p = w0.pid;
    match link_from(w0, w0.loc_of(p), dir) {
        Some(LinkDest::Room(dest)) => if !room_ok(w0, dest) {
            failed(w0, w1, o0, o1, res, "You can't go that way."@)
        } else if !allowed(w0, Event::EnterRoom(p, dest)) {
            refused(w0, w1, o0, o1, Event::EnterRoom(p, dest)) && res == Ok::<Status, String>(
                Status::Normal,
            )
        } else {
            entered(w0, w1, o0, o1, dest) && res == Ok::<Status, String>(Status::Normal)
        },
        Some(LinkDest::DeadEnd(t)) => failed(w0, w1, o0, o1, res, t@),
        None => failed(w0, w1, o0, o1, res, "You can't go that way."@),
    }
}

/// The player is the world's player, and is where the world says.
pub open spec fn is_player_of(w: &World, player: &Player) -> bool {
    player.id == w.pid && player.loc == w.loc_of(w.pid)
}

// User Commands

/// Move the player in the given direction.  A link to a room takes the player there,
/// if the room's guard allows; a dead end explains why the player can't go.
fn cmd_go(world: &mut World, player: &Player, dir: Dir, out: &mut Vec<String>) -> (res: CmdResult)
    requires
        old(world).playable(),
        is_player_of(&*old(world), player),
    ensures
        final(world).playable(),
        final(world).clock == old(world).clock,
        go_spec(&*old(world), &*final(world), old(out)@, final(out)@, dir, res),
{
    let dest = match world.rooms.get(&player.loc) {
        Some(roomc) => match roomc.get_link(dir) {
            Some(LinkDest::Room(dest)) => *dest,
            Some(LinkDest::DeadEnd(text)) => {
                return Err(text.clone());
            },
            None => {
                return Err(to_string("You can't go that way."));
            },
        },
        None => {
            return Err(to_string("You can't go that way."));
        },
    };
    if !(world.rooms.get(&dest).is_some() && world.has_inventory(dest)) {
        return Err(to_string("You can't go that way."));
    }
    let event = Event::EnterRoom(player.id, dest);
    if !rule::allows(world, &event, out) {
        return Ok(Status::Normal);
    }
    phys::put_in(world, player.id, dest);
    let ghost wa = *world;
    if !world.has_flag(player.id, Flag::Seen(dest)) {
        visual::room(world, dest, out);
    } else {
        visual::room_brief(world, dest, out);
    }
    let ghost oa = out@;
    world.set(player.id, Flag::Seen(dest));
    let ghost wb = *world;
    rule::fire_event(world, &event, out);
    proof {
        assert(fired(&wb, &*world, oa, out@, event));
        assert(old(world).moved(&wa, player.id, dest));
    }
    Ok(Status::Normal)
}

/// The help text.
pub open spec fn help_text() -> Seq<char> {
    "\
You've got the usual commands: n, s, e, w, look, get, drop, quit.
You know.  Like that.
    "@
}

/// Display basic help, i.e., what commands are available.
fn cmd_help(out: &mut Vec<String>) -> (res: CmdResult)
    ensures
        texts(final(out)@) == texts(old(out)@).push(help_text()),
        res == Ok::<Status, String>(Status::Normal),
{
    visual::info(
        "\
You've got the usual commands: n, s, e, w, look, get, drop, quit.
You know.  Like that.
    ",
        out,
    );
    Ok(Status::Normal)
}

/// What looking does.
pub open spec fn look_spec(w0: &World, w1: &World, o0: Seq<String>, o1: Seq<String>, res: CmdResult) -> bool {
    let l = w0.loc_of(w0.pid);
    if room_ok(w0, l) {
        *w1 == *w0 && texts(o1) == texts(o0) + room_paras(w0, l, true) && res == Ok::<Status, String>(
            Status::Normal,
        )
    } else {
        failed(w0, w1, o0, o1, res, "You can't see anything here."@)
    }
}

/// Re-describe the current location.
pub(crate) fn cmd_look(world: &World, player: &Player, out: &mut Vec<String>) -> (res: CmdResult)
    requires
        world.playable(),
        is_player_of(world, player),
    ensures
        look_spec(world, world, old(out)@, final(out)@, res),
{
    if !(world.rooms.get(&player.loc).is_some() && world.has_inventory(player.loc)) {
        return Err(to_string("You can't see anything here."));
    }
    visual::room(world, player.loc, out);
    Ok(Status::Normal)
}

/// Display the player's inventory.
fn cmd_inventory(world: &World, player: &Player, out: &mut Vec<String>) -> (res: CmdResult)
    requires
        world.playable(),
        is_player_of(world, player),
    ensures
        said(world, world, old(out)@, final(out)@, res, inventory_para(world, world.pid)),
{
    visual::player_inventory(world, player.id, out);
    Ok(Status::Normal)
}

/// The entities of the sequence are all in the given inventories.
proof fn lemma_all_things(w: &World, s: Seq<ID>, a: ID, b: ID)
    requires
        w.wf(),
        w.has_inventory_spec(a),
        w.has_inventory_spec(b),
        forall|x: ID| s.contains(x) ==> w.inv_of(a).contains(x) || w.inv_of(b).contains(x),
    ensures
        all_things(w, s),
{
    assert forall|i: int| 0 <= i < s.len() implies w.things@.contains_key(#[trigger] s[i]) by {
        assert(s.contains(s[i]));
        if w.inventories@[a]@.contains(s[i]) {
        } else {
            assert(w.inventories@[b]@.contains(s[i]));
        }
    }
}

/// The things the player can see are things.
proof fn lemma_visible_things(w: &World, ids: Seq<ID>)
    requires
        w.playable(),
        ids.to_set() == phys::visible_set(w, w.pid),
    ensures
        all_things(w, ids),
{
    let p = w.pid;
    let l = w.loc_of(p);
    assert forall|x: ID| ids.contains(x) implies w.inv_of(l).contains(x) || w.inv_of(p).contains(
        x,
    ) by {
        assert(ids.to_set().contains(x));
    }
    lemma_all_things(w, ids, l, p);
}

/// The things selected from an inventory are things.
proof fn lemma_selected_things(w: &World, o: ID, scenery: bool)
    requires
        w.wf(),
        w.has_inventory_spec(o),
    ensures
        all_things(w, scenery_in(w, w.inv_of(o), scenery)),
        all_things(w, w.inv_of(o)),
{
    let s = scenery_in(w, w.inv_of(o), scenery);
    phys::lemma_scenery_in(w, w.inv_of(o), scenery);
    assert forall|x: ID| s.contains(x) implies w.inv_of(o).contains(x) || w.inv_of(o).contains(
        x,
    ) by {
        let k = choose|k: int| 0 <= k < s.len() && s[k] == x;
    }
    lemma_all_things(w, s, o, o);
    lemma_all_things(w, w.inv_of(o), o, o);
}

/// What examining the named thing does.
pub open spec fn examine_spec(
    w0: &World,
    w1: &World,
    o0: Seq<String>,
    o1: Seq<String>,
    name: Seq<char>,
    res: CmdResult,
) -> bool {
    match first_with_noun(w0, visible_ids(w0, w0.pid), name) {
        Some(t) => said(
            w0,
            w1,
            o0,
            o1,
            res,
            if t == w0.pid {
                player_description(w0, w0.pid)
            } else {
                prose_of(w0, t, ProseType::Thing)
            },
        ),
        None => failed(w0, w1, o0, o1, res, "You don't see any such thing."@),
    }
}

/// Describe a thing in the current location.
fn cmd_examine(world: &World, player: &Player, name: &str, out: &mut Vec<String>) -> (res: CmdResult)
    requires
        world.playable(),
        is_player_of(world, player),
    ensures
        examine_spec(world, world, old(out)@, final(out)@, name@, res),
{
    let vis = phys::visible(world, player.id);
    proof {
        lemma_visible_things(world, vis@);
    }
    if let Some(thing) = find_noun(world, &vis, name) {
        if thing == player.id {
            visual::player(world, player.id, out);
        } else {
            visual::thing(world, thing, out);
        }
        Ok(Status::Normal)
    } else {
        Err(to_string("You don't see any such thing."))
    }
}

/// What reading the named thing does.  The player can read what has book prose, if
/// it is held or scenery, unless the guard on reading it refuses.
pub open spec fn read_spec(
    w0: &World,
    w1: &World,
    o0: Seq<String>,
    o1: Seq<String>,
    name: Seq<char>,
    res: CmdResult,
) -> bool {
    let p = w0.pid;
    match first_with_noun(w0, visible_ids(w0, p), name) {
        Some(t) => if !has_prose_of(w0, t, ProseType::Book) {
            failed(w0, w1, o0, o1, res, "You can't read that."@)
        } else if !(w0.inv_of(p).contains(t) || w0.is_scenery(t)) {
            failed(w0, w1, o0, o1, res, "You don't have it."@)
        } else if !allowed(w0, Event::ReadThing(p, t)) {
            refused(w0, w1, o0, o1, Event::ReadThing(p, t)) && res == Ok::<Status, String>(
                Status::Normal,
            )
        } else {
            res == Ok::<Status, String>(Status::Normal) && exists|oa: Seq<String>|
                #![trigger fired(w0, w1, oa, o1, Event::ReadThing(p, t))]
                texts(oa) == texts(o0).push(book_para(w0, t)) && fired(
                    w0,
                    w1,
                    oa,
                    o1,
                    Event::ReadThing(p, t),
                )
        },
        None => failed(w0, w1, o0, o1, res, "You don't see any such thing."@),
    }
}

/// Read a thing in the current location.
fn cmd_read(world: &mut World, player: &Player, name: &str, out: &mut Vec<String>) -> (res: CmdResult)
    requires
        old(world).playable(),
        is_player_of(&*old(world), player),
    ensures
        final(world).playable(),
        final(world).clock == old(world).clock,
        read_spec(&*old(world), &*final(world), old(out)@, final(out)@, name@, res),
{
    let vis = phys::visible(world, player.id);
    proof {
        lemma_visible_things(world, vis@);
    }
    if let Some(thing) = find_noun(world, &vis, name) {
        // If it has no prose, it can't be read
        if !visual::can_read(world, thing) {
            return Err(to_string("You can't read that."));
        }
        // If he's holding it, or it's scenery, then he can read it.
        if phys::owns(world, player.id, thing) || phys::is_scenery(world, thing) {
            let event = Event::ReadThing(player.id, thing);
            if !rule::allows(world, &event, out) {
                return Ok(Status::Normal);
            }
            proof {
                lemma_first_with_noun(&*old(world), vis@, name@);
                assert(vis@.contains(thing));
                assert(all_things(&*world, vis@));
            }
            visual::read(world, thing, out);
            let ghost oa = out@;
            rule::fire_event(world, &event, out);
            assert(fired(&*old(world), &*world, oa, out@, event));
            Ok(Status::Normal)
        } else {
            Err(to_string("You don't have it."))
        }
    } else {
        // It isn't here.
        Err(to_string("You don't see any such thing."))
    }
}

/// The player took the thing, and the rules for getting it were fired.
pub open spec fn taken(w0: &World, w1: &World, o0: Seq<String>, o1: Seq<String>, t: ID) -> bool {
    let p = w0.pid;
    exists|wa: World, oa: Seq<String>|
        #![trigger w0.moved(&wa, t, p), fired(&wa, w1, oa, o1, Event::GetThing(p, t))]
        {
            &&& wa.wf()
            &&& w0.moved(&wa, t, p)
            &&& wa.model() == w0.model().with_move(t, p)
            &&& texts(oa) == texts(o0).push("Taken."@)
            &&& fired(&wa, w1, oa, o1, Event::GetThing(p, t))
        }
}

/// What getting the named thing does.
pub open spec fn get_spec(
    w0: &World,
    w1: &World,
    o0: Seq<String>,
    o1: Seq<String>,
    noun: Seq<char>,
    res: CmdResult,
) -> bool {
    let p = w0.pid;
    let l = w0.loc_of(p);
    if first_with_noun(w0, w0.inv_of(p), noun) is Some {
        failed(w0, w1, o0, o1, res, "You already have that."@)
    } else if first_with_noun(w0, scenery_in(w0, w0.inv_of(l), true), noun) is Some {
        failed(w0, w1, o0, o1, res, "You can't take that!"@)
    } else {
        match first_with_noun(w0, scenery_in(w0, w0.inv_of(l), false), noun) {
            Some(t) => res == Ok::<Status, String>(Status::Normal) && if allowed(
                w0,
                Event::GetThing(p, t),
            ) {
                taken(w0, w1, o0, o1, t)
            } else {
                refused(w0, w1, o0, o1, Event::GetThing(p, t))
            },
            None => failed(w0, w1, o0, o1, res, "You don't see any such thing."@),
        }
    }
}

/// Gets a thing from the location's inventory, if the guard on getting it allows.
fn cmd_get(world: &mut World, player: &Player, noun: &str, out: &mut Vec<String>) -> (res: CmdResult)
    requires
        old(world).playable(),
        is_player_of(&*old(world), player),
    ensures
        final(world).playable(),
        final(world).clock == old(world).clock,
        get_spec(&*old(world), &*final(world), old(out)@, final(out)@, noun@, res),
{
    proof {
        lemma_selected_things(world, player.id, false);
        lemma_selected_things(world, player.loc, false);
        lemma_selected_things(world, player.loc, true);
    }
    // Does he already have it?
    let held = phys::contents(world, player.id);
    if find_noun(world, &held, noun).is_some() {
        return Err(to_string("You already have that."));
    }
    let fixed = phys::scenery(world, player.loc);
    if find_noun(world, &fixed, noun).is_some() {
        return Err(to_string("You can't take that!"));
    }
    let here = phys::gettable(world, player.id);
    if let Some(thing) = find_noun(world, &here, noun) {
        // Get the thing, if the guard allows.
        proof {
            phys::lemma_scenery_in(&*world, world.inv_of(player.loc), false);
            lemma_first_with_noun(&*world, here@, noun@);
            assert(here@.contains(thing));
            let k = choose|k: int| 0 <= k < here@.len() && here@[k] == thing;
            assert(world.inventories@[player.loc]@.contains(thing));
        }
        let event = Event::GetThing(player.id, thing);
        if !rule::allows(world, &event, out) {
            return Ok(Status::Normal);
        }
        phys::put_in(world, thing, player.id);
        let ghost wa = *world;
        visual::act("Taken.", out);
        let ghost oa = out@;
        rule::fire_event(world, &event, out);
        proof {
            assert(fired(&wa, &*world, oa, out@, event));
            assert(old(world).moved(&wa, thing, player.id));
        }
        return Ok(Status::Normal);
    }
    Err(to_string("You don't see any such thing."))
}

/// What dropping the named thing does.
pub open spec fn drop_spec(
    w0: &World,
    w1: &World,
    o0: Seq<String>,
    o1: Seq<String>,
    noun: Seq<char>,
    res: CmdResult,
) -> bool {
    let p = w0.pid;
    let l = w0.loc_of(p);
    match first_with_noun(w0, scenery_in(w0, w0.inv_of(p), false), noun) {
        Some(t) => {
            &&& w1.wf()
            &&& w0.moved(w1, t, l)
            &&& w1.model() == w0.model().with_move(t, l)
            &&& texts(o1) == texts(o0).push("Dropped."@)
            &&& res == Ok::<Status, String>(Status::Normal)
        },
        None => if first_with_noun(w0, scenery_in(w0, w0.inv_of(p), true), noun) is Some {
            failed(w0, w1, o0, o1, res, "You can't drop that!"@)
        } else if first_with_noun(w0, visible_ids(w0, p), noun) is Some {
            failed(w0, w1, o0, o1, res, "You aren't carrying that."@)
        } else {
            failed(w0, w1, o0, o1, res, "You don't see any such thing."@)
        },
    }
}

/// Drops a thing you're carrying
fn cmd_drop(world: &mut World, player: &Player, noun: &str, out: &mut Vec<String>) -> (res: CmdResult)
    requires
        old(world).playable(),
        is_player_of(&*old(world), player),
    ensures
        final(world).playable(),
        final(world).clock == old(world).clock,
        drop_spec(&*old(world), &*final(world), old(out)@, final(out)@, noun@, res),
{
    proof {
        lemma_selected_things(world, player.id, false);
        lemma_selected_things(world, player.id, true);
    }
    let held = phys::droppable(world, player.id);
    if let Some(thing) = find_noun(world, &held, noun) {
        proof {
            phys::lemma_scenery_in(&*world, world.inv_of(player.id), false);
            lemma_first_with_noun(&*world, held@, noun@);
            assert(held@.contains(thing));
            let k = choose|k: int| 0 <= k < held@.len() && held@[k] == thing;
            assert(world.inventories@[player.id]@.contains(thing));
        }
        // Drop the thing
        phys::put_in(world, thing, player.loc);
        visual::act("Dropped.", out);
        return Ok(Status::Normal);
    }
    let fixed = phys::scenery(world, player.id);
    if find_noun(world, &fixed, noun).is_some() {
        return Err(to_string("You can't drop that!"));
    }
    let vis = phys::visible(world, player.id);
    proof {
        lemma_visible_things(world, vis@);
    }
    if find_noun(world, &vis, noun).is_some() {
        Err(to_string("You aren't carrying that."))
    } else {
        Err(to_string("You don't see any such thing."))
    }
}

/// What washing the hands does: where there is water, the hands get clean.
pub open spec fn wash_spec(w0: &World, w1: &World, o0: Seq<String>, o1: Seq<String>, res: CmdResult) -> bool {
    let l = w0.loc_of(w0.pid);
    if !(w0.has_flags_spec(l) && w0.flags_of(l).contains(FlagView::User("HAS_WATER"@))) {
        failed(w0, w1, o0, o1, res, "That'd be a neat trick, since there's no water here."@)
    } else {
        let h = w0.tag_id("hands"@);
        let hands = w0.tag_exists("hands"@) && w0.has_flags_spec(h);
        let was_dirty = hands && w0.flags_of(h).contains(FlagView::User("DIRTY"@));
        &&& res == Ok::<Status, String>(Status::Normal)
        &&& texts(o1) == texts(o0).push(
            if was_dirty {
                with_separator("You wash your hands in the water."@) + "They look much cleaner now."@
            } else {
                "You wash your hands in the water."@
            },
        )
        &&& if hands {
            &&& w1.wf()
            &&& w0.same_but_flags(w1)
            &&& w1.model() == w0.model().without_flag(h, FlagView::User("DIRTY"@))
        } else {
            *w1 == *w0
        }
    }
}

/// Washes the player's hands, if there is water here.
fn cmd_wash_hands(world: &mut World, player: &Player, out: &mut Vec<String>) -> (res: CmdResult)
    requires
        old(world).playable(),
        is_player_of(&*old(world), player),
    ensures
        final(world).playable(),
        final(world).clock == old(world).clock,
        wash_spec(&*old(world), &*final(world), old(out)@, final(out)@, res),
{
    if !(world.has_flags(player.loc) && world.has_flag(player.loc, has_water())) {
        return Err(to_string("That'd be a neat trick, since there's no water here."));
    }
    let mut buff = crate::types::ProseBuffer::new();
    buff.puts("You wash your hands in the water.");
    match world.lookup_id("hands") {
        Some(hands) => {
            if world.has_flags(hands) {
                if world.has_flag(hands, dirty()) {
                    buff.puts("They look much cleaner now.");
                }
                visual::act(buff.get().as_str(), out);
                world.unset(hands, dirty());
            } else {
                visual::act(buff.get().as_str(), out);
            }
        },
        None => {
            visual::act(buff.get().as_str(), out);
        },
    }
    Ok(Status::Normal)
}

//-------------------------------------------------------------------------
// Command dispatch

/// The normal commands.
pub ghost enum Verb {
    Go(Dir),
    Help,
    Look,
    Inventory,
    Examine(Seq<char>),
    Read(Seq<char>),
    Get(Seq<char>),
    Drop(Seq<char>),
    WashHands,
    Wash,
    Undo,
    Restart,
    Quit,
    Unknown,
}

/// Are the words exactly the two given ones?
pub open spec fn words2(ws: Seq<Seq<char>>, a: Seq<char>, b: Seq<char>) -> bool {
    ws.len() == 2 && ws[0] == a && ws[1] == b
}

/// Is the text the given single word?
pub open spec fn words1(ws: Seq<Seq<char>>, a: Seq<char>) -> bool {
    ws.len() == 1 && ws[0] == a
}

/// The command that the words make.
pub open spec fn verb_of(ws: Seq<Seq<char>>) -> Verb {
    if words2(ws, "go"@, "north"@) || words1(ws, "north"@) {
        Verb::Go(Dir::North)
    } else if words2(ws, "go"@, "south"@) || words1(ws, "south"@) {
        Verb::Go(Dir::South)
    } else if words2(ws, "go"@, "east"@) || words1(ws, "east"@) {
        Verb::Go(Dir::East)
    } else if words2(ws, "go"@, "west"@) || words1(ws, "west"@) {
        Verb::Go(Dir::West)
    } else if words1(ws, "help"@) {
        Verb::Help
    } else if words1(ws, "look"@) {
        Verb::Look
    } else if words1(ws, "inventory"@) {
        Verb::Inventory
    } else if ws.len() == 2 && ws[0] == "examine"@ {
        Verb::Examine(ws[1])
    } else if ws.len() == 2 && ws[0] == "read"@ {
        Verb::Read(ws[1])
    } else if ws.len() == 2 && ws[0] == "get"@ {
        Verb::Get(ws[1])
    } else if ws.len() == 3 && ws[0] == "pick"@ && ws[1] == "up"@ {
        Verb::Get(ws[2])
    } else if ws.len() == 2 && ws[0] == "drop"@ {
        Verb::Drop(ws[1])
    } else if words2(ws, "wash"@, "hands"@) {
        Verb::WashHands
    } else if ws.len() == 2 && ws[0] == "wash"@ {
        Verb::Wash
    } else if words1(ws, "undo"@) {
        Verb::Undo
    } else if words1(ws, "restart"@) {
        Verb::Restart
    } else if words1(ws, "quit"@) {
        Verb::Quit
    } else {
        Verb::Unknown
    }
}

/// The world is unchanged, and the paragraph was output with the status.
pub open spec fn acted(
    w0: &World,
    w1: &World,
    o0: Seq<String>,
    o1: Seq<String>,
    res: CmdResult,
    para: Seq<char>,
    status: Status,
) -> bool {
    &&& *w1 == *w0
    &&& texts(o1) == texts(o0).push(para)
    &&& res == Ok::<Status, String>(status)
}

/// What a normal command does.
pub open spec fn normal_spec(
    w0: &World,
    w1: &World,
    o0: Seq<String>,
    o1: Seq<String>,
    has_undo: bool,
    v: Verb,
    res: CmdResult,
) -> bool {
    match v {
        Verb::Go(dir) => go_spec(w0, w1, o0, o1, dir, res),
        Verb::Help => said(w0, w1, o0, o1, res, help_text()),
        Verb::Look => look_spec(w0, w1, o0, o1, res),
        Verb::Inventory => said(w0, w1, o0, o1, res, inventory_para(w0, w0.pid)),
        Verb::Examine(name) => examine_spec(w0, w1, o0, o1, name, res),
        Verb::Read(name) => read_spec(w0, w1, o0, o1, name, res),
        Verb::Get(name) => get_spec(w0, w1, o0, o1, name, res),
        Verb::Drop(name) => drop_spec(w0, w1, o0, o1, name, res),
        Verb::WashHands => wash_spec(w0, w1, o0, o1, res),
        Verb::Wash => failed(w0, w1, o0, o1, res, "Whatever for?"@),
        Verb::Undo => if has_undo {
            acted(w0, w1, o0, o1, res, "Undone."@, Status::Undo)
        } else {
            failed(w0, w1, o0, o1, res, "Nothing to undo."@)
        },
        Verb::Restart => acted(w0, w1, o0, o1, res, "Restarting..."@, Status::Restart),
        Verb::Quit => acted(w0, w1, o0, o1, res, "Bye, then."@, Status::Quit),
        Verb::Unknown => failed(w0, w1, o0, o1, res, "I don't understand."@),
    }
}

/// Is the i-th word the given one?
fn word_is(words: &Vec<String>, i: usize, w: &str) -> (res: bool)
    ensures
        res == (i < words@.len() && word_texts(words@)[i as int] == w@),
{
    i < words.len() && str_eq(words[i].as_str(), w)
}

/// Handles a normal (non-debugging) command.
fn handle_normal_command(
    world: &mut World,
    player: &Player,
    has_undo: bool,
    words: &Vec<String>,
    out: &mut Vec<String>,
) -> (res: CmdResult)
    requires
        old(world).playable(),
        is_player_of(&*old(world), player),
    ensures
        final(world).playable(),
        final(world).clock == old(world).clock,
        normal_spec(
            &*old(world),
            &*final(world),
            old(out)@,
            final(out)@,
            has_undo,
            verb_of(word_texts(words@)),
            res,
        ),
{
    let n = words.len();
    let ghost ws = word_texts(words@);
    assert(ws.len() == n);
    if (n == 2 && word_is(words, 0, "go") && word_is(words, 1, "north")) || (n == 1 && word_is(
        words,
        0,
        "north",
    )) {
        cmd_go(world, player, Dir::North, out)
    } else if (n == 2 && word_is(words, 0, "go") && word_is(words, 1, "south")) || (n == 1
        && word_is(words, 0, "south")) {
        cmd_go(world, player, Dir::South, out)
    } else if (n == 2 && word_is(words, 0, "go") && word_is(words, 1, "east")) || (n == 1
        && word_is(words, 0, "east")) {
        cmd_go(world, player, Dir::East, out)
    } else if (n == 2 && word_is(words, 0, "go") && word_is(words, 1, "west")) || (n == 1
        && word_is(words, 0, "west")) {
        cmd_go(world, player, Dir::West, out)
    } else if n == 1 && word_is(words, 0, "help") {
        cmd_help(out)
    } else if n == 1 && word_is(words, 0, "look") {
        cmd_look(world, player, out)
    } else if n == 1 && word_is(words, 0, "inventory") {
        cmd_inventory(world, player, out)
    } else if n == 2 && word_is(words, 0, "examine") {
        cmd_examine(world, player, words[1].as_str(), out)
    } else if n == 2 && word_is(words, 0, "read") {
        cmd_read(world, player, words[1].as_str(), out)
    } else if n == 2 && word_is(words, 0, "get") {
        cmd_get(world, player, words[1].as_str(), out)
    } else if n == 3 && word_is(words, 0, "pick") && word_is(words, 1, "up") {
        cmd_get(world, player, words[2].as_str(), out)
    } else if n == 2 && word_is(words, 0, "drop") {
        cmd_drop(world, player, words[1].as_str(), out)
    } else if n == 2 && word_is(words, 0, "wash") && word_is(words, 1, "hands") {
        cmd_wash_hands(world, player, out)
    } else if n == 2 && word_is(words, 0, "wash") {
        Err(to_string("Whatever for?"))
    } else if n == 1 && word_is(words, 0, "undo") {
        cmd_undo(has_undo, out)
    } else if n == 1 && word_is(words, 0, "restart") {
        cmd_restart(out)
    } else if n == 1 && word_is(words, 0, "quit") {
        cmd_quit(out)
    } else {
        Err(to_string("I don't understand."))
    }
}

/// Undo the last command the game
fn cmd_undo(has_undo: bool, out: &mut Vec<String>) -> (res: CmdResult)
    ensures
        has_undo ==> texts(final(out)@) == texts(old(out)@).push("Undone."@) && res == Ok::<
            Status,
            String,
        >(Status::Undo),
        !has_undo ==> final(out)@ == old(out)@ && is_err(res, "Nothing to undo."@),
{
    if has_undo {
        visual::act("Undone.", out);
        Ok(Status::Undo)
    } else {
        Err(to_string("Nothing to undo."))
    }
}

/// Restart the game
fn cmd_restart(out: &mut Vec<String>) -> (res: CmdResult)
    ensures
        texts(final(out)@) == texts(old(out)@).push("Restarting..."@),
        res == Ok::<Status, String>(Status::Restart),
{
    visual::act("Restarting...", out);
    Ok(Status::Restart)
}

/// Quit the game.
fn cmd_quit(out: &mut Vec<String>) -> (res: CmdResult)
    ensures
        texts(final(out)@) == texts(old(out)@).push("Bye, then."@),
        res == Ok::<Status, String>(Status::Quit),
{
    visual::act("Bye, then.", out);
    Ok(Status::Quit)
}

//------------------------------------------------------------------------------
// Numbers

/// Is the character a decimal digit?
pub open spec fn is_digit(c: char) -> bool {
    '0' <= c && c <= '9'
}

/// The value of a sequence of decimal digits.
pub open spec fn digits_value(s: Seq<char>) -> int
    decreases s.len(),
{
    if s.len() == 0 {
        0
    } else {
        digits_value(s.drop_last()) * 10 + (s.last() as int - '0' as int)
    }
}

/// The number the text denotes, as `usize::from_str` reads it: an optional '+'
/// followed by one or more decimal digits.
pub open spec fn number_of(s: Seq<char>) -> Option<int> {
    let d = unsigned_digits(s);
    if d.len() > 0 && all_digits(d) {
        Some(digits_value(d))
    } else {
        None
    }
}

/// The text without a leading '+'.
pub open spec fn unsigned_digits(s: Seq<char>) -> Seq<char> {
    if s.len() > 0 && s[0] == '+' {
        s.drop_first()
    } else {
        s
    }
}

/// Are all the characters decimal digits?
pub open spec fn all_digits(d: Seq<char>) -> bool {
    forall|i: int| 0 <= i < d.len() ==> is_digit(#[trigger] d[i])
}

/// A prefix of digits has no greater value than the whole.
proof fn lemma_prefix_value(s: Seq<char>, k: int)
    requires
        0 <= k <= s.len(),
        forall|i: int| 0 <= i < s.len() ==> is_digit(#[trigger] s[i]),
    ensures
        0 <= digits_value(s.take(k)) <= digits_value(s),
    decreases s.len(),
{
    if k == s.len() {
        assert(s.take(k) =~= s);
        lemma_value_nonneg(s);
    } else {
        let t = s.drop_last();
        assert(forall|i: int| 0 <= i < t.len() ==> is_digit(#[trigger] t[i]) ==> true);
        assert forall|i: int| 0 <= i < t.len() implies is_digit(#[trigger] t[i]) by {
            assert(t[i] == s[i]);
        }
        lemma_prefix_value(t, k);
        assert(t.take(k) =~= s.take(k));
        assert(is_digit(s[s.len() - 1]));
    }
}

/// Digits have a value of at least zero.
proof fn lemma_value_nonneg(s: Seq<char>)
    requires
        forall|i: int| 0 <= i < s.len() ==> is_digit(#[trigger] s[i]),
    ensures
        digits_value(s) >= 0,
    decreases s.len(),
{
    if s.len() > 0 {
        let t = s.drop_last();
        assert forall|i: int| 0 <= i < t.len() implies is_digit(#[trigger] t[i]) by {
            assert(t[i] == s[i]);
        }
        lemma_value_nonneg(t);
        assert(is_digit(s[s.len() - 1]));
    }
}

/// The digit's value.
fn digit_value(c: char) -> (res: usize)
    requires
        is_digit(c),
    ensures
        res == c as int - '0' as int,
{
    if c == '0' {
        0
    } else if c == '1' {
        1
    } else if c == '2' {
        2
    } else if c == '3' {
        3
    } else if c == '4' {
        4
    } else if c == '5' {
        5
    } else if c == '6' {
        6
    } else if c == '7' {
        7
    } else if c == '8' {
        8
    } else {
        9
    }
}

/// Reads a number, as `usize::from_str` does; `None` if the text is not a number or
/// the number is too large.
fn parse_number(token: &str) -> (res: Option<usize>)
    ensures
        res == match number_of(token@) {
            Some(v) => if v <= usize::MAX {
                Some(v as usize)
            } else {
                None
            },
            None => None,
        },
        number_of(token@) matches Some(v) ==> v >= 0,
{
    proof {
        if number_of(token@) is Some {
            lemma_value_nonneg(unsigned_digits(token@));
        }
    }
    let n = token.unicode_len();
    let start: usize = if n > 0 && token.get_char(0) == '+' {
        1
    } else {
        0
    };
    let ghost d = unsigned_digits(token@);
    assert(d =~= token@.subrange(start as int, n as int));
    if start == n {
        return None;
    }
    let mut v: usize = 0;
    let mut i: usize = start;
    while i < n
        invariant
            start < n,
            n == token@.len(),
            d == token@.subrange(start as int, n as int),
            d == unsigned_digits(token@),
            start <= i <= n,
            forall|k: int| 0 <= k < i - start ==> is_digit(#[trigger] d[k]),
            v == digits_value(d.take(i - start)),
        decreases n - i,
    {
        let c = token.get_char(i);
        assert(c == d[i - start]);
        if !(c >= '0' && c <= '9') {
            assert(!is_digit(d[i - start]));
            assert(!all_digits(d));
            return None;
        }
        assert(d.take(i - start + 1).drop_last() =~= d.take(i - start));
        let dv = digit_value(c);
        let ghost next = digits_value(d.take(i - start + 1));
        assert(next == v * 10 + dv);
        match v.checked_mul(10) {
            Some(v10) => match v10.checked_add(dv) {
                Some(w) => {
                    v = w;
                },
                None => {
                    proof {
                        assert(next > usize::MAX);
                        if all_digits(d) {
                            lemma_prefix_value(d, i - start + 1);
                            assert(digits_value(d) > usize::MAX);
                            assert(number_of(token@) == Some(digits_value(d)));
                        }
                    }
                    return None;
                },
            },
            None => {
                proof {
                    if all_digits(d) {
                        lemma_prefix_value(d, i - start + 1);
                        lemma_prefix_value(d.take(i - start), 0);
                        lemma_value_nonneg(d.take(i - start));
                    }
                }
                return None;
            },
        }
        i = i + 1;
    }
    assert(d.take(n - start) =~= d);
    Some(v)
}

//------------------------------------------------------------------------------
// Debugging commands

/// The message for a token that names no entity.
pub open spec fn not_an_id(token: Seq<char>) -> Seq<char> {
    "Not an ID: "@ + token
}

/// The entity that a token names: by its tag, or else by its ID.
pub open spec fn parse_id_spec(w: &World, token: Seq<char>) -> Result<ID, Seq<char>> {
    if w.tag_exists(token) {
        Ok(w.tag_id(token))
    } else {
        match number_of(token) {
            Some(v) => if 0 <= v < w.n() {
                Ok(v as ID)
            } else {
                Err(not_an_id(token))
            },
            None => Err(not_an_id(token)),
        }
    }
}

/// Parse a token as an entity tag or ID, return an ID on success and
/// an error result on failure.
fn parse_id(world: &World, token: &str) -> (res: Result<ID, String>)
    requires
        world.wf_tags(),
    ensures
        match parse_id_spec(world, token@) {
            Ok(id) => res matches Ok(i) && i == id,
            Err(m) => res matches Err(e) && e@ == m,
        },
{
    // FIRST, is the token a tag?
    if let Some(id) = world.lookup_id(token) {
        return Ok(id);
    }
    // NEXT, is it an explicit ID?
    assert(world.tags@.len() == world.tags.len());
    match parse_number(token) {
        Some(id) => {
            assert(number_of(token@) == Some(id as int));
            if id < world.tags.len() {
                Ok(id)
            } else {
                let mut msg = to_string("Not an ID: ");
                msg.append(token);
                Err(msg)
            }
        },
        None => {
            let mut msg = to_string("Not an ID: ");
            msg.append(token);
            Err(msg)
        },
    }
}

/// The message for an entity that is not of the needed kind.
pub open spec fn not_a(id: ID, kind: Seq<char>) -> Seq<char> {
    "Entity "@ + decimal(id as nat) + kind
}

/// Builds the message for an entity that is not of the needed kind.
fn not_a_msg(id: ID, kind: &str) -> (res: String)
    ensures
        res@ == not_a(id, kind@),
{
    let mut msg = to_string("Entity ");
    msg.append(id_text(id).as_str());
    msg.append(kind);
    msg
}

/// What a debugging command does.
pub open spec fn debug_spec(
    w0: &World,
    w1: &World,
    o0: Seq<String>,
    o1: Seq<String>,
    ws: Seq<Seq<char>>,
    res: CmdResult,
) -> bool {
    let p = w0.pid;
    if words1(ws, "list"@) {
        said(w0, w1, o0, o1, res, list_lines(w0, w0.n()))
    } else if ws.len() == 2 && (ws[0] == "dump"@ || ws[0] == "look"@ || ws[0] == "examine"@
        || ws[0] == "go"@) {
        match parse_id_spec(w0, ws[1]) {
            Err(m) => failed(w0, w1, o0, o1, res, m),
            Ok(id) => if ws[0] == "dump"@ {
                said(w0, w1, o0, o1, res, dump_text(w0, id))
            } else if ws[0] == "look"@ {
                if w0.is_room_spec(id) {
                    *w1 == *w0 && texts(o1) == texts(o0) + room_paras(w0, id, true) && res == Ok::<
                        Status,
                        String,
                    >(Status::Normal)
                } else {
                    failed(w0, w1, o0, o1, res, not_a(id, " is not a room."@))
                }
            } else if ws[0] == "examine"@ {
                if w0.is_thing_spec(id) {
                    said(w0, w1, o0, o1, res, prose_of(w0, id, ProseType::Thing))
                } else {
                    failed(w0, w1, o0, o1, res, not_a(id, " is not a thing."@))
                }
            } else {
                if w0.is_room_spec(id) {
                    &&& w1.wf()
                    &&& w0.moved(w1, p, id)
                    &&& w1.model() == w0.model().with_move(p, id)
                    &&& texts(o1) == texts(o0) + room_paras(w1, id, true)
                    &&& res == Ok::<Status, String>(Status::Normal)
                } else {
                    failed(w0, w1, o0, o1, res, not_a(id, " is not a room."@))
                }
            },
        }
    } else {
        failed(w0, w1, o0, o1, res, "I don't understand."@)
    }
}

/// Handle debugging commands.
fn handle_debug_command(
    world: &mut World,
    player: &Player,
    words: &Vec<String>,
    out: &mut Vec<String>,
) -> (res: CmdResult)
    requires
        old(world).playable(),
        is_player_of(&*old(world), player),
    ensures
        final(world).playable(),
        final(world).clock == old(world).clock,
        debug_spec(&*old(world), &*final(world), old(out)@, final(out)@, word_texts(words@), res),
{
    let n = words.len();
    let ghost ws = word_texts(words@);
    assert(ws.len() == n);
    if n == 1 && word_is(words, 0, "list") {
        // List all of the available entities.
        visual::info(list_world(world).as_str(), out);
        Ok(Status::Normal)
    } else if n == 2 && (word_is(words, 0, "dump") || word_is(words, 0, "look") || word_is(
        words,
        0,
        "examine",
    ) || word_is(words, 0, "go")) {
        let id = match parse_id(world, words[1].as_str()) {
            Ok(id) => id,
            Err(msg) => {
                return Err(msg);
            },
        };
        if word_is(words, 0, "dump") {
            // Dump information about the given entity.
            visual::info(dump_entity(world, id).as_str(), out);
            Ok(Status::Normal)
        } else if word_is(words, 0, "look") {
            // Describe the room as though the player were in it.
            if world.is_room(id) {
                visual::room(world, id, out);
                Ok(Status::Normal)
            } else {
                Err(not_a_msg(id, " is not a room."))
            }
        } else if word_is(words, 0, "examine") {
            // Examine the thing fully, as though the player could see it.
            if world.is_thing(id) {
                visual::thing(world, id, out);
                Ok(Status::Normal)
            } else {
                Err(not_a_msg(id, " is not a thing."))
            }
        } else {
            // Take the player to the room.
            if world.is_room(id) {
                phys::put_in(world, player.id, id);
                visual::room(world, id, out);
                Ok(Status::Normal)
            } else {
                Err(not_a_msg(id, " is not a room."))
            }
        }
    } else {
        Err(to_string("I don't understand."))
    }
}

//------------------------------------------------------------------------------
// Input

/// What a command does, as a debugging command or a normal one.
pub open spec fn command_spec(
    w0: &World,
    w1: &World,
    o0: Seq<String>,
    o1: Seq<String>,
    has_undo: bool,
    debug: bool,
    ws: Seq<Seq<char>>,
    res: CmdResult,
) -> bool {
    if debug {
        debug_spec(w0, w1, o0, o1, ws, res)
    } else {
        normal_spec(w0, w1, o0, o1, has_undo, verb_of(ws), res)
    }
}

/// What a line of input does: input with a period is refused; other input is
/// split into words, and is a debugging command when it starts with '!'.
pub open spec fn input_spec(
    w0: &World,
    w1: &World,
    o0: Seq<String>,
    o1: Seq<String>,
    has_undo: bool,
    input: Seq<char>,
    res: CmdResult,
) -> bool {
    let t = trimmed(input);
    if t.contains('.') {
        failed(w0, w1, o0, o1, res, period_error())
    } else {
        command_spec(
            w0,
            w1,
            o0,
            o1,
            has_undo,
            t.len() > 0 && t[0] == '!',
            words_of(stripped(t)),
            res,
        )
    }
}

/// Parses the input and handles the command.
fn handle_input(game: &mut Game, player: &Player, input: &str, out: &mut Vec<String>) -> (res: CmdResult)
    requires
        old(game).ok(),
        is_player_of(&old(game).world, player),
    ensures
        final(game).world.playable(),
        final(game).world.clock == old(game).world.clock,
        final(game).undo_info == old(game).undo_info,
        input_spec(
            &old(game).world,
            &final(game).world,
            old(out)@,
            final(out)@,
            old(game).undo_info is Some,
            input@,
            res,
        ),
{
    // FIRST, parse the input.
    let cmd = match command::parse(&game.world, input) {
        Ok(cmd) => cmd,
        Err(msg) => {
            return Err(msg);
        },
    };
    let has_undo = game.has_undo();
    if cmd.is_debug {
        handle_debug_command(&mut game.world, player, &cmd.words, out)
    } else {
        handle_normal_command(&mut game.world, player, has_undo, &cmd.words, out)
    }
}

/// What a command's result does to the game: an error is shown; a normal command
/// can be undone; and the game restarts, undoes the last command, or ends.
pub open spec fn outcome(
    g0: Game,
    w1: World,
    oa: Seq<String>,
    res: CmdResult,
    g1: Game,
    o1: Seq<String>,
    quit: bool,
) -> bool {
    match res {
        Err(m) => {
            &&& !quit
            &&& g1.world == w1
            &&& g1.undo_info == g0.undo_info
            &&& texts(o1) == texts(oa).push(m@)
        },
        Ok(Status::Normal) => {
            &&& !quit
            &&& g1.world == w1
            &&& g1.undo_info matches Some(u) && g0.world.same_as(&u)
            &&& o1 == oa
        },
        Ok(Status::Restart) => !quit && restarted(g1, oa, o1),
        Ok(Status::Undo) => {
            &&& !quit
            &&& g1.world == g0.undo_info->Some_0
            &&& g1.undo_info is None
            &&& o1 == oa
        },
        Ok(Status::Quit) => {
            &&& quit
            &&& g1.world == w1
            &&& g1.undo_info == g0.undo_info
            &&& o1 == oa
        },
    }
}

/// What the Player Control system does with a line of input.
pub open spec fn system_spec(
    g0: Game,
    g1: Game,
    o0: Seq<String>,
    o1: Seq<String>,
    input: Seq<char>,
    quit: bool,
) -> bool {
    exists|w1: World, oa: Seq<String>, res: CmdResult|
        #![trigger input_spec(&g0.world, &w1, o0, oa, g0.undo_info is Some, input, res)]
        input_spec(&g0.world, &w1, o0, oa, g0.undo_info is Some, input, res) && outcome(
            g0,
            w1,
            oa,
            res,
            g1,
            o1,
            quit,
        )
}

/// The Player Control system.  Processes player commands; returns true when the
/// player is done with the game.
pub fn system(game: &mut Game, input: &str, out: &mut Vec<String>) -> (quit: bool)
    requires
        old(game).ok(),
        old(game).world.clock < usize::MAX,
    ensures
        final(game).ok(),
        final(game).world.clock <= old(game).world.clock || final(game).world.clock == 1,
        final(game).world.clock == old(game).world.clock || final(game).world.clock == 1 || (old(
            game,
        ).undo_info matches Some(u) && final(game).world == u),
        system_spec(*old(game), *final(game), old(out)@, final(out)@, input@, quit),
{
    // FIRST, get the current game state, for later undo.
    let undo_info = game.world.clone();
    proof {
        lemma_same_as_playable(&game.world, &undo_info);
    }
    // NEXT, get the player's context
    let player = Player { id: game.world.pid, loc: phys::loc(&game.world, game.world.pid) };
    // NEXT, handle the input
    let ghost g0 = *game;
    let ghost o0 = out@;
    let result = handle_input(game, &player, input, out);
    let ghost w1 = game.world;
    let ghost oa = out@;
    assert(input_spec(&g0.world, &w1, o0, oa, g0.undo_info is Some, input@, result));
    match result {
        Err(msg) => {
            visual::error(msg.as_str(), out);
            false
        },
        Ok(Status::Normal) => {
            game.save_for_undo(undo_info);
            false
        },
        Ok(Status::Restart) => {
            game.restart(out);
            false
        },
        Ok(Status::Undo) => {
            game.undo();
            false
        },
        Ok(Status::Quit) => true,
    }
}

/// Copies of a world are as playable as it is.
pub proof fn lemma_same_as_playable(w: &World, c: &World)
    requires
        w.playable(),
        w.same_as(c),
    ensures
        c.playable(),
        c.clock == w.clock,
{
    crate::world::lemma_wf_tags_same(w, c);
    crate::world::lemma_wf_hooks_extends(w, c);
}

//------------------------------------------------------------------------------
// Single words

/// Is the text one plain word: not empty, with no white space, and none of the
/// characters that the parser drops or refuses?
pub open spec fn plain_word(s: Seq<char>) -> bool {
    &&& s.len() > 0
    &&& forall|i: int|
        0 <= i < s.len() ==> !is_white_space(#[trigger] s[i]) && s[i] != ',' && s[i] != '!'
            && s[i] != '.'
}

/// The words of a plain word are the word itself.
proof fn lemma_words_of_plain(s: Seq<char>)
    requires
        plain_word(s),
    ensures
        words_of(s) == seq![s],
    decreases s.len(),
{
    if s.len() > 1 {
        let t = s.drop_last();
        assert forall|i: int| 0 <= i < t.len() implies !is_white_space(#[trigger] t[i]) && t[i]
            != ',' && t[i] != '!' && t[i] != '.' by {
            assert(t[i] == s[i]);
        }
        lemma_words_of_plain(t);
        assert(s[s.len() - 2] == t[t.len() - 1]);
        assert(!is_white_space(s[s.len() - 2]));
        assert(!is_white_space(s[s.len() - 1]));
        assert(t.push(s.last()) =~= s);
        let w = words_of(t);
        assert(w.last() == t);
        assert(w.update(w.len() - 1, w.last().push(s.last())) =~= seq![s]);
        assert(words_of(s) =~= seq![s]);
    } else {
        assert(s.drop_last() =~= Seq::<char>::empty());
        assert(words_of(s.drop_last()) =~= Seq::<Seq<char>>::empty());
        assert(!is_white_space(s[0]));
        assert(s.last() == s[0]);
        assert(seq![s.last()] =~= s);
        assert(words_of(s) =~= seq![s]);
    }
}

/// Stripping drops nothing from a plain word.
proof fn lemma_stripped_plain(s: Seq<char>)
    requires
        forall|i: int| 0 <= i < s.len() ==> #[trigger] s[i] != ',' && s[i] != '!',
    ensures
        stripped(s) == s,
    decreases s.len(),
{
    reveal_with_fuel(Seq::<_>::filter, 1);
    if s.len() > 0 {
        let t = s.drop_last();
        assert forall|i: int| 0 <= i < t.len() implies #[trigger] t[i] != ',' && t[i] != '!' by {
            assert(t[i] == s[i]);
        }
        lemma_stripped_plain(t);
        assert(s.last() == s[s.len() - 1]);
        assert(t.push(s.last()) =~= s);
    } else {
        assert(s.filter(|c: char| c != ',' && c != '!') =~= s);
    }
}

/// A plain word is its own trimmed text, and the command is the word alone.
proof fn lemma_plain_input(s: Seq<char>)
    requires
        plain_word(s),
    ensures
        trimmed(s) == s,
        !s.contains('.'),
        stripped(s) == s,
        words_of(stripped(s)) == seq![s],
        s[0] != '!',
{
    assert(!is_white_space(s[0]));
    assert(!is_white_space(s[s.len() - 1]));
    assert(s.subrange(0, s.len() as int) =~= s);
    lemma_stripped_plain(s);
    lemma_words_of_plain(s);
    if s.contains('.') {
        let k = choose|k: int| 0 <= k < s.len() && s[k] == '.';
        assert(s[k] != '.');
    }
}

/// The word "undo".
proof fn lemma_undo_word()
    ensures
        plain_word("undo"@),
        verb_of(seq!["undo"@]) == Verb::Undo,
{
    reveal_strlit("undo");
    reveal_strlit("north");
    reveal_strlit("south");
    reveal_strlit("east");
    reveal_strlit("west");
    reveal_strlit("help");
    reveal_strlit("look");
    reveal_strlit("inventory");
    assert("undo"@[0] == 'u');
}

/// The word "quit".
proof fn lemma_quit_word()
    ensures
        plain_word("quit"@),
        verb_of(seq!["quit"@]) == Verb::Quit,
{
    reveal_strlit("quit");
    reveal_strlit("north");
    reveal_strlit("south");
    reveal_strlit("east");
    reveal_strlit("west");
    reveal_strlit("help");
    reveal_strlit("look");
    reveal_strlit("inventory");
    reveal_strlit("undo");
    reveal_strlit("restart");
    assert("quit"@[0] == 'q');
}

//------------------------------------------------------------------------------
// Laws

/// Undo gives back the world as it was saved before the last command that could be
/// undone, and there is then nothing more to undo.
pub proof fn law_undo_restores(g0: Game, g1: Game, o0: Seq<String>, o1: Seq<String>, quit: bool)
    requires
        g0.undo_info is Some,
        system_spec(g0, g1, o0, o1, "undo"@, quit),
    ensures
        g1.world == g0.undo_info->Some_0,
        g1.undo_info is None,
        !quit,
        texts(o1) == texts(o0).push("Undone."@),
{
    lemma_undo_word();
    lemma_plain_input("undo"@);
    let (w1, oa, res) = choose|w1: World, oa: Seq<String>, res: CmdResult|
        #![trigger input_spec(&g0.world, &w1, o0, oa, g0.undo_info is Some, "undo"@, res)]
        input_spec(&g0.world, &w1, o0, oa, g0.undo_info is Some, "undo"@, res) && outcome(
            g0,
            w1,
            oa,
            res,
            g1,
            o1,
            quit,
        );
    assert(res == Ok::<Status, String>(Status::Undo));
}

/// With nothing to undo, undo changes nothing but says so.
pub proof fn law_nothing_to_undo(g0: Game, g1: Game, o0: Seq<String>, o1: Seq<String>, quit: bool)
    requires
        g0.undo_info is None,
        system_spec(g0, g1, o0, o1, "undo"@, quit),
    ensures
        g1 == g0,
        !quit,
        texts(o1) == texts(o0).push("Nothing to undo."@),
{
    lemma_undo_word();
    lemma_plain_input("undo"@);
    let (w1, oa, res) = choose|w1: World, oa: Seq<String>, res: CmdResult|
        #![trigger input_spec(&g0.world, &w1, o0, oa, g0.undo_info is Some, "undo"@, res)]
        input_spec(&g0.world, &w1, o0, oa, g0.undo_info is Some, "undo"@, res) && outcome(
            g0,
            w1,
            oa,
            res,
            g1,
            o1,
            quit,
        );
    assert(is_err(res, "Nothing to undo."@));
}

/// A command that was undone leaves the world as it was before the command.
pub proof fn law_command_undone(
    g0: Game,
    g1: Game,
    g2: Game,
    o1: Seq<String>,
    o2: Seq<String>,
    quit: bool,
)
    requires
        g1.undo_info matches Some(u) && g0.world.same_as(&u),
        system_spec(g1, g2, o1, o2, "undo"@, quit),
    ensures
        g0.world.same_as(&g2.world),
{
    law_undo_restores(g1, g2, o1, o2, quit);
}

/// Quitting ends the game, and changes nothing.
pub proof fn law_quit(g0: Game, g1: Game, o0: Seq<String>, o1: Seq<String>, quit: bool)
    requires
        system_spec(g0, g1, o0, o1, "quit"@, quit),
    ensures
        quit,
        g1 == g0,
        texts(o1) == texts(o0).push("Bye, then."@),
{
    lemma_quit_word();
    lemma_plain_input("quit"@);
    let (w1, oa, res) = choose|w1: World, oa: Seq<String>, res: CmdResult|
        #![trigger input_spec(&g0.world, &w1, o0, oa, g0.undo_info is Some, "quit"@, res)]
        input_spec(&g0.world, &w1, o0, oa, g0.undo_info is Some, "quit"@, res) && outcome(
            g0,
            w1,
            oa,
            res,
            g1,
            o1,
            quit,
        );
    assert(res == Ok::<Status, String>(Status::Quit));
}

/// The word that names a compass direction.
pub open spec fn direction_word(dir: Dir) -> Seq<char> {
    match dir {
        Dir::North => "north"@,
        Dir::South => "south"@,
        Dir::East => "east"@,
        _ => "west"@,
    }
}

/// "go" followed by a compass direction is the same command as the direction alone:
/// both move the player that way.
pub proof fn law_go_direction(dir: Dir)
    requires
        dir == Dir::North || dir == Dir::South || dir == Dir::East || dir == Dir::West,
    ensures
        verb_of(seq!["go"@, direction_word(dir)]) == Verb::Go(dir),
        verb_of(seq![direction_word(dir)]) == Verb::Go(dir),
        verb_of(seq!["go"@, direction_word(dir)]) == verb_of(seq![direction_word(dir)]),
{
    reveal_strlit("go");
    reveal_strlit("north");
    reveal_strlit("south");
    reveal_strlit("east");
    reveal_strlit("west");
    assert("north"@[0] != "south"@[0]);
    assert("north"@[0] != "east"@[0]);
    assert("north"@[0] != "west"@[0]);
    assert("south"@[0] != "east"@[0]);
    assert("south"@[0] != "west"@[0]);
    assert("east"@[0] != "west"@[0]);
}

/// The characters of a decimal numeral are digits.
proof fn lemma_decimal_digits(n: nat)
    ensures
        decimal(n).len() > 0,
        all_digits(decimal(n)),
    decreases n,
{
    if n >= 10 {
        lemma_decimal_digits(n / 10);
        let d = decimal(n / 10);
        assert forall|i: int| 0 <= i < decimal(n).len() implies is_digit(#[trigger] decimal(n)[i]) by {
            if i < d.len() {
                assert(decimal(n)[i] == d[i]);
            }
        }
    }
}

/// Digits read in base ten give back the number they were written from.
proof fn lemma_decimal_value(n: nat)
    ensures
        digits_value(decimal(n)) == n,
    decreases n,
{
    lemma_digit_value(n % 10);
    if n >= 10 {
        lemma_decimal_value(n / 10);
        let d = decimal(n);
        assert(d == decimal(n / 10).push(digit(n % 10)));
        assert(d.drop_last() =~= decimal(n / 10));
        assert(d.last() == digit(n % 10));
        assert(digits_value(d) == digits_value(d.drop_last()) * 10 + (d.last() as int - '0' as int));
        assert((n / 10) * 10 + n % 10 == n);
    } else {
        let d = decimal(n);
        assert(d == seq![digit(n)]);
        assert(n % 10 == n);
        assert(d.drop_last() =~= Seq::<char>::empty());
        assert(d.last() == digit(n));
        assert(digits_value(d) == digits_value(d.drop_last()) * 10 + (d.last() as int - '0' as int));
    }
}

/// The digit for a number below ten stands for that number.
proof fn lemma_digit_value(d: nat)
    requires
        d < 10,
    ensures
        is_digit(digit(d)),
        digit(d) as int - '0' as int == d,
{
}

/// Numbers are read in base ten: the decimal text of any number, as the debugging
/// commands print an ID, reads back as that number.
pub proof fn law_decimal_read_back(n: nat)
    ensures
        number_of(decimal(n)) == Some(n as int),
{
    lemma_decimal_digits(n);
    lemma_decimal_value(n);
    assert(unsigned_digits(decimal(n)) == decimal(n));
}

/// Reading digits in base ten: the value of digits written after others is the value
/// of the first ones times ten to the number of the later ones, plus theirs.
pub proof fn law_digits_append(s: Seq<char>, t: Seq<char>)
    ensures
        digits_value(s + t) == digits_value(s) * vstd::arithmetic::power::pow(10, t.len()) + digits_value(t),
    decreases t.len(),
{
    reveal(vstd::arithmetic::power::pow);
    if t.len() == 0 {
        assert(s + t =~= s);
    } else {
        let t1 = t.drop_last();
        law_digits_append(s, t1);
        assert((s + t).drop_last() =~= s + t1);
        assert((s + t).last() == t.last());
        let a = digits_value(s);
        let p = vstd::arithmetic::power::pow(10, t1.len());
        let b = digits_value(t1);
        let c = t.last() as int - '0' as int;
        assert((a * p + b) * 10 + c == a * (10 * p) + (b * 10 + c)) by (nonlinear_arith);
    }
}

} // verus!
