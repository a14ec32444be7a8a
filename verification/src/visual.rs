//! # Visual system
//!
//! This module turns game entities into prose for display to the user.  Each
//! paragraph of output is added to the `out` list, in conmark syntax; the caller
//! formats and displays it.
use vstd::prelude::*;
use crate::entity::prose_component::default_prose;
use crate::entity::prose_component::prose_text;
use crate::phys;
use crate::phys::scenery_in;
use crate::types::with_para;
use crate::types::with_separator;
use crate::types::ProseBuffer;
use crate::types::ProseType;
use crate::types::ID;
use crate::types::to_string;
use crate::world::World;
use crate::world::texts;

verus! {

broadcast use vstd::std_specs::hash::group_hash_axioms;

//-----------------------------------------------------------------------------
// The text of the visuals

/// The prose of the given type of the entity, or the default prose.
pub open spec fn prose_of(w: &World, id: ID, pt: ProseType) -> Seq<char> {
    if w.proses@.contains_key(id) {
        match w.proses@[id].prose(pt) {
            Some(p) => prose_text(w.model(), p),
            None => default_prose(),
        }
    } else {
        default_prose()
    }
}

/// The names of the things, separated by commas.
pub open spec fn names_list(w: &World, ids: Seq<ID>) -> Seq<char>
    decreases ids.len(),
{
    if ids.len() == 0 {
        Seq::empty()
    } else {
        let prev = names_list(w, ids.drop_last());
        let name = w.things@[ids.last()].name@;
        if prev.len() == 0 {
            name
        } else {
            prev + ", "@ + name
        }
    }
}

/// Has the entity prose of the given type?
pub open spec fn has_prose_of(w: &World, id: ID, pt: ProseType) -> bool {
    w.proses@.contains_key(id) && w.proses@[id].prose(pt) is Some
}

/// The text after each scenery item with scenery prose adds it as a sentence.  When
/// `skip_empty` is set, empty prose is not added.
pub open spec fn with_scenery(w: &World, base: Seq<char>, sids: Seq<ID>, skip_empty: bool) -> Seq<
    char,
>
    decreases sids.len(),
{
    if sids.len() == 0 {
        base
    } else {
        let t = with_scenery(w, base, sids.drop_last(), skip_empty);
        let sid = sids.last();
        if has_prose_of(w, sid, ProseType::Scenery) && !(skip_empty && prose_of(
            w,
            sid,
            ProseType::Scenery,
        ).len() == 0) {
            with_separator(t) + prose_of(w, sid, ProseType::Scenery)
        } else {
            t
        }
    }
}

/// The "You see" line for the things in the room that are not scenery, if any.
pub open spec fn contents_paras(w: &World, id: ID) -> Seq<Seq<char>> {
    let list = names_list(w, scenery_in(w, w.inv_of(id), false));
    if list.len() > 0 {
        seq!["You see: "@ + list + "."@]
    } else {
        Seq::empty()
    }
}

/// The full description of a room: name, prose, and the prose of its scenery.
pub open spec fn room_description(w: &World, id: ID) -> Seq<char> {
    let base = with_separator(with_para(w.rooms@[id].name@)) + prose_of(w, id, ProseType::Room);
    with_scenery(w, base, scenery_in(w, w.inv_of(id), true), false)
}

/// The paragraphs describing a room, in full or briefly.
pub open spec fn room_paras(w: &World, id: ID, full: bool) -> Seq<Seq<char>> {
    let first = if full {
        room_description(w, id)
    } else {
        w.rooms@[id].name@
    };
    seq![first] + contents_paras(w, id)
}

/// The description of the player.
pub open spec fn player_description(w: &World, pid: ID) -> Seq<char> {
    with_scenery(w, prose_of(w, pid, ProseType::Thing), scenery_in(w, w.inv_of(pid), true), true)
}

/// The paragraph listing the player's inventory.
pub open spec fn inventory_para(w: &World, pid: ID) -> Seq<char> {
    let ids = scenery_in(w, w.inv_of(pid), false);
    if ids.len() == 0 {
        "You aren't carrying anything."@
    } else {
        "You have: "@ + names_list(w, ids) + ".\n"@
    }
}

/// The paragraph reading out a book.
pub open spec fn book_para(w: &World, book: ID) -> Seq<char> {
    with_separator(with_separator(with_separator("The"@) + w.things@[book].noun@) + "reads:"@)
        + prose_of(w, book, ProseType::Book)
}

//-----------------------------------------------------------------------------
// Basic Messages

/// Outputs a player action, e.g., "Taken."
pub fn act(msg: &str, out: &mut Vec<String>)
    ensures
        texts(final(out)@) == texts(old(out)@).push(msg@),
{
    out.push(to_string(msg));
    assert(texts(out@) =~= texts(old(out)@).push(msg@));
}

/// Outputs an error message.
pub fn error(msg: &str, out: &mut Vec<String>)
    ensures
        texts(final(out)@) == texts(old(out)@).push(msg@),
{
    out.push(to_string(msg));
    assert(texts(out@) =~= texts(old(out)@).push(msg@));
}

/// Outputs information (e.g., help)
pub fn info(msg: &str, out: &mut Vec<String>)
    ensures
        texts(final(out)@) == texts(old(out)@).push(msg@),
{
    out.push(to_string(msg));
    assert(texts(out@) =~= texts(old(out)@).push(msg@));
}

//-----------------------------------------------------------------------------
// Helpers

/// Get the specific type of prose from the entity; an entity without prose of the
/// type is described by the default prose.
pub fn get_prose(world: &World, id: ID, prose_type: ProseType) -> (res: String)
    requires
        world.wf(),
    ensures
        res@ == prose_of(world, id, prose_type),
{
    let prosec = match world.proses.get(&id) {
        Some(prosec) => prosec,
        None => {
            return to_string("You don't see anything special.");
        },
    };
    match prosec.get(prose_type) {
        Some(prose) => {
            proof {
                crate::entity::room_component::lemma_assoc_entry(prosec.types@, prose_type);
                let k = choose|k: int|
                    0 <= k < prosec.types@.len() && #[trigger] prosec.types@[k] == (
                        prose_type,
                        *prose,
                    );
                assert(world.prose_ok(prosec.types@[k].1));
            }
            prose.as_string(world, id)
        },
        None => to_string("You don't see anything special."),
    }
}

/// List the names of the entities, separated by commas.
fn invent_list(world: &World, ids: &Vec<ID>) -> (res: String)
    requires
        forall|i: int| 0 <= i < ids@.len() ==> world.things@.contains_key(#[trigger] ids@[i]),
    ensures
        res@ == names_list(world, ids@),
{
    let mut list = String::new();
    let mut i: usize = 0;
    while i < ids.len()
        invariant
            forall|i: int| 0 <= i < ids@.len() ==> world.things@.contains_key(#[trigger] ids@[i]),
            i <= ids@.len(),
            list@ == names_list(world, ids@.take(i as int)),
        decreases ids@.len() - i,
    {
        assert(ids@.take(i + 1).drop_last() =~= ids@.take(i as int));
        let thingc = world.things.get(&ids[i]).unwrap();
        if list.as_str().unicode_len() != 0 {
            list.append(", ");
        }
        list.append(thingc.name.as_str());
        i = i + 1;
    }
    assert(ids@.take(i as int) =~= ids@);
    list
}


/// Adds the scenery prose of the scenery items to the buffer.
fn add_scenery(world: &World, buff: &mut ProseBuffer, sids: &Vec<ID>, skip_empty: bool)
    requires
        world.wf(),
    ensures
        final(buff)@ == with_scenery(world, old(buff)@, sids@, skip_empty),
{
    let ghost base = buff@;
    let mut i: usize = 0;
    while i < sids.len()
        invariant
            world.wf(),
            i <= sids@.len(),
            buff@ == with_scenery(world, base, sids@.take(i as int), skip_empty),
        decreases sids@.len() - i,
    {
        assert(sids@.take(i + 1).drop_last() =~= sids@.take(i as int));
        let sid = sids[i];
        if world.has_prose_type(sid, ProseType::Scenery) {
            let prose = get_prose(world, sid, ProseType::Scenery);
            if !(skip_empty && prose.as_str().unicode_len() == 0) {
                buff.puts(prose.as_str());
            }
        }
        i = i + 1;
    }
    assert(sids@.take(i as int) =~= sids@);
}

/// The entities in the room's inventory are things.
pub open spec fn room_ok(w: &World, id: ID) -> bool {
    &&& w.wf()
    &&& w.rooms@.contains_key(id)
    &&& w.has_inventory_spec(id)
}

pub proof fn lemma_contents_are_things(w: &World, id: ID, s: Seq<ID>)
    requires
        w.wf(),
        w.has_inventory_spec(id),
        forall|x: ID| s.contains(x) ==> w.inv_of(id).contains(x),
    ensures
        forall|i: int| 0 <= i < s.len() ==> w.things@.contains_key(#[trigger] s[i]),
{
    assert forall|i: int| 0 <= i < s.len() implies w.things@.contains_key(#[trigger] s[i]) by {
        assert(s.contains(s[i]));
        assert(w.inventories@[id]@.contains(s[i]));
    }
}

/// Outputs a full or brief description of a room, and lists the things in it that
/// are not scenery.
fn print_room(world: &World, id: ID, full: bool, out: &mut Vec<String>)
    requires
        room_ok(world, id),
    ensures
        texts(final(out)@) == texts(old(out)@) + room_paras(world, id, full),
{
    let roomc = world.rooms.get(&id).unwrap();
    let ghost o0 = out@;
    // FIRST, display the room's description
    if full {
        let mut buff = ProseBuffer::new();
        buff.puts(roomc.name.as_str());
        buff.para();
        buff.puts(get_prose(world, id, ProseType::Room).as_str());
        let sids = phys::scenery(world, id);
        add_scenery(world, &mut buff, &sids, false);
        out.push(buff.get());
    } else {
        out.push(roomc.name.clone());
    }
    // NEXT, list any "removable" objects in the room's inventory.
    let things = phys::non_scenery(world, id);
    proof {
        phys::lemma_scenery_in(world, world.inv_of(id), false);
        assert forall|x: ID| things@.contains(x) implies world.inv_of(id).contains(x) by {
            let k = choose|k: int| 0 <= k < things@.len() && things@[k] == x;
        }
        lemma_contents_are_things(world, id, things@);
    }
    let list = invent_list(world, &things);
    let ghost o1 = out@;
    if list.as_str().unicode_len() != 0 {
        let mut line = to_string("You see: ");
        line.append(list.as_str());
        line.append(".");
        out.push(line);
    }
    assert(texts(out@) =~= texts(o0) + room_paras(world, id, full));
}

/// Outputs a full description of a room: its name, its prose and that of its scenery,
/// and the things that are present.
pub fn room(world: &World, id: ID, out: &mut Vec<String>)
    requires
        room_ok(world, id),
    ensures
        texts(final(out)@) == texts(old(out)@) + room_paras(world, id, true),
{
    print_room(world, id, true, out);
}

/// Outputs a brief description of a room: its name and the things that are present.
pub fn room_brief(world: &World, id: ID, out: &mut Vec<String>)
    requires
        room_ok(world, id),
    ensures
        texts(final(out)@) == texts(old(out)@) + room_paras(world, id, false),
{
    print_room(world, id, false, out);
}

/// Outputs a description of a thing.
pub fn thing(world: &World, id: ID, out: &mut Vec<String>)
    requires
        world.wf(),
    ensures
        texts(final(out)@) == texts(old(out)@).push(prose_of(world, id, ProseType::Thing)),
{
    out.push(get_prose(world, id, ProseType::Thing));
    assert(texts(out@) =~= texts(old(out)@).push(prose_of(world, id, ProseType::Thing)));
}

/// Can this be read as a book?
pub fn can_read(world: &World, thing: ID) -> (res: bool)
    ensures
        res == has_prose_of(world, thing, ProseType::Book),
{
    world.has_prose_type(thing, ProseType::Book)
}

/// Outputs the content of a book.
pub fn read(world: &World, book: ID, out: &mut Vec<String>)
    requires
        world.wf(),
        world.things@.contains_key(book),
    ensures
        texts(final(out)@) == texts(old(out)@).push(book_para(world, book)),
{
    let mut buff = ProseBuffer::new();
    buff.puts("The");
    buff.puts(world.things.get(&book).unwrap().noun.as_str());
    buff.puts("reads:");
    buff.puts(get_prose(world, book, ProseType::Book).as_str());
    let text = buff.get();
    act(text.as_str(), out);
}

/// Outputs a visual of the player: the player's prose and that of the player's
/// scenery (e.g., hands).
pub fn player(world: &World, pid: ID, out: &mut Vec<String>)
    requires
        world.wf(),
        world.has_inventory_spec(pid),
    ensures
        texts(final(out)@) == texts(old(out)@).push(player_description(world, pid)),
{
    let mut buff = ProseBuffer::new();
    buff.puts(get_prose(world, pid, ProseType::Thing).as_str());
    let sids = phys::scenery(world, pid);
    add_scenery(world, &mut buff, &sids, true);
    out.push(buff.get());
    assert(texts(out@) =~= texts(old(out)@).push(player_description(world, pid)));
}

/// Outputs the player's inventory: the things the player carries that are not scenery.
pub fn player_inventory(world: &World, pid: ID, out: &mut Vec<String>)
    requires
        world.wf(),
        world.has_inventory_spec(pid),
    ensures
        texts(final(out)@) == texts(old(out)@).push(inventory_para(world, pid)),
{
    let ids = phys::droppable(world, pid);
    if ids.len() == 0 {
        out.push(to_string("You aren't carrying anything."));
    } else {
        proof {
            phys::lemma_scenery_in(world, world.inv_of(pid), false);
            assert forall|x: ID| ids@.contains(x) implies world.inv_of(pid).contains(x) by {
                let k = choose|k: int| 0 <= k < ids@.len() && ids@[k] == x;
            }
            lemma_contents_are_things(world, pid, ids@);
        }
        let mut line = to_string("You have: ");
        line.append(invent_list(world, &ids).as_str());
        line.append(".\n");
        out.push(line);
    }
    assert(texts(out@) =~= texts(old(out)@).push(inventory_para(world, pid)));
}

/// Does the text occur in the other, at some position?
pub open spec fn occurs_in(x: Seq<char>, y: Seq<char>) -> bool {
    exists|i: int| 0 <= i && x.len() + i <= y.len() && #[trigger] y.skip(i).take(x.len() as int) == x
}

/// Do all the things have names that are not empty?
pub open spec fn all_named(w: &World, ids: Seq<ID>) -> bool {
    forall|i: int| 0 <= i < ids.len() ==> w.things@[#[trigger] ids[i]].name@.len() > 0
}

/// A list of things with names is not empty.
proof fn lemma_names_list_nonempty(w: &World, ids: Seq<ID>)
    requires
        ids.len() > 0,
        all_named(w, ids),
    ensures
        names_list(w, ids).len() > 0,
{
    assert(w.things@[ids[ids.len() - 1]].name@.len() > 0);
}

/// The list of one thing is its name.
pub proof fn law_names_list_one(w: &World, id: ID)
    ensures
        names_list(w, seq![id]) == w.things@[id].name@,
{
    let s = seq![id];
    assert(s.drop_last() =~= Seq::<ID>::empty());
    assert(names_list(w, s.drop_last()).len() == 0);
    assert(s.last() == id);
}

/// Listing things one after the other: the list of two runs of named things is the
/// list of the first, ", ", and the list of the second.  So every thing's name is in
/// the list, in order, each after a comma but the first.
pub proof fn law_names_list_append(w: &World, a: Seq<ID>, b: Seq<ID>)
    requires
        a.len() > 0,
        b.len() > 0,
        all_named(w, a),
        all_named(w, b),
    ensures
        names_list(w, a + b) == names_list(w, a) + ", "@ + names_list(w, b),
    decreases b.len(),
{
    lemma_names_list_nonempty(w, a);
    let name = w.things@[b.last()].name@;
    assert((a + b).last() == b.last());
    if b.len() == 1 {
        assert((a + b).drop_last() =~= a);
        law_names_list_one(w, b[0]);
        assert(b =~= seq![b[0]]);
    } else {
        let b1 = b.drop_last();
        assert(all_named(w, b1)) by {
            assert forall|i: int| 0 <= i < b1.len() implies w.things@[#[trigger] b1[i]].name@.len() > 0 by {
                assert(b1[i] == b[i]);
            }
        }
        law_names_list_append(w, a, b1);
        assert((a + b).drop_last() =~= a + b1);
        lemma_names_list_nonempty(w, b1);
        assert(names_list(w, a + b1).len() > 0);
        assert(names_list(w, a + b) == names_list(w, a + b1) + ", "@ + name);
        assert(names_list(w, b) == names_list(w, b1) + ", "@ + name);
        assert(names_list(w, a) + ", "@ + names_list(w, b1) + ", "@ + name =~= names_list(w, a) + ", "@ + (names_list(w, b1) + ", "@ + name));
    }
}

/// What the scenery adds comes after the text it starts from.
proof fn lemma_with_scenery_extends(w: &World, base: Seq<char>, sids: Seq<ID>, skip_empty: bool)
    requires
        sids.len() > 0,
    ensures
        with_scenery(w, base, sids, skip_empty).take(with_scenery(w, base, sids.drop_last(), skip_empty).len() as int)
            == with_scenery(w, base, sids.drop_last(), skip_empty),
        with_scenery(w, base, sids.drop_last(), skip_empty).len() <= with_scenery(w, base, sids, skip_empty).len(),
{
    let t = with_scenery(w, base, sids.drop_last(), skip_empty);
    let r = with_scenery(w, base, sids, skip_empty);
    assert(with_separator(t).take(t.len() as int) =~= t);
    assert(r.take(t.len() as int) =~= t);
}

/// Text that occurs in a prefix occurs in the whole.
proof fn lemma_occurs_in_extension(x: Seq<char>, y: Seq<char>, z: Seq<char>)
    requires
        occurs_in(x, y),
        y.len() <= z.len(),
        z.take(y.len() as int) == y,
    ensures
        occurs_in(x, z),
{
    let i = choose|i: int| 0 <= i && x.len() + i <= y.len() && #[trigger] y.skip(i).take(x.len() as int) == x;
    assert(z.skip(i).take(x.len() as int) =~= y.skip(i).take(x.len() as int));
}

/// The text starts from the base, and the scenery prose of each item that has some
/// occurs in it.
proof fn lemma_with_scenery_shows(w: &World, base: Seq<char>, sids: Seq<ID>, id: ID)
    requires
        sids.contains(id),
        has_prose_of(w, id, ProseType::Scenery),
        prose_of(w, id, ProseType::Scenery).len() > 0,
    ensures
        occurs_in(prose_of(w, id, ProseType::Scenery), with_scenery(w, base, sids, true)),
    decreases sids.len(),
{
    let p = prose_of(w, id, ProseType::Scenery);
    let r = with_scenery(w, base, sids, true);
    let t = with_scenery(w, base, sids.drop_last(), true);
    if sids.last() == id {
        let k = with_separator(t).len() as int;
        assert(r == with_separator(t) + p);
        assert(r.skip(k).take(p.len() as int) =~= p);
    } else {
        let j = choose|j: int| 0 <= j < sids.len() && sids[j] == id;
        assert(sids.drop_last()[j] == id);
        lemma_with_scenery_shows(w, base, sids.drop_last(), id);
        lemma_with_scenery_extends(w, base, sids, true);
        lemma_occurs_in_extension(p, t, r);
    }
}

/// The text starts from the base.
proof fn lemma_with_scenery_starts(w: &World, base: Seq<char>, sids: Seq<ID>, skip_empty: bool)
    ensures
        base.len() <= with_scenery(w, base, sids, skip_empty).len(),
        with_scenery(w, base, sids, skip_empty).take(base.len() as int) == base,
    decreases sids.len(),
{
    if sids.len() == 0 {
        assert(base.take(base.len() as int) =~= base);
    } else {
        lemma_with_scenery_starts(w, base, sids.drop_last(), skip_empty);
        lemma_with_scenery_extends(w, base, sids, skip_empty);
        let t = with_scenery(w, base, sids.drop_last(), skip_empty);
        let r = with_scenery(w, base, sids, skip_empty);
        assert(r.take(base.len() as int) =~= t.take(base.len() as int));
    }
}

/// Examining the player shows the player's own prose first, and then the scenery prose
/// of every scenery item that the player holds and that has some.
pub proof fn law_player_description_shows_scenery(w: &World, pid: ID, id: ID)
    requires
        w.inv_of(pid).contains(id),
        w.is_scenery(id),
        has_prose_of(w, id, ProseType::Scenery),
        prose_of(w, id, ProseType::Scenery).len() > 0,
    ensures
        player_description(w, pid).take(prose_of(w, pid, ProseType::Thing).len() as int)
            == prose_of(w, pid, ProseType::Thing),
        occurs_in(prose_of(w, id, ProseType::Scenery), player_description(w, pid)),
{
    let inv = w.inv_of(pid);
    let sids = scenery_in(w, inv, true);
    let j = choose|j: int| 0 <= j < inv.len() && inv[j] == id;
    inv.lemma_filter_contains(phys::scenery_pred(w, true), j);
    assert(sids.contains(id));
    lemma_with_scenery_starts(w, prose_of(w, pid, ProseType::Thing), sids, true);
    lemma_with_scenery_shows(w, prose_of(w, pid, ProseType::Thing), sids, id);
}

} // verus!
