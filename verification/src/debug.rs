//! Debugging tools module
use vstd::prelude::*;
use crate::entity::prose_component::prose_text;
use crate::entity::room_component::RoomComponent;
use crate::phys;
use crate::types::push_char;
use crate::types::to_string;
use crate::types::Action;
use crate::types::Dir;
use crate::types::Flag;
use crate::types::LinkDest;
use crate::types::ProseType;
use crate::types::ID;
use crate::world::World;
use crate::world::texts;

verus! {

//------------------------------------------------------------------------------------------------
// Numbers as text

/// The decimal digit for a number below ten.
pub open spec fn digit(d: nat) -> char {
    if d == 0 {
        '0'
    } else if d == 1 {
        '1'
    } else if d == 2 {
        '2'
    } else if d == 3 {
        '3'
    } else if d == 4 {
        '4'
    } else if d == 5 {
        '5'
    } else if d == 6 {
        '6'
    } else if d == 7 {
        '7'
    } else if d == 8 {
        '8'
    } else {
        '9'
    }
}

/// The decimal representation of a number.
pub open spec fn decimal(n: nat) -> Seq<char>
    decreases n,
{
    if n < 10 {
        seq![digit(n)]
    } else {
        decimal(n / 10).push(digit(n % 10))
    }
}

/// The decimal digit for a number below ten.
fn digit_char(d: usize) -> (res: char)
    requires
        d < 10,
    ensures
        res == digit(d as nat),
{
    if d == 0 {
        '0'
    } else if d == 1 {
        '1'
    } else if d == 2 {
        '2'
    } else if d == 3 {
        '3'
    } else if d == 4 {
        '4'
    } else if d == 5 {
        '5'
    } else if d == 6 {
        '6'
    } else if d == 7 {
        '7'
    } else if d == 8 {
        '8'
    } else {
        '9'
    }
}

/// The decimal representation of a number.
pub fn id_text(n: usize) -> (res: String)
    ensures
        res@ == decimal(n as nat),
    decreases n,
{
    if n < 10 {
        let mut s = String::new();
        push_char(&mut s, digit_char(n));
        assert(s@ =~= seq![digit(n as nat)]);
        s
    } else {
        let mut s = id_text(n / 10);
        push_char(&mut s, digit_char(n % 10));
        s
    }
}

//------------------------------------------------------------------------------------------------
// Listing

/// The tag of the entity, if there is one.
pub open spec fn tag_text(w: &World, id: ID) -> Seq<char> {
    if id < w.n() {
        w.tag_of(id)
    } else {
        Seq::empty()
    }
}

/// The line that lists an entity: its ID and its tag.
pub open spec fn entity_line(w: &World, id: ID) -> Seq<char> {
    "["@ + decimal(id as nat) + "] "@ + tag_text(w, id)
}

/// The lines listing the first `n` entities, separated by line breaks.
pub open spec fn list_lines(w: &World, n: nat) -> Seq<char>
    decreases n,
{
    if n == 0 {
        Seq::empty()
    } else if n == 1 {
        entity_line(w, 0)
    } else {
        list_lines(w, (n - 1) as nat) + "|"@ + entity_line(w, (n - 1) as ID)
    }
}

/// The line that lists an entity: its ID and its tag.
fn list_entity(world: &World, id: ID) -> (res: String)
    ensures
        res@ == entity_line(world, id),
{
    let mut line = String::new();
    line.append("[");
    line.append(id_text(id).as_str());
    line.append("] ");
    if id < world.tags.len() {
        line.append(world.tags[id].tag.as_str());
    }
    line
}

/// List all entities in the world, one line each, in order of ID.
pub fn list_world(world: &World) -> (res: String)
    ensures
        res@ == list_lines(world, world.n()),
{
    let mut text = String::new();
    let mut i: usize = 0;
    while i < world.tags.len()
        invariant
            i <= world.n(),
            text@ == list_lines(world, i as nat),
        decreases world.n() - i,
    {
        if i > 0 {
            text.append("|");
        }
        text.append(list_entity(world, i).as_str());
        i = i + 1;
    }
    text
}

//------------------------------------------------------------------------------------------------
// Values as text

/// A character of a string as it is written in a quoted string.
pub open spec fn escaped_char(c: char) -> Seq<char> {
    if c == '"' {
        seq!['\\', '"']
    } else if c == '\\' {
        seq!['\\', '\\']
    } else if c == '\n' {
        seq!['\\', 'n']
    } else if c == '\r' {
        seq!['\\', 'r']
    } else if c == '\t' {
        seq!['\\', 't']
    } else {
        seq![c]
    }
}

/// The string's characters as they are written in a quoted string.
pub open spec fn escaped(s: Seq<char>) -> Seq<char>
    decreases s.len(),
{
    if s.len() == 0 {
        Seq::empty()
    } else {
        escaped(s.drop_last()) + escaped_char(s.last())
    }
}

/// The string, quoted.
pub open spec fn quoted(s: Seq<char>) -> Seq<char> {
    seq!['"'] + escaped(s) + seq!['"']
}

/// Appends the string, quoted.
fn push_quoted(buf: &mut String, s: &str)
    ensures
        final(buf)@ == old(buf)@ + quoted(s@),
{
    push_char(buf, '"');
    let ghost b0 = buf@;
    let n = s.unicode_len();
    let mut i: usize = 0;
    while i < n
        invariant
            n == s@.len(),
            i <= n,
            buf@ == b0 + escaped(s@.take(i as int)),
        decreases n - i,
    {
        let c = s.get_char(i);
        assert(s@.take(i + 1).drop_last() =~= s@.take(i as int));
        let ghost b1 = buf@;
        if c == '"' {
            push_char(buf, '\\');
            push_char(buf, '"');
        } else if c == '\\' {
            push_char(buf, '\\');
            push_char(buf, '\\');
        } else if c == '\n' {
            push_char(buf, '\\');
            push_char(buf, 'n');
        } else if c == '\r' {
            push_char(buf, '\\');
            push_char(buf, 'r');
        } else if c == '\t' {
            push_char(buf, '\\');
            push_char(buf, 't');
        } else {
            push_char(buf, c);
        }
        assert(buf@ =~= b1 + escaped_char(c));
        i = i + 1;
    }
    assert(s@.take(i as int) =~= s@);
    push_char(buf, '"');
    assert(buf@ =~= old(buf)@ + quoted(s@));
}

/// The name of the direction.
pub open spec fn dir_text(d: Dir) -> Seq<char> {
    match d {
        Dir::North => "North"@,
        Dir::South => "South"@,
        Dir::East => "East"@,
        Dir::West => "West"@,
        Dir::Up => "Up"@,
        Dir::Down => "Down"@,
        Dir::In => "In"@,
        Dir::Out => "Out"@,
    }
}

/// The name of the direction.
fn dir_name(d: Dir) -> (res: &'static str)
    ensures
        res@ == dir_text(d),
{
    match d {
        Dir::North => "North",
        Dir::South => "South",
        Dir::East => "East",
        Dir::West => "West",
        Dir::Up => "Up",
        Dir::Down => "Down",
        Dir::In => "In",
        Dir::Out => "Out",
    }
}

/// The name of the kind of prose.
pub open spec fn prose_type_text(t: ProseType) -> Seq<char> {
    match t {
        ProseType::Room => "Room"@,
        ProseType::Thing => "Thing"@,
        ProseType::Book => "Book"@,
        ProseType::Scenery => "Scenery"@,
    }
}

/// The name of the kind of prose.
fn prose_type_name(t: ProseType) -> (res: &'static str)
    ensures
        res@ == prose_type_text(t),
{
    match t {
        ProseType::Room => "Room",
        ProseType::Thing => "Thing",
        ProseType::Book => "Book",
        ProseType::Scenery => "Scenery",
    }
}

/// The flag, written out.
pub open spec fn flag_text(f: Flag) -> Seq<char> {
    match f {
        Flag::FireOnce => "FireOnce"@,
        Flag::Fired => "Fired"@,
        Flag::Dead => "Dead"@,
        Flag::Seen(id) => "Seen("@ + decimal(id as nat) + ")"@,
        Flag::Immovable => "Immovable"@,
        Flag::Scenery => "Scenery"@,
        Flag::User(s) => "User("@ + quoted(s@) + ")"@,
        Flag::UserId(s, id) => "UserId("@ + quoted(s@) + ", "@ + decimal(id as nat) + ")"@,
    }
}

/// Appends the flag, written out.
fn push_flag(buf: &mut String, f: Flag)
    ensures
        final(buf)@ == old(buf)@ + flag_text(f),
{
    match f {
        Flag::FireOnce => buf.append("FireOnce"),
        Flag::Fired => buf.append("Fired"),
        Flag::Dead => buf.append("Dead"),
        Flag::Seen(id) => {
            buf.append("Seen(");
            buf.append(id_text(id).as_str());
            buf.append(")");
        },
        Flag::Immovable => buf.append("Immovable"),
        Flag::Scenery => buf.append("Scenery"),
        Flag::User(s) => {
            buf.append("User(");
            push_quoted(buf, s);
            buf.append(")");
        },
        Flag::UserId(s, id) => {
            buf.append("UserId(");
            push_quoted(buf, s);
            buf.append(", ");
            buf.append(id_text(id).as_str());
            buf.append(")");
        },
    }
}

/// Two numbers, written as the arguments of the named action.
pub open spec fn pair_text(name: Seq<char>, a: ID, b: ID) -> Seq<char> {
    name + "("@ + decimal(a as nat) + ", "@ + decimal(b as nat) + ")"@
}

/// The action, written out.
pub open spec fn action_text(a: Action) -> Seq<char> {
    match a {
        Action::Print(t) => "Print("@ + quoted(t@) + ")"@,
        Action::SetFlag(id, f) => "SetFlag("@ + decimal(id as nat) + ", "@ + flag_text(f) + ")"@,
        Action::UnsetFlag(id, f) => "UnsetFlag("@ + decimal(id as nat) + ", "@ + flag_text(f) + ")"@,
        Action::PutIn(x, y) => pair_text("PutIn"@, x, y),
        Action::Swap(x, y) => pair_text("Swap"@, x, y),
        Action::Drop(x, y) => pair_text("Drop"@, x, y),
        Action::Kill(x) => "Kill("@ + decimal(x as nat) + ")"@,
        Action::Revive(x) => "Revive("@ + decimal(x as nat) + ")"@,
    }
}

/// Appends two numbers, written as the arguments of the named action.
fn push_pair(buf: &mut String, name: &str, a: ID, b: ID)
    ensures
        final(buf)@ == old(buf)@ + pair_text(name@, a, b),
{
    buf.append(name);
    buf.append("(");
    buf.append(id_text(a).as_str());
    buf.append(", ");
    buf.append(id_text(b).as_str());
    buf.append(")");
}

/// Appends the action, written out.
fn push_action(buf: &mut String, a: &Action)
    ensures
        final(buf)@ == old(buf)@ + action_text(*a),
{
    match a {
        Action::Print(t) => {
            buf.append("Print(");
            push_quoted(buf, t.as_str());
            buf.append(")");
        },
        Action::SetFlag(id, f) => {
            buf.append("SetFlag(");
            buf.append(id_text(*id).as_str());
            buf.append(", ");
            push_flag(buf, *f);
            buf.append(")");
        },
        Action::UnsetFlag(id, f) => {
            buf.append("UnsetFlag(");
            buf.append(id_text(*id).as_str());
            buf.append(", ");
            push_flag(buf, *f);
            buf.append(")");
        },
        Action::PutIn(x, y) => push_pair(buf, "PutIn", *x, *y),
        Action::Swap(x, y) => push_pair(buf, "Swap", *x, *y),
        Action::Drop(x, y) => push_pair(buf, "Drop", *x, *y),
        Action::Kill(x) => {
            buf.append("Kill(");
            buf.append(id_text(*x).as_str());
            buf.append(")");
        },
        Action::Revive(x) => {
            buf.append("Revive(");
            buf.append(id_text(*x).as_str());
            buf.append(")");
        },
    }
}

//------------------------------------------------------------------------------------------------
// Dumping

/// The lines, separated by line breaks.
pub open spec fn joined(lines: Seq<Seq<char>>) -> Seq<char>
    decreases lines.len(),
{
    if lines.len() == 0 {
        Seq::empty()
    } else if lines.len() == 1 {
        lines[0]
    } else {
        joined(lines.drop_last()) + "|"@ + lines.last()
    }
}

/// Joins the lines, separated by line breaks.
fn join_lines(lines: &Vec<String>) -> (res: String)
    ensures
        res@ == joined(texts(lines@)),
{
    let mut text = String::new();
    let mut i: usize = 0;
    while i < lines.len()
        invariant
            i <= lines@.len(),
            text@ == joined(texts(lines@.take(i as int))),
        decreases lines@.len() - i,
    {
        assert(texts(lines@.take(i + 1)).drop_last() =~= texts(lines@.take(i as int)));
        if i > 0 {
            text.append("|");
        }
        text.append(lines[i].as_str());
        i = i + 1;
    }
    assert(lines@.take(i as int) =~= lines@);
    text
}

/// The line describing a link.
pub open spec fn link_line(w: &World, d: Dir, dest: LinkDest) -> Seq<char> {
    match dest {
        LinkDest::Room(x) => "    Link: "@ + dir_text(d) + " to "@ + entity_line(w, x),
        LinkDest::DeadEnd(t) => "    Link: "@ + dir_text(d) + " to DeadEnd: "@ + t@,
    }
}

/// The line for the link in the direction, if the room has one.
pub open spec fn link_line_in(w: &World, rc: RoomComponent, d: Dir) -> Seq<Seq<char>> {
    match rc.link(d) {
        Some(l) => seq![link_line(w, d, l)],
        None => Seq::empty(),
    }
}

/// The lines describing the room's links, in order of direction.
pub open spec fn link_lines(w: &World, rc: RoomComponent) -> Seq<Seq<char>> {
    link_line_in(w, rc, Dir::North) + link_line_in(w, rc, Dir::South) + link_line_in(
        w,
        rc,
        Dir::East,
    ) + link_line_in(w, rc, Dir::West) + link_line_in(w, rc, Dir::Up) + link_line_in(
        w,
        rc,
        Dir::Down,
    ) + link_line_in(w, rc, Dir::In) + link_line_in(w, rc, Dir::Out)
}

/// The lines describing the rule's actions.
pub open spec fn action_lines(acts: Seq<Action>) -> Seq<Seq<char>>
    decreases acts.len(),
{
    if acts.len() == 0 {
        Seq::empty()
    } else {
        action_lines(acts.drop_last()).push("  Rule Action: "@ + action_text(acts.last()))
    }
}

/// The lines describing the flags.
pub open spec fn flag_lines(flags: Seq<Flag>) -> Seq<Seq<char>>
    decreases flags.len(),
{
    if flags.len() == 0 {
        Seq::empty()
    } else {
        flag_lines(flags.drop_last()).push("  Flag: "@ + flag_text(flags.last()))
    }
}

/// The lines describing the contents.
pub open spec fn content_lines(w: &World, ids: Seq<ID>) -> Seq<Seq<char>>
    decreases ids.len(),
{
    if ids.len() == 0 {
        Seq::empty()
    } else {
        content_lines(w, ids.drop_last()).push("  Contains: "@ + entity_line(w, ids.last()))
    }
}

/// The line showing the entity's prose of the kind, if it has one.
pub open spec fn prose_line_of(w: &World, id: ID, pt: ProseType) -> Seq<Seq<char>> {
    match w.proses@[id].prose(pt) {
        Some(p) => seq!["  Prose ["@ + prose_type_text(pt) + "]: "@ + prose_text(w.model(), p)],
        None => Seq::empty(),
    }
}

/// The lines showing the entity's prose, in order of kind.
pub open spec fn prose_lines(w: &World, id: ID) -> Seq<Seq<char>> {
    prose_line_of(w, id, ProseType::Room) + prose_line_of(w, id, ProseType::Thing) + prose_line_of(
        w,
        id,
        ProseType::Book,
    ) + prose_line_of(w, id, ProseType::Scenery)
}

/// The line giving the entity's location, if it has one.
pub open spec fn location_lines(w: &World, id: ID) -> Seq<Seq<char>> {
    if w.has_location_spec(id) {
        seq!["  Location: "@ + entity_line(w, w.loc_of(id))]
    } else {
        Seq::empty()
    }
}

/// The line marking the player.
pub open spec fn player_lines(w: &World, id: ID) -> Seq<Seq<char>> {
    if w.players@.contains_key(id) {
        seq!["  Player"@]
    } else {
        Seq::empty()
    }
}

/// The lines giving the thing's name and noun, if it is a thing.
pub open spec fn thing_lines(w: &World, id: ID) -> Seq<Seq<char>> {
    if w.things@.contains_key(id) {
        seq!["  Thing name: "@ + w.things@[id].name@, "    Noun: "@ + w.things@[id].noun@]
    } else {
        Seq::empty()
    }
}

/// The lines giving the room's name and links, if it is a room.
pub open spec fn room_lines(w: &World, id: ID) -> Seq<Seq<char>> {
    if w.rooms@.contains_key(id) {
        seq!["  Room name: "@ + w.rooms@[id].name@] + link_lines(w, w.rooms@[id])
    } else {
        Seq::empty()
    }
}

/// The lines giving the rule's actions, if it is a rule.
pub open spec fn rule_lines(w: &World, id: ID) -> Seq<Seq<char>> {
    if w.rules@.contains_key(id) {
        action_lines(w.rules@[id].script.actions@)
    } else {
        Seq::empty()
    }
}

/// The lines giving the entity's flags, if it has flags.
pub open spec fn flags_lines_of(w: &World, id: ID) -> Seq<Seq<char>> {
    if w.flag_sets@.contains_key(id) {
        flag_lines(w.flag_sets@[id].set@)
    } else {
        Seq::empty()
    }
}

/// The lines giving the entity's contents, if it has an inventory.
pub open spec fn contents_lines_of(w: &World, id: ID) -> Seq<Seq<char>> {
    if w.inventories@.contains_key(id) {
        if w.inv_of(id).len() == 0 {
            seq!["  Contains: nothing"@]
        } else {
            content_lines(w, w.inv_of(id))
        }
    } else {
        Seq::empty()
    }
}

/// The lines giving the entity's prose, if it has prose.
pub open spec fn proses_lines_of(w: &World, id: ID) -> Seq<Seq<char>> {
    if w.proses@.contains_key(id) {
        prose_lines(w, id)
    } else {
        Seq::empty()
    }
}

/// The lines describing the entity.
pub open spec fn dump_lines(w: &World, id: ID) -> Seq<Seq<char>> {
    seq![entity_line(w, id)] + location_lines(w, id) + player_lines(w, id) + thing_lines(w, id)
        + room_lines(w, id) + rule_lines(w, id) + flags_lines_of(w, id) + contents_lines_of(w, id)
        + proses_lines_of(w, id)
}

/// The text describing the entity: one line for each of its components' values.
pub open spec fn dump_text(w: &World, id: ID) -> Seq<char> {
    joined(dump_lines(w, id))
}

/// Adds the line for the link in the direction, if the room has one.
fn push_link(world: &World, rc: &RoomComponent, d: Dir, lines: &mut Vec<String>)
    ensures
        texts(final(lines)@) == texts(old(lines)@) + link_line_in(world, *rc, d),
{
    match rc.get_link(d) {
        Some(LinkDest::Room(x)) => {
            let mut line = to_string("    Link: ");
            line.append(dir_name(d));
            line.append(" to ");
            line.append(list_entity(world, *x).as_str());
            lines.push(line);
        },
        Some(LinkDest::DeadEnd(t)) => {
            let mut line = to_string("    Link: ");
            line.append(dir_name(d));
            line.append(" to DeadEnd: ");
            line.append(t.as_str());
            lines.push(line);
        },
        None => {},
    }
    assert(texts(lines@) =~= texts(old(lines)@) + link_line_in(world, *rc, d));
}

/// Adds the lines describing the actions.
fn push_action_lines(acts: &Vec<Action>, lines: &mut Vec<String>)
    ensures
        texts(final(lines)@) == texts(old(lines)@) + action_lines(acts@),
{
    let ghost l0 = texts(lines@);
    let mut i: usize = 0;
    while i < acts.len()
        invariant
            i <= acts@.len(),
            texts(lines@) == l0 + action_lines(acts@.take(i as int)),
        decreases acts@.len() - i,
    {
        assert(acts@.take(i + 1).drop_last() =~= acts@.take(i as int));
        let mut line = to_string("  Rule Action: ");
        push_action(&mut line, &acts[i]);
        let ghost t0 = texts(lines@);
        assert(acts@.take(i + 1).last() == acts@[i as int]);
        lines.push(line);
        assert(texts(lines@) =~= t0.push(line@));
        i = i + 1;
        assert(texts(lines@) =~= l0 + action_lines(acts@.take(i as int)));
    }
    assert(acts@.take(i as int) =~= acts@);
}

/// Adds the lines describing the flags.
fn push_flag_lines(flags: &Vec<Flag>, lines: &mut Vec<String>)
    ensures
        texts(final(lines)@) == texts(old(lines)@) + flag_lines(flags@),
{
    let ghost l0 = texts(lines@);
    let mut i: usize = 0;
    while i < flags.len()
        invariant
            i <= flags@.len(),
            texts(lines@) == l0 + flag_lines(flags@.take(i as int)),
        decreases flags@.len() - i,
    {
        assert(flags@.take(i + 1).drop_last() =~= flags@.take(i as int));
        let mut line = to_string("  Flag: ");
        push_flag(&mut line, flags[i]);
        let ghost t0 = texts(lines@);
        assert(flags@.take(i + 1).last() == flags@[i as int]);
        lines.push(line);
        assert(texts(lines@) =~= t0.push(line@));
        i = i + 1;
        assert(texts(lines@) =~= l0 + flag_lines(flags@.take(i as int)));
    }
    assert(flags@.take(i as int) =~= flags@);
}

/// Adds the lines describing the contents.
fn push_content_lines(world: &World, ids: &Vec<ID>, lines: &mut Vec<String>)
    ensures
        texts(final(lines)@) == texts(old(lines)@) + content_lines(world, ids@),
{
    let ghost l0 = texts(lines@);
    let mut i: usize = 0;
    while i < ids.len()
        invariant
            i <= ids@.len(),
            texts(lines@) == l0 + content_lines(world, ids@.take(i as int)),
        decreases ids@.len() - i,
    {
        assert(ids@.take(i + 1).drop_last() =~= ids@.take(i as int));
        let mut line = to_string("  Contains: ");
        line.append(list_entity(world, ids[i]).as_str());
        let ghost t0 = texts(lines@);
        assert(ids@.take(i + 1).last() == ids@[i as int]);
        lines.push(line);
        assert(texts(lines@) =~= t0.push(line@));
        i = i + 1;
        assert(texts(lines@) =~= l0 + content_lines(world, ids@.take(i as int)));
    }
    assert(ids@.take(i as int) =~= ids@);
}

/// Adds the line showing the entity's prose of the kind, if it has one.
fn push_prose(world: &World, id: ID, pt: ProseType, lines: &mut Vec<String>)
    requires
        world.wf(),
        world.proses@.contains_key(id),
    ensures
        texts(final(lines)@) == texts(old(lines)@) + prose_line_of(world, id, pt),
{
    if world.has_prose_type(id, pt) {
        let mut line = to_string("  Prose [");
        line.append(prose_type_name(pt));
        line.append("]: ");
        line.append(crate::visual::get_prose(world, id, pt).as_str());
        lines.push(line);
    }
    assert(texts(lines@) =~= texts(old(lines)@) + prose_line_of(world, id, pt));
}

/// Adds a line.
fn push_line(lines: &mut Vec<String>, line: String)
    ensures
        texts(final(lines)@) == texts(old(lines)@).push(line@),
{
    lines.push(line);
    assert(texts(lines@) =~= texts(old(lines)@).push(line@));
}

/// Adds the lines giving the entity's location, whether it is the player, and its
/// thing's name and noun.
fn push_place_lines(world: &World, id: ID, lines: &mut Vec<String>)
    requires
        world.wf(),
    ensures
        texts(final(lines)@) == texts(old(lines)@) + location_lines(world, id) + player_lines(
            world,
            id,
        ) + thing_lines(world, id),
{
    let ghost s0 = texts(lines@);
    // FIRST, display its location, if any.
    if world.has_location(id) {
        let here = phys::loc(world, id);
        let mut line = to_string("  Location: ");
        line.append(list_entity(world, here).as_str());
        push_line(lines, line);
    }
    assert(texts(lines@) =~= s0 + location_lines(world, id));
    let ghost s1 = texts(lines@);
    // NEXT, display the player info
    if world.players.get(&id).is_some() {
        push_line(lines, to_string("  Player"));
    }
    assert(texts(lines@) =~= s1 + player_lines(world, id));
    let ghost s2 = texts(lines@);
    // NEXT, if it's a thing display the thing info.
    match world.things.get(&id) {
        Some(thingc) => {
            let mut line = to_string("  Thing name: ");
            line.append(thingc.name.as_str());
            push_line(lines, line);
            let mut line = to_string("    Noun: ");
            line.append(thingc.noun.as_str());
            push_line(lines, line);
        },
        None => {},
    }
    assert(texts(lines@) =~= s2 + thing_lines(world, id));
}

/// Adds the lines giving the room's name and links, if it is a room.
fn push_room_lines(world: &World, id: ID, lines: &mut Vec<String>)
    ensures
        texts(final(lines)@) == texts(old(lines)@) + room_lines(world, id),
{
    match world.rooms.get(&id) {
        Some(roomc) => {
            let mut line = to_string("  Room name: ");
            line.append(roomc.name.as_str());
            push_line(lines, line);
            let ghost r0 = texts(lines@);
            push_link(world, roomc, Dir::North, lines);
            push_link(world, roomc, Dir::South, lines);
            push_link(world, roomc, Dir::East, lines);
            push_link(world, roomc, Dir::West, lines);
            push_link(world, roomc, Dir::Up, lines);
            push_link(world, roomc, Dir::Down, lines);
            push_link(world, roomc, Dir::In, lines);
            push_link(world, roomc, Dir::Out, lines);
            proof {
                assert(texts(lines@) =~= r0 + link_lines(world, *roomc));
                assert(texts(lines@) =~= texts(old(lines)@) + room_lines(world, id));
            }
        },
        None => {
            assert(texts(lines@) =~= texts(old(lines)@) + room_lines(world, id));
        },
    }
}

/// Adds the lines giving the rule's actions, the entity's flags, and its contents.
fn push_state_lines(world: &World, id: ID, lines: &mut Vec<String>)
    ensures
        texts(final(lines)@) == texts(old(lines)@) + rule_lines(world, id) + flags_lines_of(
            world,
            id,
        ) + contents_lines_of(world, id),
{
    let ghost s0 = texts(lines@);
    // NEXT, if it's a rule display its actions.
    match world.rules.get(&id) {
        Some(rulec) => push_action_lines(&rulec.script.actions, lines),
        None => {},
    }
    assert(texts(lines@) =~= s0 + rule_lines(world, id));
    let ghost s1 = texts(lines@);
    // NEXT, display its flags, if any.
    match world.flag_sets.get(&id) {
        Some(flagc) => push_flag_lines(&flagc.set, lines),
        None => {},
    }
    assert(texts(lines@) =~= s1 + flags_lines_of(world, id));
    let ghost s2 = texts(lines@);
    // NEXT, display its inventory, if any.
    match world.inventories.get(&id) {
        Some(invc) => {
            if invc.things.len() == 0 {
                push_line(lines, to_string("  Contains: nothing"));
            } else {
                push_content_lines(world, &invc.things, lines);
            }
        },
        None => {},
    }
    assert(texts(lines@) =~= s2 + contents_lines_of(world, id));
}

/// Adds the lines giving the entity's prose, if it has prose.
fn push_prose_lines(world: &World, id: ID, lines: &mut Vec<String>)
    requires
        world.wf(),
    ensures
        texts(final(lines)@) == texts(old(lines)@) + proses_lines_of(world, id),
{
    if world.proses.get(&id).is_some() {
        let ghost p0 = texts(lines@);
        push_prose(world, id, ProseType::Room, lines);
        push_prose(world, id, ProseType::Thing, lines);
        push_prose(world, id, ProseType::Book, lines);
        push_prose(world, id, ProseType::Scenery, lines);
        proof {
            assert(texts(lines@) =~= p0 + prose_lines(world, id));
        }
    } else {
        assert(texts(lines@) =~= texts(old(lines)@) + proses_lines_of(world, id));
    }
}

/// Dump info about the entity with the given ID: one line for each of the values of
/// its components.
pub fn dump_entity(world: &World, id: ID) -> (res: String)
    requires
        world.wf(),
    ensures
        res@ == dump_text(world, id),
{
    let mut lines: Vec<String> = Vec::new();
    push_line(&mut lines, list_entity(world, id));
    push_place_lines(world, id, &mut lines);
    push_room_lines(world, id, &mut lines);
    push_state_lines(world, id, &mut lines);
    push_prose_lines(world, id, &mut lines);
    assert(texts(lines@) =~= dump_lines(world, id));
    join_lines(&lines)
}

} // verus!
