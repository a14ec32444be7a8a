//! Type definitions shared by the engine: directions, flags, actions, events,
//! links, rule predicates, and the prose buffer.
use vstd::prelude::*;

pub mod flags;
pub mod var_set;

verus! {

/// An entity identifier.
pub type ID = usize;

/// The time, in game turns.
pub type Time = usize;

//------------------------------------------------------------------------------------------------
// Strings

/// Compares two strings character by character.
pub fn str_eq(a: &str, b: &str) -> (res: bool)
    ensures
        res == (a@ == b@),
{
    let n = a.unicode_len();
    let m = b.unicode_len();
    if n != m {
        return false;
    }
    let mut i: usize = 0;
    while i < n
        invariant
            n == a@.len(),
            m == b@.len(),
            n == m,
            i <= n,
            forall|j: int| 0 <= j < i ==> a@[j] == b@[j],
        decreases n - i,
    {
        if a.get_char(i) != b.get_char(i) {
            return false;
        }
        i = i + 1;
    }
    assert(a@ =~= b@);
    true
}

/// Appends one character to a string with std's `String::push`.  The contract claims what
/// its documentation says: the character is added at the end and nothing else changes.
#[verifier::external_body]
pub(crate) fn push_char(s: &mut String, c: char)
    ensures
        final(s)@ == old(s)@.push(c),
{
    s.push(c);
}

/// Makes an owned copy of a string slice.
pub fn to_string(s: &str) -> (res: String)
    ensures
        res@ == s@,
{
    s.to_owned()
}

/// The Unicode `White_Space` property, as `char::is_whitespace` defines it.
pub open spec fn is_white_space(c: char) -> bool {
    ||| ('\u{9}' <= c && c <= '\u{d}')
    ||| c == ' '
    ||| c == '\u{85}'
    ||| c == '\u{a0}'
    ||| c == '\u{1680}'
    ||| ('\u{2000}' <= c && c <= '\u{200a}')
    ||| c == '\u{2028}'
    ||| c == '\u{2029}'
    ||| c == '\u{202f}'
    ||| c == '\u{205f}'
    ||| c == '\u{3000}'
}

/// Is the character white space?
pub fn is_white(c: char) -> (res: bool)
    ensures
        res == is_white_space(c),
{
    ('\u{9}' <= c && c <= '\u{d}') || c == ' ' || c == '\u{85}' || c == '\u{a0}' || c
        == '\u{1680}' || ('\u{2000}' <= c && c <= '\u{200a}') || c == '\u{2028}' || c
        == '\u{2029}' || c == '\u{202f}' || c == '\u{205f}' || c == '\u{3000}'
}

//------------------------------------------------------------------------------------------------
// Basic enumerations

/// Directions
#[derive(PartialEq, Eq, Structural, Hash, Debug, Clone, Copy)]
pub enum Dir {
    North,
    South,
    East,
    West,
    Up,
    Down,
    In,
    Out,
}

/// The different kinds of prose supported by an entity.
#[derive(PartialEq, Eq, Structural, Hash, Debug, Copy, Clone)]
pub enum ProseType {
    /// Prose describing a room's interior
    Room,
    /// Prose describing a thing's visible appearance.
    Thing,
    /// The prose contents of a book, note, etc.
    Book,
    /// Prose added to the description of the entity that contains this scenery.
    Scenery,
}

/// Game flags.  At present this is a mixture of engine flags and scenario flags.
#[derive(Clone, Copy, Debug, PartialEq, Eq, Hash)]
pub enum Flag {
    /// This rule should only be fired once.
    FireOnce,
    /// This rule has fired at least once.
    Fired,
    /// Has the entity been killed?
    Dead,
    /// Has this entity been seen by the player?
    Seen(ID),
    /// Is the thing immovable?
    Immovable,
    /// Is the thing scenery?
    Scenery,
    /// A generic flag type for use by users
    User(&'static str),
    /// A (flag + ID) flag type for use by users
    UserId(&'static str, ID),
}

/// The mathematical value of a flag.
pub ghost enum FlagView {
    FireOnce,
    Fired,
    Dead,
    Seen(ID),
    Immovable,
    Scenery,
    User(Seq<char>),
    UserId(Seq<char>, ID),
}

impl View for Flag {
    type V = FlagView;

    open spec fn view(&self) -> FlagView {
        match *self {
            Flag::FireOnce => FlagView::FireOnce,
            Flag::Fired => FlagView::Fired,
            Flag::Dead => FlagView::Dead,
            Flag::Seen(id) => FlagView::Seen(id),
            Flag::Immovable => FlagView::Immovable,
            Flag::Scenery => FlagView::Scenery,
            Flag::User(s) => FlagView::User(s@),
            Flag::UserId(s, id) => FlagView::UserId(s@, id),
        }
    }
}

impl Flag {
    /// Compares two flags by value.
    pub fn same(&self, other: &Flag) -> (res: bool)
        ensures
            res == (self@ == other@),
    {
        match (self, other) {
            (Flag::FireOnce, Flag::FireOnce) => true,
            (Flag::Fired, Flag::Fired) => true,
            (Flag::Dead, Flag::Dead) => true,
            (Flag::Seen(a), Flag::Seen(b)) => *a == *b,
            (Flag::Immovable, Flag::Immovable) => true,
            (Flag::Scenery, Flag::Scenery) => true,
            (Flag::User(a), Flag::User(b)) => str_eq(a, b),
            (Flag::UserId(a, i), Flag::UserId(b, j)) => *i == *j && str_eq(a, b),
            _ => false,
        }
    }
}

/// Actions taken by rules (and maybe other things)
#[derive(Clone, Debug)]
pub enum Action {
    /// Print the text
    Print(String),
    /// Set the flag for the entity with the given ID
    SetFlag(ID, Flag),
    /// Unset the flag on the entity with the given ID.
    UnsetFlag(ID, Flag),
    /// PutIn(thing, inv)
    PutIn(ID, ID),
    /// Swap an item in the world for one in LIMBO
    Swap(ID, ID),
    /// Drop(player,thing): Drop a held item into the current location.
    Drop(ID, ID),
    /// Kill the player/NPC with the given ID
    Kill(ID),
    /// Revive the player/NPC with the given ID
    Revive(ID),
}

impl Action {
    /// A copy of the action.
    pub fn copy(&self) -> (res: Action)
        ensures
            res == *self,
    {
        match self {
            Action::Print(t) => Action::Print(t.clone()),
            Action::SetFlag(id, f) => Action::SetFlag(*id, *f),
            Action::UnsetFlag(id, f) => Action::UnsetFlag(*id, *f),
            Action::PutIn(a, b) => Action::PutIn(*a, *b),
            Action::Swap(a, b) => Action::Swap(*a, *b),
            Action::Drop(a, b) => Action::Drop(*a, *b),
            Action::Kill(a) => Action::Kill(*a),
            Action::Revive(a) => Action::Revive(*a),
        }
    }
}

/// Things that can happen in the game, to which rules and guards can be attached
#[derive(Clone, Copy, Debug, Eq, PartialEq, Structural, Hash)]
pub enum Event {
    /// A game turn has elapsed
    Turn,
    /// EnterRoom(player, room): A player has entered (or wants to enter) a room
    EnterRoom(ID, ID),
    /// GetThing(player, thing): A player has gotten (or wants to get) a thing
    GetThing(ID, ID),
    /// ReadThing(player, thing): A player has read (or wants to read) a thing's
    /// Book prose.
    ReadThing(ID, ID),
}

/// The destination of a link.
#[derive(Clone, Debug)]
pub enum LinkDest {
    /// The link goes to another room.
    Room(ID),
    /// The link is a dead end.  The string is the prose to display to the user.
    DeadEnd(String),
}

impl LinkDest {
    /// A copy of the link.
    pub fn copy(&self) -> (res: LinkDest)
        ensures
            res == *self,
    {
        match self {
            LinkDest::Room(id) => LinkDest::Room(*id),
            LinkDest::DeadEnd(text) => LinkDest::DeadEnd(text.clone()),
        }
    }
}

/// A condition on the world, evaluated by rules, guards and prose hooks.
/// `Has(tag, flag)` holds when the tagged entity has the flag; `Owns(owner, thing)`
/// holds when the tagged owner's inventory holds the tagged thing.
#[derive(Debug)]
pub enum Predicate {
    Always,
    ClockIs(Time),
    Has(&'static str, Flag),
    Owns(&'static str, &'static str),
    Not(Box<Predicate>),
    And(Box<Predicate>, Box<Predicate>),
}

impl Predicate {
    /// A copy of the predicate.
    pub fn copy(&self) -> (res: Predicate)
        ensures
            res == *self,
        decreases self,
    {
        match self {
            Predicate::Always => Predicate::Always,
            Predicate::ClockIs(n) => Predicate::ClockIs(*n),
            Predicate::Has(t, f) => Predicate::Has(t, *f),
            Predicate::Owns(o, t) => Predicate::Owns(o, t),
            Predicate::Not(q) => Predicate::Not(Box::new((**q).copy())),
            Predicate::And(a, b) => Predicate::And(Box::new((**a).copy()), Box::new((**b).copy())),
        }
    }
}

impl Clone for Predicate {
    fn clone(&self) -> (res: Predicate)
        ensures
            res == *self,
    {
        self.copy()
    }
}

/// The name `RulePredicate` of the predicate type used by rules.
pub type RulePredicate = Predicate;

//------------------------------------------------------------------------------------------------
// ProseBuffer

/// The text after a sentence separator has been added, if one is needed:
/// a newline unless the text is empty or ends with white space or '|'.
pub open spec fn with_separator(s: Seq<char>) -> Seq<char> {
    if s.len() > 0 && !is_white_space(s.last()) && s.last() != '|' {
        s.push('\n')
    } else {
        s
    }
}

/// The text after a paragraph break has been added.
pub open spec fn with_para(s: Seq<char>) -> Seq<char> {
    if s.len() >= 2 && s[s.len() - 2] == '|' && s[s.len() - 1] == '|' {
        s
    } else if s.len() >= 1 && s[s.len() - 1] == '|' {
        s.push('|')
    } else {
        s.push('|').push('|')
    }
}

/// ProseBuffer: A buffer for building up strings of prose in "conmark" syntax.
pub struct ProseBuffer {
    pub buff: String,
}

impl View for ProseBuffer {
    type V = Seq<char>;

    open spec fn view(&self) -> Seq<char> {
        self.buff@
    }
}

impl ProseBuffer {
    /// Creates an empty buffer.
    pub fn new() -> (res: Self)
        ensures
            res@ == Seq::<char>::empty(),
    {
        Self { buff: String::new() }
    }

    /// Adds a sentence to the buffer, separating it from previous text
    /// with a newline if necessary.
    pub fn puts(&mut self, text: &str)
        ensures
            final(self)@ == with_separator(old(self)@) + text@,
    {
        self.add_white_space_if_needed();
        self.put_raw(text);
    }

    /// Adds a paragraph break to the buffer.
    pub fn para(&mut self)
        ensures
            final(self)@ == with_para(old(self)@),
    {
        let n = self.buff.as_str().unicode_len();
        if n >= 2 && self.buff.as_str().get_char(n - 2) == '|' && self.buff.as_str().get_char(n - 1)
            == '|' {
            // Do nothing
        } else if n >= 1 && self.buff.as_str().get_char(n - 1) == '|' {
            push_char(&mut self.buff, '|');
        } else {
            push_char(&mut self.buff, '|');
            push_char(&mut self.buff, '|');
        }
    }

    /// Adds text to the buffer, with no special handling.
    pub fn put_raw(&mut self, text: &str)
        ensures
            final(self)@ == old(self)@ + text@,
    {
        self.buff.append(text);
    }

    /// Converts the buffer to a string.
    pub fn get(&self) -> (res: String)
        ensures
            res@ == self@,
    {
        self.buff.clone()
    }

    /// Adds white space before a new sentence, if needed.
    fn add_white_space_if_needed(&mut self)
        ensures
            final(self)@ == with_separator(old(self)@),
    {
        let len = self.buff.as_str().unicode_len();
        if len > 0 {
            let last_char = self.buff.as_str().get_char(len - 1);
            if !is_white(last_char) && last_char != '|' {
                push_char(&mut self.buff, '\n');
            }
        }
    }
}

/// A paragraph break after a paragraph break adds nothing.
pub proof fn law_para_idempotent(s: Seq<char>)
    ensures
        with_para(with_para(s)) == with_para(s),
{
    let t = with_para(s);
    assert(t.len() >= 2 && t[t.len() - 2] == '|' && t[t.len() - 1] == '|');
}

} // verus!
