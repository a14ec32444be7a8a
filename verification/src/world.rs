//! The game world
use vstd::prelude::*;
use std::collections::HashMap;
use crate::entity::flag_set_component::FlagSetComponent;
use crate::entity::inventory_component::InventoryComponent;
use crate::entity::inventory_component::added;
use crate::entity::inventory_component::removed;
use crate::entity::location_component::LocationComponent;
use crate::entity::player_component::PlayerComponent;
use crate::entity::prose_component::Prose;
use crate::entity::prose_component::ProseComponent;
use crate::entity::room_component::RoomComponent;
use crate::entity::rule_component::RuleComponent;
use crate::entity::tag_component::TagComponent;
use crate::entity::thing_component::ThingComponent;
use crate::types::{str_eq, to_string, Action, Flag, FlagView, ID, Predicate, ProseType, Time};

verus! {

broadcast use vstd::std_specs::hash::group_hash_axioms;

/// The ID of LIMBO, the place for things that are not (or no longer) anywhere else.
pub const LIMBO: ID = 0;

/// The game state.  Uses a variant of the Entity-Component-System architecture: each
/// entity is an ID, and its components are stored in maps keyed by ID.  The tags are
/// stored by ID, so that entities can be listed in order of creation.
pub struct World {
    // The player's entity ID.
    pub pid: ID,
    // The game clock
    pub clock: Time,
    /// Tag Components, indexed by ID.
    pub tags: Vec<TagComponent>,
    /// FlagSets, used for storing arbitrary data about the entity.
    pub flag_sets: HashMap<ID, FlagSetComponent>,
    /// Inventory Components: For entities that can contain other entities.
    pub inventories: HashMap<ID, InventoryComponent>,
    /// Location Components: Where entities are located.
    pub locations: HashMap<ID, LocationComponent>,
    /// Prose Components: the different kinds of prose an entity can have.
    pub proses: HashMap<ID, ProseComponent>,
    /// Player Components.
    pub players: HashMap<ID, PlayerComponent>,
    /// Room Components: locations in which the player or NPCs can be.
    pub rooms: HashMap<ID, RoomComponent>,
    /// Thing Components: things that the player can interact with.
    pub things: HashMap<ID, ThingComponent>,
    /// Rule Components: rules fire in order of ID, i.e., of definition.
    pub rules: HashMap<ID, RuleComponent>,
    // The valid verbs
    pub verbs: Vec<String>,
    // Mapping from verb synonyms to verbs
    pub synonyms: Vec<(String, String)>,
}

//------------------------------------------------------------------------------------------------
// The model

/// The changing state of the world, as mathematical values: the clock, the tags of
/// the entities, their flags, the contents of their inventories (in the order in which
/// they were put there), and their locations.
pub ghost struct WorldModel {
    pub clock: Time,
    pub tags: Seq<Seq<char>>,
    pub flags: Map<ID, Set<FlagView>>,
    pub invs: Map<ID, Seq<ID>>,
    pub locs: Map<ID, ID>,
}

/// The index of the tag in the sequence of tags.
pub open spec fn tag_id_in(tags: Seq<Seq<char>>, tag: Seq<char>) -> ID {
    choose|i: ID| i < tags.len() && #[trigger] tags[i as int] == tag
}

impl WorldModel {
    /// The entity with the tag.
    pub open spec fn tag_id(self, tag: Seq<char>) -> ID {
        tag_id_in(self.tags, tag)
    }

    /// Does the predicate hold in this state?
    pub open spec fn holds(self, p: Predicate) -> bool
        decreases p,
    {
        match p {
            Predicate::Always => true,
            Predicate::ClockIs(n) => self.clock == n,
            Predicate::Has(t, f) => self.flags[self.tag_id(t@)].contains(f@),
            Predicate::Owns(o, t) => {
                let oid = self.tag_id(o@);
                self.invs.contains_key(oid) && self.invs[oid].contains(self.tag_id(t@))
            },
            Predicate::Not(q) => !self.holds(*q),
            Predicate::And(a, b) => self.holds(*a) && self.holds(*b),
        }
    }

    /// The state with the flag set on the entity.
    pub open spec fn with_flag(self, id: ID, f: FlagView) -> WorldModel {
        WorldModel { flags: self.flags.insert(id, self.flags[id].insert(f)), ..self }
    }

    /// The state with the flag cleared from the entity.
    pub open spec fn without_flag(self, id: ID, f: FlagView) -> WorldModel {
        WorldModel { flags: self.flags.insert(id, self.flags[id].remove(f)), ..self }
    }

    /// The state with the thing moved out of its place's inventory, to the end of the
    /// inventory of `inv`.
    pub open spec fn with_move(self, thing: ID, inv: ID) -> WorldModel {
        let from = self.locs[thing];
        let invs1 = self.invs.insert(from, removed(self.invs[from], thing));
        WorldModel {
            invs: invs1.insert(inv, added(invs1[inv], thing)),
            locs: self.locs.insert(thing, inv),
            ..self
        }
    }

    /// The state after the action.
    pub open spec fn apply(self, a: Action) -> WorldModel {
        match a {
            Action::Print(_) => self,
            Action::SetFlag(id, f) => self.with_flag(id, f@),
            Action::UnsetFlag(id, f) => self.without_flag(id, f@),
            Action::PutIn(thing, inv) => self.with_move(thing, inv),
            Action::Swap(a, b) => {
                let place = self.locs[a];
                self.with_move(a, LIMBO).with_move(b, place)
            },
            Action::Drop(pid, thing) => self.with_move(thing, self.locs[pid]),
            Action::Kill(pid) => self.with_flag(pid, FlagView::Dead),
            Action::Revive(pid) => self.without_flag(pid, FlagView::Dead),
        }
    }

    /// The state after the actions, in order.
    pub open spec fn apply_all(self, s: Seq<Action>) -> WorldModel
        decreases s.len(),
    {
        if s.len() == 0 {
            self
        } else {
            self.apply_all(s.drop_last()).apply(s.last())
        }
    }
}

/// The text that executing the action prints.
pub open spec fn action_output(a: Action) -> Seq<Seq<char>> {
    match a {
        Action::Print(t) => seq![t@],
        Action::Kill(_) => seq!["*** You have died. ***"@],
        Action::Revive(_) => seq!["*** You are alive! ***"@],
        _ => Seq::empty(),
    }
}

/// The text that executing the actions prints, in order.
pub open spec fn script_output(s: Seq<Action>) -> Seq<Seq<char>>
    decreases s.len(),
{
    if s.len() == 0 {
        Seq::empty()
    } else {
        script_output(s.drop_last()) + action_output(s.last())
    }
}

/// The values of a sequence of strings.
pub open spec fn texts(v: Seq<String>) -> Seq<Seq<char>> {
    v.map_values(|s: String| s@)
}

impl World {
    /// The number of entities; IDs are 0..n().
    pub open spec fn n(&self) -> nat {
        self.tags@.len()
    }

    /// The tag of the entity.
    pub open spec fn tag_of(&self, id: ID) -> Seq<char> {
        self.tags@[id as int].tag@
    }

    /// Is there an entity with the tag?
    pub open spec fn tag_exists(&self, tag: Seq<char>) -> bool {
        exists|i: ID| i < self.n() && #[trigger] self.tag_of(i) == tag
    }

    /// The tags of the entities, in order of ID.
    pub open spec fn tags_view(&self) -> Seq<Seq<char>> {
        self.tags@.map_values(|t: TagComponent| t.tag@)
    }

    /// The entity with the tag.
    pub open spec fn tag_id(&self, tag: Seq<char>) -> ID {
        tag_id_in(self.tags_view(), tag)
    }

    /// The changing state of the world.
    pub open spec fn model(&self) -> WorldModel {
        WorldModel {
            clock: self.clock,
            tags: self.tags_view(),
            flags: Map::new(
                |id: ID| self.flag_sets@.contains_key(id),
                |id: ID| self.flag_sets@[id]@,
            ),
            invs: Map::new(
                |id: ID| self.inventories@.contains_key(id),
                |id: ID| self.inventories@[id]@,
            ),
            locs: Map::new(
                |id: ID| self.locations@.contains_key(id),
                |id: ID| self.locations@[id].id,
            ),
        }
    }

    pub open spec fn has_flags_spec(&self, id: ID) -> bool {
        self.flag_sets@.contains_key(id)
    }

    pub open spec fn has_inventory_spec(&self, id: ID) -> bool {
        self.inventories@.contains_key(id)
    }

    pub open spec fn has_location_spec(&self, id: ID) -> bool {
        self.locations@.contains_key(id)
    }

    /// The flags of the entity.
    pub open spec fn flags_of(&self, id: ID) -> Set<FlagView> {
        self.flag_sets@[id]@
    }

    /// The contents of the entity's inventory, in the order they were put there.
    pub open spec fn inv_of(&self, id: ID) -> Seq<ID> {
        self.inventories@[id]@
    }

    /// The location of the entity.
    pub open spec fn loc_of(&self, id: ID) -> ID {
        self.locations@[id].id
    }

    pub open spec fn verbs_view(&self) -> Seq<Seq<char>> {
        self.verbs@.map_values(|v: String| v@)
    }

    pub open spec fn synonyms_view(&self) -> Seq<(Seq<char>, Seq<char>)> {
        self.synonyms@.map_values(|p: (String, String)| (p.0@, p.1@))
    }

    /// Can the predicate be evaluated without failing?
    pub open spec fn pred_ok(&self, p: Predicate) -> bool
        decreases p,
    {
        match p {
            Predicate::Always => true,
            Predicate::ClockIs(_) => true,
            Predicate::Has(t, _) => self.tag_exists(t@) && self.has_flags_spec(self.tag_id(t@)),
            Predicate::Owns(o, t) => self.tag_exists(o@) && self.tag_exists(t@),
            Predicate::Not(q) => self.pred_ok(*q),
            Predicate::And(a, b) => self.pred_ok(*a) && self.pred_ok(*b),
        }
    }

    /// Does the predicate hold in this world?
    pub open spec fn holds(&self, p: Predicate) -> bool {
        self.model().holds(p)
    }

    /// Can the action be executed without failing?
    pub open spec fn action_ok(&self, a: Action) -> bool {
        match a {
            Action::Print(_) => true,
            Action::SetFlag(id, _) => self.has_flags_spec(id),
            Action::UnsetFlag(id, _) => self.has_flags_spec(id),
            Action::PutIn(thing, inv) => self.has_location_spec(thing) && self.has_inventory_spec(
                inv,
            ),
            Action::Swap(a, b) => self.has_location_spec(a) && self.has_location_spec(b)
                && self.has_inventory_spec(LIMBO),
            Action::Drop(pid, thing) => self.has_location_spec(pid) && self.has_location_spec(
                thing,
            ),
            Action::Kill(pid) => self.has_flags_spec(pid),
            Action::Revive(pid) => self.has_flags_spec(pid),
        }
    }

    /// Can each action of the sequence be executed without failing?
    pub open spec fn actions_ok(&self, s: Seq<Action>) -> bool {
        forall|i: int| 0 <= i < s.len() ==> self.action_ok(#[trigger] s[i])
    }

    /// Can each condition of the prose be evaluated?
    pub open spec fn prose_ok(&self, p: Prose) -> bool {
        match p {
            Prose::Hook(h) => forall|i: int|
                0 <= i < h.clauses@.len() ==> self.pred_ok(#[trigger] h.clauses@[i].when),
            _ => true,
        }
    }

    /// Tags are held by ID and are unique.
    pub open spec fn wf_tags(&self) -> bool {
        &&& forall|i: int| 0 <= i < self.n() ==> (#[trigger] self.tags@[i]).id == i
        &&& forall|i: ID, j: ID|
            i < self.n() && j < self.n() && i != j ==> #[trigger] self.tag_of(i)
                != #[trigger] self.tag_of(j)
    }

    /// Every component belongs to an existing entity.
    pub open spec fn wf_domains(&self) -> bool {
        &&& forall|id: ID| #[trigger] self.flag_sets@.contains_key(id) ==> id < self.n()
        &&& forall|id: ID| #[trigger] self.inventories@.contains_key(id) ==> id < self.n()
        &&& forall|id: ID| #[trigger] self.locations@.contains_key(id) ==> id < self.n()
        &&& forall|id: ID| #[trigger] self.proses@.contains_key(id) ==> id < self.n()
        &&& forall|id: ID| #[trigger] self.players@.contains_key(id) ==> id < self.n()
        &&& forall|id: ID| #[trigger] self.rooms@.contains_key(id) ==> id < self.n()
        &&& forall|id: ID| #[trigger] self.things@.contains_key(id) ==> id < self.n()
        &&& forall|id: ID| #[trigger] self.rules@.contains_key(id) ==> id < self.n()
        &&& forall|id: ID| #[trigger] self.locations@.contains_key(id) ==> self.things@.contains_key(id)
    }

    /// Flag sets and inventories are well formed.
    pub open spec fn wf_components(&self) -> bool {
        &&& forall|id: ID| #[trigger] self.flag_sets@.contains_key(id) ==> self.flag_sets@[id].wf()
        &&& forall|id: ID| #[trigger]
            self.inventories@.contains_key(id) ==> self.inventories@[id].wf()
    }

    /// A thing in an inventory is located there, and every location has an inventory.
    /// (The converse, that a located thing is in its place's inventory, is no invariant:
    /// a thing the builder has just made is located in LIMBO before it is put anywhere.)
    pub open spec fn wf_places(&self) -> bool {
        &&& forall|o: ID, x: ID|
            #![trigger self.inventories@[o]@.contains(x)]
            self.inventories@.contains_key(o) && self.inventories@[o]@.contains(x)
                ==> self.locations@.contains_key(x) && self.locations@[x].id == o
        &&& forall|x: ID| #[trigger]
            self.locations@.contains_key(x) ==> self.inventories@.contains_key(
                self.locations@[x].id,
            )
    }

    /// Rules and prose hooks can be evaluated and executed.
    pub open spec fn wf_hooks(&self) -> bool {
        &&& forall|id: ID| #[trigger]
            self.rules@.contains_key(id) ==> self.pred_ok(self.rules@[id].predicate)
                && self.actions_ok(self.rules@[id].script.actions@)
                && self.flag_sets@.contains_key(id)
        &&& forall|id: ID, i: int| #[trigger]
            self.proses@.contains_key(id) && 0 <= i < self.proses@[id].types@.len()
                ==> self.prose_ok(#[trigger] self.proses@[id].types@[i].1)
    }

    /// The world is well formed.
    pub open spec fn wf(&self) -> bool {
        &&& self.wf_tags()
        &&& self.wf_domains()
        &&& self.wf_components()
        &&& self.wf_places()
        &&& self.wf_hooks()
    }

    /// Every part of the two worlds has the same value.
    pub open spec fn same_as(&self, other: &World) -> bool {
        &&& other.pid == self.pid
        &&& other.clock == self.clock
        &&& other.tags@ == self.tags@
        &&& other.flag_sets@ == self.flag_sets@
        &&& other.inventories@ == self.inventories@
        &&& other.locations@ == self.locations@
        &&& other.proses@ == self.proses@
        &&& other.players@ == self.players@
        &&& other.rooms@ == self.rooms@
        &&& other.things@ == self.things@
        &&& other.rules@ == self.rules@
        &&& other.verbs@ == self.verbs@
        &&& other.synonyms@ == self.synonyms@
    }

    /// `other` holds every entity and component kind that `self` holds.
    pub open spec fn extended_by(&self, other: &World) -> bool {
        &&& self.n() <= other.n()
        &&& forall|i: ID| i < self.n() ==> #[trigger] other.tag_of(i) == self.tag_of(i)
        &&& forall|id: ID| #[trigger]
            self.flag_sets@.contains_key(id) ==> other.flag_sets@.contains_key(id)
        &&& forall|id: ID| #[trigger]
            self.inventories@.contains_key(id) ==> other.inventories@.contains_key(id)
        &&& forall|id: ID| #[trigger]
            self.locations@.contains_key(id) ==> other.locations@.contains_key(id)
    }
}

/// The tag of an entity identifies it.
pub proof fn lemma_tag_id(w: &World, i: ID)
    requires
        w.wf_tags(),
        i < w.n(),
    ensures
        w.tag_exists(w.tag_of(i)),
        w.tag_id(w.tag_of(i)) == i,
{
    assert(w.tag_of(i) == w.tag_of(i));
    assert(w.model().tags[i as int] == w.tag_of(i));
    let j = w.tag_id(w.tag_of(i));
    assert(j < w.n() && w.model().tags[j as int] == w.tag_of(i));
    assert(w.model().tags[j as int] == w.tag_of(j));
    if j != i {
        assert(w.tag_of(j) != w.tag_of(i));
    }
}

/// An existing tag denotes an entity that has it.
pub proof fn lemma_tag_exists(w: &World, t: Seq<char>)
    requires
        w.wf_tags(),
        w.tag_exists(t),
    ensures
        w.tag_id(t) < w.n(),
        w.tag_of(w.tag_id(t)) == t,
{
    let i = choose|i: ID| i < w.n() && #[trigger] w.tag_of(i) == t;
    lemma_tag_id(w, i);
}

/// Different tags denote different entities.
pub proof fn lemma_tags_differ(w: &World, a: Seq<char>, b: Seq<char>)
    requires
        w.wf_tags(),
        w.tag_exists(a),
        w.tag_exists(b),
        a != b,
    ensures
        w.tag_id(a) != w.tag_id(b),
{
    lemma_tag_exists(w, a);
    lemma_tag_exists(w, b);
}

/// Predicates that can be evaluated in a world can be evaluated in every extension of it.
pub proof fn lemma_pred_ok_extends(w1: &World, w2: &World, p: Predicate)
    requires
        w1.wf_tags(),
        w2.wf_tags(),
        w1.extended_by(w2),
        w1.pred_ok(p),
    ensures
        w2.pred_ok(p),
        w1.tag_id_agrees(w2, p),
    decreases p,
{
    match p {
        Predicate::Has(t, _) => {
            lemma_tag_exists(w1, t@);
            let i = w1.tag_id(t@);
            lemma_tag_id(w1, i);
            assert(w2.tag_of(i) == t@);
            lemma_tag_id(w2, i);
        },
        Predicate::Owns(o, t) => {
            lemma_tag_exists(w1, o@);
            lemma_tag_exists(w1, t@);
            let i = w1.tag_id(o@);
            lemma_tag_id(w1, i);
            assert(w2.tag_of(i) == o@);
            lemma_tag_id(w2, i);
            let j = w1.tag_id(t@);
            lemma_tag_id(w1, j);
            assert(w2.tag_of(j) == t@);
            lemma_tag_id(w2, j);
        },
        Predicate::Not(q) => {
            lemma_pred_ok_extends(w1, w2, *q);
        },
        Predicate::And(a, b) => {
            lemma_pred_ok_extends(w1, w2, *a);
            lemma_pred_ok_extends(w1, w2, *b);
        },
        _ => {},
    }
}

impl World {
    /// The tags named in the predicate denote the same entities in both worlds.
    pub open spec fn tag_id_agrees(&self, other: &World, p: Predicate) -> bool
        decreases p,
    {
        match p {
            Predicate::Has(t, _) => self.tag_id(t@) == other.tag_id(t@),
            Predicate::Owns(o, t) => self.tag_id(o@) == other.tag_id(o@) && self.tag_id(t@)
                == other.tag_id(t@),
            Predicate::Not(q) => self.tag_id_agrees(other, *q),
            Predicate::And(a, b) => self.tag_id_agrees(other, *a) && self.tag_id_agrees(
                other,
                *b,
            ),
            _ => true,
        }
    }
}


/// Rules and prose hooks that can be evaluated in a world can be evaluated in every
/// extension of it that holds the same rules and prose.
pub proof fn lemma_wf_hooks_extends(w1: &World, w2: &World)
    requires
        w1.wf_tags(),
        w2.wf_tags(),
        w1.wf_hooks(),
        w1.extended_by(w2),
        w2.rules@ == w1.rules@,
        w2.proses@ == w1.proses@,
    ensures
        w2.wf_hooks(),
{
    assert forall|id: ID| #[trigger] w2.rules@.contains_key(id) implies w2.pred_ok(
        w2.rules@[id].predicate,
    ) && w2.actions_ok(w2.rules@[id].script.actions@) && w2.flag_sets@.contains_key(id) by {
        lemma_pred_ok_extends(w1, w2, w1.rules@[id].predicate);
        let s = w1.rules@[id].script.actions@;
        assert forall|i: int| 0 <= i < s.len() implies w2.action_ok(#[trigger] s[i]) by {
            assert(w1.action_ok(s[i]));
        }
    }
    assert forall|id: ID, i: int| #[trigger]
        w2.proses@.contains_key(id) && 0 <= i < w2.proses@[id].types@.len() implies w2.prose_ok(
        #[trigger] w2.proses@[id].types@[i].1,
    ) by {
        assert(w1.prose_ok(w1.proses@[id].types@[i].1));
        match w1.proses@[id].types@[i].1 {
            Prose::Hook(h) => {
                assert forall|k: int| 0 <= k < h.clauses@.len() implies w2.pred_ok(
                    #[trigger] h.clauses@[k].when,
                ) by {
                    lemma_pred_ok_extends(w1, w2, h.clauses@[k].when);
                }
            },
            _ => {},
        }
    }
}

impl World {
    /// Every tag of this world denotes the same entity in the other.
    pub open spec fn tags_kept(&self, other: &World) -> bool {
        forall|t: Seq<char>| #[trigger]
            self.tag_exists(t) ==> other.tag_exists(t) && other.tag_id(t) == self.tag_id(t)
    }
}

/// An extension keeps every tag's entity.
pub proof fn lemma_tags_kept(w1: &World, w2: &World)
    requires
        w1.wf_tags(),
        w2.wf_tags(),
        w1.extended_by(w2),
    ensures
        w1.tags_kept(w2),
{
    assert forall|t: Seq<char>| #[trigger] w1.tag_exists(t) implies w2.tag_exists(t) && w2.tag_id(t)
        == w1.tag_id(t) by {
        lemma_tag_exists(w1, t);
        let i = w1.tag_id(t);
        assert(w2.tag_of(i) == t);
        lemma_tag_id(w2, i);
    }
}

/// Extension is transitive.
pub proof fn lemma_extended_by_trans(a: &World, b: &World, c: &World)
    requires
        a.extended_by(b),
        b.extended_by(c),
    ensures
        a.extended_by(c),
{
    assert forall|i: ID| i < a.n() implies #[trigger] c.tag_of(i) == a.tag_of(i) by {
        assert(b.tag_of(i) == a.tag_of(i));
    }
}

/// Prose that can be produced in a world can be produced in every extension of it.
pub proof fn lemma_prose_ok_extends(w1: &World, w2: &World, p: Prose)
    requires
        w1.wf_tags(),
        w2.wf_tags(),
        w1.extended_by(w2),
        w1.prose_ok(p),
    ensures
        w2.prose_ok(p),
{
    match p {
        Prose::Hook(h) => {
            assert forall|k: int| 0 <= k < h.clauses@.len() implies w2.pred_ok(
                #[trigger] h.clauses@[k].when,
            ) by {
                lemma_pred_ok_extends(w1, w2, h.clauses@[k].when);
            }
        },
        _ => {},
    }
}

/// Well-formed tags stay well formed while the tags are unchanged.
pub proof fn lemma_wf_tags_same(w1: &World, w2: &World)
    requires
        w1.wf_tags(),
        w2.tags@ == w1.tags@,
    ensures
        w2.wf_tags(),
        forall|t: Seq<char>| w2.tag_exists(t) == w1.tag_exists(t),
        w1.tags_kept(w2),
{
    assert forall|i: ID, j: ID| i < w2.n() && j < w2.n() && i != j implies #[trigger] w2.tag_of(i)
        != #[trigger] w2.tag_of(j) by {
        assert(w1.tag_of(i) != w1.tag_of(j));
    }
    assert forall|t: Seq<char>| w2.tag_exists(t) == w1.tag_exists(t) by {
        if w1.tag_exists(t) {
            let i = choose|i: ID| i < w1.n() && #[trigger] w1.tag_of(i) == t;
            assert(w2.tag_of(i) == t);
        }
        if w2.tag_exists(t) {
            let i = choose|i: ID| i < w2.n() && #[trigger] w2.tag_of(i) == t;
            assert(w1.tag_of(i) == t);
        }
    }
}

//------------------------------------------------------------------------------------------------
// Operations

impl World {
    /// The world is unchanged apart from the flag sets.
    pub open spec fn same_but_flags(&self, other: &World) -> bool {
        &&& other.pid == self.pid
        &&& other.clock == self.clock
        &&& other.tags@ == self.tags@
        &&& other.inventories@ == self.inventories@
        &&& other.locations@ == self.locations@
        &&& other.proses@ == self.proses@
        &&& other.players@ == self.players@
        &&& other.rooms@ == self.rooms@
        &&& other.things@ == self.things@
        &&& other.rules@ == self.rules@
        &&& other.verbs@ == self.verbs@
        &&& other.synonyms@ == self.synonyms@
        &&& other.flag_sets@.dom() == self.flag_sets@.dom()
    }

    /// Does this entity have a set of flags?
    pub fn has_flags(&self, id: ID) -> (res: bool)
        ensures
            res == self.has_flags_spec(id),
    {
        self.flag_sets.get(&id).is_some()
    }

    /// Does this entity have an inventory?
    pub fn has_inventory(&self, id: ID) -> (res: bool)
        ensures
            res == self.has_inventory_spec(id),
    {
        self.inventories.get(&id).is_some()
    }

    /// Does this entity have a location?
    pub fn has_location(&self, id: ID) -> (res: bool)
        ensures
            res == self.has_location_spec(id),
    {
        self.locations.get(&id).is_some()
    }

    /// Does this entity contain prose?
    pub fn has_prose(&self, id: ID) -> (res: bool)
        ensures
            res == self.proses@.contains_key(id),
    {
        self.proses.get(&id).is_some()
    }

    /// Does this entity have prose of a given type?
    pub fn has_prose_type(&self, id: ID, prose_type: ProseType) -> (res: bool)
        ensures
            res == (self.proses@.contains_key(id) && self.proses@[id].prose(prose_type) is Some),
    {
        match self.proses.get(&id) {
            Some(pc) => pc.get(prose_type).is_some(),
            None => false,
        }
    }

    /// Is this entity a (the) player?
    pub open spec fn is_player_spec(&self, id: ID) -> bool {
        &&& self.players@.contains_key(id)
        &&& self.locations@.contains_key(id)
        &&& self.inventories@.contains_key(id)
        &&& self.flag_sets@.contains_key(id)
        &&& self.things@.contains_key(id)
    }

    /// Is this entity a (the) player?
    pub fn is_player(&self, id: ID) -> (res: bool)
        ensures
            res == self.is_player_spec(id),
    {
        self.players.get(&id).is_some() && self.locations.get(&id).is_some()
            && self.inventories.get(&id).is_some() && self.flag_sets.get(&id).is_some()
            && self.things.get(&id).is_some()
    }

    /// The game can be played in this world: it is well formed, LIMBO has an
    /// inventory, and the player exists.
    pub open spec fn playable(&self) -> bool {
        &&& self.wf()
        &&& self.has_inventory_spec(LIMBO)
        &&& self.pid < self.n()
        &&& self.is_player_spec(self.pid)
    }

    /// Is this entity a room where the player can go?
    pub open spec fn is_room_spec(&self, id: ID) -> bool {
        self.rooms@.contains_key(id) && self.has_inventory_spec(id) && self.has_flags_spec(id)
    }

    /// Is this entity a room where the player can go?
    pub fn is_room(&self, id: ID) -> (res: bool)
        ensures
            res == self.is_room_spec(id),
    {
        self.rooms.get(&id).is_some() && self.has_inventory(id) && self.has_flags(id)
    }

    /// Is this entity a thing the player can interact with?
    pub open spec fn is_thing_spec(&self, id: ID) -> bool {
        self.things@.contains_key(id) && self.has_location_spec(id) && self.has_flags_spec(id)
    }

    /// Is this entity a thing the player can interact with?
    pub fn is_thing(&self, id: ID) -> (res: bool)
        ensures
            res == self.is_thing_spec(id),
    {
        self.things.get(&id).is_some() && self.has_location(id) && self.has_flags(id)
    }

    /// Is this entity a rule?
    pub fn is_rule(&self, id: ID) -> (res: bool)
        ensures
            res == (self.rules@.contains_key(id) && self.has_flags_spec(id)),
    {
        self.rules.get(&id).is_some() && self.has_flags(id)
    }

    /// Returns the tag of the entity with the given ID
    pub fn tag(&self, id: ID) -> (res: String)
        requires
            id < self.n(),
        ensures
            res@ == self.tag_of(id),
    {
        self.tags[id].tag.clone()
    }

    /// Looks up an entity's ID by its tag.
    pub fn lookup_id(&self, tag: &str) -> (res: Option<ID>)
        requires
            self.wf_tags(),
        ensures
            match res {
                Some(id) => id < self.n() && self.tag_of(id) == tag@ && self.tag_exists(tag@)
                    && self.tag_id(tag@) == id,
                None => !self.tag_exists(tag@),
            },
    {
        let mut i: usize = 0;
        while i < self.tags.len()
            invariant
                self.wf_tags(),
                i <= self.n(),
                forall|j: ID| j < i ==> #[trigger] self.tag_of(j) != tag@,
            decreases self.n() - i,
        {
            if str_eq(self.tags[i].tag.as_str(), tag) {
                proof {
                    lemma_tag_id(self, i);
                }
                return Some(i);
            }
            i = i + 1;
        }
        None
    }

    /// Looks up an entity's ID by its tag.  The tag must exist.
    pub fn lookup(&self, tag: &str) -> (res: ID)
        requires
            self.wf_tags(),
            self.tag_exists(tag@),
        ensures
            res < self.n(),
            self.tag_of(res) == tag@,
            res == self.tag_id(tag@),
    {
        self.lookup_id(tag).unwrap()
    }

    /// Is the flag set on the entity?
    pub fn has_flag(&self, id: ID, flag: Flag) -> (res: bool)
        requires
            self.has_flags_spec(id),
        ensures
            res == self.flags_of(id).contains(flag@),
    {
        self.flag_sets.get(&id).unwrap().has(flag)
    }

    /// Set the flag on the entity
    pub fn set(&mut self, id: ID, flag: Flag)
        requires
            old(self).wf(),
            old(self).has_flags_spec(id),
        ensures
            final(self).wf(),
            old(self).same_but_flags(&*final(self)),
            final(self).flag_sets@ == old(self).flag_sets@.insert(id, final(self).flag_sets@[id]),
            final(self).flags_of(id) == old(self).flags_of(id).insert(flag@),
            final(self).model() == old(self).model().with_flag(id, flag@),
    {
        let mut fc = self.flag_sets.remove(&id).unwrap();
        fc.set(flag);
        self.flag_sets.insert(id, fc);
        proof {
            assert(self.model().flags =~= old(self).model().with_flag(id, flag@).flags);
            assert(self.model().invs =~= old(self).model().invs);
            assert(self.model().locs =~= old(self).model().locs);
            assert(self.flag_sets@.dom() =~= old(self).flag_sets@.dom());
            lemma_wf_tags_same(old(self), self);
            lemma_wf_hooks_extends(old(self), self);
        }
    }

    /// Clear the flag from the entity
    pub fn unset(&mut self, id: ID, flag: Flag)
        requires
            old(self).wf(),
            old(self).has_flags_spec(id),
        ensures
            final(self).wf(),
            old(self).same_but_flags(&*final(self)),
            final(self).flag_sets@ == old(self).flag_sets@.insert(id, final(self).flag_sets@[id]),
            final(self).flags_of(id) == old(self).flags_of(id).remove(flag@),
            final(self).model() == old(self).model().without_flag(id, flag@),
    {
        let mut fc = self.flag_sets.remove(&id).unwrap();
        fc.unset(flag);
        self.flag_sets.insert(id, fc);
        proof {
            assert(self.model().flags =~= old(self).model().without_flag(id, flag@).flags);
            assert(self.model().invs =~= old(self).model().invs);
            assert(self.model().locs =~= old(self).model().locs);
            assert(self.flag_sets@.dom() =~= old(self).flag_sets@.dom());
            lemma_wf_tags_same(old(self), self);
            lemma_wf_hooks_extends(old(self), self);
        }
    }

    /// Evaluates a predicate on the world.
    pub fn eval(&self, p: &Predicate) -> (res: bool)
        requires
            self.wf(),
            self.pred_ok(*p),
        ensures
            res == self.holds(*p),
        decreases p,
    {
        match p {
            Predicate::Always => true,
            Predicate::ClockIs(n) => self.clock == *n,
            Predicate::Has(t, f) => {
                let id = self.lookup(t);
                self.has_flag(id, *f)
            },
            Predicate::Owns(o, t) => {
                let oid = self.lookup(o);
                let tid = self.lookup(t);
                match self.inventories.get(&oid) {
                    Some(inv) => inv.has(tid),
                    None => false,
                }
            },
            Predicate::Not(q) => !self.eval(q),
            Predicate::And(a, b) => self.eval(a) && self.eval(b),
        }
    }
}


/// The world after allocating the tag: the entity with the tag, old or new, has the
/// ID; a new entity is added after the others; nothing else changes.
pub open spec fn allocated(w0: &World, w1: &World, tag: Seq<char>, id: ID) -> bool {
    &&& w0.same_but_tags(w1)
    &&& w0.extended_by(w1)
    &&& id < w1.n()
    &&& w1.tag_exists(tag)
    &&& w1.tag_id(tag) == id
    &&& w1.tag_of(id) == tag
    &&& w0.tag_exists(tag) ==> id == w0.tag_id(tag) && w1.tags@ == w0.tags@
    &&& !w0.tag_exists(tag) ==> id == w0.n() && w1.n() == w0.n() + 1
}

/// Allocating a tag a second time gives the same entity, and changes nothing.
pub proof fn law_allocate_twice(w0: &World, w1: &World, w2: &World, tag: Seq<char>, id1: ID, id2: ID)
    requires
        allocated(w0, w1, tag, id1),
        allocated(w1, w2, tag, id2),
    ensures
        id2 == id1,
        w2.tags@ == w1.tags@,
        w1.same_but_tags(w2),
{
}

/// After a tag is allocated, looking it up finds the allocated entity.
pub proof fn law_lookup_allocated(w0: &World, w1: &World, tag: Seq<char>, id: ID)
    requires
        allocated(w0, w1, tag, id),
    ensures
        w1.tag_exists(tag),
        w1.tag_id(tag) == id,
        w1.tag_of(id) == tag,
{
}

impl World {
    /// The world is unchanged apart from its tags.
    pub open spec fn same_but_tags(&self, other: &World) -> bool {
        &&& other.pid == self.pid
        &&& other.clock == self.clock
        &&& other.flag_sets@ == self.flag_sets@
        &&& other.inventories@ == self.inventories@
        &&& other.locations@ == self.locations@
        &&& other.proses@ == self.proses@
        &&& other.players@ == self.players@
        &&& other.rooms@ == self.rooms@
        &&& other.things@ == self.things@
        &&& other.rules@ == self.rules@
        &&& other.verbs@ == self.verbs@
        &&& other.synonyms@ == self.synonyms@
    }

    /// Allocates a new entity with a given tag, or returns the old one if it
    /// already existed.
    pub fn allocate(&mut self, tag: &str) -> (id: ID)
        requires
            old(self).wf(),
        ensures
            final(self).wf(),
            allocated(&*old(self), &*final(self), tag@, id),
    {
        if let Some(id) = self.lookup_id(tag) {
            // We already have it; just return it.
            id
        } else {
            // FIRST, get the next available ID
            let id = self.tags.len();
            // NEXT, associate it with its tag.
            let tc = TagComponent::new(id, tag);
            self.tags.push(tc);
            proof {
                let w0 = old(self);
                assert forall|i: int| 0 <= i < self.n() implies (#[trigger] self.tags@[i]).id
                    == i by {
                    if i < w0.n() {
                        assert(self.tags@[i] == w0.tags@[i]);
                    }
                }
                assert forall|i: ID| i < w0.n() implies #[trigger] self.tag_of(i) == w0.tag_of(
                    i,
                ) by {
                    assert(self.tags@[i as int] == w0.tags@[i as int]);
                }
                assert forall|i: ID, j: ID|
                    i < self.n() && j < self.n() && i != j implies #[trigger] self.tag_of(i)
                    != #[trigger] self.tag_of(j) by {
                    if i < w0.n() && j < w0.n() {
                        assert(w0.tag_of(i) != w0.tag_of(j));
                    } else if i < w0.n() {
                        assert(w0.tag_of(i) != tag@);
                    } else if j < w0.n() {
                        assert(w0.tag_of(j) != tag@);
                    }
                }
                lemma_wf_hooks_extends(w0, self);
                lemma_tag_id(self, id);
            }
            id
        }
    }
}


/// The verbs that every world knows.
pub open spec fn standard_verbs() -> Seq<Seq<char>> {
    seq!["go"@, "north"@, "n"@, "south"@, "s"@, "east"@, "e"@, "west"@, "w"@, "help"@, "look"@, "inventory"@, "invent"@, "i"@, "examine"@, "x"@, "get"@, "take"@, "drop"@, "read"@, "restart"@, "undo"@, "quit"@, "exit"@, "bye"@, "list"@, "dump"@, "wash"@]
}

/// Each standard verb or synonym, with the verb it stands for.
pub open spec fn standard_synonyms() -> Seq<(Seq<char>, Seq<char>)> {
    seq![("go"@, "go"@), ("north"@, "north"@), ("n"@, "north"@), ("south"@, "south"@), ("s"@, "south"@), ("east"@, "east"@), ("e"@, "east"@), ("west"@, "west"@), ("w"@, "west"@), ("help"@, "help"@), ("look"@, "look"@), ("inventory"@, "inventory"@), ("invent"@, "inventory"@), ("i"@, "inventory"@), ("examine"@, "examine"@), ("x"@, "examine"@), ("get"@, "get"@), ("take"@, "get"@), ("drop"@, "drop"@), ("read"@, "read"@), ("restart"@, "restart"@), ("undo"@, "undo"@), ("quit"@, "quit"@), ("exit"@, "quit"@), ("bye"@, "quit"@), ("list"@, "list"@), ("dump"@, "dump"@), ("wash"@, "wash"@)]
}

impl World {
    /// Adds a single canonical verb to the set of valid verbs.
    pub fn add_verb(&mut self, verb: &str)
        requires
            !old(self).verbs_view().contains(verb@),
        ensures
            final(self).verbs_view() == old(self).verbs_view().push(verb@),
            final(self).synonyms_view() == old(self).synonyms_view().push((verb@, verb@)),
            final(self).same_but_verbs(&*old(self)),
    {
        let ghost v0 = self.verbs@;
        let ghost s0 = self.synonyms@;
        self.verbs.push(to_string(verb));
        self.synonyms.push((to_string(verb), to_string(verb)));
        assert(self.verbs_view() =~= old(self).verbs_view().push(verb@));
        assert(self.synonyms_view() =~= old(self).synonyms_view().push((verb@, verb@)));
    }

    /// Adds a synonym verb to the set of valid verbs.
    pub fn add_syn(&mut self, canon: &str, verb: &str)
        requires
            !old(self).verbs_view().contains(verb@),
        ensures
            final(self).verbs_view() == old(self).verbs_view().push(verb@),
            final(self).synonyms_view() == old(self).synonyms_view().push((verb@, canon@)),
            final(self).same_but_verbs(&*old(self)),
    {
        self.verbs.push(to_string(verb));
        self.synonyms.push((to_string(verb), to_string(canon)));
        assert(self.verbs_view() =~= old(self).verbs_view().push(verb@));
        assert(self.synonyms_view() =~= old(self).synonyms_view().push((verb@, canon@)));
    }

    /// The world is unchanged apart from its verbs and synonyms.
    pub open spec fn same_but_verbs(&self, other: &World) -> bool {
        &&& other.pid == self.pid
        &&& other.clock == self.clock
        &&& other.tags@ == self.tags@
        &&& other.flag_sets@ == self.flag_sets@
        &&& other.inventories@ == self.inventories@
        &&& other.locations@ == self.locations@
        &&& other.proses@ == self.proses@
        &&& other.players@ == self.players@
        &&& other.rooms@ == self.rooms@
        &&& other.things@ == self.things@
        &&& other.rules@ == self.rules@
    }

    /// Creates a new, empty world that knows the standard verbs.
    pub fn new() -> (world: World)
        ensures
            world.wf(),
            world.n() == 0,
            world.pid == 0,
            world.clock == 0,
            world.flag_sets@ == Map::<ID, FlagSetComponent>::empty(),
            world.inventories@ == Map::<ID, InventoryComponent>::empty(),
            world.locations@ == Map::<ID, LocationComponent>::empty(),
            world.proses@ == Map::<ID, ProseComponent>::empty(),
            world.players@ == Map::<ID, PlayerComponent>::empty(),
            world.rooms@ == Map::<ID, RoomComponent>::empty(),
            world.things@ == Map::<ID, ThingComponent>::empty(),
            world.rules@ == Map::<ID, RuleComponent>::empty(),
            world.verbs_view() == standard_verbs(),
            world.synonyms_view() == standard_synonyms(),
    {
        let mut world = World {
            pid: 0,
            clock: 0,
            tags: Vec::new(),
            flag_sets: HashMap::new(),
            inventories: HashMap::new(),
            locations: HashMap::new(),
            proses: HashMap::new(),
            players: HashMap::new(),
            rooms: HashMap::new(),
            things: HashMap::new(),
            rules: HashMap::new(),
            verbs: Vec::new(),
            synonyms: Vec::new(),
        };
        proof {
            lemma_standard_words();
        }
        assert(world.verbs_view() =~= Seq::<Seq<char>>::empty());
        assert(world.synonyms_view() =~= Seq::<(Seq<char>, Seq<char>)>::empty());
        world.add_verb("go");
        world.add_verb("north");
        world.add_syn("north", "n");
        world.add_verb("south");
        world.add_syn("south", "s");
        world.add_verb("east");
        world.add_syn("east", "e");
        world.add_verb("west");
        world.add_syn("west", "w");
        world.add_verb("help");
        world.add_verb("look");
        world.add_verb("inventory");
        world.add_syn("inventory", "invent");
        world.add_syn("inventory", "i");
        world.add_verb("examine");
        world.add_syn("examine", "x");
        world.add_verb("get");
        world.add_syn("get", "take");
        world.add_verb("drop");
        world.add_verb("read");
        world.add_verb("restart");
        world.add_verb("undo");
        world.add_verb("quit");
        world.add_syn("quit", "exit");
        world.add_syn("quit", "bye");
        world.add_verb("list");
        world.add_verb("dump");
        world.add_verb("wash");
        assert(world.verbs_view() =~= standard_verbs());
        assert(world.synonyms_view() =~= standard_synonyms());
        world
    }
}


/// The lengths and first letters of the standard verbs and their synonyms, which tell
/// them apart.
proof fn lemma_standard_words()
    ensures
        "go"@.len() == 2,
        "go"@[0] == 'g',
        "go"@[1] == 'o',
        "north"@.len() == 5,
        "north"@[0] == 'n',
        "north"@[1] == 'o',
        "n"@.len() == 1,
        "n"@[0] == 'n',
        "south"@.len() == 5,
        "south"@[0] == 's',
        "south"@[1] == 'o',
        "s"@.len() == 1,
        "s"@[0] == 's',
        "east"@.len() == 4,
        "east"@[0] == 'e',
        "east"@[1] == 'a',
        "e"@.len() == 1,
        "e"@[0] == 'e',
        "west"@.len() == 4,
        "west"@[0] == 'w',
        "west"@[1] == 'e',
        "w"@.len() == 1,
        "w"@[0] == 'w',
        "help"@.len() == 4,
        "help"@[0] == 'h',
        "help"@[1] == 'e',
        "look"@.len() == 4,
        "look"@[0] == 'l',
        "look"@[1] == 'o',
        "inventory"@.len() == 9,
        "inventory"@[0] == 'i',
        "inventory"@[1] == 'n',
        "invent"@.len() == 6,
        "invent"@[0] == 'i',
        "invent"@[1] == 'n',
        "i"@.len() == 1,
        "i"@[0] == 'i',
        "examine"@.len() == 7,
        "examine"@[0] == 'e',
        "examine"@[1] == 'x',
        "x"@.len() == 1,
        "x"@[0] == 'x',
        "get"@.len() == 3,
        "get"@[0] == 'g',
        "get"@[1] == 'e',
        "take"@.len() == 4,
        "take"@[0] == 't',
        "take"@[1] == 'a',
        "drop"@.len() == 4,
        "drop"@[0] == 'd',
        "drop"@[1] == 'r',
        "read"@.len() == 4,
        "read"@[0] == 'r',
        "read"@[1] == 'e',
        "restart"@.len() == 7,
        "restart"@[0] == 'r',
        "restart"@[1] == 'e',
        "undo"@.len() == 4,
        "undo"@[0] == 'u',
        "undo"@[1] == 'n',
        "quit"@.len() == 4,
        "quit"@[0] == 'q',
        "quit"@[1] == 'u',
        "exit"@.len() == 4,
        "exit"@[0] == 'e',
        "exit"@[1] == 'x',
        "bye"@.len() == 3,
        "bye"@[0] == 'b',
        "bye"@[1] == 'y',
        "list"@.len() == 4,
        "list"@[0] == 'l',
        "list"@[1] == 'i',
        "dump"@.len() == 4,
        "dump"@[0] == 'd',
        "dump"@[1] == 'u',
        "wash"@.len() == 4,
        "wash"@[0] == 'w',
        "wash"@[1] == 'a',
{
    reveal_strlit("go");
    reveal_strlit("north");
    reveal_strlit("n");
    reveal_strlit("south");
    reveal_strlit("s");
    reveal_strlit("east");
    reveal_strlit("e");
    reveal_strlit("west");
    reveal_strlit("w");
    reveal_strlit("help");
    reveal_strlit("look");
    reveal_strlit("inventory");
    reveal_strlit("invent");
    reveal_strlit("i");
    reveal_strlit("examine");
    reveal_strlit("x");
    reveal_strlit("get");
    reveal_strlit("take");
    reveal_strlit("drop");
    reveal_strlit("read");
    reveal_strlit("restart");
    reveal_strlit("undo");
    reveal_strlit("quit");
    reveal_strlit("exit");
    reveal_strlit("bye");
    reveal_strlit("list");
    reveal_strlit("dump");
    reveal_strlit("wash");
}

/// WorldQuery: A query interface, for use by scenario hooks
pub trait WorldQuery {
    /// The value of the turn clock.
    spec fn clock_spec(&self) -> Time;

    /// Can the flags of the tagged entity be asked for?
    spec fn can_ask_flags(&self, tag: Seq<char>) -> bool;

    /// Does the tagged entity have the flag?
    spec fn has_spec(&self, tag: Seq<char>, flag: FlagView) -> bool;

    /// Can the tagged entities be asked about?
    spec fn can_ask_owns(&self, owner: Seq<char>, thing: Seq<char>) -> bool;

    /// Does the tagged owner own the tagged thing?
    spec fn owns_spec(&self, owner: Seq<char>, thing: Seq<char>) -> bool;

    /// Gets the value of the turn clock
    fn clock(&self) -> (res: Time)
        ensures
            res == self.clock_spec(),
    ;

    /// Returns true if the given flag is set on the tagged entity, and false otherwise.
    fn has(&self, tag: &str, flag: Flag) -> (res: bool)
        requires
            self.can_ask_flags(tag@),
        ensures
            res == self.has_spec(tag@, flag@),
    ;

    /// Returns true if the tagged owner owns the tagged thing, and false otherwise
    fn owns(&self, owner: &str, thing: &str) -> (res: bool)
        requires
            self.can_ask_owns(owner@, thing@),
        ensures
            res == self.owns_spec(owner@, thing@),
    ;
}

impl WorldQuery for World {
    open spec fn clock_spec(&self) -> Time {
        self.clock
    }

    open spec fn can_ask_flags(&self, tag: Seq<char>) -> bool {
        self.wf() && self.tag_exists(tag) && self.has_flags_spec(self.tag_id(tag))
    }

    open spec fn has_spec(&self, tag: Seq<char>, flag: FlagView) -> bool {
        self.flags_of(self.tag_id(tag)).contains(flag)
    }

    open spec fn can_ask_owns(&self, owner: Seq<char>, thing: Seq<char>) -> bool {
        self.wf() && self.tag_exists(owner) && self.tag_exists(thing)
    }

    open spec fn owns_spec(&self, owner: Seq<char>, thing: Seq<char>) -> bool {
        let oid = self.tag_id(owner);
        self.has_inventory_spec(oid) && self.inv_of(oid).contains(self.tag_id(thing))
    }

    fn clock(&self) -> (res: Time) {
        self.clock
    }

    fn has(&self, tag: &str, flag: Flag) -> (res: bool) {
        let id = self.lookup(tag);
        self.has_flag(id, flag)
    }

    fn owns(&self, owner: &str, thing: &str) -> (res: bool) {
        let oid = self.lookup(owner);
        let tid = self.lookup(thing);
        match self.inventories.get(&oid) {
            Some(inv) => inv.has(tid),
            None => false,
        }
    }
}

impl Clone for World {
    fn clone(&self) -> (res: World)
        ensures
            self.same_as(&res),
    {
        let mut tags: Vec<TagComponent> = Vec::new();
        let mut i: usize = 0;
        while i < self.tags.len()
            invariant
                i <= self.tags@.len(),
                tags@ == self.tags@.take(i as int),
            decreases self.tags@.len() - i,
        {
            tags.push(self.tags[i].copy());
            i = i + 1;
            assert(tags@ =~= self.tags@.take(i as int));
        }
        assert(self.tags@.take(i as int) =~= self.tags@);
        let mut verbs: Vec<String> = Vec::new();
        let mut i: usize = 0;
        while i < self.verbs.len()
            invariant
                i <= self.verbs@.len(),
                verbs@ == self.verbs@.take(i as int),
            decreases self.verbs@.len() - i,
        {
            verbs.push(self.verbs[i].clone());
            i = i + 1;
            assert(verbs@ =~= self.verbs@.take(i as int));
        }
        assert(self.verbs@.take(i as int) =~= self.verbs@);
        let mut synonyms: Vec<(String, String)> = Vec::new();
        let mut i: usize = 0;
        while i < self.synonyms.len()
            invariant
                i <= self.synonyms@.len(),
                synonyms@ == self.synonyms@.take(i as int),
            decreases self.synonyms@.len() - i,
        {
            let pair = (self.synonyms[i].0.clone(), self.synonyms[i].1.clone());
            synonyms.push(pair);
            i = i + 1;
            assert(synonyms@ =~= self.synonyms@.take(i as int));
        }
        assert(self.synonyms@.take(i as int) =~= self.synonyms@);
        World {
            pid: self.pid,
            clock: self.clock,
            tags,
            flag_sets: self.flag_sets.clone(),
            inventories: self.inventories.clone(),
            locations: self.locations.clone(),
            proses: self.proses.clone(),
            players: self.players.clone(),
            rooms: self.rooms.clone(),
            things: self.things.clone(),
            rules: self.rules.clone(),
            verbs,
            synonyms,
        }
    }
}

} // verus!
