//! A scenario builder.
//!
//! It provides builder methods for each kind of entity that the framework supports,
//! with various aids.
use vstd::prelude::*;
use crate::entity::flag_set_component::FlagSetComponent;
use crate::entity::inventory_component::InventoryComponent;
use crate::entity::location_component::LocationComponent;
use crate::entity::player_component::PlayerComponent;
use crate::entity::prose_component::Prose;
use crate::entity::prose_component::ProseComponent;
use crate::entity::prose_component::ProseHook;
use crate::entity::room_component::RoomComponent;
use crate::entity::rule_component::RuleComponent;
use crate::entity::thing_component::ThingComponent;
use crate::phys;
use crate::types::Action;
use crate::types::Dir;
use crate::types::Event;
use crate::types::Flag;
use crate::types::FlagView;
use crate::types::ID;
use crate::types::LinkDest;
use crate::types::Predicate;
use crate::types::ProseType;
use crate::types::to_string;
use crate::world::World;
use crate::world::LIMBO;
use crate::world::standard_synonyms;
use crate::world::standard_verbs;
use crate::world::lemma_tag_id;
use crate::world::lemma_tags_kept;
use crate::world::lemma_tag_exists;
use crate::world::lemma_extended_by_trans;
use crate::world::lemma_wf_hooks_extends;
use crate::world::lemma_wf_tags_same;
use crate::world::lemma_pred_ok_extends;
use crate::world::lemma_prose_ok_extends;

verus! {

broadcast use vstd::std_specs::hash::group_hash_axioms;

/// # WorldBuilder
///
/// This struct is used to build game worlds.  Two entities are created
/// automatically: LIMBO, a place for things that are not (yet, or any longer) in the
/// game, and the PLAYER.
pub struct WorldBuilder {
    pub world: World,
}

/// The tag of LIMBO, the container for things which aren't anywhere else.
pub const LIMBO_TAG: &'static str = "LIMBO";

/// The tag of the player.
pub const PLAYER: &'static str = "PLAYER";

/// The world is unchanged but for the components of the given kinds, which only grow.
pub open spec fn only_grew(w0: &World, w1: &World) -> bool {
    &&& w1.pid == w0.pid
    &&& w1.clock == w0.clock
    &&& w1.tags@ == w0.tags@
    &&& w1.players@ == w0.players@
    &&& w1.rooms@ == w0.rooms@
    &&& w1.things@ == w0.things@
    &&& w1.rules@ == w0.rules@
    &&& w1.verbs@ == w0.verbs@
    &&& w1.synonyms@ == w0.synonyms@
    &&& w0.extended_by(w1)
    &&& w0.tags_kept(w1)
}

impl WorldBuilder {
    /// The world can be built on: it is well formed, LIMBO has an inventory, and the
    /// player exists.
    pub open spec fn ok(&self) -> bool {
        self.world.playable()
    }

    /// Creates a new world with LIMBO and a player with default settings: the player,
    /// "Yourself", is scenery with an empty inventory, located in LIMBO.
    pub fn new() -> (res: Self)
        ensures
            res.ok(),
            res.world.n() == 2,
            res.world.tag_of(LIMBO) == LIMBO_TAG@,
            res.world.tag_of(1) == PLAYER@,
            res.world.tag_exists(PLAYER@),
            res.world.tag_id(PLAYER@) == 1,
            res.world.pid == 1,
            res.world.clock == 0,
            res.world.inventories@.dom() == set![LIMBO, 1usize],
            res.world.inv_of(LIMBO) == Seq::<ID>::empty(),
            res.world.inv_of(1) == Seq::<ID>::empty(),
            res.world.locations@.dom() == set![1usize],
            res.world.loc_of(1) == LIMBO,
            res.world.flag_sets@.dom() == set![1usize],
            res.world.flags_of(1) == set![FlagView::Scenery],
            res.world.players@.dom() == set![1usize],
            res.world.things@.dom() == set![1usize],
            res.world.things@[1].name@ == "Yourself"@,
            res.world.things@[1].noun@ == "self"@,
            res.world.rooms@ == Map::<ID, RoomComponent>::empty(),
            res.world.proses@ == Map::<ID, ProseComponent>::empty(),
            res.world.rules@ == Map::<ID, RuleComponent>::empty(),
            res.world.verbs_view() == standard_verbs(),
            res.world.synonyms_view() == standard_synonyms(),
    {
        // FIRST, create the new world
        let mut this = WorldBuilder { world: World::new() };

        // NEXT, create LIMBO, the container for things which aren't anywhere else.
        let limbo = this.world.allocate(LIMBO_TAG);
        this.add_inventory(limbo);

        // NEXT, create the player basics.  The scenario can customize the player
        // as needed.
        proof {
            reveal_strlit("LIMBO");
            reveal_strlit("PLAYER");
            assert(LIMBO_TAG@.len() == 5);
            assert(PLAYER@.len() == 6);
            assert(this.world.tag_of(LIMBO) != PLAYER@);
        }
        let pid = this.world.allocate(PLAYER);
        assert(this.world.tag_of(LIMBO) == LIMBO_TAG@);
        let ghost w0 = this.world;
        this.world.pid = pid;
        proof {
            lemma_wf_tags_same(&w0, &this.world);
            lemma_wf_hooks_extends(&w0, &this.world);
        }
        this.put_player(pid);
        this.put_thing(pid, ThingComponent::new("Yourself", "self"));
        this.add_inventory(pid);
        this.add_location(pid);
        this.add_flag(pid, Flag::Scenery);
        proof {
            let w = &this.world;
            assert(w.inventories@.dom() =~= set![LIMBO, 1usize]);
            assert(w.locations@.dom() =~= set![1usize]);
            assert(w.flag_sets@.dom() =~= set![1usize]);
            assert(w.players@.dom() =~= set![1usize]);
            assert(w.things@.dom() =~= set![1usize]);
            assert(w.flags_of(1) =~= set![FlagView::Scenery]);
            lemma_tag_id(w, 1);
        }
        this
    }

    //-------------------------------------------------------------------------------------------
    // Component setters

    /// Gives the entity the room component.
    fn put_room(&mut self, id: ID, rc: RoomComponent)
        requires
            old(self).world.wf(),
            id < old(self).world.n(),
        ensures
            old(self).world.tags_kept(&final(self).world),
            old(self).world.extended_by(&final(self).world),
            final(self).world.wf(),
            final(self).world.rooms@ == old(self).world.rooms@.insert(id, rc),
            final(self).world == (World { rooms: final(self).world.rooms, ..old(self).world }),
    {
        self.world.rooms.insert(id, rc);
        proof {
            lemma_wf_tags_same(&old(self).world, &self.world);
            lemma_wf_hooks_extends(&old(self).world, &self.world);
        }
    }

    /// Gives the entity the thing component.
    fn put_thing(&mut self, id: ID, tc: ThingComponent)
        requires
            old(self).world.wf(),
            id < old(self).world.n(),
        ensures
            old(self).world.tags_kept(&final(self).world),
            old(self).world.extended_by(&final(self).world),
            final(self).world.wf(),
            final(self).world.things@ == old(self).world.things@.insert(id, tc),
            final(self).world == (World { things: final(self).world.things, ..old(self).world }),
    {
        self.world.things.insert(id, tc);
        proof {
            lemma_wf_tags_same(&old(self).world, &self.world);
            lemma_wf_hooks_extends(&old(self).world, &self.world);
        }
    }

    /// Gives the entity the player component.
    fn put_player(&mut self, id: ID)
        requires
            old(self).world.wf(),
            id < old(self).world.n(),
        ensures
            old(self).world.tags_kept(&final(self).world),
            old(self).world.extended_by(&final(self).world),
            final(self).world.wf(),
            final(self).world.players@ == old(self).world.players@.insert(id, PlayerComponent {}),
            final(self).world == (World { players: final(self).world.players, ..old(self).world }),
    {
        self.world.players.insert(id, PlayerComponent::new());
        proof {
            lemma_wf_tags_same(&old(self).world, &self.world);
            lemma_wf_hooks_extends(&old(self).world, &self.world);
        }
    }

    /// Gives the entity the rule component.  The rule's predicate must be one that can
    /// be evaluated, and its actions ones that can be executed.
    fn put_rule(&mut self, id: ID, rc: RuleComponent)
        requires
            old(self).world.wf(),
            id < old(self).world.n(),
            old(self).world.has_flags_spec(id),
            old(self).world.pred_ok(rc.predicate),
            old(self).world.actions_ok(rc.script.actions@),
        ensures
            old(self).world.tags_kept(&final(self).world),
            old(self).world.extended_by(&final(self).world),
            final(self).world.wf(),
            final(self).world.rules@ == old(self).world.rules@.insert(id, rc),
            final(self).world == (World { rules: final(self).world.rules, ..old(self).world }),
    {
        self.world.rules.insert(id, rc);
        proof {
            let w0 = &old(self).world;
            let w = &self.world;
            lemma_wf_tags_same(w0, w);
            assert forall|rid: ID| #[trigger] w.rules@.contains_key(rid) implies w.pred_ok(
                w.rules@[rid].predicate,
            ) && w.actions_ok(w.rules@[rid].script.actions@) && w.flag_sets@.contains_key(rid) by {
                if rid == id {
                    lemma_pred_ok_extends(w0, w, rc.predicate);
                    assert forall|i: int| 0 <= i < rc.script.actions@.len() implies w.action_ok(
                        #[trigger] rc.script.actions@[i],
                    ) by {
                        assert(w0.action_ok(rc.script.actions@[i]));
                    }
                } else {
                    lemma_pred_ok_extends(w0, w, w0.rules@[rid].predicate);
                    let s = w0.rules@[rid].script.actions@;
                    assert forall|i: int| 0 <= i < s.len() implies w.action_ok(#[trigger] s[i]) by {
                        assert(w0.action_ok(s[i]));
                    }
                }
            }
            assert forall|x: ID, i: int| #[trigger]
                w.proses@.contains_key(x) && 0 <= i < w.proses@[x].types@.len() implies w.prose_ok(
                #[trigger] w.proses@[x].types@[i].1,
            ) by {
                assert(w0.prose_ok(w0.proses@[x].types@[i].1));
                lemma_prose_ok_extends(w0, w, w0.proses@[x].types@[i].1);
            }
        }
    }

    //-------------------------------------------------------------------------------------------
    // Utility methods

    /// Adds an inventory to an entity if it doesn't have one.
    fn add_inventory(&mut self, id: ID)
        requires
            old(self).world.wf(),
            id < old(self).world.n(),
        ensures
            final(self).world.wf(),
            only_grew(&old(self).world, &final(self).world),
            final(self).world.has_inventory_spec(id),
            final(self).world.flag_sets@ == old(self).world.flag_sets@,
            final(self).world.locations@ == old(self).world.locations@,
            final(self).world.proses@ == old(self).world.proses@,
            old(self).world.has_inventory_spec(id) ==> final(self).world.inventories@ == old(
                self,
            ).world.inventories@,
            !old(self).world.has_inventory_spec(id) ==> final(self).world.inventories@ == old(
                self,
            ).world.inventories@.insert(id, final(self).world.inventories@[id])
                && final(self).world.inv_of(id) == Seq::<ID>::empty(),
    {
        if self.world.inventories.get(&id).is_none() {
            self.world.inventories.insert(id, InventoryComponent::new());
            proof {
                let w0 = &old(self).world;
                let w = &self.world;
                assert(w.inventories@[id]@ =~= Seq::<ID>::empty());
                lemma_wf_tags_same(w0, w);
                lemma_wf_hooks_extends(w0, w);
                assert forall|o: ID, x: ID|
                    #![trigger w.inventories@[o]@.contains(x)]
                    w.inventories@.contains_key(o) && w.inventories@[o]@.contains(x) implies w.locations@.contains_key(x) && w.locations@[x].id == o by {
                    if o != id {
                        assert(w0.inventories@[o]@.contains(x));
                    }
                }
            }
        }
    }

    /// Adds a location to an entity if it doesn't have one.  The entity will initially
    /// be in LIMBO.
    fn add_location(&mut self, id: ID)
        requires
            old(self).world.wf(),
            id < old(self).world.n(),
            old(self).world.things@.contains_key(id),
            old(self).world.has_inventory_spec(LIMBO),
        ensures
            final(self).world.wf(),
            only_grew(&old(self).world, &final(self).world),
            final(self).world.has_location_spec(id),
            final(self).world.flag_sets@ == old(self).world.flag_sets@,
            final(self).world.inventories@ == old(self).world.inventories@,
            final(self).world.proses@ == old(self).world.proses@,
            old(self).world.has_location_spec(id) ==> final(self).world.locations@ == old(
                self,
            ).world.locations@,
            !old(self).world.has_location_spec(id) ==> final(self).world.locations@ == old(
                self,
            ).world.locations@.insert(id, LocationComponent { id: LIMBO }),
    {
        if self.world.locations.get(&id).is_none() {
            self.world.locations.insert(id, LocationComponent::new());
            proof {
                let w0 = &old(self).world;
                let w = &self.world;
                lemma_wf_tags_same(w0, w);
                lemma_wf_hooks_extends(w0, w);
                assert forall|o: ID, x: ID|
                    #![trigger w.inventories@[o]@.contains(x)]
                    w.inventories@.contains_key(o) && w.inventories@[o]@.contains(x) implies w.locations@.contains_key(x) && w.locations@[x].id == o by {
                    assert(w0.inventories@[o]@.contains(x));
                }
            }
        }
    }

    /// Adds a flag set to an entity if it doesn't have one.
    fn add_flag_set(&mut self, id: ID)
        requires
            old(self).world.wf(),
            id < old(self).world.n(),
        ensures
            final(self).world.wf(),
            only_grew(&old(self).world, &final(self).world),
            final(self).world.has_flags_spec(id),
            final(self).world.inventories@ == old(self).world.inventories@,
            final(self).world.locations@ == old(self).world.locations@,
            final(self).world.proses@ == old(self).world.proses@,
            old(self).world.has_flags_spec(id) ==> final(self).world.flag_sets@ == old(
                self,
            ).world.flag_sets@,
            !old(self).world.has_flags_spec(id) ==> final(self).world.flag_sets@ == old(
                self,
            ).world.flag_sets@.insert(id, final(self).world.flag_sets@[id])
                && final(self).world.flags_of(id) == Set::<FlagView>::empty(),
            forall|x: ID| x != id ==> #[trigger] final(self).world.flag_sets@.contains_key(x) == old(self).world.flag_sets@.contains_key(x),
    {
        if self.world.flag_sets.get(&id).is_none() {
            self.world.flag_sets.insert(id, FlagSetComponent::new());
            proof {
                lemma_wf_tags_same(&old(self).world, &self.world);
                lemma_wf_hooks_extends(&old(self).world, &self.world);
            }
        }
    }

    /// Adds a specific flag to the entity, creating the flag set component if
    /// necessary.
    fn add_flag(&mut self, id: ID, flag: Flag)
        requires
            old(self).world.wf(),
            id < old(self).world.n(),
        ensures
            final(self).world.wf(),
            only_grew(&old(self).world, &final(self).world),
            final(self).world.has_flags_spec(id),
            final(self).world.inventories@ == old(self).world.inventories@,
            final(self).world.locations@ == old(self).world.locations@,
            final(self).world.proses@ == old(self).world.proses@,
            final(self).world.flags_of(id).contains(flag@),
            final(self).world.flags_of(id) == if old(self).world.has_flags_spec(id) {
                old(self).world.flags_of(id)
            } else {
                Set::<FlagView>::empty()
            }.insert(flag@),
            forall|x: ID| x != id ==> #[trigger] final(self).world.flag_sets@.contains_key(x) == old(self).world.flag_sets@.contains_key(x),
            forall|x: ID| x != id && #[trigger] old(self).world.flag_sets@.contains_key(x) ==> final(self).world.flags_of(x) == old(self).world.flags_of(x),
            final(self).world.flag_sets@.dom() == old(self).world.flag_sets@.dom().insert(id),
    {
        self.add_flag_set(id);
        let ghost w1 = self.world;
        self.world.set(id, flag);
        proof {
            lemma_wf_tags_same(&w1, &self.world);
        }
    }

    /// Adds a prose component to an entity if it doesn't have one.
    fn add_prose_component(&mut self, id: ID)
        requires
            old(self).world.wf(),
            id < old(self).world.n(),
        ensures
            final(self).world.wf(),
            only_grew(&old(self).world, &final(self).world),
            final(self).world.proses@.contains_key(id),
            final(self).world.flag_sets@ == old(self).world.flag_sets@,
            final(self).world.inventories@ == old(self).world.inventories@,
            final(self).world.locations@ == old(self).world.locations@,
            forall|x: ID| #[trigger] old(self).world.proses@.contains_key(x) ==> final(self).world.proses@[x] == old(self).world.proses@[x],
            forall|x: ID| x != id ==> #[trigger] final(self).world.proses@.contains_key(x) == old(self).world.proses@.contains_key(x),
    {
        if self.world.proses.get(&id).is_none() {
            self.world.proses.insert(id, ProseComponent::new());
            proof {
                let w0 = &old(self).world;
                let w = &self.world;
                lemma_wf_tags_same(w0, w);
                assert(w.proses@[id].types@.len() == 0);
                assert forall|x: ID, i: int| #[trigger]
                    w.proses@.contains_key(x) && 0 <= i < w.proses@[x].types@.len() implies w.prose_ok(
                    #[trigger] w.proses@[x].types@[i].1,
                ) by {
                    assert(x != id);
                    assert(w.proses@[x] == w0.proses@[x]);
                    assert(w0.prose_ok(w0.proses@[x].types@[i].1));
                    lemma_prose_ok_extends(w0, w, w0.proses@[x].types@[i].1);
                }
                assert forall|rid: ID| #[trigger] w.rules@.contains_key(rid) implies w.pred_ok(
                    w.rules@[rid].predicate,
                ) && w.actions_ok(w.rules@[rid].script.actions@) && w.flag_sets@.contains_key(rid) by {
                    lemma_pred_ok_extends(w0, w, w0.rules@[rid].predicate);
                    let s = w0.rules@[rid].script.actions@;
                    assert forall|i: int| 0 <= i < s.len() implies w.action_ok(#[trigger] s[i]) by {
                        assert(w0.action_ok(s[i]));
                    }
                }
            }
        }
    }

    /// Adds a prose value of a given type to an entity's prose component, creating
    /// the component if necessary.
    fn add_prose_value(&mut self, id: ID, prose_type: ProseType, prose: Prose)
        requires
            old(self).world.wf(),
            id < old(self).world.n(),
            old(self).world.prose_ok(prose),
        ensures
            final(self).world.wf(),
            only_grew(&old(self).world, &final(self).world),
            final(self).world.flag_sets@ == old(self).world.flag_sets@,
            final(self).world.inventories@ == old(self).world.inventories@,
            final(self).world.locations@ == old(self).world.locations@,
            final(self).world.proses@.contains_key(id),
            final(self).world.proses@[id].prose(prose_type) == Some(prose),
            forall|x: ID| x != id ==> #[trigger] final(self).world.proses@.contains_key(x) == old(self).world.proses@.contains_key(x),
            forall|x: ID| x != id && #[trigger] old(self).world.proses@.contains_key(x) ==> final(self).world.proses@[x] == old(self).world.proses@[x],
            forall|t: ProseType| t != prose_type && old(self).world.proses@.contains_key(id) ==> #[trigger] final(self).world.proses@[id].prose(t) == old(self).world.proses@[id].prose(t),
    {
        self.add_prose_component(id);
        let ghost w1 = self.world;
        let mut pc = self.world.proses.remove(&id).unwrap();
        pc.insert(prose_type, prose);
        self.world.proses.insert(id, pc);
        proof {
            let w0 = &old(self).world;
            let w = &self.world;
            lemma_wf_tags_same(&w1, w);
            lemma_prose_ok_extends(w0, &w1, prose);
            assert forall|x: ID, i: int| #[trigger]
                w.proses@.contains_key(x) && 0 <= i < w.proses@[x].types@.len() implies w.prose_ok(
                #[trigger] w.proses@[x].types@[i].1,
            ) by {
                if x != id {
                    assert(w.proses@[x] == w1.proses@[x]);
                    assert(w1.prose_ok(w1.proses@[x].types@[i].1));
                    lemma_prose_ok_extends(&w1, w, w1.proses@[x].types@[i].1);
                } else if i < w1.proses@[id].types@.len() {
                    assert(w.proses@[id].types@[i] == w1.proses@[id].types@[i]);
                    assert(w1.prose_ok(w1.proses@[x].types@[i].1));
                    lemma_prose_ok_extends(&w1, w, w1.proses@[x].types@[i].1);
                } else {
                    assert(w.proses@[id].types@[i].1 == prose);
                    lemma_prose_ok_extends(&w1, w, prose);
                }
            }
            assert forall|rid: ID| #[trigger] w.rules@.contains_key(rid) implies w.pred_ok(
                w.rules@[rid].predicate,
            ) && w.actions_ok(w.rules@[rid].script.actions@) && w.flag_sets@.contains_key(rid) by {
                lemma_pred_ok_extends(&w1, w, w1.rules@[rid].predicate);
                let s = w1.rules@[rid].script.actions@;
                assert forall|i: int| 0 <= i < s.len() implies w.action_ok(#[trigger] s[i]) by {
                    assert(w1.action_ok(s[i]));
                }
            }
        }
    }

    /// Adds a prose string of a given type to an entity's prose component.
    fn add_prose(&mut self, id: ID, prose_type: ProseType, text: &str)
        requires
            old(self).world.wf(),
            id < old(self).world.n(),
        ensures
            final(self).world.wf(),
            only_grew(&old(self).world, &final(self).world),
            final(self).world.flag_sets@ == old(self).world.flag_sets@,
            final(self).world.inventories@ == old(self).world.inventories@,
            final(self).world.locations@ == old(self).world.locations@,
            final(self).world.proses@.contains_key(id),
            final(self).world.proses@[id].prose(prose_type) matches Some(Prose::Prose(s)) && s@
                == text@,
            forall|x: ID| x != id ==> #[trigger] final(self).world.proses@.contains_key(x) == old(self).world.proses@.contains_key(x),
            forall|x: ID| x != id && #[trigger] old(self).world.proses@.contains_key(x) ==> final(self).world.proses@[x] == old(self).world.proses@[x],
            forall|t: ProseType| t != prose_type && old(self).world.proses@.contains_key(id) ==> #[trigger] final(self).world.proses@[id].prose(t) == old(self).world.proses@[id].prose(t),
    {
        self.add_prose_value(id, prose_type, Prose::Prose(to_string(text)));
    }

    /// Adds a prose hook of a given type to an entity's prose component.
    fn add_prose_hook(&mut self, id: ID, prose_type: ProseType, hook: ProseHook)
        requires
            old(self).world.wf(),
            id < old(self).world.n(),
            old(self).world.prose_ok(Prose::Hook(hook)),
        ensures
            final(self).world.wf(),
            only_grew(&old(self).world, &final(self).world),
            final(self).world.flag_sets@ == old(self).world.flag_sets@,
            final(self).world.inventories@ == old(self).world.inventories@,
            final(self).world.locations@ == old(self).world.locations@,
            final(self).world.proses@.contains_key(id),
            final(self).world.proses@[id].prose(prose_type) == Some(Prose::Hook(hook)),
            forall|x: ID| x != id ==> #[trigger] final(self).world.proses@.contains_key(x) == old(self).world.proses@.contains_key(x),
            forall|x: ID| x != id && #[trigger] old(self).world.proses@.contains_key(x) ==> final(self).world.proses@[x] == old(self).world.proses@[x],
            forall|t: ProseType| t != prose_type && old(self).world.proses@.contains_key(id) ==> #[trigger] final(self).world.proses@[id].prose(t) == old(self).world.proses@[id].prose(t),
    {
        self.add_prose_value(id, prose_type, Prose::Hook(hook));
    }
}

/// The world keeps its player, clock and verbs, and every entity and component kind
/// that it had.
pub open spec fn kept(w0: &World, w1: &World) -> bool {
    &&& w1.pid == w0.pid
    &&& w1.clock == w0.clock
    &&& w1.verbs@ == w0.verbs@
    &&& w1.synonyms@ == w0.synonyms@
    &&& w0.extended_by(w1)
    &&& w0.tags_kept(w1)
}

/// Every entity but the thing stays where it was, and stays in the inventories it
/// was in.
pub open spec fn others_stay(w0: &World, w1: &World, thing: ID) -> bool {
    &&& forall|x: ID|
        x != thing && #[trigger] w0.locations@.contains_key(x) ==> w1.locations@.contains_key(x)
            && w1.locations@[x] == w0.locations@[x]
    &&& forall|o: ID, x: ID|
        #![trigger w1.inv_of(o).contains(x)]
        #![trigger w0.inv_of(o).contains(x)]
        x != thing && w0.inventories@.contains_key(o) ==> (w1.inv_of(o).contains(x)
            <==> w0.inv_of(o).contains(x))
}

/// The thing is in the inventory of the entity with the tag, and located there.
pub open spec fn placed(w: &World, thing: ID, loc_tag: Seq<char>) -> bool {
    &&& w.tag_exists(loc_tag)
    &&& w.has_inventory_spec(w.tag_id(loc_tag))
    &&& w.has_location_spec(thing)
    &&& w.loc_of(thing) == w.tag_id(loc_tag)
    &&& w.inv_of(w.tag_id(loc_tag)).contains(thing)
}

impl WorldBuilder {
    /// Sets the location of the thing to the entity with the given tag, creating
    /// the containing entity if need be.
    fn set_location(&mut self, thing: ID, loc_tag: &str)
        requires
            old(self).ok(),
            thing < old(self).world.n(),
            old(self).world.things@.contains_key(thing),
        ensures
            final(self).ok(),
            kept(&old(self).world, &final(self).world),
            placed(&final(self).world, thing, loc_tag@),
            others_stay(&old(self).world, &final(self).world, thing),
            old(self).world.has_location_spec(thing) ==> final(self).world.locations@.dom()
                == old(self).world.locations@.dom(),
            final(self).world.inventories@.dom() == old(self).world.inventories@.dom().insert(final(self).world.tag_id(loc_tag@)),
            final(self).world.flag_sets@ == old(self).world.flag_sets@,
            final(self).world.proses@ == old(self).world.proses@,
            final(self).world.players@ == old(self).world.players@,
            final(self).world.rooms@ == old(self).world.rooms@,
            final(self).world.things@ == old(self).world.things@,
            final(self).world.rules@ == old(self).world.rules@,
    {
        // FIRST, make sure that the location exists and has an inventory.
        let loc = self.world.allocate(loc_tag);
        let ghost w1 = self.world;
        self.add_inventory(loc);
        let ghost w2 = self.world;

        // NEXT, make sure that the thing has a location.
        self.add_location(thing);
        let ghost w3 = self.world;

        // NEXT, put the thing in the location.
        phys::put_in(&mut self.world, thing, loc);
        proof {
            let w = &self.world;
            let w0 = &old(self).world;
            assert forall|o: ID, x: ID|
                #![trigger w.inv_of(o).contains(x)]
                #![trigger w0.inv_of(o).contains(x)]
                x != thing && w0.inventories@.contains_key(o) implies (w.inv_of(o).contains(x)
                <==> w0.inv_of(o).contains(x)) by {
                assert(w3.inventories@[o] == w0.inventories@[o]);
                assert(w.inv_of(o).to_set().contains(x) == w3.inv_of(o).to_set().contains(x));
            }
            lemma_tags_kept(&old(self).world, w);
            lemma_tag_id(w, loc);
            assert(w.inv_of(loc).to_set().contains(thing));
        }
    }

    /// Sets a link of the room.
    fn add_link(&mut self, id: ID, dir: Dir, dest: LinkDest)
        requires
            old(self).world.wf(),
            old(self).world.rooms@.contains_key(id),
        ensures
            old(self).world.tags_kept(&final(self).world),
            old(self).world.extended_by(&final(self).world),
            final(self).world.wf(),
            final(self).world == (World { rooms: final(self).world.rooms, ..old(self).world }),
            final(self).world.rooms@ == old(self).world.rooms@.insert(
                id,
                final(self).world.rooms@[id],
            ),
            final(self).world.rooms@[id].name@ == old(self).world.rooms@[id].name@,
            final(self).world.rooms@[id].links@ == old(self).world.rooms@[id].links@.push(
                (dir, dest),
            ),
            forall|d: Dir| #[trigger] final(self).world.rooms@[id].link(d) == if d == dir {
                Some(dest)
            } else {
                old(self).world.rooms@[id].link(d)
            },
    {
        let old_rc = self.world.rooms.get(&id).unwrap();
        let mut rc = RoomComponent { name: old_rc.name.clone(), links: Vec::new() };
        let mut i: usize = 0;
        while i < old_rc.links.len()
            invariant
                i <= old_rc.links@.len(),
                rc.name@ == old_rc.name@,
                rc.links@ == old_rc.links@.take(i as int),
            decreases old_rc.links@.len() - i,
        {
            let (d, l) = &old_rc.links[i];
            rc.links.push((*d, l.copy()));
            i = i + 1;
            assert(rc.links@ =~= old_rc.links@.take(i as int));
        }
        assert(old_rc.links@.take(i as int) =~= old_rc.links@);
        rc.set_link(dir, dest);
        self.put_room(id, rc);
    }
}

impl WorldBuilder {
    /// Configures the player.
    pub fn player(&mut self) -> (res: PlayerBuilder<'_>)
        requires
            old(self).ok(),
        ensures
            *res.wb == *old(self),
            *final(self) == *final(res.wb),
    {
        PlayerBuilder { wb: self }
    }

    /// Creates or configures a room.  A room has a name, an inventory and flags;
    /// configuring an existing room gives it the new name and no links.
    pub fn room(&mut self, tag: &str, name: &str) -> (res: RoomBuilder<'_>)
        requires
            old(self).ok(),
        ensures
            res.wb.ok(),
            *final(self) == *final(res.wb),
            kept(&old(self).world, &res.wb.world),
            res.tag@ == tag@,
            res.wb.world.tag_exists(tag@),
            res.id == res.wb.world.tag_id(tag@),
            res.wb.world.is_room_spec(res.id),
            res.wb.world.rooms@ == old(self).world.rooms@.insert(res.id, res.wb.world.rooms@[res.id]),
            res.wb.world.rooms@[res.id].name@ == name@,
            res.wb.world.rooms@[res.id].links@ == Seq::<(Dir, LinkDest)>::empty(),
            res.wb.world.locations@ == old(self).world.locations@,
            res.wb.world.proses@ == old(self).world.proses@,
            res.wb.world.players@ == old(self).world.players@,
            res.wb.world.things@ == old(self).world.things@,
            res.wb.world.rules@ == old(self).world.rules@,
            res.wb.world.inventories@.dom() == old(self).world.inventories@.dom().insert(res.id),
            forall|o: ID| #[trigger] old(self).world.inventories@.contains_key(o) ==> res.wb.world.inventories@[o] == old(self).world.inventories@[o],
            !old(self).world.has_inventory_spec(res.id) ==> res.wb.world.inv_of(res.id) == Seq::<ID>::empty(),
            res.wb.world.flag_sets@.dom() == old(self).world.flag_sets@.dom().insert(res.id),
            forall|x: ID| #[trigger] old(self).world.flag_sets@.contains_key(x) ==> res.wb.world.flag_sets@[x] == old(self).world.flag_sets@[x],
            !old(self).world.has_flags_spec(res.id) ==> res.wb.world.flags_of(res.id) == Set::<FlagView>::empty(),
    {
        let id = self.world.allocate(tag);
        let ghost w1 = self.world;
        self.put_room(id, RoomComponent::new(name));
        let ghost w2 = self.world;
        self.add_inventory(id);
        let ghost w3 = self.world;
        self.add_flag_set(id);
        proof {
            lemma_extended_by_trans(&old(self).world, &w1, &w2);
            lemma_extended_by_trans(&old(self).world, &w2, &w3);
            lemma_extended_by_trans(&old(self).world, &w3, &self.world);
            lemma_tags_kept(&old(self).world, &self.world);
            lemma_tag_id(&self.world, id);
        }

        RoomBuilder { wb: self, tag: to_string(tag), id }
    }

    /// Creates or configures a thing.  A thing has a name, a noun, a location (at
    /// first, LIMBO) and flags.
    pub fn thing(&mut self, tag: &str, name: &str, noun: &str) -> (res: ThingBuilder<'_>)
        requires
            old(self).ok(),
        ensures
            res.wb.ok(),
            *final(self) == *final(res.wb),
            kept(&old(self).world, &res.wb.world),
            res.tag@ == tag@,
            res.wb.world.tag_exists(tag@),
            res.id == res.wb.world.tag_id(tag@),
            res.wb.world.is_thing_spec(res.id),
            res.wb.world.things@ == old(self).world.things@.insert(res.id, res.wb.world.things@[res.id]),
            res.wb.world.things@[res.id].name@ == name@,
            res.wb.world.things@[res.id].noun@ == noun@,
            !old(self).world.has_location_spec(res.id) ==> res.wb.world.loc_of(res.id) == LIMBO,
            res.wb.world.inventories@ == old(self).world.inventories@,
            res.wb.world.proses@ == old(self).world.proses@,
            res.wb.world.players@ == old(self).world.players@,
            res.wb.world.rooms@ == old(self).world.rooms@,
            res.wb.world.rules@ == old(self).world.rules@,
            res.wb.world.locations@.dom() == old(self).world.locations@.dom().insert(res.id),
            forall|x: ID| #[trigger] old(self).world.locations@.contains_key(x) ==> res.wb.world.locations@[x] == old(self).world.locations@[x],
            res.wb.world.flag_sets@.dom() == old(self).world.flag_sets@.dom().insert(res.id),
            forall|x: ID| #[trigger] old(self).world.flag_sets@.contains_key(x) ==> res.wb.world.flag_sets@[x] == old(self).world.flag_sets@[x],
            !old(self).world.has_flags_spec(res.id) ==> res.wb.world.flags_of(res.id) == Set::<FlagView>::empty(),
    {
        let id = self.world.allocate(tag);
        let ghost w1 = self.world;
        self.put_thing(id, ThingComponent::new(name, noun));
        let ghost w2 = self.world;
        self.add_location(id);
        let ghost w3 = self.world;
        self.add_flag_set(id);
        proof {
            lemma_extended_by_trans(&old(self).world, &w1, &w2);
            lemma_extended_by_trans(&old(self).world, &w2, &w3);
            lemma_extended_by_trans(&old(self).world, &w3, &self.world);
            lemma_tags_kept(&old(self).world, &self.world);
            lemma_tag_id(&self.world, id);
        }

        ThingBuilder { wb: self, tag: to_string(tag), id }
    }

    /// Creates or configures a feature: a thing that is part of the scenery.
    pub fn feature(&mut self, tag: &str, name: &str, noun: &str) -> (res: ThingBuilder<'_>)
        requires
            old(self).ok(),
        ensures
            res.wb.ok(),
            *final(self) == *final(res.wb),
            kept(&old(self).world, &res.wb.world),
            res.tag@ == tag@,
            res.wb.world.tag_exists(tag@),
            res.id == res.wb.world.tag_id(tag@),
            res.wb.world.is_thing_spec(res.id),
            res.wb.world.is_scenery(res.id),
            res.wb.world.things@ == old(self).world.things@.insert(res.id, res.wb.world.things@[res.id]),
            res.wb.world.things@[res.id].name@ == name@,
            res.wb.world.things@[res.id].noun@ == noun@,
            !old(self).world.has_location_spec(res.id) ==> res.wb.world.loc_of(res.id) == LIMBO,
            res.wb.world.inventories@ == old(self).world.inventories@,
            res.wb.world.proses@ == old(self).world.proses@,
            res.wb.world.players@ == old(self).world.players@,
            res.wb.world.rooms@ == old(self).world.rooms@,
            res.wb.world.rules@ == old(self).world.rules@,
            res.wb.world.locations@.dom() == old(self).world.locations@.dom().insert(res.id),
            forall|x: ID| #[trigger] old(self).world.locations@.contains_key(x) ==> res.wb.world.locations@[x] == old(self).world.locations@[x],
            res.wb.world.flag_sets@.dom() == old(self).world.flag_sets@.dom().insert(res.id),
            forall|x: ID| x != res.id && #[trigger] old(self).world.flag_sets@.contains_key(x) ==> res.wb.world.flags_of(x) == old(self).world.flags_of(x),
            res.wb.world.flags_of(res.id) == if old(self).world.has_flags_spec(res.id) {
                old(self).world.flags_of(res.id)
            } else {
                Set::<FlagView>::empty()
            }.insert(FlagView::Scenery),
    {
        let id = self.world.allocate(tag);
        let ghost w1 = self.world;
        self.put_thing(id, ThingComponent::new(name, noun));
        let ghost w2 = self.world;
        self.add_location(id);
        let ghost w3 = self.world;
        self.add_flag(id, Flag::Scenery);
        proof {
            lemma_extended_by_trans(&old(self).world, &w1, &w2);
            lemma_extended_by_trans(&old(self).world, &w2, &w3);
            lemma_extended_by_trans(&old(self).world, &w3, &self.world);
            lemma_tags_kept(&old(self).world, &self.world);
            lemma_tag_id(&self.world, id);
        }

        ThingBuilder { wb: self, tag: to_string(tag), id }
    }

    /// Creates and configures a rule.  At first it fires every turn, and does nothing.
    pub fn rule(&mut self, tag: &str) -> (res: RuleBuilder<'_>)
        requires
            old(self).ok(),
        ensures
            res.wb.ok(),
            *final(self) == *final(res.wb),
            kept(&old(self).world, &res.wb.world),
            res.tag@ == tag@,
            res.wb.world.tag_exists(tag@),
            res.id == res.wb.world.tag_id(tag@),
            res.wb.world.rules@ == old(self).world.rules@.insert(res.id, res.wb.world.rules@[res.id]),
            res.wb.world.rules@[res.id].event == Event::Turn,
            !res.wb.world.rules@[res.id].is_guard,
            res.wb.world.rules@[res.id].predicate == Predicate::Always,
            res.wb.world.rules@[res.id].script.actions@ == Seq::<Action>::empty(),
            res.wb.world.has_flags_spec(res.id),
            res.wb.world.inventories@ == old(self).world.inventories@,
            res.wb.world.locations@ == old(self).world.locations@,
            res.wb.world.proses@ == old(self).world.proses@,
            res.wb.world.players@ == old(self).world.players@,
            res.wb.world.rooms@ == old(self).world.rooms@,
            res.wb.world.things@ == old(self).world.things@,
            res.wb.world.flag_sets@.dom() == old(self).world.flag_sets@.dom().insert(res.id),
            forall|x: ID| #[trigger] old(self).world.flag_sets@.contains_key(x) ==> res.wb.world.flag_sets@[x] == old(self).world.flag_sets@[x],
            !old(self).world.has_flags_spec(res.id) ==> res.wb.world.flags_of(res.id) == Set::<FlagView>::empty(),
    {
        let id = self.world.allocate(tag);
        let ghost w1 = self.world;
        self.add_flag_set(id);
        let ghost w2 = self.world;
        self.put_rule(id, RuleComponent::new());
        proof {
            lemma_extended_by_trans(&old(self).world, &w1, &w2);
            lemma_extended_by_trans(&old(self).world, &w2, &self.world);
            lemma_tags_kept(&old(self).world, &self.world);
            lemma_tag_id(&self.world, id);
        }

        RuleBuilder { wb: self, tag: to_string(tag), id }
    }

    /// Creates and configures a guard: a rule that decides whether the event may
    /// happen.  At first it allows the event, and does nothing.
    pub fn allow(&mut self, tag: &str, event: Event) -> (res: RuleBuilder<'_>)
        requires
            old(self).ok(),
        ensures
            res.wb.ok(),
            *final(self) == *final(res.wb),
            kept(&old(self).world, &res.wb.world),
            res.tag@ == tag@,
            res.wb.world.tag_exists(tag@),
            res.id == res.wb.world.tag_id(tag@),
            res.wb.world.rules@ == old(self).world.rules@.insert(res.id, res.wb.world.rules@[res.id]),
            res.wb.world.rules@[res.id].event == event,
            res.wb.world.rules@[res.id].is_guard,
            res.wb.world.rules@[res.id].predicate == Predicate::Always,
            res.wb.world.rules@[res.id].script.actions@ == Seq::<Action>::empty(),
            res.wb.world.has_flags_spec(res.id),
            res.wb.world.inventories@ == old(self).world.inventories@,
            res.wb.world.locations@ == old(self).world.locations@,
            res.wb.world.proses@ == old(self).world.proses@,
            res.wb.world.players@ == old(self).world.players@,
            res.wb.world.rooms@ == old(self).world.rooms@,
            res.wb.world.things@ == old(self).world.things@,
            res.wb.world.flag_sets@.dom() == old(self).world.flag_sets@.dom().insert(res.id),
            forall|x: ID| #[trigger] old(self).world.flag_sets@.contains_key(x) ==> res.wb.world.flag_sets@[x] == old(self).world.flag_sets@[x],
            !old(self).world.has_flags_spec(res.id) ==> res.wb.world.flags_of(res.id) == Set::<FlagView>::empty(),
    {
        let id = self.world.allocate(tag);
        let ghost w1 = self.world;
        self.add_flag_set(id);
        let ghost w2 = self.world;
        self.put_rule(id, RuleComponent::guard(event, Predicate::Always));
        proof {
            lemma_extended_by_trans(&old(self).world, &w1, &w2);
            lemma_extended_by_trans(&old(self).world, &w2, &self.world);
            lemma_tags_kept(&old(self).world, &self.world);
            lemma_tag_id(&self.world, id);
        }

        RuleBuilder { wb: self, tag: to_string(tag), id }
    }

    /// Retrieves the created world.
    pub fn world(self) -> (res: World)
        ensures
            res == self.world,
    {
        self.world
    }
}

/// # PlayerBuilder -- A tool for configuring the player entity.
///
/// WorldBuilder creates and initializes the player automatically; this struct allows
/// the scenario author to configure scenario-specific features.
pub struct PlayerBuilder<'a> {
    pub wb: &'a mut WorldBuilder,
}

/// # RoomBuilder -- A tool for creating and configuring room entities.
pub struct RoomBuilder<'a> {
    pub wb: &'a mut WorldBuilder,
    pub tag: String,
    pub id: ID,
}

/// # ThingBuilder -- A tool for creating and configuring thing entities.
pub struct ThingBuilder<'a> {
    pub wb: &'a mut WorldBuilder,
    pub tag: String,
    pub id: ID,
}

/// # RuleBuilder -- A tool for creating and configuring rules.
pub struct RuleBuilder<'a> {
    pub wb: &'a mut WorldBuilder,
    pub tag: String,
    pub id: ID,
}

impl WorldBuilder {
    /// Replaces the rule's event, kind, and predicate, and adds the actions to its
    /// script.
    fn update_rule(
        &mut self,
        id: ID,
        event: Event,
        is_guard: bool,
        predicate: Predicate,
        more: Vec<Action>,
    )
        requires
            old(self).world.wf(),
            old(self).world.rules@.contains_key(id),
            old(self).world.pred_ok(predicate),
            old(self).world.actions_ok(more@),
        ensures
            old(self).world.tags_kept(&final(self).world),
            final(self).world.wf(),
            old(self).world.extended_by(&final(self).world),
            final(self).world == (World { rules: final(self).world.rules, ..old(self).world }),
            final(self).world.rules@ == old(self).world.rules@.insert(
                id,
                final(self).world.rules@[id],
            ),
            final(self).world.rules@[id].event == event,
            final(self).world.rules@[id].is_guard == is_guard,
            final(self).world.rules@[id].predicate == predicate,
            final(self).world.rules@[id].script.actions@ == old(
                self,
            ).world.rules@[id].script.actions@ + more@,
    {
        let rc = self.world.rules.get(&id).unwrap();
        let mut script = rc.script.copy();
        let mut i: usize = 0;
        while i < more.len()
            invariant
                i <= more@.len(),
                script.actions@ == rc.script.actions@ + more@.take(i as int),
            decreases more@.len() - i,
        {
            script.add(more[i].copy());
            i = i + 1;
            assert(script.actions@ =~= rc.script.actions@ + more@.take(i as int));
        }
        assert(more@.take(i as int) =~= more@);
        proof {
            let w = &self.world;
            let s = script.actions@;
            assert(w.actions_ok(rc.script.actions@));
            assert forall|k: int| 0 <= k < s.len() implies w.action_ok(#[trigger] s[k]) by {
                if k < rc.script.actions@.len() {
                    assert(w.action_ok(rc.script.actions@[k]));
                } else {
                    assert(s[k] == more@[k - rc.script.actions@.len()]);
                    assert(w.action_ok(more@[k - rc.script.actions@.len()]));
                }
            }
        }
        let new_rc = RuleComponent { event, is_guard, predicate, script };
        self.put_rule(id, new_rc);
    }
}

impl<'a> PlayerBuilder<'a> {
    /// Sets the player's initial location given the location's tag, and marks the
    /// location as seen by the player.
    pub fn location(self, loc_tag: &str) -> (res: PlayerBuilder<'a>)
        requires
            old(self.wb).ok(),
        ensures
            res.wb.ok(),
            *final(self.wb) == *final(res.wb),
            kept(&old(self.wb).world, &res.wb.world),
            placed(&res.wb.world, res.wb.world.pid, loc_tag@),
            others_stay(&old(self.wb).world, &res.wb.world, res.wb.world.pid),
            res.wb.world.locations@.dom() == old(self.wb).world.locations@.dom(),
            res.wb.world.flag_sets@.dom() == old(self.wb).world.flag_sets@.dom(),
            res.wb.world.inventories@.dom() == old(self.wb).world.inventories@.dom().insert(res.wb.world.tag_id(loc_tag@)),
            res.wb.world.flags_of(res.wb.world.pid) == old(self.wb).world.flags_of(
                old(self.wb).world.pid,
            ).insert(FlagView::Seen(res.wb.world.tag_id(loc_tag@))),
            res.wb.world.proses@ == old(self.wb).world.proses@,
            res.wb.world.players@ == old(self.wb).world.players@,
            res.wb.world.rooms@ == old(self.wb).world.rooms@,
            res.wb.world.things@ == old(self.wb).world.things@,
            res.wb.world.rules@ == old(self.wb).world.rules@,
    {
        let pid = self.wb.world.pid;
        let ghost w0 = self.wb.world;
        self.wb.set_location(pid, loc_tag);
        let ghost w1 = self.wb.world;
        let loc = self.wb.world.lookup(loc_tag);
        self.wb.add_flag(pid, Flag::Seen(loc));
        proof {
            let w = &self.wb.world;
            lemma_extended_by_trans(&w0, &w1, w);
            lemma_tags_kept(&w0, w);
            lemma_tag_exists(&w1, loc_tag@);
            lemma_tag_id(w, loc);
            assert(w.inventories@[loc] == w1.inventories@[loc]);
        }
        self
    }

    /// Adds descriptive prose to the player.
    pub fn prose(self, text: &str) -> (res: PlayerBuilder<'a>)
        requires
            old(self.wb).ok(),
        ensures
            res.wb.ok(),
            *final(self.wb) == *final(res.wb),
            only_grew(&old(self.wb).world, &res.wb.world),
            res.wb.world.flag_sets@ == old(self.wb).world.flag_sets@,
            res.wb.world.inventories@ == old(self.wb).world.inventories@,
            res.wb.world.locations@ == old(self.wb).world.locations@,
            res.wb.world.proses@.contains_key(res.wb.world.pid),
            res.wb.world.proses@[res.wb.world.pid].prose(ProseType::Thing) matches Some(
                Prose::Prose(s),
            ) && s@ == text@,
            forall|x: ID| x != res.wb.world.pid ==> #[trigger] res.wb.world.proses@.contains_key(x) == old(self.wb).world.proses@.contains_key(x),
            forall|x: ID| x != res.wb.world.pid && #[trigger] old(self.wb).world.proses@.contains_key(x) ==> res.wb.world.proses@[x] == old(self.wb).world.proses@[x],
    {
        let pid = self.wb.world.pid;
        self.wb.add_prose(pid, ProseType::Thing, text);
        self
    }

    /// Adds a prose hook to the player, to produce descriptive prose on demand.
    pub fn prose_hook(self, hook: ProseHook) -> (res: PlayerBuilder<'a>)
        requires
            old(self.wb).ok(),
            old(self.wb).world.prose_ok(Prose::Hook(hook)),
        ensures
            res.wb.ok(),
            *final(self.wb) == *final(res.wb),
            only_grew(&old(self.wb).world, &res.wb.world),
            res.wb.world.flag_sets@ == old(self.wb).world.flag_sets@,
            res.wb.world.inventories@ == old(self.wb).world.inventories@,
            res.wb.world.locations@ == old(self.wb).world.locations@,
            res.wb.world.proses@.contains_key(res.wb.world.pid),
            res.wb.world.proses@[res.wb.world.pid].prose(ProseType::Thing) == Some(Prose::Hook(hook)),
            forall|x: ID| x != res.wb.world.pid ==> #[trigger] res.wb.world.proses@.contains_key(x) == old(self.wb).world.proses@.contains_key(x),
            forall|x: ID| x != res.wb.world.pid && #[trigger] old(self.wb).world.proses@.contains_key(x) ==> res.wb.world.proses@[x] == old(self.wb).world.proses@[x],
    {
        let pid = self.wb.world.pid;
        self.wb.add_prose_hook(pid, ProseType::Thing, hook);
        self
    }

    /// Sets a flag on the player.
    pub fn flag(self, flag: Flag) -> (res: PlayerBuilder<'a>)
        requires
            old(self.wb).ok(),
        ensures
            res.wb.ok(),
            *final(self.wb) == *final(res.wb),
            only_grew(&old(self.wb).world, &res.wb.world),
            res.wb.world.inventories@ == old(self.wb).world.inventories@,
            res.wb.world.locations@ == old(self.wb).world.locations@,
            res.wb.world.proses@ == old(self.wb).world.proses@,
            res.wb.world.flags_of(res.wb.world.pid) == old(self.wb).world.flags_of(res.wb.world.pid).insert(flag@),
            forall|x: ID| x != res.wb.world.pid ==> #[trigger] res.wb.world.flag_sets@.contains_key(x) == old(self.wb).world.flag_sets@.contains_key(x),
            forall|x: ID| x != res.wb.world.pid && #[trigger] old(self.wb).world.flag_sets@.contains_key(x) ==> res.wb.world.flags_of(x) == old(self.wb).world.flags_of(x),
            res.wb.world.flag_sets@.dom() == old(self.wb).world.flag_sets@.dom().insert(res.wb.world.pid),
    {
        let pid = self.wb.world.pid;
        self.wb.add_flag(pid, flag);
        self
    }
}

impl<'a> RoomBuilder<'a> {
    /// Adds descriptive prose to the room.
    pub fn prose(self, text: &str) -> (res: RoomBuilder<'a>)
        requires
            old(self.wb).ok(),
            self.id < old(self.wb).world.n(),
            old(self.wb).world.is_room_spec(self.id),
        ensures
            res.wb.ok(),
            *final(self.wb) == *final(res.wb),
            res.id == self.id,
            res.tag == self.tag,
            res.id < res.wb.world.n(),
            res.wb.world.is_room_spec(res.id),
            only_grew(&old(self.wb).world, &res.wb.world),
            res.wb.world.flag_sets@ == old(self.wb).world.flag_sets@,
            res.wb.world.inventories@ == old(self.wb).world.inventories@,
            res.wb.world.locations@ == old(self.wb).world.locations@,
            res.wb.world.proses@.contains_key(self.id),
            res.wb.world.proses@[self.id].prose(ProseType::Room) matches Some(Prose::Prose(s))
                && s@ == text@,
            forall|x: ID| x != self.id ==> #[trigger] res.wb.world.proses@.contains_key(x) == old(self.wb).world.proses@.contains_key(x),
            forall|x: ID| x != self.id && #[trigger] old(self.wb).world.proses@.contains_key(x) ==> res.wb.world.proses@[x] == old(self.wb).world.proses@[x],
    {
        self.wb.add_prose(self.id, ProseType::Room, text);
        self
    }

    /// Adds a prose hook to the room, to produce descriptive prose on demand.
    pub fn prose_hook(self, hook: ProseHook) -> (res: RoomBuilder<'a>)
        requires
            old(self.wb).ok(),
            self.id < old(self.wb).world.n(),
            old(self.wb).world.is_room_spec(self.id),
            old(self.wb).world.prose_ok(Prose::Hook(hook)),
        ensures
            res.wb.ok(),
            *final(self.wb) == *final(res.wb),
            res.id == self.id,
            res.tag == self.tag,
            res.id < res.wb.world.n(),
            res.wb.world.is_room_spec(res.id),
            only_grew(&old(self.wb).world, &res.wb.world),
            res.wb.world.flag_sets@ == old(self.wb).world.flag_sets@,
            res.wb.world.inventories@ == old(self.wb).world.inventories@,
            res.wb.world.locations@ == old(self.wb).world.locations@,
            res.wb.world.proses@.contains_key(self.id),
            res.wb.world.proses@[self.id].prose(ProseType::Room) == Some(Prose::Hook(hook)),
            forall|x: ID| x != self.id ==> #[trigger] res.wb.world.proses@.contains_key(x) == old(self.wb).world.proses@.contains_key(x),
            forall|x: ID| x != self.id && #[trigger] old(self.wb).world.proses@.contains_key(x) ==> res.wb.world.proses@[x] == old(self.wb).world.proses@[x],
    {
        self.wb.add_prose_hook(self.id, ProseType::Room, hook);
        self
    }

    /// Sets a flag on the room.
    pub fn flag(self, flag: Flag) -> (res: RoomBuilder<'a>)
        requires
            old(self.wb).ok(),
            self.id < old(self.wb).world.n(),
            old(self.wb).world.is_room_spec(self.id),
        ensures
            res.wb.ok(),
            *final(self.wb) == *final(res.wb),
            res.id == self.id,
            res.tag == self.tag,
            res.id < res.wb.world.n(),
            res.wb.world.is_room_spec(res.id),
            only_grew(&old(self.wb).world, &res.wb.world),
            res.wb.world.inventories@ == old(self.wb).world.inventories@,
            res.wb.world.locations@ == old(self.wb).world.locations@,
            res.wb.world.proses@ == old(self.wb).world.proses@,
            res.wb.world.flags_of(self.id) == old(self.wb).world.flags_of(self.id).insert(flag@),
            forall|x: ID| x != self.id ==> #[trigger] res.wb.world.flag_sets@.contains_key(x) == old(self.wb).world.flag_sets@.contains_key(x),
            forall|x: ID| x != self.id && #[trigger] old(self.wb).world.flag_sets@.contains_key(x) ==> res.wb.world.flags_of(x) == old(self.wb).world.flags_of(x),
            res.wb.world.flag_sets@.dom() == old(self.wb).world.flag_sets@.dom().insert(self.id),
    {
        self.wb.add_flag(self.id, flag);
        self
    }

    /// Creates a link from this room to another room given the direction and
    /// the other room's tag, creating the other entity if need be.
    pub fn link(self, dir: Dir, room_tag: &str) -> (res: RoomBuilder<'a>)
        requires
            old(self.wb).ok(),
            self.id < old(self.wb).world.n(),
            old(self.wb).world.is_room_spec(self.id),
        ensures
            res.wb.ok(),
            *final(self.wb) == *final(res.wb),
            res.id == self.id,
            res.tag == self.tag,
            res.id < res.wb.world.n(),
            res.wb.world.is_room_spec(res.id),
            kept(&old(self.wb).world, &res.wb.world),
            res.wb.world.tag_exists(room_tag@),
            res.wb.world.rooms@ == old(self.wb).world.rooms@.insert(self.id, res.wb.world.rooms@[self.id]),
            res.wb.world.rooms@[self.id].name@ == old(self.wb).world.rooms@[self.id].name@,
            forall|d: Dir| #[trigger] res.wb.world.rooms@[self.id].link(d) == if d == dir {
                Some(LinkDest::Room(res.wb.world.tag_id(room_tag@)))
            } else {
                old(self.wb).world.rooms@[self.id].link(d)
            },
            res.wb.world.flag_sets@ == old(self.wb).world.flag_sets@,
            res.wb.world.inventories@ == old(self.wb).world.inventories@,
            res.wb.world.locations@ == old(self.wb).world.locations@,
            res.wb.world.proses@ == old(self.wb).world.proses@,
            res.wb.world.players@ == old(self.wb).world.players@,
            res.wb.world.things@ == old(self.wb).world.things@,
            res.wb.world.rules@ == old(self.wb).world.rules@,
    {
        // FIRST, get the id of the destination.
        let ghost w0 = self.wb.world;
        let dest = self.wb.world.allocate(room_tag);
        let ghost w1 = self.wb.world;
        let link = LinkDest::Room(dest);
        self.wb.add_link(self.id, dir, link);
        proof {
            lemma_extended_by_trans(&w0, &w1, &self.wb.world);
            lemma_tags_kept(&w0, &self.wb.world);
            lemma_tag_id(&self.wb.world, dest);
        }
        self
    }

    /// Adds a dead end in the given direction: the text tells why the player can't
    /// go that way.
    pub fn dead_end(self, dir: Dir, text: &str) -> (res: RoomBuilder<'a>)
        requires
            old(self.wb).ok(),
            self.id < old(self.wb).world.n(),
            old(self.wb).world.is_room_spec(self.id),
        ensures
            res.wb.ok(),
            *final(self.wb) == *final(res.wb),
            res.id == self.id,
            res.tag == self.tag,
            res.id < res.wb.world.n(),
            res.wb.world.is_room_spec(res.id),
            res.wb.world == (World { rooms: res.wb.world.rooms, ..old(self.wb).world }),
            kept(&old(self.wb).world, &res.wb.world),
            res.wb.world.rooms@ == old(self.wb).world.rooms@.insert(self.id, res.wb.world.rooms@[self.id]),
            res.wb.world.rooms@[self.id].name@ == old(self.wb).world.rooms@[self.id].name@,
            res.wb.world.rooms@[self.id].link(dir) matches Some(LinkDest::DeadEnd(t)) && t@ == text@,
            forall|d: Dir| d != dir ==> #[trigger] res.wb.world.rooms@[self.id].link(d) == old(
                self.wb,
            ).world.rooms@[self.id].link(d),
    {
        let dead_end = LinkDest::DeadEnd(to_string(text));
        self.wb.add_link(self.id, dir, dead_end);
        self
    }
}

impl<'a> ThingBuilder<'a> {
    /// Sets the thing's initial location given the location's tag, creating the
    /// location entity if need be.
    pub fn location(self, loc_tag: &str) -> (res: ThingBuilder<'a>)
        requires
            old(self.wb).ok(),
            self.id < old(self.wb).world.n(),
            old(self.wb).world.is_thing_spec(self.id),
        ensures
            res.wb.ok(),
            *final(self.wb) == *final(res.wb),
            res.id == self.id,
            res.tag == self.tag,
            res.id < res.wb.world.n(),
            res.wb.world.is_thing_spec(res.id),
            kept(&old(self.wb).world, &res.wb.world),
            placed(&res.wb.world, self.id, loc_tag@),
            others_stay(&old(self.wb).world, &res.wb.world, self.id),
            res.wb.world.locations@.dom() == old(self.wb).world.locations@.dom(),
            res.wb.world.inventories@.dom() == old(self.wb).world.inventories@.dom().insert(res.wb.world.tag_id(loc_tag@)),
            res.wb.world.flag_sets@ == old(self.wb).world.flag_sets@,
            res.wb.world.proses@ == old(self.wb).world.proses@,
            res.wb.world.players@ == old(self.wb).world.players@,
            res.wb.world.rooms@ == old(self.wb).world.rooms@,
            res.wb.world.things@ == old(self.wb).world.things@,
            res.wb.world.rules@ == old(self.wb).world.rules@,
    {
        self.wb.set_location(self.id, loc_tag);
        self
    }

    /// Adds descriptive prose to the thing.
    pub fn prose(self, text: &str) -> (res: ThingBuilder<'a>)
        requires
            old(self.wb).ok(),
            self.id < old(self.wb).world.n(),
            old(self.wb).world.is_thing_spec(self.id),
        ensures
            res.wb.ok(),
            *final(self.wb) == *final(res.wb),
            res.id == self.id,
            res.tag == self.tag,
            res.id < res.wb.world.n(),
            res.wb.world.is_thing_spec(res.id),
            only_grew(&old(self.wb).world, &res.wb.world),
            res.wb.world.flag_sets@ == old(self.wb).world.flag_sets@,
            res.wb.world.inventories@ == old(self.wb).world.inventories@,
            res.wb.world.locations@ == old(self.wb).world.locations@,
            res.wb.world.proses@.contains_key(self.id),
            res.wb.world.proses@[self.id].prose(ProseType::Thing) matches Some(Prose::Prose(s))
                && s@ == text@,
            forall|x: ID| x != self.id ==> #[trigger] res.wb.world.proses@.contains_key(x) == old(self.wb).world.proses@.contains_key(x),
            forall|x: ID| x != self.id && #[trigger] old(self.wb).world.proses@.contains_key(x) ==> res.wb.world.proses@[x] == old(self.wb).world.proses@[x],
            forall|t: ProseType| t != ProseType::Thing && old(self.wb).world.proses@.contains_key(self.id) ==> #[trigger] res.wb.world.proses@[self.id].prose(t) == old(self.wb).world.proses@[self.id].prose(t),
    {
        self.wb.add_prose(self.id, ProseType::Thing, text);
        self
    }

    /// Adds a prose hook to the thing, to produce descriptive prose on demand.
    pub fn prose_hook(self, hook: ProseHook) -> (res: ThingBuilder<'a>)
        requires
            old(self.wb).ok(),
            self.id < old(self.wb).world.n(),
            old(self.wb).world.is_thing_spec(self.id),
            old(self.wb).world.prose_ok(Prose::Hook(hook)),
        ensures
            res.wb.ok(),
            *final(self.wb) == *final(res.wb),
            res.id == self.id,
            res.tag == self.tag,
            res.id < res.wb.world.n(),
            res.wb.world.is_thing_spec(res.id),
            only_grew(&old(self.wb).world, &res.wb.world),
            res.wb.world.flag_sets@ == old(self.wb).world.flag_sets@,
            res.wb.world.inventories@ == old(self.wb).world.inventories@,
            res.wb.world.locations@ == old(self.wb).world.locations@,
            res.wb.world.proses@.contains_key(self.id),
            res.wb.world.proses@[self.id].prose(ProseType::Thing) == Some(Prose::Hook(hook)),
            forall|x: ID| x != self.id ==> #[trigger] res.wb.world.proses@.contains_key(x) == old(self.wb).world.proses@.contains_key(x),
            forall|x: ID| x != self.id && #[trigger] old(self.wb).world.proses@.contains_key(x) ==> res.wb.world.proses@[x] == old(self.wb).world.proses@[x],
    {
        self.wb.add_prose_hook(self.id, ProseType::Thing, hook);
        self
    }

    /// Adds readable prose to the thing.
    pub fn book_prose(self, text: &str) -> (res: ThingBuilder<'a>)
        requires
            old(self.wb).ok(),
            self.id < old(self.wb).world.n(),
            old(self.wb).world.is_thing_spec(self.id),
        ensures
            res.wb.ok(),
            *final(self.wb) == *final(res.wb),
            res.id == self.id,
            res.tag == self.tag,
            res.id < res.wb.world.n(),
            res.wb.world.is_thing_spec(res.id),
            only_grew(&old(self.wb).world, &res.wb.world),
            res.wb.world.flag_sets@ == old(self.wb).world.flag_sets@,
            res.wb.world.inventories@ == old(self.wb).world.inventories@,
            res.wb.world.locations@ == old(self.wb).world.locations@,
            res.wb.world.proses@.contains_key(self.id),
            res.wb.world.proses@[self.id].prose(ProseType::Book) matches Some(Prose::Prose(s))
                && s@ == text@,
            forall|x: ID| x != self.id ==> #[trigger] res.wb.world.proses@.contains_key(x) == old(self.wb).world.proses@.contains_key(x),
            forall|x: ID| x != self.id && #[trigger] old(self.wb).world.proses@.contains_key(x) ==> res.wb.world.proses@[x] == old(self.wb).world.proses@[x],
            forall|t: ProseType| t != ProseType::Book && old(self.wb).world.proses@.contains_key(self.id) ==> #[trigger] res.wb.world.proses@[self.id].prose(t) == old(self.wb).world.proses@[self.id].prose(t),
    {
        self.wb.add_prose(self.id, ProseType::Book, text);
        self
    }

    /// Adds a prose hook to the thing, to produce readable prose on demand.
    pub fn book_hook(self, hook: ProseHook) -> (res: ThingBuilder<'a>)
        requires
            old(self.wb).ok(),
            self.id < old(self.wb).world.n(),
            old(self.wb).world.is_thing_spec(self.id),
            old(self.wb).world.prose_ok(Prose::Hook(hook)),
        ensures
            res.wb.ok(),
            *final(self.wb) == *final(res.wb),
            res.id == self.id,
            res.tag == self.tag,
            res.id < res.wb.world.n(),
            res.wb.world.is_thing_spec(res.id),
            only_grew(&old(self.wb).world, &res.wb.world),
            res.wb.world.flag_sets@ == old(self.wb).world.flag_sets@,
            res.wb.world.inventories@ == old(self.wb).world.inventories@,
            res.wb.world.locations@ == old(self.wb).world.locations@,
            res.wb.world.proses@.contains_key(self.id),
            res.wb.world.proses@[self.id].prose(ProseType::Book) == Some(Prose::Hook(hook)),
            forall|x: ID| x != self.id ==> #[trigger] res.wb.world.proses@.contains_key(x) == old(self.wb).world.proses@.contains_key(x),
            forall|x: ID| x != self.id && #[trigger] old(self.wb).world.proses@.contains_key(x) ==> res.wb.world.proses@[x] == old(self.wb).world.proses@[x],
    {
        self.wb.add_prose_hook(self.id, ProseType::Book, hook);
        self
    }

    /// Adds prose that describes the thing as part of the description of what contains it.
    pub fn scenery_prose(self, text: &str) -> (res: ThingBuilder<'a>)
        requires
            old(self.wb).ok(),
            self.id < old(self.wb).world.n(),
            old(self.wb).world.is_thing_spec(self.id),
        ensures
            res.wb.ok(),
            *final(self.wb) == *final(res.wb),
            res.id == self.id,
            res.tag == self.tag,
            res.id < res.wb.world.n(),
            res.wb.world.is_thing_spec(res.id),
            only_grew(&old(self.wb).world, &res.wb.world),
            res.wb.world.flag_sets@ == old(self.wb).world.flag_sets@,
            res.wb.world.inventories@ == old(self.wb).world.inventories@,
            res.wb.world.locations@ == old(self.wb).world.locations@,
            res.wb.world.proses@.contains_key(self.id),
            res.wb.world.proses@[self.id].prose(ProseType::Scenery) matches Some(Prose::Prose(s))
                && s@ == text@,
            forall|x: ID| x != self.id ==> #[trigger] res.wb.world.proses@.contains_key(x) == old(self.wb).world.proses@.contains_key(x),
            forall|x: ID| x != self.id && #[trigger] old(self.wb).world.proses@.contains_key(x) ==> res.wb.world.proses@[x] == old(self.wb).world.proses@[x],
    {
        self.wb.add_prose(self.id, ProseType::Scenery, text);
        self
    }

    /// Adds a prose hook to the thing, to produce its scenery prose on demand.
    pub fn scenery_hook(self, hook: ProseHook) -> (res: ThingBuilder<'a>)
        requires
            old(self.wb).ok(),
            self.id < old(self.wb).world.n(),
            old(self.wb).world.is_thing_spec(self.id),
            old(self.wb).world.prose_ok(Prose::Hook(hook)),
        ensures
            res.wb.ok(),
            *final(self.wb) == *final(res.wb),
            res.id == self.id,
            res.tag == self.tag,
            res.id < res.wb.world.n(),
            res.wb.world.is_thing_spec(res.id),
            only_grew(&old(self.wb).world, &res.wb.world),
            res.wb.world.flag_sets@ == old(self.wb).world.flag_sets@,
            res.wb.world.inventories@ == old(self.wb).world.inventories@,
            res.wb.world.locations@ == old(self.wb).world.locations@,
            res.wb.world.proses@.contains_key(self.id),
            res.wb.world.proses@[self.id].prose(ProseType::Scenery) == Some(Prose::Hook(hook)),
            forall|x: ID| x != self.id ==> #[trigger] res.wb.world.proses@.contains_key(x) == old(self.wb).world.proses@.contains_key(x),
            forall|x: ID| x != self.id && #[trigger] old(self.wb).world.proses@.contains_key(x) ==> res.wb.world.proses@[x] == old(self.wb).world.proses@[x],
            forall|t: ProseType| t != ProseType::Scenery && old(self.wb).world.proses@.contains_key(self.id) ==> #[trigger] res.wb.world.proses@[self.id].prose(t) == old(self.wb).world.proses@[self.id].prose(t),
    {
        self.wb.add_prose_hook(self.id, ProseType::Scenery, hook);
        self
    }

    /// Sets a flag on the thing.
    pub fn flag(self, flag: Flag) -> (res: ThingBuilder<'a>)
        requires
            old(self.wb).ok(),
            self.id < old(self.wb).world.n(),
            old(self.wb).world.is_thing_spec(self.id),
        ensures
            res.wb.ok(),
            *final(self.wb) == *final(res.wb),
            res.id == self.id,
            res.tag == self.tag,
            res.id < res.wb.world.n(),
            res.wb.world.is_thing_spec(res.id),
            only_grew(&old(self.wb).world, &res.wb.world),
            res.wb.world.inventories@ == old(self.wb).world.inventories@,
            res.wb.world.locations@ == old(self.wb).world.locations@,
            res.wb.world.proses@ == old(self.wb).world.proses@,
            res.wb.world.flags_of(self.id) == old(self.wb).world.flags_of(self.id).insert(flag@),
            forall|x: ID| x != self.id ==> #[trigger] res.wb.world.flag_sets@.contains_key(x) == old(self.wb).world.flag_sets@.contains_key(x),
            forall|x: ID| x != self.id && #[trigger] old(self.wb).world.flag_sets@.contains_key(x) ==> res.wb.world.flags_of(x) == old(self.wb).world.flags_of(x),
            res.wb.world.flag_sets@.dom() == old(self.wb).world.flag_sets@.dom().insert(self.id),
    {
        self.wb.add_flag(self.id, flag);
        self
    }
}

impl WorldBuilder {
    /// Adds the actions to the rule's script.
    fn add_actions(&mut self, id: ID, more: Vec<Action>)
        requires
            old(self).ok(),
            old(self).world.rules@.contains_key(id),
            old(self).world.actions_ok(more@),
        ensures
            old(self).world.tags_kept(&final(self).world),
            final(self).ok(),
            final(self).world == (World { rules: final(self).world.rules, ..old(self).world }),
            final(self).world.rules@ == old(self).world.rules@.insert(
                id,
                final(self).world.rules@[id],
            ),
            final(self).world.rules@[id].event == old(self).world.rules@[id].event,
            final(self).world.rules@[id].is_guard == old(self).world.rules@[id].is_guard,
            final(self).world.rules@[id].predicate == old(self).world.rules@[id].predicate,
            final(self).world.rules@[id].script.actions@ == old(
                self,
            ).world.rules@[id].script.actions@ + more@,
    {
        let rc = self.world.rules.get(&id).unwrap();
        let event = rc.event;
        let is_guard = rc.is_guard;
        let predicate = rc.predicate.copy();
        self.update_rule(id, event, is_guard, predicate, more);
    }
}

impl<'a> RuleBuilder<'a> {
    /// Specifies the triggering event.  If omitted, the rule triggers every turn.
    pub fn on(self, event: Event) -> (res: RuleBuilder<'a>)
        requires
            old(self.wb).ok(),
            self.id < old(self.wb).world.n(),
            old(self.wb).world.rules@.contains_key(self.id),
        ensures
            res.wb.ok(),
            *final(self.wb) == *final(res.wb),
            res.id == self.id,
            res.tag == self.tag,
            res.id < res.wb.world.n(),
            res.wb.world.rules@.contains_key(res.id),
            res.wb.world == (World { rules: res.wb.world.rules, ..old(self.wb).world }),
            kept(&old(self.wb).world, &res.wb.world),
            res.wb.world.rules@ == old(self.wb).world.rules@.insert(self.id, res.wb.world.rules@[self.id]),
            res.wb.world.rules@[self.id].is_guard == old(self.wb).world.rules@[self.id].is_guard,
            res.wb.world.rules@[self.id].predicate == old(self.wb).world.rules@[self.id].predicate,
            res.wb.world.rules@[self.id].event == event,
            res.wb.world.rules@[self.id].script.actions@ == old(self.wb).world.rules@[self.id].script.actions@,
    {
        let rc = self.wb.world.rules.get(&self.id).unwrap();
        let is_guard = rc.is_guard;
        let predicate = rc.predicate.copy();
        let more: Vec<Action> = Vec::new();
        self.wb.update_rule(self.id, event, is_guard, predicate, more);
        assert(old(self.wb).world.rules@[self.id].script.actions@ + Seq::<Action>::empty() =~= old(self.wb).world.rules@[self.id].script.actions@);
        self
    }

    /// Specifies the predicate.  If omitted, the rule fires every time it is
    /// triggered; for a guard, the predicate says when the event is refused.  The
    /// predicate must be one that can be evaluated in the world as built so far.
    pub fn when(self, predicate: Predicate) -> (res: RuleBuilder<'a>)
        requires
            old(self.wb).ok(),
            self.id < old(self.wb).world.n(),
            old(self.wb).world.rules@.contains_key(self.id),
            old(self.wb).world.pred_ok(predicate),
        ensures
            res.wb.ok(),
            *final(self.wb) == *final(res.wb),
            res.id == self.id,
            res.tag == self.tag,
            res.id < res.wb.world.n(),
            res.wb.world.rules@.contains_key(res.id),
            res.wb.world == (World { rules: res.wb.world.rules, ..old(self.wb).world }),
            kept(&old(self.wb).world, &res.wb.world),
            res.wb.world.rules@ == old(self.wb).world.rules@.insert(self.id, res.wb.world.rules@[self.id]),
            res.wb.world.rules@[self.id].event == old(self.wb).world.rules@[self.id].event,
            res.wb.world.rules@[self.id].is_guard == old(self.wb).world.rules@[self.id].is_guard,
            res.wb.world.rules@[self.id].predicate == predicate,
            res.wb.world.rules@[self.id].script.actions@ == old(self.wb).world.rules@[self.id].script.actions@,
    {
        let rc = self.wb.world.rules.get(&self.id).unwrap();
        let event = rc.event;
        let is_guard = rc.is_guard;
        let more: Vec<Action> = Vec::new();
        self.wb.update_rule(self.id, event, is_guard, predicate, more);
        assert(old(self.wb).world.rules@[self.id].script.actions@ + Seq::<Action>::empty() =~= old(self.wb).world.rules@[self.id].script.actions@);
        self
    }

    /// Specifies that the rule should execute no more than once.
    pub fn once_only(self) -> (res: RuleBuilder<'a>)
        requires
            old(self.wb).ok(),
            self.id < old(self.wb).world.n(),
            old(self.wb).world.rules@.contains_key(self.id),
        ensures
            res.wb.ok(),
            *final(self.wb) == *final(res.wb),
            res.id == self.id,
            res.tag == self.tag,
            res.id < res.wb.world.n(),
            res.wb.world.rules@.contains_key(res.id),
            only_grew(&old(self.wb).world, &res.wb.world),
            res.wb.world.inventories@ == old(self.wb).world.inventories@,
            res.wb.world.locations@ == old(self.wb).world.locations@,
            res.wb.world.proses@ == old(self.wb).world.proses@,
            res.wb.world.flags_of(self.id) == old(self.wb).world.flags_of(self.id).insert(FlagView::FireOnce),
            forall|x: ID| x != self.id ==> #[trigger] res.wb.world.flag_sets@.contains_key(x) == old(self.wb).world.flag_sets@.contains_key(x),
            forall|x: ID| x != self.id && #[trigger] old(self.wb).world.flag_sets@.contains_key(x) ==> res.wb.world.flags_of(x) == old(self.wb).world.flags_of(x),
            res.wb.world.flag_sets@.dom() == old(self.wb).world.flag_sets@.dom().insert(self.id),
    {
        self.wb.add_flag(self.id, Flag::FireOnce);
        self
    }

    /// Specifies text to print when the rule fires.
    pub fn print(self, text: &str) -> (res: RuleBuilder<'a>)
        requires
            old(self.wb).ok(),
            self.id < old(self.wb).world.n(),
            old(self.wb).world.rules@.contains_key(self.id),
        ensures
            res.wb.ok(),
            *final(self.wb) == *final(res.wb),
            res.id == self.id,
            res.tag == self.tag,
            res.id < res.wb.world.n(),
            res.wb.world.rules@.contains_key(res.id),
            res.wb.world == (World { rules: res.wb.world.rules, ..old(self.wb).world }),
            kept(&old(self.wb).world, &res.wb.world),
            res.wb.world.rules@ == old(self.wb).world.rules@.insert(self.id, res.wb.world.rules@[self.id]),
            res.wb.world.rules@[self.id].event == old(self.wb).world.rules@[self.id].event,
            res.wb.world.rules@[self.id].is_guard == old(self.wb).world.rules@[self.id].is_guard,
            res.wb.world.rules@[self.id].predicate == old(self.wb).world.rules@[self.id].predicate,
            res.wb.world.rules@[self.id].script.actions@.drop_last() == old(self.wb).world.rules@[self.id].script.actions@,
            res.wb.world.rules@[self.id].script.actions@.len() == old(self.wb).world.rules@[self.id].script.actions@.len() + 1,
            res.wb.world.rules@[self.id].script.actions@.last() matches Action::Print(t) && t@ == text@,
    {
        let mut more: Vec<Action> = Vec::new();
        more.push(Action::Print(to_string(text)));
        self.wb.add_actions(self.id, more);
        assert(self.wb.world.rules@[self.id].script.actions@.drop_last() =~= old(self.wb).world.rules@[self.id].script.actions@);
        self
    }

    /// Adds an action to set the flag on the tagged entity, which must have flags.
    pub fn set_flag(self, tag: &str, flag: Flag) -> (res: RuleBuilder<'a>)
        requires
            old(self.wb).ok(),
            self.id < old(self.wb).world.n(),
            old(self.wb).world.rules@.contains_key(self.id),
            old(self.wb).world.tag_exists(tag@),
            old(self.wb).world.has_flags_spec(old(self.wb).world.tag_id(tag@)),
        ensures
            res.wb.ok(),
            *final(self.wb) == *final(res.wb),
            res.id == self.id,
            res.tag == self.tag,
            res.id < res.wb.world.n(),
            res.wb.world.rules@.contains_key(res.id),
            res.wb.world == (World { rules: res.wb.world.rules, ..old(self.wb).world }),
            kept(&old(self.wb).world, &res.wb.world),
            res.wb.world.rules@ == old(self.wb).world.rules@.insert(self.id, res.wb.world.rules@[self.id]),
            res.wb.world.rules@[self.id].event == old(self.wb).world.rules@[self.id].event,
            res.wb.world.rules@[self.id].is_guard == old(self.wb).world.rules@[self.id].is_guard,
            res.wb.world.rules@[self.id].predicate == old(self.wb).world.rules@[self.id].predicate,
            res.wb.world.rules@[self.id].script.actions@ == old(self.wb).world.rules@[self.id].script.actions@.push(Action::SetFlag(old(self.wb).world.tag_id(tag@), flag)),
    {
        let id = self.wb.world.lookup(tag);
        let mut more: Vec<Action> = Vec::new();
        more.push(Action::SetFlag(id, flag));
        self.wb.add_actions(self.id, more);
        self
    }

    /// Adds an action to clear the flag from the tagged entity, which must have flags.
    pub fn unset_flag(self, tag: &str, flag: Flag) -> (res: RuleBuilder<'a>)
        requires
            old(self.wb).ok(),
            self.id < old(self.wb).world.n(),
            old(self.wb).world.rules@.contains_key(self.id),
            old(self.wb).world.tag_exists(tag@),
            old(self.wb).world.has_flags_spec(old(self.wb).world.tag_id(tag@)),
        ensures
            res.wb.ok(),
            *final(self.wb) == *final(res.wb),
            res.id == self.id,
            res.tag == self.tag,
            res.id < res.wb.world.n(),
            res.wb.world.rules@.contains_key(res.id),
            res.wb.world == (World { rules: res.wb.world.rules, ..old(self.wb).world }),
            kept(&old(self.wb).world, &res.wb.world),
            res.wb.world.rules@ == old(self.wb).world.rules@.insert(self.id, res.wb.world.rules@[self.id]),
            res.wb.world.rules@[self.id].event == old(self.wb).world.rules@[self.id].event,
            res.wb.world.rules@[self.id].is_guard == old(self.wb).world.rules@[self.id].is_guard,
            res.wb.world.rules@[self.id].predicate == old(self.wb).world.rules@[self.id].predicate,
            res.wb.world.rules@[self.id].script.actions@ == old(self.wb).world.rules@[self.id].script.actions@.push(Action::UnsetFlag(old(self.wb).world.tag_id(tag@), flag)),
    {
        let id = self.wb.world.lookup(tag);
        let mut more: Vec<Action> = Vec::new();
        more.push(Action::UnsetFlag(id, flag));
        self.wb.add_actions(self.id, more);
        self
    }

    /// Adds an action to move the tagged entity, which must have a location, to LIMBO.
    pub fn forget(self, tag: &str) -> (res: RuleBuilder<'a>)
        requires
            old(self.wb).ok(),
            self.id < old(self.wb).world.n(),
            old(self.wb).world.rules@.contains_key(self.id),
            old(self.wb).world.tag_exists(tag@),
            old(self.wb).world.has_location_spec(old(self.wb).world.tag_id(tag@)),
        ensures
            res.wb.ok(),
            *final(self.wb) == *final(res.wb),
            res.id == self.id,
            res.tag == self.tag,
            res.id < res.wb.world.n(),
            res.wb.world.rules@.contains_key(res.id),
            res.wb.world == (World { rules: res.wb.world.rules, ..old(self.wb).world }),
            kept(&old(self.wb).world, &res.wb.world),
            res.wb.world.rules@ == old(self.wb).world.rules@.insert(self.id, res.wb.world.rules@[self.id]),
            res.wb.world.rules@[self.id].event == old(self.wb).world.rules@[self.id].event,
            res.wb.world.rules@[self.id].is_guard == old(self.wb).world.rules@[self.id].is_guard,
            res.wb.world.rules@[self.id].predicate == old(self.wb).world.rules@[self.id].predicate,
            res.wb.world.rules@[self.id].script.actions@ == old(self.wb).world.rules@[self.id].script.actions@.push(Action::PutIn(old(self.wb).world.tag_id(tag@), LIMBO)),
    {
        let id = self.wb.world.lookup(tag);
        let mut more: Vec<Action> = Vec::new();
        more.push(Action::PutIn(id, LIMBO));
        self.wb.add_actions(self.id, more);
        self
    }

    /// Adds an action to kill the tagged entity (i.e., set its Dead flag), which must be the
    /// player.
    pub fn kill(self, tag: &str) -> (res: RuleBuilder<'a>)
        requires
            old(self.wb).ok(),
            self.id < old(self.wb).world.n(),
            old(self.wb).world.rules@.contains_key(self.id),
            old(self.wb).world.tag_exists(tag@),
            old(self.wb).world.is_player_spec(old(self.wb).world.tag_id(tag@)),
        ensures
            res.wb.ok(),
            *final(self.wb) == *final(res.wb),
            res.id == self.id,
            res.tag == self.tag,
            res.id < res.wb.world.n(),
            res.wb.world.rules@.contains_key(res.id),
            res.wb.world == (World { rules: res.wb.world.rules, ..old(self.wb).world }),
            kept(&old(self.wb).world, &res.wb.world),
            res.wb.world.rules@ == old(self.wb).world.rules@.insert(self.id, res.wb.world.rules@[self.id]),
            res.wb.world.rules@[self.id].event == old(self.wb).world.rules@[self.id].event,
            res.wb.world.rules@[self.id].is_guard == old(self.wb).world.rules@[self.id].is_guard,
            res.wb.world.rules@[self.id].predicate == old(self.wb).world.rules@[self.id].predicate,
            res.wb.world.rules@[self.id].script.actions@ == old(self.wb).world.rules@[self.id].script.actions@.push(Action::Kill(old(self.wb).world.tag_id(tag@))),
    {
        let id = self.wb.world.lookup(tag);
        let mut more: Vec<Action> = Vec::new();
        more.push(Action::Kill(id));
        self.wb.add_actions(self.id, more);
        self
    }

    /// Adds an action to revive the tagged entity (i.e., clear its Dead flag), which must be
    /// the player.
    pub fn revive(self, tag: &str) -> (res: RuleBuilder<'a>)
        requires
            old(self.wb).ok(),
            self.id < old(self.wb).world.n(),
            old(self.wb).world.rules@.contains_key(self.id),
            old(self.wb).world.tag_exists(tag@),
            old(self.wb).world.is_player_spec(old(self.wb).world.tag_id(tag@)),
        ensures
            res.wb.ok(),
            *final(self.wb) == *final(res.wb),
            res.id == self.id,
            res.tag == self.tag,
            res.id < res.wb.world.n(),
            res.wb.world.rules@.contains_key(res.id),
            res.wb.world == (World { rules: res.wb.world.rules, ..old(self.wb).world }),
            kept(&old(self.wb).world, &res.wb.world),
            res.wb.world.rules@ == old(self.wb).world.rules@.insert(self.id, res.wb.world.rules@[self.id]),
            res.wb.world.rules@[self.id].event == old(self.wb).world.rules@[self.id].event,
            res.wb.world.rules@[self.id].is_guard == old(self.wb).world.rules@[self.id].is_guard,
            res.wb.world.rules@[self.id].predicate == old(self.wb).world.rules@[self.id].predicate,
            res.wb.world.rules@[self.id].script.actions@ == old(self.wb).world.rules@[self.id].script.actions@.push(Action::Revive(old(self.wb).world.tag_id(tag@))),
    {
        let id = self.wb.world.lookup(tag);
        let mut more: Vec<Action> = Vec::new();
        more.push(Action::Revive(id));
        self.wb.add_actions(self.id, more);
        self
    }
}

} // verus!
