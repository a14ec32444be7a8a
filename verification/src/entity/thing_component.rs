//! Thing Data
use vstd::prelude::*;
use crate::entity::flag_set_component::FlagSetComponent;
use crate::types::ID;
use crate::world::World;
use crate::world::lemma_wf_hooks_extends;
use crate::world::lemma_wf_tags_same;

verus! {

/// Information specific to things.
#[derive(Debug, Clone)]
pub struct ThingComponent {
    /// The thing's name, for display in inventory lists.
    pub name: String,
    /// The thing's noun, for use in commands
    pub noun: String,
}

impl ThingComponent {
    /// Create a new thing component with a name and a noun.
    pub fn new(name: &str, noun: &str) -> (res: ThingComponent)
        ensures
            res.name@ == name@,
            res.noun@ == noun@,
    {
        ThingComponent { name: crate::types::to_string(name), noun: crate::types::to_string(noun) }
    }

    /// A copy of the component.
    pub fn copy(&self) -> (res: ThingComponent)
        ensures
            res == *self,
    {
        ThingComponent { name: self.name.clone(), noun: self.noun.clone() }
    }
}

//------------------------------------------------------------------------------------------------
// Thing View

/// Thing view: A view of an entity as a Thing
pub struct ThingView {
    pub id: ID,
    pub tag: String,
    pub thing: ThingComponent,
    pub flag_set: FlagSetComponent,
}

/// The view holds the values of the world's thing.
pub open spec fn thing_view_of(w: &World, v: &ThingView) -> bool {
    &&& v.id < w.n()
    &&& v.tag@ == w.tag_of(v.id)
    &&& w.is_thing_spec(v.id)
    &&& v.thing == w.things@[v.id]
    &&& v.flag_set.set@ == w.flag_sets@[v.id].set@
}

impl ThingView {
    /// Creates a ThingView for the entity.
    pub fn from(world: &World, id: ID) -> (res: ThingView)
        requires
            world.wf(),
            id < world.n(),
            world.is_thing_spec(id),
        ensures
            res.id == id,
            thing_view_of(world, &res),
    {
        let tc = &world.tags[id];
        ThingView {
            id: tc.id,
            tag: tc.tag.clone(),
            thing: world.things.get(&id).unwrap().copy(),
            flag_set: world.flag_sets.get(&id).unwrap().copy(),
        }
    }

    /// Save the thing back to the world.  Only the flags can be changed.
    pub fn save(&self, world: &mut World)
        requires
            old(world).wf(),
            self.id < old(world).n(),
            self.flag_set.wf(),
        ensures
            final(world).wf(),
            *final(world) == (World { flag_sets: final(world).flag_sets, ..*old(world) }),
            final(world).flag_sets@.dom() == old(world).flag_sets@.dom().insert(self.id),
            forall|x: ID| x != self.id && #[trigger] old(world).flag_sets@.contains_key(x) ==> final(world).flag_sets@[x] == old(world).flag_sets@[x],
            final(world).flag_sets@[self.id].set@ == self.flag_set.set@,
    {
        world.flag_sets.insert(self.id, self.flag_set.copy());
        proof {
            lemma_wf_tags_same(old(world), world);
            lemma_wf_hooks_extends(old(world), world);
        }
    }
}

/// Saving a thing view just made from the world changes nothing that the world shows.
pub proof fn law_thing_view_roundtrip(w0: &World, w1: &World, v: &ThingView)
    requires
        thing_view_of(w0, v),
        *w1 == (World { flag_sets: w1.flag_sets, ..*w0 }),
        w1.flag_sets@.dom() == w0.flag_sets@.dom().insert(v.id),
        forall|x: ID| x != v.id && #[trigger] w0.flag_sets@.contains_key(x) ==> w1.flag_sets@[x]
            == w0.flag_sets@[x],
        w1.flag_sets@[v.id].set@ == v.flag_set.set@,
    ensures
        w1.model() == w0.model(),
        w1.flag_sets@.dom() == w0.flag_sets@.dom(),
{
    assert(w1.model().flags =~= w0.model().flags);
    assert(w1.flag_sets@.dom() =~= w0.flag_sets@.dom());
}

} // verus!
