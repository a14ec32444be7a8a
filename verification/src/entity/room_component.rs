//! The Room Component
use vstd::prelude::*;
use crate::entity::flag_set_component::FlagSetComponent;
use crate::entity::inventory_component::InventoryComponent;
use crate::types::Dir;
use crate::types::LinkDest;
use crate::types::ID;
use crate::world::World;
use crate::world::lemma_wf_hooks_extends;
use crate::world::lemma_wf_tags_same;

verus! {

/// The value bound to a key in an association list; a later entry overrides an
/// earlier one.
pub open spec fn assoc<K, V>(s: Seq<(K, V)>, k: K) -> Option<V>
    decreases s.len(),
{
    if s.len() == 0 {
        None
    } else if s.last().0 == k {
        Some(s.last().1)
    } else {
        assoc(s.drop_last(), k)
    }
}

/// A bound value is one of the list's entries.
pub proof fn lemma_assoc_entry<K, V>(s: Seq<(K, V)>, k: K)
    requires
        assoc(s, k) is Some,
    ensures
        exists|i: int| 0 <= i < s.len() && #[trigger] s[i] == (k, assoc(s, k)->Some_0),
    decreases s.len(),
{
    if s.last().0 == k {
        assert(s[s.len() - 1] == (k, assoc(s, k)->Some_0));
    } else {
        lemma_assoc_entry(s.drop_last(), k);
        let i = choose|i: int|
            0 <= i < s.drop_last().len() && #[trigger] s.drop_last()[i] == (
                k,
                assoc(s.drop_last(), k)->Some_0,
            );
        assert(s[i] == s.drop_last()[i]);
    }
}

/// Information specific to rooms.
#[derive(Debug, Clone)]
pub struct RoomComponent {
    /// The room's name, for display, e.g., "The Town Square"
    pub name: String,
    /// Links from this room to other rooms, by direction.
    pub links: Vec<(Dir, LinkDest)>,
}

impl RoomComponent {
    /// Create a new room with a name and no links.
    pub fn new(name: &str) -> (res: RoomComponent)
        ensures
            res.name@ == name@,
            res.links@ == Seq::<(Dir, LinkDest)>::empty(),
    {
        RoomComponent { name: crate::types::to_string(name), links: Vec::new() }
    }

    /// The link in the given direction, if any.
    pub open spec fn link(&self, dir: Dir) -> Option<LinkDest> {
        assoc(self.links@, dir)
    }

    /// Gets the link in the given direction.
    pub fn get_link(&self, dir: Dir) -> (res: Option<&LinkDest>)
        ensures
            match res {
                Some(l) => self.link(dir) == Some(*l),
                None => self.link(dir) is None,
            },
    {
        let mut i: usize = self.links.len();
        assert(self.links@.take(i as int) =~= self.links@);
        while i > 0
            invariant
                i <= self.links@.len(),
                assoc(self.links@, dir) == assoc(self.links@.take(i as int), dir),
            decreases i,
        {
            assert(self.links@.take(i as int).drop_last() =~= self.links@.take(i - 1));
            if self.links[i - 1].0 == dir {
                return Some(&self.links[i - 1].1);
            }
            i = i - 1;
        }
        None
    }

    /// A copy of the component.
    pub fn copy(&self) -> (res: RoomComponent)
        ensures
            res.name@ == self.name@,
            res.links@ == self.links@,
    {
        let mut links: Vec<(Dir, LinkDest)> = Vec::new();
        let mut i: usize = 0;
        while i < self.links.len()
            invariant
                i <= self.links@.len(),
                links@ == self.links@.take(i as int),
            decreases self.links@.len() - i,
        {
            let (d, l) = &self.links[i];
            links.push((*d, l.copy()));
            i = i + 1;
            assert(links@ =~= self.links@.take(i as int));
        }
        assert(self.links@.take(i as int) =~= self.links@);
        RoomComponent { name: self.name.clone(), links }
    }

    /// Sets the link in the given direction, replacing any earlier one.
    pub fn set_link(&mut self, dir: Dir, dest: LinkDest)
        ensures
            final(self).name == old(self).name,
            final(self).links@ == old(self).links@.push((dir, dest)),
            forall|d: Dir| #[trigger] final(self).link(d) == if d == dir {
                Some(dest)
            } else {
                old(self).link(d)
            },
    {
        self.links.push((dir, dest));
        assert(self.links@.drop_last() =~= old(self).links@);
    }
}

//------------------------------------------------------------------------------------------------
// Room View

/// Room view: A view of an entity as a Room
pub struct RoomView {
    pub id: ID,
    pub tag: String,
    pub room: RoomComponent,
    pub inventory: InventoryComponent,
    pub flag_set: FlagSetComponent,
}

/// The view holds the values of the world's room.
pub open spec fn room_view_of(w: &World, v: &RoomView) -> bool {
    &&& v.id < w.n()
    &&& v.tag@ == w.tag_of(v.id)
    &&& w.is_room_spec(v.id)
    &&& v.room.name@ == w.rooms@[v.id].name@
    &&& v.room.links@ == w.rooms@[v.id].links@
    &&& v.inventory@ == w.inv_of(v.id)
    &&& v.flag_set.set@ == w.flag_sets@[v.id].set@
}

/// The world after the view was saved: its room, inventory and flags are the view's.
pub open spec fn room_view_saved(w0: &World, w1: &World, v: &RoomView) -> bool {
    &&& *w1 == World {
        rooms: w1.rooms,
        inventories: w1.inventories,
        flag_sets: w1.flag_sets,
        ..*w0
    }
    &&& w1.rooms@.dom() == w0.rooms@.dom().insert(v.id)
    &&& w1.inventories@.dom() == w0.inventories@.dom().insert(v.id)
    &&& w1.flag_sets@.dom() == w0.flag_sets@.dom().insert(v.id)
    &&& forall|x: ID| x != v.id && #[trigger] w0.rooms@.contains_key(x) ==> w1.rooms@[x] == w0.rooms@[x]
    &&& forall|x: ID| x != v.id && #[trigger] w0.inventories@.contains_key(x) ==> w1.inventories@[x] == w0.inventories@[x]
    &&& forall|x: ID| x != v.id && #[trigger] w0.flag_sets@.contains_key(x) ==> w1.flag_sets@[x] == w0.flag_sets@[x]
    &&& w1.rooms@[v.id].name@ == v.room.name@
    &&& w1.rooms@[v.id].links@ == v.room.links@
    &&& w1.inv_of(v.id) == v.inventory@
    &&& w1.flag_sets@[v.id].set@ == v.flag_set.set@
}

/// Can the view be saved without breaking the world: its inventory and flags are
/// well formed, and what it holds is located in the room?
pub open spec fn room_view_fits(w: &World, v: &RoomView) -> bool {
    &&& v.id < w.n()
    &&& v.inventory.wf()
    &&& v.flag_set.wf()
    &&& forall|x: ID| #[trigger] v.inventory@.contains(x) ==> w.has_location_spec(x) && w.loc_of(x) == v.id
}

impl RoomView {
    /// Creates a RoomView for the entity.
    pub fn from(world: &World, id: ID) -> (res: RoomView)
        requires
            world.wf(),
            id < world.n(),
            world.is_room_spec(id),
        ensures
            res.id == id,
            room_view_of(world, &res),
    {
        let tc = &world.tags[id];
        RoomView {
            id: tc.id,
            tag: tc.tag.clone(),
            room: world.rooms.get(&id).unwrap().copy(),
            inventory: world.inventories.get(&id).unwrap().copy(),
            flag_set: world.flag_sets.get(&id).unwrap().copy(),
        }
    }

    /// Save the room back to the world.  Replaces the links and inventory.
    pub fn save(&mut self, world: &mut World)
        requires
            old(world).wf(),
            room_view_fits(&*old(world), &*old(self)),
        ensures
            *final(self) == *old(self),
            final(world).wf(),
            room_view_saved(&*old(world), &*final(world), &*old(self)),
    {
        world.rooms.insert(self.id, self.room.copy());
        world.inventories.insert(self.id, self.inventory.copy());
        world.flag_sets.insert(self.id, self.flag_set.copy());
        proof {
            let w0 = old(world);
            let w = &*world;
            lemma_wf_tags_same(w0, w);
            lemma_wf_hooks_extends(w0, w);
            assert forall|o: ID, x: ID|
                #![trigger w.inventories@[o]@.contains(x)]
                w.inventories@.contains_key(o) && w.inventories@[o]@.contains(x) implies w.locations@.contains_key(x) && w.locations@[x].id == o by {
                if o != self.id {
                    assert(w0.inventories@[o]@.contains(x));
                } else {
                    assert(self.inventory@.contains(x));
                }
            }
        }
    }
}

/// Saving a room view just made from the world changes nothing that the world shows.
pub proof fn law_room_view_roundtrip(w0: &World, w1: &World, v: &RoomView)
    requires
        room_view_of(w0, v),
        room_view_saved(w0, w1, v),
    ensures
        w1.model() == w0.model(),
        w1.rooms@.dom() == w0.rooms@.dom(),
        w1.rooms@[v.id].name@ == w0.rooms@[v.id].name@,
        w1.rooms@[v.id].links@ == w0.rooms@[v.id].links@,
{
    assert(w1.model().invs =~= w0.model().invs);
    assert(w1.model().flags =~= w0.model().flags);
    assert(w1.model().locs =~= w0.model().locs);
    assert(w1.rooms@.dom() =~= w0.rooms@.dom());
}

} // verus!
