//! The physical system: where entities are, and how they move.
use vstd::prelude::*;
use crate::types::Flag;
use crate::types::FlagView;
use crate::types::ID;
use crate::world::World;
use crate::entity::inventory_component::added;
use crate::entity::inventory_component::removed;
use crate::world::LIMBO;
use crate::world::lemma_wf_hooks_extends;
use crate::world::lemma_wf_tags_same;

verus! {

broadcast use vstd::std_specs::hash::group_hash_axioms;

impl World {
    /// Is the entity scenery?
    pub open spec fn is_scenery(&self, id: ID) -> bool {
        self.has_flags_spec(id) && self.flags_of(id).contains(FlagView::Scenery)
    }

    /// The world is unchanged apart from inventories and locations.
    pub open spec fn same_but_places(&self, other: &World) -> bool {
        &&& other.pid == self.pid
        &&& other.clock == self.clock
        &&& other.tags@ == self.tags@
        &&& other.flag_sets@ == self.flag_sets@
        &&& other.proses@ == self.proses@
        &&& other.players@ == self.players@
        &&& other.rooms@ == self.rooms@
        &&& other.things@ == self.things@
        &&& other.rules@ == self.rules@
        &&& other.verbs@ == self.verbs@
        &&& other.synonyms@ == self.synonyms@
        &&& other.inventories@.dom() == self.inventories@.dom()
        &&& other.locations@.dom() == self.locations@.dom()
    }

    /// The result of moving `thing` into `inv`: the thing leaves its old place's
    /// inventory, joins the new one, and is located there.
    pub open spec fn moved(&self, other: &World, thing: ID, inv: ID) -> bool {
        let from = self.loc_of(thing);
        &&& self.same_but_places(other)
        &&& other.loc_of(thing) == inv
        &&& forall|x: ID| x != thing && #[trigger] self.locations@.contains_key(x)
            ==> other.locations@[x] == self.locations@[x]
        &&& forall|o: ID|
            #![trigger other.inventories@[o]]
            self.inventories@.contains_key(o) ==> other.inv_of(o).to_set() == if o == inv {
                self.inv_of(o).to_set().insert(thing)
            } else if o == from {
                self.inv_of(o).to_set().remove(thing)
            } else {
                self.inv_of(o).to_set()
            }
    }
}

/// The things in the sequence that are (or are not) scenery.
pub open spec fn scenery_in(w: &World, s: Seq<ID>, scenery: bool) -> Seq<ID> {
    s.filter(scenery_pred(w, scenery))
}

/// Is the thing (or is it not) scenery?
pub open spec fn scenery_pred(w: &World, scenery: bool) -> spec_fn(ID) -> bool {
    |x: ID| w.is_scenery(x) == scenery
}

/// The selected things are in the sequence, and are (or are not) scenery.
pub proof fn lemma_scenery_in(w: &World, s: Seq<ID>, scenery: bool)
    ensures
        forall|i: int|
            0 <= i < scenery_in(w, s, scenery).len() ==> s.contains(
                #[trigger] scenery_in(w, s, scenery)[i],
            ) && w.is_scenery(scenery_in(w, s, scenery)[i]) == scenery,
{
    let pred = scenery_pred(w, scenery);
    assert forall|i: int| 0 <= i < scenery_in(w, s, scenery).len() implies s.contains(
        #[trigger] scenery_in(w, s, scenery)[i],
    ) && w.is_scenery(scenery_in(w, s, scenery)[i]) == scenery by {
        s.lemma_filter_pred(pred, i);
        assert(s.filter(pred).contains(s.filter(pred)[i]));
        s.lemma_filter_contains_rev(pred, s.filter(pred)[i]);
    }
}

/// Returns the location of the entity.
pub fn loc(world: &World, id: ID) -> (res: ID)
    requires
        world.has_location_spec(id),
    ensures
        res == world.loc_of(id),
{
    world.locations.get(&id).unwrap().id
}

/// Returns true if the owner's inventory holds the thing.
pub fn owns(world: &World, owner: ID, thing: ID) -> (res: bool)
    requires
        world.wf(),
    ensures
        res == (world.has_inventory_spec(owner) && world.inv_of(owner).contains(thing)),
{
    match world.inventories.get(&owner) {
        Some(inv) => inv.has(thing),
        None => false,
    }
}

/// The contents of the entity's inventory, in the order they were put there.
pub fn contents(world: &World, id: ID) -> (res: Vec<ID>)
    requires
        world.has_inventory_spec(id),
    ensures
        res@ == world.inv_of(id),
{
    world.inventories.get(&id).unwrap().iter()
}

/// Is the entity scenery?
pub fn is_scenery(world: &World, id: ID) -> (res: bool)
    ensures
        res == world.is_scenery(id),
{
    world.has_flags(id) && world.has_flag(id, Flag::Scenery)
}

fn select(world: &World, ids: &Vec<ID>, scenery: bool) -> (res: Vec<ID>)
    ensures
        res@ == scenery_in(world, ids@, scenery),
{
    let ghost pred = scenery_pred(world, scenery);
    let mut res: Vec<ID> = Vec::new();
    let mut i: usize = 0;
    while i < ids.len()
        invariant
            i <= ids@.len(),
            pred == scenery_pred(world, scenery),
            res@ == ids@.take(i as int).filter(pred),
        decreases ids@.len() - i,
    {
        proof {
            reveal_with_fuel(Seq::<_>::filter, 1);
            assert(ids@.take(i + 1).drop_last() =~= ids@.take(i as int));
        }
        let x = ids[i];
        if is_scenery(world, x) == scenery {
            res.push(x);
        }
        i = i + 1;
    }
    assert(ids@.take(i as int) =~= ids@);
    res
}

/// The scenery in the entity's inventory, in the order they were put there.
pub fn scenery(world: &World, id: ID) -> (res: Vec<ID>)
    requires
        world.has_inventory_spec(id),
    ensures
        res@ == scenery_in(world, world.inv_of(id), true),
{
    let ids = contents(world, id);
    select(world, &ids, true)
}

/// The things in the entity's inventory that are not scenery, in the order they were
/// put there.
pub fn non_scenery(world: &World, id: ID) -> (res: Vec<ID>)
    requires
        world.has_inventory_spec(id),
    ensures
        res@ == scenery_in(world, world.inv_of(id), false),
{
    let ids = contents(world, id);
    select(world, &ids, false)
}

/// The things the player could pick up: those at the player's location that are not
/// scenery.
pub fn gettable(world: &World, pid: ID) -> (res: Vec<ID>)
    requires
        world.wf(),
        world.has_location_spec(pid),
    ensures
        res@ == scenery_in(world, world.inv_of(world.loc_of(pid)), false),
{
    non_scenery(world, loc(world, pid))
}

/// The things the player could drop: those the player holds that are not scenery.
pub fn droppable(world: &World, pid: ID) -> (res: Vec<ID>)
    requires
        world.has_inventory_spec(pid),
    ensures
        res@ == scenery_in(world, world.inv_of(pid), false),
{
    non_scenery(world, pid)
}

/// The things visible to the player: what is at the player's location (including the
/// player), and what the player holds.
pub open spec fn visible_set(w: &World, pid: ID) -> Set<ID> {
    w.inv_of(w.loc_of(pid)).to_set().union(w.inv_of(pid).to_set())
}

/// The things visible to the player: what is at the player's location (including the
/// player), in the order it came there, and then what the player holds.
pub open spec fn visible_ids(w: &World, pid: ID) -> Seq<ID> {
    w.inv_of(w.loc_of(pid)) + w.inv_of(pid)
}

/// The things visible to the player: what is at the player's location (including the
/// player), and then what the player holds.
pub fn visible(world: &World, pid: ID) -> (res: Vec<ID>)
    requires
        world.wf(),
        world.has_location_spec(pid),
        world.has_inventory_spec(pid),
    ensures
        res@ == visible_ids(world, pid),
        res@.to_set() == visible_set(world, pid),
{
    let mut res = contents(world, loc(world, pid));
    let held = contents(world, pid);
    let ghost here = res@;
    let mut i: usize = 0;
    while i < held.len()
        invariant
            i <= held@.len(),
            res@ == here + held@.take(i as int),
        decreases held@.len() - i,
    {
        res.push(held[i]);
        i = i + 1;
        assert(res@ =~= here + held@.take(i as int));
    }
    assert(held@.take(i as int) =~= held@);
    proof {
        assert forall|x: ID| res@.contains(x) <==> visible_set(world, pid).contains(x) by {
            if res@.contains(x) {
                let k = choose|k: int| 0 <= k < res@.len() && res@[k] == x;
                if k < here.len() {
                    assert(here[k] == x);
                } else {
                    assert(held@[k - here.len()] == x);
                }
            }
            if here.contains(x) {
                let k = choose|k: int| 0 <= k < here.len() && here[k] == x;
                assert(res@[k] == x);
            }
            if held@.contains(x) {
                let k = choose|k: int| 0 <= k < held@.len() && held@[k] == x;
                assert(res@[here.len() + k] == x);
            }
        }
        assert(res@.to_set() =~= visible_set(world, pid));
    }
    res
}

/// Moves the thing into the given inventory: it leaves the inventory of its old place
/// and is located in the new one.
pub fn put_in(world: &mut World, thing: ID, inv: ID)
    requires
        old(world).wf(),
        old(world).has_location_spec(thing),
        old(world).has_inventory_spec(inv),
    ensures
        final(world).wf(),
        old(world).extended_by(&*final(world)),
        old(world).moved(&*final(world), thing, inv),
        final(world).model() == old(world).model().with_move(thing, inv),
        final(world).inv_of(inv) == added(
            if inv == old(world).loc_of(thing) {
                removed(old(world).inv_of(inv), thing)
            } else {
                old(world).inv_of(inv)
            },
            thing,
        ),
        inv != old(world).loc_of(thing) ==> final(world).inv_of(old(world).loc_of(thing))
            == removed(old(world).inv_of(old(world).loc_of(thing)), thing),
{
    let from = loc(world, thing);
    let mut src = world.inventories.remove(&from).unwrap();
    src.remove(thing);
    world.inventories.insert(from, src);
    let ghost w1 = *world;
    let mut dst = world.inventories.remove(&inv).unwrap();
    dst.add(thing);
    world.inventories.insert(inv, dst);
    world.locations.insert(thing, crate::entity::location_component::LocationComponent { id: inv });
    proof {
        let w0 = old(world);
        assert(world.inventories@.dom() =~= w0.inventories@.dom());
        assert(world.locations@.dom() =~= w0.locations@.dom());
        lemma_wf_tags_same(w0, world);
        lemma_wf_hooks_extends(w0, world);
        assert forall|o: ID|
            #![trigger world.inventories@[o]]
            w0.inventories@.contains_key(o) implies world.inv_of(o).to_set() == if o == inv {
            w0.inv_of(o).to_set().insert(thing)
        } else if o == from {
            w0.inv_of(o).to_set().remove(thing)
        } else {
            w0.inv_of(o).to_set()
        } by {
            if o == inv && o == from {
                assert(w0.inv_of(o).to_set().remove(thing).insert(thing) =~= w0.inv_of(
                    o,
                ).to_set().insert(thing));
            }
        }
        assert forall|o: ID, x: ID|
            #![trigger world.inventories@[o]@.contains(x)]
            world.inventories@.contains_key(o) && world.inventories@[o]@.contains(x) implies world.locations@.contains_key(x) && world.locations@[x].id == o by {
            assert(world.inv_of(o).to_set().contains(x));
            if x != thing {
                assert(w0.inv_of(o).to_set().contains(x));
                assert(w0.inventories@[o]@.contains(x));
            }
        }
        let m0 = w0.model();
        let m1 = m0.with_move(thing, inv);
        assert(m0.locs[thing] == from);
        assert forall|o: ID| #[trigger] world.model().invs.contains_key(o) implies world.model().invs[o] == m1.invs[o] by {
            assert(world.inventories@[o]@.to_set() == world.inv_of(o).to_set());
        }
        assert(world.model().invs =~= m1.invs);
        assert(world.model().locs =~= m1.locs);
        assert(world.model().flags =~= m1.flags);
    }
}

/// Takes the thing out of its place, putting it in LIMBO.
pub fn take_out(world: &mut World, thing: ID)
    requires
        old(world).wf(),
        old(world).has_location_spec(thing),
        old(world).has_inventory_spec(LIMBO),
    ensures
        final(world).wf(),
        old(world).extended_by(&*final(world)),
        old(world).moved(&*final(world), thing, LIMBO),
        final(world).model() == old(world).model().with_move(thing, LIMBO),
        final(world).inv_of(LIMBO) == added(
            if LIMBO == old(world).loc_of(thing) {
                removed(old(world).inv_of(LIMBO), thing)
            } else {
                old(world).inv_of(LIMBO)
            },
            thing,
        ),
        LIMBO != old(world).loc_of(thing) ==> final(world).inv_of(old(world).loc_of(thing))
            == removed(old(world).inv_of(old(world).loc_of(thing)), thing),
{
    put_in(world, thing, LIMBO);
}

/// A thing is in at most one inventory.
pub proof fn law_one_place(w: &World, a: ID, b: ID, x: ID)
    requires
        w.wf(),
        w.has_inventory_spec(a),
        w.has_inventory_spec(b),
        w.inv_of(a).contains(x),
        w.inv_of(b).contains(x),
    ensures
        a == b,
{
    assert(w.inventories@[a]@.contains(x));
    assert(w.inventories@[b]@.contains(x));
}

/// A thing put in an inventory is there, is located there, and is in no other
/// inventory.
pub proof fn law_put_in(w0: &World, w1: &World, thing: ID, inv: ID)
    requires
        w1.wf(),
        w0.has_inventory_spec(inv),
        w0.moved(w1, thing, inv),
    ensures
        w1.inv_of(inv).contains(thing),
        w1.loc_of(thing) == inv,
        forall|o: ID| o != inv && #[trigger] w1.has_inventory_spec(o) ==> !w1.inv_of(o).contains(thing),
{
    assert(w1.inventories@[inv] == w1.inventories@[inv]);
    assert(w1.inv_of(inv).to_set().contains(thing));
    assert forall|o: ID| o != inv && #[trigger] w1.has_inventory_spec(o) implies !w1.inv_of(
        o,
    ).contains(thing) by {
        if w1.inv_of(o).contains(thing) {
            law_one_place(w1, o, inv, thing);
        }
    }
}

} // verus!
