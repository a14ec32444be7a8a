//! Inventory: the things an entity contains.
use vstd::prelude::*;
use crate::types::ID;
use crate::world::World;
use crate::world::lemma_wf_hooks_extends;
use crate::world::lemma_wf_tags_same;

verus! {

/// The things after `id` is added: at the end, unless it is already there.
pub open spec fn added(s: Seq<ID>, id: ID) -> Seq<ID> {
    if s.contains(id) {
        s
    } else {
        s.push(id)
    }
}

/// The things after `id` is removed: the others stay in their order.
pub open spec fn removed(s: Seq<ID>, id: ID) -> Seq<ID> {
    if s.contains(id) {
        s.remove(s.index_of(id))
    } else {
        s
    }
}

/// Inventories of Things.  The things are kept in the order in which they were added,
/// each at most once.
#[derive(Debug, Clone)]
pub struct InventoryComponent {
    pub things: Vec<ID>,
}

impl View for InventoryComponent {
    type V = Seq<ID>;

    open spec fn view(&self) -> Seq<ID> {
        self.things@
    }
}

impl InventoryComponent {
    /// No thing is listed twice.
    pub open spec fn wf(&self) -> bool {
        self.things@.no_duplicates()
    }

    /// Create a new, empty inventory component
    pub fn new() -> (res: InventoryComponent)
        ensures
            res.wf(),
            res@ == Seq::<ID>::empty(),
    {
        InventoryComponent { things: Vec::new() }
    }

    /// Is the inventory empty?
    pub fn is_empty(&self) -> (res: bool)
        ensures
            res == (self@.len() == 0),
    {
        self.things.len() == 0
    }

    /// The position of `id` in the list, if it is there.
    fn position(&self, id: ID) -> (res: Option<usize>)
        ensures
            match res {
                Some(i) => i < self@.len() && self@[i as int] == id,
                None => !self@.contains(id),
            },
    {
        let mut i: usize = 0;
        while i < self.things.len()
            invariant
                i <= self@.len(),
                forall|k: int| 0 <= k < i ==> self@[k] != id,
            decreases self@.len() - i,
        {
            if self.things[i] == id {
                return Some(i);
            }
            i = i + 1;
        }
        None
    }

    /// Does the inventory contain the thing?
    pub fn has(&self, id: ID) -> (res: bool)
        ensures
            res == self@.contains(id),
    {
        self.position(id).is_some()
    }

    /// Adds the thing to the inventory, at the end, unless it is already there.
    pub fn add(&mut self, id: ID)
        requires
            old(self).wf(),
        ensures
            final(self).wf(),
            final(self)@ == added(old(self)@, id),
            final(self)@.to_set() == old(self)@.to_set().insert(id),
    {
        if !self.has(id) {
            self.things.push(id);
            proof {
                let o = old(self)@;
                assert forall|i: int, j: int| 0 <= i < j < self@.len() implies self@[i]
                    != self@[j] by {
                    if j == o.len() {
                        assert(o[i] == self@[i]);
                    }
                }
            }
        }
        proof {
            let o = old(self)@;
            assert forall|x: ID| self@.contains(x) <==> o.to_set().insert(id).contains(x) by {
                if self@.contains(x) && x != id {
                    let k = choose|k: int| 0 <= k < self@.len() && self@[k] == x;
                    assert(o[k] == x);
                }
                if o.contains(x) {
                    let k = choose|k: int| 0 <= k < o.len() && o[k] == x;
                    assert(self@[k] == x);
                }
                if x == id && !o.contains(id) {
                    assert(self@[o.len() as int] == id);
                }
            }
            assert(self@.to_set() =~= o.to_set().insert(id));
        }
    }

    /// Removes the thing from the inventory; the others keep their order.
    pub fn remove(&mut self, id: ID)
        requires
            old(self).wf(),
        ensures
            final(self).wf(),
            final(self)@ == removed(old(self)@, id),
            final(self)@.to_set() == old(self)@.to_set().remove(id),
    {
        match self.position(id) {
            Some(p) => {
                let ghost o = old(self)@;
                self.things.remove(p);
                proof {
                    assert(o.contains(id));
                    let q = o.index_of(id);
                    assert(o[q] == id);
                    assert(q == p);
                    assert(self@ =~= o.remove(p as int));
                    assert forall|i: int, j: int| 0 <= i < j < self@.len() implies self@[i]
                        != self@[j] by {
                        let oi = if i < p { i } else { i + 1 };
                        let oj = if j < p { j } else { j + 1 };
                        assert(self@[i] == o[oi] && self@[j] == o[oj]);
                    }
                    assert forall|x: ID| self@.contains(x) <==> o.to_set().remove(id).contains(x) by {
                        if self@.contains(x) {
                            let k = choose|k: int| 0 <= k < self@.len() && self@[k] == x;
                            let ok = if k < p { k } else { k + 1 };
                            assert(o[ok] == x);
                            assert(ok != p);
                        }
                        if o.contains(x) && x != id {
                            let k = choose|k: int| 0 <= k < o.len() && o[k] == x;
                            assert(k != p);
                            if k < p {
                                assert(self@[k] == x);
                            } else {
                                assert(self@[k - 1] == x);
                            }
                        }
                    }
                    assert(self@.to_set() =~= o.to_set().remove(id));
                }
            },
            None => {
                assert(self@.to_set() =~= old(self)@.to_set().remove(id));
            },
        }
    }

    /// A copy of the component.
    pub fn copy(&self) -> (res: InventoryComponent)
        ensures
            res@ == self@,
            self.wf() ==> res.wf(),
    {
        InventoryComponent { things: self.iter() }
    }

    /// The contents, in the order in which they were added.
    pub fn iter(&self) -> (res: Vec<ID>)
        ensures
            res@ == self@,
    {
        let mut res: Vec<ID> = Vec::new();
        let mut i: usize = 0;
        while i < self.things.len()
            invariant
                i <= self@.len(),
                res@ == self@.take(i as int),
            decreases self@.len() - i,
        {
            res.push(self.things[i]);
            i = i + 1;
            assert(res@ =~= self@.take(i as int));
        }
        assert(self@.take(i as int) =~= self@);
        res
    }
}

/// Adding an entity and then asking for it answers yes; what was there stays, in its
/// order, and the new one comes last.
pub proof fn law_add_then_has(before: Seq<ID>, id: ID)
    ensures
        added(before, id).contains(id),
        forall|x: ID| before.contains(x) ==> added(before, id).contains(x),
        !before.contains(id) ==> added(before, id).last() == id && added(before, id).drop_last()
            == before,
{
    if !before.contains(id) {
        assert(before.push(id)[before.len() as int] == id);
        assert(before.push(id).drop_last() =~= before);
    }
    assert forall|x: ID| before.contains(x) implies added(before, id).contains(x) by {
        let k = choose|k: int| 0 <= k < before.len() && before[k] == x;
        assert(added(before, id)[k] == x);
    }
}

/// Adding an entity that was not there, and then removing it, gives back the same
/// inventory, in the same order.
pub proof fn law_add_remove_roundtrip(before: Seq<ID>, id: ID)
    requires
        !before.contains(id),
    ensures
        removed(added(before, id), id) == before,
{
    let s = before.push(id);
    assert(s[before.len() as int] == id);
    assert(s.contains(id));
    let q = s.index_of(id);
    if q < before.len() {
        assert(before[q] == id);
    }
    assert(q == before.len());
    assert(s.remove(q) =~= before);
}

//------------------------------------------------------------------------------------------------
// Inventory View

/// Inventory view: A view of an entity as an inventory.
pub struct InventoryView {
    pub id: ID,
    pub tag: String,
    pub inventory: InventoryComponent,
}

impl InventoryView {
    /// Creates an InventoryView for the entity.
    pub fn from(world: &World, id: ID) -> (res: InventoryView)
        requires
            world.wf(),
            id < world.n(),
            world.has_inventory_spec(id),
        ensures
            res.id == id,
            res.tag@ == world.tag_of(id),
            res.inventory@ == world.inv_of(id),
    {
        let tc = &world.tags[id];
        InventoryView {
            id: tc.id,
            tag: tc.tag.clone(),
            inventory: world.inventories.get(&id).unwrap().copy(),
        }
    }

    /// Save the inventory back to the world.
    pub fn save(&self, world: &mut World)
        requires
            old(world).wf(),
            self.id < old(world).n(),
            self.inventory.wf(),
            forall|x: ID| #[trigger]
                self.inventory@.contains(x) ==> old(world).has_location_spec(x) && old(world).loc_of(x) == self.id,
        ensures
            final(world).wf(),
            *final(world) == (World { inventories: final(world).inventories, ..*old(world) }),
            final(world).inventories@.dom() == old(world).inventories@.dom().insert(self.id),
            forall|x: ID| x != self.id && #[trigger] old(world).inventories@.contains_key(x) ==> final(world).inventories@[x] == old(world).inventories@[x],
            final(world).inv_of(self.id) == self.inventory@,
    {
        world.inventories.insert(self.id, self.inventory.copy());
        proof {
            let w0 = old(world);
            let w = &*world;
            lemma_wf_tags_same(w0, w);
            lemma_wf_hooks_extends(w0, w);
            assert forall|o: ID, x: ID|
                #![trigger w.inventories@[o]@.contains(x)]
                w.inventories@.contains_key(o) && w.inventories@[o]@.contains(x) implies w.locations@.contains_key(x) && w.locations@[x].id == o by {
                if o != self.id {
                    assert(w0.inventories@[o]@.contains(x));
                } else {
                    assert(self.inventory@.contains(x));
                }
            }
        }
    }
}

} // verus!
