//! Scripts that mutate the world
use vstd::prelude::*;
use crate::phys;
use crate::types::Action;
use crate::types::Flag;
use crate::types::ID;
use crate::world::World;
use crate::world::LIMBO;
use crate::world::WorldModel;
use crate::world::script_output;
use crate::world::texts;

verus! {

broadcast use vstd::std_specs::hash::group_hash_axioms;

/// A script of actions for execution.  Scripts can be pre-defined and executed
/// later, or created and executed immediately.
#[derive(Debug, Clone)]
pub struct Script {
    pub actions: Vec<Action>,
}

impl World {
    /// Nothing but the changing state of the world differs.
    pub open spec fn same_statics(&self, other: &World) -> bool {
        &&& other.pid == self.pid
        &&& other.clock == self.clock
        &&& other.tags@ == self.tags@
        &&& other.proses@ == self.proses@
        &&& other.players@ == self.players@
        &&& other.rooms@ == self.rooms@
        &&& other.things@ == self.things@
        &&& other.rules@ == self.rules@
        &&& other.verbs@ == self.verbs@
        &&& other.synonyms@ == self.synonyms@
        &&& other.flag_sets@.dom() == self.flag_sets@.dom()
        &&& other.inventories@.dom() == self.inventories@.dom()
        &&& other.locations@.dom() == self.locations@.dom()
    }
}

impl Script {
    /// Creates a new, empty script.
    pub fn new() -> (res: Self)
        ensures
            res.actions@ == Seq::<Action>::empty(),
    {
        Self { actions: Vec::new() }
    }

    /// A copy of the script.
    pub fn copy(&self) -> (res: Script)
        ensures
            res.actions@ == self.actions@,
    {
        let mut actions: Vec<Action> = Vec::new();
        let mut i: usize = 0;
        while i < self.actions.len()
            invariant
                i <= self.actions@.len(),
                actions@ == self.actions@.take(i as int),
            decreases self.actions@.len() - i,
        {
            actions.push(self.actions[i].copy());
            i = i + 1;
            assert(actions@ =~= self.actions@.take(i as int));
        }
        assert(self.actions@.take(i as int) =~= self.actions@);
        Script { actions }
    }

    /// Adds an action to a script.
    pub fn add(&mut self, action: Action)
        ensures
            final(self).actions@ == old(self).actions@.push(action),
    {
        self.actions.push(action);
    }

    /// Executes a script on the world, adding what it prints to `out`.
    pub fn execute(&self, world: &mut World, out: &mut Vec<String>)
        requires
            old(world).wf(),
            old(world).actions_ok(self.actions@),
        ensures
            final(world).wf(),
            old(world).same_statics(&*final(world)),
            old(world).extended_by(&*final(world)),
            final(world).model() == old(world).model().apply_all(self.actions@),
            texts(final(out)@) == texts(old(out)@) + script_output(self.actions@),
    {
        let ghost w0 = *world;
        let ghost o0 = out@;
        let mut i: usize = 0;
        while i < self.actions.len()
            invariant
                i <= self.actions@.len(),
                w0.wf(),
                w0.actions_ok(self.actions@),
                world.wf(),
                w0.same_statics(&*world),
                w0.extended_by(&*world),
                world.model() == w0.model().apply_all(self.actions@.take(i as int)),
                texts(out@) == texts(o0) + script_output(self.actions@.take(i as int)),
            decreases self.actions@.len() - i,
        {
            let ghost w1 = *world;
            let ghost o1 = out@;
            let action = &self.actions[i];
            assert(w0.action_ok(self.actions@[i as int]));
            assert(self.actions@.take(i + 1).drop_last() =~= self.actions@.take(i as int));
            assert(self.actions@.take(i + 1).last() == *action);
            match action {
                // Print the text
                Action::Print(text) => {
                    out.push(text.clone());
                },
                // Set the flag on the entity's flag set
                Action::SetFlag(id, flag) => {
                    world.set(*id, *flag);
                },
                // Clear the flag on the entity's flag set
                Action::UnsetFlag(id, flag) => {
                    world.unset(*id, *flag);
                },
                // Moves a thing to a given place.
                Action::PutIn(thing, inv) => {
                    phys::put_in(world, *thing, *inv);
                },
                // Player/NPC drops thing into its current location.
                Action::Drop(pid, thing) => {
                    let loc = phys::loc(world, *pid);
                    phys::put_in(world, *thing, loc);
                },
                // Swap a, in a place, with b, in LIMBO
                Action::Swap(a, b) => {
                    let loc = phys::loc(world, *a);
                    phys::take_out(world, *a);
                    phys::put_in(world, *b, loc);
                },
                // Kill the player/NPC
                Action::Kill(pid) => {
                    world.set(*pid, Flag::Dead);
                    out.push(crate::types::to_string("*** You have died. ***"));
                },
                // Revive the player/NPC
                Action::Revive(pid) => {
                    world.unset(*pid, Flag::Dead);
                    out.push(crate::types::to_string("*** You are alive! ***"));
                },
            }
            i = i + 1;
            proof {
                assert(texts(out@) =~= texts(o1) + crate::world::action_output(*action));
                assert(texts(o0) + script_output(self.actions@.take(i as int)) =~= texts(o0)
                    + script_output(self.actions@.take(i - 1)) + crate::world::action_output(
                    *action,
                ));
            }
        }
        assert(self.actions@.take(i as int) =~= self.actions@);
    }
}

/// A builder for scripts, for use especially in rule and command hooks.  Create a
/// ScriptBuilder, add actions, and then call get() to retrieve the script.
pub struct ScriptBuilder<'a> {
    pub world: &'a World,
    pub script: Script,
}

impl<'a> ScriptBuilder<'a> {
    /// Creates a new script builder relative to the given world.
    pub fn new(world: &'a World) -> (res: Self)
        ensures
            res.world == world,
            res.script.actions@ == Seq::<Action>::empty(),
    {
        Self { world, script: Script::new() }
    }

    /// Retrieves the finished script.
    pub fn get(self) -> (res: Script)
        ensures
            res == self.script,
    {
        self.script
    }

    /// Adds an action to print the given text string.
    pub fn print(&mut self, text: &str)
        ensures
            final(self).world == old(self).world,
            final(self).script.actions@.len() == old(self).script.actions@.len() + 1,
            final(self).script.actions@.drop_last() == old(self).script.actions@,
            final(self).script.actions@.last() matches Action::Print(t) && t@ == text@,
    {
        self.script.add(Action::Print(crate::types::to_string(text)));
        assert(self.script.actions@.drop_last() =~= old(self).script.actions@);
    }

    /// Adds an action to set the given flag on the tagged entity, which
    /// must exist and have a flag set.
    pub fn set_flag(&mut self, tag: &str, flag: Flag)
        requires
            old(self).world.wf(),
            old(self).world.tag_exists(tag@),
            old(self).world.has_flags_spec(old(self).world.tag_id(tag@)),
        ensures
            final(self).world == old(self).world,
            final(self).script.actions@ == old(self).script.actions@.push(Action::SetFlag(old(self).world.tag_id(tag@), flag)),
    {
        let id = self.world.lookup(tag);
        self.script.add(Action::SetFlag(id, flag));
    }

    /// Adds an action to move the tagged entity, which must exist and
    /// have a location, to LIMBO.
    pub fn forget(&mut self, tag: &str)
        requires
            old(self).world.wf(),
            old(self).world.tag_exists(tag@),
            old(self).world.has_location_spec(old(self).world.tag_id(tag@)),
        ensures
            final(self).world == old(self).world,
            final(self).script.actions@ == old(self).script.actions@.push(Action::PutIn(old(self).world.tag_id(tag@), LIMBO)),
    {
        let id = self.world.lookup(tag);
        self.script.add(Action::PutIn(id, LIMBO));
    }

    /// Adds an action to kill the tagged entity (i.e., set its Dead flag),
    /// which must be the player.
    pub fn kill(&mut self, tag: &str)
        requires
            old(self).world.wf(),
            old(self).world.tag_exists(tag@),
            old(self).world.is_player_spec(old(self).world.tag_id(tag@)),
        ensures
            final(self).world == old(self).world,
            final(self).script.actions@ == old(self).script.actions@.push(Action::Kill(old(self).world.tag_id(tag@))),
    {
        let id = self.world.lookup(tag);
        self.script.add(Action::Kill(id));
    }

    /// Adds an action to revive the tagged entity (i.e., clear its Dead
    /// flag), which must be the player.
    pub fn revive(&mut self, tag: &str)
        requires
            old(self).world.wf(),
            old(self).world.tag_exists(tag@),
            old(self).world.is_player_spec(old(self).world.tag_id(tag@)),
        ensures
            final(self).world == old(self).world,
            final(self).script.actions@ == old(self).script.actions@.push(Action::Revive(old(self).world.tag_id(tag@))),
    {
        let id = self.world.lookup(tag);
        self.script.add(Action::Revive(id));
    }
}

/// Executing one script after another is executing the two as one: the state and the
/// printed text are those of the concatenation.
pub proof fn law_script_concat(m: WorldModel, first: Seq<Action>, second: Seq<Action>)
    ensures
        m.apply_all(first + second) == m.apply_all(first).apply_all(second),
        script_output(first + second) == script_output(first) + script_output(second),
    decreases second.len(),
{
    if second.len() == 0 {
        assert(first + second =~= first);
        assert(script_output(first) + script_output(second) =~= script_output(first));
    } else {
        law_script_concat(m, first, second.drop_last());
        assert((first + second).drop_last() =~= first + second.drop_last());
        assert((first + second).last() == second.last());
        assert(script_output(first + second) =~= script_output(first) + script_output(second));
    }
}

} // verus!
