//! # Bonaventure: A Text Adventure Framework
//!
//! Bonaventure is a simple text adventure framework.  At present, it is used to
//! implement a single game; see `scenario`.  Eventually it might support multiple
//! games.
use vstd::prelude::*;

pub mod command;
pub mod conmark;
pub mod debug;
pub mod entity;
pub mod phys;
pub mod player_control;
pub mod rule;
pub mod scenario;
pub mod script;
pub mod types;
pub mod visual;
pub mod world;
pub mod world_builder;

use crate::player_control::Player;
use crate::types::Event;
use crate::world::World;
use crate::world::texts;

verus! {

broadcast use vstd::std_specs::hash::group_hash_axioms;

/// The main game object.  It owns the world as it currently is, and supports restart
/// and undo, etc.
pub struct Game {
    /// The current world
    pub world: World,
    /// Undo information
    pub undo_info: Option<World>,
}

/// The world after a turn has elapsed on the clock.
pub open spec fn ticked(w0: World, w1: World) -> bool {
    w1 == World { clock: (w0.clock + 1) as usize, ..w0 }
}

/// The welcome message.
pub open spec fn welcome() -> Seq<char> {
    "Welcome to Bonaventure!\n"@
}

impl Game {
    /// The game can go on: the world, and the one saved for undo, are playable, and
    /// the saved world is no later than the current one.
    pub open spec fn ok(&self) -> bool {
        &&& self.world.playable()
        &&& self.undo_info matches Some(u) ==> u.playable() && u.clock <= self.world.clock
    }

    /// Create the game object
    pub fn new() -> (res: Game)
        ensures
            res.ok(),
            res.undo_info is None,
            res.world.clock == 0,
            res.world.pid == 1,
            scenario::scenario_world(&res.world),
    {
        Game { world: scenario::build(), undo_info: None }
    }

    /// Saves the world state for later undo.  At present, only one turn is saved.
    pub fn save_for_undo(&mut self, undo_info: World)
        ensures
            final(self).world == old(self).world,
            final(self).undo_info == Some(undo_info),
    {
        self.undo_info = Some(undo_info);
    }

    /// Is there any undo info?
    pub fn has_undo(&self) -> (res: bool)
        ensures
            res == self.undo_info is Some,
    {
        self.undo_info.is_some()
    }

    /// Goes back to the saved world.
    pub fn undo(&mut self)
        requires
            old(self).undo_info is Some,
        ensures
            final(self).world == old(self).undo_info->Some_0,
            final(self).undo_info is None,
    {
        let saved = self.undo_info.take();
        match saved {
            Some(w) => {
                self.world = w;
            },
            None => {},
        }
    }
}

/// The first turn: the player looks at the current setting, the command can be
/// undone, the rules for the turn fire, and the clock advances.
pub open spec fn looked(g0: Game, g1: Game, o0: Seq<String>, o1: Seq<String>) -> bool {
    exists|oa: Seq<String>, res: player_control::CmdResult, wf: World, ob: Seq<String>|
        #![trigger player_control::look_spec(&g0.world, &g0.world, o0, oa, res), player_control::fired(&g0.world, &wf, ob, o1, Event::Turn)]
        {
            &&& player_control::look_spec(&g0.world, &g0.world, o0, oa, res)
            &&& match res {
                Ok(_) => ob == oa && (g1.undo_info matches Some(u) && g0.world.same_as(&u)),
                Err(m) => texts(ob) == texts(oa).push(m@) && g1.undo_info == g0.undo_info,
            }
            &&& player_control::fired(&g0.world, &wf, ob, o1, Event::Turn)
            &&& ticked(wf, g1.world)
        }
}

/// The game was introduced: welcomed, then looked.
pub open spec fn introduced(g0: Game, g1: Game, o0: Seq<String>, o1: Seq<String>) -> bool {
    exists|oa: Seq<String>|
        #![trigger looked(g0, g1, oa, o1)]
        texts(oa) == texts(o0).push(welcome()) && looked(g0, g1, oa, o1)
}

/// The game was restarted: it was built afresh from the scenario (the world as the
/// scenario builds it, with nothing to undo), and introduced.
pub open spec fn restarted(g1: Game, o0: Seq<String>, o1: Seq<String>) -> bool {
    exists|g: Game|
        #![trigger introduced(g, g1, o0, o1)]
        {
            &&& g.ok()
            &&& scenario::scenario_world(&g.world)
            &&& g.undo_info is None
            &&& introduced(g, g1, o0, o1)
        }
}

impl Game {
    /// The first turn is always an implicit "look at the current setting"; the clock
    /// then advances, and the rules for the turn fire.
    fn look_turn(&mut self, out: &mut Vec<String>)
        requires
            old(self).ok(),
            old(self).world.clock < usize::MAX,
        ensures
            final(self).ok(),
            final(self).world.clock == old(self).world.clock + 1,
            looked(*old(self), *final(self), old(out)@, final(out)@),
    {
        let undo_info = self.world.clone();
        proof {
            player_control::lemma_same_as_playable(&self.world, &undo_info);
        }
        let player = Player { id: self.world.pid, loc: phys::loc(&self.world, self.world.pid) };
        let res = player_control::cmd_look(&self.world, &player, out);
        let ghost oa = old(out)@;
        let ghost ob = out@;
        match &res {
            Ok(_) => self.save_for_undo(undo_info),
            Err(msg) => visual::error(msg.as_str(), out),
        }
        let ghost oc = out@;
        let ghost w0 = self.world;
        rule::fire_event(&mut self.world, &Event::Turn, out);
        let ghost wf = self.world;
        self.world.clock = self.world.clock + 1;
        proof {
            crate::world::lemma_wf_tags_same(&wf, &self.world);
            crate::world::lemma_wf_hooks_extends(&wf, &self.world);
            assert(player_control::fired(&w0, &wf, oc, out@, Event::Turn));
            assert(ticked(wf, self.world));
        }
    }

    /// Introduce the game: print a welcome message, and visualize the initial location
    pub fn introduce(&mut self, out: &mut Vec<String>)
        requires
            old(self).ok(),
            old(self).world.clock < usize::MAX,
        ensures
            final(self).ok(),
            final(self).world.clock == old(self).world.clock + 1,
            introduced(*old(self), *final(self), old(out)@, final(out)@),
    {
        visual::info("Welcome to Bonaventure!\n", out);
        let ghost oa = out@;
        self.look_turn(out);
        assert(looked(*old(self), *self, oa, out@));
    }

    /// Restart the game: recreate the initial scenario, and introduce it.
    pub fn restart(&mut self, out: &mut Vec<String>)
        ensures
            final(self).ok(),
            final(self).world.clock == 1,
            restarted(*final(self), old(out)@, final(out)@),
    {
        self.world = scenario::build();
        self.undo_info = None;
        let ghost g = *self;
        self.introduce(out);
        assert(introduced(g, *self, old(out)@, out@));
    }
}

/// What a turn does: the Player Control system handles the input; unless the player
/// quits, the rules for the turn then fire, and the clock advances.
pub open spec fn turn_spec(
    g0: Game,
    g1: Game,
    o0: Seq<String>,
    o1: Seq<String>,
    input: Seq<char>,
    quit: bool,
) -> bool {
    exists|gs: Game, os: Seq<String>|
        #![trigger player_control::system_spec(g0, gs, o0, os, input, quit)]
        {
            &&& player_control::system_spec(g0, gs, o0, os, input, quit)
            &&& if quit {
                g1 == gs && o1 == os
            } else {
                exists|wf: World|
                    #![trigger player_control::fired(&gs.world, &wf, os, o1, Event::Turn)]
                    {
                        &&& player_control::fired(&gs.world, &wf, os, o1, Event::Turn)
                        &&& ticked(wf, g1.world)
                        &&& g1.undo_info == gs.undo_info
                    }
            }
        }
}

impl Game {
    /// Execute one game turn: the player does what he does, the rules for the turn
    /// fire, and the clock advances.  Returns true when the player quits, in which
    /// case nothing more happens.  The clock advances by one with each turn, counted
    /// from the time of the world the command leaves: undo brings back the time of
    /// the saved world, and restart begins the clock again.
    pub fn turn(&mut self, cmd: &str, out: &mut Vec<String>) -> (quit: bool)
        requires
            old(self).ok(),
            old(self).world.clock < usize::MAX - 1,
        ensures
            final(self).ok(),
            !quit ==> {
                ||| final(self).world.clock == old(self).world.clock + 1
                ||| old(self).undo_info matches Some(u) && final(self).world.clock == u.clock + 1
                ||| final(self).world.clock == 2
            },
            turn_spec(*old(self), *final(self), old(out)@, final(out)@, cmd@, quit),
    {
        // FIRST, let the player do what he does.
        let quit = player_control::system(self, cmd, out);
        let ghost gs = *self;
        let ghost os = out@;
        if quit {
            return true;
        }
        // NEXT, handle rules
        rule::fire_event(&mut self.world, &Event::Turn, out);
        let ghost wf = self.world;
        // NEXT, Increment the clock
        self.world.clock = self.world.clock + 1;
        proof {
            crate::world::lemma_wf_tags_same(&wf, &self.world);
            crate::world::lemma_wf_hooks_extends(&wf, &self.world);
            assert(player_control::fired(&gs.world, &wf, os, out@, Event::Turn));
            assert(ticked(wf, self.world));
        }
        false
    }
}

impl Default for Game {
    fn default() -> (res: Self)
        ensures
            res.ok(),
            res.undo_info is None,
            res.world.clock == 0,
            res.world.pid == 1,
            scenario::scenario_world(&res.world),
    {
        Self::new()
    }
}

} // verus!
