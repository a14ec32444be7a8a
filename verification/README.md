# Bonaventure

A simple text adventure engine with a small game built on it, written in Verus:
the game logic is executable Rust whose behaviour is stated in `requires` /
`ensures` contracts and proved.

## Layout

* `src/` — the verified library.
  * `world`, `entity/` — the game world, an entity-component store keyed by
    entity ID, with its well-formedness invariants.
  * `world_builder`, `scenario` — the builder API, and the game built with it.
  * `phys`, `visual`, `rule`, `script`, `player_control` — the systems: where
    things are, what the player sees, scenario rules and their scripts, and the
    handling of the player's commands (including undo, restart and the `!`
    debugging commands in `debug`).
  * `command`, `conmark` — splitting input into words, and the console markup
    that turns prose into paragraphs (wrapped with the `textwrap` crate).
  * `lib.rs` — the `Game` object: one turn of play, undo, restart.
* `tests/` — tests of the library, including play-throughs of the scenario.
* `app/` — the console program: reads lines with `rustyline`, runs a turn of
  the game for each, and prints what the game said.

The game does no I/O itself: each turn appends the paragraphs it produces to a
`Vec<String>` that the console prints.

## Rule predicates and prose hooks

Rules decide when to fire, and hooked prose decides what to say, by evaluating a
`Predicate` (`types.rs`): `Always`, `ClockIs(t)`, `Has(tag, flag)`,
`Owns(owner, thing)`, `Not(p)` and `And(p, q)`.  A predicate is data, not a closure
over the world, so that what a rule or a hook does can be stated and proved.  It
covers every rule and hook of the scenario; a scenario that needs another kind of
condition adds a variant.

## The entity model

The world has one entity model: the component store in `world`, keyed by entity
ID, with the views in `entity/` for working on one entity's components at a time.
There is no separate entity object or entity builder (`WorldBuilder` builds
entities), and no book or event components: a book is a thing with `Book` prose,
and what happens on an event is said by rules and guards.  New entity IDs come
from `World::allocate`, which also records the entity's tag.

## Events

Moving into a room, getting a thing and reading it are events (`EnterRoom`,
`GetThing`, `ReadThing`).  The command first asks the guard for the event, if
there is one: when the guard's predicate holds, its script runs and the command
does nothing more.  Otherwise the command does its work and then fires the rules
for the event.  Every turn also fires the rules for `Turn`.
