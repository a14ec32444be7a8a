//! Rule Data
use vstd::prelude::*;
use crate::script::Script;
use crate::types::Event;
use crate::types::Predicate;

verus! {

/// Game rules: actions taken when an event occurs and a predicate is met.  A guard
/// rule decides whether its event is allowed at all.
#[derive(Debug, Clone)]
pub struct RuleComponent {
    pub event: Event,
    pub is_guard: bool,
    pub predicate: Predicate,
    pub script: crate::script::Script,
}

impl RuleComponent {
    /// Creates a new rule that fires every turn.
    pub fn new() -> (res: RuleComponent)
        ensures
            res.event == Event::Turn,
            !res.is_guard,
            res.predicate == Predicate::Always,
            res.script.actions@ == Seq::<crate::types::Action>::empty(),
    {
        RuleComponent {
            event: Event::Turn,
            is_guard: false,
            predicate: Predicate::Always,
            script: Script::new(),
        }
    }

    /// Creates a new standard rule, to which actions can be added.
    pub fn newx(event: Event, predicate: Predicate) -> (res: RuleComponent)
        ensures
            res.event == event,
            !res.is_guard,
            res.predicate == predicate,
            res.script.actions@ == Seq::<crate::types::Action>::empty(),
    {
        RuleComponent { event, is_guard: false, predicate, script: Script::new() }
    }

    /// Creates a new guard rule, to which actions can be added.
    pub fn guard(event: Event, predicate: Predicate) -> (res: RuleComponent)
        ensures
            res.event == event,
            res.is_guard,
            res.predicate == predicate,
            res.script.actions@ == Seq::<crate::types::Action>::empty(),
    {
        RuleComponent { event, is_guard: true, predicate, script: Script::new() }
    }
}

} // verus!
