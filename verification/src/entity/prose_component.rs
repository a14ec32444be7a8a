//! The prose component.  It stores the entity's prose visuals.
use vstd::prelude::*;
use crate::entity::room_component::assoc;
use crate::types::Predicate;
use crate::types::ProseType;
use crate::types::ProseBuffer;
use crate::types::with_separator;
use crate::types::ID;
use crate::world::World;
use crate::world::WorldModel;

verus! {

/// One step of a prose hook: the text is added when the condition holds.
#[derive(Debug, Clone)]
pub struct ProseClause {
    pub when: Predicate,
    pub text: String,
}

/// A hook to produce prose from the current state of the world.  Each clause whose
/// condition holds adds its text, as a sentence, to the result.
#[derive(Debug, Clone)]
pub struct ProseHook {
    pub clauses: Vec<ProseClause>,
}

impl ProseHook {
    /// Creates the hook
    pub fn new(clauses: Vec<ProseClause>) -> (res: Self)
        ensures
            res.clauses == clauses,
    {
        Self { clauses }
    }
}

/// The text a hook produces in the given state.
pub open spec fn hook_text(m: WorldModel, clauses: Seq<ProseClause>) -> Seq<char>
    decreases clauses.len(),
{
    if clauses.len() == 0 {
        Seq::empty()
    } else {
        let t = hook_text(m, clauses.drop_last());
        if m.holds(clauses.last().when) {
            with_separator(t) + clauses.last().text@
        } else {
            t
        }
    }
}

/// The text for prose that has none of its own.
pub open spec fn default_prose() -> Seq<char> {
    "You don't see anything special."@
}

impl ProseHook {
    /// Call the hook: each clause whose condition holds adds its text.
    pub fn call(&self, world: &World, id: ID) -> (res: String)
        requires
            world.wf(),
            forall|i: int|
                0 <= i < self.clauses@.len() ==> world.pred_ok(#[trigger] self.clauses@[i].when),
        ensures
            res@ == hook_text(world.model(), self.clauses@),
    {
        let mut buff = ProseBuffer::new();
        let mut i: usize = 0;
        while i < self.clauses.len()
            invariant
                world.wf(),
                forall|i: int|
                    0 <= i < self.clauses@.len() ==> world.pred_ok(#[trigger] self.clauses@[i].when),
                i <= self.clauses@.len(),
                buff@ == hook_text(world.model(), self.clauses@.take(i as int)),
            decreases self.clauses@.len() - i,
        {
            assert(self.clauses@.take(i + 1).drop_last() =~= self.clauses@.take(i as int));
            let clause = &self.clauses[i];
            if world.eval(&clause.when) {
                buff.puts(clause.text.as_str());
            }
            i = i + 1;
        }
        assert(self.clauses@.take(i as int) =~= self.clauses@);
        buff.get()
    }
}

/// A Prose value: how to produce a visual string for an entity.
#[derive(Debug, Clone)]
pub enum Prose {
    Default,
    Prose(String),
    Hook(ProseHook),
}

/// The text of the prose in the given state.
pub open spec fn prose_text(m: WorldModel, p: Prose) -> Seq<char> {
    match p {
        Prose::Default => default_prose(),
        Prose::Prose(s) => s@,
        Prose::Hook(h) => hook_text(m, h.clauses@),
    }
}

impl Prose {
    /// Converts the prose to an actual string.
    pub fn as_string(&self, world: &World, id: ID) -> (res: String)
        requires
            world.wf(),
            world.prose_ok(*self),
        ensures
            res@ == prose_text(world.model(), *self),
    {
        match self {
            Prose::Default => crate::types::to_string("You don't see anything special."),
            Prose::Prose(s) => s.clone(),
            Prose::Hook(hook) => hook.call(world, id),
        }
    }
}

/// Information specific to entity prose
#[derive(Debug, Clone)]
pub struct ProseComponent {
    pub types: Vec<(ProseType, Prose)>,
}

impl ProseComponent {
    /// Create a new, empty prose component.
    pub fn new() -> (res: ProseComponent)
        ensures
            res.types@ == Seq::<(ProseType, Prose)>::empty(),
    {
        ProseComponent { types: Vec::new() }
    }

    /// The prose of the given type, if any.
    pub open spec fn prose(&self, pt: ProseType) -> Option<Prose> {
        assoc(self.types@, pt)
    }

    /// Gets the prose of the given type.
    pub fn get(&self, pt: ProseType) -> (res: Option<&Prose>)
        ensures
            match res {
                Some(p) => self.prose(pt) == Some(*p),
                None => self.prose(pt) is None,
            },
    {
        let mut i: usize = self.types.len();
        assert(self.types@.take(i as int) =~= self.types@);
        while i > 0
            invariant
                i <= self.types@.len(),
                assoc(self.types@, pt) == assoc(self.types@.take(i as int), pt),
            decreases i,
        {
            assert(self.types@.take(i as int).drop_last() =~= self.types@.take(i - 1));
            if self.types[i - 1].0 == pt {
                return Some(&self.types[i - 1].1);
            }
            i = i - 1;
        }
        None
    }

    /// Sets the prose of the given type, replacing any earlier one.
    pub fn insert(&mut self, pt: ProseType, prose: Prose)
        ensures
            final(self).types@ == old(self).types@.push((pt, prose)),
            forall|t: ProseType| #[trigger] final(self).prose(t) == if t == pt {
                Some(prose)
            } else {
                old(self).prose(t)
            },
    {
        self.types.push((pt, prose));
        assert(self.types@.drop_last() =~= old(self).types@);
    }
}

//------------------------------------------------------------------------------------------------
// Copies

/// Are the two prose values the same: the same text, or hooks with the same clauses?
pub open spec fn same_prose(a: Prose, b: Prose) -> bool {
    match (a, b) {
        (Prose::Default, Prose::Default) => true,
        (Prose::Prose(s), Prose::Prose(t)) => s == t,
        (Prose::Hook(h), Prose::Hook(g)) => h.clauses@ == g.clauses@,
        _ => false,
    }
}

impl ProseClause {
    /// A copy of the clause.
    pub fn copy(&self) -> (res: ProseClause)
        ensures
            res == *self,
    {
        ProseClause { when: self.when.copy(), text: self.text.clone() }
    }
}

impl ProseHook {
    /// A copy of the hook.
    pub fn copy(&self) -> (res: ProseHook)
        ensures
            res.clauses@ == self.clauses@,
    {
        let mut clauses: Vec<ProseClause> = Vec::new();
        let mut i: usize = 0;
        while i < self.clauses.len()
            invariant
                i <= self.clauses@.len(),
                clauses@ == self.clauses@.take(i as int),
            decreases self.clauses@.len() - i,
        {
            clauses.push(self.clauses[i].copy());
            i = i + 1;
            assert(clauses@ =~= self.clauses@.take(i as int));
        }
        assert(self.clauses@.take(i as int) =~= self.clauses@);
        ProseHook { clauses }
    }
}

impl Prose {
    /// A copy of the prose.
    pub fn copy(&self) -> (res: Prose)
        ensures
            same_prose(res, *self),
    {
        match self {
            Prose::Default => Prose::Default,
            Prose::Prose(s) => Prose::Prose(s.clone()),
            Prose::Hook(h) => Prose::Hook(h.copy()),
        }
    }
}

/// Are the two lists of prose the same, kind for kind?
pub open spec fn same_proses(a: Seq<(ProseType, Prose)>, b: Seq<(ProseType, Prose)>) -> bool {
    &&& a.len() == b.len()
    &&& forall|i: int| 0 <= i < a.len() ==> (#[trigger] a[i]).0 == b[i].0 && same_prose(a[i].1, b[i].1)
}

/// The same prose reads the same in every state.
pub proof fn law_same_prose_text(m: WorldModel, a: Prose, b: Prose)
    requires
        same_prose(a, b),
    ensures
        prose_text(m, a) == prose_text(m, b),
{
}

impl ProseComponent {
    /// A copy of the component.
    pub fn copy(&self) -> (res: ProseComponent)
        ensures
            same_proses(res.types@, self.types@),
    {
        let mut types: Vec<(ProseType, Prose)> = Vec::new();
        let mut i: usize = 0;
        while i < self.types.len()
            invariant
                i <= self.types@.len(),
                same_proses(types@, self.types@.take(i as int)),
            decreases self.types@.len() - i,
        {
            let (pt, p) = &self.types[i];
            types.push((*pt, p.copy()));
            i = i + 1;
        }
        assert(self.types@.take(i as int) =~= self.types@);
        ProseComponent { types }
    }
}

//------------------------------------------------------------------------------------------------
// Prose View

/// Prose view: A view of an entity as a read-only collection of prose
pub struct ProseView {
    pub id: ID,
    pub tag: String,
    pub prose: ProseComponent,
}

impl ProseView {
    /// Creates a ProseView for the entity.
    pub fn from(world: &World, id: ID) -> (res: ProseView)
        requires
            world.wf(),
            id < world.n(),
            world.proses@.contains_key(id),
        ensures
            res.id == id,
            res.tag@ == world.tag_of(id),
            same_proses(res.prose.types@, world.proses@[id].types@),
    {
        let tc = &world.tags[id];
        ProseView {
            id: tc.id,
            tag: tc.tag.clone(),
            prose: world.proses.get(&id).unwrap().copy(),
        }
    }
}

} // verus!
