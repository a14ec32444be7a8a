//! Entity Flags
use vstd::prelude::*;
use crate::types::Flag;
use crate::types::FlagView;

verus! {

/// The values of a sequence of flags.
pub open spec fn flag_views(s: Seq<Flag>) -> Seq<FlagView> {
    s.map_values(|f: Flag| f@)
}

/// The set of flags of an entity, held without repetition.
#[derive(Debug, Clone)]
pub struct FlagSetComponent {
    pub set: Vec<Flag>,
}

impl View for FlagSetComponent {
    type V = Set<FlagView>;

    open spec fn view(&self) -> Set<FlagView> {
        flag_views(self.set@).to_set()
    }
}

impl FlagSetComponent {
    /// No flag value occurs twice.
    pub open spec fn wf(&self) -> bool {
        flag_views(self.set@).no_duplicates()
    }

    /// Create a new, empty flag set component
    pub fn new() -> (res: FlagSetComponent)
        ensures
            res.wf(),
            res@ == Set::<FlagView>::empty(),
    {
        let res = FlagSetComponent { set: Vec::new() };
        assert(res@ =~= Set::<FlagView>::empty());
        res
    }

    /// Gets the number of flags in the set.
    pub fn len(&self) -> (res: usize)
        requires
            self.wf(),
        ensures
            res == self@.len(),
    {
        proof {
            flag_views(self.set@).unique_seq_to_set();
        }
        self.set.len()
    }

    fn index_of(&self, flag: &Flag) -> (res: Option<usize>)
        ensures
            match res {
                Some(i) => i < self.set@.len() && self.set@[i as int]@ == flag@,
                None => !self@.contains(flag@),
            },
    {
        let mut i: usize = 0;
        while i < self.set.len()
            invariant
                i <= self.set@.len(),
                forall|j: int| 0 <= j < i ==> self.set@[j]@ != flag@,
            decreases self.set@.len() - i,
        {
            if self.set[i].same(flag) {
                return Some(i);
            }
            i = i + 1;
        }
        assert(!flag_views(self.set@).contains(flag@)) by {
            if flag_views(self.set@).contains(flag@) {
                let k = choose|k: int|
                    0 <= k < flag_views(self.set@).len() && flag_views(self.set@)[k] == flag@;
                assert(self.set@[k]@ == flag@);
            }
        }
        None
    }

    /// Determines whether the set has the given flag setting.
    pub fn has(&self, flag: Flag) -> (res: bool)
        ensures
            res == self@.contains(flag@),
    {
        match self.index_of(&flag) {
            Some(i) => {
                assert(flag_views(self.set@)[i as int] == flag@);
                true
            },
            None => false,
        }
    }

    /// Sets the flag.
    pub fn set(&mut self, flag: Flag)
        requires
            old(self).wf(),
        ensures
            final(self).wf(),
            final(self)@ == old(self)@.insert(flag@),
    {
        let ghost old_views = flag_views(self.set@);
        let found = self.index_of(&flag);
        if found.is_none() {
            self.set.push(flag);
            assert(flag_views(self.set@) =~= old_views.push(flag@));
            assert forall|f: FlagView|
                self@.contains(f) <==> old(self)@.insert(flag@).contains(f) by {
                if f == flag@ {
                    assert(flag_views(self.set@)[flag_views(self.set@).len() - 1] == f);
                } else if old(self)@.contains(f) {
                    let k = choose|k: int| 0 <= k < old_views.len() && old_views[k] == f;
                    assert(flag_views(self.set@)[k] == f);
                }
            }
        } else {
            let i = found.unwrap();
            assert(flag_views(self.set@)[i as int] == flag@);
        }
        assert(self@ =~= old(self)@.insert(flag@));
    }

    /// Unsets the flag
    pub fn unset(&mut self, flag: Flag)
        requires
            old(self).wf(),
        ensures
            final(self).wf(),
            final(self)@ == old(self)@.remove(flag@),
    {
        match self.index_of(&flag) {
            Some(i) => {
                let ghost s = flag_views(self.set@);
                self.set.remove(i);
                assert(flag_views(self.set@) =~= s.remove(i as int));
                assert forall|f: FlagView|
                    self@.contains(f) <==> old(self)@.remove(flag@).contains(f) by {
                    let t = flag_views(self.set@);
                    if f == flag@ {
                        if t.contains(f) {
                            let k = choose|k: int| 0 <= k < t.len() && t[k] == f;
                            if k < i {
                                assert(s[k] == s[i as int]);
                            } else {
                                assert(s[k + 1] == s[i as int]);
                            }
                        }
                    } else if s.contains(f) {
                        let k = choose|k: int| 0 <= k < s.len() && s[k] == f;
                        if k < i {
                            assert(t[k] == f);
                        } else {
                            assert(t[k - 1] == f);
                        }
                    }
                }
                assert(self@ =~= old(self)@.remove(flag@));
            },
            None => {
                assert(self@ =~= old(self)@.remove(flag@));
            },
        }
    }

    /// The flags in the set, each once.
    pub fn iter(&self) -> (res: Vec<Flag>)
        ensures
            res@ == self.set@,
    {
        let mut res: Vec<Flag> = Vec::new();
        let mut i: usize = 0;
        while i < self.set.len()
            invariant
                i <= self.set@.len(),
                res@ == self.set@.take(i as int),
            decreases self.set@.len() - i,
        {
            res.push(self.set[i]);
            i = i + 1;
            assert(res@ =~= self.set@.take(i as int));
        }
        assert(self.set@.take(i as int) =~= self.set@);
        res
    }

    /// A copy of the component.
    pub fn copy(&self) -> (res: FlagSetComponent)
        ensures
            res.set@ == self.set@,
    {
        FlagSetComponent { set: self.iter() }
    }
}

/// Setting a flag and then asking for it answers yes; the other flags are unchanged.
pub proof fn law_set_then_has(before: FlagSetComponent, after: FlagSetComponent, flag: Flag)
    requires
        after@ == before@.insert(flag@),
    ensures
        after@.contains(flag@),
        forall|g: FlagView| g != flag@ ==> (after@.contains(g) <==> before@.contains(g)),
{
}

/// Clearing a flag and then asking for it answers no; the other flags are unchanged.
pub proof fn law_unset_then_has_not(before: FlagSetComponent, after: FlagSetComponent, flag: Flag)
    requires
        after@ == before@.remove(flag@),
    ensures
        !after@.contains(flag@),
        forall|g: FlagView| g != flag@ ==> (after@.contains(g) <==> before@.contains(g)),
{
}

/// Setting a flag that was not set, and then clearing it, gives back the same flags.
pub proof fn law_set_unset_roundtrip(
    first: FlagSetComponent,
    second: FlagSetComponent,
    third: FlagSetComponent,
    flag: Flag,
)
    requires
        !first@.contains(flag@),
        second@ == first@.insert(flag@),
        third@ == second@.remove(flag@),
    ensures
        third@ == first@,
{
    assert(third@ =~= first@);
}

/// The flag component of an entity, as a set of the scenario's flags.
pub struct FlagComponent {
    pub set: crate::types::flags::FlagSet,
}

impl FlagComponent {
    /// Create a new, empty flag component
    pub fn new() -> (res: FlagComponent)
        ensures
            res.set.wf(),
            res.set@ == Set::<crate::types::flags::Flag>::empty(),
    {
        FlagComponent { set: crate::types::flags::FlagSet::new() }
    }
}

} // verus!
