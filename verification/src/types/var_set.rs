//! Variables and variable sets
use vstd::prelude::*;
use super::ID;

verus! {

/// A game variable
#[derive(PartialEq, Eq, Structural, Hash, Debug, Copy, Clone)]
pub enum Flag {
    /// Has this entity been seen by the player?  Used mostly for locations.
    Seen(ID),
    /// Does the player have dirty hands?
    DirtyHands,
    /// Does the location have clean water?
    HasWater,
    /// Is the thing Scenery?
    Scenery,
    /// Is the thing dirty?
    Dirty,
}

/// Do the two flags have the same variant (e.g., both `Seen(_)`)?
pub open spec fn same_variant(a: Flag, b: Flag) -> bool {
    match (a, b) {
        (Flag::Seen(_), Flag::Seen(_)) => true,
        (Flag::DirtyHands, Flag::DirtyHands) => true,
        (Flag::HasWater, Flag::HasWater) => true,
        (Flag::Scenery, Flag::Scenery) => true,
        (Flag::Dirty, Flag::Dirty) => true,
        _ => false,
    }
}

fn variant_eq(a: &Flag, b: &Flag) -> (res: bool)
    ensures
        res == same_variant(*a, *b),
{
    match (a, b) {
        (Flag::Seen(_), Flag::Seen(_)) => true,
        (Flag::DirtyHands, Flag::DirtyHands) => true,
        (Flag::HasWater, Flag::HasWater) => true,
        (Flag::Scenery, Flag::Scenery) => true,
        (Flag::Dirty, Flag::Dirty) => true,
        _ => false,
    }
}

/// A set of flag values, held without repetition.
#[derive(Debug, Clone)]
pub struct FlagSet {
    pub set: Vec<Flag>,
}

impl View for FlagSet {
    type V = Set<Flag>;

    open spec fn view(&self) -> Set<Flag> {
        self.set@.to_set()
    }
}

impl FlagSet {
    /// No flag occurs twice.
    pub open spec fn wf(&self) -> bool {
        self.set@.no_duplicates()
    }

    /// Creates a new flag set.
    pub fn new() -> (res: FlagSet)
        ensures
            res.wf(),
            res@ == Set::<Flag>::empty(),
    {
        let res = FlagSet { set: Vec::new() };
        assert(res@ =~= Set::<Flag>::empty());
        res
    }

    fn index_of(&self, flag: Flag) -> (res: Option<usize>)
        ensures
            match res {
                Some(i) => i < self.set@.len() && self.set@[i as int] == flag,
                None => !self.set@.contains(flag),
            },
    {
        let mut i: usize = 0;
        while i < self.set.len()
            invariant
                i <= self.set@.len(),
                forall|j: int| 0 <= j < i ==> self.set@[j] != flag,
            decreases self.set@.len() - i,
        {
            if self.set[i] == flag {
                return Some(i);
            }
            i = i + 1;
        }
        None
    }

    /// Determines whether the set has the given flag setting.
    pub fn has(&self, flag: Flag) -> (res: bool)
        ensures
            res == self@.contains(flag),
    {
        self.index_of(flag).is_some()
    }

    /// Sets the flag.
    pub fn set(&mut self, flag: Flag)
        requires
            old(self).wf(),
        ensures
            final(self).wf(),
            final(self)@ == old(self)@.insert(flag),
    {
        if self.index_of(flag).is_none() {
            self.set.push(flag);
            assert forall|f: Flag| self@.contains(f) <==> old(self)@.insert(flag).contains(f) by {
                if f == flag {
                    assert(self.set@[self.set@.len() - 1] == f);
                } else if old(self)@.contains(f) {
                    let k = choose|k: int| 0 <= k < old(self).set@.len() && old(self).set@[k] == f;
                    assert(self.set@[k] == f);
                }
            }
        }
        assert(self@ =~= old(self)@.insert(flag));
    }

    /// Unsets the flag
    pub fn unset(&mut self, flag: Flag)
        requires
            old(self).wf(),
        ensures
            final(self).wf(),
            final(self)@ == old(self)@.remove(flag),
    {
        match self.index_of(flag) {
            Some(i) => {
                let ghost s = self.set@;
                self.set.remove(i);
                assert forall|f: Flag| self@.contains(f) <==> old(self)@.remove(flag).contains(f) by {
                    if f == flag {
                        if self.set@.contains(f) {
                            let k = choose|k: int| 0 <= k < self.set@.len() && self.set@[k] == f;
                            if k < i {
                                assert(s[k] == s[i as int]);
                            } else {
                                assert(s[k + 1] == s[i as int]);
                            }
                        }
                    } else if old(self)@.contains(f) {
                        let k = choose|k: int| 0 <= k < s.len() && s[k] == f;
                        if k < i {
                            assert(self.set@[k] == f);
                        } else {
                            assert(self.set@[k - 1] == f);
                        }
                    }
                }
                assert(self@ =~= old(self)@.remove(flag));
            },
            None => {
                assert(self@ =~= old(self)@.remove(flag));
            },
        }
    }

    /// Replaces all other occurrences of the same flag variant with this flag.
    pub fn replace(&mut self, flag: Flag)
        requires
            old(self).wf(),
        ensures
            final(self).wf(),
            final(self)@ == old(self)@.filter(|f: Flag| !same_variant(f, flag)).insert(flag),
    {
        // FIRST, remove all other occurrences of the same variant, e.g., Seen(_).
        let mut kept: Vec<Flag> = Vec::new();
        let mut i: usize = 0;
        while i < self.set.len()
            invariant
                i <= self.set@.len(),
                self.set@.no_duplicates(),
                kept@.no_duplicates(),
                forall|f: Flag|
                    kept@.contains(f) <==> (exists|j: int|
                        0 <= j < i && self.set@[j] == f && !same_variant(f, flag)),
            decreases self.set@.len() - i,
        {
            let f = self.set[i];
            let ghost old_kept = kept@;
            if !variant_eq(&f, &flag) {
                assert(!kept@.contains(f)) by {
                    if kept@.contains(f) {
                        let j = choose|j: int|
                            0 <= j < i && self.set@[j] == f && !same_variant(f, flag);
                        assert(self.set@[j] == self.set@[i as int]);
                    }
                }
                kept.push(f);
                assert forall|g: Flag| kept@.contains(g) <==> (old_kept.contains(g) || g == f) by {
                    if g == f {
                        assert(kept@[kept@.len() - 1] == g);
                    } else if old_kept.contains(g) {
                        let k = choose|k: int| 0 <= k < old_kept.len() && old_kept[k] == g;
                        assert(kept@[k] == g);
                    } else if kept@.contains(g) {
                        let k = choose|k: int| 0 <= k < kept@.len() && kept@[k] == g;
                        assert(old_kept[k] == g);
                    }
                }
            }
            i = i + 1;
            assert forall|g: Flag|
                kept@.contains(g) <==> (exists|j: int|
                    0 <= j < i && self.set@[j] == g && !same_variant(g, flag)) by {
                if exists|j: int| 0 <= j < i && self.set@[j] == g && !same_variant(g, flag) {
                    let j = choose|j: int| 0 <= j < i && self.set@[j] == g && !same_variant(g, flag);
                    if j < i - 1 {
                        assert(old_kept.contains(g));
                    }
                }
                if old_kept.contains(g) {
                    let j = choose|j: int|
                        0 <= j < i - 1 && self.set@[j] == g && !same_variant(g, flag);
                    assert(0 <= j < i && self.set@[j] == g && !same_variant(g, flag));
                }
                if g == f && !same_variant(f, flag) {
                    assert(self.set@[i - 1] == g);
                }
            }
        }
        self.set = kept;
        assert(self@ =~= old(self)@.filter(|f: Flag| !same_variant(f, flag)));
        // NEXT, add the new one.
        self.set(flag);
    }

    /// The flags in the set, each once.
    pub fn iter(&self) -> (res: Vec<Flag>)
        requires
            self.wf(),
        ensures
            res@.to_set() == self@,
            res@.no_duplicates(),
    {
        self.set.clone()
    }
}

/// After a replace, the new flag is the only flag of its variant in the set, and the
/// flags of other variants are as they were.
pub proof fn law_replace_unique(before: FlagSet, after: FlagSet, flag: Flag)
    requires
        before.wf(),
        after@ == before@.filter(|f: Flag| !same_variant(f, flag)).insert(flag),
    ensures
        after@.contains(flag),
        forall|g: Flag| after@.contains(g) && same_variant(g, flag) ==> g == flag,
        forall|g: Flag| !same_variant(g, flag) ==> (after@.contains(g) <==> before@.contains(g)),
{
}

} // verus!
