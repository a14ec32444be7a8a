//! The Rule System: guards that decide whether events may happen, and rules that fire
//! when events happen.
use vstd::prelude::*;
use crate::types::Action;
use crate::types::Event;
use crate::types::Flag;
use crate::types::FlagView;
use crate::types::ID;
use crate::entity::rule_component::RuleComponent;
use crate::world::World;
use crate::world::WorldModel;
use crate::world::script_output;
use crate::world::texts;

verus! {

broadcast use vstd::std_specs::hash::group_hash_axioms;

/// The first guard for the event among the rules with IDs `i..n`, in order of ID.
pub open spec fn guard_from(w: &World, e: Event, i: nat) -> Option<ID>
    decreases w.n() - i,
{
    if i >= w.n() {
        None
    } else if w.rules@.contains_key(i as ID) && w.rules@[i as ID].is_guard && w.rules@[i as ID].event
        == e {
        Some(i as ID)
    } else {
        guard_from(w, e, i + 1)
    }
}

/// The guard that decides whether the event is allowed: the first one, in order of ID.
pub open spec fn guard_for(w: &World, e: Event) -> Option<ID> {
    guard_from(w, e, 0)
}

/// Is the event allowed?  It is, unless its guard's predicate holds.
pub open spec fn allowed(w: &World, e: Event) -> bool {
    match guard_for(w, e) {
        Some(id) => !w.holds(w.rules@[id].predicate),
        None => true,
    }
}

/// May the rule fire?  Rules marked to fire once may not fire again once they have.
pub open spec fn may_fire(m: WorldModel, rules: Map<ID, RuleComponent>, id: ID) -> bool {
    rules.contains_key(id) && !(m.flags[id].contains(FlagView::FireOnce) && m.flags[id].contains(
        FlagView::Fired,
    ))
}

/// The rules that may fire, in order of ID.
pub open spec fn candidates(w: &World) -> Seq<ID> {
    cands(w.model(), w.rules@, w.n() as nat)
}

/// Does the rule fire for the events in this state?
pub open spec fn fires(m: WorldModel, r: RuleComponent, events: Seq<Event>) -> bool {
    !r.is_guard && events.contains(r.event) && m.holds(r.predicate)
}

/// The state and the printed text after trying the rules in order.  A rule that fires
/// executes its script and is marked as fired.
pub open spec fn fire_spec(
    m: WorldModel,
    rules: Map<ID, RuleComponent>,
    events: Seq<Event>,
    ids: Seq<ID>,
) -> (WorldModel, Seq<Seq<char>>)
    decreases ids.len(),
{
    if ids.len() == 0 {
        (m, Seq::empty())
    } else {
        let (m1, o1) = fire_spec(m, rules, events, ids.drop_last());
        let id = ids.last();
        let r = rules[id];
        if fires(m1, r, events) {
            (
                m1.apply_all(r.script.actions@).with_flag(id, FlagView::Fired),
                o1 + script_output(r.script.actions@),
            )
        } else {
            (m1, o1)
        }
    }
}

/// Executes the guard that applies to the given event (if any), and returns whether or
/// not the event is allowed.  If the event is denied, the guard's script is executed.
pub fn allows(world: &mut World, event: &Event, out: &mut Vec<String>) -> (res: bool)
    requires
        old(world).wf(),
    ensures
        final(world).wf(),
        res == allowed(&*old(world), *event),
        old(world).same_statics(&*final(world)),
        old(world).extended_by(&*final(world)),
        res ==> *final(world) == *old(world) && final(out)@ == old(out)@,
        !res ==> {
            let r = old(world).rules@[guard_for(&*old(world), *event)->Some_0];
            &&& final(world).model() == old(world).model().apply_all(r.script.actions@)
            &&& texts(final(out)@) == texts(old(out)@) + script_output(r.script.actions@)
        },
{
    let n = world.tags.len();
    let mut id: usize = 0;
    while id < n
        invariant
            n == world.n(),
            id <= n,
            world.wf(),
            *world == *old(world),
            out@ == old(out)@,
            guard_for(world, *event) == guard_from(world, *event, id as nat),
        decreases n - id,
    {
        let found = match world.rules.get(&id) {
            Some(rulec) => rulec.is_guard && *event == rulec.event,
            None => false,
        };
        if found {
            let rulec = world.rules.get(&id).unwrap();
            if world.eval(&rulec.predicate) {
                // The action is not allowed; execute the script.
                let script = rulec.script.copy();
                script.execute(world, out);
                return false;
            } else {
                // The action is allowed.
                return true;
            }
        }
        id = id + 1;
    }
    // NEXT, no guard matches; carry on normally.
    true
}

/// Fire all rules for the given event, and execute those whose predicates are met.
pub fn fire_event(world: &mut World, event: &Event, out: &mut Vec<String>)
    requires
        old(world).wf(),
    ensures
        final(world).wf(),
        old(world).same_statics(&*final(world)),
        old(world).extended_by(&*final(world)),
        ({
            let (m, o) = fire_spec(
                old(world).model(),
                old(world).rules@,
                seq![*event],
                candidates(&*old(world)),
            );
            final(world).model() == m && texts(final(out)@) == texts(old(out)@) + o
        }),
{
    let events = [*event];
    assert(events@ =~= seq![*event]);
    fire_events(world, &events, out);
}

/// Fire all rules whose events are in the events set, and execute those whose
/// predicates are met.
pub fn fire_events(world: &mut World, events: &[Event], out: &mut Vec<String>)
    requires
        old(world).wf(),
    ensures
        final(world).wf(),
        old(world).same_statics(&*final(world)),
        old(world).extended_by(&*final(world)),
        ({
            let (m, o) = fire_spec(
                old(world).model(),
                old(world).rules@,
                events@,
                candidates(&*old(world)),
            );
            final(world).model() == m && texts(final(out)@) == texts(old(out)@) + o
        }),
{
    let ghost w0 = *world;
    let ghost o0 = out@;
    // FIRST, collect the rules that may fire.
    let ghost pred = |id: ID| may_fire(w0.model(), w0.rules@, id);
    let ghost all = Seq::new(w0.n(), |i: int| i as ID);
    let n = world.tags.len();
    let mut rules: Vec<ID> = Vec::new();
    let mut id: usize = 0;
    while id < n
        invariant
            n == w0.n(),
            *world == w0,
            w0.wf(),
            id <= n,
            pred == (|id: ID| may_fire(w0.model(), w0.rules@, id)),
            all == Seq::new(w0.n(), |i: int| i as ID),
            rules@ == all.take(id as int).filter(pred),
        decreases n - id,
    {
        proof {
            reveal_with_fuel(Seq::<_>::filter, 1);
            assert(all.take(id + 1).drop_last() =~= all.take(id as int));
        }
        let may = match world.rules.get(&id) {
            Some(_) => !world.has_flag(id, Flag::FireOnce) || !world.has_flag(id, Flag::Fired),
            None => false,
        };
        if may {
            rules.push(id);
        }
        id = id + 1;
    }
    assert(all.take(n as int) =~= all);
    // NEXT, try them in order.
    let mut i: usize = 0;
    while i < rules.len()
        invariant
            i <= rules@.len(),
            rules@ == candidates(&w0),
            pred == (|id: ID| may_fire(w0.model(), w0.rules@, id)),
            all == Seq::new(w0.n(), |i: int| i as ID),
            w0.wf(),
            world.wf(),
            w0.same_statics(&*world),
            w0.extended_by(&*world),
            ({
                let (m, o) = fire_spec(w0.model(), w0.rules@, events@, rules@.take(i as int));
                world.model() == m && texts(out@) == texts(o0) + o
            }),
        decreases rules@.len() - i,
    {
        let id = rules[i];
        assert(rules@.take(i + 1).drop_last() =~= rules@.take(i as int));
        assert(rules@.take(i + 1).last() == id);
        proof {
            all.lemma_filter_pred(pred, i as int);
            assert(pred(id));
        }
        let rulec = world.rules.get(&id).unwrap();
        let mut matches = false;
        let mut k: usize = 0;
        while k < events.len()
            invariant
                k <= events@.len(),
                matches == events@.take(k as int).contains(rulec.event),
            decreases events@.len() - k,
        {
            if events[k] == rulec.event {
                matches = true;
            }
            proof {
                let t = events@.take(k + 1);
                assert(t[k as int] == events@[k as int]);
                if events@.take(k as int).contains(rulec.event) {
                    let j = choose|j: int| 0 <= j < k && events@.take(k as int)[j] == rulec.event;
                    assert(t[j] == rulec.event);
                }
                if t.contains(rulec.event) {
                    let j = choose|j: int| 0 <= j < k + 1 && t[j] == rulec.event;
                    if j < k {
                        assert(events@.take(k as int)[j] == rulec.event);
                    }
                }
            }
            k = k + 1;
        }
        assert(events@.take(k as int) =~= events@);
        if !rulec.is_guard && matches && world.eval(&rulec.predicate) {
            fire_rule(world, id, out);
        }
        i = i + 1;
    }
    assert(rules@.take(i as int) =~= rules@);
}

/// Execute the given rule, and mark it as fired.
fn fire_rule(world: &mut World, id: ID, out: &mut Vec<String>)
    requires
        old(world).wf(),
        old(world).rules@.contains_key(id),
    ensures
        final(world).wf(),
        old(world).same_statics(&*final(world)),
        old(world).extended_by(&*final(world)),
        final(world).model() == old(world).model().apply_all(
            old(world).rules@[id].script.actions@,
        ).with_flag(id, FlagView::Fired),
        texts(final(out)@) == texts(old(out)@) + script_output(
            old(world).rules@[id].script.actions@,
        ),
{
    let script = world.rules.get(&id).unwrap().script.copy();
    script.execute(world, out);
    world.set(id, Flag::Fired);
}

/// A rule that fires only once, and has fired, is no longer a candidate: it does not
/// fire again.
pub proof fn law_once_only(w: &World, id: ID)
    requires
        w.has_flags_spec(id),
        w.flags_of(id).contains(FlagView::FireOnce),
        w.flags_of(id).contains(FlagView::Fired),
    ensures
        !candidates(w).contains(id),
{
    let pred = |x: ID| may_fire(w.model(), w.rules@, x);
    let all = Seq::new(w.n(), |i: int| i as ID);
    if candidates(w).contains(id) {
        let k = choose|k: int| 0 <= k < all.filter(pred).len() && all.filter(pred)[k] == id;
        all.lemma_filter_pred(pred, k);
        assert(pred(id));
    }
}

/// The action does not clear the rule's once-only marks.
pub open spec fn keeps_marks(a: Action, id: ID) -> bool {
    !(a matches Action::UnsetFlag(x, f) && x == id && (f@ == FlagView::FireOnce || f@
        == FlagView::Fired))
}

/// No script of the rules clears the rule's once-only marks.
pub open spec fn marks_kept_by(rules: Map<ID, RuleComponent>, id: ID) -> bool {
    forall|r: ID, i: int|
        rules.contains_key(r) && 0 <= i < rules[r].script.actions@.len() ==> keeps_marks(
            #[trigger] rules[r].script.actions@[i],
            id,
        )
}

/// Actions that keep the rule's marks keep each mark that it has.
proof fn lemma_apply_all_keeps_mark(m: WorldModel, acts: Seq<Action>, id: ID, f: FlagView)
    requires
        f == FlagView::FireOnce || f == FlagView::Fired,
        m.flags[id].contains(f),
        forall|i: int| 0 <= i < acts.len() ==> keeps_marks(#[trigger] acts[i], id),
    ensures
        m.apply_all(acts).flags[id].contains(f),
    decreases acts.len(),
{
    if acts.len() > 0 {
        let rest = acts.drop_last();
        assert forall|i: int| 0 <= i < rest.len() implies keeps_marks(#[trigger] rest[i], id) by {
            assert(rest[i] == acts[i]);
        }
        lemma_apply_all_keeps_mark(m, rest, id, f);
        assert(keeps_marks(acts[acts.len() - 1], id));
    }
}

/// Firing rules keeps each once-only mark that the rule has.
pub proof fn lemma_fire_spec_keeps_mark(
    m: WorldModel,
    rules: Map<ID, RuleComponent>,
    events: Seq<Event>,
    ids: Seq<ID>,
    id: ID,
    f: FlagView,
)
    requires
        f == FlagView::FireOnce || f == FlagView::Fired,
        marks_kept_by(rules, id),
        m.flags[id].contains(f),
        forall|i: int| 0 <= i < ids.len() ==> rules.contains_key(#[trigger] ids[i]),
    ensures
        fire_spec(m, rules, events, ids).0.flags[id].contains(f),
    decreases ids.len(),
{
    if ids.len() > 0 {
        let rest = ids.drop_last();
        assert forall|i: int| 0 <= i < rest.len() implies rules.contains_key(#[trigger] rest[i]) by {
            assert(rest[i] == ids[i]);
        }
        lemma_fire_spec_keeps_mark(m, rules, events, rest, id, f);
        let m1 = fire_spec(m, rules, events, rest).0;
        let last = ids.last();
        assert(rules.contains_key(ids[ids.len() - 1]));
        let acts = rules[last].script.actions@;
        if fires(m1, rules[last], events) {
            assert forall|i: int| 0 <= i < acts.len() implies keeps_marks(#[trigger] acts[i], id) by {
                assert(keeps_marks(rules[last].script.actions@[i], id));
            }
            lemma_apply_all_keeps_mark(m1, acts, id, f);
        }
    }
}

/// The candidates are rules.
proof fn lemma_candidates_are_rules(w: &World)
    ensures
        forall|i: int| 0 <= i < candidates(w).len() ==> w.rules@.contains_key(
            #[trigger] candidates(w)[i],
        ),
{
    let pred = |x: ID| may_fire(w.model(), w.rules@, x);
    let all = Seq::new(w.n(), |i: int| i as ID);
    assert forall|i: int| 0 <= i < candidates(w).len() implies w.rules@.contains_key(
        #[trigger] candidates(w)[i],
    ) by {
        all.lemma_filter_pred(pred, i);
    }
}

/// A rule that fires is marked as fired as soon as its script has run.
pub proof fn law_firing_marks_fired(
    m: WorldModel,
    rules: Map<ID, RuleComponent>,
    events: Seq<Event>,
    ids: Seq<ID>,
    id: ID,
)
    requires
        fires(fire_spec(m, rules, events, ids).0, rules[id], events),
    ensures
        fire_spec(m, rules, events, ids.push(id)).0.flags[id].contains(FlagView::Fired),
{
    assert(ids.push(id).drop_last() =~= ids);
    assert(ids.push(id).last() == id);
}

/// The rules that may fire in the state, among entities `0..n`, in order of ID.
pub open spec fn cands(m: WorldModel, rules: Map<ID, RuleComponent>, n: nat) -> Seq<ID> {
    Seq::new(n, |i: int| i as ID).filter(|id: ID| may_fire(m, rules, id))
}

/// Does the rule's script run when the events are fired in this state?  It does when
/// the rule is a candidate, and fires in the state that the rules before it leave.
pub open spec fn runs_in(
    m: WorldModel,
    rules: Map<ID, RuleComponent>,
    n: nat,
    events: Seq<Event>,
    id: ID,
) -> bool {
    let ids = cands(m, rules, n);
    &&& ids.contains(id)
    &&& fires(fire_spec(m, rules, events, ids.take(ids.index_of(id))).0, rules[id], events)
}

/// The state after each list of events has been fired in turn.
pub open spec fn after_firings(
    m: WorldModel,
    rules: Map<ID, RuleComponent>,
    n: nat,
    firings: Seq<Seq<Event>>,
) -> WorldModel
    decreases firings.len(),
{
    if firings.len() == 0 {
        m
    } else {
        let m1 = after_firings(m, rules, n, firings.drop_last());
        fire_spec(m1, rules, firings.last(), cands(m1, rules, n)).0
    }
}

/// In how many of the firings the rule's script runs.
pub open spec fn times_run(
    m: WorldModel,
    rules: Map<ID, RuleComponent>,
    n: nat,
    firings: Seq<Seq<Event>>,
    id: ID,
) -> nat
    decreases firings.len(),
{
    if firings.len() == 0 {
        0
    } else {
        let rest = firings.drop_last();
        times_run(m, rules, n, rest, id) + if runs_in(
            after_firings(m, rules, n, rest),
            rules,
            n,
            firings.last(),
            id,
        ) {
            1nat
        } else {
            0nat
        }
    }
}

/// The candidates are rules.
proof fn lemma_cands_are_rules(m: WorldModel, rules: Map<ID, RuleComponent>, n: nat)
    ensures
        forall|i: int| 0 <= i < cands(m, rules, n).len() ==> rules.contains_key(
            #[trigger] cands(m, rules, n)[i],
        ),
        forall|i: int| 0 <= i < cands(m, rules, n).len() ==> may_fire(
            m,
            rules,
            #[trigger] cands(m, rules, n)[i],
        ),
{
    let pred = |x: ID| may_fire(m, rules, x);
    let all = Seq::new(n, |i: int| i as ID);
    assert forall|i: int| 0 <= i < cands(m, rules, n).len() implies rules.contains_key(
        #[trigger] cands(m, rules, n)[i],
    ) && may_fire(m, rules, cands(m, rules, n)[i]) by {
        all.lemma_filter_pred(pred, i);
    }
}

/// Firing rules in two runs is firing them in one.
proof fn lemma_fire_spec_split(
    m: WorldModel,
    rules: Map<ID, RuleComponent>,
    events: Seq<Event>,
    a: Seq<ID>,
    b: Seq<ID>,
)
    ensures
        fire_spec(m, rules, events, a + b).0 == fire_spec(
            fire_spec(m, rules, events, a).0,
            rules,
            events,
            b,
        ).0,
    decreases b.len(),
{
    if b.len() == 0 {
        assert(a + b =~= a);
    } else {
        lemma_fire_spec_split(m, rules, events, a, b.drop_last());
        assert((a + b).drop_last() =~= a + b.drop_last());
        assert((a + b).last() == b.last());
    }
}

/// A rule that fires only once has its script run in at most one of any sequence of
/// firings of events, while no script clears its marks.  (`fire_events` fires the
/// events of one list over `candidates(w)`, which is `cands` of the world's state.)
pub proof fn law_once_only_at_most_once(
    m: WorldModel,
    rules: Map<ID, RuleComponent>,
    n: nat,
    firings: Seq<Seq<Event>>,
    id: ID,
)
    requires
        m.flags[id].contains(FlagView::FireOnce),
        marks_kept_by(rules, id),
    ensures
        times_run(m, rules, n, firings, id) <= 1,
        after_firings(m, rules, n, firings).flags[id].contains(FlagView::FireOnce),
        times_run(m, rules, n, firings, id) == 1 ==> after_firings(
            m,
            rules,
            n,
            firings,
        ).flags[id].contains(FlagView::Fired),
    decreases firings.len(),
{
    if firings.len() > 0 {
        let rest = firings.drop_last();
        law_once_only_at_most_once(m, rules, n, rest, id);
        let m1 = after_firings(m, rules, n, rest);
        let events = firings.last();
        let ids = cands(m1, rules, n);
        lemma_cands_are_rules(m1, rules, n);
        lemma_fire_spec_keeps_mark(m1, rules, events, ids, id, FlagView::FireOnce);
        if times_run(m, rules, n, rest, id) == 1 {
            lemma_fire_spec_keeps_mark(m1, rules, events, ids, id, FlagView::Fired);
            if ids.contains(id) {
                let k = ids.index_of(id);
                assert(may_fire(m1, rules, ids[k]));
            }
        }
        if runs_in(m1, rules, n, events, id) {
            let k = ids.index_of(id);
            let pre = ids.take(k);
            let post = ids.subrange(k + 1, ids.len() as int);
            assert(ids[k] == id);
            assert(ids =~= pre.push(id) + post);
            law_firing_marks_fired(m1, rules, events, pre, id);
            lemma_fire_spec_split(m1, rules, events, pre.push(id), post);
            let mk = fire_spec(m1, rules, events, pre.push(id)).0;
            assert forall|i: int| 0 <= i < post.len() implies rules.contains_key(#[trigger] post[i]) by {
                assert(post[i] == ids[k + 1 + i]);
            }
            lemma_fire_spec_keeps_mark(mk, rules, events, post, id, FlagView::Fired);
        }
    }
}

/// A rule that fires only once fires at most once over any sequence of firings: when it
/// fires it is marked as fired, and from then on, while no script clears its marks, each
/// firing of events passes it over and leaves it marked, so that it is passed over in
/// the next one too.
pub proof fn law_once_only_forever(w0: &World, w1: &World, events: Seq<Event>, id: ID)
    requires
        w0.has_flags_spec(id),
        w0.flags_of(id).contains(FlagView::FireOnce),
        w0.flags_of(id).contains(FlagView::Fired),
        marks_kept_by(w0.rules@, id),
        w1.rules@ == w0.rules@,
        w1.flag_sets@.dom() == w0.flag_sets@.dom(),
        w1.model() == fire_spec(w0.model(), w0.rules@, events, candidates(w0)).0,
    ensures
        !candidates(w0).contains(id),
        w1.has_flags_spec(id),
        w1.flags_of(id).contains(FlagView::FireOnce),
        w1.flags_of(id).contains(FlagView::Fired),
        marks_kept_by(w1.rules@, id),
        !candidates(w1).contains(id),
{
    law_once_only(w0, id);
    lemma_candidates_are_rules(w0);
    assert(w0.model().flags[id] == w0.flags_of(id));
    lemma_fire_spec_keeps_mark(w0.model(), w0.rules@, events, candidates(w0), id, FlagView::FireOnce);
    lemma_fire_spec_keeps_mark(w0.model(), w0.rules@, events, candidates(w0), id, FlagView::Fired);
    assert(w1.model().flags[id] == w1.flags_of(id));
    law_once_only(w1, id);
}

/// Events to which no rule is attached change nothing and print nothing.
pub proof fn law_unattached_events(
    m: WorldModel,
    rules: Map<ID, RuleComponent>,
    events: Seq<Event>,
    ids: Seq<ID>,
)
    requires
        forall|i: int|
            0 <= i < ids.len() ==> (#[trigger] rules[ids[i]]).is_guard || !events.contains(
                rules[ids[i]].event,
            ),
    ensures
        fire_spec(m, rules, events, ids) == (m, Seq::<Seq<char>>::empty()),
    decreases ids.len(),
{
    if ids.len() > 0 {
        let rest = ids.drop_last();
        assert forall|i: int| 0 <= i < rest.len() implies (#[trigger] rules[rest[i]]).is_guard
            || !events.contains(rules[rest[i]].event) by {
            assert(rest[i] == ids[i]);
        }
        law_unattached_events(m, rules, events, rest);
        assert(rules[ids[ids.len() - 1]] == rules[ids.last()]);
    }
}

/// The state with the rule marked as fired.
pub open spec fn marked_fired(m: WorldModel, id: ID) -> WorldModel {
    WorldModel {
        clock: m.clock,
        tags: m.tags,
        flags: m.flags.insert(id, m.flags[id].insert(FlagView::Fired)),
        invs: m.invs,
        locs: m.locs,
    }
}

/// A rule that is not marked to fire only once is always a candidate, whether or not
/// it has fired before: it fires each time its event comes and its predicate holds.
pub proof fn law_repeatable_rule_stays_candidate(
    m: WorldModel,
    rules: Map<ID, RuleComponent>,
    n: nat,
    id: ID,
)
    requires
        rules.contains_key(id),
        id < n,
        !m.flags[id].contains(FlagView::FireOnce),
    ensures
        cands(m, rules, n).contains(id),
        cands(marked_fired(m, id), rules, n).contains(id),
{
    let all = Seq::new(n, |i: int| i as ID);
    let m2 = marked_fired(m, id);
    assert(all[id as int] == id);
    assert(may_fire(m, rules, id));
    all.lemma_filter_contains(|x: ID| may_fire(m, rules, x), id as int);
    assert(!m2.flags[id].contains(FlagView::FireOnce));
    assert(may_fire(m2, rules, id));
    all.lemma_filter_contains(|x: ID| may_fire(m2, rules, x), id as int);
}

} // verus!
