//! The thinker pass: every tick it lets the thinkers think, one after the
//! other, for as long as the time budget lasts, and picks up on the next
//! tick where it had to stop.

use bevy::utils::Instant;
use std::collections::HashMap;
use vstd::prelude::*;

use crate::actions::ActionState;
use crate::choices::all_scored;
use crate::pickers::Picker;
use crate::scorers::Score;
use crate::thinker::picker_answers;
use crate::thinker::think_spec;
use crate::thinker::thinker_after;
use crate::thinker::valid_pick;
use crate::thinker::Action;
use crate::thinker::Actor;
use crate::thinker::Spawn;
use crate::thinker::Thinker;
use crate::thinker::ThinkerView;

verus! {

broadcast use vstd::std_specs::hash::group_hash_axioms;

/// `bevy::utils::Instant`, a point in time on the monotonic clock. The pass
/// keeps one to measure how long it has been running; it never looks inside.
#[verifier::external_type_specification]
#[verifier::external_body]
pub struct ExInstant(Instant);

/// Reads the monotonic clock, with `Instant::now`. Nothing is claimed about
/// the reading.
#[verifier::external_body]
fn now() -> (start: Instant) {
    Instant::now()
}

/// The nanoseconds that have passed since `start`, from `Instant::elapsed`.
/// Nothing is claimed about their number.
#[verifier::external_body]
fn elapsed_nanos(start: &Instant) -> (nanos: u128) {
    start.elapsed().as_nanos()
}

/// True when `start` is a reading of the clock that a pass took as it
/// began.
pub closed spec fn clock_started(start: Instant) -> bool {
    call_ensures(now, (), start)
}

/// True when `elapsed` is what the clock showed, at some look, as the
/// nanoseconds that had passed since `start`.
pub closed spec fn clock_showed(start: Instant, elapsed: u128) -> bool {
    call_ensures(elapsed_nanos, (&start,), elapsed)
}

/// The budget is looked at each time this many thinkers have thought.
pub const BUDGET_STRIDE: usize = 500;

/// The default budget of a pass: ten milliseconds, in nanoseconds.
pub const DEFAULT_BUDGET_NANOS: u128 = 10_000_000;

/// Where the thinker pass stands, and how long it may take per tick.
#[derive(Debug)]
pub struct ThinkerIterations {
    index: usize,
    max_duration: u128,
}

impl ThinkerIterations {
    /// The number of thinkers that the next pass skips, because earlier
    /// passes have visited them already.
    pub closed spec fn index(&self) -> int {
        self.index as int
    }

    /// The time that a pass may take, in nanoseconds.
    pub closed spec fn max_duration(&self) -> int {
        self.max_duration as int
    }

    /// A pass that starts with the first thinker and may take
    /// `max_duration` nanoseconds per tick.
    pub fn new(max_duration: u128) -> (iterations: Self)
        ensures
            iterations.index() == 0,
            iterations.max_duration() == max_duration,
    {
        ThinkerIterations { index: 0, max_duration }
    }

    /// The number of thinkers that the next pass skips.
    pub fn cursor(&self) -> (index: usize)
        ensures
            index == self.index(),
    {
        self.index
    }
}

impl Default for ThinkerIterations {
    fn default() -> (iterations: Self)
        ensures
            iterations.index() == 0,
            iterations.max_duration() == DEFAULT_BUDGET_NANOS,
    {
        ThinkerIterations::new(DEFAULT_BUDGET_NANOS)
    }
}

/// A thinker with the entity that carries it and the actor it thinks for.
#[derive(Debug)]
pub struct ThinkerEntry<P: Picker> {
    pub entity: u64,
    pub actor: Actor,
    pub thinker: Thinker<P>,
}

/// What the host has to despawn and spawn for one thinker after a pass. The
/// entity of a spawned action goes to [`Thinker::adopt`] of that thinker.
#[derive(Debug, Clone, Copy, PartialEq, Eq, Structural)]
pub struct Order {
    /// The position of the thinker in the list of thinkers.
    pub thinker: usize,
    /// The actor for which an action is spawned.
    pub actor: Actor,
    pub despawn: Option<Action>,
    pub spawn: Option<Spawn>,
}

/// Everything that a pass changes: the thinkers, the table of action
/// states, and the orders collected for the host.
pub struct Pass<P> {
    pub thinkers: Seq<ThinkerView<P>>,
    pub states: Map<u64, ActionState>,
    pub orders: Seq<Order>,
}

/// The thinkers of the entries, as the contracts see them.
pub open spec fn thinker_views<P: Picker>(entries: Seq<ThinkerEntry<P>>) -> Seq<ThinkerView<P>> {
    Seq::new(entries.len(), |i: int| entries[i].thinker@)
}

/// The entities of the entries.
pub open spec fn entities<P: Picker>(entries: Seq<ThinkerEntry<P>>) -> Seq<u64> {
    Seq::new(entries.len(), |i: int| entries[i].entity)
}

/// The actors of the entries.
pub open spec fn actors<P: Picker>(entries: Seq<ThinkerEntry<P>>) -> Seq<Actor> {
    Seq::new(entries.len(), |i: int| entries[i].actor)
}

/// The state of a thinker's current action according to the table.
pub open spec fn current_state_of<P>(
    thinker: ThinkerView<P>,
    states: Map<u64, ActionState>,
) -> Option<ActionState> {
    match thinker.current_action {
        Some((action, _)) => Some(states[action.0]),
        None => None,
    }
}

/// True when the tables hold what thinker number `i` looks up: its own
/// state, the state of its current action and the scores of its choices.
pub open spec fn provided<P>(
    thinkers: Seq<ThinkerView<P>>,
    ids: Seq<u64>,
    states: Map<u64, ActionState>,
    scores: Map<u64, Score>,
    i: int,
) -> bool {
    &&& states.contains_key(ids[i])
    &&& thinkers[i].current_action matches Some((action, _)) ==> states.contains_key(action.0)
    &&& all_scored(thinkers[i].choices, scores)
}

/// Tells whether the tables hold what every thinker looks up. A pass may
/// only run on tables that do.
pub fn provides_all<P: Picker>(
    entries: &Vec<ThinkerEntry<P>>,
    scores: &HashMap<u64, Score>,
    action_states: &HashMap<u64, ActionState>,
) -> (ok: bool)
    ensures
        ok == forall|k: int|
            0 <= k < entries@.len() ==> provided(
                thinker_views(entries@),
                entities(entries@),
                action_states@,
                scores@,
                k,
            ),
{
    let len = entries.len();
    let mut i: usize = 0;
    while i < len
        invariant
            0 <= i <= len,
            entries@.len() == len,
            forall|k: int|
                0 <= k < i ==> provided(
                    thinker_views(entries@),
                    entities(entries@),
                    action_states@,
                    scores@,
                    k,
                ),
        decreases len - i,
    {
        let entry = &entries[i];
        assert(thinker_views(entries@)[i as int] == entry.thinker@);
        assert(entities(entries@)[i as int] == entry.entity);
        let current_known = match entry.thinker.current_action() {
            Some((action, _)) => action_states.contains_key(&action.0),
            None => true,
        };
        if !action_states.contains_key(&entry.entity) || !current_known || !entry.thinker.scored_by(
            scores,
        ) {
            assert(!provided(
                thinker_views(entries@),
                entities(entries@),
                action_states@,
                scores@,
                i as int,
            ));
            return false;
        }
        i = i + 1;
    }
    true
}

/// The pass after thinker number `i` has thought, its picker having picked
/// `picked`: its own new state and the new state of its current action are
/// written to the table, in that order, and what is to be despawned or
/// spawned, if anything, is added to the orders.
pub open spec fn visit<P>(
    pass: Pass<P>,
    ids: Seq<u64>,
    actors: Seq<Actor>,
    picked: Option<int>,
    i: int,
) -> Pass<P> {
    let thinker = pass.thinkers[i];
    let state = pass.states[ids[i]];
    let current_state = current_state_of(thinker, pass.states);
    let thought = think_spec(thinker, state, picked, current_state);
    let own = pass.states.insert(ids[i], thought.state);
    Pass {
        thinkers: pass.thinkers.update(i, thinker_after(thinker, state, picked, current_state)),
        states: match (thinker.current_action, thought.current_state) {
            (Some((action, _)), Some(s)) => own.insert(action.0, s),
            _ => own,
        },
        orders: if thought.despawn.is_some() || thought.spawn.is_some() {
            pass.orders.push(
                Order {
                    thinker: i as usize,
                    actor: actors[i],
                    despawn: thought.despawn,
                    spawn: thought.spawn,
                },
            )
        } else {
            pass.orders
        },
    }
}

/// The pass after the thinkers from number `from` up to, but not including,
/// number `to` have thought, one after the other; `picks[i]` is what the
/// picker of thinker number `i` has picked.
pub open spec fn visit_range<P>(
    pass: Pass<P>,
    ids: Seq<u64>,
    actors: Seq<Actor>,
    picks: Seq<Option<int>>,
    from: int,
    to: int,
) -> Pass<P>
    decreases to - from,
{
    if to <= from {
        pass
    } else {
        visit(
            visit_range(pass, ids, actors, picks, from, to - 1),
            ids,
            actors,
            picks[to - 1],
            to - 1,
        )
    }
}

/// True when `picks` holds, for each thinker, a pick among its choices.
pub open spec fn valid_picks<P>(picks: Seq<Option<int>>, thinkers: Seq<ThinkerView<P>>) -> bool {
    &&& picks.len() == thinkers.len()
    &&& forall|k: int|
        0 <= k < picks.len() ==> valid_pick(#[trigger] picks[k], thinkers[k].choices.len() as int)
}

/// What the thinkers from `from` to `to` do depends on the picks of those
/// thinkers only.
proof fn lemma_visit_range_picks<P>(
    pass: Pass<P>,
    ids: Seq<u64>,
    actors: Seq<Actor>,
    picks: Seq<Option<int>>,
    others: Seq<Option<int>>,
    from: int,
    to: int,
)
    requires
        forall|k: int| from <= k < to ==> picks[k] == others[k],
    ensures
        visit_range(pass, ids, actors, picks, from, to) == visit_range(
            pass,
            ids,
            actors,
            others,
            from,
            to,
        ),
    decreases to - from,
{
    if to > from {
        lemma_visit_range_picks(pass, ids, actors, picks, others, from, to - 1);
    }
}

/// The number of the thinker at which a pass stopped, given the cursor
/// before it, the cursor after it and the number of thinkers. A cursor of
/// zero after the pass means that it went through to the end.
pub open spec fn stopped_at(from: int, next: int, len: int) -> int {
    if next != 0 {
        next
    } else if from < len {
        len
    } else {
        from
    }
}

/// How the cursor moves in one pass over `len` thinkers: either the pass
/// goes through to the end and the cursor returns to zero, or it stops
/// after at least one more thinker, at a multiple of the stride.
pub open spec fn cursor_moves(from: int, next: int, len: int) -> bool {
    next == 0 || (from < next <= len && next % (BUDGET_STRIDE as int) == 0)
}

/// True when, for each thinker from number `from` up to, but not
/// including, number `to`, `picks` holds the pick that the thinker went by
/// when its turn came: what its own picker answered if the thinker was
/// executing by then, and no pick otherwise.
pub open spec fn picks_answered<P: Picker>(
    entries: Seq<ThinkerEntry<P>>,
    scores: HashMap<u64, Score>,
    states: Map<u64, ActionState>,
    picks: Seq<Option<int>>,
    from: int,
    to: int,
) -> bool {
    forall|k: int|
        from <= k < to ==> picker_answers(
            entries[k].thinker,
            scores,
            visit_range(
                pass_start(entries, states),
                entities(entries),
                actors(entries),
                picks,
                from,
                k,
            ).states[entries[k].entity],
            #[trigger] picks[k],
        )
}

/// True when the cursor is at a place where the pass looks at the clock.
pub open spec fn clock_is_due(cursor: int) -> bool {
    cursor % (BUDGET_STRIDE as int) == 0
}

/// Tells whether the pass, with its cursor here, looks at the clock.
pub fn looks_at_clock(cursor: usize) -> (due: bool)
    ensures
        due == clock_is_due(cursor as int),
{
    cursor % BUDGET_STRIDE == 0
}

/// Tells whether a pass that has been running for `elapsed` nanoseconds has
/// used up a budget of `max_duration` nanoseconds: it has once it has run
/// for longer.
pub fn budget_spent(elapsed: u128, max_duration: u128) -> (spent: bool)
    ensures
        spent == (elapsed > max_duration),
{
    elapsed > max_duration
}

/// True when a pass over `len` thinkers that started with the cursor at
/// `from` and left it at `next` went by the clock: `readings[c]` being what
/// the clock showed when the cursor reached `c`, every look before the last
/// found budget left, and the pass stopped at the cursor it left exactly if
/// the look there found the budget spent.
pub open spec fn went_by_clock(
    readings: Seq<u128>,
    from: int,
    next: int,
    len: int,
    max_duration: int,
) -> bool {
    let stop = stopped_at(from, next, len);
    &&& readings.len() == len + 1
    &&& forall|c: int|
        from < c < stop && clock_is_due(c) ==> (#[trigger] readings[c]) <= max_duration
    &&& next != 0 ==> readings[next] > max_duration
    &&& next == 0 && from < stop && clock_is_due(stop) ==> readings[stop] <= max_duration
}

/// True when every look at the clock that a pass took while its cursor
/// moved from `from` up to `to` found budget left: `readings[c]` is what the
/// clock showed when the cursor reached `c`, and it was within the budget.
pub open spec fn budget_lasted(
    start: Instant,
    readings: Seq<u128>,
    from: int,
    to: int,
    max_duration: int,
) -> bool {
    forall|c: int|
        from < c <= to && clock_is_due(c) ==> (#[trigger] readings[c]) <= max_duration
            && clock_showed(start, readings[c])
}

/// The start of the pass in which the thinkers of `entries` take their
/// turns, with the table of states as it is before any of them has.
pub open spec fn pass_start<P: Picker>(
    entries: Seq<ThinkerEntry<P>>,
    states: Map<u64, ActionState>,
) -> Pass<P> {
    Pass { thinkers: thinker_views(entries), states, orders: Seq::empty() }
}

/// When thinker number `i` has had its turn, the picks recorded so far can
/// take its pick in without a change to what they say of the thinkers
/// before it.
proof fn lemma_picks_extend<P: Picker>(
    entries: Seq<ThinkerEntry<P>>,
    scores: HashMap<u64, Score>,
    states: Map<u64, ActionState>,
    earlier: Seq<Option<int>>,
    picked: Option<int>,
    from: int,
    i: int,
)
    requires
        0 <= from <= i < entries.len(),
        valid_picks(earlier, thinker_views(entries)),
        picks_answered(entries, scores, states, earlier, from, i),
        valid_pick(picked, entries[i].thinker@.choices.len() as int),
        picker_answers(
            entries[i].thinker,
            scores,
            visit_range(
                pass_start(entries, states),
                entities(entries),
                actors(entries),
                earlier,
                from,
                i,
            ).states[entries[i].entity],
            picked,
        ),
    ensures
        valid_picks(earlier.update(i, picked), thinker_views(entries)),
        picks_answered(entries, scores, states, earlier.update(i, picked), from, i + 1),
        visit_range(
            pass_start(entries, states),
            entities(entries),
            actors(entries),
            earlier.update(i, picked),
            from,
            i,
        ) == visit_range(
            pass_start(entries, states),
            entities(entries),
            actors(entries),
            earlier,
            from,
            i,
        ),
{
    let picks = earlier.update(i, picked);
    let begin = pass_start(entries, states);
    let ids = entities(entries);
    let acting = actors(entries);
    assert(thinker_views(entries)[i] == entries[i].thinker@);
    assert forall|k: int| from <= k < i + 1 implies picker_answers(
        entries[k].thinker,
        scores,
        visit_range(begin, ids, acting, picks, from, k).states[entries[k].entity],
        #[trigger] picks[k],
    ) by {
        lemma_visit_range_picks(begin, ids, acting, picks, earlier, from, k);
        if k < i {
            assert(picks[k] == earlier[k]);
        }
    }
    lemma_visit_range_picks(begin, ids, acting, picks, earlier, from, i);
}

/// A look at the clock with the cursor at `cursor` leaves what the earlier
/// looks have found as it is.
proof fn lemma_look(
    start: Instant,
    readings: Seq<u128>,
    elapsed: u128,
    from: int,
    cursor: int,
    max_duration: int,
)
    requires
        0 <= from < cursor < readings.len(),
        budget_lasted(start, readings, from, cursor - 1, max_duration),
    ensures
        budget_lasted(start, readings.update(cursor, elapsed), from, cursor - 1, max_duration),
{
    let after = readings.update(cursor, elapsed);
    assert forall|c: int| from < c <= cursor - 1 && clock_is_due(c) implies (#[trigger] after[c])
        <= max_duration && clock_showed(start, after[c]) by {
        assert(after[c] == readings[c]);
    }
}

/// Lets thinker number `i` think and records the outcome.
fn visit_thinker<P: Picker>(
    entries: &mut Vec<ThinkerEntry<P>>,
    scores: &HashMap<u64, Score>,
    action_states: &mut HashMap<u64, ActionState>,
    orders: &mut Vec<Order>,
    i: usize,
)
    requires
        i < old(entries)@.len(),
        provided(
            thinker_views(old(entries)@),
            entities(old(entries)@),
            old(action_states)@,
            scores@,
            i as int,
        ),
    ensures
        final(entries)@.len() == old(entries)@.len(),
        entities(final(entries)@) == entities(old(entries)@),
        actors(final(entries)@) == actors(old(entries)@),
        forall|k: int|
            0 <= k < old(entries)@.len() && k != i ==> #[trigger] final(entries)@[k] == old(
                entries,
            )@[k],
        exists|picked: Option<int>|
            {
                &&& #[trigger] picker_answers(
                    old(entries)@[i as int].thinker,
                    *scores,
                    old(action_states)@[old(entries)@[i as int].entity],
                    picked,
                )
                &&& valid_pick(picked, old(entries)@[i as int].thinker@.choices.len() as int)
                &&& (Pass {
                    thinkers: thinker_views(final(entries)@),
                    states: final(action_states)@,
                    orders: final(orders)@,
                }) == visit(
                    Pass {
                        thinkers: thinker_views(old(entries)@),
                        states: old(action_states)@,
                        orders: old(orders)@,
                    },
                    entities(old(entries)@),
                    actors(old(entries)@),
                    picked,
                    i as int,
                )
            },
{
    let entity = entries[i].entity;
    let actor = entries[i].actor;
    let current = entries[i].thinker.current_action();
    let state = match action_states.get(&entity) {
        Some(s) => *s,
        None => ActionState::Init,
    };
    let current_state = match current {
        Some((action, _)) => match action_states.get(&action.0) {
            Some(s) => Some(*s),
            None => None,
        },
        None => None,
    };
    let ghost thinker = entries@[i as int].thinker;
    assert(thinker_views(entries@)[i as int] == thinker@);
    assert(entities(entries@)[i as int] == entity);
    assert(actors(entries@)[i as int] == actor);
    let thought = entries[i].thinker.think(state, scores, current_state);
    let ghost picked = choose|picked: Option<int>|
        {
            &&& #[trigger] picker_answers(thinker, *scores, state, picked)
            &&& valid_pick(picked, thinker@.choices.len() as int)
            &&& thought == think_spec(thinker@, state, picked, current_state)
            &&& entries@[i as int].thinker@ == thinker_after(
                thinker@,
                state,
                picked,
                current_state,
            )
        };
    action_states.insert(entity, thought.state);
    match (current, thought.current_state) {
        (Some((action, _)), Some(s)) => {
            action_states.insert(action.0, s);
        },
        _ => {},
    }
    if thought.despawn.is_some() || thought.spawn.is_some() {
        orders.push(Order { thinker: i, actor, despawn: thought.despawn, spawn: thought.spawn });
    }
    proof {
        assert(entities(entries@) =~= entities(old(entries)@));
        assert(actors(entries@) =~= actors(old(entries)@));
        assert(thinker_views(entries@) =~= thinker_views(old(entries)@).update(
            i as int,
            entries@[i as int].thinker@,
        ));
        assert(picker_answers(
            old(entries)@[i as int].thinker,
            *scores,
            old(action_states)@[old(entries)@[i as int].entity],
            picked,
        ));
        assert((Pass {
            thinkers: thinker_views(entries@),
            states: action_states@,
            orders: orders@,
        }) == visit(
            Pass {
                thinkers: thinker_views(old(entries)@),
                states: old(action_states)@,
                orders: old(orders)@,
            },
            entities(old(entries)@),
            actors(old(entries)@),
            picked,
            i as int,
        ));
    }
}

/// Runs the thinker pass for one tick.
///
/// The pass skips the thinkers that earlier passes have visited, lets the
/// others think in order and writes the states they decide on to the table.
/// Each time the cursor reaches a multiple of the stride the clock is read,
/// and the pass stops there if it has used up its budget; it goes on from
/// that thinker on the next tick. A pass that reaches the end returns the
/// cursor to zero. The orders tell the host what to despawn and spawn.
///
/// What each thinker does follows from what its picker answers; how far the
/// pass gets follows from what the clock shows.
pub fn thinker_system<P: Picker>(
    iterations: &mut ThinkerIterations,
    entries: &mut Vec<ThinkerEntry<P>>,
    scores: &HashMap<u64, Score>,
    action_states: &mut HashMap<u64, ActionState>,
) -> (orders: Vec<Order>)
    requires
        forall|k: int|
            0 <= k < old(entries)@.len() ==> provided(
                thinker_views(old(entries)@),
                entities(old(entries)@),
                old(action_states)@,
                scores@,
                k,
            ),
    ensures
        final(iterations).max_duration() == old(iterations).max_duration(),
        cursor_moves(
            old(iterations).index(),
            final(iterations).index(),
            old(entries)@.len() as int,
        ),
        final(entries)@.len() == old(entries)@.len(),
        entities(final(entries)@) == entities(old(entries)@),
        actors(final(entries)@) == actors(old(entries)@),
        exists|picks: Seq<Option<int>>|
            {
                &&& valid_picks(picks, thinker_views(old(entries)@))
                &&& picks_answered(
                    old(entries)@,
                    *scores,
                    old(action_states)@,
                    picks,
                    old(iterations).index(),
                    stopped_at(
                        old(iterations).index(),
                        final(iterations).index(),
                        old(entries)@.len() as int,
                    ),
                )
                &&& (Pass {
                    thinkers: thinker_views(final(entries)@),
                    states: final(action_states)@,
                    orders: orders@,
                }) == #[trigger] visit_range(
                    pass_start(old(entries)@, old(action_states)@),
                    entities(old(entries)@),
                    actors(old(entries)@),
                    picks,
                    old(iterations).index(),
                    stopped_at(
                        old(iterations).index(),
                        final(iterations).index(),
                        old(entries)@.len() as int,
                    ),
                )
            },
        exists|start: Instant, readings: Seq<u128>|
            {
                &&& #[trigger] went_by_clock(
                    readings,
                    old(iterations).index(),
                    final(iterations).index(),
                    old(entries)@.len() as int,
                    old(iterations).max_duration(),
                )
                &&& #[trigger] clock_started(start)
                &&& forall|c: int|
                    old(iterations).index() < c <= stopped_at(
                        old(iterations).index(),
                        final(iterations).index(),
                        old(entries)@.len() as int,
                    ) && clock_is_due(c) ==> clock_showed(start, #[trigger] readings[c])
            },
{
    let start = now();
    let len = entries.len();
    let mut orders: Vec<Order> = Vec::new();
    let mut i: usize = iterations.index;
    let mut stopped = false;
    let ghost from = iterations.index as int;
    let ghost max_duration = iterations.max_duration as int;
    let ghost first = entries@;
    let ghost table = action_states@;
    let ghost ids = entities(entries@);
    let ghost acting = actors(entries@);
    let ghost begin = pass_start(first, table);
    let ghost mut picks = Seq::new(len as nat, |k: int| None::<int>);
    let ghost mut readings = Seq::new((len + 1) as nat, |c: int| 0u128);
    while i < len && !stopped
        invariant
            0 <= from <= i,
            i <= len || i == from,
            stopped ==> from < i && clock_is_due(i as int),
            from < i && clock_is_due(i as int) ==> clock_showed(start, readings[i as int]) && (
            stopped <==> readings[i as int] > max_duration),
            from == old(iterations).index(),
            max_duration == old(iterations).max_duration(),
            first == old(entries)@,
            table == old(action_states)@,
            len == first.len(),
            ids == entities(first),
            acting == actors(first),
            begin == pass_start(first, table),
            entries@.len() == len,
            iterations.index == i,
            iterations.max_duration == max_duration,
            entities(entries@) == ids,
            actors(entries@) == acting,
            valid_picks(picks, thinker_views(first)),
            picks_answered(first, *scores, table, picks, from, i as int),
            (Pass {
                thinkers: thinker_views(entries@),
                states: action_states@,
                orders: orders@,
            }) == visit_range(begin, ids, acting, picks, from, i as int),
            forall|k: int|
                i <= k < len ==> provided(thinker_views(entries@), ids, action_states@, scores@, k),
            forall|k: int| i <= k < len ==> #[trigger] entries@[k] == first[k],
            readings.len() == len + 1,
            clock_started(start),
            budget_lasted(start, readings, from, i - 1, max_duration),
        decreases len - i,
    {
        let ghost views = thinker_views(entries@);
        let ghost states = action_states@;
        let ghost collected = orders@;
        let ghost earlier = picks;
        let ghost held = entries@;
        visit_thinker(entries, scores, action_states, &mut orders, i);
        proof {
            let here = Pass { thinkers: views, states, orders: collected };
            assert(held[i as int] == first[i as int]);
            assert(ids[i as int] == first[i as int].entity);
            let picked = choose|picked: Option<int>|
                {
                    &&& #[trigger] picker_answers(
                        held[i as int].thinker,
                        *scores,
                        states[held[i as int].entity],
                        picked,
                    )
                    &&& valid_pick(picked, held[i as int].thinker@.choices.len() as int)
                    &&& (Pass {
                        thinkers: thinker_views(entries@),
                        states: action_states@,
                        orders: orders@,
                    }) == visit(here, ids, acting, picked, i as int)
                };
            lemma_picks_extend(first, *scores, table, earlier, picked, from, i as int);
            picks = earlier.update(i as int, picked);
            assert((Pass {
                thinkers: thinker_views(entries@),
                states: action_states@,
                orders: orders@,
            }) == visit_range(begin, ids, acting, picks, from, i + 1));
            assert forall|k: int| i < k < len implies provided(
                thinker_views(entries@),
                ids,
                action_states@,
                scores@,
                k,
            ) by {
                assert(provided(views, ids, states, scores@, k));
                assert(thinker_views(entries@)[k] == views[k]);
            }
            assert forall|k: int| i < k < len implies #[trigger] entries@[k] == first[k] by {
                assert(entries@[k] == held[k]);
            }
        }
        i = i + 1;
        iterations.index = i;
        if looks_at_clock(i) {
            let elapsed = elapsed_nanos(&start);
            proof {
                assert(clock_showed(start, elapsed));
                lemma_look(start, readings, elapsed, from, i as int, max_duration);
                readings = readings.update(i as int, elapsed);
            }
            stopped = budget_spent(elapsed, iterations.max_duration);
        }
    }
    let ghost stop = stopped_at(from, if stopped { i as int } else { 0 }, len as int);
    if !stopped {
        iterations.index = 0;
    }
    proof {
        assert(stop == i);
        assert(went_by_clock(readings, from, iterations.index as int, len as int, max_duration));
        assert(forall|c: int|
            from < c <= stop && clock_is_due(c) ==> clock_showed(start, #[trigger] readings[c]));
        assert(picks_answered(first, *scores, table, picks, from, stop));
        assert((Pass {
            thinkers: thinker_views(entries@),
            states: action_states@,
            orders: orders@,
        }) == visit_range(pass_start(first, table), entities(first), actors(first), picks, from, stop));
        assert(stop == stopped_at(
            old(iterations).index(),
            iterations.index(),
            old(entries)@.len() as int,
        ));
        assert(exists|p: Seq<Option<int>>|
            {
                &&& valid_picks(p, thinker_views(old(entries)@))
                &&& picks_answered(
                    old(entries)@,
                    *scores,
                    old(action_states)@,
                    p,
                    old(iterations).index(),
                    stopped_at(
                        old(iterations).index(),
                        iterations.index(),
                        old(entries)@.len() as int,
                    ),
                )
                &&& (Pass {
                    thinkers: thinker_views(entries@),
                    states: action_states@,
                    orders: orders@,
                }) == #[trigger] visit_range(
                    pass_start(old(entries)@, old(action_states)@),
                    entities(old(entries)@),
                    actors(old(entries)@),
                    p,
                    old(iterations).index(),
                    stopped_at(
                        old(iterations).index(),
                        iterations.index(),
                        old(entries)@.len() as int,
                    ),
                )
            });
        assert(exists|s: Instant, r: Seq<u128>|
            {
                &&& #[trigger] went_by_clock(
                    r,
                    old(iterations).index(),
                    iterations.index(),
                    old(entries)@.len() as int,
                    old(iterations).max_duration(),
                )
                &&& #[trigger] clock_started(s)
                &&& forall|c: int|
                    old(iterations).index() < c <= stopped_at(
                        old(iterations).index(),
                        iterations.index(),
                        old(entries)@.len() as int,
                    ) && clock_is_due(c) ==> clock_showed(s, #[trigger] r[c])
            });
    }
    orders
}

/// A pass that finds budget left at every look runs through to the end, and
/// a pass that stops has found the budget spent at the cursor it leaves.
pub proof fn lemma_pass_goes_by_clock(
    readings: Seq<u128>,
    from: int,
    next: int,
    len: int,
    max_duration: int,
)
    requires
        0 <= from,
        cursor_moves(from, next, len),
        went_by_clock(readings, from, next, len, max_duration),
    ensures
        (forall|c: int| 0 <= c <= len ==> (#[trigger] readings[c]) <= max_duration) ==> next == 0,
        next != 0 ==> clock_is_due(next) && readings[next] > max_duration,
        stopped_at(from, next, len) < len ==> next != 0,
{
}

/// True when `cursors` records `k` passes in a row over `len` thinkers
/// that all ran out of budget: the first one starts with the first thinker,
/// `cursors[j]` is the cursor before pass number `j`, and `cursors[j + 1]`
/// is the cursor it leaves.
pub open spec fn stopped_passes(cursors: Seq<int>, len: int, k: int) -> bool
    decreases k,
{
    if k <= 0 {
        cursors.len() > 0 && cursors[0] == 0
    } else {
        &&& stopped_passes(cursors, len, k - 1)
        &&& k < cursors.len()
        &&& cursor_moves(cursors[k - 1], cursors[k], len)
        &&& cursors[k] != 0
    }
}

/// True when thinker number `t` thinks in pass number `j` of the passes
/// that `cursors` records.
pub open spec fn thinks_in(cursors: Seq<int>, len: int, j: int, t: int) -> bool {
    cursors[j] <= t < stopped_at(cursors[j], cursors[j + 1], len)
}

/// Each pass that runs out of budget gets at least one stride further, and
/// it stops exactly where the next pass resumes. So no more passes than
/// there are strides among the thinkers can run out of budget in a row.
pub proof fn lemma_stopped_passes_advance(cursors: Seq<int>, len: int, k: int)
    requires
        k >= 0,
        stopped_passes(cursors, len, k),
    ensures
        k < cursors.len(),
        BUDGET_STRIDE * k <= cursors[k],
        k > 0 ==> cursors[k] <= len && stopped_at(cursors[k - 1], cursors[k], len) == cursors[k],
    decreases k,
{
    if k > 0 {
        lemma_stopped_passes_advance(cursors, len, k - 1);
        let previous = cursors[k - 1];
        let here = cursors[k];
        assert(here == BUDGET_STRIDE * (here / (BUDGET_STRIDE as int)));
        assert(here / (BUDGET_STRIDE as int) >= k);
    }
}

/// When a pass goes through to the end after `k` passes in a row ran out
/// of budget, every thinker has thought exactly in the pass whose range
/// holds it: the passes take up the thinkers in order, none is skipped, and
/// all of them are done after no more than one pass per stride and one.
pub proof fn lemma_every_thinker_thinks(cursors: Seq<int>, len: int, k: int, t: int)
    requires
        k >= 0,
        stopped_passes(cursors, len, k),
        k + 1 < cursors.len(),
        cursors[k + 1] == 0,
        0 <= t < len,
    ensures
        BUDGET_STRIDE * k <= len,
        exists|j: int| 0 <= j <= k && thinks_in(cursors, len, j, t),
{
    lemma_stopped_passes_advance(cursors, len, k);
    if cursors[k] <= t {
        assert(thinks_in(cursors, len, k, t));
    } else {
        lemma_thinks_before(cursors, len, k, t);
    }
}

/// A thinker below the cursor that `k` stopped passes have reached has
/// thought in one of them.
proof fn lemma_thinks_before(cursors: Seq<int>, len: int, k: int, t: int)
    requires
        k >= 0,
        stopped_passes(cursors, len, k),
        0 <= t < cursors[k],
    ensures
        exists|j: int| 0 <= j < k && thinks_in(cursors, len, j, t),
    decreases k,
{
    if k > 0 {
        lemma_stopped_passes_advance(cursors, len, k);
        if cursors[k - 1] <= t {
            assert(thinks_in(cursors, len, k - 1, t));
        } else {
            lemma_thinks_before(cursors, len, k - 1, t);
            let j = choose|j: int| 0 <= j < k - 1 && thinks_in(cursors, len, j, t);
            assert(0 <= j < k && thinks_in(cursors, len, j, t));
        }
    }
}

} // verus!
