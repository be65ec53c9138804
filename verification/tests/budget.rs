use std::collections::HashMap;

use big_brain::actions::{ActionBuilderHandle, ActionBuilderId, ActionBuilderWrapper, ActionState};
use big_brain::budget::{
    budget_spent, looks_at_clock, provides_all, thinker_system, Order, ThinkerEntry,
    ThinkerIterations, BUDGET_STRIDE,
    DEFAULT_BUDGET_NANOS,
};
use big_brain::pickers::Highest;
use big_brain::scalar::Scalar;
use big_brain::scorers::{Score, ScorerBuilderHandle};
use big_brain::thinker::{Action, Actor, Scorer, Spawn, Thinker};

use ActionState::{Cancelled, Executing, Init, Requested, Success};

const WORK: ActionBuilderHandle = ActionBuilderHandle(1);

fn number(value: f32) -> Scalar {
    Scalar::from_bits(value.to_bits())
}

fn score(value: f32) -> Score {
    let mut score = Score::default();
    score.set_unchecked(number(value));
    score
}

/// Thinker number `i` lives in entity `i`, thinks for actor `1_000_000 + i`
/// and has one choice, rated by the scorer in entity `2_000_000 + i`.
fn crowd(count: u64, state: ActionState) -> (Vec<ThinkerEntry<Highest>>, HashMap<u64, Score>, HashMap<u64, ActionState>) {
    let mut entries = Vec::new();
    let mut scores = HashMap::new();
    let mut states = HashMap::new();
    for i in 0..count {
        let (thinker, _) = Thinker::build()
            .picker(Highest)
            .when(ScorerBuilderHandle(1), WORK)
            .build(vec![Scorer(2_000_000 + i)])
            .expect("one scorer");
        entries.push(ThinkerEntry { entity: i, actor: Actor(1_000_000 + i), thinker });
        scores.insert(2_000_000 + i, score(0.5));
        states.insert(i, state);
    }
    (entries, scores, states)
}

fn count_in(states: &HashMap<u64, ActionState>, state: ActionState) -> usize {
    states.values().filter(|s| **s == state).count()
}

#[test]
fn default_budget_is_ten_milliseconds() {
    assert_eq!(DEFAULT_BUDGET_NANOS, 10_000_000);
    assert_eq!(BUDGET_STRIDE, 500);
    assert_eq!(ThinkerIterations::default().cursor(), 0);
    assert_eq!(ThinkerIterations::new(5).cursor(), 0);
}

#[test]
fn pass_with_time_to_spare_visits_every_thinker() {
    let (mut entries, scores, mut states) = crowd(1200, Init);
    let mut iterations = ThinkerIterations::new(u128::MAX);
    let orders = thinker_system(&mut iterations, &mut entries, &scores, &mut states);
    assert!(orders.is_empty());
    assert_eq!(iterations.cursor(), 0);
    assert_eq!(count_in(&states, Requested), 1200);
    let orders = thinker_system(&mut iterations, &mut entries, &scores, &mut states);
    assert!(orders.is_empty());
    assert_eq!(count_in(&states, Executing), 1200);
}

#[test]
fn pass_out_of_budget_resumes_where_it_stopped() {
    let (mut entries, scores, mut states) = crowd(1200, Init);
    // No time at all: every look at the clock ends the pass.
    let mut iterations = ThinkerIterations::new(0);
    let orders = thinker_system(&mut iterations, &mut entries, &scores, &mut states);
    assert!(orders.is_empty());
    assert_eq!(iterations.cursor(), 500);
    for entity in 0..1200 {
        assert_eq!(states[&entity], if entity < 500 { Requested } else { Init }, "{entity}");
    }
    thinker_system(&mut iterations, &mut entries, &scores, &mut states);
    assert_eq!(iterations.cursor(), 1000);
    for entity in 0..1200 {
        assert_eq!(states[&entity], if entity < 1000 { Requested } else { Init }, "{entity}");
    }
    // The third pass reaches the end and starts over.
    thinker_system(&mut iterations, &mut entries, &scores, &mut states);
    assert_eq!(iterations.cursor(), 0);
    assert_eq!(count_in(&states, Requested), 1200);
    thinker_system(&mut iterations, &mut entries, &scores, &mut states);
    assert_eq!(iterations.cursor(), 500);
    assert_eq!(count_in(&states, Executing), 500);
    assert_eq!(count_in(&states, Requested), 700);
}

#[test]
fn pass_that_stops_at_the_last_thinker_starts_over_next_time() {
    let (mut entries, scores, mut states) = crowd(500, Init);
    let mut iterations = ThinkerIterations::new(0);
    thinker_system(&mut iterations, &mut entries, &scores, &mut states);
    assert_eq!(iterations.cursor(), 500);
    assert_eq!(count_in(&states, Requested), 500);
    // Nothing is left of this round: the pass only returns to the start.
    thinker_system(&mut iterations, &mut entries, &scores, &mut states);
    assert_eq!(iterations.cursor(), 0);
    assert_eq!(count_in(&states, Requested), 500);
    thinker_system(&mut iterations, &mut entries, &scores, &mut states);
    assert_eq!(iterations.cursor(), 500);
    assert_eq!(count_in(&states, Executing), 500);
}

#[test]
fn pass_starts_over_when_thinkers_have_gone() {
    let (mut entries, scores, mut states) = crowd(1200, Init);
    let mut iterations = ThinkerIterations::new(0);
    thinker_system(&mut iterations, &mut entries, &scores, &mut states);
    thinker_system(&mut iterations, &mut entries, &scores, &mut states);
    assert_eq!(iterations.cursor(), 1000);
    entries.truncate(800);
    thinker_system(&mut iterations, &mut entries, &scores, &mut states);
    assert_eq!(iterations.cursor(), 0);
    assert_eq!(count_in(&states, Requested), 1000);
}

#[test]
fn pass_without_thinkers_does_nothing() {
    let (mut entries, scores, mut states) = crowd(0, Init);
    let mut iterations = ThinkerIterations::default();
    assert!(thinker_system(&mut iterations, &mut entries, &scores, &mut states).is_empty());
    assert_eq!(iterations.cursor(), 0);
}

#[test]
fn pass_collects_orders_and_writes_states() {
    let (mut entries, mut scores, mut states) = crowd(3, Executing);
    scores.insert(2_000_001, score(0.0));
    let mut iterations = ThinkerIterations::default();
    let orders = thinker_system(&mut iterations, &mut entries, &scores, &mut states);
    let work = ActionBuilderWrapper(ActionBuilderId::Choice(0), WORK);
    let spawn = Some(Spawn { builder: work, state: Requested });
    assert_eq!(
        orders,
        vec![
            Order { thinker: 0, actor: Actor(1_000_000), despawn: None, spawn },
            Order { thinker: 2, actor: Actor(1_000_002), despawn: None, spawn },
        ]
    );
    // The host spawns the actions and hands them over.
    entries[0].thinker.adopt(Action(10), work);
    states.insert(10, Requested);
    entries[2].thinker.adopt(Action(12), work);
    states.insert(12, Requested);
    // The first action succeeds, the choice of the last thinker loses.
    states.insert(10, Success);
    states.insert(12, Executing);
    scores.insert(2_000_002, score(0.0));
    let orders = thinker_system(&mut iterations, &mut entries, &scores, &mut states);
    assert_eq!(
        orders,
        vec![Order {
            thinker: 0,
            actor: Actor(1_000_000),
            despawn: Some(Action(10)),
            spawn: Some(Spawn { builder: work, state: Init }),
        }]
    );
    assert_eq!(entries[0].thinker.current_action(), None);
    assert_eq!(entries[2].thinker.current_action(), Some((Action(12), work)));
    assert_eq!(states[&12], Executing);
    assert_eq!(count_in(&states, Executing), 4);
}

#[test]
fn nested_thinker_sees_what_its_parent_decided_in_the_same_pass() {
    // The second thinker is the action of the first one's only choice.
    let (mut entries, mut scores, mut states) = crowd(2, Executing);
    let nested = ActionBuilderWrapper(ActionBuilderId::Choice(0), WORK);
    entries[0].thinker.adopt(Action(1), nested);
    scores.insert(2_000_000, score(0.0));
    scores.insert(2_000_001, score(0.0));
    states.insert(0, Cancelled);
    let mut iterations = ThinkerIterations::default();
    let orders = thinker_system(&mut iterations, &mut entries, &scores, &mut states);
    assert!(orders.is_empty());
    // The parent cancelled the child, and the child, idle, succeeded at once.
    assert_eq!(states[&0], Cancelled);
    assert_eq!(states[&1], Success);
    let orders = thinker_system(&mut iterations, &mut entries, &scores, &mut states);
    assert_eq!(orders, vec![Order { thinker: 0, actor: Actor(1_000_000), despawn: Some(Action(1)), spawn: None }]);
    assert_eq!(states[&0], Success);
}

#[test]
fn tables_have_to_hold_what_the_thinkers_look_up() {
    let (mut entries, mut scores, mut states) = crowd(3, Executing);
    assert!(provides_all(&entries, &scores, &states));
    let work = ActionBuilderWrapper(ActionBuilderId::Choice(0), WORK);
    entries[1].thinker.adopt(Action(77), work);
    assert!(!provides_all(&entries, &scores, &states));
    states.insert(77, Requested);
    assert!(provides_all(&entries, &scores, &states));
    scores.remove(&2_000_002);
    assert!(!provides_all(&entries, &scores, &states));
    scores.insert(2_000_002, score(0.1));
    states.remove(&0);
    assert!(!provides_all(&entries, &scores, &states));
    let (entries, scores, states) = crowd(0, Init);
    assert!(provides_all(&entries, &scores, &states));
}

#[test]
fn clock_is_looked_at_every_stride() {
    assert!(looks_at_clock(0));
    assert!(looks_at_clock(500));
    assert!(looks_at_clock(1500));
    assert!(!looks_at_clock(1));
    assert!(!looks_at_clock(499));
    assert!(!looks_at_clock(501));
}

#[test]
fn budget_is_spent_once_the_pass_has_run_for_longer() {
    assert!(!budget_spent(0, 0));
    assert!(budget_spent(1, 0));
    assert!(!budget_spent(10_000_000, DEFAULT_BUDGET_NANOS));
    assert!(budget_spent(10_000_001, DEFAULT_BUDGET_NANOS));
    assert!(!budget_spent(u128::MAX, u128::MAX));
}
