use std::collections::HashMap;

use big_brain::actions::{
    ActionBuilder, ActionBuilderHandle, ActionBuilderId, ActionBuilderWrapper, ActionState,
};
use big_brain::choices::Choice;
use big_brain::pickers::{FirstToScore, Highest, Picker};
use big_brain::scalar::Scalar;
use big_brain::scorers::{Score, ScorerBuilderHandle};
use big_brain::thinker::{Action, Actor, HasThinker, Scorer, Spawn, Thinker, ThinkerBuilder, Thought};

use ActionState::{Cancelled, Executing, Failure, Init, Requested, Success};

const DRINK: ActionBuilderHandle = ActionBuilderHandle(1);
const EAT: ActionBuilderHandle = ActionBuilderHandle(2);
const MEANDER: ActionBuilderHandle = ActionBuilderHandle(3);
const WAVE: ActionBuilderHandle = ActionBuilderHandle(4);
const BOW: ActionBuilderHandle = ActionBuilderHandle(5);

fn number(value: f32) -> Scalar {
    Scalar::from_bits(value.to_bits())
}

fn table(values: &[f32]) -> HashMap<u64, Score> {
    let mut scores = HashMap::new();
    for (i, value) in values.iter().enumerate() {
        let mut score = Score::default();
        score.set_unchecked(number(*value));
        scores.insert(100 + i as u64, score);
    }
    scores
}

fn builder() -> ThinkerBuilder<FirstToScore> {
    Thinker::build()
        .picker(FirstToScore::new(number(0.8)))
        .when(ScorerBuilderHandle(1), DRINK)
        .when(ScorerBuilderHandle(2), EAT)
}

fn make(builder: ThinkerBuilder<FirstToScore>) -> Thinker<FirstToScore> {
    let scorers = (0..builder.choices_len()).map(|i| Scorer(100 + i as u64)).collect();
    let (thinker, state) = builder.build(scorers).expect("one scorer for each choice");
    assert_eq!(state, Requested);
    thinker
}

fn choice(index: usize, handle: ActionBuilderHandle) -> ActionBuilderWrapper {
    ActionBuilderWrapper(ActionBuilderId::Choice(index), handle)
}

fn quiet(state: ActionState, current_state: Option<ActionState>) -> Thought {
    Thought { state, current_state, despawn: None, spawn: None }
}

fn spawning(builder: ActionBuilderWrapper, state: ActionState) -> Option<Spawn> {
    Some(Spawn { builder, state })
}

#[test]
fn entity_wrappers_hand_back_their_entities() {
    assert_eq!(Action(7).entity(), 7);
    assert_eq!(HasThinker::new(9).entity(), 9);
    assert_eq!(Actor(3).0, 3);
    assert_eq!(Scorer(4).0, 4);
}

#[test]
fn builder_tells_what_it_holds() {
    let empty: ThinkerBuilder<Highest> = Thinker::build();
    assert!(!empty.has_picker());
    assert_eq!(empty.choices_len(), 0);
    assert_eq!(ActionBuilder::label(&empty), None);
    let builder = builder().label("villager".to_string());
    assert!(builder.has_picker());
    assert_eq!(builder.choices_len(), 2);
    assert_eq!(builder.scorer(0), ScorerBuilderHandle(1));
    assert_eq!(builder.scorer(1), ScorerBuilderHandle(2));
    assert_eq!(ActionBuilder::label(&builder), Some("villager"));
}

#[test]
fn builder_wants_one_scorer_for_each_choice() {
    assert!(builder().build(vec![Scorer(100)]).is_none());
    assert!(builder().build(vec![Scorer(100), Scorer(101), Scorer(102)]).is_none());
    let (thinker, state) = builder().build(vec![Scorer(100), Scorer(101)]).expect("two scorers");
    assert_eq!(state, Requested);
    assert_eq!(thinker.current_action(), None);
    assert_eq!(thinker.scheduled_len(), 0);
}

#[test]
fn thinker_is_requested_and_then_starts_executing() {
    let mut thinker = make(builder());
    let scores = table(&[1.0, 1.0]);
    assert_eq!(thinker.think(Init, &scores, None), quiet(Requested, None));
    assert_eq!(thinker.think(Requested, &scores, None), quiet(Executing, None));
    assert_eq!(thinker.current_action(), None);
}

#[test]
fn finished_thinker_does_nothing() {
    let mut thinker = make(builder());
    let scores = table(&[1.0, 1.0]);
    assert_eq!(thinker.think(Success, &scores, None), quiet(Success, None));
    assert_eq!(thinker.think(Failure, &scores, None), quiet(Failure, None));
}

#[test]
fn winning_choice_is_spawned_requested() {
    let mut thinker = make(builder());
    let thought = thinker.think(Executing, &table(&[0.1, 0.9]), None);
    assert_eq!(
        thought,
        Thought { state: Executing, current_state: None, despawn: None, spawn: spawning(choice(1, EAT), Requested) }
    );
    assert_eq!(thinker.current_action(), None);
    thinker.adopt(Action(50), choice(1, EAT));
    assert_eq!(thinker.current_action(), Some((Action(50), choice(1, EAT))));
}

#[test]
fn same_choice_winning_again_keeps_the_same_action() {
    let mut thinker = make(builder());
    let scores = table(&[0.9, 0.9]);
    let thought = thinker.think(Executing, &scores, None);
    let spawn = thought.spawn.expect("the first choice wins");
    assert_eq!(spawn.builder, choice(0, DRINK));
    thinker.adopt(Action(50), spawn.builder);
    for state in [Requested, Executing, Cancelled] {
        assert_eq!(thinker.think(Executing, &scores, Some(state)), quiet(Executing, Some(state)));
        assert_eq!(thinker.current_action(), Some((Action(50), choice(0, DRINK))));
    }
    assert_eq!(thinker.think(Executing, &scores, Some(Init)), quiet(Executing, Some(Requested)));
    assert_eq!(thinker.current_action(), Some((Action(50), choice(0, DRINK))));
}

#[test]
fn finished_action_of_the_winning_choice_is_replaced() {
    for done in [Success, Failure] {
        let mut thinker = make(builder());
        thinker.adopt(Action(50), choice(0, DRINK));
        let thought = thinker.think(Executing, &table(&[0.9, 0.0]), Some(done));
        assert_eq!(
            thought,
            Thought {
                state: Executing,
                current_state: Some(done),
                despawn: Some(Action(50)),
                spawn: spawning(choice(0, DRINK), Init),
            }
        );
        assert_eq!(thinker.current_action(), None);
    }
}

#[test]
fn another_choice_winning_cancels_the_running_action_first() {
    let mut thinker = make(builder());
    thinker.adopt(Action(50), choice(1, EAT));
    let scores = table(&[0.9, 0.0]);
    for live in [Requested, Executing] {
        assert_eq!(thinker.think(Executing, &scores, Some(live)), quiet(Executing, Some(Cancelled)));
        assert_eq!(thinker.current_action(), Some((Action(50), choice(1, EAT))));
    }
    // While the old action winds down nothing is spawned.
    assert_eq!(thinker.think(Executing, &scores, Some(Cancelled)), quiet(Executing, Some(Cancelled)));
    // Once it has resolved the switch completes.
    let thought = thinker.think(Executing, &scores, Some(Failure));
    assert_eq!(
        thought,
        Thought {
            state: Executing,
            current_state: Some(Failure),
            despawn: Some(Action(50)),
            spawn: spawning(choice(0, DRINK), Init),
        }
    );
    assert_eq!(thinker.current_action(), None);
}

#[test]
fn another_choice_winning_replaces_an_action_still_in_init() {
    let mut thinker = make(builder());
    thinker.adopt(Action(50), choice(1, EAT));
    let thought = thinker.think(Executing, &table(&[0.9, 0.0]), Some(Init));
    assert_eq!(thought.despawn, Some(Action(50)));
    assert_eq!(thought.spawn, spawning(choice(0, DRINK), Init));
    assert_eq!(thought.current_state, Some(Init));
}

#[test]
fn fallback_runs_when_no_choice_wins() {
    let mut thinker = make(builder().otherwise(MEANDER));
    let fallback = ActionBuilderWrapper(ActionBuilderId::Otherwise, MEANDER);
    let scores = table(&[0.1, 0.2]);
    let thought = thinker.think(Executing, &scores, None);
    assert_eq!(thought.spawn, spawning(fallback, Requested));
    thinker.adopt(Action(60), fallback);
    assert_eq!(thinker.think(Executing, &scores, Some(Executing)), quiet(Executing, Some(Executing)));
    assert_eq!(thinker.think(Executing, &scores, Some(Init)), quiet(Executing, Some(Requested)));
    let thought = thinker.think(Executing, &scores, Some(Success));
    assert_eq!(thought.despawn, Some(Action(60)));
    assert_eq!(thought.spawn, spawning(fallback, Init));
}

#[test]
fn fallback_cancels_a_running_action_of_another_builder() {
    let mut thinker = make(builder().otherwise(MEANDER));
    thinker.adopt(Action(50), choice(0, DRINK));
    let scores = table(&[0.1, 0.2]);
    for live in [Requested, Executing] {
        assert_eq!(thinker.think(Executing, &scores, Some(live)), quiet(Executing, Some(Cancelled)));
        assert_eq!(thinker.current_action(), Some((Action(50), choice(0, DRINK))));
    }
    // While the old action winds down the fallback is not spawned.
    assert_eq!(thinker.think(Executing, &scores, Some(Cancelled)), quiet(Executing, Some(Cancelled)));
    assert_eq!(thinker.current_action(), Some((Action(50), choice(0, DRINK))));
    // Once it has resolved the fallback takes its place.
    let thought = thinker.think(Executing, &scores, Some(Failure));
    assert_eq!(thought.despawn, Some(Action(50)));
    assert_eq!(thought.spawn, spawning(ActionBuilderWrapper(ActionBuilderId::Otherwise, MEANDER), Init));
    assert_eq!(thinker.current_action(), None);
}

#[test]
fn fallback_replaces_an_action_of_another_builder_still_in_init() {
    let mut thinker = make(builder().otherwise(MEANDER));
    thinker.adopt(Action(50), choice(1, EAT));
    let thought = thinker.think(Executing, &table(&[0.1, 0.2]), Some(Init));
    assert_eq!(thought.current_state, Some(Init));
    assert_eq!(thought.despawn, Some(Action(50)));
    assert_eq!(thought.spawn, spawning(ActionBuilderWrapper(ActionBuilderId::Otherwise, MEANDER), Init));
}

#[test]
fn fallback_takes_over_from_a_running_one_off_action() {
    let mut thinker = make(builder().otherwise(MEANDER));
    let wave = ActionBuilderWrapper(ActionBuilderId::Scheduled, WAVE);
    thinker.adopt(Action(70), wave);
    let scores = table(&[0.1, 0.2]);
    assert_eq!(thinker.think(Executing, &scores, Some(Executing)), quiet(Executing, Some(Cancelled)));
    assert_eq!(thinker.current_action(), Some((Action(70), wave)));
}

#[test]
fn choice_takes_over_from_the_fallback() {
    let mut thinker = make(builder().otherwise(MEANDER));
    thinker.adopt(Action(60), ActionBuilderWrapper(ActionBuilderId::Otherwise, MEANDER));
    assert_eq!(thinker.think(Executing, &table(&[0.1, 0.9]), Some(Executing)), quiet(Executing, Some(Cancelled)));
}

#[test]
fn idle_thinker_cleans_up_a_finished_action() {
    let mut thinker = make(builder());
    let scores = table(&[0.1, 0.2]);
    assert_eq!(thinker.think(Executing, &scores, None), quiet(Executing, None));
    thinker.adopt(Action(50), choice(0, DRINK));
    assert_eq!(thinker.think(Executing, &scores, Some(Executing)), quiet(Executing, Some(Executing)));
    assert_eq!(thinker.think(Executing, &scores, Some(Cancelled)), quiet(Executing, Some(Cancelled)));
    assert_eq!(thinker.think(Executing, &scores, Some(Init)), quiet(Executing, Some(Requested)));
    let thought = thinker.think(Executing, &scores, Some(Success));
    assert_eq!(
        thought,
        Thought { state: Executing, current_state: Some(Success), despawn: Some(Action(50)), spawn: None }
    );
    assert_eq!(thinker.current_action(), None);
}

#[test]
fn scheduled_actions_run_in_order_when_nothing_else_runs() {
    let mut thinker = make(builder());
    thinker.schedule_action(WAVE);
    thinker.schedule_action(BOW);
    assert_eq!(thinker.scheduled_len(), 2);
    let scores = table(&[0.1, 0.2]);
    let wave = ActionBuilderWrapper(ActionBuilderId::Scheduled, WAVE);
    let bow = ActionBuilderWrapper(ActionBuilderId::Scheduled, BOW);
    let thought = thinker.think(Executing, &scores, None);
    assert_eq!(thought, Thought { state: Executing, current_state: None, despawn: None, spawn: spawning(wave, Init) });
    assert_eq!(thinker.scheduled_len(), 1);
    thinker.adopt(Action(70), wave);
    // It is requested and then left alone.
    assert_eq!(thinker.think(Executing, &scores, Some(Init)), quiet(Executing, Some(Requested)));
    assert_eq!(thinker.think(Executing, &scores, Some(Executing)), quiet(Executing, Some(Executing)));
    assert_eq!(thinker.scheduled_len(), 1);
    // Once it is done the next one takes its place.
    let thought = thinker.think(Executing, &scores, Some(Success));
    assert_eq!(
        thought,
        Thought { state: Executing, current_state: Some(Success), despawn: Some(Action(70)), spawn: spawning(bow, Init) }
    );
    assert_eq!(thinker.scheduled_len(), 0);
    thinker.adopt(Action(71), bow);
    // With the queue empty the finished action is only cleaned up.
    let thought = thinker.think(Executing, &scores, Some(Failure));
    assert_eq!(thought.despawn, Some(Action(71)));
    assert_eq!(thought.spawn, None);
}

#[test]
fn scheduled_action_comes_before_the_fallback() {
    let mut thinker = make(builder().otherwise(MEANDER));
    thinker.schedule_action(WAVE);
    let wave = ActionBuilderWrapper(ActionBuilderId::Scheduled, WAVE);
    let thought = thinker.think(Executing, &table(&[0.1, 0.2]), None);
    assert_eq!(thought.spawn, spawning(wave, Init));
    assert_eq!(thinker.scheduled_len(), 0);
}

#[test]
fn scheduled_action_never_preempts_a_winning_choice() {
    let mut thinker = make(builder());
    thinker.schedule_action(WAVE);
    let scores = table(&[0.9, 0.2]);
    let thought = thinker.think(Executing, &scores, None);
    assert_eq!(thought.spawn, spawning(choice(0, DRINK), Requested));
    thinker.adopt(Action(50), choice(0, DRINK));
    assert_eq!(thinker.think(Executing, &scores, Some(Executing)), quiet(Executing, Some(Executing)));
    assert_eq!(thinker.scheduled_len(), 1);
    // Not while the action still runs either, even if its choice has lost.
    assert_eq!(thinker.think(Executing, &table(&[0.1, 0.2]), Some(Executing)), quiet(Executing, Some(Executing)));
    assert_eq!(thinker.scheduled_len(), 1);
}

#[test]
fn cancelled_thinker_without_action_succeeds() {
    let mut thinker = make(builder());
    assert_eq!(thinker.think(Cancelled, &table(&[0.9, 0.9]), None), quiet(Success, None));
}

#[test]
fn cancelled_thinker_cancels_its_action_and_adopts_its_outcome() {
    let mut thinker = make(builder());
    thinker.adopt(Action(50), choice(0, DRINK));
    let scores = table(&[0.9, 0.9]);
    for running in [Init, Requested, Executing] {
        assert_eq!(thinker.think(Cancelled, &scores, Some(running)), quiet(Cancelled, Some(Cancelled)));
    }
    assert_eq!(thinker.think(Cancelled, &scores, Some(Cancelled)), quiet(Cancelled, Some(Cancelled)));
    assert_eq!(thinker.current_action(), Some((Action(50), choice(0, DRINK))));
    let thought = thinker.think(Cancelled, &scores, Some(Failure));
    assert_eq!(
        thought,
        Thought { state: Failure, current_state: Some(Failure), despawn: Some(Action(50)), spawn: None }
    );
    assert_eq!(thinker.current_action(), None);
    let mut thinker = make(builder());
    thinker.adopt(Action(51), choice(1, EAT));
    assert_eq!(thinker.think(Cancelled, &scores, Some(Success)).state, Success);
}

#[test]
fn think_picked_goes_by_the_given_pick() {
    let mut thinker = make(builder().otherwise(MEANDER));
    let thought = thinker.think_picked(Executing, Some(1), None);
    assert_eq!(thought.spawn, spawning(choice(1, EAT), Requested));
    thinker.adopt(Action(50), choice(1, EAT));
    assert_eq!(thinker.think_picked(Executing, Some(1), Some(Executing)), quiet(Executing, Some(Executing)));
    assert_eq!(thinker.think_picked(Executing, Some(0), Some(Executing)), quiet(Executing, Some(Cancelled)));
    assert_eq!(thinker.think_picked(Executing, None, Some(Executing)), quiet(Executing, Some(Cancelled)));
    assert_eq!(thinker.think_picked(Init, Some(0), Some(Executing)), quiet(Requested, Some(Executing)));
    assert_eq!(thinker.current_action(), Some((Action(50), choice(1, EAT))));
}

/// Names a choice that does not exist.
struct Astray;

impl Picker for Astray {
    fn pick(&self, choices: &Vec<Choice>, _scores: &HashMap<u64, Score>) -> Option<usize> {
        Some(choices.len() + 5)
    }
}

#[test]
fn pick_that_names_no_choice_counts_as_no_pick() {
    let (mut thinker, _) = Thinker::build()
        .picker(Astray)
        .when(ScorerBuilderHandle(1), DRINK)
        .otherwise(MEANDER)
        .build(vec![Scorer(100)])
        .expect("one scorer");
    let thought = thinker.think(Executing, &table(&[1.0]), None);
    assert_eq!(thought.spawn, spawning(ActionBuilderWrapper(ActionBuilderId::Otherwise, MEANDER), Requested));
}

#[test]
fn thinker_tells_whether_its_choices_are_scored() {
    let thinker = make(builder());
    assert!(thinker.scored_by(&table(&[0.5, 0.5])));
    assert!(!thinker.scored_by(&table(&[0.5])));
    assert!(!thinker.scored_by(&table(&[])));
}

#[test]
fn thinker_shows_its_picker_and_choices() {
    let thinker = make(builder());
    let scores = table(&[0.1, 0.9]);
    assert_eq!(thinker.choices().len(), 2);
    assert_eq!(thinker.choices()[1].action_builder(), choice(1, EAT));
    assert_eq!(thinker.picker().pick(thinker.choices(), &scores), Some(1));
}

#[test]
fn choices_keep_the_labels_they_were_defined_with() {
    let builder: ThinkerBuilder<Highest> = Thinker::build()
        .picker(Highest)
        .when(ScorerBuilderHandle(1), DRINK)
        .when_labelled(ScorerBuilderHandle(2), Some("Hungry".to_string()), EAT, Some("Eat".to_string()));
    assert_eq!(builder.scorer(1), ScorerBuilderHandle(2));
    let (thinker, _) = builder.build(vec![Scorer(100), Scorer(101)]).expect("two scorers");
    assert_eq!(thinker.choices()[0].label(), None);
    assert_eq!(thinker.choices()[1].label(), Some("Eat"));
    assert_eq!(thinker.choices()[1].action_builder(), choice(1, EAT));
}
