//! A choice couples a scorer with the action to take when it scores well.

use std::collections::HashMap;
use vstd::prelude::*;

use crate::actions::ActionBuilderHandle;
use crate::actions::ActionBuilderId;
use crate::actions::ActionBuilderWrapper;
use crate::scalar::Scalar;
use crate::scorers::Score;
use crate::scorers::ScorerBuilderHandle;
use crate::thinker::Scorer;

verus! {

broadcast use vstd::std_specs::hash::group_hash_axioms;

/// One of the things a thinker can decide to do: the scorer that rates it
/// and the builder of the action that carries it out.
#[derive(Debug, Clone)]
pub struct Choice {
    pub(crate) scorer: Scorer,
    pub(crate) action: ActionBuilderWrapper,
    pub(crate) action_label: Option<String>,
}

impl Choice {
    /// The scorer that rates this choice.
    pub closed spec fn scorer(&self) -> Scorer {
        self.scorer
    }

    /// The builder of this choice's action.
    pub closed spec fn action(&self) -> ActionBuilderWrapper {
        self.action
    }

    /// The label of this choice's action, if it has one.
    pub closed spec fn action_label(&self) -> Option<String> {
        self.action_label
    }

    /// Makes a choice.
    pub fn new(scorer: Scorer, action: ActionBuilderWrapper, action_label: Option<String>) -> (made:
        Choice)
        ensures
            made.scorer() == scorer,
            made.action() == action,
            made.action_label() == action_label,
    {
        Choice { scorer, action, action_label }
    }

    /// The label of this choice's action, if it has one.
    pub fn label(&self) -> (label: Option<&str>)
        ensures
            match label {
                Some(text) => self.action_label() matches Some(own) && own@ == text@,
                None => self.action_label().is_none(),
            },
    {
        match &self.action_label {
            Some(own) => Some(own.as_str()),
            None => None,
        }
    }

    /// The builder of this choice's action.
    pub fn action_builder(&self) -> (action: ActionBuilderWrapper)
        ensures
            action == self.action(),
    {
        self.action
    }

    /// The scorer that rates this choice.
    pub fn scorer_entity(&self) -> (scorer: Scorer)
        ensures
            scorer == self.scorer(),
    {
        self.scorer
    }

    /// Looks up the current score of this choice's scorer.
    pub fn calculate(&self, scores: &HashMap<u64, Score>) -> (value: Scalar)
        requires
            scores@.contains_key(self.scorer().0),
        ensures
            value == scores@[self.scorer().0].value(),
    {
        let found = scores.get(&self.scorer.0);
        match found {
            Some(score) => score.get(),
            None => Scalar::zero(),
        }
    }
}

/// True when the table holds a score for the scorer of every choice.
pub open spec fn all_scored(choices: Seq<Choice>, scores: Map<u64, Score>) -> bool {
    forall|i: int| 0 <= i < choices.len() ==> scores.contains_key((#[trigger] choices[i]).scorer().0)
}

/// The scores of the choices, in the order of the choices.
pub open spec fn choice_scores(choices: Seq<Choice>, scores: Map<u64, Score>) -> Seq<Scalar> {
    Seq::new(choices.len(), |i: int| scores[choices[i].scorer().0].value())
}

/// Builds a new [`Choice`].
#[derive(Debug, Clone)]
pub struct ChoiceBuilder {
    /// The label of the scorer.
    pub when_label: Option<String>,
    /// The builder of the scorer.
    pub when: ScorerBuilderHandle,
    /// The label of the action.
    pub then_label: Option<String>,
    /// The builder of the action.
    pub then_action: ActionBuilderHandle,
}

impl ChoiceBuilder {
    /// Pairs the builder of a scorer with the builder of the action to take
    /// when it scores well, each with the label that it goes by.
    pub fn new(
        scorer: ScorerBuilderHandle,
        scorer_label: Option<String>,
        action: ActionBuilderHandle,
        action_label: Option<String>,
    ) -> (builder: Self)
        ensures
            builder.when == scorer,
            builder.then_action == action,
            builder.when_label == scorer_label,
            builder.then_label == action_label,
    {
        ChoiceBuilder { when_label: scorer_label, when: scorer, then_label: action_label, then_action: action }
    }

    /// Makes the choice, whose scorer has been spawned as `scorer`. Its
    /// action is built on demand; `id` is the identity by which the thinker
    /// will recognise the builder.
    pub fn build(&self, scorer: Scorer, id: ActionBuilderId) -> (choice: Choice)
        ensures
            choice.scorer() == scorer,
            choice.action() == ActionBuilderWrapper(id, self.then_action),
            choice.action_label() == self.then_label,
    {
        let action_label = match &self.then_label {
            Some(label) => Some(label.clone()),
            None => None,
        };
        Choice { scorer, action_label, action: ActionBuilderWrapper::new(id, self.then_action) }
    }
}

} // verus!
