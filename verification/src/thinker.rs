//! Thinkers are the "brain" of an actor: they look at the scores of their
//! choices every tick and decide which action should be running.
//!
//! A thinker never touches entities itself. Each tick it is told its own
//! state and the state of its current action, and it answers with the new
//! states and with what the host has to despawn and spawn. The host carries
//! that out and hands the entity of a newly spawned action to
//! [`Thinker::adopt`].

use std::collections::HashMap;
use std::collections::VecDeque;
use vstd::prelude::*;

pub use crate::budget::thinker_system;
pub use crate::budget::ThinkerIterations;

use crate::actions::ActionBuilder;
use crate::actions::ActionBuilderHandle;
use crate::actions::ActionBuilderId;
use crate::actions::ActionBuilderWrapper;
use crate::actions::ActionState;
use crate::choices::all_scored;
use crate::choices::Choice;
use crate::choices::ChoiceBuilder;
use crate::pickers::position;
use crate::pickers::Picker;
use crate::scorers::Score;
use crate::scorers::ScorerBuilderHandle;

verus! {

broadcast use vstd::std_specs::hash::group_hash_axioms;

/// The entity on whose behalf a thinker, scorer or action is working, named
/// by the 64 bits of the host engine's entity identifier.
#[derive(Debug, Clone, Copy, PartialEq, Eq, Hash, Structural)]
pub struct Actor(pub u64);

/// The entity that carries an action's state.
#[derive(Debug, Clone, Copy, PartialEq, Eq, Hash, Structural)]
pub struct Action(pub u64);

impl Action {
    /// The bits of the entity's identifier.
    pub fn entity(&self) -> (entity: u64)
        ensures
            entity == self.0,
    {
        self.0
    }
}

/// The entity that carries a scorer's score.
#[derive(Debug, Clone, Copy, PartialEq, Eq, Hash, Structural)]
pub struct Scorer(pub u64);

/// Marks an actor that has a thinker, and names the thinker's entity.
#[derive(Debug, Clone, Copy, PartialEq, Eq, Hash, Structural)]
pub struct HasThinker(pub(crate) u64);

impl HasThinker {
    /// The thinker's entity.
    pub closed spec fn thinker(&self) -> u64 {
        self.0
    }

    /// Marks an actor whose thinker lives in `thinker`.
    pub fn new(thinker: u64) -> (marker: Self)
        ensures
            marker.thinker() == thinker,
    {
        HasThinker(thinker)
    }

    /// The bits of the thinker entity's identifier.
    pub fn entity(&self) -> (entity: u64)
        ensures
            entity == self.thinker(),
    {
        self.0
    }
}

/// An action that the host has to spawn, and the state to spawn it in.
#[derive(Debug, Clone, Copy, PartialEq, Eq, Structural)]
pub struct Spawn {
    pub builder: ActionBuilderWrapper,
    pub state: ActionState,
}

/// What a thinker decides in one tick.
#[derive(Debug, Clone, Copy, PartialEq, Eq, Structural)]
pub struct Thought {
    /// The thinker's own state after the tick.
    pub state: ActionState,
    /// The state, after the tick, of the action that was current before it;
    /// `None` if there was none.
    pub current_state: Option<ActionState>,
    /// The action to despawn, which is then no longer current.
    pub despawn: Option<Action>,
    /// The action to spawn. The thinker has no current action until the host
    /// hands the new entity to [`Thinker::adopt`].
    pub spawn: Option<Spawn>,
}

/// The "brains" behind the whole operation: the picker, the choices it
/// picks from, a fallback, the action that is running, and the one-off
/// actions waiting for their turn.
///
/// Thinkers are actions too: a thinker has an action state of its own and
/// can be the action of another thinker's choice.
#[derive(Debug)]
pub struct Thinker<P: Picker> {
    picker: P,
    otherwise: Option<ActionBuilderWrapper>,
    choices: Vec<Choice>,
    current_action: Option<(Action, ActionBuilderWrapper)>,
    scheduled_actions: VecDeque<ActionBuilderWrapper>,
}

/// A thinker as the contracts see it.
pub struct ThinkerView<P> {
    pub picker: P,
    pub otherwise: Option<ActionBuilderWrapper>,
    pub choices: Seq<Choice>,
    pub current_action: Option<(Action, ActionBuilderWrapper)>,
    pub scheduled_actions: Seq<ActionBuilderWrapper>,
}

impl<P> ThinkerView<P> {
    /// The same thinker with another current action.
    pub open spec fn with_current(self, current: Option<(Action, ActionBuilderWrapper)>) -> Self {
        ThinkerView {
            picker: self.picker,
            otherwise: self.otherwise,
            choices: self.choices,
            current_action: current,
            scheduled_actions: self.scheduled_actions,
        }
    }

    /// The same thinker with another queue of one-off actions.
    pub open spec fn with_scheduled(self, scheduled: Seq<ActionBuilderWrapper>) -> Self {
        ThinkerView {
            picker: self.picker,
            otherwise: self.otherwise,
            choices: self.choices,
            current_action: self.current_action,
            scheduled_actions: scheduled,
        }
    }

    /// Every builder carries the identity of its place in the thinker: the
    /// choices their positions, the fallback and the one-off actions theirs.
    pub open spec fn wf(self) -> bool {
        &&& forall|i: int|
            0 <= i < self.choices.len() ==> (#[trigger] self.choices[i]).action().0
                == ActionBuilderId::Choice(i as usize)
        &&& self.choices.len() <= usize::MAX
        &&& self.otherwise matches Some(w) ==> w.0 == ActionBuilderId::Otherwise
        &&& forall|i: int|
            0 <= i < self.scheduled_actions.len() ==> (#[trigger] self.scheduled_actions[i]).0
                == ActionBuilderId::Scheduled
    }
}

impl<P: Picker> View for Thinker<P> {
    type V = ThinkerView<P>;

    closed spec fn view(&self) -> ThinkerView<P> {
        ThinkerView {
            picker: self.picker,
            otherwise: self.otherwise,
            choices: self.choices@,
            current_action: self.current_action,
            scheduled_actions: self.scheduled_actions@,
        }
    }
}

/// A tick in which nothing is despawned or spawned and the current action
/// keeps its state.
pub open spec fn quiet(state: ActionState, current_state: Option<ActionState>) -> Thought {
    Thought { state, current_state, despawn: None, spawn: None }
}

/// True when the next one-off action may start: one is waiting, and the
/// current action, if there is one, has finished.
pub open spec fn should_schedule<P>(
    thinker: ThinkerView<P>,
    current_state: Option<ActionState>,
) -> bool {
    &&& thinker.scheduled_actions.len() > 0
    &&& match (thinker.current_action, current_state) {
        (Some(_), Some(s)) => s.is_done(),
        _ => true,
    }
}

/// What an executing thinker does when `picked` is the action to run.
///
/// * Without a current action, the picked action is spawned, requested.
/// * A current action that is to stay is left alone, except that it is
///   requested if it is still in `Init`. It stays unless it has finished or
///   was built by another builder than the picked one.
/// * A current action that is to go is cancelled while it is requested or
///   executing, awaited while it is cancelled, and otherwise despawned and
///   replaced by the picked action.
pub open spec fn resolve(
    state: ActionState,
    current: Option<(Action, ActionBuilderWrapper)>,
    current_state: Option<ActionState>,
    picked: ActionBuilderWrapper,
) -> Thought {
    match (current, current_state) {
        (Some((action, builder)), Some(s)) => {
            if builder.0 != picked.0 || s.is_done() {
                if s.is_live() {
                    Thought {
                        state,
                        current_state: Some(ActionState::Cancelled),
                        despawn: None,
                        spawn: None,
                    }
                } else if s == ActionState::Cancelled {
                    quiet(state, current_state)
                } else {
                    Thought {
                        state,
                        current_state,
                        despawn: Some(action),
                        spawn: Some(Spawn { builder: picked, state: ActionState::Init }),
                    }
                }
            } else if s == ActionState::Init {
                Thought {
                    state,
                    current_state: Some(ActionState::Requested),
                    despawn: None,
                    spawn: None,
                }
            } else {
                quiet(state, current_state)
            }
        },
        _ => Thought {
            state,
            current_state,
            despawn: None,
            spawn: Some(Spawn { builder: picked, state: ActionState::Requested }),
        },
    }
}

/// True when a picker's answer names one of `len` choices, or none.
pub open spec fn valid_pick(picked: Option<int>, len: int) -> bool {
    picked matches Some(i) ==> 0 <= i < len
}

/// What a thinker makes of its picker's answer: the place that the answer
/// names if it is one of the `len` choices, and no pick otherwise.
pub open spec fn usable_pick(answer: Option<usize>, len: int) -> Option<int> {
    match answer {
        Some(i) => if i < len {
            Some(i as int)
        } else {
            None
        },
        None => None,
    }
}

/// True when `picked` is the pick that a thinker in `state` goes by, given
/// the table of scores: while it is executing, what its own picker answers
/// when it is asked about the thinker's choices and these scores; in any
/// other state the picker is not asked and there is no pick.
pub open spec fn picker_answers<P: Picker>(
    thinker: Thinker<P>,
    scores: HashMap<u64, Score>,
    state: ActionState,
    picked: Option<int>,
) -> bool {
    if state == ActionState::Executing {
        exists|answer: Option<usize>| #[trigger]
            call_ensures(P::pick, (&thinker@.picker, &thinker.choice_list(), &scores), answer)
                && picked == usable_pick(answer, thinker@.choices.len() as int)
    } else {
        picked.is_none()
    }
}

/// What a thinker decides in one tick, given its own state, the choice
/// that its picker has picked and the state of its current action.
///
/// * Init: the thinker is requested. Requested: it starts executing, one
///   tick later, so that the scorers have run before it decides anything.
/// * Executing: if the picker has picked a choice, that choice's action is the
///   one to run. Otherwise a waiting one-off action starts if nothing is
///   running any more. Otherwise the fallback is the one to run, in the same
///   way as a picked choice's action. Otherwise a finished current action is
///   despawned and one still in `Init` is requested.
/// * Cancelled: without a current action the thinker succeeds. A finished
///   current action is despawned and its outcome becomes the thinker's; one
///   that is not yet cancelled is cancelled; a cancelled one is awaited.
/// * Success, Failure: nothing happens.
pub open spec fn think_spec<P>(
    thinker: ThinkerView<P>,
    state: ActionState,
    picked: Option<int>,
    current_state: Option<ActionState>,
) -> Thought {
    match state {
        ActionState::Init => quiet(ActionState::Requested, current_state),
        ActionState::Requested => quiet(ActionState::Executing, current_state),
        ActionState::Executing => match picked {
            Some(i) => resolve(
                state,
                thinker.current_action,
                current_state,
                thinker.choices[i].action(),
            ),
            None => if should_schedule(thinker, current_state) {
                Thought {
                    state,
                    current_state,
                    despawn: match thinker.current_action {
                        Some((action, _)) => Some(action),
                        None => None,
                    },
                    spawn: Some(
                        Spawn {
                            builder: thinker.scheduled_actions[0],
                            state: ActionState::Init,
                        },
                    ),
                }
            } else {
                match thinker.otherwise {
                    Some(fallback) => resolve(
                        state,
                        thinker.current_action,
                        current_state,
                        fallback,
                    ),
                    None => match (thinker.current_action, current_state) {
                        (Some((action, _)), Some(s)) => if s.is_done() {
                            Thought { state, current_state, despawn: Some(action), spawn: None }
                        } else if s == ActionState::Init {
                            Thought {
                                state,
                                current_state: Some(ActionState::Requested),
                                despawn: None,
                                spawn: None,
                            }
                        } else {
                            quiet(state, current_state)
                        },
                        _ => quiet(state, current_state),
                    },
                }
            },
        },
        ActionState::Cancelled => match (thinker.current_action, current_state) {
            (Some((action, _)), Some(s)) => if s.is_done() {
                Thought { state: s, current_state, despawn: Some(action), spawn: None }
            } else if s == ActionState::Cancelled {
                quiet(state, current_state)
            } else {
                Thought {
                    state,
                    current_state: Some(ActionState::Cancelled),
                    despawn: None,
                    spawn: None,
                }
            },
            _ => quiet(ActionState::Success, current_state),
        },
        _ => quiet(state, current_state),
    }
}

/// The thinker after a tick with the given outcome: whenever an action is
/// despawned or spawned the thinker is left without a current action, and a
/// one-off action that is spawned leaves the queue.
pub open spec fn thinker_after<P>(
    thinker: ThinkerView<P>,
    state: ActionState,
    picked: Option<int>,
    current_state: Option<ActionState>,
) -> ThinkerView<P> {
    let thought = think_spec(thinker, state, picked, current_state);
    let kept = if thought.despawn.is_some() || thought.spawn.is_some() {
        thinker.with_current(None)
    } else {
        thinker
    };
    if state == ActionState::Executing && picked.is_none() && should_schedule(
        thinker,
        current_state,
    ) {
        kept.with_scheduled(
            thinker.scheduled_actions.subrange(1, thinker.scheduled_actions.len() as int),
        )
    } else {
        kept
    }
}

impl<P: Picker> Thinker<P> {
    /// Makes a thinker that has no current action and no one-off actions.
    pub fn new(picker: P, otherwise: Option<ActionBuilderWrapper>, choices: Vec<Choice>) -> (made:
        Self)
        ensures
            made@.picker == picker,
            made@.otherwise == otherwise,
            made@.choices == choices@,
            made@.current_action.is_none(),
            made@.scheduled_actions.len() == 0,
    {
        Thinker {
            picker,
            otherwise,
            choices,
            current_action: None,
            scheduled_actions: VecDeque::new(),
        }
    }

    /// Queues a one-off action. It starts in a tick in which no choice wins
    /// and no action is running.
    pub fn schedule_action(&mut self, action: ActionBuilderHandle)
        ensures
            final(self)@ == old(self)@.with_scheduled(
                old(self)@.scheduled_actions.push(
                    ActionBuilderWrapper(ActionBuilderId::Scheduled, action),
                ),
            ),
            final(self).choice_list() == old(self).choice_list(),
            old(self)@.wf() ==> final(self)@.wf(),
    {
        self.scheduled_actions.push_back(ActionBuilderWrapper::new(ActionBuilderId::Scheduled, action));
    }

    /// The choices as the picker is handed them.
    pub closed spec fn choice_list(&self) -> Vec<Choice> {
        self.choices
    }

    /// The picker is handed the very choices that the contracts speak of.
    pub proof fn lemma_choice_list(self)
        ensures
            self.choice_list()@ == self@.choices,
    {
    }

    /// The picker.
    pub fn picker(&self) -> (picker: &P)
        ensures
            *picker == self@.picker,
    {
        &self.picker
    }

    /// The choices, in the order in which the picker sees them.
    pub fn choices(&self) -> (choices: &Vec<Choice>)
        ensures
            choices@ == self@.choices,
            *choices == self.choice_list(),
    {
        &self.choices
    }

    /// The action that is running, with the builder that made it.
    pub fn current_action(&self) -> (current: Option<(Action, ActionBuilderWrapper)>)
        ensures
            current == self@.current_action,
    {
        self.current_action
    }

    /// Tells whether the table holds a score for the scorer of every
    /// choice.
    pub fn scored_by(&self, scores: &HashMap<u64, Score>) -> (ok: bool)
        ensures
            ok == all_scored(self@.choices, scores@),
    {
        let len = self.choices.len();
        let mut i: usize = 0;
        while i < len
            invariant
                0 <= i <= len,
                self.choices@.len() == len,
                forall|j: int|
                    0 <= j < i ==> scores@.contains_key((#[trigger] self.choices@[j]).scorer().0),
            decreases len - i,
        {
            let scorer = self.choices[i].scorer_entity();
            if !scores.contains_key(&scorer.0) {
                return false;
            }
            i = i + 1;
        }
        true
    }

    /// The number of one-off actions that are waiting.
    pub fn scheduled_len(&self) -> (len: usize)
        ensures
            len == self@.scheduled_actions.len(),
    {
        self.scheduled_actions.len()
    }

    /// Makes `action`, freshly spawned from `builder`, the current action.
    pub fn adopt(&mut self, action: Action, builder: ActionBuilderWrapper)
        requires
            old(self)@.current_action.is_none(),
        ensures
            final(self)@ == old(self)@.with_current(Some((action, builder))),
            final(self).choice_list() == old(self).choice_list(),
            old(self)@.wf() ==> final(self)@.wf(),
    {
        self.current_action = Some((action, builder));
    }

    /// Tells whether the next one-off action may start.
    fn should_schedule_action(&self, current_state: Option<ActionState>) -> (go: bool)
        requires
            self@.current_action.is_some() == current_state.is_some(),
        ensures
            go == should_schedule(self@, current_state),
    {
        if self.scheduled_actions.len() == 0 {
            false
        } else {
            match current_state {
                Some(s) => s.check_done(),
                None => true,
            }
        }
    }

    /// Sees to it that `picked` is, or becomes, the action that runs.
    fn exec_picked_action(
        &mut self,
        state: ActionState,
        picked: ActionBuilderWrapper,
        current_state: Option<ActionState>,
    ) -> (thought: Thought)
        requires
            old(self)@.current_action.is_some() == current_state.is_some(),
        ensures
            thought == resolve(
                state,
                old(self)@.current_action,
                current_state,
                picked,
            ),
            final(self)@ == (if thought.despawn.is_some() || thought.spawn.is_some() {
                old(self)@.with_current(None)
            } else {
                old(self)@
            }),
            final(self).choice_list() == old(self).choice_list(),
    {
        match (self.current_action, current_state) {
            (Some((action, builder)), Some(s)) => {
                let previous_done = s.check_done();
                if builder.0 != picked.0 || previous_done {
                    match s {
                        ActionState::Executing | ActionState::Requested => Thought {
                            state,
                            current_state: Some(ActionState::Cancelled),
                            despawn: None,
                            spawn: None,
                        },
                        ActionState::Init | ActionState::Success | ActionState::Failure => {
                            self.current_action = None;
                            Thought {
                                state,
                                current_state,
                                despawn: Some(action),
                                spawn: Some(Spawn { builder: picked, state: ActionState::Init }),
                            }
                        },
                        ActionState::Cancelled => Thought {
                            state,
                            current_state,
                            despawn: None,
                            spawn: None,
                        },
                    }
                } else if s == ActionState::Init {
                    Thought {
                        state,
                        current_state: Some(ActionState::Requested),
                        despawn: None,
                        spawn: None,
                    }
                } else {
                    Thought { state, current_state, despawn: None, spawn: None }
                }
            },
            _ => {
                Thought {
                    state,
                    current_state,
                    despawn: None,
                    spawn: Some(Spawn { builder: picked, state: ActionState::Requested }),
                }
            },
        }
    }

    /// Runs one tick of the thinker, whose own state is `state` and whose
    /// current action, if it has one, is in `current_state`. While the
    /// thinker is executing, its picker is asked once, about the thinker's
    /// choices and `scores`, and the tick goes by what it answers: see
    /// [`Thinker::think_picked`]. In any other state the picker is not asked.
    pub fn think(
        &mut self,
        state: ActionState,
        scores: &HashMap<u64, Score>,
        current_state: Option<ActionState>,
    ) -> (thought: Thought)
        requires
            all_scored(old(self)@.choices, scores@),
            old(self)@.current_action.is_some() == current_state.is_some(),
        ensures
            exists|picked: Option<int>|
                {
                    &&& #[trigger] picker_answers(*old(self), *scores, state, picked)
                    &&& valid_pick(picked, old(self)@.choices.len() as int)
                    &&& thought == think_spec(old(self)@, state, picked, current_state)
                    &&& final(self)@ == thinker_after(old(self)@, state, picked, current_state)
                },
            final(self).choice_list() == old(self).choice_list(),
            old(self)@.wf() ==> final(self)@.wf(),
    {
        let ghost before = *self;
        let answer = if state == ActionState::Executing {
            self.picker.pick(&self.choices, scores)
        } else {
            None
        };
        let picked = match answer {
            Some(i) => if i < self.choices.len() {
                Some(i)
            } else {
                None
            },
            None => None,
        };
        let thought = self.think_picked(state, picked, current_state);
        proof {
            assert(position(picked) == usable_pick(answer, before@.choices.len() as int));
            if state == ActionState::Executing {
                assert(call_ensures(
                    P::pick,
                    (&before@.picker, &before.choice_list(), scores),
                    answer,
                ));
            }
            assert(picker_answers(before, *scores, state, position(picked)));
        }
        thought
    }

    /// Runs one tick of the thinker, whose own state is `state`, whose
    /// picker has picked the choice in place `picked` and whose current
    /// action, if it has one, is in `current_state`.
    pub fn think_picked(
        &mut self,
        state: ActionState,
        picked: Option<usize>,
        current_state: Option<ActionState>,
    ) -> (thought: Thought)
        requires
            valid_pick(position(picked), old(self)@.choices.len() as int),
            old(self)@.current_action.is_some() == current_state.is_some(),
        ensures
            thought == think_spec(old(self)@, state, position(picked), current_state),
            final(self)@ == thinker_after(old(self)@, state, position(picked), current_state),
            final(self).choice_list() == old(self).choice_list(),
            old(self)@.wf() ==> final(self)@.wf(),
    {
        match state {
            ActionState::Init => Thought {
                state: ActionState::Requested,
                current_state,
                despawn: None,
                spawn: None,
            },
            ActionState::Requested => Thought {
                state: ActionState::Executing,
                current_state,
                despawn: None,
                spawn: None,
            },
            ActionState::Success | ActionState::Failure => Thought {
                state,
                current_state,
                despawn: None,
                spawn: None,
            },
            ActionState::Cancelled => match (self.current_action, current_state) {
                (Some((action, _)), Some(s)) => {
                    if s.check_done() {
                        self.current_action = None;
                        Thought { state: s, current_state, despawn: Some(action), spawn: None }
                    } else if s == ActionState::Cancelled {
                        Thought { state, current_state, despawn: None, spawn: None }
                    } else {
                        Thought {
                            state,
                            current_state: Some(ActionState::Cancelled),
                            despawn: None,
                            spawn: None,
                        }
                    }
                },
                _ => Thought {
                    state: ActionState::Success,
                    current_state,
                    despawn: None,
                    spawn: None,
                },
            },
            ActionState::Executing => {
                match picked {
                    Some(i) => {
                        let action = self.choices[i].action_builder();
                        self.exec_picked_action(state, action, current_state)
                    },
                    None => {
                        if self.should_schedule_action(current_state) {
                            let next = self.scheduled_actions.pop_front();
                            let despawn = match self.current_action {
                                Some((action, _)) => Some(action),
                                None => None,
                            };
                            self.current_action = None;
                            match next {
                                Some(builder) => Thought {
                                    state,
                                    current_state,
                                    despawn,
                                    spawn: Some(Spawn { builder, state: ActionState::Init }),
                                },
                                None => Thought { state, current_state, despawn, spawn: None },
                            }
                        } else {
                            match self.otherwise {
                                Some(fallback) => self.exec_picked_action(state, fallback, current_state),
                                None => match (self.current_action, current_state) {
                                    (Some((action, _)), Some(s)) => {
                                        if s.check_done() {
                                            self.current_action = None;
                                            Thought {
                                                state,
                                                current_state,
                                                despawn: Some(action),
                                                spawn: None,
                                            }
                                        } else if s == ActionState::Init {
                                            Thought {
                                                state,
                                                current_state: Some(ActionState::Requested),
                                                despawn: None,
                                                spawn: None,
                                            }
                                        } else {
                                            Thought {
                                                state,
                                                current_state,
                                                despawn: None,
                                                spawn: None,
                                            }
                                        }
                                    },
                                    _ => Thought {
                                        state,
                                        current_state,
                                        despawn: None,
                                        spawn: None,
                                    },
                                },
                            }
                        }
                    },
                }
            },
        }
    }
}

/// When the picker has picked a choice, whatever is spawned is that
/// choice's action, so that adopting it makes the winning choice the builder
/// of the current action.
pub proof fn lemma_pick_spawns_picked<P>(
    thinker: ThinkerView<P>,
    current_state: Option<ActionState>,
    i: int,
)
    ensures
        think_spec(thinker, ActionState::Executing, Some(i), current_state).spawn matches Some(
            spawn,
        ) ==> spawn.builder == thinker.choices[i].action(),
{
}

/// If the choice that built the current action wins again, and the action
/// has not finished, the thinker keeps that very action: nothing is
/// despawned, nothing is spawned, and its state is left alone but for the
/// request of an action still in `Init`.
pub proof fn lemma_repick_keeps_action<P>(
    thinker: ThinkerView<P>,
    action: Action,
    state: ActionState,
    i: int,
)
    requires
        thinker.current_action == Some((action, thinker.choices[i].action())),
        !state.is_done(),
    ensures
        think_spec(thinker, ActionState::Executing, Some(i), Some(state)) == quiet(
            ActionState::Executing,
            Some(
                if state == ActionState::Init {
                    ActionState::Requested
                } else {
                    state
                },
            ),
        ),
        thinker_after(thinker, ActionState::Executing, Some(i), Some(state)) == thinker,
{
}

/// If another choice wins than the one that built the current action, a
/// live current action is cancelled before anything else happens: the
/// replacement is not spawned while the old action is requested, executing
/// or cancelled.
pub proof fn lemma_switch_cancels_first<P>(
    thinker: ThinkerView<P>,
    action: Action,
    builder: ActionBuilderWrapper,
    state: ActionState,
    i: int,
)
    requires
        thinker.wf(),
        0 <= i < thinker.choices.len(),
        thinker.current_action == Some((action, builder)),
        builder.0 != ActionBuilderId::Choice(i as usize),
        state.is_live() || state == ActionState::Cancelled,
    ensures
        think_spec(thinker, ActionState::Executing, Some(i), Some(state)) == quiet(
            ActionState::Executing,
            Some(ActionState::Cancelled),
        ),
        thinker_after(thinker, ActionState::Executing, Some(i), Some(state)) == thinker,
{
    assert(thinker.choices[i].action().0 == ActionBuilderId::Choice(i as usize));
}

/// The fallback is resolved as a winning choice is: when no choice wins and
/// no one-off action may start, a live current action that the fallback did
/// not build is cancelled before anything else happens, and the fallback is
/// not spawned while that action is requested, executing or cancelled.
pub proof fn lemma_fallback_cancels_first<P>(
    thinker: ThinkerView<P>,
    action: Action,
    builder: ActionBuilderWrapper,
    fallback: ActionBuilderWrapper,
    state: ActionState,
)
    requires
        thinker.otherwise == Some(fallback),
        thinker.current_action == Some((action, builder)),
        builder.0 != fallback.0,
        state.is_live() || state == ActionState::Cancelled,
    ensures
        think_spec(thinker, ActionState::Executing, None, Some(state)) == quiet(
            ActionState::Executing,
            Some(ActionState::Cancelled),
        ),
        thinker_after(thinker, ActionState::Executing, None, Some(state)) == thinker,
{
}

/// A thinker never reports an outcome on its action's behalf: if the
/// action is finished after the tick, it was finished in the same way
/// before. A cancelled action stays cancelled until its implementer
/// resolves it. And an action is despawned only once it has finished or
/// while it is still in `Init`.
pub proof fn lemma_thinker_leaves_outcome_to_action<P>(
    thinker: ThinkerView<P>,
    state: ActionState,
    picked: Option<int>,
    current_state: ActionState,
)
    requires
        thinker.current_action.is_some(),
    ensures
        ({
            let thought = think_spec(thinker, state, picked, Some(current_state));
            &&& thought.current_state matches Some(after)
            &&& after.is_done() ==> after == current_state
            &&& current_state == ActionState::Cancelled ==> after == ActionState::Cancelled
            &&& after == current_state || crate::actions::engine_may_set(current_state, after)
                || (current_state == ActionState::Init && after == ActionState::Cancelled)
            &&& thought.despawn.is_some() ==> current_state.is_done() || current_state
                == ActionState::Init
        }),
{
}

/// A cancelled thinker resolves as soon as its current action has: without
/// one it succeeds at once, it takes over the outcome of a finished one in
/// the same tick, and until then it cancels the action and waits.
pub proof fn lemma_thinker_cancellation<P>(
    thinker: ThinkerView<P>,
    picked: Option<int>,
    current_state: Option<ActionState>,
)
    requires
        thinker.current_action.is_some() == current_state.is_some(),
    ensures
        ({
            let thought = think_spec(thinker, ActionState::Cancelled, picked, current_state);
            &&& thought.state.is_done() <==> (current_state matches Some(s) ==> s.is_done())
            &&& current_state.is_none() ==> thought.state == ActionState::Success
            &&& current_state matches Some(s) ==> {
                &&& s.is_done() ==> thought.state == s && thought.despawn.is_some()
                &&& !s.is_done() ==> thought.current_state == Some(ActionState::Cancelled)
            }
            &&& thought.spawn.is_none()
        }),
{
}

/// Whatever a thinker does to its own state is a step of the action state
/// machine: it is requested, starts executing, or resolves its own
/// cancellation; from executing it only moves when it is cancelled from
/// outside.
pub proof fn lemma_thinker_own_transitions<P>(
    thinker: ThinkerView<P>,
    state: ActionState,
    picked: Option<int>,
    current_state: Option<ActionState>,
)
    ensures
        ({
            let after = think_spec(thinker, state, picked, current_state).state;
            ||| after == state
            ||| crate::actions::engine_may_set(state, after) && state == ActionState::Init
            ||| crate::actions::implementer_may_set(state, after) && state != ActionState::Executing
        }),
{
}

/// One-off actions never preempt: one is started only in a tick in which
/// no choice wins and the current action, if there is one, has finished.
pub proof fn lemma_scheduled_waits<P>(
    thinker: ThinkerView<P>,
    picked: Option<int>,
    current_state: Option<ActionState>,
)
    requires
        thinker.wf(),
        thinker.current_action.is_some() == current_state.is_some(),
        valid_pick(picked, thinker.choices.len() as int),
    ensures
        ({
            let thought = think_spec(thinker, ActionState::Executing, picked, current_state);
            thought.spawn matches Some(spawn) && spawn.builder.0 == ActionBuilderId::Scheduled ==> {
                &&& picked.is_none()
                &&& current_state matches Some(s) ==> s.is_done()
            }
        }),
{
    match picked {
        Some(i) => {
            assert(thinker.choices[i].action().0 == ActionBuilderId::Choice(i as usize));
        },
        None => {},
    }
}

/// This is what configures a thinker: its picker, its choices and its
/// fallback. The host spawns the scorers of the choices and then has the
/// builder make the thinker.
#[derive(Debug, Clone)]
pub struct ThinkerBuilder<P: Picker> {
    picker: Option<P>,
    otherwise: Option<ActionBuilderHandle>,
    choices: Vec<ChoiceBuilder>,
    label: Option<String>,
}

/// The choice that `builder` makes in place number `i` of a thinker, for
/// the scorer spawned for it.
pub open spec fn built_choice(choice: Choice, builder: ChoiceBuilder, scorer: Scorer, i: int) -> bool {
    &&& choice.scorer() == scorer
    &&& choice.action() == ActionBuilderWrapper(ActionBuilderId::Choice(i as usize), builder.then_action)
    &&& choice.action_label() == builder.then_label
}

impl<P: Picker> Thinker<P> {
    /// Makes a new builder, which is what configures a thinker.
    pub fn build() -> (builder: ThinkerBuilder<P>)
        ensures
            builder.chosen_picker().is_none(),
            builder.fallback().is_none(),
            builder.choices().len() == 0,
            builder.label_text().is_none(),
    {
        ThinkerBuilder::new()
    }
}

impl<P: Picker> ThinkerBuilder<P> {
    /// The picker, once one has been defined.
    pub closed spec fn chosen_picker(&self) -> Option<P> {
        self.picker
    }

    /// The fallback action, once one has been defined.
    pub closed spec fn fallback(&self) -> Option<ActionBuilderHandle> {
        self.otherwise
    }

    /// The choices, in the order in which they were defined.
    pub closed spec fn choices(&self) -> Seq<ChoiceBuilder> {
        self.choices@
    }

    pub(crate) fn new() -> (builder: Self)
        ensures
            builder.chosen_picker().is_none(),
            builder.fallback().is_none(),
            builder.choices().len() == 0,
            builder.label_text().is_none(),
    {
        ThinkerBuilder { picker: None, otherwise: None, choices: Vec::new(), label: None }
    }

    /// Defines the picker of the thinker.
    pub fn picker(self, picker: P) -> (builder: Self)
        ensures
            builder.chosen_picker() == Some(picker),
            builder.fallback() == self.fallback(),
            builder.choices() == self.choices(),
            builder.label_text() == self.label_text(),
    {
        let mut builder = self;
        builder.picker = Some(picker);
        builder
    }

    /// Defines a choice: the scorer that rates it and the action to take
    /// when it wins. Choices defined earlier come first. The choice goes
    /// without labels; [`ThinkerBuilder::when_labelled`] takes them.
    pub fn when(self, scorer: ScorerBuilderHandle, action: ActionBuilderHandle) -> (builder: Self)
        ensures
            builder.chosen_picker() == self.chosen_picker(),
            builder.fallback() == self.fallback(),
            builder.choices().len() == self.choices().len() + 1,
            builder.choices().drop_last() == self.choices(),
            builder.choices().last().when == scorer,
            builder.choices().last().then_action == action,
            builder.choices().last().when_label.is_none(),
            builder.choices().last().then_label.is_none(),
            builder.label_text() == self.label_text(),
    {
        self.when_labelled(scorer, None, action, None)
    }

    /// Defines a choice as [`ThinkerBuilder::when`] does, with the labels
    /// that the scorer and the action go by. The label of the action is the
    /// label of the choice that the thinker holds.
    pub fn when_labelled(
        self,
        scorer: ScorerBuilderHandle,
        scorer_label: Option<String>,
        action: ActionBuilderHandle,
        action_label: Option<String>,
    ) -> (builder: Self)
        ensures
            builder.chosen_picker() == self.chosen_picker(),
            builder.fallback() == self.fallback(),
            builder.choices().len() == self.choices().len() + 1,
            builder.choices().drop_last() == self.choices(),
            builder.choices().last().when == scorer,
            builder.choices().last().then_action == action,
            builder.choices().last().when_label == scorer_label,
            builder.choices().last().then_label == action_label,
            builder.label_text() == self.label_text(),
    {
        let mut builder = self;
        builder.choices.push(ChoiceBuilder::new(scorer, scorer_label, action, action_label));
        assert(builder.choices@.drop_last() =~= self.choices@);
        builder
    }

    /// Defines the action to execute if the picker did not pick any of the
    /// choices.
    pub fn otherwise(self, otherwise: ActionBuilderHandle) -> (builder: Self)
        ensures
            builder.chosen_picker() == self.chosen_picker(),
            builder.fallback() == Some(otherwise),
            builder.choices() == self.choices(),
            builder.label_text() == self.label_text(),
    {
        let mut builder = self;
        builder.otherwise = Some(otherwise);
        builder
    }

    /// Configures a label to use for the thinker when logging.
    pub fn label(self, label: String) -> (builder: Self)
        ensures
            builder.chosen_picker() == self.chosen_picker(),
            builder.fallback() == self.fallback(),
            builder.choices() == self.choices(),
            builder.label_text() == Some(label@),
    {
        let mut builder = self;
        builder.label = Some(label);
        builder
    }

    /// Tells whether a picker has been defined.
    pub fn has_picker(&self) -> (has: bool)
        ensures
            has == self.chosen_picker().is_some(),
    {
        self.picker.is_some()
    }

    /// The number of choices.
    pub fn choices_len(&self) -> (len: usize)
        ensures
            len == self.choices().len(),
    {
        self.choices.len()
    }

    /// The builder of the scorer of choice number `index`, which the host
    /// has to spawn.
    pub fn scorer(&self, index: usize) -> (scorer: ScorerBuilderHandle)
        requires
            index < self.choices().len(),
        ensures
            scorer == self.choices()[index as int].when,
    {
        self.choices[index].when
    }

    /// Makes the thinker, and says in which state it starts: it is
    /// requested at once. `scorers` are the scorers that have been spawned
    /// for the choices, in the order of the choices; without exactly one for
    /// each choice there is no thinker. A builder without a picker cannot
    /// make a thinker.
    pub fn build(self, scorers: Vec<Scorer>) -> (made: Option<(Thinker<P>, ActionState)>)
        requires
            self.chosen_picker().is_some(),
        ensures
            made.is_some() == (scorers@.len() == self.choices().len()),
            made matches Some((thinker, state)) ==> {
                &&& state == ActionState::Requested
                &&& thinker@.wf()
                &&& Some(thinker@.picker) == self.chosen_picker()
                &&& thinker@.otherwise == (match self.fallback() {
                    Some(action) => Some(ActionBuilderWrapper(ActionBuilderId::Otherwise, action)),
                    None => None,
                })
                &&& thinker@.current_action.is_none()
                &&& thinker@.scheduled_actions.len() == 0
                &&& thinker@.choices.len() == self.choices().len()
                &&& forall|i: int|
                    0 <= i < self.choices().len() ==> built_choice(
                        #[trigger] thinker@.choices[i],
                        self.choices()[i],
                        scorers@[i],
                        i,
                    )
            },
    {
        let len = self.choices.len();
        if scorers.len() != len {
            return None;
        }
        let mut choices: Vec<Choice> = Vec::new();
        let mut i: usize = 0;
        while i < len
            invariant
                0 <= i <= len,
                self.choices@.len() == len,
                scorers@.len() == len,
                choices@.len() == i,
                forall|j: int|
                    0 <= j < i ==> built_choice(
                        #[trigger] choices@[j],
                        self.choices@[j],
                        scorers@[j],
                        j,
                    ),
            decreases len - i,
        {
            let choice = self.choices[i].build(scorers[i], ActionBuilderId::Choice(i));
            choices.push(choice);
            i = i + 1;
        }
        let otherwise = match self.otherwise {
            Some(action) => Some(ActionBuilderWrapper::new(ActionBuilderId::Otherwise, action)),
            None => None,
        };
        match self.picker {
            Some(picker) => Some((Thinker::new(picker, otherwise, choices), ActionState::Requested)),
            None => None,
        }
    }

    /// The label that the builder goes by, if it has one.
    pub closed spec fn label_text(&self) -> Option<Seq<char>> {
        match self.label {
            Some(own) => Some(own@),
            None => None,
        }
    }
}

impl<P: Picker> ActionBuilder for ThinkerBuilder<P> {
    fn label(&self) -> (label: Option<&str>)
        ensures
            match label {
                Some(text) => self.label_text() == Some(text@),
                None => self.label_text().is_none(),
            },
    {
        match &self.label {
            Some(own) => Some(own.as_str()),
            None => None,
        }
    }
}

} // verus!
