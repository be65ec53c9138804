//! Action states and the composite actions that orchestrate child actions.
//!
//! An action is a small state machine. The engine requests and cancels
//! actions; whoever implements an action starts it and reports how it ended.
//! Composite actions are implementers that relay those outcomes between a
//! parent and its children: [`Steps`] runs children one after another,
//! [`Concurrently`] runs them side by side.

use vstd::prelude::*;

use crate::thinker::Action;

verus! {

/// The current state of an action.
#[derive(Debug, Clone, Copy, PartialEq, Eq, Structural)]
pub enum ActionState {
    /// Initial state. No action should be performed.
    Init,
    /// Action requested. The action's implementer should start executing it
    /// and move it to the next state.
    Requested,
    /// The action has ongoing execution.
    Executing,
    /// An ongoing action has been cancelled. The implementer must wind down
    /// and report either `Success` or `Failure`.
    Cancelled,
    /// The action succeeded.
    Success,
    /// The action failed.
    Failure,
}

impl ActionState {
    /// The state a freshly spawned action starts in.
    pub fn new() -> (state: Self)
        ensures
            state == ActionState::Init,
    {
        ActionState::Init
    }

    /// True once the action has reported its outcome.
    pub open spec fn is_done(self) -> bool {
        self == ActionState::Success || self == ActionState::Failure
    }

    /// True while the action has been asked to run and has neither finished
    /// nor been cancelled.
    pub open spec fn is_live(self) -> bool {
        self == ActionState::Requested || self == ActionState::Executing
    }

    /// Tells whether the action has reported its outcome.
    pub fn check_done(&self) -> (done: bool)
        ensures
            done == self.is_done(),
    {
        match self {
            ActionState::Success | ActionState::Failure => true,
            _ => false,
        }
    }

    /// Tells whether the action is requested or executing.
    pub fn check_live(&self) -> (live: bool)
        ensures
            live == self.is_live(),
    {
        match self {
            ActionState::Requested | ActionState::Executing => true,
            _ => false,
        }
    }
}

impl Default for ActionState {
    fn default() -> (state: Self)
        ensures
            state == ActionState::Init,
    {
        ActionState::Init
    }
}

/// The transitions that the engine, acting as an action's owner, may force:
/// it requests a fresh action and cancels one that is requested or executing.
pub open spec fn engine_may_set(from: ActionState, to: ActionState) -> bool {
    ||| from == ActionState::Init && to == ActionState::Requested
    ||| from.is_live() && to == ActionState::Cancelled
}

/// The transitions reserved for an action's implementer: it acknowledges a
/// request, and it reports the outcome of an executing or cancelled action.
pub open spec fn implementer_may_set(from: ActionState, to: ActionState) -> bool {
    ||| from == ActionState::Requested && to == ActionState::Executing
    ||| (from == ActionState::Executing || from == ActionState::Cancelled) && to.is_done()
}

/// Names an action builder that the host keeps. The engine stores handles and
/// gives one back whenever the action it describes has to be spawned.
#[derive(Debug, Clone, Copy, PartialEq, Eq, Hash, Structural)]
pub struct ActionBuilderHandle(pub u64);

/// The identity of an action builder within one thinker. Two builders are
/// the same exactly when their identities are equal, however alike the
/// actions they describe may be.
#[derive(Debug, Clone, Copy, PartialEq, Eq, Hash, Structural)]
pub enum ActionBuilderId {
    /// The builder of the thinker's choice with this number.
    Choice(usize),
    /// The builder of the thinker's fallback action.
    Otherwise,
    /// The builder of a scheduled one-off action. One-off actions are never
    /// compared with each other, so they share one identity.
    Scheduled,
}

/// An action builder together with its identity.
#[derive(Debug, Clone, Copy, PartialEq, Eq, Hash, Structural)]
pub struct ActionBuilderWrapper(pub ActionBuilderId, pub ActionBuilderHandle);

impl ActionBuilderWrapper {
    /// Pairs a builder with its identity.
    pub fn new(id: ActionBuilderId, builder: ActionBuilderHandle) -> (wrapper: Self)
        ensures
            wrapper == ActionBuilderWrapper(id, builder),
    {
        ActionBuilderWrapper(id, builder)
    }
}

/// What a [`Steps`] action asks the host to do with entities after a tick.
#[derive(Debug, Clone, Copy, PartialEq, Eq, Structural)]
pub enum StepsCommand {
    /// Leave the entities as they are.
    Nothing,
    /// Despawn the active step's entity; no further step runs.
    DespawnActive,
    /// Despawn the active step's entity, spawn the next step in the given
    /// state and hand its entity to [`Steps::advance`].
    Advance { state: ActionState },
}

/// The result of one tick of a [`Steps`] action.
#[derive(Debug, Clone, Copy, PartialEq, Eq, Structural)]
pub struct StepsOutcome {
    /// The state of the `Steps` action after the tick.
    pub state: ActionState,
    /// The state of the active step after the tick.
    pub step_state: ActionState,
    /// What to do with entities.
    pub command: StepsCommand,
}

/// One tick of a sequence of `len` steps whose step number `active_step` is
/// active, given the state of the sequence and of that step.
///
/// * Requested: the active step is requested and the sequence starts
///   executing.
/// * Executing: a step still in `Init` is requested; a failed step fails the
///   sequence; a successful last step completes it; a successful earlier step
///   makes way for the next one, which is spawned requested; anything else is
///   left to run.
/// * Cancelled: a live step is cancelled; a finished step's outcome becomes
///   the outcome of the sequence; a step that is already cancelled is awaited.
/// * Init, Success, Failure: nothing happens.
pub open spec fn steps_outcome(
    state: ActionState,
    step_state: ActionState,
    active_step: int,
    len: int,
) -> StepsOutcome {
    match state {
        ActionState::Requested => StepsOutcome {
            state: ActionState::Executing,
            step_state: ActionState::Requested,
            command: StepsCommand::Nothing,
        },
        ActionState::Executing => match step_state {
            ActionState::Init => StepsOutcome {
                state,
                step_state: ActionState::Requested,
                command: StepsCommand::Nothing,
            },
            ActionState::Failure => StepsOutcome {
                state: ActionState::Failure,
                step_state,
                command: StepsCommand::DespawnActive,
            },
            ActionState::Success => if active_step == len - 1 {
                StepsOutcome {
                    state: ActionState::Success,
                    step_state,
                    command: StepsCommand::DespawnActive,
                }
            } else {
                StepsOutcome {
                    state,
                    step_state,
                    command: StepsCommand::Advance { state: ActionState::Requested },
                }
            },
            _ => StepsOutcome { state, step_state, command: StepsCommand::Nothing },
        },
        ActionState::Cancelled => if step_state.is_live() {
            StepsOutcome {
                state,
                step_state: ActionState::Cancelled,
                command: StepsCommand::Nothing,
            }
        } else if step_state.is_done() {
            StepsOutcome { state: step_state, step_state, command: StepsCommand::Nothing }
        } else {
            StepsOutcome { state, step_state, command: StepsCommand::Nothing }
        },
        _ => StepsOutcome { state, step_state, command: StepsCommand::Nothing },
    }
}

/// Composite action that executes a series of steps in order, as long as each
/// step succeeds.
#[derive(Debug)]
pub struct Steps {
    steps: Vec<ActionBuilderHandle>,
    active_step: usize,
    active_ent: Action,
}

impl Steps {
    /// The builders of the steps, in order.
    pub closed spec fn steps(&self) -> Seq<ActionBuilderHandle> {
        self.steps@
    }

    /// The number of the active step.
    pub closed spec fn active_step(&self) -> int {
        self.active_step as int
    }

    /// The entity of the active step.
    pub closed spec fn active_ent(&self) -> Action {
        self.active_ent
    }

    /// A sequence always has an active step.
    #[verifier::type_invariant]
    spec fn has_active_step(&self) -> bool {
        self.active_step < self.steps@.len()
    }

    /// Makes the sequence for `steps`, whose first step has been spawned as
    /// `first`.
    pub fn new(steps: Vec<ActionBuilderHandle>, first: Action) -> (made: Steps)
        requires
            steps@.len() > 0,
        ensures
            made.steps() == steps@,
            made.active_step() == 0,
            made.active_ent() == first,
    {
        Steps { steps, active_step: 0, active_ent: first }
    }

    /// The number of the active step, which is always one of the steps.
    pub fn active_index(&self) -> (index: usize)
        ensures
            index == self.active_step(),
            index < self.steps().len(),
    {
        proof {
            use_type_invariant(self);
        }
        self.active_step
    }

    /// The entity of the active step.
    pub fn active_entity(&self) -> (action: Action)
        ensures
            action == self.active_ent(),
    {
        self.active_ent
    }

    /// The builder of the step after the active one, if there is one.
    pub fn next_builder(&self) -> (next: Option<ActionBuilderHandle>)
        ensures
            next == if self.active_step() + 1 < self.steps().len() {
                Some(self.steps()[self.active_step() + 1])
            } else {
                None
            },
    {
        proof {
            use_type_invariant(self);
        }
        let len = self.steps.len();
        if self.active_step + 1 < len {
            Some(self.steps[self.active_step + 1])
        } else {
            None
        }
    }

    /// Moves on to the next step, which has been spawned as `next`.
    pub fn advance(&mut self, next: Action)
        requires
            old(self).active_step() + 1 < old(self).steps().len(),
        ensures
            final(self).steps() == old(self).steps(),
            final(self).active_step() == old(self).active_step() + 1,
            final(self).active_ent() == next,
    {
        let len = self.steps.len();
        assert(self.active_step + 1 < len);
        self.active_step = self.active_step + 1;
        self.active_ent = next;
    }
}

/// Runs one tick of a [`Steps`] action whose own state is `state` and whose
/// active step is in `step_state`.
///
/// The host writes both returned states back and carries out the command;
/// after `Advance` it calls [`Steps::advance`] with the new step's entity.
pub fn steps_system(steps: &Steps, state: ActionState, step_state: ActionState) -> (out:
    StepsOutcome)
    ensures
        out == steps_outcome(state, step_state, steps.active_step(), steps.steps().len() as int),
{
    proof {
        use_type_invariant(steps);
    }
    let unchanged = StepsOutcome { state, step_state, command: StepsCommand::Nothing };
    match state {
        ActionState::Requested => StepsOutcome {
            state: ActionState::Executing,
            step_state: ActionState::Requested,
            command: StepsCommand::Nothing,
        },
        ActionState::Executing => match step_state {
            ActionState::Init => StepsOutcome {
                state,
                step_state: ActionState::Requested,
                command: StepsCommand::Nothing,
            },
            ActionState::Failure => StepsOutcome {
                state: ActionState::Failure,
                step_state,
                command: StepsCommand::DespawnActive,
            },
            ActionState::Success => {
                if steps.active_step == steps.steps.len() - 1 {
                    StepsOutcome {
                        state: ActionState::Success,
                        step_state,
                        command: StepsCommand::DespawnActive,
                    }
                } else {
                    StepsOutcome {
                    state,
                    step_state,
                    command: StepsCommand::Advance { state: ActionState::Requested },
                }
                }
            },
            _ => unchanged,
        },
        ActionState::Cancelled => {
            if step_state.check_live() {
                StepsOutcome {
                    state,
                    step_state: ActionState::Cancelled,
                    command: StepsCommand::Nothing,
                }
            } else if step_state.check_done() {
                StepsOutcome { state: step_state, step_state, command: StepsCommand::Nothing }
            } else {
                unchanged
            }
        },
        _ => unchanged,
    }
}

/// A sequence that was not already finished reports success only when its
/// last step has succeeded, or when it adopts the success of its active step
/// while cancelled.
pub proof fn lemma_steps_success(
    state: ActionState,
    step_state: ActionState,
    active_step: int,
    len: int,
)
    requires
        0 <= active_step < len,
        state != ActionState::Success,
    ensures
        steps_outcome(state, step_state, active_step, len).state == ActionState::Success <==> {
            &&& step_state == ActionState::Success
            &&& (state == ActionState::Executing && active_step == len - 1 || state
                == ActionState::Cancelled)
        },
{
}

/// The next step is spawned only after the active step has succeeded while
/// the sequence is executing, and only if there is a next step; it is then
/// spawned requested, and in no other state.
pub proof fn lemma_steps_advance(
    state: ActionState,
    step_state: ActionState,
    active_step: int,
    len: int,
)
    requires
        0 <= active_step < len,
    ensures
        steps_outcome(state, step_state, active_step, len).command == (StepsCommand::Advance {
            state: ActionState::Requested,
        }) <==> {
            &&& state == ActionState::Executing
            &&& step_state == ActionState::Success
            &&& active_step + 1 < len
        },
        steps_outcome(state, step_state, active_step, len).command matches StepsCommand::Advance {
            state: spawned,
        } ==> spawned == ActionState::Requested,
{
}

/// A failed step fails an executing sequence at once: the step is despawned
/// and no later step is spawned.
pub proof fn lemma_steps_failure(step_state: ActionState, active_step: int, len: int)
    requires
        0 <= active_step < len,
        step_state == ActionState::Failure,
    ensures
        steps_outcome(ActionState::Executing, step_state, active_step, len) == (StepsOutcome {
            state: ActionState::Failure,
            step_state: ActionState::Failure,
            command: StepsCommand::DespawnActive,
        }),
{
}

/// A sequence never reports the outcome of its step on the step's behalf: if
/// the step is finished after the tick, it was finished in the same way
/// before. A cancelled step is left for its implementer to resolve, unless
/// the sequence is only now being requested.
pub proof fn lemma_steps_leaves_outcome_to_step(
    state: ActionState,
    step_state: ActionState,
    active_step: int,
    len: int,
)
    ensures
        steps_outcome(state, step_state, active_step, len).step_state.is_done()
            ==> steps_outcome(state, step_state, active_step, len).step_state == step_state,
        state != ActionState::Requested && step_state == ActionState::Cancelled ==> steps_outcome(
            state,
            step_state,
            active_step,
            len,
        ).step_state == ActionState::Cancelled,
{
}

/// A cancelled sequence resolves as soon as its active step has: it takes
/// over the outcome of a finished step in the same tick, and until then it
/// cancels a live step and waits.
pub proof fn lemma_steps_cancellation(step_state: ActionState, active_step: int, len: int)
    ensures
        ({
            let out = steps_outcome(ActionState::Cancelled, step_state, active_step, len);
            &&& out.state.is_done() <==> step_state.is_done()
            &&& step_state.is_done() ==> out.state == step_state
            &&& step_state.is_live() ==> out.step_state == ActionState::Cancelled
            &&& out.command == StepsCommand::Nothing
        }),
{
}

/// Whatever a sequence does to its own state is a step that an action's
/// implementer may take: it starts executing when it is requested, and it
/// reports an outcome only while it is executing or cancelled.
pub proof fn lemma_steps_own_transitions(
    state: ActionState,
    step_state: ActionState,
    active_step: int,
    len: int,
)
    ensures
        steps_outcome(state, step_state, active_step, len).state == state || implementer_may_set(
            state,
            steps_outcome(state, step_state, active_step, len).state,
        ),
{
}

/// Where a sequence stands between two ticks: its own state, the state of
/// its active step and the number of that step.
pub struct StepsRun {
    pub state: ActionState,
    pub step_state: ActionState,
    pub active_step: int,
}

/// One tick of a sequence whose steps are leaves that report at once: the
/// sequence takes its tick, the host spawns the next step where the
/// sequence asks for it, and then the active step, if it finds itself
/// requested, reports the outcome that `results` holds for it.
pub open spec fn run_tick(run: StepsRun, results: Seq<ActionState>) -> StepsRun {
    let out = steps_outcome(run.state, run.step_state, run.active_step, results.len() as int);
    let active_step = if out.command is Advance {
        run.active_step + 1
    } else {
        run.active_step
    };
    let step_state = match out.command {
        StepsCommand::Advance { state } => state,
        _ => out.step_state,
    };
    StepsRun {
        state: out.state,
        step_state: if step_state == ActionState::Requested {
            results[active_step]
        } else {
            step_state
        },
        active_step,
    }
}

/// Where a freshly requested sequence stands after `ticks` ticks.
pub open spec fn run_after(results: Seq<ActionState>, ticks: nat) -> StepsRun
    decreases ticks,
{
    if ticks == 0 {
        StepsRun { state: ActionState::Requested, step_state: ActionState::Init, active_step: 0 }
    } else {
        run_tick(run_after(results, (ticks - 1) as nat), results)
    }
}

/// As long as the steps before step `j` have succeeded, the sequence is
/// executing step `j`, and no other, after `j + 1` ticks, step `j` has
/// reported by then, and the sequence has not reported anything yet.
proof fn lemma_run_reaches(results: Seq<ActionState>, j: nat)
    requires
        j < results.len(),
        forall|i: int| 0 <= i < j ==> results[i] == ActionState::Success,
    ensures
        run_after(results, j + 1) == (StepsRun {
            state: ActionState::Executing,
            step_state: results[j as int],
            active_step: j as int,
        }),
        forall|t: nat|
            t <= j + 1 ==> !(#[trigger] run_after(results, t)).state.is_done() && run_after(
                results,
                t,
            ).active_step <= j,
    decreases j,
{
    if j == 0 {
        assert(run_after(results, 1) == run_tick(run_after(results, 0), results));
        assert forall|t: nat| t <= 1 implies !(#[trigger] run_after(results, t)).state.is_done()
            && run_after(results, t).active_step <= 0 by {
            if t == 1 {
                assert(run_after(results, 1) == run_tick(run_after(results, 0), results));
            }
        }
    } else {
        let before = (j - 1) as nat;
        lemma_run_reaches(results, before);
        assert(results[before as int] == ActionState::Success);
        let earlier = run_after(results, j);
        assert(run_after(results, j + 1) == run_tick(earlier, results));
        assert forall|t: nat| t <= j + 1 implies !(#[trigger] run_after(
            results,
            t,
        )).state.is_done() && run_after(results, t).active_step <= j by {
            if t <= j {
                assert(!run_after(results, t).state.is_done());
            }
        }
    }
}

/// A sequence whose steps report as soon as they are requested runs them
/// one after the other, a step a tick. If step `last` is the first to fail,
/// or the last step of all and none has failed, the sequence reports the
/// outcome of that step after `last + 2` ticks and not before, and at no
/// time has it spawned a step beyond it.
pub proof fn lemma_steps_run(results: Seq<ActionState>, last: nat)
    requires
        last < results.len(),
        forall|i: int| 0 <= i < last ==> results[i] == ActionState::Success,
        results[last as int] == ActionState::Failure || (results[last as int]
            == ActionState::Success && last == results.len() - 1),
    ensures
        run_after(results, last + 2).state == results[last as int],
        forall|t: nat| t < last + 2 ==> !(#[trigger] run_after(results, t)).state.is_done(),
        forall|t: nat| (#[trigger] run_after(results, t)).active_step <= last,
{
    lemma_run_reaches(results, last);
    let end = run_after(results, last + 2);
    assert(end == run_tick(run_after(results, last + 1), results));
    assert forall|t: nat| (#[trigger] run_after(results, t)).active_step <= last by {
        if t > last + 1 {
            lemma_run_rests(results, last + 2, t);
        }
    }
}

/// Once a sequence has reported its outcome, it stays as it is.
proof fn lemma_run_rests(results: Seq<ActionState>, done: nat, t: nat)
    requires
        run_after(results, done).state.is_done(),
        run_after(results, done).step_state.is_done(),
        done <= t,
    ensures
        run_after(results, t) == run_after(results, done),
    decreases t,
{
    if t > done {
        lemma_run_rests(results, done, (t - 1) as nat);
        assert(run_after(results, t) == run_tick(run_after(results, (t - 1) as nat), results));
    }
}

/// True when some child has failed.
pub open spec fn any_failure(children: Seq<ActionState>) -> bool {
    exists|i: int| 0 <= i < children.len() && children[i] == ActionState::Failure
}

/// True when every child has succeeded.
pub open spec fn all_success(children: Seq<ActionState>) -> bool {
    forall|i: int| 0 <= i < children.len() ==> children[i] == ActionState::Success
}

/// True when no child is requested, executing or cancelled, so that none of
/// them has anything left to wind down.
pub open spec fn all_settled(children: Seq<ActionState>) -> bool {
    forall|i: int|
        0 <= i < children.len() ==> !(#[trigger] children[i]).is_live() && children[i]
            != ActionState::Cancelled
}

/// The state of a [`Concurrently`] action after one tick, given its state
/// and the states of its children before the tick.
///
/// * Requested: it starts executing.
/// * Executing: it succeeds once every child has succeeded; as soon as a
///   child has failed it turns to `Cancelled` and waits for the others.
/// * Cancelled: once every child is settled it reports `Failure` if any child
///   failed and `Success` otherwise.
/// * Init, Success, Failure: nothing happens.
pub open spec fn concurrent_state_after(
    state: ActionState,
    children: Seq<ActionState>,
) -> ActionState {
    match state {
        ActionState::Requested => ActionState::Executing,
        ActionState::Executing => if all_success(children) {
            ActionState::Success
        } else if any_failure(children) {
            ActionState::Cancelled
        } else {
            state
        },
        ActionState::Cancelled => if all_settled(children) {
            if any_failure(children) {
                ActionState::Failure
            } else {
                ActionState::Success
            }
        } else {
            state
        },
        _ => state,
    }
}

/// The state of one child of a [`Concurrently`] action after a tick, given
/// the state of the action and the states of all its children before it.
///
/// * Requested: every child is requested.
/// * Executing: once some child has failed, every child that has not
///   finished is cancelled.
/// * Cancelled: every child that is requested or executing is cancelled.
/// * Init, Success, Failure: nothing happens.
pub open spec fn concurrent_child_after(
    state: ActionState,
    children: Seq<ActionState>,
    child: ActionState,
) -> ActionState {
    match state {
        ActionState::Requested => ActionState::Requested,
        ActionState::Executing => if any_failure(children) && !child.is_done() {
            ActionState::Cancelled
        } else {
            child
        },
        ActionState::Cancelled => if child.is_live() {
            ActionState::Cancelled
        } else {
            child
        },
        _ => child,
    }
}

/// Composite action that executes a number of actions side by side, as long
/// as they all succeed.
#[derive(Debug)]
pub struct Concurrently {
    actions: Vec<Action>,
}

impl Concurrently {
    /// The entities of the children.
    pub closed spec fn actions(&self) -> Seq<Action> {
        self.actions@
    }

    /// Makes the composite for children that have been spawned as `actions`.
    pub fn new(actions: Vec<Action>) -> (made: Concurrently)
        ensures
            made.actions() == actions@,
    {
        Concurrently { actions }
    }

    /// The number of children.
    pub fn len(&self) -> (len: usize)
        ensures
            len == self.actions().len(),
    {
        self.actions.len()
    }

    /// The entity of child number `index`.
    pub fn action(&self, index: usize) -> (action: Action)
        requires
            index < self.actions().len(),
        ensures
            action == self.actions()[index as int],
    {
        self.actions[index]
    }
}

/// Writes `to` over every child that a sweep in `mode` touches.
fn set_children(children: &mut Vec<ActionState>, to: ActionState, mode: ActionState)
    requires
        mode == ActionState::Requested || mode == ActionState::Executing || mode
            == ActionState::Cancelled,
    ensures
        final(children)@.len() == old(children)@.len(),
        forall|i: int|
            0 <= i < old(children)@.len() ==> #[trigger] final(children)@[i] == (if swept(
                mode,
                old(children)@[i],
            ) {
                to
            } else {
                old(children)@[i]
            }),
{
    let len = children.len();
    let mut i: usize = 0;
    while i < len
        invariant
            0 <= i <= len,
            children@.len() == len,
            old(children)@.len() == len,
            forall|j: int|
                0 <= j < i ==> #[trigger] children@[j] == (if swept(mode, old(children)@[j]) {
                    to
                } else {
                    old(children)@[j]
                }),
            forall|j: int| i <= j < len ==> #[trigger] children@[j] == old(children)@[j],
        decreases len - i,
    {
        let child = children[i];
        let hit = match mode {
            ActionState::Requested => true,
            ActionState::Executing => !child.check_done(),
            _ => child.check_live(),
        };
        if hit {
            children[i] = to;
        }
        i = i + 1;
    }
}

/// Which children a sweep touches: all of them when the composite is being
/// requested, the unfinished ones when it is executing, the live ones when it
/// is cancelled.
spec fn swept(mode: ActionState, child: ActionState) -> bool {
    match mode {
        ActionState::Requested => true,
        ActionState::Executing => !child.is_done(),
        _ => child.is_live(),
    }
}

/// What the children of a composite look like as a whole.
struct Survey {
    all_success: bool,
    any_failure: bool,
    all_settled: bool,
}

/// Looks at every child once.
fn survey(children: &Vec<ActionState>) -> (seen: Survey)
    ensures
        seen.all_success == all_success(children@),
        seen.any_failure == any_failure(children@),
        seen.all_settled == all_settled(children@),
{
    let mut seen = Survey { all_success: true, any_failure: false, all_settled: true };
    let len = children.len();
    let mut i: usize = 0;
    while i < len
        invariant
            0 <= i <= len,
            children@.len() == len,
            seen.all_success == all_success(children@.take(i as int)),
            seen.any_failure == any_failure(children@.take(i as int)),
            seen.all_settled == all_settled(children@.take(i as int)),
        decreases len - i,
    {
        let child = children[i];
        proof {
            let before = children@.take(i as int);
            let after = children@.take(i + 1);
            assert(after[i as int] == child);
            assert(forall|j: int| 0 <= j < i ==> before[j] == after[j]);
            if any_failure(before) {
                let w = choose|j: int| 0 <= j < before.len() && before[j] == ActionState::Failure;
                assert(after[w] == ActionState::Failure);
            }
            if any_failure(after) && child != ActionState::Failure {
                let w = choose|j: int| 0 <= j < after.len() && after[j] == ActionState::Failure;
                assert(before[w] == ActionState::Failure);
            }
            if all_success(after) {
                assert forall|j: int| 0 <= j < before.len() implies before[j]
                    == ActionState::Success by {
                    assert(after[j] == ActionState::Success);
                }
            }
            if all_settled(after) {
                assert forall|j: int| 0 <= j < before.len() implies !(#[trigger] before[j]).is_live()
                    && before[j] != ActionState::Cancelled by {
                    assert(!after[j].is_live() && after[j] != ActionState::Cancelled);
                }
            }
        }
        match child {
            ActionState::Success => {},
            ActionState::Failure => {
                seen.all_success = false;
                seen.any_failure = true;
            },
            ActionState::Init => {
                seen.all_success = false;
            },
            _ => {
                seen.all_success = false;
                seen.all_settled = false;
            },
        }
        i = i + 1;
    }
    assert(children@.take(len as int) =~= children@);
    seen
}

/// Runs one tick of a [`Concurrently`] action whose own state is `state`.
/// `children` holds the states of its children, in the order of its
/// entities; the tick updates them in place and returns the new state of the
/// action itself.
pub fn concurrent_system(state: ActionState, children: &mut Vec<ActionState>) -> (next:
    ActionState)
    ensures
        next == concurrent_state_after(state, old(children)@),
        final(children)@.len() == old(children)@.len(),
        forall|i: int|
            0 <= i < old(children)@.len() ==> #[trigger] final(children)@[i]
                == concurrent_child_after(state, old(children)@, old(children)@[i]),
{
    match state {
        ActionState::Requested => {
            set_children(children, ActionState::Requested, ActionState::Requested);
            ActionState::Executing
        },
        ActionState::Executing => {
            let seen = survey(children);
            if seen.all_success {
                ActionState::Success
            } else if seen.any_failure {
                set_children(children, ActionState::Cancelled, ActionState::Executing);
                ActionState::Cancelled
            } else {
                state
            }
        },
        ActionState::Cancelled => {
            let seen = survey(children);
            set_children(children, ActionState::Cancelled, ActionState::Cancelled);
            if seen.all_settled {
                if seen.any_failure {
                    ActionState::Failure
                } else {
                    ActionState::Success
                }
            } else {
                state
            }
        },
        _ => state,
    }
}

/// An executing composite reports success exactly when every child has
/// succeeded: one or two successes among three children are not enough.
pub proof fn lemma_concurrent_success(children: Seq<ActionState>)
    ensures
        concurrent_state_after(ActionState::Executing, children) == ActionState::Success
            <==> all_success(children),
{
}

/// When a child has failed while the composite is executing, every child
/// that has not finished is cancelled, the finished ones are left alone, and
/// the composite itself turns to `Cancelled` rather than `Failure`.
pub proof fn lemma_concurrent_partial_failure(children: Seq<ActionState>, i: int)
    requires
        any_failure(children),
        0 <= i < children.len(),
    ensures
        concurrent_state_after(ActionState::Executing, children) == ActionState::Cancelled,
        concurrent_child_after(ActionState::Executing, children, children[i]) == (
        if children[i].is_done() {
            children[i]
        } else {
            ActionState::Cancelled
        }),
{
    let w = choose|j: int| 0 <= j < children.len() && children[j] == ActionState::Failure;
    assert(children[w] != ActionState::Success);
}

/// A composite that waits for its children reports an outcome only when
/// none of them is still requested, executing or cancelled, and that
/// outcome is `Failure` exactly when some child failed.
pub proof fn lemma_concurrent_settles(children: Seq<ActionState>)
    ensures
        concurrent_state_after(ActionState::Cancelled, children).is_done() <==> all_settled(
            children,
        ),
        concurrent_state_after(ActionState::Cancelled, children) == ActionState::Failure
            <==> all_settled(children) && any_failure(children),
{
}

/// Whatever a composite does to its own state is a step that an action's
/// implementer may take, but for one: once a child has failed it marks
/// itself as cancelled while it waits for the other children.
pub proof fn lemma_concurrent_own_transitions(state: ActionState, children: Seq<ActionState>)
    ensures
        ({
            let after = concurrent_state_after(state, children);
            ||| after == state
            ||| implementer_may_set(state, after)
            ||| state == ActionState::Executing && after == ActionState::Cancelled && any_failure(
                children,
            )
        }),
{
}

/// A composite never reports an outcome on a child's behalf: a child that
/// is finished after the tick was finished in the same way before it.
pub proof fn lemma_concurrent_leaves_outcome_to_child(
    state: ActionState,
    children: Seq<ActionState>,
    child: ActionState,
)
    ensures
        concurrent_child_after(state, children, child).is_done() ==> concurrent_child_after(
            state,
            children,
            child,
        ) == child,
        state != ActionState::Requested && child == ActionState::Cancelled
            ==> concurrent_child_after(state, children, child) == ActionState::Cancelled,
{
}

/// What every action builder can tell about itself.
pub trait ActionBuilder {
    /// A label to display when logging.
    fn label(&self) -> Option<&str>;
}

/// Borrows the label if there is one.
fn borrow_label(label: &Option<String>) -> (text: Option<&str>)
    ensures
        match text {
            Some(t) => *label matches Some(own) && own@ == t@,
            None => label.is_none(),
        },
{
    match label {
        Some(own) => Some(own.as_str()),
        None => None,
    }
}

/// Copies a list of handles.
fn copy_handles(handles: &Vec<ActionBuilderHandle>) -> (copy: Vec<ActionBuilderHandle>)
    ensures
        copy@ == handles@,
{
    let len = handles.len();
    let mut copy: Vec<ActionBuilderHandle> = Vec::new();
    let mut i: usize = 0;
    while i < len
        invariant
            0 <= i <= len,
            handles@.len() == len,
            copy@ == handles@.take(i as int),
        decreases len - i,
    {
        copy.push(handles[i]);
        assert(handles@.take(i + 1) =~= handles@.take(i as int).push(handles@[i as int]));
        i = i + 1;
    }
    assert(handles@.take(len as int) =~= handles@);
    copy
}

/// Builder of [`Steps`] actions.
#[derive(Debug, Clone)]
pub struct StepsBuilder {
    label: Option<String>,
    steps: Vec<ActionBuilderHandle>,
}

impl StepsBuilder {
    /// The builders of the steps, in order.
    pub closed spec fn steps(&self) -> Seq<ActionBuilderHandle> {
        self.steps@
    }

    /// Sets the logging label of the action.
    pub fn label(self, label: String) -> (builder: Self)
        ensures
            builder.steps() == self.steps(),
            builder.label_text() == Some(label@),
    {
        let mut builder = self;
        builder.label = Some(label);
        builder
    }

    /// Adds an action step. Order matters.
    pub fn step(self, action_builder: ActionBuilderHandle) -> (builder: Self)
        ensures
            builder.steps() == self.steps().push(action_builder),
            builder.label_text() == self.label_text(),
    {
        let mut builder = self;
        builder.steps.push(action_builder);
        builder
    }

    /// The builder of the first step, which the host has to spawn before
    /// it can build the action; none if there are no steps.
    pub fn first_step(&self) -> (first: Option<ActionBuilderHandle>)
        ensures
            first == if self.steps().len() > 0 {
                Some(self.steps()[0])
            } else {
                None
            },
    {
        if self.steps.len() > 0 {
            Some(self.steps[0])
        } else {
            None
        }
    }

    /// Makes the action, whose first step has been spawned as `first`.
    /// Without steps there is no action.
    pub fn build(&self, first: Action) -> (made: Option<Steps>)
        ensures
            made.is_some() == (self.steps().len() > 0),
            made matches Some(steps) ==> {
                &&& steps.steps() == self.steps()
                &&& steps.active_step() == 0
                &&& steps.active_ent() == first
            },
    {
        if self.steps.len() > 0 {
            Some(Steps::new(copy_handles(&self.steps), first))
        } else {
            None
        }
    }

    /// The label that the builder goes by, if it has one.
    pub closed spec fn label_text(&self) -> Option<Seq<char>> {
        match self.label {
            Some(own) => Some(own@),
            None => None,
        }
    }
}

impl ActionBuilder for StepsBuilder {
    fn label(&self) -> (label: Option<&str>)
        ensures
            match label {
                Some(text) => self.label_text() == Some(text@),
                None => self.label_text().is_none(),
            },
    {
        borrow_label(&self.label)
    }
}

impl Steps {
    /// Starts a builder without steps and without a label.
    pub fn build() -> (builder: StepsBuilder)
        ensures
            builder.steps().len() == 0,
            builder.label_text().is_none(),
    {
        StepsBuilder { steps: Vec::new(), label: None }
    }
}

/// Builder of [`Concurrently`] actions.
#[derive(Debug, Clone)]
pub struct ConcurrentlyBuilder {
    actions: Vec<ActionBuilderHandle>,
    label: Option<String>,
}

impl ConcurrentlyBuilder {
    /// The builders of the children.
    pub closed spec fn actions(&self) -> Seq<ActionBuilderHandle> {
        self.actions@
    }

    /// Sets the logging label of the action.
    pub fn label(self, label: String) -> (builder: Self)
        ensures
            builder.actions() == self.actions(),
            builder.label_text() == Some(label@),
    {
        let mut builder = self;
        builder.label = Some(label);
        builder
    }

    /// Adds an action to execute. Order does not matter.
    pub fn push(self, action_builder: ActionBuilderHandle) -> (builder: Self)
        ensures
            builder.actions() == self.actions().push(action_builder),
            builder.label_text() == self.label_text(),
    {
        let mut builder = self;
        builder.actions.push(action_builder);
        builder
    }

    /// The builders of the children that the host has to spawn.
    pub fn children(&self) -> (actions: &Vec<ActionBuilderHandle>)
        ensures
            actions@ == self.actions(),
    {
        &self.actions
    }

    /// Makes the action for children that have been spawned, one for each
    /// builder. Without exactly one child for each builder there is no
    /// action.
    pub fn build(&self, children: Vec<Action>) -> (made: Option<Concurrently>)
        ensures
            made.is_some() == (children@.len() == self.actions().len()),
            made matches Some(concurrently) ==> concurrently.actions() == children@,
    {
        if children.len() == self.actions.len() {
            Some(Concurrently::new(children))
        } else {
            None
        }
    }

    /// The label that the builder goes by, if it has one.
    pub closed spec fn label_text(&self) -> Option<Seq<char>> {
        match self.label {
            Some(own) => Some(own@),
            None => None,
        }
    }
}

impl ActionBuilder for ConcurrentlyBuilder {
    fn label(&self) -> (label: Option<&str>)
        ensures
            match label {
                Some(text) => self.label_text() == Some(text@),
                None => self.label_text().is_none(),
            },
    {
        borrow_label(&self.label)
    }
}

impl Concurrently {
    /// Starts a builder without children and without a label.
    pub fn build() -> (builder: ConcurrentlyBuilder)
        ensures
            builder.actions().len() == 0,
            builder.label_text().is_none(),
    {
        ConcurrentlyBuilder { actions: Vec::new(), label: None }
    }
}

} // verus!
