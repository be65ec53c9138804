//! Utility AI decision engine: scorers rate the world, pickers choose among
//! scored choices, and thinkers drive action state machines tick by tick.
//!
//! The engine owns no entities. The host keeps the entities, their scores
//! and their action states; each tick it hands the engine what a scorer, a
//! thinker or a composite action needs to know and carries out what comes
//! back.

use vstd::prelude::*;

pub mod actions;
pub mod budget;
pub mod choices;
pub mod considerations;
pub mod evaluators;
pub mod measures;
pub mod pickers;
pub mod scalar;
pub mod scorers;
pub mod thinker;

verus! {

/// The passes of a tick. Each pass reads what the passes before it wrote:
/// scorers come first, then the thinkers, then the actions, and cleaning up
/// comes last.
#[derive(Debug, Clone, Copy, PartialEq, Eq, Hash, Structural)]
pub enum BigBrainSet {
    /// Scorers are evaluated in this set.
    Scorers,
    /// Actions are executed in this set.
    Actions,
    /// Thinkers run their logic in this set.
    Thinkers,
    /// Various internal cleanup items run in this final set.
    Cleanup,
}

} // verus!
