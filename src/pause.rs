use vstd::prelude::*;

verus! {

/// Whether simulation time runs.
#[derive(Clone, Copy, Debug, PartialEq, Eq, Structural)]
pub enum GameSubState {
    Running,
    Paused,
}

/// On the pause key: a running game pauses and shows its overlay; a paused
/// one runs again and hides it. Returns the next state and whether the
/// overlay shows.
pub fn toggle(current: GameSubState) -> (r: (GameSubState, bool))
    ensures
        current == GameSubState::Running ==> r == (GameSubState::Paused, true),
        current == GameSubState::Paused ==> r == (GameSubState::Running, false),
{
    match current {
        GameSubState::Running => (GameSubState::Paused, true),
        GameSubState::Paused => (GameSubState::Running, false),
    }
}

/// Whether a fixed tick advances the simulation in this state.
pub fn simulates(current: GameSubState) -> (r: bool)
    ensures
        r == (current == GameSubState::Running),
{
    match current {
        GameSubState::Running => true,
        GameSubState::Paused => false,
    }
}

} // verus!
