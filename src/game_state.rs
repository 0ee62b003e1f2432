use vstd::prelude::*;

verus! {

/// The top-level mode of the game; it decides which gameplay systems run in
/// a tick.
#[derive(Clone, Copy, Debug, PartialEq, Eq, Hash, Structural)]
pub enum GameState {
    /// Assets are being loaded.
    Loading,
    /// The game itself runs.
    Playing,
    /// The main menu is shown and waits for the player.
    Menu,
}

impl GameState {
    /// The phase the game starts in.
    pub fn initial() -> (r: GameState)
        ensures
            r == GameState::Loading,
    {
        GameState::Loading
    }

    /// Whether the player-input system is eligible to run in this phase.
    pub open spec fn spec_runs_player_inputs(&self) -> bool {
        *self == GameState::Playing
    }

    /// Whether the player-input system is eligible to run in this phase: only
    /// while the game is being played.
    #[verifier::when_used_as_spec(spec_runs_player_inputs)]
    pub fn runs_player_inputs(&self) -> (r: bool)
        ensures
            r == self.spec_runs_player_inputs(),
    {
        match self {
            GameState::Playing => true,
            _ => false,
        }
    }
}

} // verus!
