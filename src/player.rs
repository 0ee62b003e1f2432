use vstd::prelude::*;
use crate::game_state::GameState;

verus! {

/// A fixed-point quantity in thousandths of the engine's unit (a speed of
/// `60_000` is 60 units per second, a duration of `100` is a tenth of a
/// second).
pub type Milli = i32;

/// The input snapshot of one tick: the movement intent and whether jump is
/// held.
#[derive(Clone, Copy, Debug, PartialEq, Eq, Structural)]
pub struct Actions {
    /// Horizontal component of the movement intent.
    pub movement_x: Milli,
    /// Vertical component of the movement intent.
    pub movement_y: Milli,
    /// Whether the jump input is held.
    pub jump: bool,
}

/// Marker of the entity that the player controls.
#[derive(Clone, Copy, Debug, Default, PartialEq, Eq, Structural)]
pub struct Player;

/// Movement tuning of a character, and the intents that drive it this tick.
#[derive(Clone, Copy, Debug, PartialEq, Eq, Structural)]
pub struct Actor {
    pub move_speed: Milli,
    pub drag: Milli,
    pub accel: Milli,
    pub deccel: Milli,
    pub gravity: Milli,
    pub jump_speed: Milli,
    pub jump_time: Milli,
    /// Horizontal movement intent.
    pub move_input: Milli,
    /// Whether a jump is requested this tick.
    pub jump_input: bool,
}

/// Physical state of a character, as the movement integration left it.
#[derive(Clone, Copy, Debug, PartialEq, Eq, Structural)]
pub struct ActorStatus {
    /// Whether the character stands on the ground.
    pub grounded: bool,
    pub velocity_x: Milli,
    pub velocity_y: Milli,
}

/// The components of one entity tagged [`Player`] that the input system
/// reads and writes.
#[derive(Clone, Copy, Debug, PartialEq, Eq, Structural)]
pub struct PlayerEntity {
    pub actor: Actor,
    pub status: ActorStatus,
}

/// The actor after the input of `actions` was applied to it: the horizontal
/// intent is copied, and a jump is requested only while grounded.
pub open spec fn updated_actor(actor: Actor, actions: Actions, status: ActorStatus) -> Actor {
    Actor {
        move_input: actions.movement_x,
        jump_input: status.grounded && actions.jump,
        ..actor
    }
}

/// Every player entity after the input of `actions` was applied to it.
pub open spec fn updated_players(players: Seq<PlayerEntity>, actions: Actions) -> Seq<PlayerEntity> {
    Seq::new(
        players.len(),
        |i: int|
            PlayerEntity {
                actor: updated_actor(players[i].actor, actions, players[i].status),
                status: players[i].status,
            },
    )
}

/// The player entities after one tick in phase `state`: the input system runs
/// only in the phases that allow it, and leaves them as they are otherwise.
pub open spec fn ticked_players(
    state: GameState,
    actions: Actions,
    players: Seq<PlayerEntity>,
) -> Seq<PlayerEntity> {
    if state.runs_player_inputs() {
        updated_players(players, actions)
    } else {
        players
    }
}

/// Applies the input snapshot to one player's actor.
pub fn apply_actions(actor: &mut Actor, actions: &Actions, status: &ActorStatus)
    ensures
        *final(actor) == updated_actor(*old(actor), *actions, *status),
{
    actor.move_input = actions.movement_x;
    if status.grounded {
        actor.jump_input = actions.jump;
    } else {
        actor.jump_input = false;
    }
}

/// The player-input system: applies the input snapshot to the actor of every
/// player entity. With no player entity it does nothing.
pub fn player_inputs(actions: &Actions, players: &mut Vec<PlayerEntity>)
    ensures
        final(players)@ == updated_players(old(players)@, *actions),
{
    let n = players.len();
    let mut i: usize = 0;
    while i < n
        invariant
            n == old(players)@.len(),
            players@.len() == n,
            i <= n,
            forall|j: int| 0 <= j < i ==> players@[j] == updated_players(old(players)@, *actions)[j],
            forall|j: int| i <= j < n ==> players@[j] == old(players)@[j],
        decreases n - i,
    {
        let mut entity = players[i];
        apply_actions(&mut entity.actor, actions, &players[i].status);
        players.set(i, entity);
        i = i + 1;
    }
    assert(players@ =~= updated_players(old(players)@, *actions));
}

/// One tick of the gameplay systems defined here: the player-input system runs
/// while the game is played, and in any other phase no actor changes.
pub fn run_tick(state: GameState, actions: &Actions, players: &mut Vec<PlayerEntity>)
    ensures
        final(players)@ == ticked_players(state, *actions, old(players)@),
{
    if state.runs_player_inputs() {
        player_inputs(actions, players);
    }
}

/// While airborne, a held jump never turns into a jump request.
pub proof fn lemma_airborne_jump_suppressed(actor: Actor, actions: Actions, status: ActorStatus)
    requires
        actions.jump,
        !status.grounded,
    ensures
        !updated_actor(actor, actions, status).jump_input,
{
}

/// While grounded, a held jump becomes a jump request.
pub proof fn lemma_grounded_jump_requested(actor: Actor, actions: Actions, status: ActorStatus)
    requires
        actions.jump,
        status.grounded,
    ensures
        updated_actor(actor, actions, status).jump_input,
{
}

/// The horizontal intent of the actor is exactly the horizontal component of
/// the movement, whatever its vertical component.
pub proof fn lemma_move_input_is_horizontal(
    actor: Actor,
    actions: Actions,
    status: ActorStatus,
    movement_y: Milli,
)
    ensures
        updated_actor(actor, actions, status).move_input == actions.movement_x,
        updated_actor(actor, Actions { movement_y, ..actions }, status) == updated_actor(
            actor,
            actions,
            status,
        ),
{
}

/// Outside the phase in which the game is played, a tick changes no player
/// entity, whatever the input.
pub proof fn lemma_idle_phases_change_nothing(
    state: GameState,
    actions: Actions,
    players: Seq<PlayerEntity>,
)
    requires
        state == GameState::Loading || state == GameState::Menu,
    ensures
        ticked_players(state, actions, players) == players,
{
}

} // verus!
