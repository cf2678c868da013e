//! The phases of the game and the request to change between them.

use crate::game::Game;
use vstd::prelude::*;

verus! {

/// Top-level mode of the game; exactly one is active at any time.
#[derive(Copy, Clone, Eq, PartialEq, Structural, Hash, Debug)]
pub enum GameState {
    StartMenu,
    Defense,
    End,
}

/// The phase the game is in, and the phase it has been asked to go to next.
///
/// A change of phase is never made in the middle of a frame: it is asked for
/// with [`State::set`] and carried out before the next frame's updates.
#[derive(Copy, Clone, Eq, PartialEq, Structural, Debug)]
pub struct State {
    pub current: GameState,
    pub next: Option<GameState>,
}

impl State {
    /// A machine that stands in `initial` and has still to enter it.
    pub fn new(initial: GameState) -> (state: State)
        ensures
            state == (State { current: initial, next: Some(initial) }),
    {
        State { current: initial, next: Some(initial) }
    }

    /// The phase the game is in.
    pub fn current(&self) -> (phase: GameState)
        ensures
            phase == self.current,
    {
        self.current
    }

    /// Asks for a change to `state`. A request that has not been carried out
    /// yet is replaced.
    pub fn set(&mut self, state: GameState)
        ensures
            *final(self) == (State { current: old(self).current, next: Some(state) }),
    {
        self.next = Some(state);
    }
}

/// Sets up the phase machine.
#[derive(Copy, Clone, PartialEq, Eq, Structural, Debug)]
pub struct GameStatePlugin;

impl GameStatePlugin {
    /// Makes the start menu the phase that the game begins in; the phase is
    /// entered with the first frame.
    pub fn build(&self, game: &mut Game)
        ensures
            *final(game) == (Game {
                state: State { current: GameState::StartMenu, next: Some(GameState::StartMenu) },
                ..*old(game)
            }),
    {
        game.state = State::new(GameState::StartMenu);
    }
}

} // verus!
