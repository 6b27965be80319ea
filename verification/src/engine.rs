use vstd::prelude::*;

use crate::messages::{Color, GameState};

verus! {

// The chess rules engine is an external collaborator: an authoritative
// oracle consulted through `move_piece(from, to)`, `get_player_turn()` and
// `get_game_state()`. This crate never re-derives legality; the caller that
// owns the engine consults it and reports what it said in the types here.

/// The authoritative engine's verdict on one submitted move, as reported by
/// the caller that consulted it.
#[derive(Clone, Copy, Debug, PartialEq, Eq, Structural)]
pub enum MoveOutcome {
    /// The engine performed the move, reported the game state after it, and
    /// now gives the turn to `turn_after`.
    Accepted { state: GameState, turn_after: Color },
    /// The engine refused the move; nothing changed.
    Rejected,
}

/// What stands on an inspected square, as reported by the engine: no piece,
/// or a piece of the side to move, or a piece of the other side.
#[derive(Clone, Copy, Debug, PartialEq, Eq, Structural)]
pub enum SquareReport {
    Empty,
    OwnPiece,
    OpponentPiece,
}

} // verus!
