use vstd::prelude::*;

use crate::animate::{Animation, Animations};
use crate::engine::{MoveOutcome, SquareReport};
use crate::messages::{Color, GameState, PieceKind};
use crate::player::{FrameInput, Player, PlayerTypes};
use crate::screen::{screen_to_board_coord, spec_screen_to_board_coord};

verus! {

// The client game view holds one player role per color and polls, each
// frame, only the role whose color matches the turn. The rules engine stays
// outside as an oracle: when a full (from, to) pair is pending, the caller
// asks the engine and reports back through `commit_move`; when only a
// from-square is selected, the caller reports whether the square holds a
// piece of the side to move through `review_selection`.

/// What the game needs from the engine oracle this frame.
#[derive(Clone, Copy, Debug, PartialEq, Eq, Structural)]
pub enum GameQuery {
    /// Nothing pending.
    Idle,
    /// A full pair awaits validation; for a sending role, the move must
    /// first travel to the server and be acknowledged.
    CommitMove { from: i32, to: i32 },
    /// Only a from-square is selected; ask what stands on it.
    InspectSquare { slot: i32 },
}

/// The client game: the two roles seated by color (white first), the turn
/// as last reported by the engine, the column highlighted for an open
/// promotion choice, each king's square, and the move animation.
pub struct Game {
    pub players: (PlayerTypes, PlayerTypes),
    pub player_turn: Color,
    pub promoted_slot: Option<i32>,
    pub king_index: (i32, i32),
    pub animation: Animation,
}

/// How a king's remembered square follows a move: the turn has already
/// shifted to the opponent when this runs, so the side that just moved is
/// the opposite of `turn`.
pub open spec fn spec_update_king_index(k: (i32, i32), from: i32, to: i32, turn: Color) -> (
    i32,
    i32,
) {
    match turn {
        Color::Black => if k.0 == from {
            (to, k.1)
        } else {
            k
        },
        Color::White => if k.1 == from {
            (k.0, to)
        } else {
            k
        },
    }
}

/// The column highlighted for a promotion that began on this square: the
/// parity that picks the square's own background color.
pub open spec fn spec_promotion_slot(from: i32) -> i32
    recommends
        0 <= from < 64,
{
    (((from % 8) + ((from / 8) % 2) + 1) % 2) as i32
}

/// The promotion piece a click chooses: the promotion column stands at
/// board column 9, rows 5 down to 2 offering queen, rook, knight, bishop.
pub open spec fn spec_promotion_choice(mx: int, my: int) -> Option<PieceKind> {
    let (x, y) = spec_screen_to_board_coord(mx, my);
    if x == 9 && 2 <= y <= 5 {
        if y == 5 {
            Some(PieceKind::Queen)
        } else if y == 4 {
            Some(PieceKind::Rook)
        } else if y == 3 {
            Some(PieceKind::Knight)
        } else {
            Some(PieceKind::Bishop)
        }
    } else {
        None
    }
}

/// The promotion piece chosen by a primary-button press, if the press lands
/// on the promotion column; the caller hands the choice to the engine.
pub fn promotion_choice(mouse_x: i32, mouse_y: i32, clicked: bool) -> (r: Option<PieceKind>)
    ensures
        !clicked ==> r is None,
        clicked ==> r == spec_promotion_choice(mouse_x as int, mouse_y as int),
{
    if !clicked {
        return None;
    }
    let (x, y) = screen_to_board_coord(mouse_x, mouse_y);
    if x != 9 || !(2 <= y && y <= 5) {
        return None;
    }
    if y == 5 {
        Some(PieceKind::Queen)
    } else if y == 4 {
        Some(PieceKind::Rook)
    } else if y == 3 {
        Some(PieceKind::Knight)
    } else {
        Some(PieceKind::Bishop)
    }
}

impl Game {
    /// Both seats hold well-formed roles and the animation counter is sane.
    pub open spec fn wf(&self) -> bool {
        &&& self.players.0.wf()
        &&& self.players.1.wf()
        &&& self.animation.wf()
    }

    /// The role seated on the color whose turn it is.
    pub open spec fn spec_current_player(&self) -> PlayerTypes {
        match self.player_turn {
            Color::White => self.players.0,
            Color::Black => self.players.1,
        }
    }

    /// The role seated on the other color.
    pub open spec fn spec_other_player(&self) -> PlayerTypes {
        match self.player_turn {
            Color::White => self.players.1,
            Color::Black => self.players.0,
        }
    }

    /// A fresh game over the given seats: white to move, no promotion open,
    /// kings on their starting squares, and a short move animation.
    pub fn init(players: (PlayerTypes, PlayerTypes)) -> (r: Game)
        requires
            players.0.wf(),
            players.1.wf(),
        ensures
            r.wf(),
            r.players == players,
            r.player_turn == Color::White,
            r.promoted_slot is None,
            r.king_index == (4i32, 60i32),
            r.animation.frames_elapsed == 0,
    {
        Game {
            players,
            player_turn: Color::White,
            promoted_slot: None,
            king_index: (4, 60),
            animation: Animation::new(Animations::EaseInOutCirc, 12),
        }
    }

    /// The role polled this frame.
    pub fn get_player(&self) -> (r: &PlayerTypes)
        ensures
            *r == self.spec_current_player(),
    {
        match self.player_turn {
            Color::White => &self.players.0,
            Color::Black => &self.players.1,
        }
    }

    /// The turn as last reported by the engine.
    pub fn get_player_turn(&self) -> (r: Color)
        ensures
            r == self.player_turn,
    {
        self.player_turn
    }

    /// One ongoing frame: only the current role is polled with this frame's
    /// input; everything else stands still.
    pub fn on_ongoing(&mut self, input: FrameInput)
        requires
            old(self).wf(),
        ensures
            final(self).wf(),
            PlayerTypes::ongoing_ens(
                old(self).spec_current_player(),
                final(self).spec_current_player(),
                input,
            ),
            final(self).spec_other_player() == old(self).spec_other_player(),
            final(self).player_turn == old(self).player_turn,
            final(self).promoted_slot == old(self).promoted_slot,
            final(self).king_index == old(self).king_index,
            final(self).animation == old(self).animation,
    {
        match self.player_turn {
            Color::White => self.players.0.on_ongoing(input),
            Color::Black => self.players.1.on_ongoing(input),
        }
    }

    /// What the engine oracle must be asked after this frame's input, from
    /// the current role's pending squares.
    pub fn pending(&self) -> (q: GameQuery)
        ensures
            match (self.spec_current_player().selected_slot_spec(), self.spec_current_player()
                .move_slot_spec()) {
                (Some(sel), Some(mv)) => q == (GameQuery::CommitMove { from: sel, to: mv }),
                (Some(sel), None) => q == (GameQuery::InspectSquare { slot: sel }),
                (None, _) => q is Idle,
            },
    {
        let p = self.get_player();
        match (p.get_selected_slot(), p.get_move()) {
            (Some(sel), Some(mv)) => GameQuery::CommitMove { from: sel, to: mv },
            (Some(sel), None) => GameQuery::InspectSquare { slot: sel },
            (None, _) => GameQuery::Idle,
        }
    }

    /// How a king's remembered square follows the move just played, exactly
    /// as `spec_update_king_index` says; the turn has already shifted.
    pub fn update_king_index(&mut self, from: i32, to: i32)
        ensures
            final(self).king_index == spec_update_king_index(
                old(self).king_index,
                from,
                to,
                old(self).player_turn,
            ),
            final(self).players == old(self).players,
            final(self).player_turn == old(self).player_turn,
            final(self).promoted_slot == old(self).promoted_slot,
            final(self).animation == old(self).animation,
    {
        match self.player_turn {
            Color::Black => {
                if self.king_index.0 == from {
                    self.king_index.0 = to;
                }
            },
            Color::White => {
                if self.king_index.1 == from {
                    self.king_index.1 = to;
                }
            },
        }
    }

    /// Applies the engine's verdict on the pending pair. The current role
    /// commits and clears its pair either way — for a sending role the
    /// caller has already exchanged the move and its acknowledgement with
    /// the server. An accepted move takes the engine's reported turn,
    /// restarts the animation and tracks the moved king; an accepted move
    /// into promotion opens the promotion choice. A rejected move changes
    /// the board state in no way: the mover simply reselects and resubmits.
    pub fn commit_move(&mut self, outcome: MoveOutcome)
        requires
            old(self).wf(),
            old(self).spec_current_player().selected_slot_spec() is Some,
            old(self).spec_current_player().move_slot_spec() is Some,
        ensures
            final(self).wf(),
            old(self).player_turn is White ==> PlayerTypes::move_piece_ens(
                old(self).players.0,
                final(self).players.0,
                true,
            ) && final(self).players.1 == old(self).players.1,
            old(self).player_turn is Black ==> PlayerTypes::move_piece_ens(
                old(self).players.1,
                final(self).players.1,
                true,
            ) && final(self).players.0 == old(self).players.0,
            match outcome {
                MoveOutcome::Accepted { state, turn_after } => {
                    &&& final(self).player_turn == turn_after
                    &&& final(self).animation.frames_elapsed == 0
                    &&& final(self).king_index == spec_update_king_index(
                        old(self).king_index,
                        old(self).spec_current_player().selected_slot_spec().unwrap(),
                        old(self).spec_current_player().move_slot_spec().unwrap(),
                        turn_after,
                    )
                    &&& final(self).promoted_slot == if state is Promotion {
                        Some(
                            spec_promotion_slot(
                                old(self).spec_current_player().selected_slot_spec().unwrap(),
                            ),
                        )
                    } else {
                        old(self).promoted_slot
                    }
                },
                MoveOutcome::Rejected => {
                    &&& final(self).player_turn == old(self).player_turn
                    &&& final(self).promoted_slot == old(self).promoted_slot
                    &&& final(self).king_index == old(self).king_index
                    &&& final(self).animation == old(self).animation
                },
            },
    {
        let (from, to) = match (self.get_player().get_selected_slot(), self.get_player()
            .get_move()) {
            (Some(f), Some(t)) => (f, t),
            _ => {
                return ;
            },
        };
        let committed = match self.player_turn {
            Color::White => self.players.0.on_move_piece(),
            Color::Black => self.players.1.on_move_piece(),
        };
        if !committed {
            return ;
        }
        match outcome {
            MoveOutcome::Accepted { state, turn_after } => {
                self.player_turn = turn_after;
                self.animation.restart();
                self.update_king_index(from, to);
                if matches!(state, GameState::Promotion) {
                    let parity = ((from % 8) + ((from / 8) % 2) + 1) % 2;
                    self.promoted_slot = Some(parity);
                }
            },
            MoveOutcome::Rejected => {
            },
        }
    }

    /// Reviews a lone selected square against what the engine says stands
    /// on it: a piece of the side to move keeps the selection; an empty
    /// square or an opponent's piece drops it.
    pub fn review_selection(&mut self, square: SquareReport)
        requires
            old(self).wf(),
        ensures
            final(self).wf(),
            square is OwnPiece ==> final(self).players == old(self).players,
            !(square is OwnPiece) ==> PlayerTypes::clear_ens(
                old(self).spec_current_player(),
                final(self).spec_current_player(),
            ) && final(self).spec_other_player() == old(self).spec_other_player(),
            final(self).player_turn == old(self).player_turn,
            final(self).promoted_slot == old(self).promoted_slot,
            final(self).king_index == old(self).king_index,
            final(self).animation == old(self).animation,
    {
        if !matches!(square, SquareReport::OwnPiece) {
            match self.player_turn {
                Color::White => self.players.0.clear_selected(),
                Color::Black => self.players.1.clear_selected(),
            }
        }
    }

    /// Whether the current role resolves an open promotion choice.
    pub fn on_promotion(&mut self) -> (r: bool)
        ensures
            *final(self) == *old(self),
            r == old(self).spec_current_player().promotion_spec(),
    {
        match self.player_turn {
            Color::White => self.players.0.on_promotion(),
            Color::Black => self.players.1.on_promotion(),
        }
    }

    /// The game has ended; the current role is told once per frame.
    pub fn on_end(&mut self)
        ensures
            *final(self) == *old(self),
    {
        match self.player_turn {
            Color::White => self.players.0.on_end(),
            Color::Black => self.players.1.on_end(),
        }
    }
}

} // verus!
