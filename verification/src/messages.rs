use vstd::prelude::*;

verus! {

/// Side of the board a player plays, and whose turn it is.
#[derive(Clone, Copy, Debug, PartialEq, Eq, Structural)]
pub enum Color {
    White,
    Black,
}

impl Color {
    /// The opposite side.
    pub open spec fn spec_opposite(self) -> Color {
        match self {
            Color::White => Color::Black,
            Color::Black => Color::White,
        }
    }

    #[verifier::when_used_as_spec(spec_opposite)]
    pub fn opposite(self) -> (r: Color)
        ensures
            r == self.spec_opposite(),
    {
        match self {
            Color::White => Color::Black,
            Color::Black => Color::White,
        }
    }
}

/// Piece a pawn may promote to; carried in a move packet.
#[derive(Clone, Copy, Debug, PartialEq, Eq, Structural)]
pub enum PieceKind {
    Pawn,
    Bishop,
    Knight,
    Rook,
    Queen,
    King,
}

/// Game verdict as reported by the authoritative engine; carried in an
/// acknowledgement when a move ends or suspends the game.
#[derive(Clone, Copy, Debug, PartialEq, Eq, Structural)]
pub enum GameState {
    Ongoing,
    Promotion,
    CheckMate,
    Draw,
}

/// Handshake message. A client sends one on connect to request a color; the
/// server rewrites `is_white` to the color actually assigned, clears `fen`,
/// `time` and `inc`, and echoes one Start to each side once both are present.
/// `name` and `fen` hold UTF-8 bytes.
#[derive(Clone, Debug, PartialEq, Eq)]
pub struct Start {
    pub is_white: bool,
    pub name: Option<Vec<u8>>,
    pub fen: Option<Vec<u8>>,
    pub time: Option<u32>,
    pub inc: Option<u32>,
}

/// Mathematical value of a Start message.
pub struct StartV {
    pub is_white: bool,
    pub name: Option<Seq<u8>>,
    pub fen: Option<Seq<u8>>,
    pub time: Option<u32>,
    pub inc: Option<u32>,
}

/// The byte sequence held by an optional byte string.
pub open spec fn view_opt_bytes(o: Option<Vec<u8>>) -> Option<Seq<u8>> {
    match o {
        Some(v) => Some(v@),
        None => None,
    }
}

impl View for Start {
    type V = StartV;

    open spec fn view(&self) -> StartV {
        StartV {
            is_white: self.is_white,
            name: view_opt_bytes(self.name),
            fen: view_opt_bytes(self.fen),
            time: self.time,
            inc: self.inc,
        }
    }
}

/// One ply. `from` and `to` are (file, rank) pairs, each coordinate below 8.
/// `offer_draw` and `forfeit` travel on the wire but drive no transition.
#[derive(Clone, Copy, Debug, PartialEq, Eq)]
pub struct Move {
    pub from: (u8, u8),
    pub to: (u8, u8),
    pub promotion: Option<PieceKind>,
    pub offer_draw: bool,
    pub forfeit: bool,
}

/// Move acknowledgement, sent by the server to the mover after validating a
/// submitted move against the engine.
#[derive(Clone, Copy, Debug, PartialEq, Eq)]
pub struct Ack {
    pub ok: bool,
    pub end_state: Option<GameState>,
}

/// A Move whose squares lie on the board.
pub open spec fn wf_move(m: Move) -> bool {
    m.from.0 < 8 && m.from.1 < 8 && m.to.0 < 8 && m.to.1 < 8
}

/// A Start whose variable-length fields fit the wire format's length prefix.
pub open spec fn wf_start(s: StartV) -> bool {
    &&& match s.name {
        Some(b) => b.len() <= 0xFFFF,
        None => true,
    }
    &&& match s.fen {
        Some(b) => b.len() <= 0xFFFF,
        None => true,
    }
}

} // verus!
