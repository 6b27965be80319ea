use vstd::prelude::*;
use crate::engine::MoveOutcome;
use crate::messages::{Ack, Color, GameState, Move, Start, wf_start};

verus! {

// The session server matches two connections, assigns each a color, and
// relays engine-validated moves between them. Everything that touches a
// socket stays outside: connections appear here as numeric identifiers, an
// inbound message arrives as an argument, and what must be sent comes back
// as a list of actions for the caller to perform in order.

/// Phase of the session server's state machine.
#[derive(Clone, Copy, Debug, PartialEq, Eq, Structural)]
pub enum ServerState {
    GameInitiation,
    Playing,
    Ended,
}

/// A color slot: the connection holding it and the handshake stored for it.
pub struct PlayerSlot {
    pub conn: u64,
    pub opts: Start,
}

/// What the server decides about one handshake.
#[derive(Clone, Copy, Debug, PartialEq, Eq, Structural)]
pub enum StartResponse {
    AssignedWhite,
    AssignedBlack,
    /// Both color slots were taken; the handshake is dropped.
    Rejected,
}

/// One thing the caller must do on its sockets, in list order.
#[derive(Clone, Copy, Debug, PartialEq, Eq)]
pub enum ServerAction {
    SendAck { to: Color, ack: Ack },
    SendMove { to: Color, mv: Move },
    /// Read one acknowledgement from this side, blocking, and discard it.
    AwaitAck { from: Color },
}

/// The session server's state: phase, the two color slots, and whose turn it
/// is. The turn is only ever set from what the engine reports.
pub struct Session {
    pub state: ServerState,
    pub white: Option<PlayerSlot>,
    pub black: Option<PlayerSlot>,
    pub turn: Color,
}

/// A stored handshake: the assigned color, the client's name kept, and the
/// fields the server clears before storing.
pub open spec fn cleared(start: Start, assigned_white: bool) -> Start {
    Start {
        is_white: assigned_white,
        name: start.name,
        fen: None,
        time: None,
        inc: None,
    }
}

/// The handshake-assignment step: if the requested color's slot is free it
/// is assigned; otherwise the opposite slot if that one is free; with both
/// slots taken the handshake is dropped. The stored handshake carries the
/// color actually assigned and cleared `fen`, `time` and `inc`.
pub open spec fn spec_assign(s: Session, conn: u64, start: Start) -> (Session, StartResponse) {
    if s.white is None && (start.is_white || s.black is Some) {
        (
            Session {
                state: s.state,
                white: Some(PlayerSlot { conn, opts: cleared(start, true) }),
                black: s.black,
                turn: s.turn,
            },
            StartResponse::AssignedWhite,
        )
    } else if s.black is None {
        (
            Session {
                state: s.state,
                white: s.white,
                black: Some(PlayerSlot { conn, opts: cleared(start, false) }),
                turn: s.turn,
            },
            StartResponse::AssignedBlack,
        )
    } else {
        (s, StartResponse::Rejected)
    }
}

/// The move-relay step. An accepted move produces, in this order: a positive
/// acknowledgement to the mover, the identical move forwarded to the
/// opponent, and a blocking wait for the opponent's acknowledgement; the
/// turn becomes whatever the engine reported. A rejected move produces only
/// a negative acknowledgement to the mover and changes nothing.
pub open spec fn spec_play(s: Session, m: Move, verdict: MoveOutcome) -> (
    Session,
    Seq<ServerAction>,
) {
    match verdict {
        MoveOutcome::Accepted { state: _, turn_after } => (
            Session { state: s.state, white: s.white, black: s.black, turn: turn_after },
            seq![
                ServerAction::SendAck { to: s.turn, ack: Ack { ok: true, end_state: None } },
                ServerAction::SendMove { to: s.turn.spec_opposite(), mv: m },
                ServerAction::AwaitAck { from: s.turn.spec_opposite() },
            ],
        ),
        MoveOutcome::Rejected => (
            s,
            seq![ServerAction::SendAck { to: s.turn, ack: Ack { ok: false, end_state: None } }],
        ),
    }
}

impl Session {
    /// The connection identifier `conn` holds one of the color slots.
    pub open spec fn spec_occupies(self, conn: u64) -> bool {
        ||| (self.white matches Some(p) && p.conn == conn)
        ||| (self.black matches Some(p) && p.conn == conn)
    }

    /// Well-formedness: while playing both slots are filled, the two slots
    /// never hold the same connection, and each stored handshake records the
    /// color of its slot, cleared fields, and a name the wire format can
    /// carry.
    pub open spec fn wf(self) -> bool {
        &&& self.state is Playing ==> self.white is Some && self.black is Some
        &&& self.white is Some && self.black is Some ==> self.white.unwrap().conn
            != self.black.unwrap().conn
        &&& self.white matches Some(p) ==> p.opts == cleared(p.opts, true) && wf_start(p.opts@)
        &&& self.black matches Some(p) ==> p.opts == cleared(p.opts, false) && wf_start(p.opts@)
    }

    /// A fresh session: matchmaking phase, both slots free, white to move.
    pub fn new() -> (s: Session)
        ensures
            s.wf(),
            s.state is GameInitiation,
            s.white is None,
            s.black is None,
            s.turn == Color::White,
    {
        Session {
            state: ServerState::GameInitiation,
            white: None,
            black: None,
            turn: Color::White,
        }
    }

    /// The connection identifier already holds a color slot; such a
    /// connection's handshake is settled and it is not polled for another.
    pub fn conn_assigned(&self, conn: u64) -> (r: bool)
        ensures
            r == self.spec_occupies(conn),
    {
        let in_white = match &self.white {
            Some(p) => p.conn == conn,
            None => false,
        };
        let in_black = match &self.black {
            Some(p) => p.conn == conn,
            None => false,
        };
        in_white || in_black
    }

    /// Processes one handshake read from a pending connection, exactly as
    /// `spec_assign` describes.
    pub fn handle_start(&mut self, conn: u64, start: Start) -> (r: StartResponse)
        requires
            old(self).wf(),
            old(self).state is GameInitiation,
            !old(self).spec_occupies(conn),
            wf_start(start@),
        ensures
            final(self).wf(),
            (*final(self), r) == spec_assign(*old(self), conn, start),
    {
        let white_free = self.white.is_none();
        let black_free = self.black.is_none();
        if white_free && (start.is_white || !black_free) {
            self.white = Some(
                PlayerSlot {
                    conn,
                    opts: Start {
                        is_white: true,
                        name: start.name,
                        fen: None,
                        time: None,
                        inc: None,
                    },
                },
            );
            StartResponse::AssignedWhite
        } else if black_free {
            self.black = Some(
                PlayerSlot {
                    conn,
                    opts: Start {
                        is_white: false,
                        name: start.name,
                        fen: None,
                        time: None,
                        inc: None,
                    },
                },
            );
            StartResponse::AssignedBlack
        } else {
            StartResponse::Rejected
        }
    }

    /// Both color slots are filled, so the game can begin.
    pub fn ready(&self) -> (r: bool)
        ensures
            r == (self.white is Some && self.black is Some),
    {
        self.white.is_some() && self.black.is_some()
    }

    /// Leaves matchmaking for play. The caller drops its pending
    /// connections and sends each side its echoed handshake.
    pub fn begin_play(&mut self)
        requires
            old(self).wf(),
            old(self).state is GameInitiation,
            old(self).white is Some,
            old(self).black is Some,
        ensures
            final(self).wf(),
            *final(self) == (Session { state: ServerState::Playing, ..*old(self) }),
    {
        self.state = ServerState::Playing;
    }

    /// The handshake echoed to the white side: the stored white handshake,
    /// confirming that color.
    pub fn echo_white(&self) -> (r: &Start)
        requires
            self.white is Some,
        ensures
            *r == self.white.unwrap().opts,
            self.wf() ==> r.is_white == true && wf_start(r@),
    {
        match &self.white {
            Some(p) => &p.opts,
            None => unreached(),
        }
    }

    /// The handshake echoed to the black side: the stored black handshake,
    /// confirming that color.
    pub fn echo_black(&self) -> (r: &Start)
        requires
            self.black is Some,
        ensures
            *r == self.black.unwrap().opts,
            self.wf() ==> r.is_white == false && wf_start(r@),
    {
        match &self.black {
            Some(p) => &p.opts,
            None => unreached(),
        }
    }

    /// The connection whose move the server reads this tick: the one whose
    /// color matches the turn.
    pub fn current_conn(&self) -> (c: u64)
        requires
            self.wf(),
            self.state is Playing,
        ensures
            self.turn is White ==> c == self.white.unwrap().conn,
            self.turn is Black ==> c == self.black.unwrap().conn,
    {
        match self.turn {
            Color::White => match &self.white {
                Some(p) => p.conn,
                None => unreached(),
            },
            Color::Black => match &self.black {
                Some(p) => p.conn,
                None => unreached(),
            },
        }
    }

    /// Processes one move read from the side to move, with the engine's
    /// verdict on it, exactly as `spec_play` describes.
    pub fn play_move(&mut self, m: Move, verdict: MoveOutcome) -> (acts: Vec<ServerAction>)
        requires
            old(self).wf(),
            old(self).state is Playing,
        ensures
            final(self).wf(),
            (*final(self), acts@) == spec_play(*old(self), m, verdict),
    {
        let mut acts: Vec<ServerAction> = Vec::new();
        match verdict {
            MoveOutcome::Accepted { state: _, turn_after } => {
                acts.push(
                    ServerAction::SendAck {
                        to: self.turn,
                        ack: Ack { ok: true, end_state: None },
                    },
                );
                acts.push(ServerAction::SendMove { to: self.turn.opposite(), mv: m });
                acts.push(ServerAction::AwaitAck { from: self.turn.opposite() });
                self.turn = turn_after;
                assert(acts@ =~= spec_play(*old(self), m, verdict).1);
            },
            MoveOutcome::Rejected => {
                acts.push(
                    ServerAction::SendAck {
                        to: self.turn,
                        ack: Ack { ok: false, end_state: None },
                    },
                );
                assert(acts@ =~= spec_play(*old(self), m, verdict).1);
            },
        }
        acts
    }
}

// ---------------------------------------------------------------------------
// Laws of the matchmaking and relay steps.
// ---------------------------------------------------------------------------

/// An occupied color slot is never reassigned, a handshake is rejected
/// exactly when both slots are taken, and an assignment fills a slot that
/// was free.
pub proof fn lemma_assign_respects_slots(s: Session, conn: u64, start: Start)
    ensures
        ({
            let (s2, r) = spec_assign(s, conn, start);
            &&& (r is Rejected <==> s.white is Some && s.black is Some)
            &&& (r is AssignedWhite ==> s.white is None && s2.white is Some && s2.black == s.black)
            &&& (r is AssignedBlack ==> s.black is None && s2.black is Some && s2.white == s.white)
            &&& (s.white is Some ==> s2.white == s.white)
            &&& (s.black is Some ==> s2.black == s.black)
            &&& s2.state == s.state && s2.turn == s.turn
        }),
{
}

/// Two handshakes that request the same color, reaching a session with both
/// slots free, get opposite colors: the first the color it asked for, the
/// second the other one, and neither is rejected.
pub proof fn lemma_same_color_requests(s0: Session, c1: u64, st1: Start, c2: u64, st2: Start)
    requires
        s0.white is None,
        s0.black is None,
        st1.is_white == st2.is_white,
    ensures
        ({
            let (s1, r1) = spec_assign(s0, c1, st1);
            let (s2, r2) = spec_assign(s1, c2, st2);
            &&& st1.is_white ==> r1 is AssignedWhite && r2 is AssignedBlack
            &&& !st1.is_white ==> r1 is AssignedBlack && r2 is AssignedWhite
            &&& s2.white is Some && s2.black is Some
        }),
{
}

/// An accepted move produces exactly the ordered sequence: positive
/// acknowledgement to the mover, then the identical move forwarded to the
/// opponent, then a blocking wait for the opponent's acknowledgement; the
/// turn becomes what the engine reported, and when the engine passes the
/// turn to the opponent, the turn flips.
pub proof fn lemma_accepted_move_protocol(s: Session, m: Move, gs: GameState, t: Color)
    ensures
        ({
            let (s2, acts) = spec_play(s, m, MoveOutcome::Accepted { state: gs, turn_after: t });
            &&& acts.len() == 3
            &&& acts[0] == ServerAction::SendAck {
                to: s.turn,
                ack: Ack { ok: true, end_state: None },
            }
            &&& acts[1] == ServerAction::SendMove { to: s.turn.spec_opposite(), mv: m }
            &&& acts[2] == ServerAction::AwaitAck { from: s.turn.spec_opposite() }
            &&& s2.turn == t
            &&& t == s.turn.spec_opposite() ==> s2.turn == s.turn.spec_opposite()
            &&& s2.white == s.white && s2.black == s.black && s2.state == s.state
        }),
{
}

/// A rejected move produces only a negative acknowledgement to the mover
/// and leaves the session unchanged; a later resubmission that the engine
/// accepts then runs the full accepted-move protocol from the same state.
pub proof fn lemma_rejected_then_retry(s: Session, m1: Move, m2: Move, gs: GameState, t: Color)
    ensures
        ({
            let (s1, a1) = spec_play(s, m1, MoveOutcome::Rejected);
            let (s2, a2) = spec_play(s1, m2, MoveOutcome::Accepted { state: gs, turn_after: t });
            &&& s1 == s
            &&& a1 =~= seq![
                ServerAction::SendAck { to: s.turn, ack: Ack { ok: false, end_state: None } },
            ]
            &&& a2 =~= seq![
                ServerAction::SendAck { to: s.turn, ack: Ack { ok: true, end_state: None } },
                ServerAction::SendMove { to: s.turn.spec_opposite(), mv: m2 },
                ServerAction::AwaitAck { from: s.turn.spec_opposite() },
            ]
            &&& s2.turn == t
        }),
{
}

} // verus!
