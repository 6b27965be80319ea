use netchess::engine::MoveOutcome;
use netchess::messages::{Ack, Color, GameState, Move, Start};
use netchess::server::{ServerAction, ServerState, Session, StartResponse};

fn start_requesting(white: bool, name: &[u8]) -> Start {
    Start {
        is_white: white,
        name: Some(name.to_vec()),
        fen: Some(b"some position".to_vec()),
        time: Some(300),
        inc: Some(2),
    }
}

fn pawn_e2_e4() -> Move {
    Move {
        from: (4, 1),
        to: (4, 3),
        promotion: None,
        offer_draw: false,
        forfeit: false,
    }
}

#[test]
fn both_request_white_first_gets_it() {
    // Scenario: two clients connect and both request white; the first is
    // assigned white, the second black, and both echoes confirm it.
    let mut session = Session::new();
    assert!(matches!(session.state, ServerState::GameInitiation));

    let r1 = session.handle_start(1, start_requesting(true, b"first"));
    assert_eq!(r1, StartResponse::AssignedWhite);
    let r2 = session.handle_start(2, start_requesting(true, b"second"));
    assert_eq!(r2, StartResponse::AssignedBlack);

    assert!(session.ready());
    session.begin_play();
    assert!(matches!(session.state, ServerState::Playing));

    let echo_white = session.echo_white();
    assert!(echo_white.is_white);
    assert_eq!(echo_white.name, Some(b"first".to_vec()));
    assert_eq!(echo_white.fen, None);
    assert_eq!(echo_white.time, None);
    assert_eq!(echo_white.inc, None);

    let echo_black = session.echo_black();
    assert!(!echo_black.is_white);
    assert_eq!(echo_black.name, Some(b"second".to_vec()));
    assert_eq!(echo_black.fen, None);
}

#[test]
fn both_request_black_first_gets_it() {
    let mut session = Session::new();
    assert_eq!(
        session.handle_start(1, start_requesting(false, b"first")),
        StartResponse::AssignedBlack
    );
    assert_eq!(
        session.handle_start(2, start_requesting(false, b"second")),
        StartResponse::AssignedWhite
    );
    assert!(session.ready());
}

#[test]
fn opposite_requests_both_satisfied() {
    let mut session = Session::new();
    assert_eq!(
        session.handle_start(1, start_requesting(false, b"likes black")),
        StartResponse::AssignedBlack
    );
    assert_eq!(
        session.handle_start(2, start_requesting(true, b"likes white")),
        StartResponse::AssignedWhite
    );
    assert!(session.ready());
}

#[test]
fn third_handshake_is_rejected() {
    let mut session = Session::new();
    session.handle_start(1, start_requesting(true, b"a"));
    session.handle_start(2, start_requesting(true, b"b"));
    let r3 = session.handle_start(3, start_requesting(true, b"c"));
    assert_eq!(r3, StartResponse::Rejected);
    // The slots kept their original holders.
    assert_eq!(session.white.as_ref().unwrap().conn, 1);
    assert_eq!(session.black.as_ref().unwrap().conn, 2);
}

#[test]
fn current_conn_follows_turn() {
    let mut session = Session::new();
    session.handle_start(7, start_requesting(true, b"w"));
    session.handle_start(9, start_requesting(false, b"b"));
    session.begin_play();
    assert_eq!(session.turn, Color::White);
    assert_eq!(session.current_conn(), 7);
}

#[test]
fn accepted_move_protocol_order() {
    // Scenario: white sends e2-e4, the engine accepts; the server sends
    // Ack{ok:true} to the mover, flips the turn, forwards the identical
    // move to the opponent, and then blocks for the opponent's Ack.
    let mut session = Session::new();
    session.handle_start(1, start_requesting(true, b"w"));
    session.handle_start(2, start_requesting(false, b"b"));
    session.begin_play();

    let mv = pawn_e2_e4();
    let acts = session.play_move(
        mv,
        MoveOutcome::Accepted { state: GameState::Ongoing, turn_after: Color::Black },
    );
    assert_eq!(
        acts,
        vec![
            ServerAction::SendAck { to: Color::White, ack: Ack { ok: true, end_state: None } },
            ServerAction::SendMove { to: Color::Black, mv },
            ServerAction::AwaitAck { from: Color::Black },
        ]
    );
    assert_eq!(session.turn, Color::Black);
    assert_eq!(session.current_conn(), 2);
}

#[test]
fn rejected_move_gets_only_negative_ack() {
    // Scenario: white submits an illegal move; white receives Ack{ok:false},
    // black receives nothing, and it stays white's turn.
    let mut session = Session::new();
    session.handle_start(1, start_requesting(true, b"w"));
    session.handle_start(2, start_requesting(false, b"b"));
    session.begin_play();

    let acts = session.play_move(pawn_e2_e4(), MoveOutcome::Rejected);
    assert_eq!(
        acts,
        vec![ServerAction::SendAck {
            to: Color::White,
            ack: Ack { ok: false, end_state: None }
        }]
    );
    assert_eq!(session.turn, Color::White);
    assert!(matches!(session.state, ServerState::Playing));
}

#[test]
fn rejected_then_retry_succeeds() {
    let mut session = Session::new();
    session.handle_start(1, start_requesting(true, b"w"));
    session.handle_start(2, start_requesting(false, b"b"));
    session.begin_play();

    let acts = session.play_move(pawn_e2_e4(), MoveOutcome::Rejected);
    assert_eq!(acts.len(), 1);
    assert_eq!(session.turn, Color::White);

    let mv = pawn_e2_e4();
    let acts = session.play_move(
        mv,
        MoveOutcome::Accepted { state: GameState::Ongoing, turn_after: Color::Black },
    );
    assert_eq!(acts.len(), 3);
    assert_eq!(
        acts[1],
        ServerAction::SendMove { to: Color::Black, mv }
    );
    assert_eq!(session.turn, Color::Black);
}

#[test]
fn conn_assigned_tracks_slots() {
    let mut session = Session::new();
    assert!(!session.conn_assigned(1));
    session.handle_start(1, start_requesting(true, b"w"));
    assert!(session.conn_assigned(1));
    assert!(!session.conn_assigned(2));
}
