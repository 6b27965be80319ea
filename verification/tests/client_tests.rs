use netchess::client::{initial_start, ClientConn, ConnPhase};
use netchess::codec::encode_start;
use netchess::messages::Start;
use netchess::player::{Player, PlayerTypes};

fn echo(is_white: bool) -> Vec<u8> {
    let mut buf = vec![0u8; 1024];
    let bytes = encode_start(&Start {
        is_white,
        name: Some(b"first".to_vec()),
        fen: None,
        time: None,
        inc: None,
    });
    buf[..bytes.len()].copy_from_slice(&bytes);
    buf
}

#[test]
fn initial_start_requests_white_and_nothing_else() {
    let s = initial_start(b"Zimon".to_vec());
    assert!(s.is_white);
    assert_eq!(s.name, Some(b"Zimon".to_vec()));
    assert_eq!(s.fen, None);
    assert_eq!(s.time, None);
    assert_eq!(s.inc, None);
}

#[test]
fn lifecycle_reaches_game_on_echo() {
    let mut conn = ClientConn::new();
    assert_eq!(conn.phase, ConnPhase::EnteringAddress);
    conn.connected();
    assert_eq!(conn.phase, ConnPhase::AwaitingStart);

    // No bytes yet: the client keeps waiting.
    assert!(conn.on_start_echo(None).is_none());
    assert_eq!(conn.phase, ConnPhase::AwaitingStart);

    // A buffer that decodes to no handshake: still waiting.
    assert!(conn.on_start_echo(Some(&[0u8; 1024])).is_none());
    assert_eq!(conn.phase, ConnPhase::AwaitingStart);

    // The echo arrives, assigning white: sending role on the white seat.
    let roles = conn.on_start_echo(Some(&echo(true))).expect("the echo decodes");
    assert_eq!(conn.phase, ConnPhase::InGame);
    assert_eq!(conn.assigned_white, Some(true));
    assert!(matches!(roles.0, PlayerTypes::RemoteSend(_)));
    assert!(matches!(roles.1, PlayerTypes::RemoteRecv(_)));
}

#[test]
fn echo_assigning_black_seats_send_role_second() {
    let mut conn = ClientConn::new();
    conn.connected();
    let roles = conn.on_start_echo(Some(&echo(false))).expect("the echo decodes");
    assert_eq!(conn.assigned_white, Some(false));
    assert!(matches!(roles.0, PlayerTypes::RemoteRecv(_)));
    assert!(matches!(roles.1, PlayerTypes::RemoteSend(_)));
    // Both roles start fresh.
    assert_eq!(roles.0.get_selected_slot(), None);
    assert_eq!(roles.1.get_selected_slot(), None);
}

#[test]
fn cancel_returns_to_address_entry() {
    let mut conn = ClientConn::new();
    conn.connected();
    conn.cancel();
    assert_eq!(conn.phase, ConnPhase::EnteringAddress);
    assert_eq!(conn.assigned_white, None);
}
