use netchess::codec::{decode_ack, decode_move, decode_start, encode_ack, encode_move, encode_start};
use netchess::messages::{Ack, GameState, Move, PieceKind, Start};

fn sample_start() -> Start {
    Start {
        is_white: true,
        name: Some(b"Zimon".to_vec()),
        fen: None,
        time: None,
        inc: None,
    }
}

fn sample_move() -> Move {
    Move {
        from: (4, 1),
        to: (4, 3),
        promotion: None,
        offer_draw: false,
        forfeit: false,
    }
}

#[test]
fn start_exact_encoding() {
    let bytes = encode_start(&sample_start());
    assert_eq!(
        bytes,
        vec![1, 1, 1, 5, 0, b'Z', b'i', b'm', b'o', b'n', 0, 0, 0]
    );
}

#[test]
fn move_exact_encoding() {
    let bytes = encode_move(&sample_move());
    assert_eq!(bytes, vec![2, 4, 1, 4, 3, 0, 0, 0]);
}

#[test]
fn ack_exact_encoding() {
    let bytes = encode_ack(&Ack { ok: true, end_state: None });
    assert_eq!(bytes, vec![3, 1, 0]);
    let bytes = encode_ack(&Ack { ok: false, end_state: Some(GameState::CheckMate) });
    assert_eq!(bytes, vec![3, 0, 1, 3]);
}

#[test]
fn start_round_trip() {
    let s = sample_start();
    let bytes = encode_start(&s);
    assert_eq!(decode_start(&bytes), Some(s));
}

#[test]
fn start_round_trip_all_fields() {
    let s = Start {
        is_white: false,
        name: Some(b"a longer player name".to_vec()),
        fen: Some(b"rnbqkbnr/pppppppp/8/8/8/8/PPPPPPPP/RNBQKBNR w KQkq - 0 1".to_vec()),
        time: Some(300),
        inc: Some(5),
    };
    let bytes = encode_start(&s);
    assert_eq!(decode_start(&bytes), Some(s));
}

#[test]
fn start_round_trip_empty_fields() {
    let s = Start { is_white: false, name: None, fen: None, time: None, inc: None };
    let bytes = encode_start(&s);
    assert_eq!(bytes, vec![1, 0, 0, 0, 0, 0]);
    assert_eq!(decode_start(&bytes), Some(s));
}

#[test]
fn start_round_trip_largest_name() {
    let s = Start {
        is_white: true,
        name: Some(vec![b'x'; 0xFFFF]),
        fen: None,
        time: Some(u32::MAX),
        inc: Some(0),
    };
    let bytes = encode_start(&s);
    assert_eq!(bytes.len(), 1 + 1 + (3 + 0xFFFF) + 1 + 5 + 5);
    assert_eq!(decode_start(&bytes), Some(s));
}

#[test]
fn start_round_trip_empty_name() {
    let s = Start {
        is_white: true,
        name: Some(Vec::new()),
        fen: Some(Vec::new()),
        time: None,
        inc: None,
    };
    let bytes = encode_start(&s);
    assert_eq!(bytes, vec![1, 1, 1, 0, 0, 1, 0, 0, 0, 0]);
    assert_eq!(decode_start(&bytes), Some(s));
}

#[test]
fn move_round_trip() {
    let m = sample_move();
    let bytes = encode_move(&m);
    assert_eq!(decode_move(&bytes), Some(m));
}

#[test]
fn move_round_trip_with_promotion() {
    let m = Move {
        from: (0, 6),
        to: (0, 7),
        promotion: Some(PieceKind::Queen),
        offer_draw: true,
        forfeit: false,
    };
    let bytes = encode_move(&m);
    assert_eq!(bytes, vec![2, 0, 6, 0, 7, 1, 5, 1, 0]);
    assert_eq!(decode_move(&bytes), Some(m));
}

#[test]
fn move_round_trip_every_promotion_piece() {
    for piece in [
        PieceKind::Pawn,
        PieceKind::Bishop,
        PieceKind::Knight,
        PieceKind::Rook,
        PieceKind::Queen,
        PieceKind::King,
    ] {
        let m = Move {
            from: (7, 6),
            to: (7, 7),
            promotion: Some(piece),
            offer_draw: false,
            forfeit: true,
        };
        assert_eq!(decode_move(&encode_move(&m)), Some(m));
    }
}

#[test]
fn ack_round_trip() {
    for ok in [false, true] {
        for end_state in [
            None,
            Some(GameState::Ongoing),
            Some(GameState::Promotion),
            Some(GameState::CheckMate),
            Some(GameState::Draw),
        ] {
            let a = Ack { ok, end_state };
            assert_eq!(decode_ack(&encode_ack(&a)), Some(a));
        }
    }
}

#[test]
fn zero_buffer_decodes_to_nothing() {
    let zeros = [0u8; 1024];
    assert_eq!(decode_start(&zeros), None);
    assert_eq!(decode_move(&zeros), None);
    assert_eq!(decode_ack(&zeros), None);
}

#[test]
fn empty_buffer_decodes_to_nothing() {
    let empty: [u8; 0] = [];
    assert_eq!(decode_start(&empty), None);
    assert_eq!(decode_move(&empty), None);
    assert_eq!(decode_ack(&empty), None);
}

#[test]
fn zero_padding_after_frame_is_tolerated() {
    let mut buf = [0u8; 1024];
    let m = sample_move();
    let bytes = encode_move(&m);
    buf[..bytes.len()].copy_from_slice(&bytes);
    assert_eq!(decode_move(&buf), Some(m));

    let mut buf = [0u8; 1024];
    let s = sample_start();
    let bytes = encode_start(&s);
    buf[..bytes.len()].copy_from_slice(&bytes);
    assert_eq!(decode_start(&buf), Some(s));

    let mut buf = [0u8; 1024];
    let a = Ack { ok: true, end_state: None };
    let bytes = encode_ack(&a);
    buf[..bytes.len()].copy_from_slice(&bytes);
    assert_eq!(decode_ack(&buf), Some(a));
}

#[test]
fn truncated_frames_fail() {
    let start_bytes = encode_start(&sample_start());
    for k in 0..start_bytes.len() {
        assert_eq!(decode_start(&start_bytes[..k]), None);
    }
    let move_bytes = encode_move(&sample_move());
    for k in 0..move_bytes.len() {
        assert_eq!(decode_move(&move_bytes[..k]), None);
    }
    let ack_bytes = encode_ack(&Ack { ok: false, end_state: Some(GameState::Draw) });
    for k in 0..ack_bytes.len() {
        assert_eq!(decode_ack(&ack_bytes[..k]), None);
    }
}

#[test]
fn wrong_tag_fails() {
    assert_eq!(decode_start(&encode_move(&sample_move())), None);
    assert_eq!(decode_move(&encode_start(&sample_start())), None);
    assert_eq!(decode_ack(&encode_move(&sample_move())), None);
}

#[test]
fn malformed_bool_fails() {
    // Second byte of a Start must be 0 or 1.
    assert_eq!(decode_start(&[1, 2, 0, 0, 0, 0]), None);
    // offer_draw byte of a Move must be 0 or 1.
    assert_eq!(decode_move(&[2, 4, 1, 4, 3, 0, 9, 0]), None);
}

#[test]
fn out_of_range_square_fails() {
    assert_eq!(decode_move(&[2, 8, 1, 4, 3, 0, 0, 0]), None);
    assert_eq!(decode_move(&[2, 4, 1, 255, 3, 0, 0, 0]), None);
}

#[test]
fn bad_piece_and_state_codes_fail() {
    // Promotion piece code 7 names no piece.
    assert_eq!(decode_move(&[2, 4, 1, 4, 3, 1, 7, 0, 0]), None);
    // Promotion piece code 0 names no piece.
    assert_eq!(decode_move(&[2, 4, 1, 4, 3, 1, 0, 0, 0]), None);
    // End-state code 5 names no state.
    assert_eq!(decode_ack(&[3, 1, 1, 5]), None);
}
