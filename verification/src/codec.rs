use vstd::prelude::*;
use vstd::bytes::*;
use vstd::slice::*;
use crate::messages::{Ack, GameState, Move, PieceKind, Start, StartV, view_opt_bytes, wf_move, wf_start};

verus! {

// Wire format, fixed schema, little-endian multi-byte fields.
//
//   Start = 0x01  bool  opt_bytes(name)  opt_bytes(fen)  opt_u32(time)  opt_u32(inc)
//   Move  = 0x02  sq(from.0) sq(from.1) sq(to.0) sq(to.1)  opt_piece  bool  bool
//   Ack   = 0x03  bool  opt_state
//
//   bool      = 0x00 | 0x01                      (any other byte is malformed)
//   opt_X     = 0x00 | 0x01 X
//   bytes     = u16 length, then that many bytes
//   sq        = one byte below 8                 (a board coordinate)
//   piece     = 0x01 ..= 0x06                    (pawn ..= king)
//   state     = 0x01 ..= 0x04                    (ongoing, promotion, checkmate, draw)
//
// Every message starts with a nonzero tag, so a buffer that is all zero bytes
// never decodes. A decoder reads one message from the front of a buffer and
// ignores whatever follows, which makes zero-fill padding harmless.

pub const START_TAG: u8 = 1;
pub const MOVE_TAG: u8 = 2;
pub const ACK_TAG: u8 = 3;

// ---------------------------------------------------------------------------
// Encoding, at the specification level.
// ---------------------------------------------------------------------------

pub open spec fn enc_bool(b: bool) -> Seq<u8> {
    if b {
        seq![1u8]
    } else {
        seq![0u8]
    }
}

pub open spec fn enc_opt_u32(o: Option<u32>) -> Seq<u8> {
    match o {
        None => seq![0u8],
        Some(n) => seq![1u8] + spec_u32_to_le_bytes(n),
    }
}

pub open spec fn enc_bytes(b: Seq<u8>) -> Seq<u8>
    recommends
        b.len() <= 0xFFFF,
{
    spec_u16_to_le_bytes(b.len() as u16) + b
}

pub open spec fn enc_opt_bytes(o: Option<Seq<u8>>) -> Seq<u8> {
    match o {
        None => seq![0u8],
        Some(b) => seq![1u8] + enc_bytes(b),
    }
}

pub open spec fn piece_code(p: PieceKind) -> u8 {
    match p {
        PieceKind::Pawn => 1,
        PieceKind::Bishop => 2,
        PieceKind::Knight => 3,
        PieceKind::Rook => 4,
        PieceKind::Queen => 5,
        PieceKind::King => 6,
    }
}

pub open spec fn enc_opt_piece(o: Option<PieceKind>) -> Seq<u8> {
    match o {
        None => seq![0u8],
        Some(p) => seq![1u8, piece_code(p)],
    }
}

pub open spec fn state_code(s: GameState) -> u8 {
    match s {
        GameState::Ongoing => 1,
        GameState::Promotion => 2,
        GameState::CheckMate => 3,
        GameState::Draw => 4,
    }
}

pub open spec fn enc_opt_state(o: Option<GameState>) -> Seq<u8> {
    match o {
        None => seq![0u8],
        Some(s) => seq![1u8, state_code(s)],
    }
}

pub open spec fn spec_enc_start(s: StartV) -> Seq<u8> {
    seq![START_TAG] + enc_bool(s.is_white) + enc_opt_bytes(s.name) + enc_opt_bytes(s.fen)
        + enc_opt_u32(s.time) + enc_opt_u32(s.inc)
}

pub open spec fn spec_enc_move(m: Move) -> Seq<u8> {
    seq![MOVE_TAG, m.from.0, m.from.1, m.to.0, m.to.1] + enc_opt_piece(m.promotion)
        + enc_bool(m.offer_draw) + enc_bool(m.forfeit)
}

pub open spec fn spec_enc_ack(a: Ack) -> Seq<u8> {
    seq![ACK_TAG] + enc_bool(a.ok) + enc_opt_state(a.end_state)
}

// ---------------------------------------------------------------------------
// Encoders.
// ---------------------------------------------------------------------------

fn push_bool(out: &mut Vec<u8>, b: bool)
    ensures
        final(out)@ == old(out)@ + enc_bool(b),
{
    out.push(if b { 1 } else { 0 });
    assert(out@ =~= old(out)@ + enc_bool(b));
}

fn push_opt_u32(out: &mut Vec<u8>, o: Option<u32>)
    ensures
        final(out)@ == old(out)@ + enc_opt_u32(o),
{
    match o {
        None => {
            out.push(0);
        },
        Some(n) => {
            out.push(1);
            let mut word = u32_to_le_bytes(n);
            out.append(&mut word);
        },
    }
    assert(out@ =~= old(out)@ + enc_opt_u32(o));
}

fn push_opt_bytes(out: &mut Vec<u8>, o: &Option<Vec<u8>>)
    requires
        match *o {
            Some(b) => b@.len() <= 0xFFFF,
            None => true,
        },
    ensures
        final(out)@ == old(out)@ + enc_opt_bytes(view_opt_bytes(*o)),
{
    match o {
        None => {
            out.push(0);
        },
        Some(b) => {
            out.push(1);
            let mut len = u16_to_le_bytes(b.len() as u16);
            out.append(&mut len);
            out.extend_from_slice(b.as_slice());
        },
    }
    assert(out@ =~= old(out)@ + enc_opt_bytes(view_opt_bytes(*o)));
}

/// Encodes a handshake message.
pub fn encode_start(s: &Start) -> (r: Vec<u8>)
    requires
        wf_start(s@),
    ensures
        r@ == spec_enc_start(s@),
{
    let mut out: Vec<u8> = Vec::new();
    out.push(START_TAG);
    push_bool(&mut out, s.is_white);
    push_opt_bytes(&mut out, &s.name);
    push_opt_bytes(&mut out, &s.fen);
    push_opt_u32(&mut out, s.time);
    push_opt_u32(&mut out, s.inc);
    assert(out@ =~= spec_enc_start(s@));
    out
}

/// Encodes a move message.
pub fn encode_move(m: &Move) -> (r: Vec<u8>)
    requires
        wf_move(*m),
    ensures
        r@ == spec_enc_move(*m),
{
    let mut out: Vec<u8> = Vec::new();
    out.push(MOVE_TAG);
    out.push(m.from.0);
    out.push(m.from.1);
    out.push(m.to.0);
    out.push(m.to.1);
    match m.promotion {
        None => {
            out.push(0);
        },
        Some(p) => {
            out.push(1);
            out.push(encode_piece(p));
        },
    }
    push_bool(&mut out, m.offer_draw);
    push_bool(&mut out, m.forfeit);
    assert(out@ =~= spec_enc_move(*m));
    out
}

fn encode_piece(p: PieceKind) -> (r: u8)
    ensures
        r == piece_code(p),
{
    match p {
        PieceKind::Pawn => 1,
        PieceKind::Bishop => 2,
        PieceKind::Knight => 3,
        PieceKind::Rook => 4,
        PieceKind::Queen => 5,
        PieceKind::King => 6,
    }
}

fn encode_state(s: GameState) -> (r: u8)
    ensures
        r == state_code(s),
{
    match s {
        GameState::Ongoing => 1,
        GameState::Promotion => 2,
        GameState::CheckMate => 3,
        GameState::Draw => 4,
    }
}

/// Encodes an acknowledgement message.
pub fn encode_ack(a: &Ack) -> (r: Vec<u8>)
    ensures
        r@ == spec_enc_ack(*a),
{
    let mut out: Vec<u8> = Vec::new();
    out.push(ACK_TAG);
    push_bool(&mut out, a.ok);
    match a.end_state {
        None => {
            out.push(0);
        },
        Some(s) => {
            out.push(1);
            out.push(encode_state(s));
        },
    }
    assert(out@ =~= spec_enc_ack(*a));
    out
}

// ---------------------------------------------------------------------------
// Decoding, at the specification level. Each piece reads at a cursor and
// yields the value with the cursor after it, or nothing on a malformed or
// truncated buffer.
// ---------------------------------------------------------------------------

pub open spec fn dec_byte(b: Seq<u8>, i: int) -> Option<(u8, int)> {
    if 0 <= i < b.len() {
        Some((b[i], i + 1))
    } else {
        None
    }
}

pub open spec fn dec_bool(b: Seq<u8>, i: int) -> Option<(bool, int)> {
    match dec_byte(b, i) {
        Some((v, j)) => if v == 0 {
            Some((false, j))
        } else if v == 1 {
            Some((true, j))
        } else {
            None
        },
        None => None,
    }
}

pub open spec fn dec_u32(b: Seq<u8>, i: int) -> Option<(u32, int)> {
    if 0 <= i && i + 4 <= b.len() {
        Some((spec_u32_from_le_bytes(b.subrange(i, i + 4)), i + 4))
    } else {
        None
    }
}

pub open spec fn dec_opt_u32(b: Seq<u8>, i: int) -> Option<(Option<u32>, int)> {
    match dec_byte(b, i) {
        Some((t, j)) => if t == 0 {
            Some((None, j))
        } else if t == 1 {
            match dec_u32(b, j) {
                Some((n, k)) => Some((Some(n), k)),
                None => None,
            }
        } else {
            None
        },
        None => None,
    }
}

pub open spec fn dec_bytes(b: Seq<u8>, i: int) -> Option<(Seq<u8>, int)> {
    if 0 <= i && i + 2 <= b.len() {
        let n = spec_u16_from_le_bytes(b.subrange(i, i + 2)) as int;
        if i + 2 + n <= b.len() {
            Some((b.subrange(i + 2, i + 2 + n), i + 2 + n))
        } else {
            None
        }
    } else {
        None
    }
}

pub open spec fn dec_opt_bytes(b: Seq<u8>, i: int) -> Option<(Option<Seq<u8>>, int)> {
    match dec_byte(b, i) {
        Some((t, j)) => if t == 0 {
            Some((None, j))
        } else if t == 1 {
            match dec_bytes(b, j) {
                Some((v, k)) => Some((Some(v), k)),
                None => None,
            }
        } else {
            None
        },
        None => None,
    }
}

pub open spec fn dec_square(b: Seq<u8>, i: int) -> Option<(u8, int)> {
    match dec_byte(b, i) {
        Some((v, j)) => if v < 8 {
            Some((v, j))
        } else {
            None
        },
        None => None,
    }
}

pub open spec fn code_piece(v: u8) -> Option<PieceKind> {
    if v == 1 {
        Some(PieceKind::Pawn)
    } else if v == 2 {
        Some(PieceKind::Bishop)
    } else if v == 3 {
        Some(PieceKind::Knight)
    } else if v == 4 {
        Some(PieceKind::Rook)
    } else if v == 5 {
        Some(PieceKind::Queen)
    } else if v == 6 {
        Some(PieceKind::King)
    } else {
        None
    }
}

pub open spec fn dec_opt_piece(b: Seq<u8>, i: int) -> Option<(Option<PieceKind>, int)> {
    match dec_byte(b, i) {
        Some((t, j)) => if t == 0 {
            Some((None, j))
        } else if t == 1 {
            match dec_byte(b, j) {
                Some((v, k)) => match code_piece(v) {
                    Some(p) => Some((Some(p), k)),
                    None => None,
                },
                None => None,
            }
        } else {
            None
        },
        None => None,
    }
}

pub open spec fn code_state(v: u8) -> Option<GameState> {
    if v == 1 {
        Some(GameState::Ongoing)
    } else if v == 2 {
        Some(GameState::Promotion)
    } else if v == 3 {
        Some(GameState::CheckMate)
    } else if v == 4 {
        Some(GameState::Draw)
    } else {
        None
    }
}

pub open spec fn dec_opt_state(b: Seq<u8>, i: int) -> Option<(Option<GameState>, int)> {
    match dec_byte(b, i) {
        Some((t, j)) => if t == 0 {
            Some((None, j))
        } else if t == 1 {
            match dec_byte(b, j) {
                Some((v, k)) => match code_state(v) {
                    Some(s) => Some((Some(s), k)),
                    None => None,
                },
                None => None,
            }
        } else {
            None
        },
        None => None,
    }
}

pub open spec fn spec_dec_start(b: Seq<u8>) -> Option<StartV> {
    match dec_byte(b, 0) {
        Some((tag, i1)) => if tag == START_TAG {
            match dec_bool(b, i1) {
                Some((is_white, i2)) => match dec_opt_bytes(b, i2) {
                    Some((name, i3)) => match dec_opt_bytes(b, i3) {
                        Some((fen, i4)) => match dec_opt_u32(b, i4) {
                            Some((time, i5)) => match dec_opt_u32(b, i5) {
                                Some((inc, _i6)) => Some(
                                    StartV { is_white, name, fen, time, inc },
                                ),
                                None => None,
                            },
                            None => None,
                        },
                        None => None,
                    },
                    None => None,
                },
                None => None,
            }
        } else {
            None
        },
        None => None,
    }
}

pub open spec fn spec_dec_move(b: Seq<u8>) -> Option<Move> {
    match dec_byte(b, 0) {
        Some((tag, i1)) => if tag == MOVE_TAG {
            match dec_square(b, i1) {
                Some((ff, i2)) => match dec_square(b, i2) {
                    Some((fr, i3)) => match dec_square(b, i3) {
                        Some((tf, i4)) => match dec_square(b, i4) {
                            Some((tr, i5)) => match dec_opt_piece(b, i5) {
                                Some((promotion, i6)) => match dec_bool(b, i6) {
                                    Some((offer_draw, i7)) => match dec_bool(b, i7) {
                                        Some((forfeit, _i8)) => Some(
                                            Move {
                                                from: (ff, fr),
                                                to: (tf, tr),
                                                promotion,
                                                offer_draw,
                                                forfeit,
                                            },
                                        ),
                                        None => None,
                                    },
                                    None => None,
                                },
                                None => None,
                            },
                            None => None,
                        },
                        None => None,
                    },
                    None => None,
                },
                None => None,
            }
        } else {
            None
        },
        None => None,
    }
}

pub open spec fn spec_dec_ack(b: Seq<u8>) -> Option<Ack> {
    match dec_byte(b, 0) {
        Some((tag, i1)) => if tag == ACK_TAG {
            match dec_bool(b, i1) {
                Some((ok, i2)) => match dec_opt_state(b, i2) {
                    Some((end_state, _i3)) => Some(Ack { ok, end_state }),
                    None => None,
                },
                None => None,
            }
        } else {
            None
        },
        None => None,
    }
}

// ---------------------------------------------------------------------------
// Decoders. Each mirrors its specification-level reader exactly.
// ---------------------------------------------------------------------------

/// A reader's result with the cursor widened, for comparison against the
/// specification-level readers.
pub open spec fn widen<T>(r: Option<(T, usize)>) -> Option<(T, int)> {
    match r {
        Some((v, j)) => Some((v, j as int)),
        None => None,
    }
}

fn read_byte(b: &[u8], i: usize) -> (r: Option<(u8, usize)>)
    ensures
        widen(r) == dec_byte(b@, i as int),
{
    if i < b.len() {
        Some((*slice_index_get(b, i), i + 1))
    } else {
        None
    }
}

fn read_bool(b: &[u8], i: usize) -> (r: Option<(bool, usize)>)
    ensures
        widen(r) == dec_bool(b@, i as int),
{
    match read_byte(b, i) {
        Some((v, j)) => if v == 0 {
            Some((false, j))
        } else if v == 1 {
            Some((true, j))
        } else {
            None
        },
        None => None,
    }
}

fn read_u32(b: &[u8], i: usize) -> (r: Option<(u32, usize)>)
    ensures
        widen(r) == dec_u32(b@, i as int),
{
    if b.len() >= 4 && i <= b.len() - 4 {
        let word = slice_subrange(b, i, i + 4);
        Some((u32_from_le_bytes(word), i + 4))
    } else {
        None
    }
}

fn read_opt_u32(b: &[u8], i: usize) -> (r: Option<(Option<u32>, usize)>)
    ensures
        widen(r) == dec_opt_u32(b@, i as int),
{
    match read_byte(b, i) {
        Some((t, j)) => if t == 0 {
            Some((None, j))
        } else if t == 1 {
            match read_u32(b, j) {
                Some((n, k)) => Some((Some(n), k)),
                None => None,
            }
        } else {
            None
        },
        None => None,
    }
}

/// A byte-string reader's result with the bytes abstracted, for comparison
/// against `dec_bytes`.
pub open spec fn widen_bytes(r: Option<(Vec<u8>, usize)>) -> Option<(Seq<u8>, int)> {
    match r {
        Some((v, j)) => Some((v@, j as int)),
        None => None,
    }
}

fn read_bytes(b: &[u8], i: usize) -> (r: Option<(Vec<u8>, usize)>)
    ensures
        widen_bytes(r) == dec_bytes(b@, i as int),
{
    if b.len() >= 2 && i <= b.len() - 2 {
        let n = u16_from_le_bytes(slice_subrange(b, i, i + 2)) as usize;
        if n <= b.len() - (i + 2) {
            let payload = slice_to_vec(slice_subrange(b, i + 2, i + 2 + n));
            Some((payload, i + 2 + n))
        } else {
            None
        }
    } else {
        None
    }
}

/// An optional byte-string reader's result with the bytes abstracted.
pub open spec fn widen_opt_bytes(r: Option<(Option<Vec<u8>>, usize)>) -> Option<
    (Option<Seq<u8>>, int),
> {
    match r {
        Some((v, j)) => Some((view_opt_bytes(v), j as int)),
        None => None,
    }
}

fn read_opt_bytes(b: &[u8], i: usize) -> (r: Option<(Option<Vec<u8>>, usize)>)
    ensures
        widen_opt_bytes(r) == dec_opt_bytes(b@, i as int),
{
    match read_byte(b, i) {
        Some((t, j)) => if t == 0 {
            Some((None, j))
        } else if t == 1 {
            match read_bytes(b, j) {
                Some((v, k)) => Some((Some(v), k)),
                None => None,
            }
        } else {
            None
        },
        None => None,
    }
}

fn read_square(b: &[u8], i: usize) -> (r: Option<(u8, usize)>)
    ensures
        widen(r) == dec_square(b@, i as int),
{
    match read_byte(b, i) {
        Some((v, j)) => if v < 8 {
            Some((v, j))
        } else {
            None
        },
        None => None,
    }
}

fn read_opt_piece(b: &[u8], i: usize) -> (r: Option<(Option<PieceKind>, usize)>)
    ensures
        widen(r) == dec_opt_piece(b@, i as int),
{
    match read_byte(b, i) {
        Some((t, j)) => if t == 0 {
            Some((None, j))
        } else if t == 1 {
            match read_byte(b, j) {
                Some((v, k)) => match decode_piece(v) {
                    Some(p) => Some((Some(p), k)),
                    None => None,
                },
                None => None,
            }
        } else {
            None
        },
        None => None,
    }
}

fn decode_piece(v: u8) -> (r: Option<PieceKind>)
    ensures
        r == code_piece(v),
{
    if v == 1 {
        Some(PieceKind::Pawn)
    } else if v == 2 {
        Some(PieceKind::Bishop)
    } else if v == 3 {
        Some(PieceKind::Knight)
    } else if v == 4 {
        Some(PieceKind::Rook)
    } else if v == 5 {
        Some(PieceKind::Queen)
    } else if v == 6 {
        Some(PieceKind::King)
    } else {
        None
    }
}

fn read_opt_state(b: &[u8], i: usize) -> (r: Option<(Option<GameState>, usize)>)
    ensures
        widen(r) == dec_opt_state(b@, i as int),
{
    match read_byte(b, i) {
        Some((t, j)) => if t == 0 {
            Some((None, j))
        } else if t == 1 {
            match read_byte(b, j) {
                Some((v, k)) => match decode_state(v) {
                    Some(s) => Some((Some(s), k)),
                    None => None,
                },
                None => None,
            }
        } else {
            None
        },
        None => None,
    }
}

fn decode_state(v: u8) -> (r: Option<GameState>)
    ensures
        r == code_state(v),
{
    if v == 1 {
        Some(GameState::Ongoing)
    } else if v == 2 {
        Some(GameState::Promotion)
    } else if v == 3 {
        Some(GameState::CheckMate)
    } else if v == 4 {
        Some(GameState::Draw)
    } else {
        None
    }
}

/// Attempts to decode a handshake message from the front of a buffer. Fails
/// on a truncated, malformed or all-zero buffer; trailing bytes are ignored.
pub fn decode_start(buf: &[u8]) -> (r: Option<Start>)
    ensures
        match spec_dec_start(buf@) {
            Some(v) => r matches Some(m) && m@ == v,
            None => r is None,
        },
        r matches Some(m) ==> wf_start(m@),
{
    let tag = match read_byte(buf, 0) {
        Some(p) => p,
        None => {
            return None;
        },
    };
    if tag.0 != START_TAG {
        return None;
    }
    let is_white = match read_bool(buf, tag.1) {
        Some(p) => p,
        None => {
            return None;
        },
    };
    let name = match read_opt_bytes(buf, is_white.1) {
        Some(p) => p,
        None => {
            return None;
        },
    };
    let fen = match read_opt_bytes(buf, name.1) {
        Some(p) => p,
        None => {
            return None;
        },
    };
    let time = match read_opt_u32(buf, fen.1) {
        Some(p) => p,
        None => {
            return None;
        },
    };
    let inc = match read_opt_u32(buf, time.1) {
        Some(p) => p,
        None => {
            return None;
        },
    };
    Some(
        Start {
            is_white: is_white.0,
            name: name.0,
            fen: fen.0,
            time: time.0,
            inc: inc.0,
        },
    )
}

/// Attempts to decode a move message from the front of a buffer. Fails on a
/// truncated, malformed or all-zero buffer; trailing bytes are ignored.
pub fn decode_move(buf: &[u8]) -> (r: Option<Move>)
    ensures
        match spec_dec_move(buf@) {
            Some(v) => r == Some(v),
            None => r is None,
        },
        r matches Some(m) ==> wf_move(m),
{
    let tag = match read_byte(buf, 0) {
        Some(p) => p,
        None => {
            return None;
        },
    };
    if tag.0 != MOVE_TAG {
        return None;
    }
    let ff = match read_square(buf, tag.1) {
        Some(p) => p,
        None => {
            return None;
        },
    };
    let fr = match read_square(buf, ff.1) {
        Some(p) => p,
        None => {
            return None;
        },
    };
    let tf = match read_square(buf, fr.1) {
        Some(p) => p,
        None => {
            return None;
        },
    };
    let tr = match read_square(buf, tf.1) {
        Some(p) => p,
        None => {
            return None;
        },
    };
    let promotion = match read_opt_piece(buf, tr.1) {
        Some(p) => p,
        None => {
            return None;
        },
    };
    let offer_draw = match read_bool(buf, promotion.1) {
        Some(p) => p,
        None => {
            return None;
        },
    };
    let forfeit = match read_bool(buf, offer_draw.1) {
        Some(p) => p,
        None => {
            return None;
        },
    };
    Some(
        Move {
            from: (ff.0, fr.0),
            to: (tf.0, tr.0),
            promotion: promotion.0,
            offer_draw: offer_draw.0,
            forfeit: forfeit.0,
        },
    )
}

/// Attempts to decode an acknowledgement from the front of a buffer. Fails on
/// a truncated, malformed or all-zero buffer; trailing bytes are ignored.
pub fn decode_ack(buf: &[u8]) -> (r: Option<Ack>)
    ensures
        match spec_dec_ack(buf@) {
            Some(v) => r == Some(v),
            None => r is None,
        },
{
    let tag = match read_byte(buf, 0) {
        Some(p) => p,
        None => {
            return None;
        },
    };
    if tag.0 != ACK_TAG {
        return None;
    }
    let ok = match read_bool(buf, tag.1) {
        Some(p) => p,
        None => {
            return None;
        },
    };
    let end_state = match read_opt_state(buf, ok.1) {
        Some(p) => p,
        None => {
            return None;
        },
    };
    Some(Ack { ok: ok.0, end_state: end_state.0 })
}

// ---------------------------------------------------------------------------
// Round-trip laws: decoding an encoded message, under any trailing bytes,
// yields the message back. Zero filling after a frame is a special case of
// trailing bytes, and a buffer of nothing but zero bytes decodes to nothing.
// ---------------------------------------------------------------------------

proof fn lemma_dec_bool_at(b: Seq<u8>, pre: Seq<u8>, v: bool, rest: Seq<u8>)
    requires
        b == pre + enc_bool(v) + rest,
    ensures
        dec_bool(b, pre.len() as int) == Some((v, pre.len() + 1int)),
{
    assert(b[pre.len() as int] == enc_bool(v)[0]);
}

proof fn lemma_dec_opt_u32_at(b: Seq<u8>, pre: Seq<u8>, o: Option<u32>, rest: Seq<u8>)
    requires
        b == pre + enc_opt_u32(o) + rest,
    ensures
        dec_opt_u32(b, pre.len() as int) == Some((o, pre.len() + enc_opt_u32(o).len() as int)),
{
    let i = pre.len() as int;
    match o {
        None => {
            assert(b[i] == enc_opt_u32(o)[0]);
        },
        Some(n) => {
            lemma_auto_spec_u32_to_from_le_bytes();
            assert(b[i] == enc_opt_u32(o)[0]);
            assert(b.subrange(i + 1, i + 5) =~= spec_u32_to_le_bytes(n));
        },
    }
}

proof fn lemma_dec_opt_bytes_at(b: Seq<u8>, pre: Seq<u8>, o: Option<Seq<u8>>, rest: Seq<u8>)
    requires
        b == pre + enc_opt_bytes(o) + rest,
        match o {
            Some(s) => s.len() <= 0xFFFF,
            None => true,
        },
    ensures
        dec_opt_bytes(b, pre.len() as int) == Some((o, pre.len() + enc_opt_bytes(o).len() as int)),
{
    let i = pre.len() as int;
    match o {
        None => {
            assert(b[i] == enc_opt_bytes(o)[0]);
        },
        Some(s) => {
            lemma_auto_spec_u16_to_from_le_bytes();
            assert(b[i] == enc_opt_bytes(o)[0]);
            assert(b.subrange(i + 1, i + 3) =~= spec_u16_to_le_bytes(s.len() as u16));
            assert(spec_u16_from_le_bytes(b.subrange(i + 1, i + 3)) == s.len() as u16);
            assert(b.subrange(i + 3, i + 3 + s.len()) =~= s);
        },
    }
}

proof fn lemma_dec_square_at(b: Seq<u8>, pre: Seq<u8>, v: u8, rest: Seq<u8>)
    requires
        b == pre + seq![v] + rest,
        v < 8,
    ensures
        dec_square(b, pre.len() as int) == Some((v, pre.len() + 1int)),
{
    assert(b[pre.len() as int] == v);
}

proof fn lemma_dec_opt_piece_at(b: Seq<u8>, pre: Seq<u8>, o: Option<PieceKind>, rest: Seq<u8>)
    requires
        b == pre + enc_opt_piece(o) + rest,
    ensures
        dec_opt_piece(b, pre.len() as int) == Some((o, pre.len() + enc_opt_piece(o).len() as int)),
{
    let i = pre.len() as int;
    match o {
        None => {
            assert(b[i] == enc_opt_piece(o)[0]);
        },
        Some(p) => {
            assert(b[i] == enc_opt_piece(o)[0]);
            assert(b[i + 1] == enc_opt_piece(o)[1]);
            assert(code_piece(piece_code(p)) == Some(p));
        },
    }
}

proof fn lemma_dec_opt_state_at(b: Seq<u8>, pre: Seq<u8>, o: Option<GameState>, rest: Seq<u8>)
    requires
        b == pre + enc_opt_state(o) + rest,
    ensures
        dec_opt_state(b, pre.len() as int) == Some((o, pre.len() + enc_opt_state(o).len() as int)),
{
    let i = pre.len() as int;
    match o {
        None => {
            assert(b[i] == enc_opt_state(o)[0]);
        },
        Some(s) => {
            assert(b[i] == enc_opt_state(o)[0]);
            assert(b[i + 1] == enc_opt_state(o)[1]);
            assert(code_state(state_code(s)) == Some(s));
        },
    }
}

/// Round trip for Start: decoding an encoding, with any bytes after it,
/// yields the encoded message in all fields.
#[verifier::rlimit(100)]
pub proof fn lemma_start_round_trip(s: StartV, rest: Seq<u8>)
    requires
        wf_start(s),
    ensures
        spec_dec_start(spec_enc_start(s) + rest) == Some(s),
{
    let b = spec_enc_start(s) + rest;
    let p1 = seq![START_TAG];
    let p2 = p1 + enc_bool(s.is_white);
    let p3 = p2 + enc_opt_bytes(s.name);
    let p4 = p3 + enc_opt_bytes(s.fen);
    let p5 = p4 + enc_opt_u32(s.time);
    assert(b[0] == START_TAG);
    assert(b =~= p1 + enc_bool(s.is_white) + (enc_opt_bytes(s.name) + enc_opt_bytes(s.fen)
        + enc_opt_u32(s.time) + enc_opt_u32(s.inc) + rest));
    lemma_dec_bool_at(
        b,
        p1,
        s.is_white,
        enc_opt_bytes(s.name) + enc_opt_bytes(s.fen) + enc_opt_u32(s.time) + enc_opt_u32(s.inc)
            + rest,
    );
    assert(b =~= p2 + enc_opt_bytes(s.name) + (enc_opt_bytes(s.fen) + enc_opt_u32(s.time)
        + enc_opt_u32(s.inc) + rest));
    lemma_dec_opt_bytes_at(
        b,
        p2,
        s.name,
        enc_opt_bytes(s.fen) + enc_opt_u32(s.time) + enc_opt_u32(s.inc) + rest,
    );
    assert(b =~= p3 + enc_opt_bytes(s.fen) + (enc_opt_u32(s.time) + enc_opt_u32(s.inc) + rest));
    lemma_dec_opt_bytes_at(b, p3, s.fen, enc_opt_u32(s.time) + enc_opt_u32(s.inc) + rest);
    assert(b =~= p4 + enc_opt_u32(s.time) + (enc_opt_u32(s.inc) + rest));
    lemma_dec_opt_u32_at(b, p4, s.time, enc_opt_u32(s.inc) + rest);
    assert(b =~= p5 + enc_opt_u32(s.inc) + rest);
    lemma_dec_opt_u32_at(b, p5, s.inc, rest);
}

/// Round trip for Move: decoding an encoding, with any bytes after it,
/// yields the encoded message in all fields.
#[verifier::rlimit(100)]
pub proof fn lemma_move_round_trip(m: Move, rest: Seq<u8>)
    requires
        wf_move(m),
    ensures
        spec_dec_move(spec_enc_move(m) + rest) == Some(m),
{
    let b = spec_enc_move(m) + rest;
    let p1 = seq![MOVE_TAG];
    let p2 = p1 + seq![m.from.0];
    let p3 = p2 + seq![m.from.1];
    let p4 = p3 + seq![m.to.0];
    let p5 = p4 + seq![m.to.1];
    let p6 = p5 + enc_opt_piece(m.promotion);
    let p7 = p6 + enc_bool(m.offer_draw);
    assert(b[0] == MOVE_TAG);
    let tail1 = seq![m.from.1, m.to.0, m.to.1] + enc_opt_piece(m.promotion) + enc_bool(
        m.offer_draw,
    ) + enc_bool(m.forfeit) + rest;
    assert(b =~= p1 + seq![m.from.0] + tail1);
    lemma_dec_square_at(b, p1, m.from.0, tail1);
    let tail2 = seq![m.to.0, m.to.1] + enc_opt_piece(m.promotion) + enc_bool(m.offer_draw)
        + enc_bool(m.forfeit) + rest;
    assert(b =~= p2 + seq![m.from.1] + tail2);
    lemma_dec_square_at(b, p2, m.from.1, tail2);
    let tail3 = seq![m.to.1] + enc_opt_piece(m.promotion) + enc_bool(m.offer_draw) + enc_bool(
        m.forfeit,
    ) + rest;
    assert(b =~= p3 + seq![m.to.0] + tail3);
    lemma_dec_square_at(b, p3, m.to.0, tail3);
    let tail4 = enc_opt_piece(m.promotion) + enc_bool(m.offer_draw) + enc_bool(m.forfeit) + rest;
    assert(b =~= p4 + seq![m.to.1] + tail4);
    lemma_dec_square_at(b, p4, m.to.1, tail4);
    let tail5 = enc_bool(m.offer_draw) + enc_bool(m.forfeit) + rest;
    assert(b =~= p5 + enc_opt_piece(m.promotion) + tail5);
    lemma_dec_opt_piece_at(b, p5, m.promotion, tail5);
    let tail6 = enc_bool(m.forfeit) + rest;
    assert(b =~= p6 + enc_bool(m.offer_draw) + tail6);
    lemma_dec_bool_at(b, p6, m.offer_draw, tail6);
    assert(b =~= p7 + enc_bool(m.forfeit) + rest);
    lemma_dec_bool_at(b, p7, m.forfeit, rest);
}

/// Round trip for Ack: decoding an encoding, with any bytes after it, yields
/// the encoded message in all fields.
pub proof fn lemma_ack_round_trip(a: Ack, rest: Seq<u8>)
    ensures
        spec_dec_ack(spec_enc_ack(a) + rest) == Some(a),
{
    let b = spec_enc_ack(a) + rest;
    let p1 = seq![ACK_TAG];
    let p2 = p1 + enc_bool(a.ok);
    assert(b[0] == ACK_TAG);
    assert(b =~= p1 + enc_bool(a.ok) + (enc_opt_state(a.end_state) + rest));
    lemma_dec_bool_at(b, p1, a.ok, enc_opt_state(a.end_state) + rest);
    assert(b =~= p2 + enc_opt_state(a.end_state) + rest);
    lemma_dec_opt_state_at(b, p2, a.end_state, rest);
}

/// A strict prefix of an encoded Ack — a truncated frame — decodes to
/// nothing.
pub proof fn lemma_ack_truncation(a: Ack, k: int)
    requires
        0 <= k < spec_enc_ack(a).len(),
    ensures
        spec_dec_ack(spec_enc_ack(a).take(k)) is None,
{
    let e = spec_enc_ack(a);
    let b = e.take(k);
    assert(forall|i: int| 0 <= i < k ==> b[i] == e[i]);
    assert(b.len() == k);
}

/// A strict prefix of an encoded Move — a truncated frame — decodes to
/// nothing.
pub proof fn lemma_move_truncation(m: Move, k: int)
    requires
        wf_move(m),
        0 <= k < spec_enc_move(m).len(),
    ensures
        spec_dec_move(spec_enc_move(m).take(k)) is None,
{
    let e = spec_enc_move(m);
    let b = e.take(k);
    assert(forall|i: int| 0 <= i < k ==> b[i] == e[i]);
    assert(b.len() == k);
}

proof fn lemma_dec_opt_bytes_trunc(b: Seq<u8>, i: int, o: Option<Seq<u8>>)
    requires
        0 <= i <= b.len(),
        b.len() < i + enc_opt_bytes(o).len(),
        forall|j: int| i <= j < b.len() ==> b[j] == enc_opt_bytes(o)[j - i],
        match o {
            Some(v) => v.len() <= 0xFFFF,
            None => true,
        },
    ensures
        dec_opt_bytes(b, i) is None,
{
    match o {
        None => {
        },
        Some(v) => {
            if i < b.len() {
                assert(b[i] == enc_opt_bytes(o)[0]);
                if i + 3 <= b.len() {
                    lemma_auto_spec_u16_to_from_le_bytes();
                    assert(b.subrange(i + 1, i + 3) =~= spec_u16_to_le_bytes(v.len() as u16));
                }
            }
        },
    }
}

proof fn lemma_dec_opt_u32_trunc(b: Seq<u8>, i: int, o: Option<u32>)
    requires
        0 <= i <= b.len(),
        b.len() < i + enc_opt_u32(o).len(),
        forall|j: int| i <= j < b.len() ==> b[j] == enc_opt_u32(o)[j - i],
    ensures
        dec_opt_u32(b, i) is None,
{
    match o {
        None => {
        },
        Some(n) => {
            lemma_auto_spec_u32_to_from_le_bytes();
            if i < b.len() {
                assert(b[i] == enc_opt_u32(o)[0]);
            }
        },
    }
}

/// A strict prefix of an encoded Start — a truncated frame — decodes to
/// nothing.
#[verifier::rlimit(100)]
pub proof fn lemma_start_truncation(s: StartV, k: int)
    requires
        wf_start(s),
        0 <= k < spec_enc_start(s).len(),
    ensures
        spec_dec_start(spec_enc_start(s).take(k)) is None,
{
    let e = spec_enc_start(s);
    let b = e.take(k);
    let nseg = enc_opt_bytes(s.name);
    let fseg = enc_opt_bytes(s.fen);
    let tseg = enc_opt_u32(s.time);
    let iseg = enc_opt_u32(s.inc);
    let p2 = seq![START_TAG] + enc_bool(s.is_white);
    let i_fen = 2 + nseg.len() as int;
    let i_time = i_fen + fseg.len() as int;
    let i_inc = i_time + tseg.len() as int;
    assert(e =~= p2 + nseg + fseg + tseg + iseg);
    assert(forall|j: int| 0 <= j < k ==> b[j] == e[j]);
    assert(forall|j: int| 0 <= j < nseg.len() ==> e[2 + j] == nseg[j]);
    assert(forall|j: int| 0 <= j < fseg.len() ==> e[i_fen + j] == fseg[j]);
    assert(forall|j: int| 0 <= j < tseg.len() ==> e[i_time + j] == tseg[j]);
    assert(forall|j: int| 0 <= j < iseg.len() ==> e[i_inc + j] == iseg[j]);
    if k == 0 {
    } else if k == 1 {
        assert(b[0] == START_TAG);
    } else {
        assert(b[0] == START_TAG);
        assert(b[1] == enc_bool(s.is_white)[0]);
        if k < i_fen {
            lemma_dec_opt_bytes_trunc(b, 2, s.name);
        } else {
            assert(b =~= b.take(2) + nseg + b.skip(i_fen));
            lemma_dec_opt_bytes_at(b, b.take(2), s.name, b.skip(i_fen));
            if k < i_time {
                lemma_dec_opt_bytes_trunc(b, i_fen, s.fen);
            } else {
                assert(b =~= b.take(i_fen) + fseg + b.skip(i_time));
                lemma_dec_opt_bytes_at(b, b.take(i_fen), s.fen, b.skip(i_time));
                if k < i_inc {
                    lemma_dec_opt_u32_trunc(b, i_time, s.time);
                } else {
                    assert(b =~= b.take(i_time) + tseg + b.skip(i_inc));
                    lemma_dec_opt_u32_at(b, b.take(i_time), s.time, b.skip(i_inc));
                    lemma_dec_opt_u32_trunc(b, i_inc, s.inc);
                }
            }
        }
    }
}

/// A buffer that is empty or starts with a zero byte, in particular one that
/// is all zero bytes, decodes to no message of any kind.
pub proof fn lemma_zero_buffer_decodes_nothing(b: Seq<u8>)
    requires
        b.len() == 0 || b[0] == 0,
    ensures
        spec_dec_start(b) is None,
        spec_dec_move(b) is None,
        spec_dec_ack(b) is None,
{
}

} // verus!
