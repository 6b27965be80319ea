use netchess::animate::{Animation, Animations};
use netchess::engine::{MoveOutcome, SquareReport};
use netchess::game::{promotion_choice, Game, GameQuery};
use netchess::messages::{Color, GameState, PieceKind};
use netchess::player::local::LocalPlayer;
use netchess::player::{FrameInput, Player, PlayerTypes};
use netchess::screen::board_coord_to_screen;

fn local_seats() -> (PlayerTypes, PlayerTypes) {
    (
        PlayerTypes::Local(LocalPlayer::init()),
        PlayerTypes::Local(LocalPlayer::init()),
    )
}

fn click_square(x: i32, y: i32) -> FrameInput {
    let (px, py) = board_coord_to_screen(x, y);
    FrameInput { mouse_x: px, mouse_y: py, clicked: true, frame: None }
}

#[test]
fn fresh_game_state() {
    let g = Game::init(local_seats());
    assert_eq!(g.get_player_turn(), Color::White);
    assert_eq!(g.promoted_slot, None);
    assert_eq!(g.king_index, (4, 60));
    assert_eq!(g.pending(), GameQuery::Idle);
}

#[test]
fn selection_then_target_then_commit() {
    let mut g = Game::init(local_seats());
    g.on_ongoing(click_square(4, 1));
    assert_eq!(g.pending(), GameQuery::InspectSquare { slot: 12 });
    g.on_ongoing(click_square(4, 3));
    assert_eq!(g.pending(), GameQuery::CommitMove { from: 12, to: 28 });

    g.commit_move(MoveOutcome::Accepted { state: GameState::Ongoing, turn_after: Color::Black });
    assert_eq!(g.get_player_turn(), Color::Black);
    assert_eq!(g.pending(), GameQuery::Idle);
    assert_eq!(g.animation.frames_elapsed, 0);
    // Neither king stood on square 12, so both stay put.
    assert_eq!(g.king_index, (4, 60));
}

#[test]
fn rejected_commit_changes_no_board_state() {
    let mut g = Game::init(local_seats());
    g.on_ongoing(click_square(0, 0));
    g.on_ongoing(click_square(0, 4));
    g.commit_move(MoveOutcome::Rejected);
    assert_eq!(g.get_player_turn(), Color::White);
    assert_eq!(g.king_index, (4, 60));
    assert_eq!(g.promoted_slot, None);
    // The pair cleared: the mover reselects and resubmits.
    assert_eq!(g.pending(), GameQuery::Idle);
}

#[test]
fn king_move_updates_king_index() {
    let mut g = Game::init(local_seats());
    // White king e1 (square 4) to e2 (square 12).
    g.on_ongoing(click_square(4, 0));
    g.on_ongoing(click_square(4, 1));
    g.commit_move(MoveOutcome::Accepted { state: GameState::Ongoing, turn_after: Color::Black });
    assert_eq!(g.king_index, (12, 60));
}

#[test]
fn promotion_outcome_opens_choice() {
    let mut g = Game::init(local_seats());
    // a7 (square 48, file 0 rank 6) to a8 (square 56).
    g.on_ongoing(click_square(0, 6));
    g.on_ongoing(click_square(0, 7));
    g.commit_move(MoveOutcome::Accepted {
        state: GameState::Promotion,
        turn_after: Color::White,
    });
    // file 0, rank parity of rank 6 is 0: (0 + 0 + 1) % 2 == 1.
    assert_eq!(g.promoted_slot, Some(1));
}

#[test]
fn review_selection_drops_foreign_pieces() {
    let mut g = Game::init(local_seats());
    g.on_ongoing(click_square(3, 6));
    assert_eq!(g.pending(), GameQuery::InspectSquare { slot: 51 });
    g.review_selection(SquareReport::OpponentPiece);
    assert_eq!(g.pending(), GameQuery::Idle);

    g.on_ongoing(click_square(2, 5));
    g.review_selection(SquareReport::Empty);
    assert_eq!(g.pending(), GameQuery::Idle);

    g.on_ongoing(click_square(3, 1));
    g.review_selection(SquareReport::OwnPiece);
    assert_eq!(g.pending(), GameQuery::InspectSquare { slot: 11 });
}

#[test]
fn promotion_choice_column() {
    let (px, py) = board_coord_to_screen(9, 5);
    assert_eq!(promotion_choice(px, py, true), Some(PieceKind::Queen));
    let (px, py) = board_coord_to_screen(9, 4);
    assert_eq!(promotion_choice(px, py, true), Some(PieceKind::Rook));
    let (px, py) = board_coord_to_screen(9, 3);
    assert_eq!(promotion_choice(px, py, true), Some(PieceKind::Knight));
    let (px, py) = board_coord_to_screen(9, 2);
    assert_eq!(promotion_choice(px, py, true), Some(PieceKind::Bishop));
    // Off the promotion column, or without a press: no choice.
    let (px, py) = board_coord_to_screen(9, 6);
    assert_eq!(promotion_choice(px, py, true), None);
    let (px, py) = board_coord_to_screen(4, 4);
    assert_eq!(promotion_choice(px, py, true), None);
    let (px, py) = board_coord_to_screen(9, 5);
    assert_eq!(promotion_choice(px, py, false), None);
}

#[test]
fn only_the_current_seat_is_polled() {
    let mut g = Game::init(local_seats());
    g.on_ongoing(click_square(4, 1));
    // The white seat holds the selection; the black seat saw nothing.
    match (&g.players.0, &g.players.1) {
        (PlayerTypes::Local(w), PlayerTypes::Local(b)) => {
            assert_eq!(w.selected, Some(12));
            assert_eq!(b.selected, None);
        },
        _ => panic!("seats hold local players"),
    }
}

#[test]
fn animation_counts_frames_and_restarts() {
    let mut a = Animation::new(Animations::EaseOutBounce, 3);
    assert_eq!(a.advance(), (0, 3));
    assert_eq!(a.advance(), (1, 3));
    assert_eq!(a.advance(), (2, 3));
    assert_eq!(a.advance(), (3, 3));
    // The counter holds at the total.
    assert_eq!(a.advance(), (3, 3));
    a.restart();
    assert_eq!(a.advance(), (0, 3));
}

#[test]
fn game_promotion_dispatch() {
    let mut g = Game::init(local_seats());
    // A local player handles its own promotion choice.
    assert!(g.on_promotion());
    g.on_end();
}
