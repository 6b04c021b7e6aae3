//! The selection, promotion and history state machine, driven as the
//! surrounding program drives it: with the rule engine's answers handed in
//! as plain values.

use chess_gui::AppState;
use chess_gui::Colour;
use chess_gui::EngineCall;
use chess_gui::Piece;
use chess_gui::Region;
use chess_gui::classify;
use chess_gui::pieces::PromotionChoice;

const WHITE_PAWN: Piece = Piece::Pawn(Colour::White);
const BLACK_PAWN: Piece = Piece::Pawn(Colour::Black);

/// The engine's legal destinations for the e2 pawn at the start position.
fn e2_pawn_moves() -> Vec<(usize, usize)> {
    vec![(5, 4), (4, 4)]
}

#[test]
fn fresh_controller_is_idle_and_live() {
    let state = AppState::new();
    assert_eq!(state.selected_square(), None);
    assert!(state.highlighted_squares().is_empty());
    assert_eq!(state.history_len(), 0);
    assert!(!state.viewing_history());
    assert_eq!(state.promotion_choice(), PromotionChoice::Queen);
}

#[test]
fn idle_round_trip_returns_to_idle() {
    // Clicking a same-colour-to-move square, then clicking it again.
    let mut state = AppState::new();
    let mv = state.click_board(6, 4, WHITE_PAWN, Colour::White, e2_pawn_moves(), String::new());
    assert_eq!(mv, None);
    assert_eq!(state.selected_square(), Some((6, 4)));
    let mv = state.click_board(6, 4, WHITE_PAWN, Colour::White, e2_pawn_moves(), String::new());
    assert_eq!(mv, None);
    assert_eq!(state.selected_square(), None);
    assert!(state.highlighted_squares().is_empty());
    assert_eq!(state.history_len(), 0);
}

#[test]
fn opponent_piece_never_selects() {
    // White to move; (1,4) holds a black pawn.
    let mut state = AppState::new();
    let mv = state.click_board(1, 4, BLACK_PAWN, Colour::White, vec![(2, 4)], String::new());
    assert_eq!(mv, None);
    assert_eq!(state.selected_square(), None);
    assert!(state.highlighted_squares().is_empty());
}

#[test]
fn empty_square_never_selects() {
    let mut state = AppState::new();
    let mv = state.click_board(4, 4, Piece::Empty, Colour::White, Vec::new(), String::new());
    assert_eq!(mv, None);
    assert_eq!(state.selected_square(), None);
}

#[test]
fn selection_stores_engine_answer_exactly() {
    let mut state = AppState::new();
    state.click_board(6, 4, WHITE_PAWN, Colour::White, e2_pawn_moves(), String::new());
    assert_eq!(state.highlighted_squares().as_slice(), &[(5, 4), (4, 4)]);
}

#[test]
fn reselect_replaces_selection() {
    let mut state = AppState::new();
    state.click_board(6, 4, WHITE_PAWN, Colour::White, e2_pawn_moves(), String::new());
    // A click on an unhighlighted own-piece square selects it instead.
    let mv = state.click_board(6, 3, WHITE_PAWN, Colour::White, vec![(5, 3), (4, 3)], String::new());
    assert_eq!(mv, None);
    assert_eq!(state.selected_square(), Some((6, 3)));
    assert_eq!(state.highlighted_squares().as_slice(), &[(5, 3), (4, 3)]);
}

#[test]
fn pawn_scenario_commits_e2_e4() {
    // Start of a game: click e2, then its highlighted destination e4.
    let mut state = AppState::new();
    let mv = state.click_board(
        6,
        4,
        WHITE_PAWN,
        Colour::White,
        e2_pawn_moves(),
        String::from("start position"),
    );
    assert_eq!(mv, None);
    assert_eq!(state.selected_square(), Some((6, 4)));
    assert!(state.highlighted_squares().contains(&(4, 4)));
    assert!(!state.highlighted_squares().is_empty());

    let mv = state.click_board(
        4,
        4,
        Piece::Empty,
        Colour::White,
        Vec::new(),
        String::from("start position"),
    );
    assert_eq!(mv, Some(String::from("e2 e4")));
    assert_eq!(state.selected_square(), None);
    assert!(state.highlighted_squares().is_empty());
    assert_eq!(state.history_len(), 1);
    assert_eq!(state.history_at(0), "start position");
}

#[test]
fn history_grows_once_per_commit() {
    let mut state = AppState::new();
    state.click_board(6, 4, WHITE_PAWN, Colour::White, e2_pawn_moves(), String::from("pos0"));
    state.click_board(4, 4, Piece::Empty, Colour::White, Vec::new(), String::from("pos0"));
    assert_eq!(state.history_len(), 1);
    state.click_board(1, 4, BLACK_PAWN, Colour::Black, vec![(3, 4)], String::from("pos1"));
    state.click_board(3, 4, Piece::Empty, Colour::Black, Vec::new(), String::from("pos1"));
    assert_eq!(state.history_len(), 2);
    assert_eq!(state.history_at(0), "pos0");
    assert_eq!(state.history_at(1), "pos1");
}

#[test]
fn viewing_round_trip_restores_live_snapshot() {
    let mut state = AppState::new();
    state.click_board(6, 4, WHITE_PAWN, Colour::White, e2_pawn_moves(), String::from("pos0"));
    state.click_board(4, 4, Piece::Empty, Colour::White, Vec::new(), String::from("pos0"));
    state.click_board(1, 4, BLACK_PAWN, Colour::Black, vec![(3, 4)], String::from("pos1"));
    state.click_board(3, 4, Piece::Empty, Colour::Black, Vec::new(), String::from("pos1"));
    assert_eq!(state.history_len(), 2);

    // Enter viewing mode at the first logged position.
    let restore = state.enter_or_navigate(0, String::from("live"));
    assert_eq!(restore, Some(String::from("pos0")));
    assert!(state.viewing_history());
    assert_eq!(state.history_len(), 3);

    // Navigate within history.
    let restore = state.enter_or_navigate(1, String::from("ignored"));
    assert_eq!(restore, Some(String::from("pos1")));
    assert!(state.viewing_history());
    assert_eq!(state.history_len(), 3);

    // Navigate to the bookmark: back to the suspended live position.
    let restore = state.enter_or_navigate(2, String::from("ignored"));
    assert_eq!(restore, Some(String::from("live")));
    assert!(!state.viewing_history());
    assert_eq!(state.history_len(), 2);
}

#[test]
fn out_of_range_history_index_is_ignored() {
    let mut state = AppState::new();
    assert_eq!(state.enter_or_navigate(0, String::from("live")), None);
    state.click_board(6, 4, WHITE_PAWN, Colour::White, e2_pawn_moves(), String::from("pos0"));
    state.click_board(4, 4, Piece::Empty, Colour::White, Vec::new(), String::from("pos0"));
    assert_eq!(state.enter_or_navigate(5, String::from("live")), None);
    assert_eq!(state.history_len(), 1);
    assert!(!state.viewing_history());
}

#[test]
fn commit_while_viewing_is_suppressed() {
    let mut state = AppState::new();
    state.click_board(6, 4, WHITE_PAWN, Colour::White, e2_pawn_moves(), String::from("pos0"));
    state.click_board(4, 4, Piece::Empty, Colour::White, Vec::new(), String::from("pos0"));
    let restore = state.enter_or_navigate(0, String::from("live"));
    assert_eq!(restore, Some(String::from("pos0")));

    // A legal-looking commit attempt while viewing: selection happens...
    let mv = state.click_board(6, 3, WHITE_PAWN, Colour::White, vec![(4, 3)], String::from("x"));
    assert_eq!(mv, None);
    assert_eq!(state.selected_square(), Some((6, 3)));
    // ...but the commit is silently discarded.
    let mv = state.click_board(4, 3, Piece::Empty, Colour::White, Vec::new(), String::from("x"));
    assert_eq!(mv, None);
    assert_eq!(state.selected_square(), None);
    assert_eq!(state.history_len(), 2);
    assert!(state.viewing_history());
}

#[test]
fn promotion_slots_choose_in_slot_order() {
    let mut state = AppState::new();
    assert_eq!(state.choose_promotion(0), 'q');
    assert_eq!(state.promotion_choice(), PromotionChoice::Queen);
    assert_eq!(state.choose_promotion(1), 'r');
    assert_eq!(state.promotion_choice(), PromotionChoice::Rook);
    assert_eq!(state.choose_promotion(2), 'b');
    assert_eq!(state.promotion_choice(), PromotionChoice::Bishop);
    assert_eq!(state.choose_promotion(3), 'n');
    assert_eq!(state.promotion_choice(), PromotionChoice::Knight);
}

#[test]
fn promotion_choice_is_idempotent() {
    let mut state = AppState::new();
    state.choose_promotion(2);
    let first = state.promotion_choice();
    state.choose_promotion(2);
    assert_eq!(state.promotion_choice(), first);
    assert_eq!(first, PromotionChoice::Bishop);
}

#[test]
fn reset_clears_the_session() {
    let mut state = AppState::new();
    state.click_board(6, 4, WHITE_PAWN, Colour::White, e2_pawn_moves(), String::from("pos0"));
    state.click_board(4, 4, Piece::Empty, Colour::White, Vec::new(), String::from("pos0"));
    state.choose_promotion(3);
    state.enter_or_navigate(0, String::from("live"));
    state.reset();
    assert_eq!(state.selected_square(), None);
    assert!(state.highlighted_squares().is_empty());
    assert_eq!(state.history_len(), 0);
    assert!(!state.viewing_history());
    assert_eq!(state.promotion_choice(), PromotionChoice::Queen);
}

#[test]
fn dispatcher_routes_board_clicks() {
    let mut state = AppState::new();
    let region = classify(4 * 90, 6 * 90);
    assert_eq!(region, Region::BoardSquare { rank: 6, file: 4 });
    let call = state.handle_event(
        region,
        WHITE_PAWN,
        Colour::White,
        e2_pawn_moves(),
        String::from("pos0"),
    );
    assert!(call.is_none());
    assert_eq!(state.selected_square(), Some((6, 4)));

    let region = classify(4 * 90, 4 * 90);
    let call = state.handle_event(
        region,
        Piece::Empty,
        Colour::White,
        Vec::new(),
        String::from("pos0"),
    );
    match call {
        Some(EngineCall::ApplyMove(mv)) => assert_eq!(mv, "e2 e4"),
        other => panic!("expected a move, got {:?}", other.is_some()),
    }
    assert_eq!(state.history_len(), 1);
}

#[test]
fn dispatcher_routes_promotion_and_history_clicks() {
    let mut state = AppState::new();
    state.click_board(6, 4, WHITE_PAWN, Colour::White, e2_pawn_moves(), String::from("pos0"));
    state.click_board(4, 4, Piece::Empty, Colour::White, Vec::new(), String::from("pos0"));

    // Bottom-left promotion slot: a bishop.
    let call = state.handle_event(
        classify(800, 200),
        Piece::Empty,
        Colour::Black,
        Vec::new(),
        String::from("pos1"),
    );
    match call {
        Some(EngineCall::SetPromotion(code)) => assert_eq!(code, 'b'),
        _ => panic!("expected a promotion code"),
    }

    // First history entry: enter viewing mode.
    let call = state.handle_event(
        classify(800, 316),
        Piece::Empty,
        Colour::Black,
        Vec::new(),
        String::from("pos1"),
    );
    match call {
        Some(EngineCall::Restore(snapshot)) => assert_eq!(snapshot, "pos0"),
        _ => panic!("expected a restore"),
    }
    assert!(state.viewing_history());

    // A click outside every region does nothing.
    let call = state.handle_event(
        classify(730, 10),
        Piece::Empty,
        Colour::Black,
        Vec::new(),
        String::from("pos1"),
    );
    assert!(call.is_none());
    assert!(state.viewing_history());
    assert_eq!(state.history_len(), 2);
}
