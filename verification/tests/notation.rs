//! Algebraic move spelling and piece vocabulary.

use chess_gui::Colour;
use chess_gui::Piece;
use chess_gui::get_colour;
use chess_gui::move_to_string;
use chess_gui::sprite_path;

#[test]
fn pawn_push_is_e2_e4() {
    assert_eq!(move_to_string((6, 4), (4, 4)), "e2 e4");
}

#[test]
fn corners() {
    assert_eq!(move_to_string((7, 0), (0, 7)), "a1 h8");
    assert_eq!(move_to_string((0, 0), (7, 7)), "a8 h1");
}

#[test]
fn knight_move() {
    assert_eq!(move_to_string((7, 6), (5, 5)), "g1 f3");
}

#[test]
fn colour_of_pieces() {
    assert_eq!(get_colour(Piece::King(Colour::White)), Some(Colour::White));
    assert_eq!(get_colour(Piece::Pawn(Colour::Black)), Some(Colour::Black));
    assert_eq!(get_colour(Piece::Empty), None);
}

#[test]
fn sprite_paths() {
    assert_eq!(sprite_path(Piece::Pawn(Colour::White)), "/white_pawn.png");
    assert_eq!(sprite_path(Piece::Queen(Colour::Black)), "/black_queen.png");
    assert_eq!(sprite_path(Piece::Knight(Colour::White)), "/white_knight.png");
}
