//! Piece and colour vocabulary shared by the controller and its callers.
//!
//! The rule engine owns the board; the controller only reads pieces from it.
//! These types mirror what the controller needs of a board cell: which of the
//! six piece kinds stands there, in which colour, or nothing at all.

use vstd::prelude::*;

verus! {

/// The two sides of the game.
#[derive(Clone, Copy, Debug, PartialEq, Eq, Structural)]
pub enum Colour {
    White,
    Black,
}

/// The contents of one board cell: a piece of a colour, or nothing.
#[derive(Clone, Copy, Debug, PartialEq, Eq, Structural)]
pub enum Piece {
    King(Colour),
    Queen(Colour),
    Rook(Colour),
    Bishop(Colour),
    Knight(Colour),
    Pawn(Colour),
    Empty,
}

/// The four piece kinds a pawn may promote to.
#[derive(Clone, Copy, Debug, PartialEq, Eq, Structural)]
pub enum PromotionChoice {
    Queen,
    Rook,
    Bishop,
    Knight,
}

/// The colour of a piece, or `None` for an empty cell.
pub open spec fn piece_colour(piece: Piece) -> Option<Colour> {
    match piece {
        Piece::King(c) => Some(c),
        Piece::Queen(c) => Some(c),
        Piece::Rook(c) => Some(c),
        Piece::Bishop(c) => Some(c),
        Piece::Knight(c) => Some(c),
        Piece::Pawn(c) => Some(c),
        Piece::Empty => None,
    }
}

/// Returns the colour of `piece`, or `None` for an empty cell.
pub fn get_colour(piece: Piece) -> (r: Option<Colour>)
    ensures
        r == piece_colour(piece),
{
    match piece {
        Piece::King(c) => Some(c),
        Piece::Queen(c) => Some(c),
        Piece::Rook(c) => Some(c),
        Piece::Bishop(c) => Some(c),
        Piece::Knight(c) => Some(c),
        Piece::Pawn(c) => Some(c),
        Piece::Empty => None,
    }
}

/// The one-letter code the rule engine expects for a promotion choice.
pub open spec fn promotion_code(choice: PromotionChoice) -> char {
    match choice {
        PromotionChoice::Queen => 'q',
        PromotionChoice::Rook => 'r',
        PromotionChoice::Bishop => 'b',
        PromotionChoice::Knight => 'n',
    }
}

/// The resource path of the sprite that draws a piece.
pub open spec fn sprite_path_spec(piece: Piece) -> Seq<char> {
    match piece {
        Piece::King(Colour::Black) => "/black_king.png"@,
        Piece::Queen(Colour::Black) => "/black_queen.png"@,
        Piece::Rook(Colour::Black) => "/black_rook.png"@,
        Piece::Bishop(Colour::Black) => "/black_bishop.png"@,
        Piece::Knight(Colour::Black) => "/black_knight.png"@,
        Piece::Pawn(Colour::Black) => "/black_pawn.png"@,
        Piece::King(Colour::White) => "/white_king.png"@,
        Piece::Queen(Colour::White) => "/white_queen.png"@,
        Piece::Rook(Colour::White) => "/white_rook.png"@,
        Piece::Bishop(Colour::White) => "/white_bishop.png"@,
        Piece::Knight(Colour::White) => "/white_knight.png"@,
        Piece::Pawn(Colour::White) => "/white_pawn.png"@,
        Piece::Empty => Seq::empty(),
    }
}

/// The resource path of the sprite that draws a piece: a total mapping over
/// every piece variant, so no lookup can miss at run time. An empty cell
/// draws nothing and has no sprite.
pub fn sprite_path(piece: Piece) -> (r: &'static str)
    requires
        piece !is Empty,
    ensures
        r@ == sprite_path_spec(piece),
{
    match piece {
        Piece::King(Colour::Black) => "/black_king.png",
        Piece::Queen(Colour::Black) => "/black_queen.png",
        Piece::Rook(Colour::Black) => "/black_rook.png",
        Piece::Bishop(Colour::Black) => "/black_bishop.png",
        Piece::Knight(Colour::Black) => "/black_knight.png",
        Piece::Pawn(Colour::Black) => "/black_pawn.png",
        Piece::King(Colour::White) => "/white_king.png",
        Piece::Queen(Colour::White) => "/white_queen.png",
        Piece::Rook(Colour::White) => "/white_rook.png",
        Piece::Bishop(Colour::White) => "/white_bishop.png",
        Piece::Knight(Colour::White) => "/white_knight.png",
        Piece::Pawn(Colour::White) => "/white_pawn.png",
        Piece::Empty => "",
    }
}

impl PromotionChoice {
    /// The one-letter code forwarded to the rule engine; the engine pairs it
    /// with the colour it currently expects to promote.
    pub fn code(self) -> (r: char)
        ensures
            r == promotion_code(self),
    {
        match self {
            PromotionChoice::Queen => 'q',
            PromotionChoice::Rook => 'r',
            PromotionChoice::Bishop => 'b',
            PromotionChoice::Knight => 'n',
        }
    }
}

} // verus!
