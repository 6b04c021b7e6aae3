//! The controller proper: selection state machine, promotion choice, and the
//! snapshot history log with its live/viewing mode toggle.
//!
//! The controller owns no chess rules. The caller reads the rule engine for
//! it (the piece on the clicked square, the side to move, the engine's legal
//! destinations, the current position snapshot) and passes those answers in
//! as plain values; the controller decides, mutates its own state, and hands
//! back the one engine call the event requires, if any.

use vstd::prelude::*;

use crate::geometry::Region;
use crate::geometry::region_wf;
use crate::notation::move_str;
use crate::notation::move_to_string;
use crate::pieces::Colour;
use crate::pieces::Piece;
use crate::pieces::PromotionChoice;
use crate::pieces::get_colour;
use crate::pieces::piece_colour;
use crate::pieces::promotion_code;

verus! {

/// The mathematical model of a controller state.
#[verifier::ext_equal]
pub ghost struct Model {
    /// The selected origin square, if any; `None` is the idle state.
    pub selected: Option<(usize, usize)>,
    /// The highlighted destination squares, exactly as the engine answered
    /// them when the selection was made.
    pub highlighted: Seq<(usize, usize)>,
    /// The snapshot log, oldest first.
    pub history: Seq<Seq<char>>,
    /// Whether a historical snapshot has temporarily overwritten the live
    /// position. While true, the last log entry is the bookmark that holds
    /// the suspended live position.
    pub viewing: bool,
    /// The promotion kind the controller last forwarded (initially Queen).
    pub promotion: PromotionChoice,
}

/// Structural soundness of a controller state: a selected square is on the
/// board, the idle state shows no highlights, and viewing mode always has the
/// bookmark entry to return to.
pub open spec fn inv(m: Model) -> bool {
    &&& (m.selected matches Some(origin) ==> origin.0 < 8 && origin.1 < 8)
    &&& (m.selected is None ==> m.highlighted.len() == 0)
    &&& (m.viewing ==> m.history.len() >= 1)
}

/// The state a fresh game session starts in.
pub open spec fn initial_model() -> Model {
    Model {
        selected: None,
        highlighted: Seq::empty(),
        history: Seq::empty(),
        viewing: false,
        promotion: PromotionChoice::Queen,
    }
}

/// A fresh selection attempt on `(rank, file)`: the square is selected, with
/// the engine's answer as highlights, exactly when it holds a piece of the
/// side to move; any other square leaves the controller idle.
pub open spec fn select_next(
    m: Model,
    rank: usize,
    file: usize,
    piece: Piece,
    to_move: Colour,
    legal: Seq<(usize, usize)>,
) -> Model {
    if piece_colour(piece) == Some(to_move) {
        Model { selected: Some((rank, file)), highlighted: legal, ..m }
    } else {
        Model { selected: None, highlighted: Seq::empty(), ..m }
    }
}

/// Whether a click on `(rank, file)` is a commit attempt: a square other than
/// the origin is clicked while it is highlighted.
pub open spec fn is_commit(m: Model, rank: usize, file: usize) -> bool {
    &&& m.selected matches Some(origin)
    &&& (rank, file) != origin
    &&& m.highlighted.contains((rank, file))
}

/// The controller state after a board click. Cancel (a click on the origin)
/// comes first; then a commit attempt, which appends the live snapshot to the
/// log when live and changes nothing but the selection when viewing; any
/// other click is a fresh selection attempt.
pub open spec fn board_click_next(
    m: Model,
    rank: usize,
    file: usize,
    piece: Piece,
    to_move: Colour,
    legal: Seq<(usize, usize)>,
    snapshot: Seq<char>,
) -> Model {
    match m.selected {
        Some(origin) => {
            if (rank, file) == origin {
                Model { selected: None, highlighted: Seq::empty(), ..m }
            } else if m.highlighted.contains((rank, file)) {
                if !m.viewing {
                    Model {
                        selected: None,
                        highlighted: Seq::empty(),
                        history: m.history.push(snapshot),
                        ..m
                    }
                } else {
                    Model { selected: None, highlighted: Seq::empty(), ..m }
                }
            } else {
                select_next(m, rank, file, piece, to_move, legal)
            }
        },
        None => select_next(m, rank, file, piece, to_move, legal),
    }
}

/// The move a board click commits to the engine, if any: only a commit
/// attempt made while live yields one.
pub open spec fn board_click_move(m: Model, rank: usize, file: usize) -> Option<
    ((usize, usize), (usize, usize)),
> {
    match m.selected {
        Some(origin) => {
            if (rank, file) != origin && m.highlighted.contains((rank, file)) && !m.viewing {
                Some((origin, (rank, file)))
            } else {
                None
            }
        },
        None => None,
    }
}

/// The promotion kind sitting in selector slot 0..4, in slot order.
pub open spec fn slot_choice(slot: int) -> PromotionChoice {
    if slot == 0 {
        PromotionChoice::Queen
    } else if slot == 1 {
        PromotionChoice::Rook
    } else if slot == 2 {
        PromotionChoice::Bishop
    } else {
        PromotionChoice::Knight
    }
}

/// The controller state after a promotion-selector click.
pub open spec fn choose_next(m: Model, slot: int) -> Model {
    Model { promotion: slot_choice(slot), ..m }
}

/// The controller state after a history-list click on `index`.
///
/// Live, with `index` inside the log: the live snapshot is appended as the
/// bookmark and viewing mode begins. Viewing, with `index` strictly before
/// the bookmark: only the viewed position changes. Viewing, with `index` at
/// the bookmark: the bookmark is removed and the session is live again. Any
/// other index is ignored.
pub open spec fn navigate_next(m: Model, index: int, snapshot: Seq<char>) -> Model {
    if !m.viewing && 0 <= index < m.history.len() {
        Model { history: m.history.push(snapshot), viewing: true, ..m }
    } else if m.viewing && 0 <= index < m.history.len() - 1 {
        m
    } else if m.viewing && index == m.history.len() - 1 {
        Model { history: m.history.drop_last(), viewing: false, ..m }
    } else {
        m
    }
}

/// The snapshot a history-list click asks the engine to restore, if any:
/// the entry at `index`, which while viewing is the popped bookmark when
/// `index` is the bookmark's position. An index outside the log asks for
/// nothing.
pub open spec fn navigate_restore(m: Model, index: int) -> Option<Seq<char>> {
    if 0 <= index < m.history.len() {
        Some(m.history[index])
    } else {
        None
    }
}

/// One call for the surrounding program to make on the rule engine.
pub enum EngineCall {
    /// Apply this move, written as [`move_to_string`] writes it.
    ApplyMove(String),
    /// Select this promotion kind, by its one-letter code.
    SetPromotion(char),
    /// Restore the position this snapshot holds.
    Restore(String),
}

/// Whether `squares` holds `square`.
fn contains_square(squares: &Vec<(usize, usize)>, square: (usize, usize)) -> (r: bool)
    ensures
        r == squares@.contains(square),
{
    let mut i: usize = 0;
    while i < squares.len()
        invariant
            i <= squares@.len(),
            forall|j: int| 0 <= j < i ==> squares@[j] != square,
        decreases squares@.len() - i,
    {
        let candidate = squares[i];
        if candidate.0 == square.0 && candidate.1 == square.1 {
            proof {
                assert(squares@[i as int] == square);
            }
            return true;
        }
        i = i + 1;
    }
    false
}

/// The controller's state: selection, highlights, promotion choice, and the
/// snapshot history log with its mode flag.
pub struct AppState {
    selected_square: Option<(usize, usize)>,
    highlighted_squares: Vec<(usize, usize)>,
    history: Vec<String>,
    viewing_history: bool,
    promotion_choice: PromotionChoice,
}

impl View for AppState {
    type V = Model;

    closed spec fn view(&self) -> Model {
        Model {
            selected: self.selected_square,
            highlighted: self.highlighted_squares@,
            history: self.history@.map_values(|s: String| s@),
            viewing: self.viewing_history,
            promotion: self.promotion_choice,
        }
    }
}

impl AppState {
    /// Structural soundness of this state; every public method keeps it.
    pub open spec fn wf(&self) -> bool {
        inv(self@)
    }

    /// A controller for a fresh game session.
    pub fn new() -> (state: AppState)
        ensures
            state.wf(),
            state@ == initial_model(),
    {
        let state = AppState {
            selected_square: None,
            highlighted_squares: Vec::new(),
            history: Vec::new(),
            viewing_history: false,
            promotion_choice: PromotionChoice::Queen,
        };
        proof {
            assert(state@ =~= initial_model());
        }
        state
    }

    /// Forgets the session: idle selection, empty log, live mode, queen
    /// promotion. The caller reinitialises the engine alongside.
    pub fn reset(&mut self)
        ensures
            final(self).wf(),
            final(self)@ == initial_model(),
    {
        self.selected_square = None;
        self.highlighted_squares = Vec::new();
        self.history = Vec::new();
        self.viewing_history = false;
        self.promotion_choice = PromotionChoice::Queen;
        proof {
            assert(self@ =~= initial_model());
        }
    }

    /// A fresh selection attempt on `(rank, file)`.
    fn select_attempt(
        &mut self,
        rank: usize,
        file: usize,
        piece: Piece,
        to_move: Colour,
        legal: Vec<(usize, usize)>,
    )
        requires
            rank < 8,
            file < 8,
        ensures
            final(self)@ == select_next(old(self)@, rank, file, piece, to_move, legal@),
    {
        if let Some(c) = get_colour(piece) {
            if c == to_move {
                self.selected_square = Some((rank, file));
                self.highlighted_squares = legal;
                proof {
                    assert(self@ =~= select_next(old(self)@, rank, file, piece, to_move, legal@));
                }
                return ;
            }
        }
        self.selected_square = None;
        self.highlighted_squares = Vec::new();
        proof {
            assert(self@ =~= select_next(old(self)@, rank, file, piece, to_move, legal@));
        }
    }

    /// A click on board square `(rank, file)`.
    ///
    /// `piece` and `to_move` are the engine's piece on that square and side
    /// to move, `legal` its legal destinations from that square, and
    /// `snapshot` its current position snapshot. The result is the move to
    /// submit to the engine, if the click committed one; the log has then
    /// already received `snapshot`. A commit attempted while viewing history
    /// is discarded: no move, no log entry, selection cleared.
    pub fn click_board(
        &mut self,
        rank: usize,
        file: usize,
        piece: Piece,
        to_move: Colour,
        legal: Vec<(usize, usize)>,
        snapshot: String,
    ) -> (mv: Option<String>)
        requires
            rank < 8,
            file < 8,
            old(self).wf(),
        ensures
            final(self).wf(),
            final(self)@ == board_click_next(
                old(self)@,
                rank,
                file,
                piece,
                to_move,
                legal@,
                snapshot@,
            ),
            match board_click_move(old(self)@, rank, file) {
                Some((from, to)) => mv matches Some(s) && s@ == move_str(from, to),
                None => mv is None,
            },
    {
        let clicked = (rank, file);
        match self.selected_square {
            Some(origin) => {
                if origin.0 == rank && origin.1 == file {
                    self.selected_square = None;
                    self.highlighted_squares = Vec::new();
                    proof {
                        assert(self@ =~= board_click_next(
                            old(self)@,
                            rank,
                            file,
                            piece,
                            to_move,
                            legal@,
                            snapshot@,
                        ));
                    }
                    None
                } else if contains_square(&self.highlighted_squares, clicked) {
                    let mv = if !self.viewing_history {
                        self.history.push(snapshot);
                        Some(move_to_string(origin, clicked))
                    } else {
                        None
                    };
                    self.selected_square = None;
                    self.highlighted_squares = Vec::new();
                    proof {
                        assert(self@ =~= board_click_next(
                            old(self)@,
                            rank,
                            file,
                            piece,
                            to_move,
                            legal@,
                            snapshot@,
                        ));
                    }
                    mv
                } else {
                    self.select_attempt(rank, file, piece, to_move, legal);
                    None
                }
            },
            None => {
                self.select_attempt(rank, file, piece, to_move, legal);
                None
            },
        }
    }

    /// A click on promotion-selector slot `slot`; returns the one-letter code
    /// to forward to the engine.
    pub fn choose_promotion(&mut self, slot: usize) -> (code: char)
        requires
            slot < 4,
            old(self).wf(),
        ensures
            final(self).wf(),
            final(self)@ == choose_next(old(self)@, slot as int),
            code == promotion_code(slot_choice(slot as int)),
    {
        let choice = if slot == 0 {
            PromotionChoice::Queen
        } else if slot == 1 {
            PromotionChoice::Rook
        } else if slot == 2 {
            PromotionChoice::Bishop
        } else {
            PromotionChoice::Knight
        };
        self.promotion_choice = choice;
        proof {
            assert(self@ =~= choose_next(old(self)@, slot as int));
        }
        choice.code()
    }

    /// A click on history-list entry `index`; `snapshot` is the engine's
    /// current position. Returns the snapshot the engine must restore, if
    /// the click navigated anywhere; an index outside the log is ignored.
    pub fn enter_or_navigate(&mut self, index: usize, snapshot: String) -> (restore: Option<
        String,
    >)
        requires
            old(self).wf(),
        ensures
            final(self).wf(),
            final(self)@ == navigate_next(old(self)@, index as int, snapshot@),
            match navigate_restore(old(self)@, index as int) {
                Some(s) => restore matches Some(r) && r@ == s,
                None => restore is None,
            },
    {
        if !self.viewing_history {
            if index < self.history.len() {
                let target = self.history[index].clone();
                self.history.push(snapshot);
                self.viewing_history = true;
                proof {
                    assert(self@ =~= navigate_next(old(self)@, index as int, snapshot@));
                }
                Some(target)
            } else {
                None
            }
        } else {
            let len = self.history.len();
            if index < len - 1 {
                Some(self.history[index].clone())
            } else if index == len - 1 {
                let bookmark = self.history.pop();
                self.viewing_history = false;
                proof {
                    assert(self@ =~= navigate_next(old(self)@, index as int, snapshot@));
                }
                match bookmark {
                    Some(s) => Some(s),
                    None => None,
                }
            } else {
                None
            }
        }
    }

    /// Routes one classified input event to the controller it belongs to and
    /// returns the engine call it produced, if any. `piece`, `to_move`,
    /// `legal` and `snapshot` are the engine's answers as in [`Self::click_board`];
    /// only the arm the region selects reads them.
    pub fn handle_event(
        &mut self,
        region: Region,
        piece: Piece,
        to_move: Colour,
        legal: Vec<(usize, usize)>,
        snapshot: String,
    ) -> (call: Option<EngineCall>)
        requires
            region_wf(region),
            old(self).wf(),
        ensures
            final(self).wf(),
            match region {
                Region::BoardSquare { rank, file } => {
                    &&& final(self)@ == board_click_next(
                        old(self)@,
                        rank,
                        file,
                        piece,
                        to_move,
                        legal@,
                        snapshot@,
                    )
                    &&& match board_click_move(old(self)@, rank, file) {
                        Some((from, to)) => call matches Some(EngineCall::ApplyMove(s)) && s@
                            == move_str(from, to),
                        None => call is None,
                    }
                },
                Region::PromotionSlot { slot } => {
                    &&& final(self)@ == choose_next(old(self)@, slot as int)
                    &&& call matches Some(EngineCall::SetPromotion(c)) && c == promotion_code(
                        slot_choice(slot as int),
                    )
                },
                Region::HistoryEntry { index } => {
                    &&& final(self)@ == navigate_next(old(self)@, index as int, snapshot@)
                    &&& match navigate_restore(old(self)@, index as int) {
                        Some(s) => call matches Some(EngineCall::Restore(r)) && r@ == s,
                        None => call is None,
                    }
                },
                Region::Outside => {
                    &&& final(self)@ == old(self)@
                    &&& call is None
                },
            },
    {
        match region {
            Region::BoardSquare { rank, file } => {
                match self.click_board(rank, file, piece, to_move, legal, snapshot) {
                    Some(mv) => Some(EngineCall::ApplyMove(mv)),
                    None => None,
                }
            },
            Region::PromotionSlot { slot } => {
                let code = self.choose_promotion(slot);
                Some(EngineCall::SetPromotion(code))
            },
            Region::HistoryEntry { index } => {
                match self.enter_or_navigate(index, snapshot) {
                    Some(s) => Some(EngineCall::Restore(s)),
                    None => None,
                }
            },
            Region::Outside => None,
        }
    }

    /// The selected origin square, if any.
    pub fn selected_square(&self) -> (r: Option<(usize, usize)>)
        ensures
            r == self@.selected,
    {
        self.selected_square
    }

    /// The highlighted destination squares.
    pub fn highlighted_squares(&self) -> (r: &Vec<(usize, usize)>)
        ensures
            r@ == self@.highlighted,
    {
        &self.highlighted_squares
    }

    /// How many snapshots the log holds (the bookmark included, while
    /// viewing).
    pub fn history_len(&self) -> (r: usize)
        ensures
            r == self@.history.len(),
    {
        self.history.len()
    }

    /// The log entry at `index`.
    pub fn history_at(&self, index: usize) -> (r: &String)
        requires
            index < self@.history.len(),
        ensures
            r@ == self@.history[index as int],
    {
        &self.history[index]
    }

    /// Whether a historical snapshot has overwritten the live position.
    pub fn viewing_history(&self) -> (r: bool)
        ensures
            r == self@.viewing,
    {
        self.viewing_history
    }

    /// The promotion kind the controller last forwarded.
    pub fn promotion_choice(&self) -> (r: PromotionChoice)
        ensures
            r == self@.promotion,
    {
        self.promotion_choice
    }
}

} // verus!
