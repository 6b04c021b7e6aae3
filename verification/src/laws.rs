//! The laws the controller obeys, proved over its transition functions.
//!
//! Each proof function states one guarantee of the state machine in
//! [`crate::controller`] for every state and input its `requires` admits.

use vstd::prelude::*;

use crate::controller::Model;
use crate::controller::board_click_move;
use crate::controller::board_click_next;
use crate::controller::choose_next;
use crate::controller::inv;
use crate::controller::is_commit;
use crate::controller::navigate_next;
use crate::controller::navigate_restore;
use crate::controller::select_next;
use crate::controller::slot_choice;
use crate::pieces::Colour;
use crate::pieces::Piece;
use crate::pieces::PromotionChoice;
use crate::pieces::piece_colour;

verus! {

/// Idle round-trip: from the idle state, clicking a square that holds a
/// piece of the side to move and then clicking it again returns the
/// controller to idle with no highlights, and touches neither the log, the
/// mode, nor the promotion choice. The second click may carry any engine
/// answers: a click on the origin always cancels.
pub proof fn lemma_idle_round_trip(
    m: Model,
    rank: usize,
    file: usize,
    piece: Piece,
    to_move: Colour,
    legal: Seq<(usize, usize)>,
    snapshot: Seq<char>,
    piece2: Piece,
    to_move2: Colour,
    legal2: Seq<(usize, usize)>,
    snapshot2: Seq<char>,
)
    requires
        inv(m),
        m.selected is None,
        rank < 8,
        file < 8,
        piece_colour(piece) == Some(to_move),
    ensures
        ({
            let once = board_click_next(m, rank, file, piece, to_move, legal, snapshot);
            let twice = board_click_next(once, rank, file, piece2, to_move2, legal2, snapshot2);
            &&& twice.selected is None
            &&& twice.highlighted.len() == 0
            &&& twice.history == m.history
            &&& twice.viewing == m.viewing
            &&& twice.promotion == m.promotion
        }),
{
}

/// Highlight exactness: whenever a board click leaves the controller in a
/// selected state, the selection is the clicked square, the square held a
/// piece of the side to move, and the highlights are exactly the legal
/// destinations the engine answered for that square at that click.
pub proof fn lemma_highlight_exact(
    m: Model,
    rank: usize,
    file: usize,
    piece: Piece,
    to_move: Colour,
    legal: Seq<(usize, usize)>,
    snapshot: Seq<char>,
)
    requires
        inv(m),
    ensures
        ({
            let next = board_click_next(m, rank, file, piece, to_move, legal, snapshot);
            next.selected is Some ==> {
                &&& next.selected == Some((rank, file))
                &&& piece_colour(piece) == Some(to_move)
                &&& next.highlighted == legal
            }
        }),
{
}

/// Opponent-piece guard: while idle, a click on a square that does not hold
/// a piece of the side to move never selects anything.
pub proof fn lemma_opponent_guard(
    m: Model,
    rank: usize,
    file: usize,
    piece: Piece,
    to_move: Colour,
    legal: Seq<(usize, usize)>,
    snapshot: Seq<char>,
)
    requires
        inv(m),
        m.selected is None,
        piece_colour(piece) != Some(to_move),
    ensures
        board_click_next(m, rank, file, piece, to_move, legal, snapshot).selected is None,
        board_click_next(m, rank, file, piece, to_move, legal, snapshot).highlighted.len() == 0,
{
}

/// History growth: while live, a board click that commits a move appends
/// exactly one entry (the snapshot taken before the move) to the log, and
/// any other board click leaves the log as it was. Committing N moves from a
/// live session therefore grows the log by exactly N.
pub proof fn lemma_history_growth(
    m: Model,
    rank: usize,
    file: usize,
    piece: Piece,
    to_move: Colour,
    legal: Seq<(usize, usize)>,
    snapshot: Seq<char>,
)
    requires
        inv(m),
        !m.viewing,
    ensures
        ({
            let next = board_click_next(m, rank, file, piece, to_move, legal, snapshot);
            if is_commit(m, rank, file) {
                next.history == m.history.push(snapshot)
            } else {
                next.history == m.history
            }
        }),
{
}

/// One board click, with the engine answers that arrived with it.
pub ghost struct BoardClick {
    pub rank: usize,
    pub file: usize,
    pub piece: Piece,
    pub to_move: Colour,
    pub legal: Seq<(usize, usize)>,
    pub snapshot: Seq<char>,
}

/// The state after a run of board clicks, first click first.
pub open spec fn run_clicks(m: Model, clicks: Seq<BoardClick>) -> Model
    decreases clicks.len(),
{
    if clicks.len() == 0 {
        m
    } else {
        let c = clicks[0];
        run_clicks(
            board_click_next(m, c.rank, c.file, c.piece, c.to_move, c.legal, c.snapshot),
            clicks.drop_first(),
        )
    }
}

/// How many of a run of board clicks commit a move, counted against the
/// state each click finds.
pub open spec fn count_commits(m: Model, clicks: Seq<BoardClick>) -> nat
    decreases clicks.len(),
{
    if clicks.len() == 0 {
        0
    } else {
        let c = clicks[0];
        (if is_commit(m, c.rank, c.file) {
            1nat
        } else {
            0nat
        }) + count_commits(
            board_click_next(m, c.rank, c.file, c.piece, c.to_move, c.legal, c.snapshot),
            clicks.drop_first(),
        )
    }
}

/// History growth over a whole session: board clicks never change the mode,
/// so a session that starts live stays live, and its log ends exactly one
/// entry longer per committed move. Committing N moves from a fresh session
/// therefore yields a log of length N.
pub proof fn lemma_history_growth_run(m: Model, clicks: Seq<BoardClick>)
    requires
        inv(m),
        !m.viewing,
        forall|i: int|
            0 <= i < clicks.len() ==> (#[trigger] clicks[i]).rank < 8 && clicks[i].file < 8,
    ensures
        inv(run_clicks(m, clicks)),
        !run_clicks(m, clicks).viewing,
        run_clicks(m, clicks).history.len() == m.history.len() + count_commits(m, clicks),
    decreases clicks.len(),
{
    if clicks.len() > 0 {
        let c = clicks[0];
        let next = board_click_next(m, c.rank, c.file, c.piece, c.to_move, c.legal, c.snapshot);
        lemma_transitions_preserve_inv(m, c.rank, c.file, c.piece, c.to_move, c.legal, c.snapshot, 0, 0);
        lemma_history_growth(m, c.rank, c.file, c.piece, c.to_move, c.legal, c.snapshot);
        assert(forall|i: int|
            0 <= i < clicks.drop_first().len() ==> (#[trigger] clicks.drop_first()[i]) == clicks[
                i + 1
            ]);
        lemma_history_growth_run(next, clicks.drop_first());
    }
}

/// Commit suppression: while viewing history, a board click never submits a
/// move to the engine and never touches the log, whatever it hits; a commit
/// attempt only clears the selection.
pub proof fn lemma_commit_suppression(
    m: Model,
    rank: usize,
    file: usize,
    piece: Piece,
    to_move: Colour,
    legal: Seq<(usize, usize)>,
    snapshot: Seq<char>,
)
    requires
        inv(m),
        m.viewing,
    ensures
        board_click_move(m, rank, file) is None,
        board_click_next(m, rank, file, piece, to_move, legal, snapshot).history == m.history,
        board_click_next(m, rank, file, piece, to_move, legal, snapshot).viewing,
{
}

/// Viewing round-trip: entering viewing mode at any valid log index and then
/// navigating to the bookmark ends live again, with the log exactly as
/// before, and asks the engine to restore exactly the snapshot that was live
/// when viewing began. The snapshot handed to the second click may be
/// anything: the bookmark answer never depends on it.
pub proof fn lemma_viewing_round_trip(m: Model, index: int, snapshot: Seq<char>, other: Seq<char>)
    requires
        inv(m),
        !m.viewing,
        0 <= index < m.history.len(),
    ensures
        ({
            let entered = navigate_next(m, index, snapshot);
            let back = navigate_next(entered, m.history.len() as int, other);
            &&& entered.viewing
            &&& navigate_restore(entered, m.history.len() as int) == Some(snapshot)
            &&& !back.viewing
            &&& back.history == m.history
            &&& back.selected == m.selected
            &&& back.highlighted == m.highlighted
            &&& back.promotion == m.promotion
        }),
{
    let entered = navigate_next(m, index, snapshot);
    assert(entered.history == m.history.push(snapshot));
    assert(entered.history[m.history.len() as int] == snapshot);
    let back = navigate_next(entered, m.history.len() as int, other);
    assert(back.history =~= m.history);
}

/// Promotion idempotence: choosing the same promotion slot twice in a row
/// is the same as choosing it once; in particular the chosen kind stays put.
pub proof fn lemma_promotion_idempotent(m: Model, slot: int)
    ensures
        choose_next(choose_next(m, slot), slot) == choose_next(m, slot),
        choose_next(choose_next(m, slot), slot).promotion == slot_choice(slot),
{
}

/// Every transition keeps the structural invariant, so any state the
/// controller can reach from the initial one satisfies it.
pub proof fn lemma_transitions_preserve_inv(
    m: Model,
    rank: usize,
    file: usize,
    piece: Piece,
    to_move: Colour,
    legal: Seq<(usize, usize)>,
    snapshot: Seq<char>,
    slot: int,
    index: int,
)
    requires
        inv(m),
        rank < 8,
        file < 8,
    ensures
        inv(board_click_next(m, rank, file, piece, to_move, legal, snapshot)),
        inv(choose_next(m, slot)),
        inv(navigate_next(m, index, snapshot)),
        inv(select_next(m, rank, file, piece, to_move, legal)),
{
}

} // verus!
