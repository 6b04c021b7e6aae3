//! Geometry mapper: screen coordinates to logical regions.
//!
//! The window is an 8x8 board of 90-pixel cells with a 270-pixel side panel.
//! The side panel holds a 2x2 promotion selector and a two-column history
//! list. A point maps to exactly one region, or to `Outside`; points at exact
//! cell boundaries belong to the higher-indexed cell. Classification is pure
//! and never panics, whatever the point.

use vstd::prelude::*;

verus! {

/// Width and height of one board cell, in pixels.
pub const CELL: i32 = 90;

/// Pixel extent of the 8x8 board; the side panel starts here.
pub const BOARD_EXTENT: i32 = 720;

/// Left edge of the promotion selector (exclusive).
pub const PROMOTION_LEFT: i32 = 765;

/// Right edge of the promotion selector (exclusive).
pub const PROMOTION_RIGHT: i32 = 945;

/// Top edge of the promotion selector (exclusive).
pub const PROMOTION_TOP: i32 = 90;

/// Bottom edge of the promotion selector (exclusive).
pub const PROMOTION_BOTTOM: i32 = 270;

/// Left edge of the history list (exclusive).
pub const HISTORY_LEFT: i32 = 795;

/// Right edge of the history list (exclusive).
pub const HISTORY_RIGHT: i32 = 915;

/// Top edge of the history list (exclusive).
pub const HISTORY_TOP: i32 = 315;

/// Bottom edge of the history list (exclusive).
pub const HISTORY_BOTTOM: i32 = 675;

/// Height of one history row, in pixels.
pub const HISTORY_ROW: i32 = 30;

/// Rows in one history column.
pub const HISTORY_ROWS: usize = 12;

/// The logical region a screen point falls in.
#[derive(Clone, Copy, Debug, PartialEq, Eq, Structural)]
pub enum Region {
    /// A cell of the 8x8 board, by zero-based rank (row, from the top) and
    /// file (column, from the left).
    BoardSquare { rank: usize, file: usize },
    /// One of the four promotion-selector slots, row-major over its 2x2 grid.
    PromotionSlot { slot: usize },
    /// One history-list entry, column-major: the left column holds indices
    /// 0..12 top to bottom, the right column 12..24.
    HistoryEntry { index: usize },
    /// A point outside every region.
    Outside,
}

/// Whether the point lies on the board.
pub open spec fn in_board(x: int, y: int) -> bool {
    0 <= x < BOARD_EXTENT && 0 <= y < BOARD_EXTENT
}

/// Whether the point lies in the promotion selector.
pub open spec fn in_promotion(x: int, y: int) -> bool {
    PROMOTION_LEFT < x < PROMOTION_RIGHT && PROMOTION_TOP < y < PROMOTION_BOTTOM
}

/// Whether the point lies in the history list.
pub open spec fn in_history(x: int, y: int) -> bool {
    HISTORY_LEFT < x < HISTORY_RIGHT && HISTORY_TOP < y < HISTORY_BOTTOM
}

/// The region a point classifies to. The three regions are disjoint, so the
/// order of the tests does not matter.
pub open spec fn classify_spec(x: int, y: int) -> Region {
    if in_board(x, y) {
        Region::BoardSquare { rank: (y / CELL as int) as usize, file: (x / CELL as int) as usize }
    } else if in_promotion(x, y) {
        Region::PromotionSlot {
            slot: (2 * ((y - PROMOTION_TOP) / CELL as int) + (x - PROMOTION_LEFT) / CELL as int) as usize,
        }
    } else if in_history(x, y) {
        Region::HistoryEntry {
            index: (HISTORY_ROWS * ((x - PROMOTION_LEFT) / CELL as int)
                + (y - HISTORY_TOP) / HISTORY_ROW as int) as usize,
        }
    } else {
        Region::Outside
    }
}

/// The index bounds that each region variant is confined to.
pub open spec fn region_wf(region: Region) -> bool {
    match region {
        Region::BoardSquare { rank, file } => rank < 8 && file < 8,
        Region::PromotionSlot { slot } => slot < 4,
        Region::HistoryEntry { index } => index < 2 * HISTORY_ROWS,
        Region::Outside => true,
    }
}

/// The three regions are pairwise disjoint, so no point classifies two ways
/// and the order of the tests in [`classify_spec`] does not matter.
pub proof fn lemma_regions_disjoint(x: int, y: int)
    ensures
        !(in_board(x, y) && in_promotion(x, y)),
        !(in_board(x, y) && in_history(x, y)),
        !(in_promotion(x, y) && in_history(x, y)),
{
}

/// Maps a screen point to the region it falls in.
pub fn classify(x: i32, y: i32) -> (r: Region)
    ensures
        r == classify_spec(x as int, y as int),
        region_wf(r),
{
    if 0 <= x && x < BOARD_EXTENT && 0 <= y && y < BOARD_EXTENT {
        Region::BoardSquare { rank: (y / CELL) as usize, file: (x / CELL) as usize }
    } else if PROMOTION_LEFT < x && x < PROMOTION_RIGHT && PROMOTION_TOP < y && y < PROMOTION_BOTTOM
    {
        Region::PromotionSlot { slot: (2 * ((y - PROMOTION_TOP) / CELL) + (x - PROMOTION_LEFT) / CELL) as usize }
    } else if HISTORY_LEFT < x && x < HISTORY_RIGHT && HISTORY_TOP < y && y < HISTORY_BOTTOM {
        Region::HistoryEntry {
            index: (HISTORY_ROWS as i32 * ((x - PROMOTION_LEFT) / CELL) + (y - HISTORY_TOP) / HISTORY_ROW)
                as usize,
        }
    } else {
        Region::Outside
    }
}

} // verus!
