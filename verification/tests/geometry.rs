//! Screen-point classification.

use chess_gui::Region;
use chess_gui::classify;

#[test]
fn board_cells() {
    assert_eq!(classify(0, 0), Region::BoardSquare { rank: 0, file: 0 });
    assert_eq!(classify(89, 89), Region::BoardSquare { rank: 0, file: 0 });
    assert_eq!(classify(90, 0), Region::BoardSquare { rank: 0, file: 1 });
    assert_eq!(classify(719, 719), Region::BoardSquare { rank: 7, file: 7 });
    assert_eq!(classify(405, 135), Region::BoardSquare { rank: 1, file: 4 });
}

#[test]
fn board_boundary_belongs_to_higher_cell() {
    // The top-left corner of cell (1,0) is the point (0, 90): the boundary
    // resolves downward, to the higher-indexed cell.
    assert_eq!(classify(0, 90), Region::BoardSquare { rank: 1, file: 0 });
    assert_ne!(classify(0, 90), Region::BoardSquare { rank: 0, file: 0 });
}

#[test]
fn board_edge_is_outside() {
    assert_eq!(classify(720, 100), Region::Outside);
    assert_eq!(classify(100, 720), Region::Outside);
    assert_eq!(classify(-1, 100), Region::Outside);
    assert_eq!(classify(100, -1), Region::Outside);
}

#[test]
fn promotion_slots() {
    assert_eq!(classify(800, 100), Region::PromotionSlot { slot: 0 });
    assert_eq!(classify(890, 100), Region::PromotionSlot { slot: 1 });
    assert_eq!(classify(800, 200), Region::PromotionSlot { slot: 2 });
    assert_eq!(classify(890, 200), Region::PromotionSlot { slot: 3 });
    // Edges are exclusive on every side.
    assert_eq!(classify(765, 100), Region::Outside);
    assert_eq!(classify(945, 100), Region::Outside);
    assert_eq!(classify(800, 90), Region::Outside);
    assert_eq!(classify(800, 270), Region::Outside);
}

#[test]
fn history_entries_column_major() {
    // Left column, top to bottom: indices 0..12.
    assert_eq!(classify(800, 316), Region::HistoryEntry { index: 0 });
    assert_eq!(classify(800, 346), Region::HistoryEntry { index: 1 });
    assert_eq!(classify(800, 674), Region::HistoryEntry { index: 11 });
    // Right column: indices 12..24.
    assert_eq!(classify(860, 316), Region::HistoryEntry { index: 12 });
    assert_eq!(classify(860, 674), Region::HistoryEntry { index: 23 });
}

#[test]
fn history_edges_are_outside() {
    assert_eq!(classify(795, 400), Region::Outside);
    assert_eq!(classify(915, 400), Region::Outside);
    assert_eq!(classify(800, 315), Region::Outside);
    assert_eq!(classify(800, 675), Region::Outside);
}

#[test]
fn far_points_are_outside() {
    assert_eq!(classify(10_000, 10_000), Region::Outside);
    assert_eq!(classify(-10_000, -10_000), Region::Outside);
    assert_eq!(classify(i32::MAX, i32::MAX), Region::Outside);
    assert_eq!(classify(i32::MIN, i32::MIN), Region::Outside);
    // The gap between the board and the side panel maps nowhere.
    assert_eq!(classify(740, 360), Region::Outside);
}
