//! Input-driven controller for a two-player chess front-end.
//!
//! The crate turns raw pointer input into game actions: it classifies screen
//! points into logical regions, runs the selection/highlight state machine,
//! tracks the promotion-piece choice, and manages a snapshot-based history log
//! with a live/viewing mode toggle. Chess rules themselves (legal moves, move
//! application, position snapshots) belong to an external rule engine; the
//! surrounding program feeds the engine's answers in as plain values and
//! carries the commands returned here back to the engine.

pub mod controller;
pub mod geometry;
pub mod laws;
pub mod notation;
pub mod pieces;

pub use controller::AppState;
pub use controller::EngineCall;
pub use geometry::Region;
pub use geometry::classify;
pub use notation::move_to_string;
pub use pieces::Colour;
pub use pieces::Piece;
pub use pieces::PromotionChoice;
pub use pieces::get_colour;
pub use pieces::sprite_path;
