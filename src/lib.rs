//! A turn-bounded move service for a grid snake game: the request model and
//! its validation, the fallback move policy, and the rules that turn what a
//! decision engine produced (or failed to produce) into the response.

pub mod model;
pub mod direction;
pub mod policy;
pub mod handler;
pub mod descriptor;
pub mod engine;

pub use descriptor::{info, Descriptor};
pub use direction::Direction;
pub use engine::cautious_move;
pub use handler::{
    handle_end, handle_move, handle_start, move_budget_ms, resolve_move, status_of, truncate_shout,
    EngineOutcome, MoveResponse,
};
pub use model::{Battlesnake, Board, Coord, Game, GameState, MalformedRequest};
pub use policy::fallback_move;
