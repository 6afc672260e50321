//! A turn-based economic board-game engine: a state machine that governs
//! turn order, dice movement, property purchase and auction, rent settlement,
//! monopoly-gated building, and random event cards. The engine only computes
//! state transitions and narration text; a host owns transport and storage.

pub mod board;
pub mod ext;
pub mod game;
pub mod io;
pub mod text;

pub use game::Game;
pub use game::Player;
pub use game::RollResult;
pub use game::Status;
pub use io::PoorOut;
pub use io::PoorResult;
pub use io::SerGame;
pub use io::SerPlayer;
