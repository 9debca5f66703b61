//! Verified core of the game's save, settings and stage logic.
//!
//! The library holds the decisions and data transformations of the game
//! backend: the settings keys and paths, the line-history model with its
//! chain reconstruction and incremental synchronisation plan, the runtime
//! game status with its stage management and persistence snapshot, and the
//! scene, save-list and voice-cache computations. Reading and writing files,
//! the database and the window system are left to the caller.

mod text;
pub mod lines;
pub mod save_repo;
pub mod read_back;
pub mod json;
pub mod clock;
pub mod game_status;
pub mod game;
pub mod saves;
pub mod tts_cache;
pub mod config;
pub mod keys;

pub use text::{int_decimal, nat_digits, push_decimal};
