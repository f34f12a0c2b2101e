//! The records that the platform persists.

pub mod global_state;
pub mod streamer;

pub use self::global_state::GlobalState;
pub use self::streamer::Streamer;
