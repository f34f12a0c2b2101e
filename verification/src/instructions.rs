//! The operations of the platform, one module each.

pub mod create_streamer;
pub mod global_state;
pub mod tip_streamer;
pub mod withdraw;
pub mod withdraw_admin;

pub use self::create_streamer::{CreateStreamer, CreateStreamerBumps, RegistrationPolicy};
pub use self::global_state::{InitializeGlobalState, InitializeGlobalStateBumps, InitializeParams};
pub use self::tip_streamer::{TipParams, TipStreamer};
pub use self::withdraw::{platform_fee, Withdraw, WithdrawParams, WithdrawTransfers};
pub use self::withdraw_admin::{AdminWithdrawParams, AdminWithdrawal};
