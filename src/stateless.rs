//! Checks on a single message that read no state.

pub mod channel_open_init;
pub mod channel_open_try;
