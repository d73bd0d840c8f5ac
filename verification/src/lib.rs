//! Driver core for addressable RGB LED strips: per-frame pixel colors are
//! generated into one half of a double buffer while the other half is being
//! transmitted, and the two halves are exchanged through a deferred,
//! flag-driven swap so that neither side ever observes a half-written frame.

pub mod brg;
pub mod channel_config;
pub mod consumer;
pub mod producer;
pub mod protocol;
pub mod read_write_buffer;

pub use crate::brg::BRG;
pub use crate::channel_config::ChannelConfig;
pub use crate::channel_config::DisplayType;
pub use crate::read_write_buffer::ReadWriteBuffer;
