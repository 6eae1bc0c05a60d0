//! A one-shot future whose value travels over an inter-process channel.
//!
//! [`IpcFutureData`] is the producer's capability to complete the future
//! once; [`IpcFuture`] is the consumer's state machine, polled without
//! blocking until the value has arrived and then taken out exactly once.
pub mod future;
pub mod lemmas;
pub mod payload;
mod transport;

pub use future::{IpcFuture, IpcFutureData};
pub use payload::Payload;
pub use ipc_channel::IpcError;
