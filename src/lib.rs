//! Polling over many channels at once.
//!
//! Each channel created by [`channel`] carries an identifier. Binding its
//! receiving half to a [`Poll`] group makes every later send also push that
//! identifier into the group's readiness queue, so that one waiter learns
//! which channel has data.
pub mod channel;
pub mod error;
pub mod ident;
pub mod poll;
mod queue;

pub use channel::{channel, Link, Receiver, Sender};
pub use error::{RecvError, RecvTimeoutError, SendError, TryRecvError};
pub use ident::{ChannelId, IdPool, TIMEOUT};
pub use poll::{Poll, Pollable, Signal};
