//! Send one item into a channel and wait until the channel has flushed.
//!
//! A [`Send`] owns a channel and one item. Each turn of [`Send::poll`] offers
//! the item until the channel accepts it, then flushes the channel, and on
//! completion hands the channel back. The decisions of a turn are also
//! available one by one ([`Send::begin`], [`Send::submitted`],
//! [`Send::flushed`]) to a driver that must make the channel calls itself.

pub mod channel;
pub mod laws;
pub mod script;
pub mod send;
pub mod stage;

pub use channel::{Channel, Drain, Submission};
pub use send::{new, Send};
pub use stage::{Action, Phase, Progress, SendError, Stage};
