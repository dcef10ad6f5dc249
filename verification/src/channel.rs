//! The capability that an operation needs of its channel.

use vstd::prelude::*;

verus! {

/// The channel's answer to an offered item.
#[derive(Debug, PartialEq, Eq)]
pub enum Submission<T> {
    /// The channel has taken the item.
    Accepted,
    /// The channel has no room now, and hands the item back.
    Pending(T),
}

/// The channel's answer to a request to flush.
#[derive(Clone, Copy, Debug, PartialEq, Eq)]
pub enum Drain {
    /// Everything accepted so far has reached its destination.
    Ready,
    /// The channel has not finished flushing.
    Pending,
}

/// A destination that takes items one at a time and may push back.
///
/// Nothing is assumed of an implementation. Each method answers to a relation
/// that the implementation states itself: what the call can leave of the
/// channel, and with which answer. An operation's turn is stated through
/// these relations, whatever they are; an implementation that says nothing
/// of itself leaves them `true`.
pub trait Channel: Sized {
    /// What the channel takes.
    type Item;

    /// How the channel fails.
    type Error;

    /// Whether an offer of `item` to the channel `before` can leave the
    /// channel `after` and give `answer`.
    open spec fn submit_yields(
        before: Self,
        item: Self::Item,
        after: Self,
        answer: Result<Submission<Self::Item>, Self::Error>,
    ) -> bool {
        true
    }

    /// Whether a flush of the channel `before` can leave the channel `after`
    /// and give `answer`.
    open spec fn flush_yields(
        before: Self,
        after: Self,
        answer: Result<Drain, Self::Error>,
    ) -> bool {
        true
    }

    /// Offers one item to the channel.
    fn try_submit(&mut self, item: Self::Item) -> (answer: Result<
        Submission<Self::Item>,
        Self::Error,
    >)
        ensures
            Self::submit_yields(*old(self), item, *final(self), answer),
    ;

    /// Asks the channel to hand on what it has buffered.
    fn try_flush(&mut self) -> (answer: Result<Drain, Self::Error>)
        ensures
            Self::flush_yields(*old(self), *final(self), answer),
    ;
}

} // verus!
