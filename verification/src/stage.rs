//! The states of an operation and the moves between them.

use vstd::prelude::*;
use crate::channel::{Channel, Drain, Submission};

verus! {

/// Where an operation stands, with what it owns there.
#[derive(Debug)]
pub enum Stage<S, T> {
    /// The item waits to be offered to the channel.
    Submitting { channel: S, item: T },
    /// The item is out with a driver, and the channel's answer is awaited.
    Offered { channel: S },
    /// The channel has the item and is being flushed.
    Flushing { channel: S },
    /// The channel has been handed back.
    Completed,
    /// The channel failed. It stays with the operation, which no longer
    /// touches it.
    Failed { channel: S },
}

/// A stage without what is owned in it.
#[derive(Clone, Copy, Debug, PartialEq, Eq, Structural)]
pub enum Phase {
    /// The item waits to be offered.
    Submitting,
    /// The item is out with a driver.
    Offered,
    /// The channel has the item and is being flushed.
    Flushing,
    /// The channel has been handed back.
    Completed,
    /// The channel failed.
    Failed,
}

/// What a turn reports to the scheduler when nothing failed.
#[derive(Debug, PartialEq, Eq)]
pub enum Progress<S> {
    /// The item is sent and flushed: here is the channel.
    Ready(S),
    /// The channel pushed back: poll again later.
    Pending,
}

/// Why a turn failed.
#[derive(Debug, PartialEq, Eq)]
pub enum SendError<E> {
    /// The channel failed. The operation is defunct.
    Channel(E),
    /// The operation was advanced where no advance is due: after it completed
    /// or failed, or out of turn.
    IllegalState,
}

/// The channel call that is due at the start of a turn.
#[derive(Debug, PartialEq, Eq)]
pub enum Action<T> {
    /// Offer this item to the channel, then report the answer.
    Submit(T),
    /// Flush the channel, then report the answer.
    Flush,
    /// No call is due: the operation may not be advanced.
    Halt,
}

/// What a turn reports.
pub type Report<S, E> = Result<Progress<S>, SendError<E>>;

impl<S, T> Stage<S, T> {
    /// The stage's tag.
    pub open spec fn phase(self) -> Phase {
        match self {
            Stage::Submitting { .. } => Phase::Submitting,
            Stage::Offered { .. } => Phase::Offered,
            Stage::Flushing { .. } => Phase::Flushing,
            Stage::Completed => Phase::Completed,
            Stage::Failed { .. } => Phase::Failed,
        }
    }

    /// The channel, as long as the operation holds it.
    pub open spec fn channel(self) -> Option<S> {
        match self {
            Stage::Submitting { channel, .. } => Some(channel),
            Stage::Offered { channel } => Some(channel),
            Stage::Flushing { channel } => Some(channel),
            Stage::Completed => None,
            Stage::Failed { channel } => Some(channel),
        }
    }

    /// The item, as long as it waits in the operation.
    pub open spec fn pending(self) -> Option<T> {
        match self {
            Stage::Submitting { item, .. } => Some(item),
            _ => None,
        }
    }

    /// The same stage around another value of the channel.
    pub open spec fn with_channel(self, channel: S) -> Self {
        match self {
            Stage::Submitting { item, .. } => Stage::Submitting { channel, item },
            Stage::Offered { .. } => Stage::Offered { channel },
            Stage::Flushing { .. } => Stage::Flushing { channel },
            Stage::Completed => Stage::Completed,
            Stage::Failed { .. } => Stage::Failed { channel },
        }
    }

    /// A turn can start here.
    pub open spec fn can_advance(self) -> bool {
        self is Submitting || self is Flushing
    }

    /// The call that is due when a turn starts here.
    pub open spec fn due(self) -> Action<T> {
        match self {
            Stage::Submitting { item, .. } => Action::Submit(item),
            Stage::Flushing { .. } => Action::Flush,
            _ => Action::Halt,
        }
    }

    /// The stage once a turn has started here: the item, if it waited, is out.
    pub open spec fn begun(self) -> Self {
        match self {
            Stage::Submitting { channel, .. } => Stage::Offered { channel },
            _ => self,
        }
    }

    /// The stage once the channel has answered the offer made here.
    pub open spec fn on_submit<E>(self, answer: Result<Submission<T>, E>) -> Self {
        match self {
            Stage::Offered { channel } => match answer {
                Ok(Submission::Accepted) => Stage::Flushing { channel },
                Ok(Submission::Pending(item)) => Stage::Submitting { channel, item },
                Err(_) => Stage::Failed { channel },
            },
            _ => self,
        }
    }

    /// The report that ends the turn after that answer; `None` where the turn
    /// goes on to flush.
    pub open spec fn submit_report<E>(self, answer: Result<Submission<T>, E>) -> Option<
        Report<S, E>,
    > {
        match self {
            Stage::Offered { .. } => match answer {
                Ok(Submission::Accepted) => None,
                Ok(Submission::Pending(_)) => Some(Ok(Progress::Pending)),
                Err(e) => Some(Err(SendError::Channel(e))),
            },
            _ => Some(Err(SendError::IllegalState)),
        }
    }

    /// The stage once the channel has answered the flush made here.
    pub open spec fn on_flush<E>(self, answer: Result<Drain, E>) -> Self {
        match self {
            Stage::Flushing { channel } => match answer {
                Ok(Drain::Ready) => Stage::Completed,
                Ok(Drain::Pending) => self,
                Err(_) => Stage::Failed { channel },
            },
            _ => self,
        }
    }

    /// The report that ends the turn after that answer.
    pub open spec fn flush_report<E>(self, answer: Result<Drain, E>) -> Report<S, E> {
        match self {
            Stage::Flushing { channel } => match answer {
                Ok(Drain::Ready) => Ok(Progress::Ready(channel)),
                Ok(Drain::Pending) => Ok(Progress::Pending),
                Err(e) => Err(SendError::Channel(e)),
            },
            _ => Err(SendError::IllegalState),
        }
    }
}

impl<S: Channel> Stage<S, S::Item> {
    /// Whether the flushing half of a turn that starts here can end in `next`
    /// with `report`: the channel is flushed once, and the answer decides.
    pub open spec fn flushes_to(self, next: Self, report: Report<S, S::Error>) -> bool {
        match self {
            Stage::Flushing { channel } => exists|left: S, answer: Result<Drain, S::Error>|
                {
                    &&& #[trigger] S::flush_yields(channel, left, answer)
                    &&& next == (Stage::<S, S::Item>::Flushing { channel: left }).on_flush(answer)
                    &&& report == (Stage::<S, S::Item>::Flushing { channel: left }).flush_report(
                        answer,
                    )
                },
            _ => next == self && report == Err::<Progress<S>, SendError<S::Error>>(
                SendError::IllegalState,
            ),
        }
    }

    /// Whether a turn of `poll` that starts here can end in `next` with
    /// `report`.
    ///
    /// Where the item waits, it is offered to the channel as the operation
    /// holds it, and the answer decides; only on acceptance does the turn go
    /// on to flush the channel as the offer left it. Where the operation is
    /// flushing, the turn is its flushing half. Elsewhere the turn is refused
    /// and changes nothing.
    pub open spec fn polls_to(self, next: Self, report: Report<S, S::Error>) -> bool {
        match self {
            Stage::Submitting { channel, item } => exists|
                left: S,
                answer: Result<Submission<S::Item>, S::Error>,
            |
                {
                    &&& #[trigger] S::submit_yields(channel, item, left, answer)
                    &&& match (Stage::<S, S::Item>::Offered { channel: left }).submit_report(
                        answer,
                    ) {
                        Some(ended) => next == (Stage::<S, S::Item>::Offered {
                            channel: left,
                        }).on_submit(answer) && report == ended,
                        None => (Stage::<S, S::Item>::Offered { channel: left }).on_submit(
                            answer,
                        ).flushes_to(next, report),
                    }
                },
            _ => self.flushes_to(next, report),
        }
    }
}

} // verus!
