//! The operation: one item sent into a channel, then the channel flushed.

use vstd::prelude::*;
use crate::channel::{Channel, Drain, Submission};
use crate::stage::{Action, Phase, Progress, Report, SendError, Stage};

verus! {

/// An item on its way into a channel.
///
/// The operation owns the channel from [`new`] until a turn reports
/// [`Progress::Ready`], which hands it back.
#[derive(Debug)]
#[must_use]
pub struct Send<S, T> {
    stage: Stage<S, T>,
}

impl<S, T> View for Send<S, T> {
    type V = Stage<S, T>;

    closed spec fn view(&self) -> Stage<S, T> {
        self.stage
    }
}

/// An operation that will send `item` into `sink`.
pub fn new<S, T>(sink: S, item: T) -> (op: Send<S, T>)
    ensures
        op@ == (Stage::Submitting { channel: sink, item }),
{
    Send { stage: Stage::Submitting { channel: sink, item } }
}

impl<S, T> Send<S, T> {
    /// The channel, unless it has been handed back.
    pub fn get_ref(&self) -> (sink: Option<&S>)
        ensures
            match self@.channel() {
                Some(channel) => sink is Some && *sink->0 == channel,
                None => sink is None,
            },
    {
        match &self.stage {
            Stage::Submitting { channel, .. } => Some(channel),
            Stage::Offered { channel } => Some(channel),
            Stage::Flushing { channel } => Some(channel),
            Stage::Completed => None,
            Stage::Failed { channel } => Some(channel),
        }
    }

    /// The channel, open to change, unless it has been handed back. Whatever
    /// the borrower does to it, the operation stays in its stage.
    pub fn get_mut(&mut self) -> (sink: Option<&mut S>)
        ensures
            match old(self)@.channel() {
                Some(channel) => sink is Some && *sink->0 == channel && final(self)@ == old(
                    self,
                )@.with_channel(*final(sink->0)),
                None => sink is None && final(self)@ == old(self)@,
            },
    {
        match &mut self.stage {
            Stage::Submitting { channel, .. } => Some(channel),
            Stage::Offered { channel } => Some(channel),
            Stage::Flushing { channel } => Some(channel),
            Stage::Completed => None,
            Stage::Failed { channel } => Some(channel),
        }
    }

    /// The channel of an operation that still holds it.
    fn sink_mut(&mut self) -> (sink: &mut S)
        requires
            old(self)@.channel() is Some,
        ensures
            *sink == old(self)@.channel()->0,
            final(self)@ == old(self)@.with_channel(*final(sink)),
    {
        self.get_mut().unwrap()
    }

    /// Starts a turn: says which channel call is due, and on
    /// [`Action::Submit`] gives up the item to be offered.
    ///
    /// The caller makes the call on the channel and reports the answer: to
    /// [`Send::submitted`] after an offer, to [`Send::flushed`] after a flush.
    pub fn begin(&mut self) -> (action: Action<T>)
        ensures
            action == old(self)@.due(),
            final(self)@ == old(self)@.begun(),
    {
        let mut stage = Stage::Completed;
        core::mem::swap(&mut self.stage, &mut stage);
        match stage {
            Stage::Submitting { channel, item } => {
                self.stage = Stage::Offered { channel };
                Action::Submit(item)
            },
            Stage::Flushing { channel } => {
                self.stage = Stage::Flushing { channel };
                Action::Flush
            },
            other => {
                self.stage = other;
                Action::Halt
            },
        }
    }

    /// Takes the channel's answer to the offer that [`Send::begin`] asked for.
    ///
    /// An accepted item leaves the operation flushing, and the turn goes on
    /// (`None`). An item handed back is kept for the next turn, which is
    /// reported as pending. A failure leaves the operation defunct. Where no
    /// offer is out, nothing changes and the answer is refused.
    pub fn submitted<E>(&mut self, answer: Result<Submission<T>, E>) -> (report: Option<
        Report<S, E>,
    >)
        ensures
            final(self)@ == old(self)@.on_submit(answer),
            report == old(self)@.submit_report(answer),
    {
        let mut stage = Stage::Completed;
        core::mem::swap(&mut self.stage, &mut stage);
        match stage {
            Stage::Offered { channel } => match answer {
                Ok(Submission::Accepted) => {
                    self.stage = Stage::Flushing { channel };
                    None
                },
                Ok(Submission::Pending(item)) => {
                    self.stage = Stage::Submitting { channel, item };
                    Some(Ok(Progress::Pending))
                },
                Err(e) => {
                    self.stage = Stage::Failed { channel };
                    Some(Err(SendError::Channel(e)))
                },
            },
            other => {
                self.stage = other;
                Some(Err(SendError::IllegalState))
            },
        }
    }

    /// Takes the channel's answer to a flush and ends the turn.
    ///
    /// A finished flush completes the operation and hands the channel back.
    /// An unfinished one is reported as pending. A failure leaves the
    /// operation defunct. Where the operation is not flushing, nothing changes
    /// and the answer is refused.
    pub fn flushed<E>(&mut self, answer: Result<Drain, E>) -> (report: Report<S, E>)
        ensures
            final(self)@ == old(self)@.on_flush(answer),
            report == old(self)@.flush_report(answer),
    {
        let mut stage = Stage::Completed;
        core::mem::swap(&mut self.stage, &mut stage);
        match stage {
            Stage::Flushing { channel } => match answer {
                Ok(Drain::Ready) => Ok(Progress::Ready(channel)),
                Ok(Drain::Pending) => {
                    self.stage = Stage::Flushing { channel };
                    Ok(Progress::Pending)
                },
                Err(e) => {
                    self.stage = Stage::Failed { channel };
                    Err(SendError::Channel(e))
                },
            },
            other => {
                self.stage = other;
                Err(SendError::IllegalState)
            },
        }
    }

    /// Where the operation stands.
    pub fn phase(&self) -> (phase: Phase)
        ensures
            phase == self@.phase(),
    {
        match &self.stage {
            Stage::Submitting { .. } => Phase::Submitting,
            Stage::Offered { .. } => Phase::Offered,
            Stage::Flushing { .. } => Phase::Flushing,
            Stage::Completed => Phase::Completed,
            Stage::Failed { .. } => Phase::Failed,
        }
    }
}

impl<S: Channel> Send<S, S::Item> {
    /// One turn: offers the item if it still waits, and once the channel has
    /// it, flushes the channel.
    ///
    /// The item is offered on every turn until the channel accepts it, and
    /// never again after that. The turn reports `Ready` with the channel when
    /// the flush finishes, `Pending` when the channel pushed back on the offer
    /// or on the flush, and the channel's error when either call failed. An
    /// operation that has completed or failed, or whose item is out with a
    /// driver, refuses the turn and makes no call on the channel.
    pub fn poll(&mut self) -> (report: Report<S, S::Error>)
        ensures
            old(self)@.polls_to(final(self)@, report),
    {
        match self.begin() {
            Action::Submit(item) => {
                let answer = self.sink_mut().try_submit(item);
                match self.submitted(answer) {
                    Some(report) => report,
                    None => self.flush(),
                }
            },
            Action::Flush => self.flush(),
            Action::Halt => Err(SendError::IllegalState),
        }
    }

    /// The flushing half of a turn.
    fn flush(&mut self) -> (report: Report<S, S::Error>)
        requires
            old(self)@ is Flushing,
        ensures
            old(self)@.flushes_to(final(self)@, report),
    {
        let answer = self.sink_mut().try_flush();
        self.flushed(answer)
    }
}

} // verus!
