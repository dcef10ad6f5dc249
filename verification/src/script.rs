//! Runs of an operation against a scripted channel.
//!
//! A scripted channel gives answers that are fixed in advance, call by call,
//! and hands an item that it does not accept back as it came. A run records
//! every call that the operation makes on it.

use vstd::prelude::*;
use crate::channel::{Drain, Submission};
use crate::stage::{Action, Report, SendError, Stage};

verus! {

/// A channel's answer, without what travels with it.
pub enum Reply<E> {
    /// The call went through.
    Done,
    /// The channel pushed back.
    Wait,
    /// The channel failed.
    Fail(E),
}

/// The answers of a scripted channel: to its offers and to its flushes, each
/// counted from zero.
pub struct Script<E> {
    pub submit: spec_fn(nat) -> Reply<E>,
    pub flush: spec_fn(nat) -> Reply<E>,
}

/// An operation between two turns, with the calls it has made so far.
pub struct Run<S, T> {
    /// Where the operation stands.
    pub stage: Stage<S, T>,
    /// The items handed to the channel, one for each offer, in order.
    pub offered: Seq<T>,
    /// How often the channel was asked to flush.
    pub flushes: nat,
}

impl<E> Script<E> {
    /// What the channel answers to its `k`-th offer, made with `item`.
    pub open spec fn submit_answer<T>(self, k: nat, item: T) -> Result<Submission<T>, E> {
        match (self.submit)(k) {
            Reply::Done => Ok(Submission::Accepted),
            Reply::Wait => Ok(Submission::Pending(item)),
            Reply::Fail(e) => Err(e),
        }
    }

    /// What the channel answers to its `k`-th flush.
    pub open spec fn flush_answer(self, k: nat) -> Result<Drain, E> {
        match (self.flush)(k) {
            Reply::Done => Ok(Drain::Ready),
            Reply::Wait => Ok(Drain::Pending),
            Reply::Fail(e) => Err(e),
        }
    }
}

impl<S, T> Run<S, T> {
    /// A new operation, before its first turn.
    pub open spec fn start(channel: S, item: T) -> Self {
        Run { stage: Stage::Submitting { channel, item }, offered: Seq::empty(), flushes: 0 }
    }

    /// The flushing half of a turn: one flush, and the report on its answer.
    pub open spec fn flush_turn<E>(self, script: Script<E>) -> (Self, Report<S, E>) {
        let answer = script.flush_answer(self.flushes);
        (
            Run {
                stage: self.stage.on_flush(answer),
                offered: self.offered,
                flushes: self.flushes + 1,
            },
            self.stage.flush_report(answer),
        )
    }

    /// One turn: the run after it, and what it reports.
    pub open spec fn turn<E>(self, script: Script<E>) -> (Self, Report<S, E>) {
        match self.stage.due() {
            Action::Submit(item) => {
                let answer = script.submit_answer(self.offered.len(), item);
                let offered = Run {
                    stage: self.stage.begun().on_submit(answer),
                    offered: self.offered.push(item),
                    flushes: self.flushes,
                };
                match self.stage.begun().submit_report(answer) {
                    Some(report) => (offered, report),
                    None => offered.flush_turn(script),
                }
            },
            Action::Flush => self.flush_turn(script),
            Action::Halt => (self, Err(SendError::IllegalState)),
        }
    }

    /// The run after `n` turns.
    pub open spec fn after<E>(self, script: Script<E>, n: nat) -> Self
        decreases n,
    {
        if n == 0 {
            self
        } else {
            self.after(script, (n - 1) as nat).turn(script).0
        }
    }

    /// What the turn after the first `n` turns reports.
    pub open spec fn report_at<E>(self, script: Script<E>, n: nat) -> Report<S, E> {
        self.after(script, n).turn(script).1
    }
}

} // verus!
