//! What holds of every operation.
//!
//! The first laws speak of one turn of `poll` on any channel, through the
//! relations that the channel states of its own calls. The others speak of
//! whole runs against a scripted channel.

use vstd::prelude::*;
use crate::channel::{Channel, Drain, Submission};
use crate::script::{Run, Script};
use crate::stage::{Progress, Report, SendError, Stage};

verus! {

/// What a turn of `poll` reports tells where the operation stood and where
/// it stands now: the channel comes back only as the operation completes,
/// a pending turn leaves it live, an error of the channel leaves it failed,
/// and a refused turn leaves it as it was.
pub proof fn law_report_tells_the_stage<S: Channel>(
    before: Stage<S, S::Item>,
    next: Stage<S, S::Item>,
    report: Report<S, S::Error>,
)
    requires
        before.polls_to(next, report),
    ensures
        match report {
            Ok(Progress::Ready(_)) => before.can_advance() && next is Completed,
            Ok(Progress::Pending) => (before is Submitting && (next is Submitting || next
                is Flushing)) || (before is Flushing && next is Flushing),
            Err(SendError::Channel(_)) => before.can_advance() && next is Failed,
            Err(SendError::IllegalState) => !before.can_advance() && next == before,
        },
{
}

/// On a channel that always accepts and always finishes its flush, the first
/// turn completes the operation: it reports the channel, as one offer of the
/// item and one flush have left it.
pub proof fn law_ready_channel_completes_at_once<S: Channel>(
    channel: S,
    item: S::Item,
    next: Stage<S, S::Item>,
    report: Report<S, S::Error>,
)
    requires
        (Stage::Submitting { channel, item }).polls_to(next, report),
        forall|c: S, i: S::Item, left: S, answer: Result<Submission<S::Item>, S::Error>| #[trigger]
            S::submit_yields(c, i, left, answer) ==> answer == Ok::<
                Submission<S::Item>,
                S::Error,
            >(Submission::Accepted),
        forall|c: S, left: S, answer: Result<Drain, S::Error>| #[trigger]
            S::flush_yields(c, left, answer) ==> answer == Ok::<Drain, S::Error>(Drain::Ready),
    ensures
        next is Completed,
        report matches Ok(Progress::Ready(back)) && exists|mid: S|
            {
                &&& #[trigger] S::submit_yields(channel, item, mid, Ok(Submission::Accepted))
                &&& S::flush_yields(mid, back, Ok(Drain::Ready))
            },
{
}

/// On a channel that pushes back on every offer and hands the item back as
/// it came, a turn reports pending without a flush, and the very same item
/// waits to be offered on the next turn.
pub proof fn law_refused_item_waits_unchanged<S: Channel>(
    channel: S,
    item: S::Item,
    next: Stage<S, S::Item>,
    report: Report<S, S::Error>,
)
    requires
        (Stage::Submitting { channel, item }).polls_to(next, report),
        forall|c: S, i: S::Item, left: S, answer: Result<Submission<S::Item>, S::Error>| #[trigger]
            S::submit_yields(c, i, left, answer) ==> answer == Ok::<
                Submission<S::Item>,
                S::Error,
            >(Submission::Pending(i)),
    ensures
        report == Ok::<Progress<S>, SendError<S::Error>>(Progress::Pending),
        next matches Stage::Submitting { channel: left, item: kept } && kept == item
            && S::submit_yields(channel, item, left, Ok(Submission::Pending(item))),
{
}

/// Once the item has left the operation, no turn of `poll` brings it back or
/// offers anything: the turn is a flush of the channel, or is refused.
pub proof fn law_item_leaves_once<S: Channel>(
    before: Stage<S, S::Item>,
    next: Stage<S, S::Item>,
    report: Report<S, S::Error>,
)
    requires
        before.pending() is None,
        before.polls_to(next, report),
    ensures
        next.pending() is None,
        before.flushes_to(next, report),
{
}

/// After a turn of `poll` that reported the channel or an error, a further
/// turn reports [`SendError::IllegalState`] and leaves the operation as it
/// was, whatever the channel would have answered.
pub proof fn law_no_turn_after_the_end<S: Channel>(
    before: Stage<S, S::Item>,
    ended: Stage<S, S::Item>,
    report: Report<S, S::Error>,
    next: Stage<S, S::Item>,
    again: Report<S, S::Error>,
)
    requires
        before.polls_to(ended, report),
        report != Ok::<Progress<S>, SendError<S::Error>>(Progress::Pending),
        ended.polls_to(next, again),
    ensures
        next == ended,
        again == Err::<Progress<S>, SendError<S::Error>>(SendError::IllegalState),
{
}

/// The channel that a turn of `poll` reports as ready is the operation's own,
/// as the calls of that turn have left it: an offer of the item and a flush
/// where the item still waited, a flush alone where it did not.
pub proof fn law_poll_hands_back_its_channel<S: Channel>(
    before: Stage<S, S::Item>,
    next: Stage<S, S::Item>,
    back: S,
)
    requires
        before.polls_to(next, Ok(Progress::Ready(back))),
    ensures
        match before {
            Stage::Submitting { channel, item } => exists|mid: S|
                {
                    &&& #[trigger] S::submit_yields(channel, item, mid, Ok(Submission::Accepted))
                    &&& S::flush_yields(mid, back, Ok(Drain::Ready))
                },
            Stage::Flushing { channel } => S::flush_yields(channel, back, Ok(Drain::Ready)),
            _ => false,
        },
{
}

/// No step of an operation puts another channel in the place of its own:
/// the channel stays where it is until a finished flush hands that very
/// channel back.
pub proof fn law_steps_keep_the_channel<S, T, E>(
    stage: Stage<S, T>,
    submit: Result<Submission<T>, E>,
    flush: Result<Drain, E>,
)
    ensures
        stage.begun().channel() == stage.channel(),
        stage.on_submit(submit).channel() == stage.channel(),
        stage.on_flush(flush).channel() == stage.channel() || (stage.on_flush(flush)
            is Completed && stage.channel() is Some && stage.flush_report(flush) == Ok::<
            Progress<S>,
            SendError<E>,
        >(Progress::Ready(stage.channel()->0))),
        stage.flush_report(flush) matches Ok(Progress::Ready(channel)) ==> stage.channel()
            == Some(channel),
{
}

/// However long a scripted run lasts, it holds the channel it began with or
/// none.
proof fn lemma_run_keeps_the_channel<S, T, E>(run: Run<S, T>, script: Script<E>, n: nat)
    ensures
        run.after(script, n).stage.channel() is None || run.after(script, n).stage.channel()
            == run.stage.channel(),
    decreases n,
{
    if n > 0 {
        lemma_run_keeps_the_channel(run, script, (n - 1) as nat);
    }
}

/// Whatever the channel answers and whenever it finishes, the channel that a
/// turn reports as ready is the one that the operation was made with.
pub proof fn law_channel_comes_back<S, T, E>(channel: S, item: T, script: Script<E>, n: nat)
    ensures
        Run::start(channel, item).report_at(script, n) matches Ok(Progress::Ready(back))
            ==> back == channel,
{
    lemma_run_keeps_the_channel(Run::start(channel, item), script, n);
}

/// A turn of a scripted run is a turn that `poll` can make on any channel
/// that can give the script's next answers and stay as it is.
pub proof fn law_scripted_turn_is_a_poll<S: Channel>(
    run: Run<S, S::Item>,
    script: Script<S::Error>,
)
    requires
        run.stage matches Stage::Submitting { channel, item } ==> S::submit_yields(
            channel,
            item,
            channel,
            script.submit_answer(run.offered.len(), item),
        ),
        run.stage.channel() matches Some(channel) ==> S::flush_yields(
            channel,
            channel,
            script.flush_answer(run.flushes),
        ),
    ensures
        run.stage.polls_to(run.turn(script).0.stage, run.turn(script).1),
{
}

/// Where the channel accepts at once and flushes at once, the first turn
/// reports the channel as ready, and the item was offered exactly once.
pub proof fn law_immediate_path<S, T, E>(channel: S, item: T, script: Script<E>)
    requires
        (script.submit)(0) is Done,
        (script.flush)(0) is Done,
    ensures
        Run::start(channel, item).report_at(script, 0) == Ok::<Progress<S>, SendError<E>>(
            Progress::Ready(channel),
        ),
        Run::start(channel, item).after(script, 1).stage is Completed,
        Run::start(channel, item).after(script, 1).offered == seq![item],
        Run::start(channel, item).after(script, 1).flushes == 1,
{
    let start = Run::start(channel, item);
    reveal_with_fuel(Run::after, 2);
    assert(start.after(script, 1).offered =~= seq![item]);
}

/// Where the channel pushes back on the first offer and accepts the second,
/// the first turn reports pending and keeps the item as it was, and the
/// second turn offers that same item again, then goes on to flush.
pub proof fn law_submission_backpressure<S, T, E>(channel: S, item: T, script: Script<E>)
    requires
        (script.submit)(0) is Wait,
        (script.submit)(1) is Done,
    ensures
        Run::start(channel, item).report_at(script, 0) == Ok::<Progress<S>, SendError<E>>(
            Progress::Pending,
        ),
        Run::start(channel, item).after(script, 1) == (Run {
            stage: Stage::Submitting { channel, item },
            offered: seq![item],
            flushes: 0,
        }),
        Run::start(channel, item).after(script, 1).turn(script) == (Run {
            stage: Stage::Flushing { channel },
            offered: seq![item, item],
            flushes: 0,
        }).flush_turn(script),
{
    let start = Run::start(channel, item);
    reveal_with_fuel(Run::after, 2);
    assert(start.after(script, 1).offered =~= seq![item]);
    assert(seq![item].push(item) =~= seq![item, item]);
}

/// While the channel, having accepted the first offer, pushes back on its
/// flushes, the run stays flushing: after `k` turns it has offered once and
/// flushed `k` times, and each of those turns reported pending.
proof fn lemma_flushing_waits<S, T, E>(channel: S, item: T, script: Script<E>, n: nat, k: nat)
    requires
        (script.submit)(0) is Done,
        forall|i: nat| i < n ==> (#[trigger] (script.flush)(i)) is Wait,
        1 <= k <= n,
    ensures
        Run::start(channel, item).after(script, k) == (Run {
            stage: Stage::Flushing { channel },
            offered: seq![item],
            flushes: k,
        }),
        Run::start(channel, item).report_at(script, (k - 1) as nat) == Ok::<
            Progress<S>,
            SendError<E>,
        >(Progress::Pending),
    decreases k,
{
    let start = Run::start(channel, item);
    assert(Seq::<T>::empty().push(item) =~= seq![item]);
    if k == 1 {
        reveal_with_fuel(Run::after, 2);
        assert((script.flush)(0) is Wait);
    } else {
        lemma_flushing_waits(channel, item, script, n, (k - 1) as nat);
        assert((script.flush)((k - 1) as nat) is Wait);
    }
}

/// Where the channel accepts at once and pushes back on `n` flushes before it
/// finishes one, each of the first `n` turns reports pending and turn `n + 1`
/// reports the channel as ready. The item was offered once, in the first
/// turn; every turn flushed once.
pub proof fn law_flush_backpressure<S, T, E>(channel: S, item: T, script: Script<E>, n: nat)
    requires
        (script.submit)(0) is Done,
        forall|i: nat| i < n ==> (#[trigger] (script.flush)(i)) is Wait,
        (script.flush)(n) is Done,
    ensures
        forall|k: nat|
            k < n ==> #[trigger] Run::start(channel, item).report_at(script, k) == Ok::<
                Progress<S>,
                SendError<E>,
            >(Progress::Pending),
        Run::start(channel, item).report_at(script, n) == Ok::<Progress<S>, SendError<E>>(
            Progress::Ready(channel),
        ),
        forall|k: nat|
            1 <= k <= n + 1 ==> (#[trigger] Run::start(channel, item).after(script, k)).offered
                == seq![item],
        Run::start(channel, item).after(script, n + 1).stage is Completed,
        Run::start(channel, item).after(script, n + 1).flushes == n + 1,
{
    let start = Run::start(channel, item);
    assert(Seq::<T>::empty().push(item) =~= seq![item]);
    assert forall|k: nat| 1 <= k <= n implies (#[trigger] start.after(script, k)).offered
        == seq![item] by {
        lemma_flushing_waits(channel, item, script, n, k);
    }
    assert forall|k: nat| k < n implies #[trigger] start.report_at(script, k) == Ok::<
        Progress<S>,
        SendError<E>,
    >(Progress::Pending) by {
        lemma_flushing_waits(channel, item, script, n, k + 1);
    }
    if n == 0 {
        reveal_with_fuel(Run::after, 2);
    } else {
        lemma_flushing_waits(channel, item, script, n, n);
        assert(start.after(script, n + 1) == start.after(script, n).turn(script).0);
    }
}

/// Once a turn has reported the channel or an error, every later turn is
/// refused, changes nothing and makes no call on the channel.
pub proof fn law_terminal_report_ends_the_run<S, T, E>(run: Run<S, T>, script: Script<E>, n: nat)
    requires
        run.turn(script).1 != Ok::<Progress<S>, SendError<E>>(Progress::Pending),
    ensures
        run.turn(script).0.after(script, n) == run.turn(script).0,
        run.turn(script).0.report_at(script, n) == Err::<Progress<S>, SendError<E>>(
            SendError::IllegalState,
        ),
    decreases n,
{
    if n > 0 {
        law_terminal_report_ends_the_run(run, script, (n - 1) as nat);
    }
}

/// In a scripted run, once the item has left the operation no further offer
/// is made, however many turns follow.
pub proof fn law_no_offer_after_acceptance<S, T, E>(run: Run<S, T>, script: Script<E>, n: nat)
    requires
        run.stage.pending() is None,
    ensures
        run.after(script, n).offered == run.offered,
        run.after(script, n).stage.pending() is None,
    decreases n,
{
    if n > 0 {
        law_no_offer_after_acceptance(run, script, (n - 1) as nat);
    }
}

} // verus!
