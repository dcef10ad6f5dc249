use sink_send::{new, Action, Channel, Drain, Phase, Progress, Send, SendError, Submission};

/// A channel on which no call may be made.
#[derive(Debug, PartialEq, Eq)]
struct Untouched(u8);

impl Channel for Untouched {
    type Item = u32;
    type Error = &'static str;

    fn try_submit(&mut self, _item: u32) -> Result<Submission<u32>, &'static str> {
        panic!("no offer is expected")
    }

    fn try_flush(&mut self) -> Result<Drain, &'static str> {
        panic!("no flush is expected")
    }
}

fn flushing(id: u8) -> Send<Untouched, u32> {
    let mut op = new(Untouched(id), 5);
    assert_eq!(op.begin(), Action::Submit(5));
    assert_eq!(op.submitted::<&str>(Ok(Submission::Accepted)), None);
    op
}

#[test]
fn begin_gives_up_the_item_to_offer() {
    let mut op: Send<Untouched, u32> = new(Untouched(1), 5);
    assert_eq!(op.phase(), Phase::Submitting);
    assert_eq!(op.begin(), Action::Submit(5));
    assert_eq!(op.phase(), Phase::Offered);
    assert_eq!(op.get_ref(), Some(&Untouched(1)));
}

#[test]
fn begin_while_an_offer_is_out_halts() {
    let mut op: Send<Untouched, u32> = new(Untouched(1), 5);
    assert_eq!(op.begin(), Action::Submit(5));
    assert_eq!(op.begin(), Action::Halt);
    assert_eq!(op.phase(), Phase::Offered);
    assert_eq!(op.poll(), Err(SendError::IllegalState));
    assert_eq!(op.phase(), Phase::Offered);
}

#[test]
fn accepted_item_leaves_the_operation_flushing() {
    let mut op: Send<Untouched, u32> = new(Untouched(1), 5);
    assert_eq!(op.begin(), Action::Submit(5));
    assert_eq!(op.submitted::<&str>(Ok(Submission::Accepted)), None);
    assert_eq!(op.phase(), Phase::Flushing);
    assert_eq!(op.begin(), Action::Flush);
    assert_eq!(op.phase(), Phase::Flushing);
}

#[test]
fn item_handed_back_waits_for_the_next_turn() {
    let mut op: Send<Untouched, u32> = new(Untouched(1), 5);
    assert_eq!(op.begin(), Action::Submit(5));
    assert_eq!(op.submitted::<&str>(Ok(Submission::Pending(5))), Some(Ok(Progress::Pending)));
    assert_eq!(op.phase(), Phase::Submitting);
    assert_eq!(op.begin(), Action::Submit(5));
}

#[test]
fn failed_offer_leaves_the_operation_defunct() {
    let mut op: Send<Untouched, u32> = new(Untouched(1), 5);
    assert_eq!(op.begin(), Action::Submit(5));
    assert_eq!(op.submitted::<&str>(Err("full")), Some(Err(SendError::Channel("full"))));
    assert_eq!(op.phase(), Phase::Failed);
    assert_eq!(op.begin(), Action::Halt);
    assert_eq!(op.get_ref(), Some(&Untouched(1)));
    assert_eq!(op.poll(), Err(SendError::IllegalState));
}

#[test]
fn answer_to_no_offer_is_refused() {
    let mut op: Send<Untouched, u32> = new(Untouched(1), 5);
    assert_eq!(op.submitted::<&str>(Ok(Submission::Accepted)), Some(Err(SendError::IllegalState)));
    assert_eq!(op.phase(), Phase::Submitting);
    assert_eq!(op.begin(), Action::Submit(5));

    let mut op = flushing(2);
    assert_eq!(op.submitted::<&str>(Ok(Submission::Pending(6))), Some(Err(SendError::IllegalState)));
    assert_eq!(op.phase(), Phase::Flushing);
    assert_eq!(op.begin(), Action::Flush);
}

#[test]
fn finished_flush_hands_the_channel_back() {
    let mut op = flushing(3);
    assert_eq!(op.flushed::<&str>(Ok(Drain::Ready)), Ok(Progress::Ready(Untouched(3))));
    assert_eq!(op.phase(), Phase::Completed);
    assert_eq!(op.get_ref(), None);
    assert_eq!(op.get_mut(), None);
    assert_eq!(op.begin(), Action::Halt);
    assert_eq!(op.flushed::<&str>(Ok(Drain::Ready)), Err(SendError::IllegalState));
    assert_eq!(op.submitted::<&str>(Ok(Submission::Accepted)), Some(Err(SendError::IllegalState)));
    assert_eq!(op.phase(), Phase::Completed);
}

#[test]
fn unfinished_flush_stays_flushing() {
    let mut op = flushing(3);
    assert_eq!(op.flushed::<&str>(Ok(Drain::Pending)), Ok(Progress::Pending));
    assert_eq!(op.phase(), Phase::Flushing);
    assert_eq!(op.get_ref(), Some(&Untouched(3)));
    assert_eq!(op.flushed::<&str>(Ok(Drain::Ready)), Ok(Progress::Ready(Untouched(3))));
}

#[test]
fn failed_flush_leaves_the_operation_defunct() {
    let mut op = flushing(3);
    assert_eq!(op.flushed::<&str>(Err("broken")), Err(SendError::Channel("broken")));
    assert_eq!(op.phase(), Phase::Failed);
    assert_eq!(op.get_ref(), Some(&Untouched(3)));
    assert_eq!(op.flushed::<&str>(Ok(Drain::Ready)), Err(SendError::IllegalState));
    assert_eq!(op.phase(), Phase::Failed);
}

#[test]
fn flush_answer_before_acceptance_is_refused() {
    let mut op: Send<Untouched, u32> = new(Untouched(1), 5);
    assert_eq!(op.flushed::<&str>(Ok(Drain::Ready)), Err(SendError::IllegalState));
    assert_eq!(op.phase(), Phase::Submitting);
    assert_eq!(op.begin(), Action::Submit(5));
    assert_eq!(op.flushed::<&str>(Ok(Drain::Ready)), Err(SendError::IllegalState));
    assert_eq!(op.phase(), Phase::Offered);
}

#[test]
fn get_mut_changes_the_channel_only() {
    let mut op = flushing(3);
    *op.get_mut().expect("the channel is still held") = Untouched(4);
    assert_eq!(op.phase(), Phase::Flushing);
    assert_eq!(op.flushed::<&str>(Ok(Drain::Ready)), Ok(Progress::Ready(Untouched(4))));
}
