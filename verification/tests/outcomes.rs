use interruptible::interruptible_stream_generic::stream_outcome_from_n_remaining;
use interruptible::{PollOutcome, StreamOutcome, StreamOutcomeNRemaining};

#[test]
fn poll_outcome_debug() {
    assert_eq!(
        "Interrupted(Some(1))",
        format!("{:?}", PollOutcome::Interrupted(Some(1)))
    );
}

#[test]
fn stream_outcome_debug() {
    assert_eq!(
        "InterruptDuringPoll(1)",
        format!("{:?}", StreamOutcome::InterruptDuringPoll(1))
    );
}

#[test]
fn stream_outcome_n_remaining_debug() {
    assert_eq!(
        "InterruptDuringPoll { value: 1, n_remaining: 2 }",
        format!(
            "{:?}",
            StreamOutcomeNRemaining::InterruptDuringPoll {
                value: 1,
                n_remaining: 2,
            }
        )
    );
}

#[test]
fn stream_outcome_from_n_remaining_drops_count() {
    assert_eq!(
        StreamOutcome::InterruptDuringPoll(7u32),
        stream_outcome_from_n_remaining(StreamOutcomeNRemaining::InterruptDuringPoll {
            value: 7u32,
            n_remaining: 3,
        })
    );
    assert_eq!(
        StreamOutcome::<u32>::InterruptBeforePoll,
        stream_outcome_from_n_remaining(StreamOutcomeNRemaining::InterruptBeforePoll)
    );
    assert_eq!(
        StreamOutcome::NoInterrupt(5u32),
        stream_outcome_from_n_remaining(StreamOutcomeNRemaining::NoInterrupt(5u32))
    );
}
