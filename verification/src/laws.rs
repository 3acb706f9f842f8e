//! Properties of the interruption state machines that span several polls.
use vstd::prelude::*;

use crate::interruptibility_state::{
    spec_asks_channel, spec_is_interrupted, spec_item_interrupt_poll,
    spec_item_interrupt_poll_reading, InterruptibilityStateView,
};
use crate::interruptible_stream::{
    spec_interrupt_check, spec_item_needs_counting, spec_poll_next_begin, spec_poll_next_ready,
    InterruptibleStreamView, PollNextStep,
};
use crate::{InterruptStrategy, PollOutcome};

verus! {

/// The state after `k` polls that each count an item, when the channel hands
/// over nothing new.
pub open spec fn spec_counted_polls(v: InterruptibilityStateView, k: nat) -> InterruptibilityStateView
    decreases k,
{
    if k == 0 {
        v
    } else {
        spec_item_interrupt_poll(spec_counted_polls(v, (k - 1) as nat), true, false).0
    }
}

/// `item_interrupt_poll` returns the signal exactly when the state is
/// interrupted after the poll.
pub proof fn law_poll_signal_iff_interrupted(
    v: InterruptibilityStateView,
    increment_item_count: bool,
    received_now: bool,
)
    requires
        v.wf(),
    ensures
        ({
            let (next, signal, _) = spec_item_interrupt_poll(v, increment_item_count, received_now);
            signal is Some == spec_is_interrupted(next)
        }),
{
}

/// Once a state is interrupted, it stays interrupted through any later
/// `item_interrupt_poll`.
pub proof fn law_interrupted_is_permanent(
    v: InterruptibilityStateView,
    increment_item_count: bool,
    received_now: bool,
)
    requires
        v.wf(),
        increment_item_count ==> v.poll_since_interrupt_count < u64::MAX,
        spec_is_interrupted(v),
    ensures
        spec_is_interrupted(spec_item_interrupt_poll(v, increment_item_count, received_now).0),
{
}

/// A state without interruption support, or that ignores interruptions, is
/// never interrupted, and no poll of it returns a signal.
pub proof fn law_ignored_never_interrupted(
    v: InterruptibilityStateView,
    increment_item_count: bool,
    received_now: bool,
)
    requires
        v.interruptibility is None || v.interruptibility == Some(
            InterruptStrategy::IgnoreInterruptions,
        ),
    ensures
        !spec_is_interrupted(v),
        spec_item_interrupt_poll(v, increment_item_count, received_now).1 is None,
        !spec_is_interrupted(spec_item_interrupt_poll(v, increment_item_count, received_now).0),
{
}

/// The activation function runs exactly on the poll that makes the state
/// interrupted, so it runs at most once: never on a poll of a state that is
/// already interrupted.
pub proof fn law_activation_runs_once(
    v: InterruptibilityStateView,
    increment_item_count: bool,
    received_now: bool,
)
    requires
        v.wf(),
        increment_item_count ==> v.poll_since_interrupt_count < u64::MAX,
    ensures
        ({
            let (next, _, activates) = spec_item_interrupt_poll(
                v,
                increment_item_count,
                received_now,
            );
            &&& activates == (v.fn_interrupt_activate is Some && !spec_is_interrupted(v)
                && spec_is_interrupted(next))
            &&& spec_is_interrupted(v) ==> !activates
        }),
{
}

/// The state after successive `item_interrupt_poll`s, where `polls[i]` is
/// `(increment_item_count, received_now)` of the `i`th.
pub open spec fn spec_item_interrupt_polls(
    v: InterruptibilityStateView,
    polls: Seq<(bool, bool)>,
) -> InterruptibilityStateView
    decreases polls.len(),
{
    if polls.len() == 0 {
        v
    } else {
        spec_item_interrupt_polls(
            spec_item_interrupt_poll(v, polls[0].0, polls[0].1).0,
            polls.drop_first(),
        )
    }
}

/// Whether the channel hands over a signal on any of `polls`.
pub open spec fn spec_any_received(polls: Seq<(bool, bool)>) -> bool
    decreases polls.len(),
{
    polls.len() > 0 && (polls[0].1 || spec_any_received(polls.drop_first()))
}

/// How many of `polls` count an item: those that ask to, once a signal has
/// been received (before them, when `received` holds, or on or before them).
pub open spec fn spec_polls_counted(received: bool, polls: Seq<(bool, bool)>) -> nat
    decreases polls.len(),
{
    if polls.len() == 0 {
        0
    } else {
        let received_now = received || polls[0].1;
        (if received_now && polls[0].0 {
            1nat
        } else {
            0nat
        }) + spec_polls_counted(received_now, polls.drop_first())
    }
}

/// At most every poll counts an item.
proof fn lemma_polls_counted_bound(received: bool, polls: Seq<(bool, bool)>)
    ensures
        spec_polls_counted(received, polls) <= polls.len(),
    decreases polls.len(),
{
    if polls.len() > 0 {
        lemma_polls_counted_bound(received || polls[0].1, polls.drop_first());
    }
}

/// Over any run of `item_interrupt_poll`s on an interruptible state:
///
/// * the activation function runs at most once: exactly once when the run
///   takes the state from not interrupted to interrupted, and never otherwise;
///   no other function runs;
/// * once interrupted, the state stays interrupted;
/// * the signal is recorded once the channel hands one over, and the poll
///   count grows by the number of polls that count an item after that.
pub proof fn law_item_interrupt_poll_run(v: InterruptibilityStateView, polls: Seq<(bool, bool)>)
    requires
        v.wf(),
        v.poll_since_interrupt_count + polls.len() <= u64::MAX,
    ensures
        ({
            let last = spec_item_interrupt_polls(v, polls);
            &&& last.wf()
            &&& last.interruptibility == v.interruptibility
            &&& last.fn_interrupt_activate == v.fn_interrupt_activate
            &&& spec_is_interrupted(v) ==> spec_is_interrupted(last)
            &&& last.fn_runs == if v.fn_interrupt_activate is Some && !spec_is_interrupted(v)
                && spec_is_interrupted(last) {
                v.fn_runs.push(v.fn_interrupt_activate->Some_0)
            } else {
                v.fn_runs
            }
            &&& v.interruptibility is Some ==> {
                &&& last.interrupt_signal_received == (v.interrupt_signal_received
                    || spec_any_received(polls))
                &&& last.poll_since_interrupt_count == v.poll_since_interrupt_count
                    + spec_polls_counted(v.interrupt_signal_received, polls)
            }
        }),
    decreases polls.len(),
{
    if polls.len() > 0 {
        lemma_polls_counted_bound(v.interrupt_signal_received || polls[0].1, polls.drop_first());
        let (next, _, _) = spec_item_interrupt_poll(v, polls[0].0, polls[0].1);
        law_activation_runs_once(v, polls[0].0, polls[0].1);
        if spec_is_interrupted(v) {
            law_interrupted_is_permanent(v, polls[0].0, polls[0].1);
        }
        law_item_interrupt_poll_run(next, polls.drop_first());
    }
}

/// With `FinishCurrent`, the poll that receives the signal returns it.
pub proof fn law_finish_current_interrupts_on_receipt(
    v: InterruptibilityStateView,
    increment_item_count: bool,
)
    requires
        v.wf(),
        v.interruptibility == Some(InterruptStrategy::FinishCurrent),
        increment_item_count ==> v.poll_since_interrupt_count < u64::MAX,
    ensures
        spec_item_interrupt_poll(v, increment_item_count, true).1 is Some,
{
}

/// With `PollNextN(n)`, once the signal has been received, `k` more counted
/// polls add `k` to the count, and the state is interrupted exactly when the
/// count has reached `n`.
pub proof fn law_poll_next_n_counts_polls(v: InterruptibilityStateView, n: u64, k: nat)
    requires
        v.wf(),
        v.interrupt_signal_received,
        v.interruptibility == Some(InterruptStrategy::PollNextN(n)),
        v.poll_since_interrupt_count + k <= u64::MAX,
    ensures
        spec_counted_polls(v, k).interrupt_signal_received,
        spec_counted_polls(v, k).interruptibility == v.interruptibility,
        spec_counted_polls(v, k).poll_since_interrupt_count == v.poll_since_interrupt_count + k,
        spec_is_interrupted(spec_counted_polls(v, k)) == (v.poll_since_interrupt_count + k >= n),
    decreases k,
{
    if k > 0 {
        law_poll_next_n_counts_polls(v, n, (k - 1) as nat);
    }
}

/// Once a poll of an interruptible stream has reported the interruption
/// without polling the stream, every later poll ends the stream without
/// polling it, and changes nothing.
pub proof fn law_reported_interruption_ends_stream(
    v: InterruptibleStreamView,
    received_now: bool,
    received_later: bool,
)
    requires
        v.wf(),
    ensures
        ({
            let (next, step) = spec_poll_next_begin(v, received_now);
            step == PollNextStep::Interrupted ==> spec_poll_next_begin(next, received_later) == (
            next,
            PollNextStep::Done,
            )
        }),
{
}

/// Once a poll of an interruptible stream has returned an item as
/// `PollOutcome::Interrupted`, every later poll ends the stream without
/// polling it, and changes nothing.
pub proof fn law_interrupted_item_ends_stream<T>(
    v: InterruptibleStreamView,
    item: Option<T>,
    received_later: bool,
)
    ensures
        ({
            let (next, outcome) = spec_poll_next_ready(v, item);
            (outcome matches Some(PollOutcome::Interrupted(_))) ==> spec_poll_next_begin(
                next,
                received_later,
            ) == (next, PollNextStep::Done)
        }),
{
}

/// A stream without interruption support, or that ignores interruptions,
/// never reports an interruption: a poll never ends it early, and every item
/// of the underlying stream is returned as `PollOutcome::NoInterrupt`.
pub proof fn law_ignored_stream_never_interrupted<T>(
    v: InterruptibleStreamView,
    received_now: bool,
    item: Option<T>,
)
    requires
        v.wf(),
        !v.interrupted_and_notified,
        v.state.interruptibility is None || v.state.interruptibility == Some(
            InterruptStrategy::IgnoreInterruptions,
        ),
    ensures
        spec_poll_next_begin(v, received_now).1 == PollNextStep::PollStream,
        spec_poll_next_begin(v, received_now).0.wf(),
        spec_poll_next_begin(v, received_now).0.state.interruptibility == v.state.interruptibility,
        spec_poll_next_ready(v, item).1 == (match item {
            Some(t) => Some(PollOutcome::NoInterrupt(t)),
            None => None,
        }),
{
}

/// With `FinishCurrent`, a signal received while no item is in progress ends
/// the stream at once: the poll reports the interruption without polling the
/// underlying stream.
pub proof fn law_finish_current_before_poll(v: InterruptibleStreamView)
    requires
        v.wf(),
        !v.interrupted_and_notified,
        !v.has_pending,
        v.state.interruptibility == Some(InterruptStrategy::FinishCurrent),
    ensures
        spec_poll_next_begin(v, true).1 == PollNextStep::Interrupted,
{
}

/// With `FinishCurrent`, a signal received while an item is in progress lets
/// that item complete: the poll polls the underlying stream, and the item it
/// completes with is returned as `PollOutcome::Interrupted(item)`.
pub proof fn law_finish_current_during_poll<T>(v: InterruptibleStreamView, item: Option<T>)
    requires
        v.wf(),
        !v.interrupted_and_notified,
        v.has_pending,
        v.state.interruptibility == Some(InterruptStrategy::FinishCurrent),
    ensures
        ({
            let (next, step) = spec_poll_next_begin(v, true);
            &&& step == PollNextStep::PollStream
            &&& spec_poll_next_ready(next, item).1 == Some(PollOutcome::Interrupted(item))
        }),
{
}

/// One poll of an interruptible stream, where `received_now` tells whether
/// the channel hands over a signal and `ready` what the underlying stream
/// returns if it is polled (`None` for `Poll::Pending`, `Some(item)` for
/// `Poll::Ready(item)`): the next view and what the poll returns (`None` for
/// `Poll::Pending`, `Some(outcome)` for `Poll::Ready(outcome)`).
pub open spec fn spec_stream_poll<T>(
    v: InterruptibleStreamView,
    received_now: bool,
    ready: Option<Option<T>>,
) -> (InterruptibleStreamView, Option<Option<PollOutcome<T>>>) {
    let (next, step) = spec_poll_next_begin(v, received_now);
    match step {
        PollNextStep::Done => (next, Some(None)),
        PollNextStep::Interrupted => (next, Some(Some(PollOutcome::Interrupted(None)))),
        PollNextStep::PollStream => match ready {
            None => (InterruptibleStreamView { has_pending: true, ..next }, None),
            Some(item) => {
                let (after, outcome) = spec_poll_next_ready(next, item);
                (after, Some(outcome))
            },
        },
    }
}

/// Successive polls of an interruptible stream, where `polls[i]` is
/// `(received_now, ready)` of the `i`th: what each poll returns.
pub open spec fn spec_stream_polls<T>(
    v: InterruptibleStreamView,
    polls: Seq<(bool, Option<Option<T>>)>,
) -> Seq<Option<Option<PollOutcome<T>>>>
    decreases polls.len(),
{
    if polls.len() == 0 {
        Seq::empty()
    } else {
        let (next, outcome) = spec_stream_poll(v, polls[0].0, polls[0].1);
        seq![outcome] + spec_stream_polls(next, polls.drop_first())
    }
}

/// Whether a poll returned `Poll::Ready(Some(PollOutcome::Interrupted(_)))`.
pub open spec fn spec_is_interrupted_outcome<T>(outcome: Option<Option<PollOutcome<T>>>) -> bool {
    outcome matches Some(Some(PollOutcome::Interrupted(_)))
}

/// Once the interruption has been reported, every later poll returns
/// `Poll::Ready(None)` without polling the underlying stream.
proof fn lemma_reported_stream_stays_done<T>(
    v: InterruptibleStreamView,
    polls: Seq<(bool, Option<Option<T>>)>,
)
    requires
        v.interrupted_and_notified,
    ensures
        spec_stream_polls(v, polls).len() == polls.len(),
        forall|i: int| 0 <= i < polls.len() ==> spec_stream_polls(v, polls)[i] == Some(
            None::<PollOutcome<T>>,
        ),
    decreases polls.len(),
{
    if polls.len() > 0 {
        let (next, outcome) = spec_stream_poll(v, polls[0].0, polls[0].1);
        lemma_reported_stream_stays_done(next, polls.drop_first());
        let outcomes = spec_stream_polls(v, polls);
        assert(outcomes == seq![outcome] + spec_stream_polls(next, polls.drop_first()));
        assert(outcome == Some(None::<PollOutcome<T>>));
        assert forall|i: int| 0 <= i < polls.len() implies outcomes[i] == Some(
            None::<PollOutcome<T>>,
        ) by {
            if i > 0 {
                assert(outcomes[i] == spec_stream_polls(next, polls.drop_first())[i - 1]);
            }
        }
    }
}

/// Over any run of polls of an interruptible stream, whatever the channel
/// hands over and whatever the underlying stream returns, the interruption is
/// reported at most once: every poll after the one that returns
/// `PollOutcome::Interrupted` returns `Poll::Ready(None)`.
pub proof fn law_stream_interrupted_at_most_once<T>(
    v: InterruptibleStreamView,
    polls: Seq<(bool, Option<Option<T>>)>,
)
    ensures
        ({
            let outcomes = spec_stream_polls(v, polls);
            &&& outcomes.len() == polls.len()
            &&& forall|i: int, j: int|
                0 <= i < j < outcomes.len() && spec_is_interrupted_outcome(#[trigger] outcomes[i])
                    ==> #[trigger] outcomes[j] == Some(None::<PollOutcome<T>>)
        }),
    decreases polls.len(),
{
    if polls.len() > 0 {
        let (next, outcome) = spec_stream_poll(v, polls[0].0, polls[0].1);
        let rest = polls.drop_first();
        law_stream_interrupted_at_most_once(next, rest);
        let outcomes = spec_stream_polls(v, polls);
        assert(outcomes == seq![outcome] + spec_stream_polls(next, rest));
        if spec_is_interrupted_outcome(outcome) {
            lemma_reported_stream_stays_done(next, rest);
        }
        assert forall|i: int, j: int|
            0 <= i < j < outcomes.len() && spec_is_interrupted_outcome(#[trigger] outcomes[i])
                implies #[trigger] outcomes[j] == Some(None::<PollOutcome<T>>) by {
            if i > 0 {
                assert(outcomes[i] == spec_stream_polls(next, rest)[i - 1]);
                assert(outcomes[j] == spec_stream_polls(next, rest)[j - 1]);
            } else {
                assert(outcomes[j] == spec_stream_polls(next, rest)[j - 1]);
            }
        }
    }
}

/// How many of `outcomes` return an item as `PollOutcome::NoInterrupt`.
pub open spec fn spec_count_no_interrupt<T>(outcomes: Seq<Option<Option<PollOutcome<T>>>>) -> nat
    decreases outcomes.len(),
{
    if outcomes.len() == 0 {
        0
    } else {
        (if outcomes[0] matches Some(Some(PollOutcome::NoInterrupt(_))) {
            1nat
        } else {
            0nat
        }) + spec_count_no_interrupt(outcomes.drop_first())
    }
}

/// How many more items a `PollNextN(n)` stream whose signal has been
/// received may still return as `PollOutcome::NoInterrupt`.
spec fn spec_poll_next_n_items_left(v: InterruptibleStreamView, n: u64) -> int {
    if v.interrupt_signal || v.interrupted_and_notified {
        0
    } else {
        n - 1 - v.state.poll_since_interrupt_count + if v.has_pending {
            1int
        } else {
            0int
        }
    }
}

/// A `PollNextN(n)` stream whose signal has been received, and whose count
/// is below `n` while the interruption is not yet activated.
spec fn spec_poll_next_n_counting(v: InterruptibleStreamView, n: u64) -> bool {
    &&& v.wf()
    &&& v.state.interruptibility == Some(InterruptStrategy::PollNextN(n))
    &&& v.state.interrupt_signal_received
    &&& !v.interrupt_signal && !v.interrupted_and_notified ==> v.state.poll_since_interrupt_count
        < n
}

proof fn lemma_poll_next_n_items_left<T>(
    v: InterruptibleStreamView,
    n: u64,
    polls: Seq<(bool, Option<Option<T>>)>,
)
    requires
        spec_poll_next_n_counting(v, n),
    ensures
        spec_count_no_interrupt(spec_stream_polls(v, polls)) <= spec_poll_next_n_items_left(v, n),
    decreases polls.len(),
{
    if polls.len() > 0 {
        let (next, outcome) = spec_stream_poll(v, polls[0].0, polls[0].1);
        let rest = polls.drop_first();
        assert(spec_poll_next_n_counting(next, n));
        lemma_poll_next_n_items_left(next, n, rest);
        let outcomes = spec_stream_polls(v, polls);
        assert(outcomes == seq![outcome] + spec_stream_polls(next, rest));
        assert(outcomes.drop_first() == spec_stream_polls(next, rest));
        if outcome matches Some(Some(PollOutcome::NoInterrupt(_))) {
            assert(spec_poll_next_n_items_left(next, n) < spec_poll_next_n_items_left(v, n));
        } else {
            assert(spec_poll_next_n_items_left(next, n) <= spec_poll_next_n_items_left(v, n));
        }
    }
}

/// With `PollNextN(n)`, once the signal has been received and `count < n`
/// items counted, at most `n - 1 - count` more items are returned as
/// `PollOutcome::NoInterrupt`, and one more if an item is in progress:
/// whatever the channel hands over and whatever the underlying stream does
/// (items may pend, and the stream may end early).
pub proof fn law_poll_next_n_item_bound<T>(
    v: InterruptibleStreamView,
    n: u64,
    polls: Seq<(bool, Option<Option<T>>)>,
)
    requires
        v.wf(),
        v.state.interruptibility == Some(InterruptStrategy::PollNextN(n)),
        v.state.interrupt_signal_received,
        v.state.poll_since_interrupt_count < n,
        !v.interrupt_signal,
        !v.interrupted_and_notified,
    ensures
        spec_count_no_interrupt(spec_stream_polls(v, polls)) <= n - 1
            - v.state.poll_since_interrupt_count + if v.has_pending {
            1int
        } else {
            0int
        },
{
    lemma_poll_next_n_items_left(v, n, polls);
}

/// With `PollNextN(n)`, from the poll that receives the signal on, at most
/// `n` items are returned as `PollOutcome::NoInterrupt` (none with
/// `n == 0`), whatever the channel hands over later and whatever the
/// underlying stream does.
pub proof fn law_poll_next_n_at_most_n_items<T>(
    v: InterruptibleStreamView,
    n: u64,
    ready: Option<Option<T>>,
    polls: Seq<(bool, Option<Option<T>>)>,
)
    requires
        v.wf(),
        v.state.interruptibility == Some(InterruptStrategy::PollNextN(n)),
        !v.state.interrupt_signal_received,
        !v.interrupted_and_notified,
    ensures
        spec_count_no_interrupt(spec_stream_polls(v, seq![(true, ready)] + polls)) <= n,
{
    let all = seq![(true, ready)] + polls;
    let (next, outcome) = spec_stream_poll(v, true, ready);
    assert(all[0] == (true, ready));
    assert(all.drop_first() == polls);
    assert(spec_poll_next_n_counting(next, n));
    lemma_poll_next_n_items_left(next, n, polls);
    let outcomes = spec_stream_polls(v, all);
    assert(outcomes.drop_first() == spec_stream_polls(next, polls));
}

/// The view after successive polls of an interruptible stream (see
/// [`spec_stream_polls`]).
pub open spec fn spec_stream_polls_last<T>(
    v: InterruptibleStreamView,
    polls: Seq<(bool, Option<Option<T>>)>,
) -> InterruptibleStreamView
    decreases polls.len(),
{
    if polls.len() == 0 {
        v
    } else {
        spec_stream_polls_last(spec_stream_poll(v, polls[0].0, polls[0].1).0, polls.drop_first())
    }
}

/// How many of `outcomes` report the interruption as
/// `PollOutcome::Interrupted`.
pub open spec fn spec_count_interrupted<T>(outcomes: Seq<Option<Option<PollOutcome<T>>>>) -> nat
    decreases outcomes.len(),
{
    if outcomes.len() == 0 {
        0
    } else {
        (if spec_is_interrupted_outcome(outcomes[0]) {
            1nat
        } else {
            0nat
        }) + spec_count_interrupted(outcomes.drop_first())
    }
}

/// How many times the function with id `id` appears in `runs`.
pub open spec fn spec_runs_of(runs: Seq<nat>, id: nat) -> nat
    decreases runs.len(),
{
    if runs.len() == 0 {
        0
    } else {
        spec_runs_of(runs.drop_last(), id) + if runs.last() == id {
            1nat
        } else {
            0nat
        }
    }
}

proof fn lemma_runs_of_push(runs: Seq<nat>, x: nat, id: nat)
    ensures
        spec_runs_of(runs.push(x), id) == spec_runs_of(runs, id) + if x == id {
            1nat
        } else {
            0nat
        },
{
    assert(runs.push(x).drop_last() =~= runs);
}

/// Over any run of polls of an interruptible stream, whatever the channel
/// hands over and whatever the underlying stream returns, the function set
/// to run when a poll reports the interruption runs once on each poll that
/// returns `PollOutcome::Interrupted`, and on no other: so at most once, and
/// never again once the interruption has been reported.
pub proof fn law_poll_item_fn_runs_on_report<T>(
    v: InterruptibleStreamView,
    polls: Seq<(bool, Option<Option<T>>)>,
)
    requires
        v.state.wf(),
        v.state.fn_interrupt_poll_item is Some,
    ensures
        ({
            let id = v.state.fn_interrupt_poll_item->Some_0;
            let outcomes = spec_stream_polls(v, polls);
            let last = spec_stream_polls_last(v, polls);
            &&& last.state.fn_interrupt_poll_item == v.state.fn_interrupt_poll_item
            &&& last.state.fn_interrupt_activate == v.state.fn_interrupt_activate
            &&& spec_runs_of(last.state.fn_runs, id) == spec_runs_of(v.state.fn_runs, id)
                + spec_count_interrupted(outcomes)
            &&& spec_count_interrupted(outcomes) <= if v.interrupted_and_notified {
                0nat
            } else {
                1nat
            }
        }),
    decreases polls.len(),
{
    if polls.len() > 0 {
        let id = v.state.fn_interrupt_poll_item->Some_0;
        let (next, outcome) = spec_stream_poll(v, polls[0].0, polls[0].1);
        let rest = polls.drop_first();
        // The interruption check, and the activation function it may run.
        let checked = spec_interrupt_check(v, polls[0].0);
        if !v.interrupted_and_notified && !v.interrupt_signal {
            let (state, _, activates) = spec_item_interrupt_poll(
                v.state,
                spec_item_needs_counting(v),
                polls[0].0,
            );
            if activates {
                lemma_runs_of_push(v.state.fn_runs, v.state.fn_interrupt_activate->Some_0, id);
            }
            assert(spec_runs_of(checked.state.fn_runs, id) == spec_runs_of(v.state.fn_runs, id));
        }
        // The poll-item function, run when this poll reports the interruption.
        lemma_runs_of_push(checked.state.fn_runs, id, id);
        law_poll_item_fn_runs_on_report(next, rest);
        let outcomes = spec_stream_polls(v, polls);
        assert(outcomes == seq![outcome] + spec_stream_polls(next, rest));
        assert(outcomes.drop_first() == spec_stream_polls(next, rest));
    }
}

/// A `PollNextN(n)` stream, with the signal received and `count` items
/// counted since, between polls.
pub open spec fn spec_poll_next_n_between_polls(
    v: InterruptibleStreamView,
    n: u64,
    count: u64,
) -> bool {
    &&& v.state.interruptibility == Some(InterruptStrategy::PollNextN(n))
    &&& v.state.interrupt_signal_received
    &&& v.state.poll_since_interrupt_count == count
    &&& !v.has_pending
    &&& !v.interrupted_and_notified
    &&& !v.interrupt_signal
}

/// How many polls a `PollNextN` run from a stream of `k` items takes, when
/// `m` more items may be returned: the `min(k, m)` items, then the poll that
/// ends the stream (`k < m`) or that reports the interruption and the one
/// after.
pub open spec fn spec_poll_next_n_run_len(k: nat, m: int) -> int {
    if k < m {
        k + 1int
    } else {
        m + 2
    }
}

/// The item that the underlying stream hands over on the `i`th poll.
pub open spec fn spec_item_of<T>(polls: Seq<(bool, Option<Option<T>>)>, i: int) -> T {
    polls[i].1->Some_0->Some_0
}

/// With `PollNextN(n)`, from a stream between polls with the signal received
/// and `count < n` items counted, whose underlying stream has `k` more items
/// (each ready when polled) and then ends: the next `min(k, n - 1 - count)`
/// polls return those items as `PollOutcome::NoInterrupt`, in order; then,
/// if the stream ended first, the poll that meets its end returns
/// `Poll::Ready(None)`; otherwise the next poll reports the interruption
/// without polling the stream, and the one after ends the stream. Whatever the
/// channel hands over, and whatever the stream would hand over on the polls
/// that do not poll it.
pub proof fn law_poll_next_n_from_count<T>(
    v: InterruptibleStreamView,
    n: u64,
    count: u64,
    k: nat,
    polls: Seq<(bool, Option<Option<T>>)>,
)
    requires
        spec_poll_next_n_between_polls(v, n, count),
        count < n,
        polls.len() == spec_poll_next_n_run_len(k, n - 1 - count),
        forall|i: int|
            0 <= i < k && i < n - 1 - count ==> (#[trigger] polls[i]).1 matches Some(Some(_)),
        k < n - 1 - count ==> polls[k as int].1 == Some(None::<T>),
    ensures
        ({
            let outcomes = spec_stream_polls(v, polls);
            let m = n - 1 - count;
            &&& outcomes.len() == polls.len()
            &&& forall|i: int|
                0 <= i < k && i < m ==> #[trigger] outcomes[i] == Some(
                    Some(PollOutcome::NoInterrupt(spec_item_of(polls, i))),
                )
            &&& k < m ==> outcomes[k as int] == Some(None::<PollOutcome<T>>)
            &&& k >= m ==> outcomes[m] == Some(Some(PollOutcome::<T>::Interrupted(None)))
                && outcomes[m + 1] == Some(None::<PollOutcome<T>>)
        }),
    decreases polls.len(),
{
    let m = n - 1 - count;
    let (next, outcome) = spec_stream_poll(v, polls[0].0, polls[0].1);
    let rest = polls.drop_first();
    let outcomes = spec_stream_polls(v, polls);
    assert(outcomes == seq![outcome] + spec_stream_polls(next, rest));
    if m == 0 {
        assert(outcome == Some(Some(PollOutcome::<T>::Interrupted(None))));
        assert(next.interrupted_and_notified);
        assert(rest.len() == 1);
        let (next2, outcome2) = spec_stream_poll(next, rest[0].0, rest[0].1);
        assert(spec_stream_polls(next, rest) == seq![outcome2] + spec_stream_polls(
            next2,
            rest.drop_first(),
        ));
        assert(outcome2 == Some(None::<PollOutcome<T>>));
    } else if k == 0 {
        assert(outcome == Some(None::<PollOutcome<T>>));
    } else {
        assert(polls[0].1 matches Some(Some(_)));
        assert(outcome == Some(Some(PollOutcome::NoInterrupt(spec_item_of(polls, 0)))));
        assert(spec_poll_next_n_between_polls(next, n, (count + 1) as u64));
        assert forall|i: int|
            0 <= i < ((k - 1) as nat) && i < n - 1 - (count + 1) implies (#[trigger] rest[i]).1 matches Some(
            Some(_),
        ) by {
            assert(rest[i] == polls[i + 1]);
        }
        if ((k - 1) as nat) < n - 1 - (count + 1) {
            assert(rest[k - 1] == polls[k as int]);
        }
        law_poll_next_n_from_count(next, n, (count + 1) as u64, (k - 1) as nat, rest);
        let rest_outcomes = spec_stream_polls(next, rest);
        assert forall|i: int| 0 <= i < k && i < m implies #[trigger] outcomes[i] == Some(
            Some(PollOutcome::NoInterrupt(spec_item_of(polls, i))),
        ) by {
            if i > 0 {
                assert(outcomes[i] == rest_outcomes[i - 1]);
                assert(rest[i - 1] == polls[i]);
            }
        }
        if k < m {
            assert(outcomes[k as int] == rest_outcomes[k - 1]);
        } else {
            assert(outcomes[m] == rest_outcomes[m - 1]);
            assert(outcomes[m + 1] == rest_outcomes[m]);
        }
    }
}

/// With `PollNextN(n)`, when the signal is waiting before the first poll and
/// the underlying stream has `k` items (each ready when polled) and then
/// ends: the stream returns the first `min(k, n)` items as
/// `PollOutcome::NoInterrupt`, in order; then `Poll::Ready(None)` if the
/// stream ended first (`n` is an upper bound), or else
/// `PollOutcome::Interrupted(None)`, without polling the stream for its
/// `n + 1`th item, and then `Poll::Ready(None)`.
pub proof fn law_poll_next_n_returns_items<T>(
    v: InterruptibleStreamView,
    n: u64,
    k: nat,
    polls: Seq<(bool, Option<Option<T>>)>,
)
    requires
        v.state.interruptibility == Some(InterruptStrategy::PollNextN(n)),
        !v.state.interrupt_signal_received,
        v.state.poll_since_interrupt_count == 0,
        !v.has_pending,
        !v.interrupted_and_notified,
        !v.interrupt_signal,
        polls.len() == spec_poll_next_n_run_len(k, n as int),
        polls[0].0,
        forall|i: int| 0 <= i < k && i < n ==> (#[trigger] polls[i]).1 matches Some(Some(_)),
        k < n ==> polls[k as int].1 == Some(None::<T>),
    ensures
        ({
            let outcomes = spec_stream_polls(v, polls);
            &&& outcomes.len() == polls.len()
            &&& forall|i: int|
                0 <= i < k && i < n ==> #[trigger] outcomes[i] == Some(
                    Some(PollOutcome::NoInterrupt(spec_item_of(polls, i))),
                )
            &&& k < n ==> outcomes[k as int] == Some(None::<PollOutcome<T>>)
            &&& k >= n ==> outcomes[n as int] == Some(Some(PollOutcome::<T>::Interrupted(None)))
                && outcomes[n + 1] == Some(None::<PollOutcome<T>>)
        }),
{
    let (next, outcome) = spec_stream_poll(v, polls[0].0, polls[0].1);
    let rest = polls.drop_first();
    let outcomes = spec_stream_polls(v, polls);
    assert(outcomes == seq![outcome] + spec_stream_polls(next, rest));
    if n == 0 {
        assert(outcome == Some(Some(PollOutcome::<T>::Interrupted(None))));
        assert(rest.len() == 1);
        let (next2, outcome2) = spec_stream_poll(next, rest[0].0, rest[0].1);
        assert(spec_stream_polls(next, rest) == seq![outcome2] + spec_stream_polls(
            next2,
            rest.drop_first(),
        ));
        assert(outcome2 == Some(None::<PollOutcome<T>>));
    } else if k == 0 {
        assert(outcome == Some(None::<PollOutcome<T>>));
    } else {
        assert(polls[0].1 matches Some(Some(_)));
        assert(outcome == Some(Some(PollOutcome::NoInterrupt(spec_item_of(polls, 0)))));
        assert(spec_poll_next_n_between_polls(next, n, 0));
        assert forall|i: int|
            0 <= i < ((k - 1) as nat) && i < n - 1 - 0 implies (#[trigger] rest[i]).1 matches Some(
            Some(_),
        ) by {
            assert(rest[i] == polls[i + 1]);
        }
        if ((k - 1) as nat) < n - 1 {
            assert(rest[k - 1] == polls[k as int]);
        }
        law_poll_next_n_from_count(next, n, 0, (k - 1) as nat, rest);
        let rest_outcomes = spec_stream_polls(next, rest);
        assert forall|i: int| 0 <= i < k && i < n implies #[trigger] outcomes[i] == Some(
            Some(PollOutcome::NoInterrupt(spec_item_of(polls, i))),
        ) by {
            if i > 0 {
                assert(outcomes[i] == rest_outcomes[i - 1]);
                assert(rest[i - 1] == polls[i]);
            }
        }
        if k < n {
            assert(outcomes[k as int] == rest_outcomes[k - 1]);
        } else {
            assert(outcomes[n as int] == rest_outcomes[n - 1]);
            assert(outcomes[n + 1] == rest_outcomes[n as int]);
        }
    }
}

/// With `PollNextN(n)`, when the signal arrives while an item is in
/// progress, that item completes: with `n == 0` as
/// `PollOutcome::Interrupted(Some(item))`, ending the stream; otherwise as
/// `PollOutcome::NoInterrupt(item)`, and the stream is then between polls
/// with no item counted, so that [`law_poll_next_n_from_count`] gives the
/// next `n - 1` items.
pub proof fn law_poll_next_n_signal_during_item<T>(
    v: InterruptibleStreamView,
    n: u64,
    item: T,
)
    requires
        v.state.interruptibility == Some(InterruptStrategy::PollNextN(n)),
        !v.state.interrupt_signal_received,
        v.state.poll_since_interrupt_count == 0,
        v.has_pending,
        !v.interrupted_and_notified,
        !v.interrupt_signal,
    ensures
        ({
            let (next, outcome) = spec_stream_poll(v, true, Some(Some(item)));
            &&& n == 0 ==> outcome == Some(Some(PollOutcome::Interrupted(Some(item))))
                && next.interrupted_and_notified
            &&& n > 0 ==> outcome == Some(Some(PollOutcome::NoInterrupt(item)))
                && spec_poll_next_n_between_polls(next, n, 0)
        }),
{
}

/// What a poll returns when it hands over the underlying stream's response
/// `ready` as it is: `Poll::Pending` stays `Poll::Pending`, the end stays
/// the end, and an item is returned as `PollOutcome::NoInterrupt`.
pub open spec fn spec_passed_through<T>(ready: Option<Option<T>>) -> Option<Option<PollOutcome<T>>> {
    match ready {
        None => None,
        Some(None) => Some(None),
        Some(Some(t)) => Some(Some(PollOutcome::NoInterrupt(t))),
    }
}

/// Whether no interruption can come up over `polls`: the state has no
/// interruption support, ignores interruptions, or has received no signal
/// and the channel hands over none.
pub open spec fn spec_never_signalled<T>(
    v: InterruptibleStreamView,
    polls: Seq<(bool, Option<Option<T>>)>,
) -> bool {
    ||| v.state.interruptibility is None
    ||| v.state.interruptibility == Some(InterruptStrategy::IgnoreInterruptions)
    ||| !v.state.interrupt_signal_received && forall|i: int|
        0 <= i < polls.len() ==> !(#[trigger] polls[i]).0
}

/// When no interruption can come up (see [`spec_never_signalled`]), every
/// poll polls the underlying stream and hands over its response as it is:
/// `PollOutcome::Interrupted` is never returned.
pub proof fn law_stream_passes_items_through<T>(
    v: InterruptibleStreamView,
    polls: Seq<(bool, Option<Option<T>>)>,
)
    requires
        v.wf(),
        !v.interrupted_and_notified,
        spec_never_signalled(v, polls),
    ensures
        ({
            let outcomes = spec_stream_polls(v, polls);
            &&& outcomes.len() == polls.len()
            &&& forall|i: int|
                0 <= i < polls.len() ==> #[trigger] outcomes[i] == spec_passed_through(
                    polls[i].1,
                )
        }),
    decreases polls.len(),
{
    if polls.len() > 0 {
        let (next, outcome) = spec_stream_poll(v, polls[0].0, polls[0].1);
        let rest = polls.drop_first();
        assert(spec_poll_next_begin(v, polls[0].0).1 == PollNextStep::PollStream);
        assert(outcome == spec_passed_through(polls[0].1));
        if !(v.state.interruptibility is None) && v.state.interruptibility != Some(
            InterruptStrategy::IgnoreInterruptions,
        ) {
            assert forall|i: int| 0 <= i < rest.len() implies !(#[trigger] rest[i]).0 by {
                assert(rest[i] == polls[i + 1]);
            }
        }
        law_stream_passes_items_through(next, rest);
        let outcomes = spec_stream_polls(v, polls);
        assert(outcomes == seq![outcome] + spec_stream_polls(next, rest));
        assert forall|i: int| 0 <= i < polls.len() implies #[trigger] outcomes[i]
            == spec_passed_through(polls[i].1) by {
            if i > 0 {
                assert(outcomes[i] == spec_stream_polls(next, rest)[i - 1]);
                assert(rest[i - 1] == polls[i]);
            }
        }
    }
}

/// The item that a poll takes from the underlying stream: the item of the
/// stream's response, when the poll polls it.
pub open spec fn spec_item_taken<T>(
    v: InterruptibleStreamView,
    received_now: bool,
    ready: Option<Option<T>>,
) -> Option<T> {
    if spec_poll_next_begin(v, received_now).1 == PollNextStep::PollStream {
        match ready {
            Some(Some(t)) => Some(t),
            _ => None,
        }
    } else {
        None
    }
}

/// The items that successive polls take from the underlying stream, in
/// order.
pub open spec fn spec_items_taken<T>(
    v: InterruptibleStreamView,
    polls: Seq<(bool, Option<Option<T>>)>,
) -> Seq<T>
    decreases polls.len(),
{
    if polls.len() == 0 {
        Seq::empty()
    } else {
        let next = spec_stream_poll(v, polls[0].0, polls[0].1).0;
        let rest = spec_items_taken(next, polls.drop_first());
        match spec_item_taken(v, polls[0].0, polls[0].1) {
            Some(t) => seq![t] + rest,
            None => rest,
        }
    }
}

/// The items that `outcomes` carry (in `PollOutcome::NoInterrupt(item)` or
/// `PollOutcome::Interrupted(Some(item))`), in order.
pub open spec fn spec_items_returned<T>(outcomes: Seq<Option<Option<PollOutcome<T>>>>) -> Seq<T>
    decreases outcomes.len(),
{
    if outcomes.len() == 0 {
        Seq::empty()
    } else {
        let rest = spec_items_returned(outcomes.drop_first());
        match outcomes[0] {
            Some(Some(PollOutcome::NoInterrupt(t))) => seq![t] + rest,
            Some(Some(PollOutcome::Interrupted(Some(t)))) => seq![t] + rest,
            _ => rest,
        }
    }
}

/// Over any run of polls of an interruptible stream, the items returned are
/// exactly the items taken from the underlying stream, in order: none is
/// skipped or repeated. (With [`law_stream_interrupted_at_most_once`], the
/// interruption, if reported, is the last thing returned before the end.)
pub proof fn law_stream_returns_items_in_order<T>(
    v: InterruptibleStreamView,
    polls: Seq<(bool, Option<Option<T>>)>,
)
    ensures
        spec_items_returned(spec_stream_polls(v, polls)) == spec_items_taken(v, polls),
    decreases polls.len(),
{
    if polls.len() > 0 {
        let (next, outcome) = spec_stream_poll(v, polls[0].0, polls[0].1);
        let rest = polls.drop_first();
        law_stream_returns_items_in_order(next, rest);
        let outcomes = spec_stream_polls(v, polls);
        assert(outcomes == seq![outcome] + spec_stream_polls(next, rest));
        assert(outcomes.drop_first() == spec_stream_polls(next, rest));
    }
}

/// A poll returns `PollOutcome::Interrupted(item)` only as follows: with no
/// item in progress, `item` is `None` and the underlying stream is not
/// polled; with an item in progress, the stream is polled and `item` is what
/// it completed with.
pub proof fn law_interrupted_outcome_carries_item_in_progress<T>(
    v: InterruptibleStreamView,
    received_now: bool,
    ready: Option<Option<T>>,
)
    ensures
        ({
            let (next, outcome) = spec_stream_poll(v, received_now, ready);
            let step = spec_poll_next_begin(v, received_now).1;
            outcome matches Some(Some(PollOutcome::Interrupted(item))) ==> if v.has_pending {
                step == PollNextStep::PollStream && ready == Some(item)
            } else {
                step == PollNextStep::Interrupted && item is None
            }
        }),
{
}

/// A poll of an interruptible state that has received no signal reads the
/// channel once, whatever the strategy and whether the state is owned or
/// reborrowed, and the state has received the signal after it exactly when
/// that read handed one over; with `FinishCurrent` the poll then returns the
/// signal at once. A state without interruption support, or that has already
/// received the signal, does not read the channel, and keeps what it
/// received.
pub proof fn law_item_interrupt_poll_takes_read_signal(
    v: InterruptibilityStateView,
    increment_item_count: bool,
    received_now: bool,
)
    ensures
        ({
            let (next, signal, _) = spec_item_interrupt_poll_reading(
                v,
                increment_item_count,
                received_now,
            );
            let read = next.channel_reads.last();
            &&& spec_asks_channel(v) ==> {
                &&& next.channel_reads.len() == v.channel_reads.len() + 1
                &&& next.channel_reads.drop_last() == v.channel_reads
                &&& next.interrupt_signal_received == (read is Some)
                &&& v.interruptibility == Some(InterruptStrategy::FinishCurrent) ==> (signal is Some
                    <==> read is Some)
            }
            &&& !spec_asks_channel(v) ==> {
                &&& next.channel_reads == v.channel_reads
                &&& next.interrupt_signal_received == v.interrupt_signal_received
            }
        }),
{
    let (next, signal, _) = spec_item_interrupt_poll_reading(v, increment_item_count, received_now);
    if spec_asks_channel(v) {
        assert(next.channel_reads.drop_last() =~= v.channel_reads);
    }
}

/// A poll of an interruptible stream that has not yet received a signal (and
/// has not activated or reported an interruption) reads the channel once,
/// whether or not an item is in progress:
///
/// * if the read hands over a signal, the state has received it; with
///   `FinishCurrent` the poll reports the interruption: an item in progress
///   completes as `PollOutcome::Interrupted(item)`, and with none in progress
///   the poll returns `PollOutcome::Interrupted(None)` at once;
/// * if it hands over nothing, the poll passes the underlying stream's
///   response through as it is (no interruption out of nowhere).
///
/// Any other poll does not read the channel.
pub proof fn law_stream_poll_takes_read_signal<T>(
    v: InterruptibleStreamView,
    received_now: bool,
    ready: Option<Option<T>>,
)
    ensures
        ({
            let (next, outcome) = spec_stream_poll(v, received_now, ready);
            let read = next.state.channel_reads.last();
            let asks = !v.interrupted_and_notified && !v.interrupt_signal && spec_asks_channel(
                v.state,
            );
            &&& asks ==> {
                &&& next.state.channel_reads.len() == v.state.channel_reads.len() + 1
                &&& next.state.channel_reads.drop_last() == v.state.channel_reads
                &&& next.state.interrupt_signal_received == (read is Some)
                &&& read is None ==> outcome == spec_passed_through(ready)
                &&& read is Some && v.state.interruptibility == Some(
                    InterruptStrategy::FinishCurrent,
                ) ==> {
                    &&& v.has_pending ==> (ready matches Some(item) ==> outcome == Some(
                        Some(PollOutcome::Interrupted(item)),
                    ))
                    &&& !v.has_pending ==> outcome == Some(
                        Some(PollOutcome::<T>::Interrupted(None)),
                    )
                }
            }
            &&& !asks ==> next.state.channel_reads == v.state.channel_reads
        }),
{
    let (next, outcome) = spec_stream_poll(v, received_now, ready);
    let asks = !v.interrupted_and_notified && !v.interrupt_signal && spec_asks_channel(v.state);
    if asks {
        assert(next.state.channel_reads.drop_last() =~= v.state.channel_reads);
    }
}

} // verus!
