//! The channel receivers that interrupt signals arrive through.
use vstd::prelude::*;

use crate::InterruptSignal;

verus! {

/// `tokio::sync::mpsc::Receiver`, the receiving half of an interrupt channel.
#[verifier::external_type_specification]
#[verifier::external_body]
#[verifier::reject_recursive_types(T)]
pub struct ExMpscReceiver<T>(tokio::sync::mpsc::Receiver<T>);

/// `tokio::sync::oneshot::Receiver`, the receiving half of a one-shot channel.
#[verifier::external_type_specification]
#[verifier::external_body]
#[verifier::reject_recursive_types(T)]
pub struct ExOneshotReceiver<T>(tokio::sync::oneshot::Receiver<T>);

/// `tokio::sync::oneshot::error::RecvError`, the output error of awaiting a
/// one-shot receiver; declared so that the receiver's `Future` impl is known.
#[verifier::external_type_specification]
#[verifier::external_body]
pub struct ExOneshotRecvError(tokio::sync::oneshot::error::RecvError);

/// Calls `tokio::sync::mpsc::Receiver::try_recv`, which takes the next
/// message if one is buffered, keeping `Ok` as `Some` and either error
/// (`Empty`, `Disconnected`) as `None`.
///
/// Whether a message is there depends on what other tasks have sent, so
/// nothing is claimed of the outcome.
#[verifier::external_body]
pub(crate) fn mpsc_try_recv(rx: &mut tokio::sync::mpsc::Receiver<InterruptSignal>) -> Option<
    InterruptSignal,
> {
    rx.try_recv().ok()
}

/// Calls `tokio::sync::oneshot::Receiver::try_recv`, keeping `Ok` as `Some`
/// and either error (`Empty`, `Closed`) as `None`.
///
/// Whether the value has been sent depends on another task, so nothing is
/// claimed of the outcome.
#[verifier::external_body]
pub(crate) fn oneshot_try_recv(rx: &mut tokio::sync::oneshot::Receiver<()>) -> Option<()> {
    rx.try_recv().ok()
}

/// Formats `rx` with `{:?}`, through tokio's `Debug` for `Receiver`.
///
/// Nothing is claimed of the text: it shows the channel's internal state,
/// addresses among it.
#[verifier::external_body]
pub(crate) fn receiver_debug_text(rx: &tokio::sync::mpsc::Receiver<InterruptSignal>) -> String {
    format!("{rx:?}")
}

/// Reads the interrupt channel once, and records what the read handed over.
pub(crate) fn read_signal(
    rx: &mut tokio::sync::mpsc::Receiver<InterruptSignal>,
    reads: &mut Ghost<Seq<Option<InterruptSignal>>>,
) -> (r: Option<InterruptSignal>)
    ensures
        final(reads)@ == old(reads)@.push(r),
{
    let r = mpsc_try_recv(rx);
    *reads = Ghost(reads@.push(r));
    r
}

} // verus!
