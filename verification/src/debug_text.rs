//! The debug text of the interruption state, as `{:?}` shows it.
use vstd::prelude::*;
use vstd::string::StringExecFns;

use crate::{InterruptSignal, InterruptStrategy, Interruptibility, OwnedOrMutRef};

verus! {

/// The text of a decimal digit `d < 10`.
pub open spec fn spec_digit_text(d: nat) -> Seq<char> {
    if d == 0 {
        "0"@
    } else if d == 1 {
        "1"@
    } else if d == 2 {
        "2"@
    } else if d == 3 {
        "3"@
    } else if d == 4 {
        "4"@
    } else if d == 5 {
        "5"@
    } else if d == 6 {
        "6"@
    } else if d == 7 {
        "7"@
    } else if d == 8 {
        "8"@
    } else {
        "9"@
    }
}

/// The decimal text of `n`, without leading zeros.
pub open spec fn spec_decimal_text(n: nat) -> Seq<char>
    decreases n,
{
    if n < 10 {
        spec_digit_text(n)
    } else {
        spec_decimal_text(n / 10) + spec_digit_text(n % 10)
    }
}

/// The debug text of a strategy.
pub open spec fn spec_strategy_text(strategy: InterruptStrategy) -> Seq<char> {
    match strategy {
        InterruptStrategy::IgnoreInterruptions => "IgnoreInterruptions"@,
        InterruptStrategy::FinishCurrent => "FinishCurrent"@,
        InterruptStrategy::PollNextN(n) => "PollNextN("@ + spec_decimal_text(n as nat) + ")"@,
    }
}

/// The debug text of an `OwnedOrMutRef` around the text `inner`.
pub open spec fn spec_holder_text<T>(holder: OwnedOrMutRef<'_, T>, inner: Seq<char>) -> Seq<char> {
    match holder {
        OwnedOrMutRef::Owned(_) => "Owned("@ + inner + ")"@,
        OwnedOrMutRef::MutRef(_) => "MutRef("@ + inner + ")"@,
    }
}

/// The debug text of a received signal, if any.
pub open spec fn spec_signal_text(signal: Option<InterruptSignal>) -> Seq<char> {
    match signal {
        Some(_) => "Some(InterruptSignal)"@,
        None => "None"@,
    }
}

/// The debug text of an `Interruptibility`, where `rx_text` stands for the
/// debug text of the receiver.
pub open spec fn spec_interruptibility_text(
    interruptibility: Interruptibility<'_>,
    rx_text: Seq<char>,
) -> Seq<char> {
    match interruptibility {
        Interruptibility::NonInterruptible => "NonInterruptible"@,
        Interruptibility::Interruptible { interrupt_rx, interrupt_strategy } => {
            "Interruptible { interrupt_rx: "@ + spec_holder_text(interrupt_rx, rx_text)
                + ", interrupt_strategy: "@ + spec_strategy_text(interrupt_strategy) + " }"@
        },
    }
}

/// The text of a decimal digit `d < 10`.
fn digit_text(d: u64) -> (r: &'static str)
    requires
        d < 10,
    ensures
        r@ == spec_digit_text(d as nat),
{
    if d == 0 {
        "0"
    } else if d == 1 {
        "1"
    } else if d == 2 {
        "2"
    } else if d == 3 {
        "3"
    } else if d == 4 {
        "4"
    } else if d == 5 {
        "5"
    } else if d == 6 {
        "6"
    } else if d == 7 {
        "7"
    } else if d == 8 {
        "8"
    } else {
        "9"
    }
}

/// Appends the decimal text of `n` to `text`.
pub(crate) fn append_decimal(text: &mut String, n: u64)
    ensures
        final(text)@ == old(text)@ + spec_decimal_text(n as nat),
    decreases n,
{
    if n < 10 {
        text.append(digit_text(n));
    } else {
        append_decimal(text, n / 10);
        text.append(digit_text(n % 10));
        assert(final(text)@ =~= old(text)@ + spec_decimal_text(n as nat));
    }
}

/// Appends the debug text of `strategy` to `text`.
pub(crate) fn append_strategy(text: &mut String, strategy: &InterruptStrategy)
    ensures
        final(text)@ == old(text)@ + spec_strategy_text(*strategy),
{
    match strategy {
        InterruptStrategy::IgnoreInterruptions => text.append("IgnoreInterruptions"),
        InterruptStrategy::FinishCurrent => text.append("FinishCurrent"),
        InterruptStrategy::PollNextN(n) => {
            text.append("PollNextN(");
            append_decimal(text, *n);
            text.append(")");
            assert(final(text)@ =~= old(text)@ + spec_strategy_text(*strategy));
        },
    }
}

/// Appends the opening of the debug text of `holder` to `text`.
pub(crate) fn append_holder_open<T>(text: &mut String, holder: &OwnedOrMutRef<'_, T>)
    ensures
        final(text)@ == old(text)@ + match *holder {
            OwnedOrMutRef::Owned(_) => "Owned("@,
            OwnedOrMutRef::MutRef(_) => "MutRef("@,
        },
{
    match holder {
        OwnedOrMutRef::Owned(_) => text.append("Owned("),
        OwnedOrMutRef::MutRef(_) => text.append("MutRef("),
    }
}

/// Appends the debug text of `interruptibility` to `text`, with `rx_text`
/// as the debug text of the receiver.
pub(crate) fn append_interruptibility(
    text: &mut String,
    interruptibility: &Interruptibility<'_>,
    rx_text: &str,
)
    ensures
        final(text)@ == old(text)@ + spec_interruptibility_text(*interruptibility, rx_text@),
{
    match interruptibility {
        Interruptibility::NonInterruptible => text.append("NonInterruptible"),
        Interruptibility::Interruptible { interrupt_rx, interrupt_strategy } => {
            text.append("Interruptible { interrupt_rx: ");
            append_holder_open(text, interrupt_rx);
            text.append(rx_text);
            text.append(")");
            text.append(", interrupt_strategy: ");
            append_strategy(text, interrupt_strategy);
            text.append(" }");
            assert(final(text)@ =~= old(text)@ + spec_interruptibility_text(
                *interruptibility,
                rx_text@,
            ));
        },
    }
}

/// Appends the debug text of a held poll count to `text`.
pub(crate) fn append_count(text: &mut String, count: &OwnedOrMutRef<'_, u64>)
    ensures
        final(text)@ == old(text)@ + spec_holder_text(*count, spec_decimal_text(count.value() as nat)),
{
    append_holder_open(text, count);
    append_decimal(text, **count);
    text.append(")");
    assert(final(text)@ =~= old(text)@ + spec_holder_text(
        *count,
        spec_decimal_text(count.value() as nat),
    ));
}

/// Appends the debug text of a held signal to `text`.
pub(crate) fn append_signal(text: &mut String, signal: &OwnedOrMutRef<'_, Option<InterruptSignal>>)
    ensures
        final(text)@ == old(text)@ + spec_holder_text(*signal, spec_signal_text(signal.value())),
{
    append_holder_open(text, signal);
    match **signal {
        Some(_) => text.append("Some(InterruptSignal)"),
        None => text.append("None"),
    }
    text.append(")");
    assert(final(text)@ =~= old(text)@ + spec_holder_text(*signal, spec_signal_text(signal.value())));
}

} // verus!
