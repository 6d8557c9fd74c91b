//! The transport and the chip-select line of one converter, and the framing
//! of a transfer between them.
//!
//! The chip-select line is active low: it is driven low before the bytes of a
//! frame go out and high again after them, and it idles high.
//!
//! Nothing is known here of what an implementation of the two `embedded_hal`
//! traits does when it is called. What can be stated is which calls were made,
//! in which order and with which bytes: that is the [`Bus::trace`].

use vstd::prelude::*;
use embedded_hal::blocking::spi::Write;
use embedded_hal::digital::v2::OutputPin;

verus! {

/// The transport reported that a write failed.
///
/// The transport's own error is an associated type of
/// `embedded_hal::blocking::spi::Write`, which the verifier cannot name in a
/// signature. This type stands for every value of it: it tells that the write
/// failed, not why.
#[derive(Debug, Copy, Clone, PartialEq, Eq, Structural)]
pub struct TransferError;

/// One call made on the transport or on the chip-select line.
pub enum BusEvent {
    /// The chip-select line was driven high: the converter is released.
    PinHigh,
    /// The chip-select line was driven low: the converter is selected.
    PinLow,
    /// These bytes were handed to the transport in one write, which ended
    /// with this result.
    Write(Seq<u8>, Result<(), TransferError>),
}

/// The calls of one framed transfer: select, write the whole frame, release.
pub open spec fn framed(frame: Seq<u8>, outcome: Result<(), TransferError>) -> Seq<BusEvent> {
    seq![BusEvent::PinLow, BusEvent::Write(frame, outcome), BusEvent::PinHigh]
}

/// Whether `trace` is the history of a converter that was set idle once and
/// has since then seen whole framed transfers only: one `PinHigh`, and after
/// it any number of times `PinLow`, one `Write`, `PinHigh`.
pub open spec fn is_session(trace: Seq<BusEvent>) -> bool
    decreases trace.len(),
{
    if trace.len() < 4 {
        trace =~= seq![BusEvent::PinHigh]
    } else {
        let before = trace.len() - 3;
        &&& is_session(trace.take(before))
        &&& trace[before] == BusEvent::PinLow
        &&& trace[before + 1] is Write
        &&& trace[before + 2] == BusEvent::PinHigh
    }
}

/// A session goes on as a session when one more framed transfer is added,
/// whatever the frame and whatever the result of its write.
pub proof fn lemma_session_extends(trace: Seq<BusEvent>)
    requires
        is_session(trace),
    ensures
        forall|frame: Seq<u8>, outcome: Result<(), TransferError>|
            is_session(trace + #[trigger] framed(frame, outcome)),
{
    assert forall|frame: Seq<u8>, outcome: Result<(), TransferError>|
        is_session(trace + #[trigger] framed(frame, outcome)) by {
        let longer = trace + framed(frame, outcome);
        assert(trace.len() >= 1);
        assert(longer.take(longer.len() - 3) =~= trace);
    }
}

/// A session starts and ends with the chip-select line high: the converter is
/// released before the first command and after every command.
pub proof fn lemma_session_idle(trace: Seq<BusEvent>)
    requires
        is_session(trace),
    ensures
        trace.len() >= 1,
        trace.len() % 3 == 1,
        trace.first() == BusEvent::PinHigh,
        trace.last() == BusEvent::PinHigh,
    decreases trace.len(),
{
    if trace.len() >= 4 {
        let before = trace.len() - 3;
        lemma_session_idle(trace.take(before));
    }
}

/// In a session every write stands between the two pin calls of its own
/// frame: the call right before it drove the chip-select line low, the call
/// right after it drove the line high, and that also when the write failed.
pub proof fn lemma_session_write_is_framed(trace: Seq<BusEvent>, at: int)
    requires
        is_session(trace),
        0 <= at < trace.len(),
        trace[at] is Write,
    ensures
        1 <= at < trace.len() - 1,
        trace[at - 1] == BusEvent::PinLow,
        trace[at + 1] == BusEvent::PinHigh,
    decreases trace.len(),
{
    if trace.len() >= 4 {
        let before = trace.len() - 3;
        if at < before {
            lemma_session_write_is_framed(trace.take(before), at);
        }
    }
}

/// In a session the chip-select line is driven low only to send a frame: the
/// call right after it is the write, and no second frame starts before the
/// line was driven high again.
pub proof fn lemma_session_select_is_followed_by_write(trace: Seq<BusEvent>, at: int)
    requires
        is_session(trace),
        0 <= at < trace.len(),
        trace[at] == BusEvent::PinLow,
    ensures
        at + 2 < trace.len(),
        trace[at + 1] is Write,
        trace[at + 2] == BusEvent::PinHigh,
    decreases trace.len(),
{
    if trace.len() >= 4 {
        let before = trace.len() - 3;
        if at < before {
            lemma_session_select_is_followed_by_write(trace.take(before), at);
        }
    }
}

/// A transport together with the chip-select line of the converter on it.
pub struct Bus<SPI, CS> {
    spi: SPI,
    chip_select: CS,
    trace: Ghost<Seq<BusEvent>>,
}

impl<SPI, CS> Bus<SPI, CS> {
    /// The calls made through this value since it was put together, oldest first.
    pub closed spec fn trace(&self) -> Seq<BusEvent> {
        self.trace@
    }

    /// The transport that this value owns.
    pub closed spec fn transport(&self) -> SPI {
        self.spi
    }

    /// The chip-select line that this value owns.
    pub closed spec fn control_line(&self) -> CS {
        self.chip_select
    }

    /// Takes ownership of the two resources. No call is made on either.
    pub fn new(spi: SPI, chip_select: CS) -> (bus: Self)
        ensures
            bus.transport() == spi,
            bus.control_line() == chip_select,
            bus.trace() == Seq::<BusEvent>::empty(),
    {
        Bus { spi, chip_select, trace: Ghost(Seq::empty()) }
    }

    /// Gives the two resources back. No call is made on either.
    pub fn release(self) -> (parts: (SPI, CS))
        ensures
            parts.0 == self.transport(),
            parts.1 == self.control_line(),
    {
        (self.spi, self.chip_select)
    }
}

impl<SPI, CS> Bus<SPI, CS> where CS: OutputPin {
    /// Calls `OutputPin::set_high` on the chip-select line, once, and says
    /// whether the pin reported success. The contract records the call and
    /// that the transport was not touched; of the pin it claims nothing.
    #[verifier::external_body]
    fn drive_high(&mut self) -> (driven: bool)
        ensures
            final(self).trace() == old(self).trace().push(BusEvent::PinHigh),
            final(self).transport() == old(self).transport(),
    {
        self.chip_select.set_high().is_ok()
    }

    /// Calls `OutputPin::set_low` on the chip-select line, once, and says
    /// whether the pin reported success. The contract records the call and
    /// that the transport was not touched; of the pin it claims nothing.
    #[verifier::external_body]
    fn drive_low(&mut self) -> (driven: bool)
        ensures
            final(self).trace() == old(self).trace().push(BusEvent::PinLow),
            final(self).transport() == old(self).transport(),
    {
        self.chip_select.set_low().is_ok()
    }

    /// Drives the chip-select line to its idle level, high. A fault that the
    /// pin reports is not passed on.
    pub fn idle(&mut self)
        ensures
            final(self).trace() == old(self).trace().push(BusEvent::PinHigh),
            final(self).transport() == old(self).transport(),
    {
        let _ = self.drive_high();
    }

    /// Starts a frame: selects the converter. A fault that the pin reports is
    /// not passed on.
    pub fn begin_frame(&mut self)
        ensures
            final(self).trace() == old(self).trace().push(BusEvent::PinLow),
            final(self).transport() == old(self).transport(),
    {
        let _ = self.drive_low();
    }

    /// Ends a frame: releases the converter, whatever became of the write, and
    /// passes the write's result on unchanged.
    pub fn end_frame<E>(&mut self, written: Result<(), E>) -> (outcome: Result<(), E>)
        ensures
            outcome == written,
            final(self).trace() == old(self).trace().push(BusEvent::PinHigh),
            final(self).transport() == old(self).transport(),
    {
        let _ = self.drive_high();
        written
    }
}

impl<SPI, CS> Bus<SPI, CS> where SPI: Write<u8>, CS: OutputPin {
    /// Calls `Write::write` on the transport, once, with all of `words`, and
    /// says whether it succeeded; the transport's own error value is not kept.
    /// The contract records the call, its bytes and its result, and that the
    /// chip-select line was not touched; whether the write succeeds is up to
    /// the transport.
    #[verifier::external_body]
    fn write(&mut self, words: &[u8]) -> (written: Result<(), TransferError>)
        ensures
            final(self).trace() == old(self).trace().push(BusEvent::Write(words@, written)),
            final(self).control_line() == old(self).control_line(),
    {
        match self.spi.write(words) {
            Ok(()) => Ok(()),
            Err(_) => Err(TransferError),
        }
    }

    /// Sends one frame: selects the converter, writes all of `frame` in a
    /// single call on the transport, and releases the converter again, also
    /// when the write failed. A fault that the pin reports does not stop the
    /// write and is not passed on; the result is that of the write.
    pub fn transfer(&mut self, frame: &[u8]) -> (outcome: Result<(), TransferError>)
        ensures
            final(self).trace() == old(self).trace() + framed(frame@, outcome),
    {
        self.begin_frame();
        let written = self.write(frame);
        let outcome = self.end_frame(written);
        assert(self.trace() =~= old(self).trace() + framed(frame@, outcome));
        outcome
    }
}

} // verus!
