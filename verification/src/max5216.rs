//! The MAX5216: sixteen bits of output value in a frame of three bytes.

use vstd::prelude::*;
use embedded_hal::blocking::spi::Write;
use embedded_hal::digital::v2::OutputPin;
use crate::bus::{framed, is_session, lemma_session_extends, Bus, BusEvent, TransferError};
use crate::frame::{
    encode_wide_power_down, encode_wide_write_through, wide_power_down,
    wide_write_through, PowerDownMode,
};

verus! {

/// A MAX5216 on its transport, with its chip-select line.
pub struct MAX5216<SPI, CS> {
    bus: Bus<SPI, CS>,
}

impl<SPI, CS> MAX5216<SPI, CS> {
    /// The calls that this driver has made on its two resources, oldest first.
    pub closed spec fn trace(&self) -> Seq<BusEvent> {
        self.bus.trace()
    }

    /// The transport that this driver owns.
    pub closed spec fn transport(&self) -> SPI {
        self.bus.transport()
    }

    /// The chip-select line that this driver owns.
    pub closed spec fn control_line(&self) -> CS {
        self.bus.control_line()
    }
}

impl<SPI, CS> MAX5216<SPI, CS> where SPI: Write<u8>, CS: OutputPin {
    /// Construct a new MAX5216 driver. The chip-select line is driven high
    /// once; the transport is not used.
    pub fn new(spi: SPI, chip_select: CS) -> (dac: Self)
        ensures
            dac.trace() == seq![BusEvent::PinHigh],
            dac.transport() == spi,
            is_session(dac.trace()),
    {
        let mut bus = Bus::new(spi, chip_select);
        bus.idle();
        assert(bus.trace() =~= seq![BusEvent::PinHigh]);
        MAX5216 { bus }
    }

    /// Sends the three bytes of one frame while the converter is selected.
    pub fn send_spi(&mut self, data: &[u8; 3]) -> (outcome: Result<(), TransferError>)
        ensures
            final(self).trace() == old(self).trace() + framed(data@, outcome),
            is_session(old(self).trace()) ==> is_session(final(self).trace()),
    {
        proof {
            if is_session(self.bus.trace()) {
                lemma_session_extends(self.bus.trace());
            }
        }
        self.bus.transfer(data.as_slice())
    }

    /// Set power down mode
    pub fn power_down(&mut self, mode: PowerDownMode) -> (outcome: Result<(), TransferError>)
        ensures
            final(self).trace() == old(self).trace() + framed(wide_power_down(mode), outcome),
            is_session(old(self).trace()) ==> is_session(final(self).trace()),
    {
        let frame = encode_wide_power_down(mode);
        self.send_spi(&frame)
    }

    /// Write data to the dac
    pub fn write_through(&mut self, data: u16) -> (outcome: Result<(), TransferError>)
        ensures
            final(self).trace() == old(self).trace() + framed(wide_write_through(data), outcome),
            is_session(old(self).trace()) ==> is_session(final(self).trace()),
    {
        let frame = encode_wide_write_through(data);
        self.send_spi(&frame)
    }

    /// Destroy the driver and return the wrapped SPI driver and chip select pin to be re-used
    pub fn destroy(self) -> (parts: (SPI, CS))
        ensures
            parts.0 == self.transport(),
            parts.1 == self.control_line(),
    {
        self.bus.release()
    }
}

} // verus!
