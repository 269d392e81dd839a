use vstd::prelude::*;

use crate::command::Command;
use crate::response::PrefixedResponse;

verus! {

/// The self-calibration out-of-range bit of a calibration status byte.
pub open spec fn calibration_out_of_range(status: u8) -> bool {
    status & 0x08 != 0
}

/// The self-calibration timeout bit.
pub open spec fn calibration_timeout(status: u8) -> bool {
    status & 0x04 != 0
}

/// The self-calibration counter: the low two bits of the status byte.
pub open spec fn calibration_counter(status: u8) -> u8 {
    status & 0x03
}

/// The response to a self-calibration status request: a one-byte prefix
/// followed by a single status byte carrying two flag bits and a two-bit
/// counter.
pub struct SelfCalibrationStatus {
    buf: [u8; 2],
}

impl SelfCalibrationStatus {
    /// The frame's bytes as last loaded.
    pub closed spec fn bytes(&self) -> Seq<u8> {
        self.buf@
    }

    /// The status byte: the byte after the prefix.
    pub open spec fn spec_status_byte(&self) -> u8 {
        self.bytes()[1]
    }

    /// Allocates a zeroed frame.
    pub fn new() -> (r: Self)
        ensures
            r.bytes() =~= seq![0u8, 0u8],
    {
        Self { buf: [0u8, 0u8] }
    }

    /// Replaces the frame's bytes with bytes read from the transport.
    pub fn load(&mut self, data: [u8; 2])
        ensures
            final(self).bytes() == data@,
    {
        self.buf = data;
    }

    /// The number of bytes the transport must deliver to fill this frame.
    pub fn total_size(&self) -> (n: usize)
        ensures
            n == self.bytes().len(),
    {
        2
    }

    pub fn status_byte(&self) -> (b: u8)
        ensures
            b == self.spec_status_byte(),
    {
        self.buf[1]
    }

    /// True when the calculated calibration parameters were out of range.
    pub fn is_out_of_range(&self) -> (r: bool)
        ensures
            r == calibration_out_of_range(self.spec_status_byte()),
    {
        (self.status_byte() & 0x08) != 0
    }

    /// True when the self-calibration timed out.
    pub fn is_timeout(&self) -> (r: bool)
        ensures
            r == calibration_timeout(self.spec_status_byte()),
    {
        (self.status_byte() & 0x04) != 0
    }

    /// The self-calibration counter, always in 0..=3.
    pub fn counter(&self) -> (c: u8)
        ensures
            c == calibration_counter(self.spec_status_byte()),
            c <= 3,
    {
        let b = self.status_byte();
        let c = b & 0x03;
        assert(b & 0x03 <= 3) by (bit_vector);
        c
    }
}

impl PrefixedResponse for SelfCalibrationStatus {
    open spec fn spec_prefix(&self) -> u8 {
        self.bytes()[0]
    }

    open spec fn spec_command() -> Command {
        Command::SelfCalibrationStatusRequest
    }

    fn command() -> (c: Command) {
        Command::SelfCalibrationStatusRequest
    }

    fn prefix(&self) -> (b: u8) {
        self.buf[0]
    }
}

} // verus!
