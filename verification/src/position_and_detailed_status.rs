use vstd::prelude::*;

use crate::command::Command;
use crate::counter_type::CounterType;
use crate::position_and_status::be_word;
use crate::position_and_status::position_of_word;
use crate::position_and_status::signed_of_word;
use crate::position_and_status::PositionAndStatusInner;
use crate::position_and_status::PositionAndStatusOuter;
use crate::response::PrefixedResponse;

verus! {

/// The response to a position request with detailed status: the base layout
/// followed by a one-byte postfix of diagnostic flag bits.
pub struct PositionAndDetailedStatus {
    counter_type: CounterType,
    inner: PositionAndStatusInner,
}

impl PositionAndDetailedStatus {
    #[verifier::type_invariant]
    spec fn wf(&self) -> bool {
        &&& self.inner.spec_prefix_size() == 1
        &&& self.inner.has_multiturn() == (self.counter_type is MultiTurn)
        &&& self.inner.spec_postfix_size() == 1
    }

    pub closed spec fn spec_counter_type(&self) -> CounterType {
        self.counter_type
    }

    pub fn new(counter_type: CounterType) -> (r: Self)
        ensures
            r.spec_counter_type() == counter_type,
            r.spec_inner().spec_prefix_size() == 1,
            r.spec_inner().has_multiturn() == (counter_type is MultiTurn),
            r.spec_inner().has_multiturn() ==> r.spec_inner().spec_multiturn_offset() == 1,
            r.spec_inner().spec_position_offset() == 1 + (
            if counter_type is MultiTurn {
                2int
            } else {
                0int
            }),
            r.spec_inner().spec_status_offset() == r.spec_inner().spec_position_offset() + 1,
            r.spec_inner().spec_postfix_size() == 1,
            r.spec_inner().has_postfix(),
            r.spec_inner().spec_postfix_offset() == r.spec_inner().spec_position_offset() + 2,
            r.spec_inner().bytes().len() == r.spec_inner().spec_position_offset() + 3,
            forall|i: int|
                0 <= i < r.spec_inner().bytes().len() ==> r.spec_inner().bytes()[i] == 0,
    {
        Self { counter_type, inner: PositionAndStatusInner::new(counter_type, 1, 1) }
    }

    pub fn counter_type(&self) -> (c: CounterType)
        ensures
            c == self.spec_counter_type(),
    {
        self.counter_type
    }

    /// The number of bytes the transport must deliver to fill this frame.
    pub fn total_size(&self) -> (n: usize)
        ensures
            n == self.spec_inner().bytes().len(),
    {
        self.inner.total_size()
    }

    /// Replaces the frame's bytes with bytes read from the transport.
    pub fn load(&mut self, data: Vec<u8>)
        requires
            data@.len() == old(self).spec_inner().bytes().len(),
        ensures
            final(self).spec_inner().bytes() == data@,
            final(self).spec_counter_type() == old(self).spec_counter_type(),
            final(self).spec_inner().spec_prefix_size() == old(self).spec_inner().spec_prefix_size(),
            final(self).spec_inner().has_multiturn() == old(self).spec_inner().has_multiturn(),
            final(self).spec_inner().spec_multiturn_offset() == old(
                self,
            ).spec_inner().spec_multiturn_offset(),
            final(self).spec_inner().spec_position_offset() == old(
                self,
            ).spec_inner().spec_position_offset(),
            final(self).spec_inner().spec_status_offset() == old(
                self,
            ).spec_inner().spec_status_offset(),
            final(self).spec_inner().has_postfix() == old(self).spec_inner().has_postfix(),
            final(self).spec_inner().spec_postfix_offset() == old(
                self,
            ).spec_inner().spec_postfix_offset(),
    {
        proof {
            use_type_invariant(&*self);
        }
        self.inner.load(data);
    }

    /// The multiturn revolution count, when the counter type carries one.
    pub fn multiturn_count(&self) -> (r: Option<i16>)
        ensures
            r is Some == self.spec_inner().has_multiturn(),
            r is Some ==> r.unwrap() as int == signed_of_word(
                be_word(
                    self.spec_inner().bytes()[self.spec_inner().spec_multiturn_offset()],
                    self.spec_inner().bytes()[self.spec_inner().spec_multiturn_offset() + 1],
                ),
            ),
    {
        self.inner.multiturn_count()
    }

    /// The decoded 14-bit signed position.
    pub fn position(&self) -> (r: i16)
        ensures
            r as int == position_of_word(self.spec_inner().position_word()),
            -8192 <= r <= 8191,
    {
        self.inner.position()
    }

    /// True when the status error bit is clear (inverted wire convention).
    pub fn is_error(&self) -> (r: bool)
        ensures
            r == (self.spec_inner().spec_status_byte() & 0x02 == 0),
    {
        self.inner.is_error()
    }

    /// True when the status warning bit is clear (inverted wire convention).
    pub fn is_warning(&self) -> (r: bool)
        ensures
            r == (self.spec_inner().spec_status_byte() & 0x01 == 0),
    {
        self.inner.is_warning()
    }

    /// The total position in counts; the angle in radians is
    /// 2 * pi * counts / COUNTS_PER_REVOLUTION.
    pub fn angle_counts(&self) -> (r: i32)
        ensures
            r == (
            if self.spec_inner().has_multiturn() {
                signed_of_word(
                    be_word(
                        self.spec_inner().bytes()[self.spec_inner().spec_multiturn_offset()],
                        self.spec_inner().bytes()[self.spec_inner().spec_multiturn_offset() + 1],
                    ),
                )
            } else {
                0int
            }) * 16384 + position_of_word(self.spec_inner().position_word()),
    {
        self.inner.angle_counts()
    }

    /// The postfix flag byte.
    pub open spec fn spec_detailed_status(&self) -> u8 {
        self.spec_inner().bytes()[self.spec_inner().spec_postfix_offset()]
    }

    pub fn detailed_status(&self) -> (b: u8)
        ensures
            b == self.spec_detailed_status(),
    {
        proof {
            use_type_invariant(&*self);
            use_type_invariant(&self.inner);
        }
        let p = self.inner.postfix();
        let bytes = p.unwrap();
        assert(bytes@[0] == self.spec_detailed_status());
        bytes[0]
    }

    pub fn is_signal_too_high(&self) -> (r: bool)
        ensures
            r == signal_too_high(self.spec_detailed_status()),
    {
        (self.detailed_status() & 0x80) != 0
    }

    pub fn is_signal_too_low(&self) -> (r: bool)
        ensures
            r == signal_too_low(self.spec_detailed_status()),
    {
        (self.detailed_status() & 0x40) != 0
    }

    pub fn is_temperature_out_of_range(&self) -> (r: bool)
        ensures
            r == temperature_out_of_range(self.spec_detailed_status()),
    {
        (self.detailed_status() & 0x20) != 0
    }

    pub fn is_speed_too_high(&self) -> (r: bool)
        ensures
            r == speed_too_high(self.spec_detailed_status()),
    {
        (self.detailed_status() & 0x10) != 0
    }

    pub fn is_multiturn_counter_error(&self) -> (r: bool)
        ensures
            r == multiturn_counter_error(self.spec_detailed_status()),
    {
        (self.detailed_status() & 0x08) != 0
    }
}

/// The signal-amplitude-too-high diagnostic bit of a detailed-status byte.
pub open spec fn signal_too_high(status: u8) -> bool {
    status & 0x80 != 0
}

/// The signal-amplitude-too-low diagnostic bit.
pub open spec fn signal_too_low(status: u8) -> bool {
    status & 0x40 != 0
}

/// The temperature-out-of-range diagnostic bit.
pub open spec fn temperature_out_of_range(status: u8) -> bool {
    status & 0x20 != 0
}

/// The speed-too-high diagnostic bit.
pub open spec fn speed_too_high(status: u8) -> bool {
    status & 0x10 != 0
}

/// The multiturn-counter-error diagnostic bit.
pub open spec fn multiturn_counter_error(status: u8) -> bool {
    status & 0x08 != 0
}

/// Each diagnostic flag is controlled by its own bit alone: a status byte
/// with exactly one flag's mask set yields that flag and no other, and a
/// byte with all five masks set yields all five.
pub proof fn lemma_detailed_status_bit_independence(status: u8)
    by (bit_vector)
    ensures
        status == 0x80 ==> signal_too_high(status) && !signal_too_low(status)
            && !temperature_out_of_range(status) && !speed_too_high(status)
            && !multiturn_counter_error(status),
        status == 0x40 ==> !signal_too_high(status) && signal_too_low(status)
            && !temperature_out_of_range(status) && !speed_too_high(status)
            && !multiturn_counter_error(status),
        status == 0x20 ==> !signal_too_high(status) && !signal_too_low(status)
            && temperature_out_of_range(status) && !speed_too_high(status)
            && !multiturn_counter_error(status),
        status == 0x10 ==> !signal_too_high(status) && !signal_too_low(status)
            && !temperature_out_of_range(status) && speed_too_high(status)
            && !multiturn_counter_error(status),
        status == 0x08 ==> !signal_too_high(status) && !signal_too_low(status)
            && !temperature_out_of_range(status) && !speed_too_high(status)
            && multiturn_counter_error(status),
        status == 0xF8 ==> signal_too_high(status) && signal_too_low(status)
            && temperature_out_of_range(status) && speed_too_high(status)
            && multiturn_counter_error(status),
{
}

impl PositionAndStatusOuter for PositionAndDetailedStatus {
    closed spec fn spec_inner(&self) -> PositionAndStatusInner {
        self.inner
    }

    fn inner(&self) -> (r: &PositionAndStatusInner) {
        &self.inner
    }
}

impl PrefixedResponse for PositionAndDetailedStatus {
    open spec fn spec_prefix(&self) -> u8 {
        self.spec_inner().bytes()[0]
    }

    open spec fn spec_command() -> Command {
        Command::PositionRequestAndDetailedStatus
    }

    fn command() -> (c: Command) {
        Command::PositionRequestAndDetailedStatus
    }

    fn prefix(&self) -> (b: u8) {
        proof {
            use_type_invariant(&*self);
            use_type_invariant(&self.inner);
        }
        let p = self.inner.prefix();
        let bytes = p.unwrap();
        assert(bytes@ == self.spec_inner().bytes().subrange(0, 1));
        assert(bytes@[0] == self.spec_inner().bytes()[0]);
        bytes[0]
    }
}

} // verus!
