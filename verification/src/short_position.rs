use vstd::prelude::*;

use crate::command::Command;
use crate::counter_type::CounterType;
use crate::position_and_status::be_word;
use crate::position_and_status::position_of_word;
use crate::position_and_status::signed_of_word;
use crate::position_and_status::PositionAndStatusInner;
use crate::position_and_status::PositionAndStatusOuter;
use crate::response::PrefixedResponse;

verus! {

/// The response to a short position request: the same one-byte prefix and
/// position/status word as a plain position response, with no postfix and no
/// further status semantics beyond the base decoder.
pub struct ShortPosition {
    counter_type: CounterType,
    inner: PositionAndStatusInner,
}

impl ShortPosition {
    #[verifier::type_invariant]
    spec fn wf(&self) -> bool {
        &&& self.inner.spec_prefix_size() == 1
        &&& self.inner.has_multiturn() == (self.counter_type is MultiTurn)
        &&& self.inner.spec_postfix_size() == 0
    }

    pub closed spec fn spec_counter_type(&self) -> CounterType {
        self.counter_type
    }

    pub fn new(counter_type: CounterType) -> (r: Self)
        ensures
            r.spec_counter_type() == counter_type,
            r.spec_inner().spec_prefix_size() == 1,
            r.spec_inner().has_multiturn() == (counter_type is MultiTurn),
            r.spec_inner().has_multiturn() ==> r.spec_inner().spec_multiturn_offset() == 1,
            r.spec_inner().spec_position_offset() == 1 + (
            if counter_type is MultiTurn {
                2int
            } else {
                0int
            }),
            r.spec_inner().spec_status_offset() == r.spec_inner().spec_position_offset() + 1,
            r.spec_inner().spec_postfix_size() == 0,
            r.spec_inner().bytes().len() == r.spec_inner().spec_position_offset() + 2,
            forall|i: int|
                0 <= i < r.spec_inner().bytes().len() ==> r.spec_inner().bytes()[i] == 0,
    {
        Self { counter_type, inner: PositionAndStatusInner::new(counter_type, 1, 0) }
    }

    pub fn counter_type(&self) -> (c: CounterType)
        ensures
            c == self.spec_counter_type(),
    {
        self.counter_type
    }

    /// The number of bytes the transport must deliver to fill this frame.
    pub fn total_size(&self) -> (n: usize)
        ensures
            n == self.spec_inner().bytes().len(),
    {
        self.inner.total_size()
    }

    /// Replaces the frame's bytes with bytes read from the transport.
    pub fn load(&mut self, data: Vec<u8>)
        requires
            data@.len() == old(self).spec_inner().bytes().len(),
        ensures
            final(self).spec_inner().bytes() == data@,
            final(self).spec_counter_type() == old(self).spec_counter_type(),
            final(self).spec_inner().spec_prefix_size() == old(self).spec_inner().spec_prefix_size(),
            final(self).spec_inner().has_multiturn() == old(self).spec_inner().has_multiturn(),
            final(self).spec_inner().spec_multiturn_offset() == old(
                self,
            ).spec_inner().spec_multiturn_offset(),
            final(self).spec_inner().spec_position_offset() == old(
                self,
            ).spec_inner().spec_position_offset(),
            final(self).spec_inner().spec_status_offset() == old(
                self,
            ).spec_inner().spec_status_offset(),
            final(self).spec_inner().has_postfix() == old(self).spec_inner().has_postfix(),
            final(self).spec_inner().spec_postfix_offset() == old(
                self,
            ).spec_inner().spec_postfix_offset(),
    {
        proof {
            use_type_invariant(&*self);
        }
        self.inner.load(data);
    }

    /// The multiturn revolution count, when the counter type carries one.
    pub fn multiturn_count(&self) -> (r: Option<i16>)
        ensures
            r is Some == self.spec_inner().has_multiturn(),
            r is Some ==> r.unwrap() as int == signed_of_word(
                be_word(
                    self.spec_inner().bytes()[self.spec_inner().spec_multiturn_offset()],
                    self.spec_inner().bytes()[self.spec_inner().spec_multiturn_offset() + 1],
                ),
            ),
    {
        self.inner.multiturn_count()
    }

    /// The decoded 14-bit signed position.
    pub fn position(&self) -> (r: i16)
        ensures
            r as int == position_of_word(self.spec_inner().position_word()),
            -8192 <= r <= 8191,
    {
        self.inner.position()
    }

    /// True when the status error bit is clear (inverted wire convention).
    pub fn is_error(&self) -> (r: bool)
        ensures
            r == (self.spec_inner().spec_status_byte() & 0x02 == 0),
    {
        self.inner.is_error()
    }

    /// True when the status warning bit is clear (inverted wire convention).
    pub fn is_warning(&self) -> (r: bool)
        ensures
            r == (self.spec_inner().spec_status_byte() & 0x01 == 0),
    {
        self.inner.is_warning()
    }

    /// The total position in counts; the angle in radians is
    /// 2 * pi * counts / COUNTS_PER_REVOLUTION.
    pub fn angle_counts(&self) -> (r: i32)
        ensures
            r == (
            if self.spec_inner().has_multiturn() {
                signed_of_word(
                    be_word(
                        self.spec_inner().bytes()[self.spec_inner().spec_multiturn_offset()],
                        self.spec_inner().bytes()[self.spec_inner().spec_multiturn_offset() + 1],
                    ),
                )
            } else {
                0int
            }) * 16384 + position_of_word(self.spec_inner().position_word()),
    {
        self.inner.angle_counts()
    }
}

impl PositionAndStatusOuter for ShortPosition {
    closed spec fn spec_inner(&self) -> PositionAndStatusInner {
        self.inner
    }

    fn inner(&self) -> (r: &PositionAndStatusInner) {
        &self.inner
    }
}

impl PrefixedResponse for ShortPosition {
    open spec fn spec_prefix(&self) -> u8 {
        self.spec_inner().bytes()[0]
    }

    open spec fn spec_command() -> Command {
        Command::ShortPositionRequest
    }

    fn command() -> (c: Command) {
        Command::ShortPositionRequest
    }

    fn prefix(&self) -> (b: u8) {
        proof {
            use_type_invariant(&*self);
            use_type_invariant(&self.inner);
        }
        let p = self.inner.prefix();
        let bytes = p.unwrap();
        assert(bytes@ == self.spec_inner().bytes().subrange(0, 1));
        assert(bytes@[0] == self.spec_inner().bytes()[0]);
        bytes[0]
    }
}

} // verus!
