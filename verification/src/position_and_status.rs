use vstd::prelude::*;

use crate::counter_type::CounterType;

verus! {

/// The big-endian 16-bit word formed by two consecutive frame bytes.
pub open spec fn be_word(hi: u8, lo: u8) -> u16 {
    (hi * 256 + lo) as u16
}

/// The value of a 16-bit word read as a two's-complement signed integer.
pub open spec fn signed_of_word(w: u16) -> int {
    if w >= 0x8000 {
        w - 0x10000
    } else {
        w as int
    }
}

/// The position encoded in a 16-bit word: the signed word arithmetically
/// shifted right by two, discarding the two status bits packed into the low
/// end of the same word. The result is a 14-bit signed count in
/// [-8192, 8191].
pub open spec fn position_of_word(w: u16) -> int {
    if w / 4 >= 0x2000 {
        w / 4 - 0x4000
    } else {
        (w / 4) as int
    }
}

/// Decoding the position really is the arithmetic right shift of the signed
/// word by two bits, as the device's wire convention demands: the shift
/// preserves the sign, so negative positions decode correctly.
pub proof fn lemma_position_is_arithmetic_shift(s: i16)
    ensures
        position_of_word(s as u16) == s >> 2,
{
    let w: u16 = s as u16;
    if s >= 0 {
        assert(w / 4 < 0x2000 && s >> 2 == w / 4) by (bit_vector)
            requires
                s >= 0 && w == s as u16,
        ;
    } else {
        assert(w / 4 >= 0x2000 && s >> 2 == w / 4 - 0x4000) by (bit_vector)
            requires
                s < 0 && w == s as u16,
        ;
    }
}

/// The two low bits of the position word carry status flags, not position:
/// clearing them never changes the decoded position.
pub proof fn lemma_position_ignores_status_bits(w: u16)
    ensures
        position_of_word(w) == position_of_word(w & 0xFFFC),
{
    assert((w & 0xFFFC) / 4 == w / 4) by (bit_vector);
}

/// The core of every position/status response frame: a byte buffer together
/// with the offsets of the fields laid out inside it.
///
/// Layout, fixed at construction: an optional prefix, then (for multi-turn
/// counters) a 2-byte multiturn count, then the 2-byte position word whose
/// second byte doubles as the status byte (the status flags are bit-packed
/// into the low bits of the position word -- intentional overlap, not
/// aliasing), then an optional postfix.
pub struct PositionAndStatusInner {
    buf: Vec<u8>,
    prefix_size: usize,
    multiturn_data_offset: Option<usize>,
    position_data_offset: usize,
    status_data_offset: usize,
    postfix_offset: Option<usize>,
}

impl PositionAndStatusInner {
    /// The frame's bytes as last loaded.
    pub closed spec fn bytes(&self) -> Seq<u8> {
        self.buf@
    }

    pub closed spec fn spec_prefix_size(&self) -> int {
        self.prefix_size as int
    }

    /// Whether the layout contains a multiturn count field.
    pub closed spec fn has_multiturn(&self) -> bool {
        self.multiturn_data_offset is Some
    }

    /// Offset of the multiturn count field; meaningful only when
    /// `has_multiturn()`.
    pub closed spec fn spec_multiturn_offset(&self) -> int {
        self.multiturn_data_offset.unwrap() as int
    }

    pub closed spec fn spec_position_offset(&self) -> int {
        self.position_data_offset as int
    }

    pub closed spec fn spec_status_offset(&self) -> int {
        self.status_data_offset as int
    }

    /// Whether the layout contains a postfix field.
    pub closed spec fn has_postfix(&self) -> bool {
        self.postfix_offset is Some
    }

    /// Offset of the postfix field; meaningful only when `has_postfix()`.
    pub closed spec fn spec_postfix_offset(&self) -> int {
        self.postfix_offset.unwrap() as int
    }

    pub open spec fn spec_postfix_size(&self) -> int {
        if self.has_postfix() {
            self.bytes().len() - self.spec_postfix_offset()
        } else {
            0
        }
    }

    /// The 16-bit big-endian word holding position and status.
    pub open spec fn position_word(&self) -> u16 {
        be_word(
            self.bytes()[self.spec_position_offset()],
            self.bytes()[self.spec_position_offset() + 1],
        )
    }

    /// The status byte: the second (low) byte of the position word.
    pub open spec fn spec_status_byte(&self) -> u8 {
        self.bytes()[self.spec_status_offset()]
    }

    #[verifier::type_invariant]
    pub open spec fn wf(&self) -> bool {
        &&& self.has_multiturn() ==> self.spec_multiturn_offset() == self.spec_prefix_size()
        &&& self.spec_position_offset() == self.spec_prefix_size() + (
        if self.has_multiturn() {
            2int
        } else {
            0int
        })
        &&& self.spec_status_offset() == self.spec_position_offset() + 1
        &&& self.has_postfix() ==> self.spec_postfix_offset() == self.spec_position_offset() + 2
            && self.bytes().len() > self.spec_postfix_offset()
        &&& !self.has_postfix() ==> self.bytes().len() == self.spec_position_offset() + 2
    }

    /// Computes the layout for the given counter type, prefix size and
    /// postfix size, and allocates a zeroed buffer of the total frame size.
    pub fn new(counter_type: CounterType, prefix_size: usize, postfix_size: usize) -> (r: Self)
        requires
            prefix_size + 2 + 2 + postfix_size <= usize::MAX,
        ensures
            r.spec_prefix_size() == prefix_size,
            r.has_multiturn() == (counter_type is MultiTurn),
            r.has_multiturn() ==> r.spec_multiturn_offset() == prefix_size,
            r.spec_position_offset() == prefix_size + (
            if counter_type is MultiTurn {
                2int
            } else {
                0int
            }),
            r.spec_status_offset() == r.spec_position_offset() + 1,
            r.has_postfix() == (postfix_size > 0),
            r.has_postfix() ==> r.spec_postfix_offset() == r.spec_position_offset() + 2,
            r.spec_postfix_size() == postfix_size,
            r.bytes().len() == r.spec_position_offset() + 2 + postfix_size,
            forall|i: int| 0 <= i < r.bytes().len() ==> r.bytes()[i] == 0,
    {
        let multiturn_data_offset: Option<usize> = match counter_type {
            CounterType::SingleTurn => None,
            CounterType::MultiTurn => Some(prefix_size),
        };
        let position_data_offset: usize = match multiturn_data_offset {
            Some(u) => u + 2,
            None => prefix_size,
        };
        let status_data_offset: usize = position_data_offset + 1;
        let postfix_offset: Option<usize> = if postfix_size == 0 {
            None
        } else {
            Some(position_data_offset + 2)
        };
        let total_size: usize = match postfix_offset {
            Some(u) => u + postfix_size,
            None => position_data_offset + 2,
        };
        let buf: Vec<u8> = vec![0u8; total_size];
        assert(forall|i: int| 0 <= i < buf@.len() ==> buf@[i] == 0);
        Self { buf, prefix_size, multiturn_data_offset, position_data_offset, status_data_offset, postfix_offset }
    }

    /// The number of bytes the transport must deliver to fill this frame.
    pub fn total_size(&self) -> (n: usize)
        ensures
            n == self.bytes().len(),
    {
        self.buf.len()
    }

    /// Replaces the frame's bytes with bytes read from the transport.
    /// The layout is untouched.
    pub fn load(&mut self, data: Vec<u8>)
        requires
            data@.len() == old(self).bytes().len(),
        ensures
            final(self).bytes() == data@,
            final(self).spec_prefix_size() == old(self).spec_prefix_size(),
            final(self).has_multiturn() == old(self).has_multiturn(),
            final(self).spec_multiturn_offset() == old(self).spec_multiturn_offset(),
            final(self).spec_position_offset() == old(self).spec_position_offset(),
            final(self).spec_status_offset() == old(self).spec_status_offset(),
            final(self).has_postfix() == old(self).has_postfix(),
            final(self).spec_postfix_offset() == old(self).spec_postfix_offset(),
        no_unwind
    {
        proof {
            use_type_invariant(&*self);
        }
        self.buf = data;
    }

    pub fn prefix_size(&self) -> (n: usize)
        ensures
            n == self.spec_prefix_size(),
    {
        self.prefix_size
    }

    pub fn multiturn_offset(&self) -> (r: Option<usize>)
        ensures
            r is Some == self.has_multiturn(),
            r is Some ==> r.unwrap() == self.spec_multiturn_offset(),
    {
        self.multiturn_data_offset
    }

    pub fn position_offset(&self) -> (n: usize)
        ensures
            n == self.spec_position_offset(),
    {
        self.position_data_offset
    }

    pub fn status_offset(&self) -> (n: usize)
        ensures
            n == self.spec_status_offset(),
    {
        self.status_data_offset
    }

    pub fn postfix_offset(&self) -> (r: Option<usize>)
        ensures
            r is Some == self.has_postfix(),
            r is Some ==> r.unwrap() == self.spec_postfix_offset(),
    {
        self.postfix_offset
    }

    /// The multiturn revolution count, if the layout carries one: a signed
    /// big-endian 16-bit read at the multiturn offset.
    pub fn multiturn_count(&self) -> (r: Option<i16>)
        ensures
            r is Some == self.has_multiturn(),
            r is Some ==> r.unwrap() as int == signed_of_word(
                be_word(
                    self.bytes()[self.spec_multiturn_offset()],
                    self.bytes()[self.spec_multiturn_offset() + 1],
                ),
            ),
    {
        proof {
            use_type_invariant(&*self);
        }
        match self.multiturn_data_offset {
            None => None,
            Some(offset) => {
                let hi = self.buf[offset];
                let lo = self.buf[offset + 1];
                let w: u16 = (hi as u16) * 256 + (lo as u16);
                if w >= 0x8000 {
                    Some(((w as i32) - 0x10000) as i16)
                } else {
                    Some(w as i16)
                }
            },
        }
    }

    /// The decoded position: the signed big-endian word at the position
    /// offset, arithmetically shifted right by two to discard the status
    /// bits. Always in [-8192, 8191].
    pub fn position(&self) -> (r: i16)
        ensures
            r as int == position_of_word(self.position_word()),
            -8192 <= r <= 8191,
    {
        proof {
            use_type_invariant(&*self);
        }
        let hi = self.buf[self.position_data_offset];
        let lo = self.buf[self.position_data_offset + 1];
        let w: u16 = (hi as u16) * 256 + (lo as u16);
        let q: u16 = w / 4;
        if q >= 0x2000 {
            ((q as i32) - 0x4000) as i16
        } else {
            q as i16
        }
    }

    /// True when the error bit of the status byte is clear -- the device
    /// signals an error with a 0 bit, not a 1 (inverted wire convention).
    pub fn is_error(&self) -> (r: bool)
        ensures
            r == (self.spec_status_byte() & 0x02 == 0),
    {
        proof {
            use_type_invariant(&*self);
        }
        (self.buf[self.status_data_offset] & 0x02) == 0
    }

    /// True when the warning bit of the status byte is clear (inverted wire
    /// convention, as with `is_error`).
    pub fn is_warning(&self) -> (r: bool)
        ensures
            r == (self.spec_status_byte() & 0x01 == 0),
    {
        proof {
            use_type_invariant(&*self);
        }
        (self.buf[self.status_data_offset] & 0x01) == 0
    }

    /// The prefix bytes, when the layout has a prefix.
    pub fn prefix(&self) -> (r: Option<&[u8]>)
        ensures
            r is Some == (self.spec_prefix_size() > 0),
            r is Some ==> r.unwrap()@ == self.bytes().subrange(0, self.spec_prefix_size()),
    {
        proof {
            use_type_invariant(&*self);
        }
        if self.prefix_size == 0 {
            None
        } else {
            Some(&self.buf[0..self.prefix_size])
        }
    }

    /// The postfix bytes, when the layout has a postfix.
    pub fn postfix(&self) -> (r: Option<&[u8]>)
        ensures
            r is Some == self.has_postfix(),
            r is Some ==> r.unwrap()@ == self.bytes().subrange(
                self.spec_postfix_offset(),
                self.bytes().len() as int,
            ),
    {
        proof {
            use_type_invariant(&*self);
        }
        match self.postfix_offset {
            None => None,
            Some(offset) => Some(&self.buf[offset..self.buf.len()]),
        }
    }

    /// The total position in counts: the multiturn count (0 when absent)
    /// times one revolution, plus the within-turn position. The angle in
    /// radians is 2 * pi * counts / COUNTS_PER_REVOLUTION; the final
    /// floating-point scaling is left to the caller.
    pub fn angle_counts(&self) -> (r: i32)
        ensures
            r == (
            if self.has_multiturn() {
                signed_of_word(
                    be_word(
                        self.bytes()[self.spec_multiturn_offset()],
                        self.bytes()[self.spec_multiturn_offset() + 1],
                    ),
                )
            } else {
                0int
            }) * 16384 + position_of_word(self.position_word()),
    {
        let mc: i32 = match self.multiturn_count() {
            Some(count) => count as i32,
            None => 0,
        };
        let p = self.position();
        mc * 16384 + (p as i32)
    }
}

/// A response variant built by composition around `PositionAndStatusInner`:
/// exposes the shared decoder it embeds.
pub trait PositionAndStatusOuter {
    spec fn spec_inner(&self) -> PositionAndStatusInner;

    fn inner(&self) -> (r: &PositionAndStatusInner)
        ensures
            *r == self.spec_inner(),
    ;
}

} // verus!
