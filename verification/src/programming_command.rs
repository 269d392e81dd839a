use vstd::prelude::*;

use crate::command::Command;
use crate::COUNTS_PER_REVOLUTION;

verus! {

/// The unsigned 16-bit wire representation of a signed 16-bit value
/// (two's complement).
pub open spec fn word_of_signed(x: i16) -> u16 {
    if x >= 0 {
        x as u16
    } else {
        (x + 0x10000) as u16
    }
}

/// A 16-bit value as two big-endian bytes.
pub open spec fn be16_bytes(w: u16) -> Seq<u8> {
    seq![(w / 0x100) as u8, (w % 0x100) as u8]
}

/// A 32-bit value as four big-endian bytes.
pub open spec fn be32_bytes(x: u32) -> Seq<u8> {
    seq![
        (x / 0x1000000) as u8,
        ((x / 0x10000) % 0x100) as u8,
        ((x / 0x100) % 0x100) as u8,
        (x % 0x100) as u8,
    ]
}

/// The unsigned count a position offset is sent as: a non-negative offset is
/// sent as is; a negative offset wraps into the device's unsigned count
/// space by adding one revolution of counts. An offset below a full negative
/// revolution leaves even that sum negative, and the value then wraps as an
/// unsigned 32-bit quantity.
pub open spec fn offset_code(offset: i16) -> u32 {
    if offset >= 0 {
        offset as u32
    } else {
        let wrapped = offset + COUNTS_PER_REVOLUTION;
        if wrapped >= 0 {
            wrapped as u32
        } else {
            (wrapped + 0x1_0000_0000) as u32
        }
    }
}

/// The eight device-configuration operations. Each is sent as a one-letter
/// opcode, preceded by the unlock sequence and followed by the variant's
/// payload bytes, if any.
#[derive(Clone, Copy, Debug)]
pub enum ProgrammingCommand {
    PositionOffsetSetting(i16),
    MultiturnCounterSetting(i16),
    BaudRateSetting(u32),
    ContinuousResponseSetting { auto_start: bool, command: Command, period_micros: u16 },
    ContinuousResponseStart,
    ContinuousResponseStop,
    ConfigurationParametersSave,
    ConfigurationParametersReset,
}

impl ProgrammingCommand {
    /// The one-letter ASCII opcode identifying this operation on the wire:
    /// `Z`, `M`, `B`, `T`, `S`, `P`, `c`, `r` in the order the variants are
    /// declared.
    pub open spec fn opcode(self) -> u8 {
        match self {
            ProgrammingCommand::PositionOffsetSetting(_) => 0x5A,
            ProgrammingCommand::MultiturnCounterSetting(_) => 0x4D,
            ProgrammingCommand::BaudRateSetting(_) => 0x42,
            ProgrammingCommand::ContinuousResponseSetting { .. } => 0x54,
            ProgrammingCommand::ContinuousResponseStart => 0x53,
            ProgrammingCommand::ContinuousResponseStop => 0x50,
            ProgrammingCommand::ConfigurationParametersSave => 0x63,
            ProgrammingCommand::ConfigurationParametersReset => 0x72,
        }
    }

    /// The payload bytes following the opcode, if the variant carries any:
    /// fixed-width big-endian fields.
    pub open spec fn payload(self) -> Option<Seq<u8>> {
        match self {
            ProgrammingCommand::PositionOffsetSetting(offset) => Some(
                be32_bytes(offset_code(offset)),
            ),
            ProgrammingCommand::MultiturnCounterSetting(count) => Some(
                seq![0u8, 0u8] + be16_bytes(word_of_signed(count)),
            ),
            ProgrammingCommand::BaudRateSetting(baud_rate) => Some(be32_bytes(baud_rate)),
            ProgrammingCommand::ContinuousResponseSetting { auto_start, command, period_micros } => Some(
                seq![
                    (if auto_start {
                        1u8
                    } else {
                        0u8
                    }),
                    command.wire_byte(),
                ] + be16_bytes(period_micros),
            ),
            _ => None,
        }
    }

    /// The four bytes that unlock programming mode, sent before the opcode.
    pub open spec fn unlock_sequence() -> Seq<u8> {
        seq![0xCDu8, 0xEFu8, 0x89u8, 0xABu8]
    }

    /// The full wire encoding of the command: unlock sequence, opcode,
    /// payload. The sender must write these bytes one at a time, waiting for
    /// the device's echo of each byte before the next.
    pub open spec fn wire_bytes(self) -> Seq<u8> {
        Self::unlock_sequence() + seq![self.opcode()] + (match self.payload() {
            Some(payload) => payload,
            None => seq![],
        })
    }

    pub fn to_byte(self) -> (b: u8)
        ensures
            b == self.opcode(),
    {
        match self {
            ProgrammingCommand::PositionOffsetSetting(_) => 0x5A,
            ProgrammingCommand::MultiturnCounterSetting(_) => 0x4D,
            ProgrammingCommand::BaudRateSetting(_) => 0x42,
            ProgrammingCommand::ContinuousResponseSetting { .. } => 0x54,
            ProgrammingCommand::ContinuousResponseStart => 0x53,
            ProgrammingCommand::ContinuousResponseStop => 0x50,
            ProgrammingCommand::ConfigurationParametersSave => 0x63,
            ProgrammingCommand::ConfigurationParametersReset => 0x72,
        }
    }

    /// The payload bytes of this command, if it carries any.
    pub fn additional_data(&self) -> (r: Option<Vec<u8>>)
        ensures
            r is Some == self.payload() is Some,
            r is Some ==> r.unwrap()@ == self.payload().unwrap(),
    {
        match self {
            ProgrammingCommand::PositionOffsetSetting(offset) => {
                let code: u32 = if *offset >= 0 {
                    *offset as u32
                } else {
                    let wrapped: i32 = (*offset as i32) + (COUNTS_PER_REVOLUTION as i32);
                    if wrapped >= 0 {
                        wrapped as u32
                    } else {
                        ((wrapped as i64) + 0x1_0000_0000i64) as u32
                    }
                };
                Some(be32_vec(code))
            },
            ProgrammingCommand::MultiturnCounterSetting(count) => {
                let w: u16 = if *count >= 0 {
                    *count as u16
                } else {
                    ((*count as i32) + 0x10000) as u16
                };
                let mut data: Vec<u8> = Vec::new();
                data.push(0);
                data.push(0);
                let mut tail = be16_vec(w);
                data.append(&mut tail);
                assert(data@ =~= seq![0u8, 0u8] + be16_bytes(w));
                Some(data)
            },
            ProgrammingCommand::BaudRateSetting(baud_rate) => Some(be32_vec(*baud_rate)),
            ProgrammingCommand::ContinuousResponseSetting { auto_start, command, period_micros } => {
                let mut data: Vec<u8> = Vec::new();
                data.push(if *auto_start {
                    1
                } else {
                    0
                });
                data.push(command.to_byte());
                let mut tail = be16_vec(*period_micros);
                data.append(&mut tail);
                assert(data@ =~= self.payload().unwrap());
                Some(data)
            },
            _ => None,
        }
    }

    /// The complete byte sequence this command puts on the wire.
    pub fn to_wire_bytes(&self) -> (r: Vec<u8>)
        ensures
            r@ == self.wire_bytes(),
    {
        let mut bytes: Vec<u8> = Vec::new();
        bytes.push(0xCD);
        bytes.push(0xEF);
        bytes.push(0x89);
        bytes.push(0xAB);
        bytes.push(self.to_byte());
        match self.additional_data() {
            Some(mut additional) => bytes.append(&mut additional),
            None => {},
        }
        assert(bytes@ =~= self.wire_bytes());
        bytes
    }
}

/// Pushes a 16-bit value as two big-endian bytes.
fn be16_vec(w: u16) -> (r: Vec<u8>)
    ensures
        r@ == be16_bytes(w),
{
    let mut v: Vec<u8> = Vec::new();
    v.push((w / 0x100) as u8);
    v.push((w % 0x100) as u8);
    assert(v@ =~= be16_bytes(w));
    v
}

/// Pushes a 32-bit value as four big-endian bytes.
fn be32_vec(x: u32) -> (r: Vec<u8>)
    ensures
        r@ == be32_bytes(x),
{
    let mut v: Vec<u8> = Vec::new();
    v.push((x / 0x1000000) as u8);
    v.push(((x / 0x10000) % 0x100) as u8);
    v.push(((x / 0x100) % 0x100) as u8);
    v.push((x % 0x100) as u8);
    assert(v@ =~= be32_bytes(x));
    v
}

} // verus!
