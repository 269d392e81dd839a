//! Wire-protocol codec for a rotary absolute encoder on a point-to-point
//! serial link: encoding of measurement requests and programming commands,
//! response-frame layout computation, and decoding of the bit-packed
//! position, status, temperature, serial-number and calibration fields.
//!
//! The byte transport itself (open/read/write on a serial device) is an
//! external collaborator; this crate only computes and interprets the bytes
//! that travel over it.

use vstd::prelude::*;

mod command;
mod counter_type;
mod position;
mod position_and_detailed_status;
mod position_and_status;
mod position_and_temperature;
mod programming_command;
mod response;
mod self_calibration_status;
mod serial_number;
mod short_position;

pub use command::Command;
pub use counter_type::CounterType;
pub use position::Position;
pub use position_and_detailed_status::lemma_detailed_status_bit_independence;
pub use position_and_detailed_status::multiturn_counter_error;
pub use position_and_detailed_status::signal_too_high;
pub use position_and_detailed_status::signal_too_low;
pub use position_and_detailed_status::speed_too_high;
pub use position_and_detailed_status::temperature_out_of_range;
pub use position_and_detailed_status::PositionAndDetailedStatus;
pub use position_and_status::be_word;
pub use position_and_status::lemma_position_ignores_status_bits;
pub use position_and_status::lemma_position_is_arithmetic_shift;
pub use position_and_status::position_of_word;
pub use position_and_status::signed_of_word;
pub use position_and_status::PositionAndStatusInner;
pub use position_and_status::PositionAndStatusOuter;
pub use position_and_temperature::PositionAndTemperature;
pub use programming_command::be16_bytes;
pub use programming_command::be32_bytes;
pub use programming_command::offset_code;
pub use programming_command::word_of_signed;
pub use programming_command::ProgrammingCommand;
pub use response::PrefixedResponse;
pub use self_calibration_status::calibration_counter;
pub use self_calibration_status::calibration_out_of_range;
pub use self_calibration_status::calibration_timeout;
pub use self_calibration_status::SelfCalibrationStatus;
pub use serial_number::SerialNumber;
pub use short_position::ShortPosition;

verus! {

/// The device's single-turn position resolution: positions are 14-bit
/// signed counts, so one revolution spans this many counts.
pub const COUNTS_PER_REVOLUTION: u16 = 16384;

} // verus!
