use vstd::prelude::*;

verus! {

/// The six measurement requests, each sent to the device as a single byte.
#[derive(Clone, Copy, Debug)]
pub enum Command {
    PositionRequest,
    ShortPositionRequest,
    PositionRequestAndDetailedStatus,
    PositionRequestAndTemperature,
    SerialNumber,
    SelfCalibrationStatusRequest,
}

impl Command {
    /// The byte that identifies this request on the wire; a response frame
    /// answering the request starts with the same byte.
    pub open spec fn wire_byte(self) -> u8 {
        match self {
            Command::PositionRequest => 0x31,
            Command::ShortPositionRequest => 0x33,
            Command::PositionRequestAndDetailedStatus => 0x64,
            Command::PositionRequestAndTemperature => 0x74,
            Command::SerialNumber => 0x76,
            Command::SelfCalibrationStatusRequest => 0x69,
        }
    }

    pub fn to_byte(self) -> (b: u8)
        ensures
            b == self.wire_byte(),
    {
        match self {
            Command::PositionRequest => 0x31,
            Command::ShortPositionRequest => 0x33,
            Command::PositionRequestAndDetailedStatus => 0x64,
            Command::PositionRequestAndTemperature => 0x74,
            Command::SerialNumber => 0x76,
            Command::SelfCalibrationStatusRequest => 0x69,
        }
    }
}

} // verus!
