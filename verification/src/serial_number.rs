use vstd::prelude::*;

use vstd::utf8::encode_utf8;
use vstd::utf8::valid_utf8;

use crate::command::Command;
use crate::response::PrefixedResponse;

verus! {

/// The response to a serial-number request: a one-byte prefix followed by a
/// fixed six-byte ASCII payload.
pub struct SerialNumber {
    buf: [u8; 7],
}

impl SerialNumber {
    /// The frame's bytes as last loaded.
    pub closed spec fn bytes(&self) -> Seq<u8> {
        self.buf@
    }

    /// Allocates a zeroed frame.
    pub fn new() -> (r: Self)
        ensures
            r.bytes() =~= seq![0u8, 0u8, 0u8, 0u8, 0u8, 0u8, 0u8],
    {
        Self { buf: [0u8, 0u8, 0u8, 0u8, 0u8, 0u8, 0u8] }
    }

    /// Replaces the frame's bytes with bytes read from the transport.
    pub fn load(&mut self, data: [u8; 7])
        ensures
            final(self).bytes() == data@,
    {
        self.buf = data;
    }

    /// The number of bytes the transport must deliver to fill this frame.
    pub fn total_size(&self) -> (n: usize)
        ensures
            n == self.bytes().len(),
    {
        7
    }

    /// The serial number as text: the six payload bytes decoded as UTF-8.
    /// The device sends ASCII, but the wire can carry anything; a payload
    /// that is not valid UTF-8 yields `None` rather than a panic.
    pub fn as_str(&self) -> (r: Option<&str>)
        ensures
            r is Some <==> valid_utf8(self.bytes().subrange(1, 7)),
            r is Some ==> encode_utf8(r.unwrap()@) == self.bytes().subrange(1, 7),
    {
        utf8_from_bytes(&self.buf[1..7])
    }
}

impl PrefixedResponse for SerialNumber {
    open spec fn spec_prefix(&self) -> u8 {
        self.bytes()[0]
    }

    open spec fn spec_command() -> Command {
        Command::SerialNumber
    }

    fn command() -> (c: Command) {
        Command::SerialNumber
    }

    fn prefix(&self) -> (b: u8) {
        self.buf[0]
    }
}

/// Relies on core::str::from_utf8: it returns Ok exactly when the bytes are
/// valid UTF-8, and the returned str then views those same bytes.
#[verifier::external_body]
fn utf8_from_bytes(bytes: &[u8]) -> (r: Option<&str>)
    ensures
        r is Some <==> valid_utf8(bytes@),
        r is Some ==> encode_utf8(r.unwrap()@) == bytes@,
{
    core::str::from_utf8(bytes).ok()
}

} // verus!
