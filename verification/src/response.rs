use vstd::prelude::*;

use crate::command::Command;

verus! {

/// A response frame that begins with a single identifying byte: the wire
/// byte of the request it answers. Reading a frame never rejects a
/// mismatched prefix automatically; the caller checks `is_valid_prefix`
/// after every receive and decides what to do with a mismatch.
pub trait PrefixedResponse {
    /// The frame's first byte as last loaded.
    spec fn spec_prefix(&self) -> u8;

    /// The request this frame type answers.
    spec fn spec_command() -> Command;

    fn command() -> (c: Command)
        ensures
            c == Self::spec_command(),
    ;

    fn prefix(&self) -> (b: u8)
        ensures
            b == self.spec_prefix(),
    ;

    /// True exactly when the frame's first byte equals the expected
    /// command's wire byte.
    fn is_valid_prefix(&self) -> (r: bool)
        ensures
            r == (self.spec_prefix() == Self::spec_command().wire_byte()),
    {
        Self::command().to_byte() == self.prefix()
    }
}

} // verus!
