//! The failures of the framing layer. Each one is terminal for its connection:
//! the byte stream carries nothing to resynchronise on.

use vstd::prelude::*;

verus! {

/// A violation of the framing or message rules.
#[derive(Clone, Copy, Debug, PartialEq, Eq, Structural)]
pub enum ProtocolError {
    /// One of the three reserved header bits is set.
    ReservedBitsSet,
    /// The header carries a reserved opcode (the value is kept).
    InvalidOpcode(u8),
    /// A control frame without the final-fragment bit.
    FragmentedControl,
    /// A control frame with a payload of more than 125 bytes.
    ControlTooLarge,
    /// A payload length that needs all 64 bits.
    LengthOverflow,
    /// The stream ended while a frame was incomplete.
    IncompleteFrame,
    /// A continuation frame while no fragmented message is in progress.
    UnexpectedContinuation,
    /// A new data frame while a fragmented message is in progress.
    ExpectedContinuation,
    /// The payload of a text message, or a close reason, is not UTF-8.
    InvalidUtf8,
    /// A close frame with a payload of one byte.
    InvalidClosePayload,
    /// A message was asked of no frames at all.
    NoFrames,
    /// The frames of a message do not end with exactly one final fragment.
    UnfinishedMessage,
}

impl ProtocolError {
    /// The text that `description` gives for each failure.
    pub open spec fn description_spec(self) -> Seq<char> {
        match self {
            ProtocolError::ReservedBitsSet => "Unsupported reserved bits received"@,
            ProtocolError::InvalidOpcode(_) => "Unsupported opcode received"@,
            ProtocolError::FragmentedControl => "Fragmented control frame"@,
            ProtocolError::ControlTooLarge => "Control frame payload too large"@,
            ProtocolError::LengthOverflow => "Payload length out of range"@,
            ProtocolError::IncompleteFrame => "Stream ended while a frame was incomplete"@,
            ProtocolError::UnexpectedContinuation => "Unexpected continuation data frame opcode"@,
            ProtocolError::ExpectedContinuation => "Unexpected non-continuation data frame"@,
            ProtocolError::InvalidUtf8 => "Invalid UTF-8 in text payload"@,
            ProtocolError::InvalidClosePayload => "Close payload shorter than a status code"@,
            ProtocolError::NoFrames => "No dataframes provided"@,
            ProtocolError::UnfinishedMessage => "Message without a single final fragment"@,
        }
    }

    /// A short text that says what went wrong.
    pub fn description(&self) -> (text: &'static str)
        ensures
            text@ == self.description_spec(),
    {
        match self {
            ProtocolError::ReservedBitsSet => "Unsupported reserved bits received",
            ProtocolError::InvalidOpcode(_) => "Unsupported opcode received",
            ProtocolError::FragmentedControl => "Fragmented control frame",
            ProtocolError::ControlTooLarge => "Control frame payload too large",
            ProtocolError::LengthOverflow => "Payload length out of range",
            ProtocolError::IncompleteFrame => "Stream ended while a frame was incomplete",
            ProtocolError::UnexpectedContinuation => "Unexpected continuation data frame opcode",
            ProtocolError::ExpectedContinuation => "Unexpected non-continuation data frame",
            ProtocolError::InvalidUtf8 => "Invalid UTF-8 in text payload",
            ProtocolError::InvalidClosePayload => "Close payload shorter than a status code",
            ProtocolError::NoFrames => "No dataframes provided",
            ProtocolError::UnfinishedMessage => "Message without a single final fragment",
        }
    }
}

} // verus!
