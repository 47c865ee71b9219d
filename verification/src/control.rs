//! Control-lane message classification: the first byte of a frame body
//! decides whether the remainder is JSON, a log line, or unknown data.

use vstd::prelude::*;

verus! {

/// One record read off the control lane, classified by its command byte.
/// The payload bytes are kept as they arrived; for the log variants they
/// are UTF-8 text by the wire contract.
#[derive(Debug, PartialEq, Eq)]
pub enum ChannelMessage {
    /// JSON message: the bytes after the opening brace.
    Json(Vec<u8>),
    /// Debug log line.
    Debug(Vec<u8>),
    /// Warn log line.
    Warn(Vec<u8>),
    /// Error log line.
    Error(Vec<u8>),
    /// Dump log line.
    Dump(Vec<u8>),
    /// Anything else, kept with its command byte.
    Unknown { command: u8, data: Vec<u8> },
}

/// Classifies one control-lane record from its command byte and the rest
/// of the body: `{` means JSON, `D`/`W`/`E`/`X` mean log lines, anything
/// else is unknown.
pub fn deserialize_message(command: u8, data: Vec<u8>) -> (r: ChannelMessage)
    ensures
        command == 0x7b ==> r == ChannelMessage::Json(data),
        command == 0x44 ==> r == ChannelMessage::Debug(data),
        command == 0x57 ==> r == ChannelMessage::Warn(data),
        command == 0x45 ==> r == ChannelMessage::Error(data),
        command == 0x58 ==> r == ChannelMessage::Dump(data),
        command != 0x7b && command != 0x44 && command != 0x57 && command != 0x45 && command != 0x58
            ==> r == (ChannelMessage::Unknown { command, data }),
{
    if command == 0x7b {
        ChannelMessage::Json(data)
    } else if command == 0x44 {
        ChannelMessage::Debug(data)
    } else if command == 0x57 {
        ChannelMessage::Warn(data)
    } else if command == 0x45 {
        ChannelMessage::Error(data)
    } else if command == 0x58 {
        ChannelMessage::Dump(data)
    } else {
        ChannelMessage::Unknown { command, data }
    }
}

} // verus!
