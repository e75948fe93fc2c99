use vstd::prelude::*;

verus! {

/// The uniform error surface of every fallible console operation.
#[derive(Clone, Copy, Debug, PartialEq, Eq, Structural)]
pub enum ConsoleError {
    /// The device call returned its platform failure signal; carries the
    /// platform's last-error code verbatim.
    DeviceCallFailed(u32),
    /// Bytes handed to the output path were not valid UTF-8.  This is a
    /// local validation failure, detected before any device call.
    EncodingError,
    /// Default-channel resolution at construction time found no channel.
    DeviceUnavailable,
}

/// Last-error code a device call leaves behind when it rejects the handle.
pub const ERROR_INVALID_HANDLE: u32 = 6;

/// Last-error code a device call leaves behind when it rejects an argument,
/// such as a coordinate or window rectangle outside the screen buffer.
pub const ERROR_INVALID_PARAMETER: u32 = 87;

} // verus!
