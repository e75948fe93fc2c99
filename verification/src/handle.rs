use vstd::prelude::*;

use crate::error::ConsoleError;

verus! {

/// The closed set of logical channel kinds a standard handle can name.
#[derive(Clone, Copy, Debug, PartialEq, Eq, Structural)]
pub enum HandleType {
    /// The process-wide input channel.
    InputHandle,
    /// The process-wide output channel.
    OutputHandle,
    /// The process-wide error channel.
    ErrorHandle,
}

/// Identifier of the process-wide input channel.
pub const STD_INPUT_ID: u64 = 0xFFFF_FFF6;

/// Identifier of the process-wide output channel.
pub const STD_OUTPUT_ID: u64 = 0xFFFF_FFF5;

/// Identifier of the process-wide error channel.
pub const STD_ERROR_ID: u64 = 0xFFFF_FFF4;

/// The identifier that resolving a standard channel kind yields.
pub open spec fn standard_id(kind: HandleType) -> u64 {
    match kind {
        HandleType::InputHandle => STD_INPUT_ID,
        HandleType::OutputHandle => STD_OUTPUT_ID,
        HandleType::ErrorHandle => STD_ERROR_ID,
    }
}

/// An opaque, copyable token naming an open device channel.
///
/// A handle carries no ownership: opening and closing the channel belong to
/// a separate acquisition component.  A console holds a copy of a handle
/// and never invalidates it; handles are compared by identity only.
#[derive(Clone, Copy, Debug, PartialEq, Eq, Structural)]
pub struct Handle {
    /// The raw channel identifier.
    pub id: u64,
}

impl Handle {
    /// Resolves the process-wide channel of the given kind.
    pub fn new(kind: HandleType) -> (r: Result<Handle, ConsoleError>)
        ensures
            r == Ok::<Handle, ConsoleError>(Handle { id: standard_id(kind) }),
    {
        let id: u64 = match kind {
            HandleType::InputHandle => STD_INPUT_ID,
            HandleType::OutputHandle => STD_OUTPUT_ID,
            HandleType::ErrorHandle => STD_ERROR_ID,
        };
        Ok(Handle { id })
    }

    /// Wraps a channel identifier that a platform lookup produced, and
    /// reports the absence of one: a lookup that found no channel yields
    /// `DeviceUnavailable`.
    pub fn from_resolved(raw: Option<u64>) -> (r: Result<Handle, ConsoleError>)
        ensures
            r == match raw {
                Some(id) => Ok::<Handle, ConsoleError>(Handle { id }),
                None => Err::<Handle, ConsoleError>(ConsoleError::DeviceUnavailable),
            },
    {
        match raw {
            Some(id) => Ok(Handle { id }),
            None => Err(ConsoleError::DeviceUnavailable),
        }
    }
}

impl From<u64> for Handle {
    /// Wraps a raw channel identifier.  The caller answers for its
    /// validity; an invalid identifier is only discovered when an
    /// operation is attempted on it.
    fn from(raw: u64) -> (h: Handle) {
        Handle { id: raw }
    }
}

impl vstd::std_specs::convert::FromSpecImpl<u64> for Handle {
    open spec fn obeys_from_spec() -> bool {
        true
    }

    open spec fn from_spec(raw: u64) -> Handle {
        Handle { id: raw }
    }
}

} // verus!
