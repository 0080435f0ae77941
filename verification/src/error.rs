//! The ways in which setting up the renderer fails.

use vstd::prelude::*;

verus! {

/// A setup failure. None of them is recoverable: the caller reports it and
/// gives up.
#[derive(Clone, Copy, Debug, PartialEq, Eq, Structural)]
pub enum SetupError {
    /// No enumerated device offers the queues and extensions that the
    /// engine needs.
    NoSuitableDevice,
    /// The surface reports no format at all.
    NoSurfaceFormat,
    /// The surface reports no presentation mode at all.
    NoPresentMode,
    /// A shader binary whose length in bytes is not a multiple of 4.
    ShaderLength,
    /// No memory type is both allowed for the buffer and has the wanted
    /// properties.
    NoMemoryType,
    /// A name with a zero byte inside, which the graphics API cannot take.
    InvalidName,
    /// A size or count that does not fit the integer type the graphics API
    /// takes it in.
    SizeOverflow,
}

impl SetupError {
    /// The text that the top-level handler prints before it gives up.
    pub fn message(&self) -> (text: String)
        ensures
            text@ == match *self {
                SetupError::NoSuitableDevice => "No suitable devices found"@,
                SetupError::NoSurfaceFormat => "Failed to get surface formats"@,
                SetupError::NoPresentMode => "Failed to get present modes"@,
                SetupError::ShaderLength => "code length must be a multiple of 4"@,
                SetupError::NoMemoryType => "Failed to find appropriate memory type"@,
                SetupError::InvalidName => "Failed to convert to CString"@,
                SetupError::SizeOverflow => "Failed to convert a size"@,
            },
    {
        match self {
            SetupError::NoSuitableDevice => "No suitable devices found".to_string(),
            SetupError::NoSurfaceFormat => "Failed to get surface formats".to_string(),
            SetupError::NoPresentMode => "Failed to get present modes".to_string(),
            SetupError::ShaderLength => "code length must be a multiple of 4".to_string(),
            SetupError::NoMemoryType => "Failed to find appropriate memory type".to_string(),
            SetupError::InvalidName => "Failed to convert to CString".to_string(),
            SetupError::SizeOverflow => "Failed to convert a size".to_string(),
        }
    }
}

} // verus!
