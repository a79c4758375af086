//! What can go wrong, and whether the engine survives it.

use vstd::prelude::*;

verus! {

/// `VK_SUCCESS`.
pub const RESULT_SUCCESS: i32 = 0;

/// `VK_SUBOPTIMAL_KHR`: the chain still presents, though no longer in the
/// best way.
pub const RESULT_SUBOPTIMAL: i32 = 1000001003;

/// `VK_ERROR_OUT_OF_HOST_MEMORY`.
pub const RESULT_OUT_OF_HOST_MEMORY: i32 = -1;

/// `VK_ERROR_OUT_OF_DEVICE_MEMORY`.
pub const RESULT_OUT_OF_DEVICE_MEMORY: i32 = -2;

/// `VK_ERROR_OUT_OF_DATE_KHR`.
pub const RESULT_OUT_OF_DATE: i32 = -1000001004;

/// The failures the engine tells apart.
#[derive(Clone, Copy, Debug, PartialEq, Eq, Structural)]
pub enum EngineError {
    /// No adapter offers the required extensions, a surface format and a
    /// queue family that both draws and presents.
    NoSuitableDevice,
    /// A component was put together from parts that do not belong together.
    Initialization,
    /// The surface no longer matches the presentation chain.
    OutOfDateSurface,
    /// The sub-allocator has no memory left for a request.
    OutOfMemory,
    /// A device-level operation failed; no further GPU work may be issued.
    DeviceLost,
}

/// What a result code of the device means: nothing went wrong, or which
/// failure it is. Success and a suboptimal chain are no failure; a chain out
/// of date and a lack of memory are failures of their own; every other
/// code, a timeout too, counts as a lost device.
pub open spec fn spec_classify(code: i32) -> Option<EngineError> {
    if code == RESULT_SUCCESS || code == RESULT_SUBOPTIMAL {
        None
    } else if code == RESULT_OUT_OF_DATE {
        Some(EngineError::OutOfDateSurface)
    } else if code == RESULT_OUT_OF_HOST_MEMORY || code == RESULT_OUT_OF_DEVICE_MEMORY {
        Some(EngineError::OutOfMemory)
    } else {
        Some(EngineError::DeviceLost)
    }
}

/// Tells what a result code of the device means.
pub fn classify(code: i32) -> (outcome: Result<(), EngineError>)
    ensures
        outcome is Ok <==> spec_classify(code) is None,
        outcome is Err ==> spec_classify(code) == Some(outcome->Err_0),
{
    if code == RESULT_SUCCESS || code == RESULT_SUBOPTIMAL {
        Ok(())
    } else if code == RESULT_OUT_OF_DATE {
        Err(EngineError::OutOfDateSurface)
    } else if code == RESULT_OUT_OF_HOST_MEMORY || code == RESULT_OUT_OF_DEVICE_MEMORY {
        Err(EngineError::OutOfMemory)
    } else {
        Err(EngineError::DeviceLost)
    }
}

impl EngineError {
    /// Only a stale surface can be recovered from, by rebuilding the
    /// presentation chain and the render targets.
    pub open spec fn spec_is_recoverable(self) -> bool {
        self == EngineError::OutOfDateSurface
    }

    /// Whether the engine can go on after this failure.
    #[verifier::when_used_as_spec(spec_is_recoverable)]
    pub fn is_recoverable(self) -> (recoverable: bool)
        ensures
            recoverable == self.spec_is_recoverable(),
    {
        self == EngineError::OutOfDateSurface
    }

    /// A short description for the user.
    pub fn describe(self) -> (text: String)
        ensures
            text@ == (match self {
                EngineError::NoSuitableDevice => "no suitable physical device found"@,
                EngineError::Initialization => "initialization failed"@,
                EngineError::OutOfDateSurface => "surface out of date"@,
                EngineError::OutOfMemory => "out of device memory"@,
                EngineError::DeviceLost => "device lost"@,
            }),
    {
        match self {
            EngineError::NoSuitableDevice => "no suitable physical device found".to_string(),
            EngineError::Initialization => "initialization failed".to_string(),
            EngineError::OutOfDateSurface => "surface out of date".to_string(),
            EngineError::OutOfMemory => "out of device memory".to_string(),
            EngineError::DeviceLost => "device lost".to_string(),
        }
    }
}

} // verus!
