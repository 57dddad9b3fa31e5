//! Failures. A fatal one ends the engine: the machine cannot run it, and
//! trying again cannot help. A transient one, a swapchain that no longer fits
//! its surface, is no failure to the host: it becomes an event of the frame
//! protocol, which answers it by recreating the swapchain.
use vstd::prelude::*;
use crate::context::DeviceSelectionError;
use crate::depth::UnsupportedFormatError;
use crate::frame::{Event, PresentStatus};
use crate::memory::MemoryTypeError;
use crate::swapchain::NoSurfaceFormatError;

verus! {

/// Result code of a driver call that did all it was asked.
pub const RESULT_SUCCESS: i32 = 0;

/// Result code of a call that worked on a swapchain which no longer fits its
/// surface well.
pub const RESULT_SUBOPTIMAL: i32 = 1_000_001_003;

/// Result code of a call that found the swapchain unusable with its surface.
pub const RESULT_ERROR_OUT_OF_DATE: i32 = -1_000_001_004;

/// Why the engine cannot go on.
#[derive(Clone, Copy, Debug, PartialEq, Eq, Structural)]
pub enum FatalError {
    DeviceSelection(DeviceSelectionError),
    MemoryType(MemoryTypeError),
    UnsupportedFormat(UnsupportedFormatError),
    NoSurfaceFormat(NoSurfaceFormatError),
    /// A driver call failed, with the given result code.
    Driver { code: i32 },
}

impl FatalError {
    /// The cause in words.
    pub open spec fn message(self) -> Seq<char> {
        match self {
            FatalError::DeviceSelection(_) => "Failed to find a suitable device!"@,
            FatalError::MemoryType(_) => "Failed to find suitable memory type!"@,
            FatalError::UnsupportedFormat(_) => "Failed to find supported format!"@,
            FatalError::NoSurfaceFormat(_) => "Failed to find a surface format!"@,
            FatalError::Driver { .. } => "A call to the driver failed!"@,
        }
    }

    /// The cause in words.
    pub fn describe(&self) -> (text: String)
        ensures
            text@ == self.message(),
    {
        match self {
            FatalError::DeviceSelection(_) => "Failed to find a suitable device!".to_owned(),
            FatalError::MemoryType(_) => "Failed to find suitable memory type!".to_owned(),
            FatalError::UnsupportedFormat(_) => "Failed to find supported format!".to_owned(),
            FatalError::NoSurfaceFormat(_) => "Failed to find a surface format!".to_owned(),
            FatalError::Driver { .. } => "A call to the driver failed!".to_owned(),
        }
    }
}

/// What the result of asking for image `image` means to the frame protocol.
pub open spec fn acquire_event_spec(code: i32, image: u32) -> Result<Event, FatalError> {
    if code == RESULT_SUCCESS {
        Ok(Event::ImageAcquired { image, suboptimal: false })
    } else if code == RESULT_SUBOPTIMAL {
        Ok(Event::ImageAcquired { image, suboptimal: true })
    } else if code == RESULT_ERROR_OUT_OF_DATE {
        Ok(Event::AcquireOutOfDate)
    } else {
        Err(FatalError::Driver { code })
    }
}

/// What the result of a presentation means to the frame protocol.
pub open spec fn present_event_spec(code: i32) -> Result<Event, FatalError> {
    if code == RESULT_SUCCESS {
        Ok(Event::Presented { status: PresentStatus::Optimal })
    } else if code == RESULT_SUBOPTIMAL {
        Ok(Event::Presented { status: PresentStatus::Suboptimal })
    } else if code == RESULT_ERROR_OUT_OF_DATE {
        Ok(Event::Presented { status: PresentStatus::OutOfDate })
    } else {
        Err(FatalError::Driver { code })
    }
}

/// Turns the result of asking the swapchain for an image into the event to
/// report. Only a result other than success, suboptimal and out of date is a
/// failure.
pub fn acquire_event(code: i32, image: u32) -> (r: Result<Event, FatalError>)
    ensures
        r == acquire_event_spec(code, image),
{
    if code == RESULT_SUCCESS {
        Ok(Event::ImageAcquired { image, suboptimal: false })
    } else if code == RESULT_SUBOPTIMAL {
        Ok(Event::ImageAcquired { image, suboptimal: true })
    } else if code == RESULT_ERROR_OUT_OF_DATE {
        Ok(Event::AcquireOutOfDate)
    } else {
        Err(FatalError::Driver { code })
    }
}

/// Turns the result of a presentation into the event to report. Only a
/// result other than success, suboptimal and out of date is a failure.
pub fn present_event(code: i32) -> (r: Result<Event, FatalError>)
    ensures
        r == present_event_spec(code),
{
    if code == RESULT_SUCCESS {
        Ok(Event::Presented { status: PresentStatus::Optimal })
    } else if code == RESULT_SUBOPTIMAL {
        Ok(Event::Presented { status: PresentStatus::Suboptimal })
    } else if code == RESULT_ERROR_OUT_OF_DATE {
        Ok(Event::Presented { status: PresentStatus::OutOfDate })
    } else {
        Err(FatalError::Driver { code })
    }
}

/// A swapchain that no longer fits its surface never reaches the host as a
/// failure, neither when an image is asked for nor when one is presented.
pub proof fn lemma_transient_results_are_events(image: u32)
    ensures
        acquire_event_spec(RESULT_SUBOPTIMAL, image) is Ok,
        acquire_event_spec(RESULT_ERROR_OUT_OF_DATE, image) is Ok,
        present_event_spec(RESULT_SUBOPTIMAL) is Ok,
        present_event_spec(RESULT_ERROR_OUT_OF_DATE) is Ok,
{
}

} // verus!
