use crate::error::ConvertError;
use crate::opts::{EndFrame, StartFrame};
use vstd::prelude::*;

verus! {

/// A resolved frame window: the half-open 0-based index range
/// `[start, end)` of the frames to extract from a capture.
#[derive(Debug, Clone, Copy, PartialEq, Eq, Structural)]
pub struct FrameWindow {
    pub start: usize,
    pub end: usize,
}

/// The selectors hold positive numbers, as the argument parsers guarantee.
pub open spec fn selectors_positive(start: StartFrame, end: EndFrame) -> bool {
    &&& match start {
        StartFrame::Forward(n) => n >= 1,
        StartFrame::Backward(n) => n >= 1,
    }
    &&& match end {
        EndFrame::Forward(n) => n >= 1,
        EndFrame::Backward(n) => n >= 1,
        EndFrame::Count(n) => n >= 1,
    }
}

/// The 0-based index of the first frame in the window, or `None` when the
/// backward selector reaches past the first frame.
pub open spec fn spec_start_index(start: StartFrame, total: int) -> Option<int> {
    match start {
        StartFrame::Forward(n) => Some(n - 1),
        StartFrame::Backward(n) => if n <= total {
            Some(total - n)
        } else {
            None
        },
    }
}

/// The 0-based index one past the last frame in the window, or `None` when
/// the selector reaches past the capture. A count is validated against the
/// total frame count, not against the frames remaining after the start.
pub open spec fn spec_end_index(end: EndFrame, start_index: int, total: int) -> Option<int> {
    match end {
        EndFrame::Forward(n) => if n <= total {
            Some(n as int)
        } else {
            None
        },
        EndFrame::Backward(n) => if n <= total + 1 {
            Some(total + 1 - n)
        } else {
            None
        },
        EndFrame::Count(n) => if n <= total {
            Some(start_index + n)
        } else {
            None
        },
    }
}

/// Resolve the start and end selectors against a capture's total frame
/// count into an absolute half-open index range. The request is rejected
/// when a bound reaches past the capture or the window comes out empty.
pub fn resolve_frame_window(start: StartFrame, end: EndFrame, total_frames: usize) -> (r: Result<
    FrameWindow,
    ConvertError,
>)
    requires
        selectors_positive(start, end),
        total_frames <= usize::MAX / 2,
        match (start, end) {
            (StartFrame::Forward(a), EndFrame::Count(c)) => a - 1 + c <= usize::MAX,
            _ => true,
        },
    ensures
        match spec_start_index(start, total_frames as int) {
            None => r == Err::<FrameWindow, ConvertError>(ConvertError::FrameRangeInvalid),
            Some(si) => match spec_end_index(end, si, total_frames as int) {
                None => r == Err::<FrameWindow, ConvertError>(ConvertError::FrameRangeInvalid),
                Some(ei) => if si < ei {
                    r matches Ok(w) && w.start == si && w.end == ei
                } else {
                    r == Err::<FrameWindow, ConvertError>(ConvertError::FrameRangeInvalid)
                },
            },
        },
{
    let start_index: usize = match start {
        StartFrame::Forward(count) => count - 1,
        StartFrame::Backward(count) => {
            if count > total_frames {
                return Err(ConvertError::FrameRangeInvalid);
            }
            total_frames - count
        },
    };
    let end_index: usize = match end {
        EndFrame::Forward(count) => {
            if count > total_frames {
                return Err(ConvertError::FrameRangeInvalid);
            }
            count
        },
        EndFrame::Backward(count) => {
            if count > total_frames + 1 {
                return Err(ConvertError::FrameRangeInvalid);
            }
            total_frames + 1 - count
        },
        EndFrame::Count(count) => {
            if count > total_frames {
                return Err(ConvertError::FrameRangeInvalid);
            }
            start_index + count
        },
    };
    if end_index <= start_index {
        return Err(ConvertError::FrameRangeInvalid);
    }
    Ok(FrameWindow { start: start_index, end: end_index })
}

} // verus!
