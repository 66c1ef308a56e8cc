use vstd::prelude::*;

verus! {

/// Why a capture session could not go on.
#[derive(Clone, Copy, Debug, PartialEq, Eq, Structural)]
pub enum CaptureError {
    /// The platform offers no screen capture.
    PlatformUnsupported,
    /// The user has not granted the capture permission.
    PermissionDenied,
    /// The capture source could not be opened.
    SourceInitFailed,
    /// Pulling a frame failed for a reason other than "no frame yet".
    FrameAcquisitionFailed,
    /// A raw frame was malformed or its buffer truncated.
    NormalizationFailed,
}

/// How a capture loop came to its end.
#[derive(Clone, Copy, Debug, PartialEq, Eq, Structural)]
pub enum TerminalStatus {
    /// The enable flag was cleared and the loop wound down.
    Stopped,
    /// The loop ended on an error.
    Failed(CaptureError),
}

impl CaptureError {
    /// A short human-readable description.
    pub fn message(&self) -> (s: &'static str)
        ensures
            s@ == self.spec_message(),
    {
        match self {
            CaptureError::PlatformUnsupported => "platform not supported",
            CaptureError::PermissionDenied => "permission not granted",
            CaptureError::SourceInitFailed => "capture source could not be opened",
            CaptureError::FrameAcquisitionFailed => "frame acquisition failed",
            CaptureError::NormalizationFailed => "raw frame is malformed or truncated",
        }
    }

    pub open spec fn spec_message(&self) -> Seq<char> {
        match self {
            CaptureError::PlatformUnsupported => "platform not supported"@,
            CaptureError::PermissionDenied => "permission not granted"@,
            CaptureError::SourceInitFailed => "capture source could not be opened"@,
            CaptureError::FrameAcquisitionFailed => "frame acquisition failed"@,
            CaptureError::NormalizationFailed => "raw frame is malformed or truncated"@,
        }
    }
}

} // verus!
