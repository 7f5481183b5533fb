//! The failures a capture binding can report.

use vstd::prelude::*;

verus! {

/// Why a capture operation failed. A recording session hands these on
/// exactly as the binding reported them.
#[derive(Clone, Copy, Debug, PartialEq, Eq, Structural)]
pub enum CaptureError {
    /// The platform refused to provide a capture stream: there is no
    /// microphone, the permission was not granted, or the resource is busy.
    PlatformUnavailable,
    /// A capture stream is already open; a second one is never shared.
    AlreadyOpen,
    /// The stream was invalidated while in use, for example because the
    /// device was disconnected.
    DeviceError,
}

} // verus!
