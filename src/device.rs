//! The calls a capture session asks of the device, the replies it expects
//! back, and the errors it reports.

use crate::format::VideoFormat;
use vstd::prelude::*;

verus! {

/// The OS error code of a call that would have blocked.
pub const EAGAIN: i32 = 11;

/// The OS error code given to a reply that does not answer the call made.
pub const EIO: i32 = 5;

pub const EPERM: i32 = 1;

pub const ENOENT: i32 = 2;

pub const EACCES: i32 = 13;

pub const EBUSY: i32 = 16;

/// The OS error code of a buffer the device reports as empty.
pub const EINVAL: i32 = 22;

/// One operation on the device, to be carried out by the caller.
#[derive(Clone, PartialEq, Eq, Structural, Debug)]
pub enum DeviceCall {
    /// SET-FORMAT with this request; the reply carries what the driver settled on.
    SetFormat(VideoFormat),
    /// REQUEST-BUFFERS for `count` memory-mapped capture buffers.
    RequestBuffers { count: u32 },
    /// QUERY-BUFFER for the offset and length of buffer `index`.
    QueryBuffer { index: u32 },
    /// A shared read-write mapping of buffer `index`.
    MapBuffer { index: u32, offset: u32, length: u32 },
    /// Removes the mappings of buffers `0..count`; the reply is not looked at.
    UnmapBuffers { count: u32 },
    /// QUEUE-BUFFER of buffer `index`.
    QueueBuffer { index: u32 },
    /// Suspends until the device signals readiness, first clearing the
    /// readiness flag if `clear_ready`.
    WaitReadable { clear_ready: bool },
    /// DEQUEUE-BUFFER of the next filled buffer.
    DequeueBuffer,
    /// STREAM-ON for video capture.
    StreamOn,
    /// STREAM-OFF for video capture.
    StreamOff,
    /// GET-CONTROL of control `id`.
    GetControl { id: u32 },
    /// SET-CONTROL of control `id` to `value`.
    SetControl { id: u32, value: i32 },
}

/// What the device answered to a call.
#[derive(Clone, PartialEq, Eq, Structural, Debug)]
pub enum Reply {
    /// The call succeeded and has nothing to report.
    Done,
    /// The call failed with this OS error code.
    Failed(i32),
    /// DEQUEUE-BUFFER found no filled buffer yet.
    WouldBlock,
    /// SET-FORMAT succeeded; the format the driver settled on.
    Format(VideoFormat),
    /// QUERY-BUFFER succeeded.
    Queried { offset: u32, length: u32 },
    /// DEQUEUE-BUFFER handed back buffer `index`, holding `bytes_used` bytes.
    Dequeued { index: u32, bytes_used: u32 },
    /// GET-CONTROL succeeded.
    Control { value: i32 },
}

/// Why opening the device failed.
#[derive(Clone, Copy, PartialEq, Eq, Structural, Debug)]
pub enum OpenFailureKind {
    NotFound,
    PermissionDenied,
    Busy,
    Other,
}

/// The errors of a capture session, each with the OS error code behind it.
#[derive(Clone, Copy, PartialEq, Eq, Structural, Debug)]
pub enum CameraError {
    OpenFailure { kind: OpenFailureKind, errno: i32 },
    FormatRejected(i32),
    BufferAllocationFailure(i32),
    StreamStartFailure(i32),
    CaptureIoError(i32),
    ControlUnsupported(i32),
}

/// The kind of open failure an OS error code stands for.
pub open spec fn open_failure_kind(errno: i32) -> OpenFailureKind {
    if errno == ENOENT {
        OpenFailureKind::NotFound
    } else if errno == EACCES || errno == EPERM {
        OpenFailureKind::PermissionDenied
    } else if errno == EBUSY {
        OpenFailureKind::Busy
    } else {
        OpenFailureKind::Other
    }
}

/// The error of a failed open of the device.
pub fn open_failure(errno: i32) -> (r: CameraError)
    ensures
        r == (CameraError::OpenFailure { kind: open_failure_kind(errno), errno }),
{
    let kind = if errno == ENOENT {
        OpenFailureKind::NotFound
    } else if errno == EACCES || errno == EPERM {
        OpenFailureKind::PermissionDenied
    } else if errno == EBUSY {
        OpenFailureKind::Busy
    } else {
        OpenFailureKind::Other
    };
    CameraError::OpenFailure { kind, errno }
}

/// The OS error code an error carries.
pub open spec fn error_code(e: CameraError) -> i32 {
    match e {
        CameraError::OpenFailure { errno, .. } => errno,
        CameraError::FormatRejected(c) => c,
        CameraError::BufferAllocationFailure(c) => c,
        CameraError::StreamStartFailure(c) => c,
        CameraError::CaptureIoError(c) => c,
        CameraError::ControlUnsupported(c) => c,
    }
}

impl CameraError {
    /// The OS error code behind this error.
    pub fn code(&self) -> (r: i32)
        ensures
            r == error_code(*self),
    {
        match self {
            CameraError::OpenFailure { errno, .. } => *errno,
            CameraError::FormatRejected(c) => *c,
            CameraError::BufferAllocationFailure(c) => *c,
            CameraError::StreamStartFailure(c) => *c,
            CameraError::CaptureIoError(c) => *c,
            CameraError::ControlUnsupported(c) => *c,
        }
    }
}

/// The error code of a reply that is not the success the call expected:
/// its own code if it failed, `EAGAIN` if it would block, `EIO` otherwise.
pub open spec fn failure_code(r: Reply) -> i32 {
    match r {
        Reply::Failed(e) => e,
        Reply::WouldBlock => EAGAIN,
        _ => EIO,
    }
}

/// The error code of a reply that is not the success the call expected.
pub fn reply_failure_code(r: &Reply) -> (c: i32)
    ensures
        c == failure_code(*r),
{
    match r {
        Reply::Failed(e) => *e,
        Reply::WouldBlock => EAGAIN,
        _ => EIO,
    }
}

} // verus!
