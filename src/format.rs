//! The capture format request: resolution, pixel encoding and field order.

use crate::device::DeviceCall;
use vstd::prelude::*;

verus! {

/// The buffer type of single-plane video capture.
pub const BUF_TYPE_VIDEO_CAPTURE: u32 = 1;

/// Progressive frames: no interlaced fields.
pub const FIELD_NONE: u32 = 1;

/// The four-character code of Motion-JPEG, `M` `J` `P` `G` from the low byte up.
pub const MJPEG_FMT: u32 = 0x4750_4a4d;

/// A four-character code, first character in the lowest byte.
pub open spec fn fourcc(a: u8, b: u8, c: u8, d: u8) -> int {
    a + b * 0x100 + c * 0x1_0000 + d * 0x100_0000
}

/// The code that `MJPEG_FMT` holds is that of the characters `MJPG`.
pub proof fn lemma_mjpeg_fourcc()
    ensures
        MJPEG_FMT == fourcc(0x4d, 0x4a, 0x50, 0x47),
{
}

/// Width, height and pixel encoding of a frame.
#[derive(Clone, Copy, PartialEq, Eq, Structural, Debug)]
pub struct VideoPixelFormat {
    pub width: u32,
    pub height: u32,
    pub format: u32,
}

/// A single-plane format: the request made to the device, or the values it
/// settled on. A request is not `Copy`: `apply` consumes it, so it is used once.
#[derive(Clone, PartialEq, Eq, Structural, Debug)]
pub struct VideoFormat {
    pub buf_type: u32,
    pub width: u32,
    pub height: u32,
    pub pixel_format: u32,
    pub field: u32,
    pub bytes_per_line: u32,
    pub size_image: u32,
}

impl VideoFormat {
    /// A format request with every field zero.
    pub fn new() -> (r: VideoFormat)
        ensures
            r == (VideoFormat {
                buf_type: 0,
                width: 0,
                height: 0,
                pixel_format: 0,
                field: 0,
                bytes_per_line: 0,
                size_image: 0,
            }),
    {
        VideoFormat {
            buf_type: 0,
            width: 0,
            height: 0,
            pixel_format: 0,
            field: 0,
            bytes_per_line: 0,
            size_image: 0,
        }
    }

    /// The request with buffer type `ty`.
    pub fn set_type(self, ty: u32) -> (r: VideoFormat)
        ensures
            r == (VideoFormat { buf_type: ty, ..self }),
    {
        VideoFormat { buf_type: ty, ..self }
    }

    /// The request for single-plane video capture.
    pub fn set_video_capture_type(self) -> (r: VideoFormat)
        ensures
            r == (VideoFormat { buf_type: BUF_TYPE_VIDEO_CAPTURE, ..self }),
    {
        self.set_type(BUF_TYPE_VIDEO_CAPTURE)
    }

    /// The request for frames of the given geometry and encoding, progressive.
    pub fn set_pix_format(self, pix: VideoPixelFormat) -> (r: VideoFormat)
        ensures
            r == (VideoFormat {
                width: pix.width,
                height: pix.height,
                pixel_format: pix.format,
                field: FIELD_NONE,
                ..self
            }),
    {
        VideoFormat {
            width: pix.width,
            height: pix.height,
            pixel_format: pix.format,
            field: FIELD_NONE,
            ..self
        }
    }

    /// The SET-FORMAT call that applies this request. The driver may settle
    /// on other values; its reply carries them.
    pub fn apply(self) -> (r: DeviceCall)
        ensures
            r == DeviceCall::SetFormat(self),
    {
        DeviceCall::SetFormat(self)
    }

    /// Geometry and encoding of this format.
    pub fn pix_format(&self) -> (r: VideoPixelFormat)
        ensures
            r == (VideoPixelFormat {
                width: self.width,
                height: self.height,
                format: self.pixel_format,
            }),
    {
        VideoPixelFormat { width: self.width, height: self.height, format: self.pixel_format }
    }

    /// The default capture request: 1920 by 1080 Motion-JPEG, progressive.
    pub open spec fn default_capture() -> VideoFormat {
        VideoFormat {
            buf_type: BUF_TYPE_VIDEO_CAPTURE,
            width: 1920,
            height: 1080,
            pixel_format: MJPEG_FMT,
            field: FIELD_NONE,
            bytes_per_line: 0,
            size_image: 0,
        }
    }

    /// Builds the default capture request.
    pub fn capture_default() -> (r: VideoFormat)
        ensures
            r == VideoFormat::default_capture(),
    {
        VideoFormat::new().set_video_capture_type().set_pix_format(
            VideoPixelFormat { width: 1920, height: 1080, format: MJPEG_FMT },
        )
    }
}

} // verus!
