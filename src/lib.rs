//! Zero-copy capture from a kernel video-capture device, modelled as a
//! verified state machine: the library decides which device-control call
//! comes next, and the caller performs it and hands back the reply.

pub mod abi;
pub mod device;
pub mod format;
pub mod ioctl;
pub mod laws;
pub mod pool;
pub mod session;
pub mod settings;

pub use device::{CameraError, DeviceCall, OpenFailureKind, Reply};
pub use format::{VideoFormat, VideoPixelFormat};
pub use ioctl::{_IOC, _IO, _IOR, _IOW, _IOWR};
pub use pool::{BufferState, FrameBuffer, FrameBufferPool};
pub use session::{Camera, Completion, FrameView, Step};
pub use settings::CameraSetting;
