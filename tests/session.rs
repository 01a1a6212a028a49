use std::collections::VecDeque;

use v4l2_capture::device::{open_failure, EAGAIN, EBUSY, EACCES, EINVAL, EIO, ENOENT};
use v4l2_capture::format::{VideoFormat, VideoPixelFormat, FIELD_NONE, MJPEG_FMT};
use v4l2_capture::settings::{
    control_set, control_value, BacklightCompensation, Brightness, Contrast, Exposure,
    ExposureAuto, Gain, Gamma, Hue, Saturation, WhiteBalance, WhiteBalanceAuto,
};
use v4l2_capture::{
    BufferState, Camera, CameraError, CameraSetting, Completion, DeviceCall, FrameView,
    OpenFailureKind, Reply, Step,
};

/// A device simulated in memory: it keeps its queue of buffers and answers
/// each call as a driver would.
struct FakeDevice {
    count: u32,
    length: u32,
    negotiated: Option<VideoFormat>,
    queue: VecDeque<u32>,
    mapped: Vec<bool>,
    /// Dequeue outcomes to give before falling back to the queue's front.
    script: VecDeque<Reply>,
    /// Would-block answers to give before each dequeue that succeeds.
    would_block: u32,
    blocked: u32,
    fail_map_at: Option<u32>,
    fail_query_at: Option<u32>,
    /// A buffer the device reports with length zero.
    empty_at: Option<u32>,
    fail: Option<(DeviceCall, i32)>,
    bytes_used: u32,
    waits: u32,
    cleared: u32,
    maps: u32,
    unmapped: u32,
    dequeues: u32,
    streaming: bool,
    controls: Vec<(u32, i32)>,
}

impl FakeDevice {
    fn new(count: u32, length: u32) -> FakeDevice {
        FakeDevice {
            count,
            length,
            negotiated: None,
            queue: VecDeque::new(),
            mapped: Vec::new(),
            script: VecDeque::new(),
            would_block: 0,
            blocked: 0,
            fail_map_at: None,
            fail_query_at: None,
            empty_at: None,
            fail: None,
            bytes_used: 1000,
            waits: 0,
            cleared: 0,
            maps: 0,
            unmapped: 0,
            dequeues: 0,
            streaming: false,
            controls: Vec::new(),
        }
    }

    fn answer(&mut self, call: DeviceCall) -> Reply {
        if let Some((c, e)) = &self.fail {
            if *c == call {
                return Reply::Failed(*e);
            }
        }
        match call {
            DeviceCall::SetFormat(f) => Reply::Format(self.negotiated.clone().unwrap_or(f)),
            DeviceCall::RequestBuffers { .. } => Reply::Done,
            DeviceCall::QueryBuffer { index } => {
                if self.fail_query_at == Some(index) {
                    return Reply::Failed(22);
                }
                if self.empty_at == Some(index) {
                    return Reply::Queried { offset: index * self.length, length: 0 };
                }
                Reply::Queried { offset: index * self.length, length: self.length }
            }
            DeviceCall::MapBuffer { index, .. } => {
                self.maps += 1;
                if self.fail_map_at == Some(index) {
                    return Reply::Failed(12);
                }
                self.mapped.push(true);
                Reply::Done
            }
            DeviceCall::UnmapBuffers { count } => {
                self.unmapped += count;
                for m in self.mapped.iter_mut().take(count as usize) {
                    *m = false;
                }
                Reply::Done
            }
            DeviceCall::QueueBuffer { index } => {
                assert!(index < self.count);
                assert!(!self.queue.contains(&index), "buffer {} queued twice", index);
                self.queue.push_back(index);
                Reply::Done
            }
            DeviceCall::WaitReadable { clear_ready } => {
                self.waits += 1;
                if clear_ready {
                    self.cleared += 1;
                }
                Reply::Done
            }
            DeviceCall::DequeueBuffer => {
                self.dequeues += 1;
                if self.blocked < self.would_block {
                    self.blocked += 1;
                    return Reply::WouldBlock;
                }
                self.blocked = 0;
                if let Some(r) = self.script.pop_front() {
                    if let Reply::Dequeued { index, .. } = r {
                        self.queue.retain(|&i| i != index);
                    }
                    return r;
                }
                match self.queue.pop_front() {
                    Some(index) => Reply::Dequeued { index, bytes_used: self.bytes_used },
                    None => Reply::WouldBlock,
                }
            }
            DeviceCall::StreamOn => {
                self.streaming = true;
                Reply::Done
            }
            DeviceCall::StreamOff => {
                self.streaming = false;
                Reply::Done
            }
            DeviceCall::GetControl { id } => {
                self.controls.push((id, 0));
                Reply::Control { value: 7 }
            }
            DeviceCall::SetControl { id, value } => {
                self.controls.push((id, value));
                Reply::Done
            }
        }
    }
}

fn drive(cam: &mut Camera, dev: &mut FakeDevice, first: Step) -> Result<Completion, CameraError> {
    let mut step = first;
    for _ in 0..10_000 {
        match step {
            Step::Call(call) => {
                let reply = dev.answer(call);
                step = cam.step(reply);
            }
            Step::Finished(c) => return Ok(c),
            Step::Failed(e) => return Err(e),
        }
    }
    panic!("the session never finished");
}

fn start(count: u32, dev: &mut FakeDevice) -> Camera {
    let f = VideoFormat::capture_default();
    let (mut cam, first) = Camera::with_format(f, count);
    assert_eq!(drive(&mut cam, dev, first), Ok(Completion::Started));
    cam
}

fn capture(cam: &mut Camera, dev: &mut FakeDevice) -> Result<Completion, CameraError> {
    let first = cam.capture_frame();
    drive(cam, dev, first)
}

#[test]
fn pool_len_equals_count() {
    for n in 1..=6u32 {
        let mut dev = FakeDevice::new(n, 4096);
        let cam = start(n, &mut dev);
        assert_eq!(cam.pool().len(), n as usize);
        assert_eq!(dev.maps, n);
        assert_eq!(dev.queue.len(), n as usize);
        for i in 0..n {
            assert_eq!(cam.pool().buffer(i).state, BufferState::Queued);
            assert_eq!(cam.pool().buffer(i).offset, i * 4096);
        }
        assert!(cam.is_streaming() && dev.streaming);
    }
}

#[test]
fn default_session_maps_four_buffers() {
    let mut dev = FakeDevice::new(4, 4096);
    let (mut cam, first) = Camera::new();
    assert_eq!(first, Step::Call(DeviceCall::SetFormat(VideoFormat::capture_default())));
    assert_eq!(drive(&mut cam, &mut dev, first), Ok(Completion::Started));
    assert_eq!(cam.pool().len(), 4);
}

#[test]
fn enqueue_all_then_drain_consumes_n() {
    for n in 1..=5u32 {
        let mut dev = FakeDevice::new(n, 4096);
        let mut cam = start(n, &mut dev);
        let before = dev.dequeues;
        let first = cam.stop();
        assert_eq!(drive(&mut cam, &mut dev, first), Ok(Completion::Stopped));
        assert_eq!(dev.dequeues - before, n);
        assert!(dev.queue.is_empty());
        assert!(!dev.streaming && !cam.is_streaming());
        for i in 0..n {
            assert_eq!(cam.pool().buffer(i).state, BufferState::Free);
        }
    }
}

#[test]
fn stop_after_capture_requeues_then_drains() {
    let mut dev = FakeDevice::new(3, 4096);
    let mut cam = start(3, &mut dev);
    assert!(capture(&mut cam, &mut dev).is_ok());
    let before = dev.dequeues;
    let first = cam.stop();
    assert!(matches!(first, Step::Call(DeviceCall::QueueBuffer { index: 0 })));
    assert_eq!(drive(&mut cam, &mut dev, first), Ok(Completion::Stopped));
    assert_eq!(dev.dequeues - before, 3);
    assert_eq!(cam.pool().held(), None);
}

#[test]
fn cursor_is_round_robin() {
    let mut dev = FakeDevice::new(3, 4096);
    let mut cam = start(3, &mut dev);
    let mut cursors = vec![cam.pool().cursor()];
    for k in 0..7u32 {
        dev.would_block = k % 3;
        assert!(capture(&mut cam, &mut dev).is_ok());
        cursors.push(cam.pool().cursor());
    }
    assert_eq!(cursors, vec![0, 1, 2, 0, 1, 2, 0, 1]);
}

#[test]
fn frame_released_by_next_capture_and_stop() {
    let mut dev = FakeDevice::new(2, 4096);
    let mut cam = start(2, &mut dev);
    let frame = capture(&mut cam, &mut dev).unwrap();
    let held = match frame {
        Completion::Frame(v) => v.index,
        other => panic!("unexpected {:?}", other),
    };
    assert_eq!(cam.pool().held(), Some(held));
    assert_eq!(cam.pool().buffer(held).state, BufferState::Filled);
    let first = cam.capture_frame();
    assert_eq!(first, Step::Call(DeviceCall::QueueBuffer { index: held }));
    let reply = dev.answer(DeviceCall::QueueBuffer { index: held });
    let next = cam.step(reply);
    assert_eq!(cam.pool().buffer(held).state, BufferState::Queued);
    assert_eq!(cam.pool().held(), None);
    assert!(drive(&mut cam, &mut dev, next).is_ok());
}

#[test]
fn would_block_k_times_then_succeeds() {
    for k in 0..6u32 {
        let mut dev = FakeDevice::new(4, 4096);
        let mut cam = start(4, &mut dev);
        dev.would_block = k;
        let waits = dev.waits;
        let r = capture(&mut cam, &mut dev);
        assert_eq!(r, Ok(Completion::Frame(FrameView { index: 0, bytes_used: 1000 })));
        assert_eq!(dev.waits - waits, k + 1);
        assert_eq!(dev.cleared, k);
    }
}

#[test]
fn rollback_on_map_failure() {
    for n in 1..=5u32 {
        for i in 0..n {
            let mut dev = FakeDevice::new(n, 4096);
            dev.fail_map_at = Some(i);
            let (mut cam, first) = Camera::with_format(VideoFormat::capture_default(), n);
            let r = drive(&mut cam, &mut dev, first);
            assert_eq!(r, Err(CameraError::BufferAllocationFailure(12)));
            assert_eq!(dev.unmapped, i);
            assert_eq!(dev.maps, i + 1);
            assert!(dev.mapped.iter().all(|m| !m));
            assert_eq!(cam.pool().len(), 0);
            assert!(cam.is_idle());
        }
    }
}

#[test]
fn rollback_on_query_failure() {
    let mut dev = FakeDevice::new(4, 4096);
    dev.fail_query_at = Some(2);
    let (mut cam, first) = Camera::with_format(VideoFormat::capture_default(), 4);
    let r = drive(&mut cam, &mut dev, first);
    assert_eq!(r, Err(CameraError::BufferAllocationFailure(22)));
    assert_eq!(dev.unmapped, 2);
    assert_eq!(cam.pool().len(), 0);
}

#[test]
fn setting_tags_issue_their_own_ids() {
    let mut dev = FakeDevice::new(1, 4096);
    let cam = start(1, &mut dev);
    assert_eq!(cam.set::<Exposure>(166), DeviceCall::SetControl { id: 0x009a_0902, value: 166 });
    assert_eq!(cam.set::<ExposureAuto>(3), DeviceCall::SetControl { id: 0x009a_0901, value: 3 });
    assert_eq!(cam.set::<Gain>(0), DeviceCall::SetControl { id: 0x0098_0913, value: 0 });
    assert_eq!(cam.set::<Gamma>(133), DeviceCall::SetControl { id: 0x0098_0910, value: 133 });
    assert_eq!(cam.set::<Brightness>(128), DeviceCall::SetControl { id: 0x0098_0900, value: 128 });
    assert_eq!(cam.get::<Contrast>(), DeviceCall::GetControl { id: 0x0098_0901 });
    assert_eq!(cam.get::<Hue>(), DeviceCall::GetControl { id: 0x0098_0903 });
    assert_eq!(cam.get::<Saturation>(), DeviceCall::GetControl { id: 0x0098_0902 });
    assert_eq!(cam.get::<WhiteBalance>(), DeviceCall::GetControl { id: 0x0098_091a });
    assert_eq!(cam.get::<BacklightCompensation>(), DeviceCall::GetControl { id: 0x0098_091c });
    assert_eq!(cam.get::<WhiteBalanceAuto>(), DeviceCall::GetControl { id: 0x0098_090c });
    assert_eq!(Gain::id(), 0x0098_0913);
    for _ in 0..3 {
        let c = cam.set::<Gain>(5);
        dev.answer(c);
    }
    assert!(dev.controls.iter().all(|&(id, _)| id == Gain::id()));
}

#[test]
fn control_replies() {
    assert_eq!(control_value(Reply::Control { value: -4 }), Ok(-4));
    assert_eq!(control_value(Reply::Failed(22)), Err(CameraError::ControlUnsupported(22)));
    assert_eq!(control_value(Reply::Done), Err(CameraError::ControlUnsupported(EIO)));
    assert_eq!(control_set(Reply::Done), Ok(()));
    assert_eq!(control_set(Reply::Failed(22)), Err(CameraError::ControlUnsupported(22)));
}

#[test]
fn end_to_end_four_buffers() {
    let mut dev = FakeDevice::new(4, 4096);
    let (mut cam, first) = Camera::new();
    assert_eq!(drive(&mut cam, &mut dev, first), Ok(Completion::Started));
    let f = cam.format().clone().unwrap();
    assert_eq!((f.width, f.height, f.pixel_format), (1920, 1080, MJPEG_FMT));
    assert_eq!(dev.queue.len(), 4);
    assert_eq!(cam.pool().cursor(), 0);

    dev.script.push_back(Reply::Dequeued { index: 2, bytes_used: 2048 });
    let r = capture(&mut cam, &mut dev);
    assert_eq!(r, Ok(Completion::Frame(FrameView { index: 2, bytes_used: 2048 })));
    assert_eq!(cam.pool().cursor(), 1);

    let r = capture(&mut cam, &mut dev);
    assert!(r.is_ok());
    assert_eq!(cam.pool().cursor(), 2);
}

#[test]
fn negotiated_format_is_recorded() {
    let mut dev = FakeDevice::new(2, 4096);
    let got = VideoFormat::capture_default().set_pix_format(VideoPixelFormat {
        width: 1280,
        height: 720,
        format: MJPEG_FMT,
    });
    dev.negotiated = Some(got.clone());
    let cam = start(2, &mut dev);
    assert_eq!(cam.format(), &Some(got));
    assert_eq!(cam.format().as_ref().unwrap().pix_format().width, 1280);
}

#[test]
fn frame_longer_than_buffer_is_io_error() {
    let mut dev = FakeDevice::new(2, 4096);
    let mut cam = start(2, &mut dev);
    dev.script.push_back(Reply::Dequeued { index: 1, bytes_used: 4097 });
    let r = capture(&mut cam, &mut dev);
    assert_eq!(r, Err(CameraError::CaptureIoError(EIO)));
    assert_eq!(cam.pool().held(), None);
    dev.script.push_back(Reply::Dequeued { index: 0, bytes_used: 4096 });
    let r = capture(&mut cam, &mut dev);
    assert_eq!(r, Ok(Completion::Frame(FrameView { index: 0, bytes_used: 4096 })));
}

#[test]
fn empty_buffer_rolls_back() {
    let mut dev = FakeDevice::new(4, 4096);
    dev.empty_at = Some(0);
    let (mut cam, first) = Camera::with_format(VideoFormat::capture_default(), 4);
    let r = drive(&mut cam, &mut dev, first);
    assert_eq!(r, Err(CameraError::BufferAllocationFailure(EINVAL)));
    assert_eq!((dev.maps, dev.unmapped), (0, 0));

    let mut dev = FakeDevice::new(4, 4096);
    dev.empty_at = Some(2);
    let (mut cam, first) = Camera::with_format(VideoFormat::capture_default(), 4);
    let r = drive(&mut cam, &mut dev, first);
    assert_eq!(r, Err(CameraError::BufferAllocationFailure(EINVAL)));
    assert_eq!((dev.maps, dev.unmapped), (2, 2));
    assert_eq!(cam.pool().len(), 0);
}

#[test]
fn dequeue_of_unknown_buffer_is_io_error() {
    let mut dev = FakeDevice::new(2, 4096);
    let mut cam = start(2, &mut dev);
    dev.script.push_back(Reply::Dequeued { index: 9, bytes_used: 10 });
    assert_eq!(capture(&mut cam, &mut dev), Err(CameraError::CaptureIoError(EIO)));
}

#[test]
fn errors_carry_their_kind() {
    let mut dev = FakeDevice::new(2, 4096);
    dev.fail = Some((DeviceCall::SetFormat(VideoFormat::capture_default()), 22));
    let (mut cam, first) = Camera::new();
    assert_eq!(drive(&mut cam, &mut dev, first), Err(CameraError::FormatRejected(22)));

    let mut dev = FakeDevice::new(2, 4096);
    dev.fail = Some((DeviceCall::RequestBuffers { count: 2 }, 16));
    let (mut cam, first) = Camera::with_format(VideoFormat::capture_default(), 2);
    assert_eq!(drive(&mut cam, &mut dev, first), Err(CameraError::BufferAllocationFailure(16)));
    assert_eq!(dev.unmapped, 0);

    let mut dev = FakeDevice::new(2, 4096);
    dev.fail = Some((DeviceCall::StreamOn, 5));
    let (mut cam, first) = Camera::with_format(VideoFormat::capture_default(), 2);
    assert_eq!(drive(&mut cam, &mut dev, first), Err(CameraError::StreamStartFailure(5)));

    let mut dev = FakeDevice::new(2, 4096);
    dev.fail = Some((DeviceCall::QueueBuffer { index: 1 }, 22));
    let (mut cam, first) = Camera::with_format(VideoFormat::capture_default(), 2);
    assert_eq!(drive(&mut cam, &mut dev, first), Err(CameraError::StreamStartFailure(22)));

    let mut dev = FakeDevice::new(2, 4096);
    let mut cam = start(2, &mut dev);
    dev.fail = Some((DeviceCall::DequeueBuffer, 19));
    assert_eq!(capture(&mut cam, &mut dev), Err(CameraError::CaptureIoError(19)));
    assert_eq!(CameraError::CaptureIoError(19).code(), 19);
}

#[test]
fn open_failures_are_classified() {
    assert_eq!(
        open_failure(ENOENT),
        CameraError::OpenFailure { kind: OpenFailureKind::NotFound, errno: ENOENT }
    );
    assert_eq!(
        open_failure(EACCES),
        CameraError::OpenFailure { kind: OpenFailureKind::PermissionDenied, errno: EACCES }
    );
    assert_eq!(
        open_failure(EBUSY),
        CameraError::OpenFailure { kind: OpenFailureKind::Busy, errno: EBUSY }
    );
    assert_eq!(
        open_failure(EAGAIN),
        CameraError::OpenFailure { kind: OpenFailureKind::Other, errno: EAGAIN }
    );
}

#[test]
fn format_builder_fields() {
    let f = VideoFormat::new();
    assert_eq!(f.width, 0);
    let f = f.set_type(9);
    assert_eq!(f.buf_type, 9);
    let f = f.set_video_capture_type();
    assert_eq!(f.buf_type, 1);
    let f = f.set_pix_format(VideoPixelFormat { width: 640, height: 480, format: 7 });
    assert_eq!((f.width, f.height, f.pixel_format, f.field), (640, 480, 7, FIELD_NONE));
    assert_eq!(MJPEG_FMT.to_le_bytes(), *b"MJPG");
}

#[test]
fn drain_in_any_order_consumes_n() {
    let mut dev = FakeDevice::new(4, 4096);
    let mut cam = start(4, &mut dev);
    for i in [3u32, 1, 0, 2] {
        dev.script.push_back(Reply::Dequeued { index: i, bytes_used: 0 });
    }
    let before = dev.dequeues;
    let first = cam.stop();
    assert_eq!(drive(&mut cam, &mut dev, first), Ok(Completion::Stopped));
    assert_eq!(dev.dequeues - before, 4);
    assert!(dev.queue.is_empty());
    for i in 0..4 {
        assert_eq!(cam.pool().buffer(i).state, BufferState::Free);
    }
}

#[test]
fn drain_refuses_a_buffer_twice() {
    let mut dev = FakeDevice::new(3, 4096);
    let mut cam = start(3, &mut dev);
    dev.script.push_back(Reply::Dequeued { index: 1, bytes_used: 0 });
    dev.script.push_back(Reply::Dequeued { index: 1, bytes_used: 0 });
    let first = cam.stop();
    assert_eq!(drive(&mut cam, &mut dev, first), Err(CameraError::CaptureIoError(EIO)));
}

#[test]
fn cursor_from_new_serves_slots_in_turn() {
    let mut dev = FakeDevice::new(4, 4096);
    let (mut cam, first) = Camera::new();
    assert_eq!(drive(&mut cam, &mut dev, first), Ok(Completion::Started));
    for k in 1..=9u32 {
        dev.would_block = k % 2;
        let r = capture(&mut cam, &mut dev);
        assert!(matches!(r, Ok(Completion::Frame(_))));
        assert_eq!(cam.pool().cursor(), k % 4);
    }
}
