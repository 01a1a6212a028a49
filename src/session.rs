//! A capture session: one object that serializes every device operation.
//! Each operation starts with a `begin` method that names the first device
//! call; the caller performs each call and feeds the reply to `step`, which
//! names the next call or reports how the operation ended.

use crate::device::{
    failure_code, reply_failure_code, CameraError, DeviceCall, Reply, EINVAL, EIO,
};
use crate::format::VideoFormat;
use crate::pool::{BufferState, FrameBufferPool, PoolView};
use vstd::prelude::*;

verus! {

/// The number of buffers a default session maps.
pub const DEFAULT_BUFFER_COUNT: u32 = 4;

/// The call that turns the capture stream on.
pub fn enable_video_stream() -> (r: DeviceCall)
    ensures
        r == DeviceCall::StreamOn,
{
    DeviceCall::StreamOn
}

/// The call a session is waiting on the reply of, with what it needs to go on.
#[derive(Clone, Copy, PartialEq, Eq, Structural, Debug)]
pub enum Op {
    /// No call is outstanding.
    Idle,
    /// SET-FORMAT, before a pool of `count` buffers is set up.
    Formatting { count: u32 },
    /// REQUEST-BUFFERS for `count` buffers.
    Requesting { count: u32 },
    /// QUERY-BUFFER of buffer `index` of `count`.
    Querying { index: u32, count: u32 },
    /// The mapping of buffer `index` of `count`, at `offset`, `length` bytes long.
    Mapping { index: u32, count: u32, offset: u32, length: u32 },
    /// The unmapping of the buffers mapped so far, after which `error` is reported.
    RollingBack { error: CameraError },
    /// QUEUE-BUFFER of buffer `index`, while handing every buffer to the device.
    Enqueuing { index: u32 },
    /// STREAM-ON.
    StartingStream,
    /// QUEUE-BUFFER of the exposed buffer, at the start of a capture or a stop.
    Releasing { stopping: bool },
    /// QUEUE-BUFFER of the buffer at the cursor, which the device did not have.
    Priming,
    /// A readiness wait; when `draining`, `left` buffers remain to be drained.
    Waiting { draining: bool, left: u32 },
    /// DEQUEUE-BUFFER; when `draining`, `left` buffers remain to be drained.
    Dequeuing { draining: bool, left: u32 },
    /// STREAM-OFF.
    StoppingStream,
}

/// A captured frame: the buffer that holds it and how many of its bytes it fills.
#[derive(Clone, Copy, PartialEq, Eq, Structural, Debug)]
pub struct FrameView {
    pub index: u32,
    pub bytes_used: u32,
}

/// How an operation ended well.
#[derive(Clone, Copy, PartialEq, Eq, Structural, Debug)]
pub enum Completion {
    /// The pool is mapped, every buffer is queued and the stream is on.
    Started,
    /// A frame was captured.
    Frame(FrameView),
    /// Every buffer was drained and the stream is off.
    Stopped,
}

/// What a session asks for next.
#[derive(Clone, PartialEq, Eq, Structural, Debug)]
pub enum Step {
    /// Perform this call and hand its reply to `step`.
    Call(DeviceCall),
    /// The operation is over and went well.
    Finished(Completion),
    /// The operation is over and failed.
    Failed(CameraError),
}

/// What a session is, mathematically.
pub struct CameraView {
    pub pool: PoolView,
    pub streaming: bool,
    pub format: Option<VideoFormat>,
    pub op: Op,
}

impl CameraView {
    /// The pool is well formed, and the pool fits the call outstanding.
    pub open spec fn wf(self) -> bool {
        &&& self.pool.wf()
        &&& match self.op {
            Op::Idle => true,
            Op::Formatting { .. } => self.pool.len() == 0 && self.pool.held is None,
            Op::Requesting { .. } => self.pool.len() == 0 && self.pool.held is None,
            Op::Querying { index, count } => self.pool.len() == index && index < count
                && self.pool.held is None,
            Op::Mapping { index, count, .. } => self.pool.len() == index && index < count
                && self.pool.held is None,
            Op::RollingBack { .. } => self.pool.len() == 0 && self.pool.held is None,
            Op::Enqueuing { index } => index < self.pool.len() && self.pool.held is None,
            Op::StartingStream => self.pool.held is None,
            Op::Releasing { .. } => self.pool.held is Some,
            Op::Priming => self.pool.len() > 0 && self.pool.held is None
                && self.pool.buffers[self.pool.cursor as int].state == BufferState::Free,
            Op::Waiting { draining, left } => self.pool.len() > 0 && self.pool.held is None
                && (draining ==> 1 <= left <= self.pool.len()),
            Op::Dequeuing { draining, left } => self.pool.len() > 0 && self.pool.held is None
                && (draining ==> 1 <= left <= self.pool.len()),
            Op::StoppingStream => true,
        }
    }

    pub open spec fn with_op(self, op: Op) -> CameraView {
        CameraView { op, ..self }
    }

    pub open spec fn with_pool(self, pool: PoolView) -> CameraView {
        CameraView { pool, ..self }
    }

    /// The operation ends with error `e`.
    pub open spec fn fail(self, e: CameraError) -> (CameraView, Step) {
        (self.with_op(Op::Idle), Step::Failed(e))
    }

    /// Pool setup failed with `e`: every buffer mapped so far is unmapped
    /// before `e` is reported.
    pub open spec fn roll_back(self, e: CameraError) -> (CameraView, Step) {
        if self.pool.len() == 0 {
            self.fail(e)
        } else {
            (
                CameraView { pool: PoolView::empty(), op: Op::RollingBack { error: e }, ..self },
                Step::Call(DeviceCall::UnmapBuffers { count: self.pool.len() as u32 }),
            )
        }
    }

    /// A capture with no exposed buffer: the buffer at the cursor goes to the
    /// device if it is not there, then the wait begins.
    pub open spec fn prime_or_wait(self) -> (CameraView, Step) {
        if self.pool.buffers[self.pool.cursor as int].state == BufferState::Free {
            (self.with_op(Op::Priming), Step::Call(DeviceCall::QueueBuffer { index: self.pool.cursor }))
        } else {
            (
                self.with_op(Op::Waiting { draining: false, left: 0 }),
                Step::Call(DeviceCall::WaitReadable { clear_ready: false }),
            )
        }
    }

    /// A stop with no exposed buffer: every buffer is drained, then the stream goes off.
    pub open spec fn start_drain(self) -> (CameraView, Step) {
        if self.pool.len() == 0 {
            (self.with_op(Op::StoppingStream), Step::Call(DeviceCall::StreamOff))
        } else {
            (
                self.with_op(Op::Waiting { draining: true, left: self.pool.len() as u32 }),
                Step::Call(DeviceCall::WaitReadable { clear_ready: false }),
            )
        }
    }

    /// The start of a capture.
    pub open spec fn begin_capture(self) -> (CameraView, Step) {
        match self.pool.held {
            Some(h) => (
                self.with_op(Op::Releasing { stopping: false }),
                Step::Call(DeviceCall::QueueBuffer { index: h }),
            ),
            None => self.prime_or_wait(),
        }
    }

    /// The start of a stop.
    pub open spec fn begin_stop(self) -> (CameraView, Step) {
        match self.pool.held {
            Some(h) => (
                self.with_op(Op::Releasing { stopping: true }),
                Step::Call(DeviceCall::QueueBuffer { index: h }),
            ),
            None => self.start_drain(),
        }
    }

    /// A dequeued buffer during a capture or a drain. A buffer the device did
    /// not have, or a frame longer than its buffer, is an I/O error.
    pub open spec fn on_dequeued(self, draining: bool, left: u32, index: u32, bytes_used: u32) -> (
        CameraView,
        Step,
    ) {
        if index < self.pool.len() && self.pool.buffers[index as int].state == BufferState::Queued {
            if draining {
                let v = self.with_pool(self.pool.with_state(index, BufferState::Free));
                if left <= 1 {
                    (v.with_op(Op::StoppingStream), Step::Call(DeviceCall::StreamOff))
                } else {
                    (
                        v.with_op(Op::Waiting { draining: true, left: (left - 1) as u32 }),
                        Step::Call(DeviceCall::WaitReadable { clear_ready: false }),
                    )
                }
            } else {
                if bytes_used <= self.pool.buffers[index as int].length {
                    (
                        self.with_pool(self.pool.delivered(index)).with_op(Op::Idle),
                        Step::Finished(Completion::Frame(FrameView { index, bytes_used })),
                    )
                } else {
                    self.fail(CameraError::CaptureIoError(EIO))
                }
            }
        } else {
            self.fail(CameraError::CaptureIoError(EIO))
        }
    }

    /// The session's answer to reply `r` to the outstanding call.
    pub open spec fn next(self, r: Reply) -> (CameraView, Step) {
        let code = failure_code(r);
        match self.op {
            Op::Idle => self.fail(CameraError::CaptureIoError(EIO)),
            Op::Formatting { count } => match r {
                Reply::Format(f) => (
                    CameraView { format: Some(f), op: Op::Requesting { count }, ..self },
                    Step::Call(DeviceCall::RequestBuffers { count }),
                ),
                _ => self.fail(CameraError::FormatRejected(code)),
            },
            Op::Requesting { count } => match r {
                Reply::Done => if count == 0 {
                    (self.with_op(Op::StartingStream), Step::Call(DeviceCall::StreamOn))
                } else {
                    (
                        self.with_op(Op::Querying { index: 0, count }),
                        Step::Call(DeviceCall::QueryBuffer { index: 0 }),
                    )
                },
                _ => self.fail(CameraError::BufferAllocationFailure(code)),
            },
            Op::Querying { index, count } => match r {
                Reply::Queried { offset, length } => if length == 0 {
                    self.roll_back(CameraError::BufferAllocationFailure(EINVAL))
                } else {
                    (
                        self.with_op(Op::Mapping { index, count, offset, length }),
                        Step::Call(DeviceCall::MapBuffer { index, offset, length }),
                    )
                },
                _ => self.roll_back(CameraError::BufferAllocationFailure(code)),
            },
            Op::Mapping { index, count, offset, length } => match r {
                Reply::Done => {
                    let v = self.with_pool(self.pool.pushed(offset, length));
                    if index + 1 < count {
                        (
                            v.with_op(Op::Querying { index: (index + 1) as u32, count }),
                            Step::Call(DeviceCall::QueryBuffer { index: (index + 1) as u32 }),
                        )
                    } else {
                        (
                            v.with_op(Op::Enqueuing { index: 0 }),
                            Step::Call(DeviceCall::QueueBuffer { index: 0 }),
                        )
                    }
                },
                _ => self.roll_back(CameraError::BufferAllocationFailure(code)),
            },
            Op::RollingBack { error } => self.fail(error),
            Op::Enqueuing { index } => match r {
                Reply::Done => {
                    let v = self.with_pool(self.pool.with_state(index, BufferState::Queued));
                    if index + 1 < self.pool.len() {
                        (
                            v.with_op(Op::Enqueuing { index: (index + 1) as u32 }),
                            Step::Call(DeviceCall::QueueBuffer { index: (index + 1) as u32 }),
                        )
                    } else {
                        (v.with_op(Op::StartingStream), Step::Call(DeviceCall::StreamOn))
                    }
                },
                _ => self.fail(CameraError::StreamStartFailure(code)),
            },
            Op::StartingStream => match r {
                Reply::Done => (
                    CameraView { streaming: true, op: Op::Idle, ..self },
                    Step::Finished(Completion::Started),
                ),
                _ => self.fail(CameraError::StreamStartFailure(code)),
            },
            Op::Releasing { stopping } => match r {
                Reply::Done => {
                    let v = self.with_pool(self.pool.released());
                    if stopping {
                        v.start_drain()
                    } else {
                        v.prime_or_wait()
                    }
                },
                _ => self.fail(CameraError::CaptureIoError(code)),
            },
            Op::Priming => match r {
                Reply::Done => (
                    self.with_pool(
                        self.pool.with_state(self.pool.cursor, BufferState::Queued),
                    ).with_op(Op::Waiting { draining: false, left: 0 }),
                    Step::Call(DeviceCall::WaitReadable { clear_ready: false }),
                ),
                _ => self.fail(CameraError::CaptureIoError(code)),
            },
            Op::Waiting { draining, left } => match r {
                Reply::Done => (
                    self.with_op(Op::Dequeuing { draining, left }),
                    Step::Call(DeviceCall::DequeueBuffer),
                ),
                _ => self.fail(CameraError::CaptureIoError(code)),
            },
            Op::Dequeuing { draining, left } => match r {
                Reply::Dequeued { index, bytes_used } => self.on_dequeued(
                    draining,
                    left,
                    index,
                    bytes_used,
                ),
                Reply::WouldBlock => (
                    self.with_op(Op::Waiting { draining, left }),
                    Step::Call(DeviceCall::WaitReadable { clear_ready: true }),
                ),
                _ => self.fail(CameraError::CaptureIoError(code)),
            },
            Op::StoppingStream => match r {
                Reply::Done => (
                    CameraView { streaming: false, op: Op::Idle, ..self },
                    Step::Finished(Completion::Stopped),
                ),
                _ => self.fail(CameraError::CaptureIoError(code)),
            },
        }
    }
}


/// The state of a session's proof of well-formedness carries over every reply.
pub proof fn lemma_next_wf(v: CameraView, r: Reply)
    requires
        v.wf(),
    ensures
        v.next(r).0.wf(),
{
    match v.op {
        Op::Releasing { .. } => {
            assert(v.pool.released().wf());
        },
        Op::Dequeuing { draining, left } => {
            if let Reply::Dequeued { index, bytes_used } = r {
                if index < v.pool.len() && v.pool.buffers[index as int].state
                    == BufferState::Queued && !draining {
                    let p = v.pool.delivered(index);
                    assert(p.wf()) by {
                        let n = v.pool.len() as int;
                        vstd::arithmetic::div_mod::lemma_mod_bound((v.pool.cursor + 1) as int, n);
                        assert forall|i: int| 0 <= i < p.len() implies (#[trigger] p.buffers[i].state
                            == BufferState::Filled <==> p.held == Some(i as u32)) by {
                            if i != index as int {
                                assert(v.pool.buffers[i].state != BufferState::Filled);
                            }
                        }
                    }
                }
            }
        },
        _ => {},
    }
}

/// A session: the buffer pool, whether the stream is on, the format the
/// driver settled on, and the call whose reply is awaited.
pub struct Camera {
    pool: FrameBufferPool,
    streaming: bool,
    format: Option<VideoFormat>,
    op: Op,
}

impl View for Camera {
    type V = CameraView;

    closed spec fn view(&self) -> CameraView {
        CameraView { pool: self.pool@, streaming: self.streaming, format: self.format, op: self.op }
    }
}

impl Camera {
    /// Opens a session on a freshly opened device: the format request goes
    /// first, then a pool of `count` buffers is set up, every buffer is
    /// queued, and the stream is turned on.
    pub fn with_format(format: VideoFormat, count: u32) -> (r: (Camera, Step))
        ensures
            r.0@ == (CameraView {
                pool: PoolView::empty(),
                streaming: false,
                format: None,
                op: Op::Formatting { count },
            }),
            r.0@.wf(),
            r.1 == Step::Call(DeviceCall::SetFormat(format)),
    {
        let cam = Camera {
            pool: FrameBufferPool::new(),
            streaming: false,
            format: None,
            op: Op::Formatting { count },
        };
        (cam, Step::Call(format.apply()))
    }

    /// Opens a session with the default format, 1920 by 1080 Motion-JPEG,
    /// and four buffers.
    pub fn new() -> (r: (Camera, Step))
        ensures
            r.0@ == (CameraView {
                pool: PoolView::empty(),
                streaming: false,
                format: None,
                op: Op::Formatting { count: DEFAULT_BUFFER_COUNT },
            }),
            r.0@.wf(),
            r.1 == Step::Call(DeviceCall::SetFormat(VideoFormat::default_capture())),
    {
        Camera::with_format(VideoFormat::capture_default(), DEFAULT_BUFFER_COUNT)
    }

    /// Whether no call is outstanding.
    pub fn is_idle(&self) -> (r: bool)
        ensures
            r == (self@.op == Op::Idle),
    {
        self.op == Op::Idle
    }

    /// Whether the stream is on.
    pub fn is_streaming(&self) -> (r: bool)
        ensures
            r == self@.streaming,
    {
        self.streaming
    }

    /// The format the driver settled on, once it has answered SET-FORMAT.
    pub fn format(&self) -> (r: &Option<VideoFormat>)
        ensures
            *r == self@.format,
    {
        &self.format
    }

    /// The buffer pool.
    pub fn pool(&self) -> (r: &FrameBufferPool)
        ensures
            r@ == self@.pool,
    {
        &self.pool
    }

    fn fail(&mut self, e: CameraError) -> (r: Step)
        ensures
            (final(self)@, r) == old(self)@.fail(e),
    {
        self.op = Op::Idle;
        Step::Failed(e)
    }

    fn roll_back(&mut self, e: CameraError) -> (r: Step)
        requires
            old(self)@.pool.wf(),
        ensures
            (final(self)@, r) == old(self)@.roll_back(e),
    {
        let n = self.pool.len();
        if n == 0 {
            self.fail(e)
        } else {
            self.pool.clear();
            self.op = Op::RollingBack { error: e };
            Step::Call(DeviceCall::UnmapBuffers { count: n as u32 })
        }
    }

    fn prime_or_wait(&mut self) -> (r: Step)
        requires
            old(self)@.pool.wf(),
            old(self)@.pool.len() > 0,
        ensures
            (final(self)@, r) == old(self)@.prime_or_wait(),
    {
        let c = self.pool.cursor();
        if self.pool.buffer(c).state == BufferState::Free {
            self.op = Op::Priming;
            Step::Call(DeviceCall::QueueBuffer { index: c })
        } else {
            self.op = Op::Waiting { draining: false, left: 0 };
            Step::Call(DeviceCall::WaitReadable { clear_ready: false })
        }
    }

    fn start_drain(&mut self) -> (r: Step)
        requires
            old(self)@.pool.wf(),
        ensures
            (final(self)@, r) == old(self)@.start_drain(),
    {
        let n = self.pool.len();
        if n == 0 {
            self.op = Op::StoppingStream;
            Step::Call(DeviceCall::StreamOff)
        } else {
            self.op = Op::Waiting { draining: true, left: n as u32 };
            Step::Call(DeviceCall::WaitReadable { clear_ready: false })
        }
    }

    /// Starts a capture. The buffer exposed by the previous capture goes back
    /// to the device first, which ends the validity of its frame; then the
    /// buffer at the cursor is queued if the device does not have it; then the
    /// wait for a filled buffer begins.
    pub fn capture_frame(&mut self) -> (r: Step)
        requires
            old(self)@.wf(),
            old(self)@.op == Op::Idle,
            old(self)@.pool.len() > 0,
        ensures
            (final(self)@, r) == old(self)@.begin_capture(),
            final(self)@.wf(),
    {
        match self.pool.held() {
            Some(h) => {
                self.op = Op::Releasing { stopping: false };
                Step::Call(DeviceCall::QueueBuffer { index: h })
            },
            None => self.prime_or_wait(),
        }
    }

    /// Starts a stop. The exposed buffer goes back to the device, exactly as
    /// many buffers as the pool holds are dequeued, and the stream goes off.
    pub fn stop(&mut self) -> (r: Step)
        requires
            old(self)@.wf(),
            old(self)@.op == Op::Idle,
        ensures
            (final(self)@, r) == old(self)@.begin_stop(),
            final(self)@.wf(),
    {
        match self.pool.held() {
            Some(h) => {
                self.op = Op::Releasing { stopping: true };
                Step::Call(DeviceCall::QueueBuffer { index: h })
            },
            None => self.start_drain(),
        }
    }

    fn on_dequeued(&mut self, draining: bool, left: u32, index: u32, bytes_used: u32) -> (r: Step)
        requires
            old(self)@.wf(),
            old(self)@.op == (Op::Dequeuing { draining, left }),
        ensures
            (final(self)@, r) == old(self)@.on_dequeued(draining, left, index, bytes_used),
    {
        let n = self.pool.len();
        if (index as usize) < n && self.pool.buffer(index).state == BufferState::Queued {
            if draining {
                self.pool.set_state(index, BufferState::Free);
                if left <= 1 {
                    self.op = Op::StoppingStream;
                    Step::Call(DeviceCall::StreamOff)
                } else {
                    self.op = Op::Waiting { draining: true, left: left - 1 };
                    Step::Call(DeviceCall::WaitReadable { clear_ready: false })
                }
            } else {
                if bytes_used <= self.pool.buffer(index).length {
                    self.pool.deliver(index);
                    self.op = Op::Idle;
                    Step::Finished(Completion::Frame(FrameView { index, bytes_used }))
                } else {
                    self.fail(CameraError::CaptureIoError(EIO))
                }
            }
        } else {
            self.fail(CameraError::CaptureIoError(EIO))
        }
    }

    /// Takes the reply to the outstanding call and names what comes next.
    pub fn step(&mut self, reply: Reply) -> (r: Step)
        requires
            old(self)@.wf(),
            old(self)@.op != Op::Idle,
        ensures
            (final(self)@, r) == old(self)@.next(reply),
            final(self)@.wf(),
    {
        proof {
            lemma_next_wf(self@, reply);
        }
        let code = reply_failure_code(&reply);
        match self.op {
            Op::Idle => self.fail(CameraError::CaptureIoError(EIO)),
            Op::Formatting { count } => match reply {
                Reply::Format(f) => {
                    self.format = Some(f);
                    self.op = Op::Requesting { count };
                    Step::Call(DeviceCall::RequestBuffers { count })
                },
                _ => self.fail(CameraError::FormatRejected(code)),
            },
            Op::Requesting { count } => match reply {
                Reply::Done => if count == 0 {
                    self.op = Op::StartingStream;
                    Step::Call(enable_video_stream())
                } else {
                    self.op = Op::Querying { index: 0, count };
                    Step::Call(DeviceCall::QueryBuffer { index: 0 })
                },
                _ => self.fail(CameraError::BufferAllocationFailure(code)),
            },
            Op::Querying { index, count } => match reply {
                Reply::Queried { offset, length } => if length == 0 {
                    self.roll_back(CameraError::BufferAllocationFailure(EINVAL))
                } else {
                    self.op = Op::Mapping { index, count, offset, length };
                    Step::Call(DeviceCall::MapBuffer { index, offset, length })
                },
                _ => self.roll_back(CameraError::BufferAllocationFailure(code)),
            },
            Op::Mapping { index, count, offset, length } => match reply {
                Reply::Done => {
                    self.pool.push_mapped(offset, length);
                    if index + 1 < count {
                        self.op = Op::Querying { index: index + 1, count };
                        Step::Call(DeviceCall::QueryBuffer { index: index + 1 })
                    } else {
                        self.op = Op::Enqueuing { index: 0 };
                        Step::Call(DeviceCall::QueueBuffer { index: 0 })
                    }
                },
                _ => self.roll_back(CameraError::BufferAllocationFailure(code)),
            },
            Op::RollingBack { error } => self.fail(error),
            Op::Enqueuing { index } => match reply {
                Reply::Done => {
                    self.pool.set_state(index, BufferState::Queued);
                    if ((index + 1) as usize) < self.pool.len() {
                        self.op = Op::Enqueuing { index: index + 1 };
                        Step::Call(DeviceCall::QueueBuffer { index: index + 1 })
                    } else {
                        self.op = Op::StartingStream;
                        Step::Call(enable_video_stream())
                    }
                },
                _ => self.fail(CameraError::StreamStartFailure(code)),
            },
            Op::StartingStream => match reply {
                Reply::Done => {
                    self.streaming = true;
                    self.op = Op::Idle;
                    Step::Finished(Completion::Started)
                },
                _ => self.fail(CameraError::StreamStartFailure(code)),
            },
            Op::Releasing { stopping } => match reply {
                Reply::Done => {
                    self.pool.release();
                    if stopping {
                        self.start_drain()
                    } else {
                        self.prime_or_wait()
                    }
                },
                _ => self.fail(CameraError::CaptureIoError(code)),
            },
            Op::Priming => match reply {
                Reply::Done => {
                    let c = self.pool.cursor();
                    self.pool.set_state(c, BufferState::Queued);
                    self.op = Op::Waiting { draining: false, left: 0 };
                    Step::Call(DeviceCall::WaitReadable { clear_ready: false })
                },
                _ => self.fail(CameraError::CaptureIoError(code)),
            },
            Op::Waiting { draining, left } => match reply {
                Reply::Done => {
                    self.op = Op::Dequeuing { draining, left };
                    Step::Call(DeviceCall::DequeueBuffer)
                },
                _ => self.fail(CameraError::CaptureIoError(code)),
            },
            Op::Dequeuing { draining, left } => match reply {
                Reply::Dequeued { index, bytes_used } => self.on_dequeued(
                    draining,
                    left,
                    index,
                    bytes_used,
                ),
                Reply::WouldBlock => {
                    self.op = Op::Waiting { draining, left };
                    Step::Call(DeviceCall::WaitReadable { clear_ready: true })
                },
                _ => self.fail(CameraError::CaptureIoError(code)),
            },
            Op::StoppingStream => match reply {
                Reply::Done => {
                    self.streaming = false;
                    self.op = Op::Idle;
                    Step::Finished(Completion::Stopped)
                },
                _ => self.fail(CameraError::CaptureIoError(code)),
            },
        }
    }
}

} // verus!
