//! The kernel's video-capture ABI on 64-bit little-endian Linux: the request
//! number of each device-control call and the byte layout of its payload.

use crate::device::{DeviceCall, Reply, EAGAIN};
use crate::format::{VideoFormat, BUF_TYPE_VIDEO_CAPTURE};
use crate::ioctl::{_IOW, _IOWR, ioc_value, IOC_READ_WRITE, IOC_WRITE};
use vstd::prelude::*;

verus! {

/// Buffers that are memory-mapped from the device.
pub const MEMORY_MMAP: u32 = 1;

/// The ioctl type character of video devices.
pub const VIDEO_IOC_TYPE: char = 'V';

/// Size of `struct v4l2_format`.
pub const FORMAT_SIZE: usize = 208;

/// Size of `struct v4l2_requestbuffers`.
pub const REQUESTBUFFERS_SIZE: usize = 20;

/// Size of `struct v4l2_buffer`.
pub const BUFFER_SIZE: usize = 88;

/// Size of `struct v4l2_control`.
pub const CONTROL_SIZE: usize = 8;

/// Size of the `int` that STREAM-ON and STREAM-OFF take.
pub const INT_SIZE: usize = 4;

/// Byte `k` of `x`, least significant first.
pub open spec fn le_byte(x: u32, k: int) -> u8 {
    if k == 0 {
        (x % 0x100) as u8
    } else if k == 1 {
        ((x / 0x100) % 0x100) as u8
    } else if k == 2 {
        ((x / 0x1_0000) % 0x100) as u8
    } else {
        (x / 0x100_0000) as u8
    }
}

/// `b` with `x` written little-endian at `off`.
pub open spec fn put_u32_spec(b: Seq<u8>, off: int, x: u32) -> Seq<u8> {
    b.update(off, le_byte(x, 0)).update(off + 1, le_byte(x, 1)).update(off + 2, le_byte(x, 2)).update(
        off + 3,
        le_byte(x, 3),
    )
}

/// The little-endian number in bytes `off..off + 4` of `b`.
pub open spec fn u32_at(b: Seq<u8>, off: int) -> int {
    b[off] + 0x100 * b[off + 1] + 0x1_0000 * b[off + 2] + 0x100_0000 * b[off + 3]
}

/// `n` zero bytes.
pub open spec fn zeros(n: nat) -> Seq<u8> {
    Seq::new(n, |i: int| 0u8)
}

/// The payload of SET-FORMAT for format `f`.
pub open spec fn format_payload(f: VideoFormat) -> Seq<u8> {
    let b = put_u32_spec(zeros(FORMAT_SIZE as nat), 0, f.buf_type);
    let b = put_u32_spec(b, 8, f.width);
    let b = put_u32_spec(b, 12, f.height);
    let b = put_u32_spec(b, 16, f.pixel_format);
    let b = put_u32_spec(b, 20, f.field);
    let b = put_u32_spec(b, 24, f.bytes_per_line);
    put_u32_spec(b, 28, f.size_image)
}

/// The payload of REQUEST-BUFFERS for `count` memory-mapped capture buffers.
pub open spec fn requestbuffers_payload(count: u32) -> Seq<u8> {
    let b = put_u32_spec(zeros(REQUESTBUFFERS_SIZE as nat), 0, count);
    let b = put_u32_spec(b, 4, BUF_TYPE_VIDEO_CAPTURE);
    put_u32_spec(b, 8, MEMORY_MMAP)
}

/// The payload of QUERY-BUFFER, QUEUE-BUFFER and DEQUEUE-BUFFER for
/// memory-mapped capture buffer `index`.
pub open spec fn buffer_payload(index: u32) -> Seq<u8> {
    let b = put_u32_spec(zeros(BUFFER_SIZE as nat), 0, index);
    let b = put_u32_spec(b, 4, BUF_TYPE_VIDEO_CAPTURE);
    put_u32_spec(b, 60, MEMORY_MMAP)
}

/// The payload of GET-CONTROL and SET-CONTROL.
pub open spec fn control_payload(id: u32, value: i32) -> Seq<u8> {
    let b = put_u32_spec(zeros(CONTROL_SIZE as nat), 0, id);
    put_u32_spec(b, 4, value as u32)
}

/// The payload of STREAM-ON and STREAM-OFF.
pub open spec fn stream_payload() -> Seq<u8> {
    put_u32_spec(zeros(INT_SIZE as nat), 0, BUF_TYPE_VIDEO_CAPTURE)
}

/// A device-control call ready to issue: its request number and its payload.
pub struct Ioctl {
    pub request: u32,
    pub payload: Vec<u8>,
}

/// The request number and payload of `call`, or `None` for the calls that
/// are no device-control call (mapping, unmapping, waiting).
pub open spec fn ioctl_of(call: DeviceCall) -> Option<(int, Seq<u8>)> {
    let rw = IOC_READ_WRITE;
    let v = VIDEO_IOC_TYPE as u32;
    match call {
        DeviceCall::SetFormat(f) => Some((ioc_value(rw, v, 5, FORMAT_SIZE as u32), format_payload(f))),
        DeviceCall::RequestBuffers { count } => Some(
            (ioc_value(rw, v, 8, REQUESTBUFFERS_SIZE as u32), requestbuffers_payload(count)),
        ),
        DeviceCall::QueryBuffer { index } => Some(
            (ioc_value(rw, v, 9, BUFFER_SIZE as u32), buffer_payload(index)),
        ),
        DeviceCall::QueueBuffer { index } => Some(
            (ioc_value(rw, v, 15, BUFFER_SIZE as u32), buffer_payload(index)),
        ),
        DeviceCall::DequeueBuffer => Some((ioc_value(rw, v, 17, BUFFER_SIZE as u32), buffer_payload(0))),
        DeviceCall::StreamOn => Some((ioc_value(IOC_WRITE, v, 18, INT_SIZE as u32), stream_payload())),
        DeviceCall::StreamOff => Some((ioc_value(IOC_WRITE, v, 19, INT_SIZE as u32), stream_payload())),
        DeviceCall::GetControl { id } => Some(
            (ioc_value(rw, v, 27, CONTROL_SIZE as u32), control_payload(id, 0)),
        ),
        DeviceCall::SetControl { id, value } => Some(
            (ioc_value(rw, v, 28, CONTROL_SIZE as u32), control_payload(id, value)),
        ),
        _ => None,
    }
}

/// A buffer of `n` zero bytes.
fn zeroed(n: usize) -> (r: Vec<u8>)
    ensures
        r@ == zeros(n as nat),
{
    let mut v: Vec<u8> = Vec::new();
    let mut i: usize = 0;
    while i < n
        invariant
            i <= n,
            v@ == zeros(i as nat),
        decreases n - i,
    {
        v.push(0u8);
        i = i + 1;
        assert(v@ =~= zeros(i as nat));
    }
    v
}

/// Writes `x` little-endian at `off`.
fn put_u32(b: &mut Vec<u8>, off: usize, x: u32)
    requires
        off + 4 <= old(b)@.len(),
    ensures
        final(b)@ == put_u32_spec(old(b)@, off as int, x),
{
    let len = b.len();
    assert(off + 3 < len);
    let o1 = off + 1;
    let o2 = off + 2;
    let o3 = off + 3;
    b.set(off, (x % 0x100) as u8);
    b.set(o1, ((x / 0x100) % 0x100) as u8);
    b.set(o2, ((x / 0x1_0000) % 0x100) as u8);
    b.set(o3, (x / 0x100_0000) as u8);
}

/// Reads the little-endian number at `off`.
fn get_u32(b: &Vec<u8>, off: usize) -> (r: u32)
    requires
        off + 4 <= b@.len(),
    ensures
        r == u32_at(b@, off as int),
{
    let len = b.len();
    assert(off + 3 < len);
    let b0 = b[off] as u32;
    let b1 = b[off + 1] as u32;
    let b2 = b[off + 2] as u32;
    let b3 = b[off + 3] as u32;
    b0 + 0x100 * b1 + 0x1_0000 * b2 + 0x100_0000 * b3
}

/// Reading back a number written at the same place gives it back.
pub proof fn lemma_u32_round_trip(b: Seq<u8>, off: int, x: u32)
    requires
        0 <= off,
        off + 4 <= b.len(),
    ensures
        u32_at(put_u32_spec(b, off, x), off) == x,
        put_u32_spec(b, off, x).len() == b.len(),
{
    let c = put_u32_spec(b, off, x);
    assert(c[off] == le_byte(x, 0));
    assert(c[off + 1] == le_byte(x, 1));
    assert(c[off + 2] == le_byte(x, 2));
    assert(c[off + 3] == le_byte(x, 3));
    let xi = x as int;
    assert(xi == xi % 0x100 + 0x100 * ((xi / 0x100) % 0x100) + 0x1_0000 * ((xi / 0x1_0000) % 0x100)
        + 0x100_0000 * (xi / 0x100_0000)) by (nonlinear_arith)
        requires
            0 <= xi < 0x1_0000_0000,
    ;
}

/// What a successful call's payload, as the kernel left it, reports.
pub open spec fn reply_of(call: DeviceCall, b: Seq<u8>) -> Reply {
    match call {
        DeviceCall::SetFormat(_) => Reply::Format(
            VideoFormat {
                buf_type: u32_at(b, 0) as u32,
                width: u32_at(b, 8) as u32,
                height: u32_at(b, 12) as u32,
                pixel_format: u32_at(b, 16) as u32,
                field: u32_at(b, 20) as u32,
                bytes_per_line: u32_at(b, 24) as u32,
                size_image: u32_at(b, 28) as u32,
            },
        ),
        DeviceCall::QueryBuffer { .. } => Reply::Queried {
            offset: u32_at(b, 64) as u32,
            length: u32_at(b, 72) as u32,
        },
        DeviceCall::DequeueBuffer => Reply::Dequeued {
            index: u32_at(b, 0) as u32,
            bytes_used: u32_at(b, 8) as u32,
        },
        DeviceCall::GetControl { .. } => Reply::Control { value: (u32_at(b, 4) as u32) as i32 },
        _ => Reply::Done,
    }
}

/// The reply to a call that failed with OS error code `errno`: a
/// DEQUEUE-BUFFER that found nothing yet would block; anything else failed.
pub open spec fn failure_reply_of(call: DeviceCall, errno: i32) -> Reply {
    if call == DeviceCall::DequeueBuffer && errno == EAGAIN {
        Reply::WouldBlock
    } else {
        Reply::Failed(errno)
    }
}

/// The request number of a two-way video call.
fn video_rw(nr: u32, size: usize) -> (r: u32)
    requires
        nr < 0x100,
        size < 0x4000,
    ensures
        r == ioc_value(IOC_READ_WRITE, VIDEO_IOC_TYPE as u32, nr, size as u32),
{
    assert(VIDEO_IOC_TYPE as u32 == 86);
    _IOWR(VIDEO_IOC_TYPE, nr, size)
}

/// The request number of a video call whose payload the kernel reads.
fn video_w(nr: u32, size: usize) -> (r: u32)
    requires
        nr < 0x100,
        size < 0x4000,
    ensures
        r == ioc_value(IOC_WRITE, VIDEO_IOC_TYPE as u32, nr, size as u32),
{
    assert(VIDEO_IOC_TYPE as u32 == 86);
    _IOW(VIDEO_IOC_TYPE, nr, size)
}

fn format_bytes(f: &VideoFormat) -> (r: Vec<u8>)
    ensures
        r@ == format_payload(*f),
{
    let mut b = zeroed(FORMAT_SIZE);
    put_u32(&mut b, 0, f.buf_type);
    put_u32(&mut b, 8, f.width);
    put_u32(&mut b, 12, f.height);
    put_u32(&mut b, 16, f.pixel_format);
    put_u32(&mut b, 20, f.field);
    put_u32(&mut b, 24, f.bytes_per_line);
    put_u32(&mut b, 28, f.size_image);
    b
}

fn requestbuffers_bytes(count: u32) -> (r: Vec<u8>)
    ensures
        r@ == requestbuffers_payload(count),
{
    let mut b = zeroed(REQUESTBUFFERS_SIZE);
    put_u32(&mut b, 0, count);
    put_u32(&mut b, 4, BUF_TYPE_VIDEO_CAPTURE);
    put_u32(&mut b, 8, MEMORY_MMAP);
    b
}

fn buffer_bytes(index: u32) -> (r: Vec<u8>)
    ensures
        r@ == buffer_payload(index),
{
    let mut b = zeroed(BUFFER_SIZE);
    put_u32(&mut b, 0, index);
    put_u32(&mut b, 4, BUF_TYPE_VIDEO_CAPTURE);
    put_u32(&mut b, 60, MEMORY_MMAP);
    b
}

fn control_bytes(id: u32, value: i32) -> (r: Vec<u8>)
    ensures
        r@ == control_payload(id, value),
{
    let mut b = zeroed(CONTROL_SIZE);
    put_u32(&mut b, 0, id);
    put_u32(&mut b, 4, value as u32);
    b
}

fn stream_bytes() -> (r: Vec<u8>)
    ensures
        r@ == stream_payload(),
{
    let mut b = zeroed(INT_SIZE);
    put_u32(&mut b, 0, BUF_TYPE_VIDEO_CAPTURE);
    b
}

/// The device-control call that carries out `call`, or `None` for the calls
/// that are none (mapping, unmapping, waiting).
pub fn encode_call(call: &DeviceCall) -> (r: Option<Ioctl>)
    ensures
        match ioctl_of(*call) {
            Some((request, payload)) => r is Some && r->Some_0.request == request
                && r->Some_0.payload@ == payload,
            None => r is None,
        },
{
    match call {
        DeviceCall::SetFormat(f) => Some(
            Ioctl { request: video_rw(5, FORMAT_SIZE), payload: format_bytes(f) },
        ),
        DeviceCall::RequestBuffers { count } => Some(
            Ioctl {
                request: video_rw(8, REQUESTBUFFERS_SIZE),
                payload: requestbuffers_bytes(*count),
            },
        ),
        DeviceCall::QueryBuffer { index } => Some(
            Ioctl { request: video_rw(9, BUFFER_SIZE), payload: buffer_bytes(*index) },
        ),
        DeviceCall::QueueBuffer { index } => Some(
            Ioctl { request: video_rw(15, BUFFER_SIZE), payload: buffer_bytes(*index) },
        ),
        DeviceCall::DequeueBuffer => Some(
            Ioctl { request: video_rw(17, BUFFER_SIZE), payload: buffer_bytes(0) },
        ),
        DeviceCall::StreamOn => Some(Ioctl { request: video_w(18, INT_SIZE), payload: stream_bytes() }),
        DeviceCall::StreamOff => Some(
            Ioctl { request: video_w(19, INT_SIZE), payload: stream_bytes() },
        ),
        DeviceCall::GetControl { id } => Some(
            Ioctl { request: video_rw(27, CONTROL_SIZE), payload: control_bytes(*id, 0) },
        ),
        DeviceCall::SetControl { id, value } => Some(
            Ioctl { request: video_rw(28, CONTROL_SIZE), payload: control_bytes(*id, *value) },
        ),
        _ => None,
    }
}

/// The size of the payload `call` carries, zero for the calls that are no
/// device-control call.
pub open spec fn payload_len(call: DeviceCall) -> nat {
    match ioctl_of(call) {
        Some((_, p)) => p.len(),
        None => 0,
    }
}

/// The reply to a call that succeeded, read from its payload as the kernel
/// left it; a payload shorter than the call's is answered as an I/O error.
pub fn decode_reply(call: &DeviceCall, payload: &Vec<u8>) -> (r: Reply)
    ensures
        payload@.len() >= payload_len(*call) ==> r == reply_of(*call, payload@),
        payload@.len() < payload_len(*call) ==> r == Reply::Failed(crate::device::EIO),
{
    let n = payload.len();
    let needed: usize = match call {
        DeviceCall::SetFormat(_) => FORMAT_SIZE,
        DeviceCall::RequestBuffers { .. } => REQUESTBUFFERS_SIZE,
        DeviceCall::QueryBuffer { .. } => BUFFER_SIZE,
        DeviceCall::QueueBuffer { .. } => BUFFER_SIZE,
        DeviceCall::DequeueBuffer => BUFFER_SIZE,
        DeviceCall::StreamOn => INT_SIZE,
        DeviceCall::StreamOff => INT_SIZE,
        DeviceCall::GetControl { .. } => CONTROL_SIZE,
        DeviceCall::SetControl { .. } => CONTROL_SIZE,
        _ => 0,
    };
    if n < needed {
        return Reply::Failed(crate::device::EIO);
    }
    match call {
        DeviceCall::SetFormat(_) => Reply::Format(
            VideoFormat {
                buf_type: get_u32(payload, 0),
                width: get_u32(payload, 8),
                height: get_u32(payload, 12),
                pixel_format: get_u32(payload, 16),
                field: get_u32(payload, 20),
                bytes_per_line: get_u32(payload, 24),
                size_image: get_u32(payload, 28),
            },
        ),
        DeviceCall::QueryBuffer { .. } => Reply::Queried {
            offset: get_u32(payload, 64),
            length: get_u32(payload, 72),
        },
        DeviceCall::DequeueBuffer => Reply::Dequeued {
            index: get_u32(payload, 0),
            bytes_used: get_u32(payload, 8),
        },
        DeviceCall::GetControl { .. } => {
            let raw = get_u32(payload, 4);
            Reply::Control { value: #[verifier::truncate] (raw as i32) }
        },
        _ => Reply::Done,
    }
}

/// The reply to `call` when it failed with OS error code `errno`.
pub fn failure_reply(call: &DeviceCall, errno: i32) -> (r: Reply)
    ensures
        r == failure_reply_of(*call, errno),
{
    match call {
        DeviceCall::DequeueBuffer => if errno == EAGAIN {
            Reply::WouldBlock
        } else {
            Reply::Failed(errno)
        },
        _ => Reply::Failed(errno),
    }
}

/// A SET-FORMAT payload that the driver leaves as it was reads back as the
/// format it was built from.
pub proof fn lemma_format_round_trip(g: VideoFormat, f: VideoFormat)
    ensures
        reply_of(DeviceCall::SetFormat(g), format_payload(f)) == Reply::Format(f),
{
    let z = zeros(FORMAT_SIZE as nat);
    let b0 = put_u32_spec(z, 0, f.buf_type);
    let b1 = put_u32_spec(b0, 8, f.width);
    let b2 = put_u32_spec(b1, 12, f.height);
    let b3 = put_u32_spec(b2, 16, f.pixel_format);
    let b4 = put_u32_spec(b3, 20, f.field);
    let b5 = put_u32_spec(b4, 24, f.bytes_per_line);
    let b6 = put_u32_spec(b5, 28, f.size_image);
    lemma_u32_round_trip(z, 0, f.buf_type);
    lemma_u32_round_trip(b0, 8, f.width);
    lemma_u32_round_trip(b1, 12, f.height);
    lemma_u32_round_trip(b2, 16, f.pixel_format);
    lemma_u32_round_trip(b3, 20, f.field);
    lemma_u32_round_trip(b4, 24, f.bytes_per_line);
    lemma_u32_round_trip(b5, 28, f.size_image);
}

} // verus!
