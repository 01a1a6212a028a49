use v4l2_capture::abi::{decode_reply, encode_call, failure_reply};
use v4l2_capture::device::{EAGAIN, EIO};
use v4l2_capture::format::{VideoFormat, VideoPixelFormat, MJPEG_FMT};
use v4l2_capture::{DeviceCall, Reply, _IO, _IOC, _IOR, _IOW, _IOWR};

#[test]
fn check_vidioc_symbol_values() {
    assert_eq!(_IOR('V', 0, 104), 2154321408);
    assert_eq!(_IOW('V', 14, 4), 1074025998);
    assert_eq!(_IOR('V', 67, 4), 2147767875);
    assert_eq!(_IOW('V', 68, 4), 1074026052);
    assert_eq!(_IO('V', 70), 22086);
}

#[test]
fn ioc_packs_fields() {
    assert_eq!(_IOC(3, 'V', 5, 208), 0xc0d0_5605);
    assert_eq!(_IOWR('V', 15, 88), 0xc058_560f);
    assert_eq!(_IOC(0, '\0', 0, 0), 0);
}

fn request(call: DeviceCall) -> u32 {
    encode_call(&call).expect("a device-control call").request
}

#[test]
fn request_numbers_match_the_kernel() {
    let f = VideoFormat::new();
    assert_eq!(request(DeviceCall::SetFormat(f)), 0xc0d0_5605);
    assert_eq!(request(DeviceCall::RequestBuffers { count: 4 }), 0xc014_5608);
    assert_eq!(request(DeviceCall::QueryBuffer { index: 0 }), 0xc058_5609);
    assert_eq!(request(DeviceCall::QueueBuffer { index: 1 }), 0xc058_560f);
    assert_eq!(request(DeviceCall::DequeueBuffer), 0xc058_5611);
    assert_eq!(request(DeviceCall::StreamOn), 0x4004_5612);
    assert_eq!(request(DeviceCall::StreamOff), 0x4004_5613);
    assert_eq!(request(DeviceCall::GetControl { id: 1 }), 0xc008_561b);
    assert_eq!(request(DeviceCall::SetControl { id: 1, value: 2 }), 0xc008_561c);
}

#[test]
fn calls_without_ioctl_encode_to_none() {
    assert!(encode_call(&DeviceCall::MapBuffer { index: 0, offset: 0, length: 4096 }).is_none());
    assert!(encode_call(&DeviceCall::UnmapBuffers { count: 2 }).is_none());
    assert!(encode_call(&DeviceCall::WaitReadable { clear_ready: true }).is_none());
}

fn u32_at(b: &[u8], off: usize) -> u32 {
    u32::from_le_bytes([b[off], b[off + 1], b[off + 2], b[off + 3]])
}

#[test]
fn format_payload_layout() {
    let f = VideoFormat::new()
        .set_video_capture_type()
        .set_pix_format(VideoPixelFormat { width: 1920, height: 1080, format: MJPEG_FMT });
    let io = encode_call(&DeviceCall::SetFormat(f)).unwrap();
    assert_eq!(io.payload.len(), 208);
    assert_eq!(u32_at(&io.payload, 0), 1);
    assert_eq!(u32_at(&io.payload, 4), 0);
    assert_eq!(u32_at(&io.payload, 8), 1920);
    assert_eq!(u32_at(&io.payload, 12), 1080);
    assert_eq!(&io.payload[16..20], b"MJPG");
    assert_eq!(u32_at(&io.payload, 20), 1);
    assert!(io.payload[24..].iter().all(|&b| b == 0));
}

#[test]
fn buffer_and_request_payload_layout() {
    let io = encode_call(&DeviceCall::QueueBuffer { index: 3 }).unwrap();
    assert_eq!(io.payload.len(), 88);
    assert_eq!(u32_at(&io.payload, 0), 3);
    assert_eq!(u32_at(&io.payload, 4), 1);
    assert_eq!(u32_at(&io.payload, 60), 1);
    assert_eq!(io.payload.iter().filter(|&&b| b != 0).count(), 3);

    let io = encode_call(&DeviceCall::RequestBuffers { count: 4 }).unwrap();
    assert_eq!(io.payload, vec![4, 0, 0, 0, 1, 0, 0, 0, 1, 0, 0, 0, 0, 0, 0, 0, 0, 0, 0, 0]);

    let io = encode_call(&DeviceCall::SetControl { id: 0x0098_0900, value: -2 }).unwrap();
    assert_eq!(io.payload, vec![0x00, 0x09, 0x98, 0x00, 0xfe, 0xff, 0xff, 0xff]);

    let io = encode_call(&DeviceCall::StreamOff).unwrap();
    assert_eq!(io.payload, vec![1, 0, 0, 0]);
}

#[test]
fn decode_reads_kernel_fields() {
    let mut b = vec![0u8; 88];
    b[0..4].copy_from_slice(&2u32.to_le_bytes());
    b[8..12].copy_from_slice(&2048u32.to_le_bytes());
    b[64..68].copy_from_slice(&8192u32.to_le_bytes());
    b[72..76].copy_from_slice(&4096u32.to_le_bytes());
    assert_eq!(
        decode_reply(&DeviceCall::DequeueBuffer, &b),
        Reply::Dequeued { index: 2, bytes_used: 2048 }
    );
    assert_eq!(
        decode_reply(&DeviceCall::QueryBuffer { index: 2 }, &b),
        Reply::Queried { offset: 8192, length: 4096 }
    );
    assert_eq!(decode_reply(&DeviceCall::QueueBuffer { index: 2 }, &b), Reply::Done);
    assert_eq!(decode_reply(&DeviceCall::DequeueBuffer, &b[..40].to_vec()), Reply::Failed(EIO));

    let c = vec![0, 0, 0, 0, 0x85, 0, 0, 0];
    assert_eq!(decode_reply(&DeviceCall::GetControl { id: 9 }, &c), Reply::Control { value: 133 });
    let c = vec![0, 0, 0, 0, 0xff, 0xff, 0xff, 0xff];
    assert_eq!(decode_reply(&DeviceCall::GetControl { id: 9 }, &c), Reply::Control { value: -1 });
}

#[test]
fn decode_reads_negotiated_format() {
    let requested = VideoFormat::capture_default();
    let mut io = encode_call(&DeviceCall::SetFormat(requested.clone())).unwrap();
    io.payload[8..12].copy_from_slice(&1280u32.to_le_bytes());
    io.payload[12..16].copy_from_slice(&720u32.to_le_bytes());
    io.payload[28..32].copy_from_slice(&1_843_200u32.to_le_bytes());
    match decode_reply(&DeviceCall::SetFormat(requested), &io.payload) {
        Reply::Format(f) => {
            assert_eq!(f.width, 1280);
            assert_eq!(f.height, 720);
            assert_eq!(f.pixel_format, MJPEG_FMT);
            assert_eq!(f.size_image, 1_843_200);
        }
        other => panic!("unexpected reply {:?}", other),
    }
}

#[test]
fn failure_reply_would_block_only_on_dequeue() {
    assert_eq!(failure_reply(&DeviceCall::DequeueBuffer, EAGAIN), Reply::WouldBlock);
    assert_eq!(failure_reply(&DeviceCall::DequeueBuffer, 5), Reply::Failed(5));
    assert_eq!(failure_reply(&DeviceCall::StreamOn, EAGAIN), Reply::Failed(EAGAIN));
}

#[test]
fn format_payload_reads_back_unchanged() {
    let f = VideoFormat::capture_default();
    let io = encode_call(&DeviceCall::SetFormat(f.clone())).unwrap();
    assert_eq!(decode_reply(&DeviceCall::SetFormat(f.clone()), &io.payload), Reply::Format(f.clone()));
    let g = VideoFormat::new().set_pix_format(VideoPixelFormat { width: 1, height: 2, format: 3 });
    let io = encode_call(&DeviceCall::SetFormat(g.clone())).unwrap();
    assert_eq!(decode_reply(&DeviceCall::SetFormat(f), &io.payload), Reply::Format(g));
}
