use video_relay_core::context::{
    BackendVariant, ConstructOutcome, ConstructStep, ContextHandles, DecodeContext, DrainStep,
    FeedStatus,
};
use video_relay_core::frame::{CompressedVideoFrame, DecodedImage, Plane};
use video_relay_core::encoder::FrameEncoder;
use video_relay_core::session::{BackendScript, DecodeError, VideoDecoder};

fn handles() -> ContextHandles {
    ContextHandles { codec: 1, parser: 2, packet: 3, picture: 4, transfer: 5 }
}

fn frame(width: i32, height: i32) -> CompressedVideoFrame {
    CompressedVideoFrame { width, height, buffer: vec![0x00, 0x00, 0x01, 0x65] }
}

fn image(width: i32, height: i32, lum_stride: i32, chr_stride: i32) -> DecodedImage {
    let lum_len = (height * lum_stride) as usize;
    let chr_len = (height * chr_stride / 2) as usize;
    DecodedImage {
        width,
        height,
        luminance: Plane { stride: lum_stride, bytes: (0..lum_len).map(|i| i as u8).collect() },
        chrominance: Plane {
            stride: chr_stride,
            bytes: (0..chr_len).map(|i| 0x80 + i as u8).collect(),
        },
    }
}

fn quiet_script() -> BackendScript {
    BackendScript {
        construct: ConstructOutcome::Complete(handles()),
        feed: FeedStatus::Accepted,
        drain: vec![DrainStep::NeedsMoreInput],
        sink_accepts: vec![],
    }
}

#[test]
fn scenario_a_constant_dims_builds_once() {
    let mut decoder = VideoDecoder::new(7, BackendVariant::SoftwareParser);
    let first = decoder.decode(&frame(640, 480), quiet_script()).unwrap();
    assert!(first.rebuilt);
    assert_eq!(decoder.contexts_built, 1);
    let second = decoder.decode(&frame(640, 480), quiet_script()).unwrap();
    assert!(!second.rebuilt);
    assert_eq!(decoder.contexts_built, 1);
    assert_eq!(decoder.contexts_disposed, 0);
}

#[test]
fn scenario_b_dimension_change_disposes_and_rebuilds() {
    let mut decoder = VideoDecoder::new(7, BackendVariant::SoftwareParser);
    decoder.decode(&frame(640, 480), quiet_script()).unwrap();
    let report = decoder.decode(&frame(320, 240), quiet_script()).unwrap();
    assert!(report.rebuilt);
    assert_eq!(decoder.contexts_built, 2);
    assert_eq!(decoder.contexts_disposed, 1);
    let context = decoder.context.as_ref().unwrap();
    assert_eq!(context.width, 320);
    assert_eq!(context.height, 240);
    assert!(context.codec_handle.is_some());
    assert!(context.parser_handle.is_some());
}

#[test]
fn scenario_c_hard_error_keeps_context() {
    let mut decoder = VideoDecoder::new(7, BackendVariant::SoftwareParser);
    let mut rejecting = quiet_script();
    rejecting.feed = FeedStatus::Rejected(-22);
    let err = decoder.decode(&frame(640, 480), rejecting).unwrap_err();
    match err {
        DecodeError::HardDecode(e) => assert_eq!(e.code, -22),
        other => panic!("unexpected error {:?}", other),
    }
    assert_eq!(decoder.contexts_built, 1);
    assert!(decoder.context.is_some());
    let report = decoder.decode(&frame(640, 480), quiet_script()).unwrap();
    assert!(!report.rebuilt);
    assert_eq!(decoder.contexts_built, 1);
}

#[test]
fn scenario_d_sink_disconnect_mid_drain() {
    let mut decoder = VideoDecoder::new(7, BackendVariant::SoftwareParser);
    let script = BackendScript {
        construct: ConstructOutcome::Complete(handles()),
        feed: FeedStatus::Accepted,
        drain: vec![
            DrainStep::Picture(image(2, 2, 2, 2)),
            DrainStep::Picture(image(2, 2, 2, 2)),
            DrainStep::NeedsMoreInput,
        ],
        sink_accepts: vec![true, false],
    };
    let err = decoder.decode(&frame(2, 2), script).unwrap_err();
    assert!(matches!(err, DecodeError::SinkDisconnected));
    assert_eq!(decoder.frames_delivered, 1);
    assert!(decoder.context.is_some());
}

#[test]
fn construction_failure_then_retry() {
    let mut decoder = VideoDecoder::new(7, BackendVariant::SoftwareParser);
    let mut failing = quiet_script();
    failing.construct = ConstructOutcome::FailedAt(ConstructStep::OpenCodec);
    let err = decoder.decode(&frame(640, 480), failing).unwrap_err();
    match err {
        DecodeError::Configuration(e) => assert_eq!(e.step, ConstructStep::OpenCodec),
        other => panic!("unexpected error {:?}", other),
    }
    assert!(decoder.context.is_none());
    assert_eq!(decoder.contexts_built, 0);
    let report = decoder.decode(&frame(640, 480), quiet_script()).unwrap();
    assert!(report.rebuilt);
    assert_eq!(decoder.contexts_built, 1);
}

#[test]
fn drain_failure_is_hard_error() {
    let mut decoder = VideoDecoder::new(7, BackendVariant::SoftwareParser);
    let script = BackendScript {
        construct: ConstructOutcome::Complete(handles()),
        feed: FeedStatus::Accepted,
        drain: vec![DrainStep::Picture(image(2, 2, 2, 2)), DrainStep::Failed(-5)],
        sink_accepts: vec![true],
    };
    let err = decoder.decode(&frame(2, 2), script).unwrap_err();
    match err {
        DecodeError::HardDecode(e) => assert_eq!(e.code, -5),
        other => panic!("unexpected error {:?}", other),
    }
    assert_eq!(decoder.frames_delivered, 0);
}

#[test]
fn transfer_failure_on_hardware_path() {
    let mut decoder = VideoDecoder::new(7, BackendVariant::HardwareAccelerated);
    let script = BackendScript {
        construct: ConstructOutcome::Complete(handles()),
        feed: FeedStatus::Accepted,
        drain: vec![DrainStep::TransferFailed(-9)],
        sink_accepts: vec![],
    };
    let err = decoder.decode(&frame(640, 480), script).unwrap_err();
    match err {
        DecodeError::HardDecode(e) => assert_eq!(e.code, -9),
        other => panic!("unexpected error {:?}", other),
    }
    let context = decoder.context.as_ref().unwrap();
    assert!(context.hw_transfer_buffer.is_some());
    assert!(context.parser_handle.is_none());
}

#[test]
fn feed_needs_more_input_is_not_an_error() {
    let mut decoder = VideoDecoder::new(7, BackendVariant::SoftwareParser);
    let mut script = quiet_script();
    script.feed = FeedStatus::NeedsMoreInput;
    let report = decoder.decode(&frame(640, 480), script).unwrap();
    assert!(report.messages.is_empty());
    let mut script = quiet_script();
    script.feed = FeedStatus::EndOfStream;
    let report = decoder.decode(&frame(640, 480), script).unwrap();
    assert!(report.messages.is_empty());
}

#[test]
fn round_trip_two_by_two_picture() {
    // A 2x2 picture with 2-byte strides: 4 luminance bytes, 2 chrominance bytes.
    let mut decoder = VideoDecoder::new(3, BackendVariant::SoftwareParser);
    let picture = image(2, 2, 2, 2);
    let lum = picture.luminance.bytes.clone();
    let chr = picture.chrominance.bytes.clone();
    let script = BackendScript {
        construct: ConstructOutcome::Complete(handles()),
        feed: FeedStatus::Accepted,
        drain: vec![DrainStep::Picture(picture), DrainStep::EndOfStream],
        sink_accepts: vec![true],
    };
    let report = decoder.decode(&frame(2, 2), script).unwrap();
    assert_eq!(report.messages.len(), 1);
    let message = &report.messages[0];
    let n = lum.len();
    let m = chr.len();
    assert_eq!(message.len(), 24 + 4 + n + 4 + m);
    // The declared luminance length equals the byte count that follows it.
    assert_eq!(&message[24..28], &(n as i32).to_le_bytes());
    assert_eq!(&message[28..28 + n], lum.as_slice());
    // The declared chrominance length equals the byte count that follows it.
    assert_eq!(&message[28 + n..32 + n], &(m as i32).to_le_bytes());
    assert_eq!(&message[32 + n..32 + n + m], chr.as_slice());
    assert_eq!(decoder.frames_delivered, 1);
}

#[test]
fn pack_exact_bytes() {
    let picture = DecodedImage {
        width: 2,
        height: 2,
        luminance: Plane { stride: 2, bytes: vec![1, 2, 3, 4] },
        chrominance: Plane { stride: 2, bytes: vec![9, 10] },
    };
    let message = FrameEncoder::pack(0x0102030405060708, &picture);
    let mut expected: Vec<u8> = Vec::new();
    expected.extend_from_slice(&0x0102030405060708i64.to_le_bytes());
    expected.extend_from_slice(&2i32.to_le_bytes()); // width
    expected.extend_from_slice(&2i32.to_le_bytes()); // height
    expected.extend_from_slice(&2i32.to_le_bytes()); // luminance stride
    expected.extend_from_slice(&2i32.to_le_bytes()); // chrominance stride
    expected.extend_from_slice(&4i32.to_le_bytes()); // luminance length
    expected.extend_from_slice(&[1, 2, 3, 4]);
    expected.extend_from_slice(&2i32.to_le_bytes()); // chrominance length
    expected.extend_from_slice(&[9, 10]);
    assert_eq!(message, expected);
}

#[test]
fn pack_negative_destination_id() {
    let picture = DecodedImage {
        width: 1,
        height: 1,
        luminance: Plane { stride: 1, bytes: vec![0xAA] },
        chrominance: Plane { stride: 2, bytes: vec![0xBB] },
    };
    let message = FrameEncoder::pack(-1, &picture);
    assert_eq!(&message[0..8], &(-1i64).to_le_bytes());
    assert_eq!(message.len(), 34);
}

#[test]
fn messages_carry_destination_id() {
    let mut decoder = VideoDecoder::new(0x1122334455667788, BackendVariant::SoftwareParser);
    let script = BackendScript {
        construct: ConstructOutcome::Complete(handles()),
        feed: FeedStatus::Accepted,
        drain: vec![DrainStep::Picture(image(4, 2, 4, 4)), DrainStep::NeedsMoreInput],
        sink_accepts: vec![true],
    };
    let report = decoder.decode(&frame(4, 2), script).unwrap();
    assert_eq!(&report.messages[0][0..8], &0x1122334455667788i64.to_le_bytes());
}

#[test]
fn context_dispose_is_idempotent() {
    let context = DecodeContext::construct(
        640,
        480,
        BackendVariant::SoftwareParser,
        ConstructOutcome::Complete(handles()),
    );
    let mut context = context.unwrap();
    context.dispose();
    assert!(context.codec_handle.is_none());
    assert!(context.parser_handle.is_none());
    assert!(context.packet_buffer.is_none());
    assert!(context.picture_buffer.is_none());
    assert!(context.hw_transfer_buffer.is_none());
    let snapshot = (context.width, context.height);
    context.dispose();
    assert!(context.codec_handle.is_none());
    assert!(context.parser_handle.is_none());
    assert!(context.packet_buffer.is_none());
    assert!(context.picture_buffer.is_none());
    assert!(context.hw_transfer_buffer.is_none());
    assert_eq!((context.width, context.height), snapshot);
}

#[test]
fn default_context_is_disposed() {
    let context = DecodeContext::default();
    assert!(context.codec_handle.is_none());
    assert!(context.parser_handle.is_none());
    assert!(context.packet_buffer.is_none());
    assert!(context.picture_buffer.is_none());
    assert!(context.hw_transfer_buffer.is_none());
}

#[test]
fn session_dispose_releases_context() {
    let mut decoder = VideoDecoder::new(7, BackendVariant::SoftwareParser);
    decoder.decode(&frame(640, 480), quiet_script()).unwrap();
    assert!(decoder.context.is_some());
    decoder.dispose();
    assert!(decoder.context.is_none());
    assert_eq!(decoder.contexts_disposed, 1);
    decoder.dispose();
    assert_eq!(decoder.contexts_disposed, 1);
}

#[test]
fn feed_statuses_on_context() {
    let context = DecodeContext::construct(
        640,
        480,
        BackendVariant::SoftwareParser,
        ConstructOutcome::Complete(handles()),
    )
    .unwrap();
    let buffer = vec![0u8, 0, 1, 0x65];
    assert!(context.feed(&buffer, FeedStatus::Accepted).is_ok());
    assert!(context.feed(&buffer, FeedStatus::NeedsMoreInput).is_ok());
    assert!(context.feed(&buffer, FeedStatus::EndOfStream).is_ok());
    assert_eq!(context.feed(&buffer, FeedStatus::Rejected(-1)).unwrap_err().code, -1);
}

#[test]
fn drain_stops_at_first_terminal() {
    let context = DecodeContext::construct(
        2,
        2,
        BackendVariant::SoftwareParser,
        ConstructOutcome::Complete(handles()),
    )
    .unwrap();
    let steps = vec![
        DrainStep::Picture(image(2, 2, 2, 2)),
        DrainStep::EndOfStream,
        DrainStep::Picture(image(2, 2, 2, 2)),
        DrainStep::Failed(-1),
    ];
    let images = context.drain(steps).unwrap();
    assert_eq!(images.len(), 1);
}
