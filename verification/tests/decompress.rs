use std::io::Write;
use std::sync::Arc;
use webviz_core::codec::inflate;
use webviz_core::diagnostics::{Diagnostic, DiagnosticsSink, StopCause};
use webviz_core::dispatch::{Dispatcher, Handler, Violation};
use webviz_core::param::Param;

fn text(s: &str) -> Param {
    Param::from_text(s.to_string())
}

fn frame_of(data: &[u8]) -> Vec<u8> {
    let mut encoder = lz4_flex::frame::FrameEncoder::new(Vec::new());
    encoder.write_all(data).unwrap();
    encoder.finish().unwrap()
}

fn shared(bytes: Vec<u8>) -> Param {
    Param::from_shared_bytes(Arc::new(bytes))
}

fn pattern(len: usize) -> Vec<u8> {
    (0..len).map(|i| (i * 31 % 251) as u8).collect()
}

#[test]
fn decompress_gives_the_plain_bytes_back() {
    let mut d = Dispatcher::new(DiagnosticsSink::new());
    let frame = frame_of(&[1, 2, 3, 4, 5]);
    assert_ne!(frame, vec![1, 2, 3, 4, 5]);
    let r = d.try_dispatch("decompress", vec![text("5"), Param::from_bytes(frame)]);
    assert_eq!(r, Ok(vec![shared(vec![1, 2, 3, 4, 5])]));
    assert_eq!(d.sink().len(), 0);
}

#[test]
fn decompress_takes_a_shared_input_too() {
    let mut d = Dispatcher::new(DiagnosticsSink::new());
    let r = d.dispatch("decompress", vec![text("5"), shared(frame_of(&[1, 2, 3, 4, 5]))]);
    assert_eq!(r, vec![shared(vec![1, 2, 3, 4, 5])]);
    assert_eq!(r[0].as_byte_slice(), &[1, 2, 3, 4, 5]);
    assert!(r[0].is_bytes());
}

#[test]
fn decompress_round_trips_many_sizes() {
    for len in [0usize, 1, 2, 63, 64, 65, 4096, 70_000, 300_000] {
        let plain = pattern(len);
        let mut d = Dispatcher::new(DiagnosticsSink::new());
        let r = d.dispatch(
            "decompress",
            vec![text(&len.to_string()), Param::from_bytes(frame_of(&plain))],
        );
        assert_eq!(r, vec![shared(plain)]);
        assert_eq!(d.sink().len(), 0);
    }
}

#[test]
fn decompress_round_trips_compressible_data() {
    let plain = vec![7u8; 1_000_000];
    let frame = frame_of(&plain);
    assert!(frame.len() < plain.len());
    let out = inflate(&frame, plain.len());
    assert_eq!(out.bytes, plain);
    assert_eq!(out.shortfall, None);
}

#[test]
fn a_short_stream_leaves_zeros_and_a_note() {
    let mut d = Dispatcher::new(DiagnosticsSink::new());
    let r = d.dispatch("decompress", vec![text("8"), Param::from_bytes(frame_of(&[1, 2, 3, 4, 5]))]);
    assert_eq!(r, vec![shared(vec![1, 2, 3, 4, 5, 0, 0, 0])]);
    assert_eq!(
        d.sink().entries(),
        &[Diagnostic::ShortDecode { declared: 8, filled: 5, cause: StopCause::EndOfStream }]
    );
}

#[test]
fn a_longer_stream_is_cut_at_the_declared_size() {
    let mut d = Dispatcher::new(DiagnosticsSink::new());
    let r = d.dispatch("decompress", vec![text("3"), Param::from_bytes(frame_of(&[1, 2, 3, 4, 5]))]);
    assert_eq!(r, vec![shared(vec![1, 2, 3])]);
    assert_eq!(d.sink().len(), 0);
}

#[test]
fn a_truncated_frame_gives_the_declared_size() {
    let plain = pattern(200_000);
    let frame = frame_of(&plain);
    let cut = &frame[..frame.len() / 2];
    let mut d = Dispatcher::new(DiagnosticsSink::new());
    let r = d.dispatch("decompress", vec![text("200000"), Param::from_bytes(cut.to_vec())]);
    assert_eq!(r.len(), 1);
    let bytes = r[0].as_byte_slice();
    assert_eq!(bytes.len(), 200_000);
    let entries = d.sink().entries();
    assert_eq!(entries.len(), 1);
    match &entries[0] {
        Diagnostic::ShortDecode { declared, filled, .. } => {
            assert_eq!(*declared, 200_000);
            assert!(*filled < 200_000);
            assert_eq!(&bytes[..*filled], &plain[..*filled]);
            assert!(bytes[*filled..].iter().all(|b| *b == 0));
        }
        other => panic!("unexpected entry {:?}", other),
    }
}

#[test]
fn an_input_that_is_no_frame_gives_zeros_and_the_decoder_error() {
    let mut d = Dispatcher::new(DiagnosticsSink::new());
    let r = d.dispatch("decompress", vec![text("4"), Param::from_bytes(vec![9, 9, 9, 9, 9, 9, 9, 9])]);
    assert_eq!(r, vec![shared(vec![0, 0, 0, 0])]);
    let entries = d.sink().entries();
    assert_eq!(entries.len(), 1);
    match &entries[0] {
        Diagnostic::ShortDecode { declared: 4, filled: 0, cause: StopCause::Decoder(message) } => {
            assert!(!message.is_empty());
        }
        other => panic!("unexpected entry {:?}", other),
    }
}

#[test]
fn an_empty_input_gives_zeros_and_a_note() {
    let out = inflate(&[], 3);
    assert_eq!(out.bytes, vec![0, 0, 0]);
    assert_eq!(
        out.shortfall,
        Some(Diagnostic::ShortDecode { declared: 3, filled: 0, cause: StopCause::EndOfStream })
    );
}

#[test]
fn a_corrupted_block_keeps_what_was_decoded_before_it() {
    let plain = pattern(200_000);
    let mut frame = frame_of(&plain);
    let at = frame.len() - 20;
    for b in &mut frame[at..] {
        *b = 0xff;
    }
    let out = inflate(&frame, 200_000);
    assert_eq!(out.bytes.len(), 200_000);
    match out.shortfall {
        Some(Diagnostic::ShortDecode { declared: 200_000, filled, .. }) => {
            assert!(filled < 200_000);
            assert_eq!(&out.bytes[..filled], &plain[..filled]);
            assert!(out.bytes[filled..].iter().all(|b| *b == 0));
        }
        other => panic!("unexpected shortfall {:?}", other),
    }
}

#[test]
fn a_declared_size_of_zero_reads_nothing() {
    let mut d = Dispatcher::new(DiagnosticsSink::new());
    let r = d.dispatch("decompress", vec![text("0"), Param::from_bytes(vec![9, 9, 9])]);
    assert_eq!(r, vec![shared(vec![])]);
    assert_eq!(d.sink().len(), 0);
}

#[test]
fn leading_zeros_in_the_size_are_read() {
    let mut d = Dispatcher::new(DiagnosticsSink::new());
    let r = d.dispatch("decompress", vec![text("005"), Param::from_bytes(frame_of(&[1, 2, 3, 4, 5]))]);
    assert_eq!(r, vec![shared(vec![1, 2, 3, 4, 5])]);
}

#[test]
fn a_size_that_is_no_decimal_text_is_a_violation() {
    let frame = frame_of(&[1, 2, 3, 4, 5]);
    for size in ["", "abc", "-5", "+5", " 5", "5 ", "5.0", "0x5", "5a", "٥", "99999999999999999999999999"] {
        let mut d = Dispatcher::new(DiagnosticsSink::new());
        let r = d.try_dispatch("decompress", vec![text(size), Param::from_bytes(frame.clone())]);
        assert_eq!(r, Err(Violation::DeclaredSize));
        assert_eq!(d.sink().len(), 0);
    }
}

#[test]
fn a_wrong_number_of_params_is_a_violation() {
    let frame = frame_of(&[1, 2, 3]);
    let mut d = Dispatcher::new(DiagnosticsSink::new());
    assert_eq!(d.try_dispatch("decompress", vec![]), Err(Violation::ParamCount));
    assert_eq!(d.try_dispatch("decompress", vec![text("3")]), Err(Violation::ParamCount));
    assert_eq!(
        d.try_dispatch("decompress", vec![text("3"), Param::from_bytes(frame), text("x")]),
        Err(Violation::ParamCount)
    );
}

#[test]
fn a_param_of_the_wrong_shape_is_a_violation() {
    let frame = frame_of(&[1, 2, 3]);
    let mut d = Dispatcher::new(DiagnosticsSink::new());
    assert_eq!(
        d.try_dispatch("decompress", vec![Param::from_bytes(b"3".to_vec()), Param::from_bytes(frame.clone())]),
        Err(Violation::ParamShape)
    );
    assert_eq!(
        d.try_dispatch("decompress", vec![text("3"), text("not bytes")]),
        Err(Violation::ParamShape)
    );
    assert_eq!(
        d.try_dispatch("decompress", vec![Param::from_bytes(frame), text("3")]),
        Err(Violation::ParamShape)
    );
    assert_eq!(d.sink().len(), 0);
}

#[test]
fn check_names_the_first_violation() {
    let h = Handler::Decompress;
    assert_eq!(h.check(&vec![text("x")]), Some(Violation::ParamCount));
    assert_eq!(h.check(&vec![text("x"), text("y")]), Some(Violation::ParamShape));
    assert_eq!(h.check(&vec![text("x"), Param::from_bytes(vec![])]), Some(Violation::DeclaredSize));
    assert_eq!(h.check(&vec![text("12"), Param::from_bytes(vec![])]), None);
}

fn checked_frame_of(data: &[u8], linked: bool) -> Vec<u8> {
    let mode = if linked {
        lz4_flex::frame::BlockMode::Linked
    } else {
        lz4_flex::frame::BlockMode::Independent
    };
    let info = lz4_flex::frame::FrameInfo::new()
        .block_size(lz4_flex::frame::BlockSize::Max64KB)
        .block_mode(mode)
        .block_checksums(true)
        .content_checksum(true);
    let mut encoder = lz4_flex::frame::FrameEncoder::with_frame_info(info, Vec::new());
    encoder.write_all(data).unwrap();
    encoder.finish().unwrap()
}

#[test]
fn frames_with_checksums_and_linked_blocks_round_trip() {
    let plain = pattern(500_000);
    for linked in [false, true] {
        let out = inflate(&checked_frame_of(&plain, linked), plain.len());
        assert_eq!(out.bytes, plain);
        assert_eq!(out.shortfall, None);
    }
}

#[test]
fn a_bad_block_checksum_stops_the_decoding_at_that_block() {
    let plain = pattern(200_000);
    let mut frame = checked_frame_of(&plain, false);
    let at = frame.len() / 2;
    frame[at] ^= 0x55;
    let out = inflate(&frame, plain.len());
    assert_eq!(out.bytes.len(), plain.len());
    match out.shortfall {
        Some(Diagnostic::ShortDecode { declared: 200_000, filled, cause: StopCause::Decoder(_) }) => {
            assert!(filled < 200_000);
            assert_eq!(filled % 65_536, 0);
            assert_eq!(&out.bytes[..filled], &plain[..filled]);
            assert!(out.bytes[filled..].iter().all(|b| *b == 0));
        }
        other => panic!("unexpected shortfall {:?}", other),
    }
}

#[test]
fn what_lies_behind_a_full_buffer_is_not_read() {
    let plain = pattern(1000);
    let mut frame = checked_frame_of(&plain, false);
    let last = frame.len() - 1;
    frame[last] ^= 0xff;
    let out = inflate(&frame, 1000);
    assert_eq!(out.bytes, plain);
    assert_eq!(out.shortfall, None);
    let out = inflate(&frame, 1001);
    assert_eq!(&out.bytes[..1000], &plain[..]);
    assert_eq!(out.bytes[1000], 0);
    assert!(matches!(
        out.shortfall,
        Some(Diagnostic::ShortDecode { declared: 1001, filled: 1000, cause: StopCause::Decoder(_) })
    ));
}

#[test]
fn damaged_frames_always_give_the_declared_size() {
    let plain = pattern(150_000);
    let frame = checked_frame_of(&plain, true);
    let mut seed: u32 = 0x2545_f491;
    for round in 0..300usize {
        seed = seed.wrapping_mul(1_664_525).wrapping_add(1_013_904_223);
        let mut damaged = frame.clone();
        let at = (seed >> 8) as usize % damaged.len();
        damaged[at] ^= 1u8 << (seed & 7);
        if round % 3 == 0 {
            damaged.truncate(at + 1);
        }
        let out = inflate(&damaged, plain.len());
        assert_eq!(out.bytes.len(), plain.len());
        match out.shortfall {
            None => {}
            Some(Diagnostic::ShortDecode { declared, filled, .. }) => {
                assert_eq!(declared, plain.len());
                assert!(filled < declared);
                assert!(out.bytes[filled..].iter().all(|b| *b == 0));
            }
            Some(other) => panic!("unexpected shortfall {:?}", other),
        }
    }
}

#[test]
fn decoding_twice_gives_the_same_bytes() {
    let frame = frame_of(&pattern(10_000));
    let first = inflate(&frame[..frame.len() - 7], 10_000);
    let second = inflate(&frame[..frame.len() - 7], 10_000);
    assert_eq!(first.bytes, second.bytes);
    assert_eq!(first.shortfall, second.shortfall);
}
