use bzip2_benchmarks::engine::{
    after_chunk, after_stream, chunk_step, compress_result, frame_step, has_magic_at, read_be_i32,
    single_stream_result, BzError, ChunkStep, FrameStep, MultistreamState, StreamOutcome,
};

#[test]
fn first_stream_needs_magic() {
    assert_eq!(frame_step(b"BZh91AY", 0, true), FrameStep::Decode { start: 0 });
    assert_eq!(frame_step(b"BZ", 0, true), FrameStep::Finish);
    assert_eq!(frame_step(b"XZh9", 0, true), FrameStep::Finish);
    assert_eq!(frame_step(b"", 0, true), FrameStep::Finish);
    assert!(has_magic_at(b"..BZh", 2));
    assert!(!has_magic_at(b"..BZ", 2));
}

#[test]
fn later_streams_skip_length_header() {
    let mut data = b"BZh9xx".to_vec();
    data.extend_from_slice(&[0, 0, 0x10, 0]);
    data.extend_from_slice(b"BZh9yy");
    assert_eq!(frame_step(&data, 6, false), FrameStep::Decode { start: 10 });
    // The header alone, with no room left for magic.
    assert_eq!(frame_step(&data[..10], 6, false), FrameStep::Finish);
    // Fewer than four bytes left.
    assert_eq!(frame_step(&data[..8], 6, false), FrameStep::Finish);
    // At the end.
    assert_eq!(frame_step(&data, data.len(), false), FrameStep::Finish);
}

#[test]
fn negative_header_ends_volume() {
    let mut data = vec![0xffu8, 0xff, 0xff, 0xfc];
    data.extend_from_slice(b"BZh9");
    assert_eq!(read_be_i32(&data, 0), -4);
    assert_eq!(frame_step(&data, 0, false), FrameStep::Finish);
    assert_eq!(read_be_i32(&[0x7f, 0xff, 0xff, 0xff], 0), i32::MAX);
    assert_eq!(read_be_i32(&[0x80, 0, 0, 0], 0), i32::MIN);
    assert_eq!(read_be_i32(&[0, 0, 1, 2], 0), 258);
}

#[test]
fn stream_outcomes_advance_positions() {
    let st = MultistreamState::start();
    assert_eq!(st, MultistreamState { in_pos: 0, out_pos: 0, first: true });
    let next = after_stream(st, 0, StreamOutcome::Ran { ret: 4, consumed: 50, produced: 700 }, 100, 1000);
    assert_eq!(next, Ok(MultistreamState { in_pos: 50, out_pos: 700, first: false }));
    // Destination full: not an error, framing goes on.
    let full = after_stream(next.unwrap(), 54, StreamOutcome::Ran { ret: 0, consumed: 10, produced: 300 }, 100, 1000);
    assert_eq!(full, Ok(MultistreamState { in_pos: 64, out_pos: 1000, first: false }));
    assert_eq!(
        after_stream(st, 0, StreamOutcome::Ran { ret: -4, consumed: 3, produced: 0 }, 100, 1000),
        Err(BzError::StreamFailed(-4))
    );
    assert_eq!(after_stream(st, 0, StreamOutcome::InitFailed(-3), 100, 1000), Err(BzError::InitFailed(-3)));
}

#[test]
fn single_stream_and_compress_results() {
    assert_eq!(single_stream_result(StreamOutcome::Ran { ret: 4, consumed: 10, produced: 123 }), Ok(123));
    assert_eq!(
        single_stream_result(StreamOutcome::Ran { ret: 0, consumed: 10, produced: 123 }),
        Err(BzError::DecompressFailed(0))
    );
    assert_eq!(single_stream_result(StreamOutcome::InitFailed(-2)), Err(BzError::InitFailed(-2)));
    assert_eq!(compress_result(0, 4567), Ok(4567));
    assert_eq!(compress_result(-8, 4567), Err(BzError::CompressFailed(-8)));
    assert_eq!(chunk_step(4), ChunkStep::StreamDone);
    assert_eq!(chunk_step(0), ChunkStep::Continue);
    assert_eq!(chunk_step(-5), ChunkStep::Failed(-5));
}

#[test]
fn error_messages() {
    assert_eq!(BzError::InitFailed(-3).message(), "BZ2_bzDecompressInit failed code -3");
    assert_eq!(BzError::DecompressFailed(0).message(), "BZ2_bzDecompress error 0");
    assert_eq!(BzError::StreamFailed(-4).message(), "BZ2_bzDecompress returned error code -4");
    assert_eq!(BzError::CompressFailed(-8).message(), "BZ2_bzBuffToBuffCompress failed: -8");
    assert_eq!(BzError::InitFailed(i32::MIN).message(), "BZ2_bzDecompressInit failed code -2147483648");
}

#[test]
fn chunk_positions_advance() {
    assert_eq!(after_chunk(10, 5, 100, 0), (15, ChunkStep::Continue));
    assert_eq!(after_chunk(10, 90, 100, 4), (100, ChunkStep::StreamDone));
    assert_eq!(after_chunk(0, 0, 0, -4), (0, ChunkStep::Failed(-4)));
}
