//! Framing tests: chunks in, dispatched lines and framed responses out.

use std::collections::VecDeque;

use embedded_io::{ErrorKind, ErrorType, Read, Write};
use jsonrpc_gpio::server::{
    device_loop_action, frame_response, host_loop_action, read_event, Framer, LoopAction,
    ReadEvent, LINE_CAP,
};

/// Push a chunk and, like the serving loop, dispatch every completed line
/// with an echo that counts its calls, writing each framed response to `out`.
/// A failed write drops the response and the loop goes on.
fn push_echo<const N: usize, W: Write>(f: &mut Framer<N>, chunk: &[u8], out: &mut W, calls: &mut usize) {
    for line in f.push(chunk) {
        *calls += 1;
        let response = String::from_utf8_lossy(&line).into_owned();
        let _ = out.write_all(&frame_response(&response));
    }
}

/// Yields at most `chunk` bytes per read, then `Ok(0)`.
struct ChunkedReader {
    data: VecDeque<u8>,
    chunk: usize,
}

impl ChunkedReader {
    fn new(data: &[u8], chunk: usize) -> Self {
        Self { data: data.iter().copied().collect(), chunk: chunk.max(1) }
    }
}

impl ErrorType for ChunkedReader {
    type Error = core::convert::Infallible;
}

impl Read for ChunkedReader {
    fn read(&mut self, buf: &mut [u8]) -> Result<usize, Self::Error> {
        let n = buf.len().min(self.chunk).min(self.data.len());
        for (i, b) in self.data.drain(..n).enumerate() {
            buf[i] = b;
        }
        Ok(n)
    }
}

/// A writer whose writes fail after `ok_writes` successful ones.
struct FailingWriter {
    ok_writes: usize,
    written: Vec<u8>,
}

#[derive(Debug)]
struct WriteTimeout;

impl embedded_io::Error for WriteTimeout {
    fn kind(&self) -> ErrorKind {
        ErrorKind::TimedOut
    }
}

impl ErrorType for FailingWriter {
    type Error = WriteTimeout;
}

impl Write for FailingWriter {
    fn write(&mut self, buf: &[u8]) -> Result<usize, Self::Error> {
        if self.ok_writes == 0 {
            return Err(WriteTimeout);
        }
        self.ok_writes -= 1;
        self.written.extend_from_slice(buf);
        Ok(buf.len())
    }

    fn flush(&mut self) -> Result<(), Self::Error> {
        Ok(())
    }
}

#[test]
fn dispatches_a_single_complete_frame() {
    let mut calls = 0;
    let mut out: Vec<u8> = Vec::new();
    let mut f = Framer::<LINE_CAP>::new();

    push_echo(&mut f, b"hello\n", &mut out, &mut calls);

    assert_eq!(out, b"hello\n");
    assert_eq!(calls, 1);
}

#[test]
fn dispatches_two_frames_coalesced_in_one_chunk() {
    let mut calls = 0;
    let mut out: Vec<u8> = Vec::new();
    let mut f = Framer::<LINE_CAP>::new();

    push_echo(&mut f, b"a\nb\n", &mut out, &mut calls);

    assert_eq!(out, b"a\nb\n");
    assert_eq!(calls, 2);
}

#[test]
fn assembles_a_frame_split_across_pushes() {
    let mut calls = 0;
    let mut out: Vec<u8> = Vec::new();
    let mut f = Framer::<LINE_CAP>::new();

    push_echo(&mut f, b"ab", &mut out, &mut calls);
    assert_eq!(calls, 0, "no newline yet -> no dispatch");

    push_echo(&mut f, b"c\n", &mut out, &mut calls);
    assert_eq!(out, b"abc\n");
    assert_eq!(calls, 1);
}

#[test]
fn oversized_frame_is_dropped_and_following_frame_still_works() {
    let mut calls = 0;
    let mut out: Vec<u8> = Vec::new();
    // Capacity 4: "abcdefgh" overflows, "ok" fits.
    let mut f = Framer::<4>::new();

    push_echo(&mut f, b"abcdefgh\nok\n", &mut out, &mut calls);

    assert_eq!(out, b"ok\n", "only the valid frame produces a response");
    assert_eq!(calls, 1);
}

#[test]
fn write_failure_drops_response_and_keeps_processing() {
    let mut calls = 0;
    let mut out = FailingWriter { ok_writes: 0, written: Vec::new() };
    let mut f = Framer::<LINE_CAP>::new();

    push_echo(&mut f, b"a\nb\n", &mut out, &mut calls);

    assert_eq!(calls, 2, "kept looping past the write failure");
    assert!(out.written.is_empty(), "nothing drained to a closed port");
}

#[test]
fn blank_lines_are_ignored() {
    let mut calls = 0;
    let mut out: Vec<u8> = Vec::new();
    let mut f = Framer::<LINE_CAP>::new();

    push_echo(&mut f, b"\n\nx\n", &mut out, &mut calls);

    assert_eq!(out, b"x\n");
    assert_eq!(calls, 1);
}

#[test]
fn reassembles_two_frames_read_one_byte_at_a_time() {
    let mut calls = 0;
    let mut reader = ChunkedReader::new(b"first\nsecond\n", 1);
    let mut out: Vec<u8> = Vec::new();
    let mut f = Framer::<LINE_CAP>::new();

    let mut chunk = [0u8; 8];
    loop {
        let n = reader.read(&mut chunk).unwrap();
        if n == 0 {
            break;
        }
        push_echo(&mut f, &chunk[..n], &mut out, &mut calls);
    }

    assert_eq!(out, b"first\nsecond\n");
    assert_eq!(calls, 2);
}

#[test]
fn trailing_carriage_return_is_trimmed() {
    let mut calls = 0;
    let mut out: Vec<u8> = Vec::new();
    let mut f = Framer::<LINE_CAP>::new();

    push_echo(&mut f, b"x\r\n", &mut out, &mut calls);

    assert_eq!(out, b"x\n");
    assert_eq!(calls, 1);
}

#[test]
fn chunking_does_not_change_the_lines() {
    let stream: &[u8] = b"one\r\n\ntoolongline\nok\nlast";
    let mut whole = Framer::<5>::new();
    let all = whole.push(stream);
    for cut in 0..=stream.len() {
        let mut split = Framer::<5>::new();
        let mut lines = split.push(&stream[..cut]);
        lines.extend(split.push(&stream[cut..]));
        assert_eq!(lines, all, "cut at {cut}");
    }
    assert_eq!(all, vec![b"one".to_vec(), b"ok".to_vec()]);
    // "last" is still pending; its newline completes it.
    assert_eq!(whole.push(b"\n"), vec![b"last".to_vec()]);
}

#[test]
fn line_of_exactly_capacity_fits_one_more_overflows() {
    let mut f = Framer::<3>::new();
    assert_eq!(f.push(b"abc\n"), vec![b"abc".to_vec()]);
    assert!(f.push(b"abcd").is_empty());
    assert!(f.is_skipping());
    assert!(f.push(b"efgh\n").is_empty());
    assert!(!f.is_skipping());
    assert_eq!(f.push(b"xy\n"), vec![b"xy".to_vec()]);
}

#[test]
fn carriage_return_counts_toward_capacity_and_only_one_is_trimmed() {
    let mut f = Framer::<2>::new();
    // "ab\r" is three bytes: it overflows before the CR could be trimmed.
    assert!(f.push(b"ab\r\n").is_empty());
    let mut g = Framer::<LINE_CAP>::new();
    assert_eq!(g.push(b"a\r\r\n"), vec![b"a\r".to_vec()]);
    assert!(g.push(b"\r\n").is_empty(), "a lone CR is a blank line");
}

#[test]
fn zero_capacity_framer_drops_every_non_blank_line() {
    let mut f = Framer::<0>::new();
    assert!(f.push(b"a\nbc\n\n").is_empty());
}

#[test]
fn default_framer_is_fresh() {
    let mut f: Framer<LINE_CAP> = Framer::default();
    assert!(!f.is_skipping());
    assert_eq!(f.push(b"q\n"), vec![b"q".to_vec()]);
}

#[test]
fn response_is_framed_with_a_newline() {
    assert_eq!(frame_response("{}"), b"{}\n".to_vec());
    assert_eq!(frame_response(""), b"\n".to_vec());
}

#[test]
fn host_loop_stops_at_end_of_input_device_loop_keeps_going() {
    assert_eq!(read_event(Some(5)), ReadEvent::Data(5));
    assert_eq!(read_event(Some(0)), ReadEvent::Empty);
    assert_eq!(read_event(None), ReadEvent::Failed);
    assert_eq!(host_loop_action(ReadEvent::Data(3)), LoopAction::Feed(3));
    assert_eq!(host_loop_action(ReadEvent::Empty), LoopAction::Stop);
    assert_eq!(host_loop_action(ReadEvent::Failed), LoopAction::Stop);
    assert_eq!(device_loop_action(ReadEvent::Data(3)), LoopAction::Feed(3));
    assert_eq!(device_loop_action(ReadEvent::Empty), LoopAction::Wait);
    assert_eq!(device_loop_action(ReadEvent::Failed), LoopAction::Wait);
}
