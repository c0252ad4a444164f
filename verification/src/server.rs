//! NDJSON line framing for the JSON-RPC server.
//!
//! [`Framer`] assembles `\n`-terminated lines from byte chunks as they arrive
//! from a transport. Each complete, non-empty line (with a trailing `\r`
//! removed) is handed back to the caller, which dispatches it and writes the
//! response framed by [`frame_response`].
//!
//! Overflow discipline: a line longer than the capacity `N` is never
//! truncated and parsed. The framer drops what it holds, enters a skipping
//! state, discards bytes up to the next `\n` and only then resumes, so the
//! tail of an oversized line can never be mistaken for a fresh request.
//!
//! The behaviour is specified twice: as a byte-at-a-time state machine
//! ([`frame_step`], [`frame_run`]) that the code follows, and directly over
//! the whole stream ([`frames`]): the lines are the complete segments of the
//! stream that fit the capacity, CR-trimmed, with blank ones left out. The
//! laws at the end tie the two together and show that the way the stream is
//! cut into chunks does not matter.

use vstd::prelude::*;
use vstd::string::StringSliceAdditionalSpecFns;

verus! {

/// Default line-buffer capacity in bytes.
pub const LINE_CAP: usize = 256;

/// Line terminator.
pub const NEWLINE: u8 = 10;

/// Carriage return, tolerated before the line terminator.
pub const CARRIAGE_RETURN: u8 = 13;

/// Abstract state of a framer: the bytes held for the current line, and
/// whether the current line is being skipped because it overflowed.
pub struct FrameState {
    pub buf: Seq<u8>,
    pub skipping: bool,
}

/// The state of a freshly created framer.
pub open spec fn fresh_state() -> FrameState {
    FrameState { buf: Seq::empty(), skipping: false }
}

/// A line with one trailing carriage return removed, if it has one.
pub open spec fn trim_cr(line: Seq<u8>) -> Seq<u8> {
    if line.len() > 0 && line.last() == CARRIAGE_RETURN {
        line.drop_last()
    } else {
        line
    }
}

/// What a completed segment contributes: nothing if it overflowed the
/// capacity or is blank after trimming, else its trimmed bytes.
pub open spec fn emit(cap: nat, segment: Seq<u8>) -> Seq<Seq<u8>> {
    if segment.len() > cap {
        Seq::empty()
    } else if trim_cr(segment).len() > 0 {
        seq![trim_cr(segment)]
    } else {
        Seq::empty()
    }
}

/// One byte of input: the next state and the lines it completes.
pub open spec fn frame_step(cap: nat, st: FrameState, byte: u8) -> (FrameState, Seq<Seq<u8>>) {
    if byte == NEWLINE {
        if st.skipping {
            (fresh_state(), Seq::empty())
        } else {
            (fresh_state(), emit(cap, st.buf))
        }
    } else if st.skipping {
        (st, Seq::empty())
    } else if st.buf.len() < cap {
        (FrameState { buf: st.buf.push(byte), skipping: false }, Seq::empty())
    } else {
        (FrameState { buf: Seq::empty(), skipping: true }, Seq::empty())
    }
}

/// A run of bytes, one step at a time from the left.
pub open spec fn frame_run(cap: nat, st: FrameState, bytes: Seq<u8>) -> (FrameState, Seq<Seq<u8>>)
    decreases bytes.len(),
{
    if bytes.len() == 0 {
        (st, Seq::empty())
    } else {
        let prev = frame_run(cap, st, bytes.drop_last());
        let next = frame_step(cap, prev.0, bytes.last());
        (next.0, prev.1 + next.1)
    }
}

/// The bytes after the last newline of a stream: the line still being received.
pub open spec fn pending(stream: Seq<u8>) -> Seq<u8>
    decreases stream.len(),
{
    if stream.len() == 0 {
        Seq::empty()
    } else if stream.last() == NEWLINE {
        Seq::empty()
    } else {
        pending(stream.drop_last()).push(stream.last())
    }
}

/// The lines a stream yields: each complete segment in order, passed through [`emit`].
pub open spec fn frames(cap: nat, stream: Seq<u8>) -> Seq<Seq<u8>>
    decreases stream.len(),
{
    if stream.len() == 0 {
        Seq::empty()
    } else if stream.last() == NEWLINE {
        frames(cap, stream.drop_last()) + emit(cap, pending(stream.drop_last()))
    } else {
        frames(cap, stream.drop_last())
    }
}

/// The state a fresh framer is in after a stream: holding the pending line if
/// it fits, else skipping it.
pub open spec fn state_after(cap: nat, stream: Seq<u8>) -> FrameState {
    if pending(stream).len() <= cap {
        FrameState { buf: pending(stream), skipping: false }
    } else {
        FrameState { buf: Seq::empty(), skipping: true }
    }
}

/// The byte views of a list of lines.
pub open spec fn line_views(lines: Seq<Vec<u8>>) -> Seq<Seq<u8>> {
    lines.map_values(|l: Vec<u8>| l@)
}

/// Assembles `\n`-terminated lines from arbitrary byte chunks. `N` is the
/// maximum line length in bytes; longer lines are dropped.
pub struct Framer<const N: usize> {
    buf: Vec<u8>,
    skipping: bool,
}

impl<const N: usize> View for Framer<N> {
    type V = FrameState;

    closed spec fn view(&self) -> FrameState {
        FrameState { buf: self.buf@, skipping: self.skipping }
    }
}

impl<const N: usize> Framer<N> {
    /// The held bytes never exceed the capacity, and nothing is held while skipping.
    #[verifier::type_invariant]
    spec fn inv(self) -> bool {
        &&& self.buf.len() <= N
        &&& self.skipping ==> self.buf.len() == 0
    }

    /// A framer holding nothing.
    pub fn new() -> (f: Self)
        ensures
            f@ == fresh_state(),
    {
        Framer { buf: Vec::new(), skipping: false }
    }

    /// Whether the framer is discarding the rest of an oversized line.
    pub fn is_skipping(&self) -> (r: bool)
        ensures
            r == self@.skipping,
    {
        self.skipping
    }

    /// Feed one chunk of freshly read bytes. Returns, in order, the lines the
    /// chunk completes; each is to be dispatched and its response written.
    pub fn push(&mut self, chunk: &[u8]) -> (lines: Vec<Vec<u8>>)
        ensures
            (final(self)@, line_views(lines@)) == frame_run(N as nat, old(self)@, chunk@),
    {
        // The state is taken out and put back whole, so the invariant is
        // checked on the value the chunk leaves.
        let mut taken = Framer::new();
        std::mem::swap(self, &mut taken);
        proof {
            use_type_invariant(&taken);
        }
        let ghost start = taken@;
        let Framer { mut buf, mut skipping } = taken;
        assert(FrameState { buf: buf@, skipping } == start);
        let mut lines: Vec<Vec<u8>> = Vec::new();
        let mut i: usize = 0;
        proof {
            assert(chunk@.take(0) =~= Seq::<u8>::empty());
            assert(line_views(lines@) =~= Seq::<Seq<u8>>::empty());
        }
        while i < chunk.len()
            invariant
                i <= chunk.len(),
                buf.len() <= N,
                skipping ==> buf.len() == 0,
                (FrameState { buf: buf@, skipping }, line_views(lines@)) == frame_run(
                    N as nat,
                    start,
                    chunk@.take(i as int),
                ),
            decreases chunk.len() - i,
        {
            let byte = chunk[i];
            let ghost before = FrameState { buf: buf@, skipping };
            let ghost before_lines = line_views(lines@);
            if byte == NEWLINE {
                let done = Self::end_line(&mut buf, &mut skipping);
                match done {
                    Some(line) => {
                        lines.push(line);
                    },
                    None => {},
                }
            } else if !skipping {
                if buf.len() < N {
                    buf.push(byte);
                } else {
                    buf.clear();
                    skipping = true;
                }
            }
            proof {
                let step = frame_step(N as nat, before, byte);
                assert(chunk@.take(i + 1).drop_last() =~= chunk@.take(i as int));
                assert(chunk@.take(i + 1).last() == byte);
                assert(FrameState { buf: buf@, skipping } == step.0);
                assert(line_views(lines@) =~= before_lines + step.1);
            }
            i += 1;
        }
        proof {
            assert(chunk@.take(chunk@.len() as int) =~= chunk@);
        }
        *self = Framer { buf, skipping };
        lines
    }

    /// A newline was seen: hand back the completed line, if it is to be
    /// dispatched, and reset for the next line.
    fn end_line(buf: &mut Vec<u8>, skipping: &mut bool) -> (line: Option<Vec<u8>>)
        requires
            old(buf).len() <= N,
            *old(skipping) ==> old(buf).len() == 0,
        ensures
            final(buf)@ == Seq::<u8>::empty(),
            !*final(skipping),
            (match line {
                Some(l) => seq![l@],
                None => Seq::<Seq<u8>>::empty(),
            }) == (if *old(skipping) {
                Seq::<Seq<u8>>::empty()
            } else {
                emit(N as nat, old(buf)@)
            }),
    {
        if *skipping {
            *skipping = false;
            buf.clear();
            return None;
        }
        let mut line: Vec<u8> = Vec::new();
        std::mem::swap(&mut line, buf);
        let ghost held = line@;
        let n = line.len();
        if n > 0 && line[n - 1] == CARRIAGE_RETURN {
            line.pop();
        }
        proof {
            assert(line@ =~= trim_cr(held));
        }
        if line.len() > 0 {
            Some(line)
        } else {
            None
        }
    }
}

impl<const N: usize> Default for Framer<N> {
    fn default() -> (f: Self)
        ensures
            f@ == fresh_state(),
    {
        Self::new()
    }
}

/// The bytes written for one response: its text followed by a newline.
pub fn frame_response(response: &str) -> (out: Vec<u8>)
    ensures
        out@ == response.spec_bytes().push(NEWLINE),
{
    let mut out = vstd::slice::slice_to_vec(response.as_bytes());
    out.push(NEWLINE);
    out
}

/// What one read from the transport produced.
#[derive(Debug, Clone, Copy, PartialEq, Eq, Structural)]
pub enum ReadEvent {
    /// This many bytes (more than 0) arrived.
    Data(usize),
    /// The read returned 0 bytes.
    Empty,
    /// The read failed.
    Failed,
}

/// What the serving loop does next.
#[derive(Debug, Clone, Copy, PartialEq, Eq, Structural)]
pub enum LoopAction {
    /// Push this many freshly read bytes into the framer.
    Feed(usize),
    /// Read again.
    Wait,
    /// Leave the loop.
    Stop,
}

/// Classify a read result by the number of bytes it gave.
pub fn read_event(r: Option<usize>) -> (e: ReadEvent)
    ensures
        e == (match r {
            None => ReadEvent::Failed,
            Some(0) => ReadEvent::Empty,
            Some(n) => ReadEvent::Data(n),
        }),
{
    match r {
        None => ReadEvent::Failed,
        Some(0) => ReadEvent::Empty,
        Some(n) => ReadEvent::Data(n),
    }
}

/// The host loop over stdin: a 0-byte read is end of input and stops the
/// loop, as does a read error; data is framed.
pub fn host_loop_action(e: ReadEvent) -> (a: LoopAction)
    ensures
        a == (match e {
            ReadEvent::Data(n) => LoopAction::Feed(n),
            ReadEvent::Empty => LoopAction::Stop,
            ReadEvent::Failed => LoopAction::Stop,
        }),
{
    match e {
        ReadEvent::Data(n) => LoopAction::Feed(n),
        ReadEvent::Empty => LoopAction::Stop,
        ReadEvent::Failed => LoopAction::Stop,
    }
}

/// The device loop over USB: a 0-byte read only means the read tick passed
/// with no data, and a read error is logged; both read again, so the loop
/// never ends. Data is framed.
pub fn device_loop_action(e: ReadEvent) -> (a: LoopAction)
    ensures
        a == (match e {
            ReadEvent::Data(n) => LoopAction::Feed(n),
            _ => LoopAction::Wait,
        }),
        a != LoopAction::Stop,
{
    match e {
        ReadEvent::Data(n) => LoopAction::Feed(n),
        _ => LoopAction::Wait,
    }
}

/// The line still being received never contains a newline.
proof fn lemma_pending_has_no_newline(stream: Seq<u8>)
    ensures
        forall|i: int| 0 <= i < pending(stream).len() ==> pending(stream)[i] != NEWLINE,
    decreases stream.len(),
{
    if stream.len() > 0 && stream.last() != NEWLINE {
        let prefix = stream.drop_last();
        lemma_pending_has_no_newline(prefix);
        assert(pending(stream) == pending(prefix).push(stream.last()));
        assert forall|i: int| 0 <= i < pending(stream).len() implies pending(stream)[i] != NEWLINE by {
            if i < pending(prefix).len() {
                assert(pending(stream)[i] == pending(prefix)[i]);
            }
        }
    }
}

/// Framing law: a fresh framer fed a stream emits exactly the stream's lines
/// ([`frames`]) and is left holding the pending line, or skipping it if it
/// already overflowed.
pub proof fn law_framer_yields_frames(cap: nat, stream: Seq<u8>)
    ensures
        frame_run(cap, fresh_state(), stream) == (state_after(cap, stream), frames(cap, stream)),
    decreases stream.len(),
{
    if stream.len() > 0 {
        let prefix = stream.drop_last();
        law_framer_yields_frames(cap, prefix);
        assert(frames(cap, prefix) + Seq::<Seq<u8>>::empty() =~= frames(cap, prefix));
        if stream.last() != NEWLINE {
            assert(pending(stream) == pending(prefix).push(stream.last()));
        }
    }
}

/// Chunking law: feeding `a` and then `b` leaves the same state and emits the
/// same lines, in the same order, as feeding `a + b` at once. How a transport
/// cuts the byte stream into reads does not change what is dispatched.
pub proof fn law_chunking_is_invisible(cap: nat, st: FrameState, a: Seq<u8>, b: Seq<u8>)
    ensures
        ({
            let first = frame_run(cap, st, a);
            let second = frame_run(cap, first.0, b);
            frame_run(cap, st, a + b) == (second.0, first.1 + second.1)
        }),
    decreases b.len(),
{
    let first = frame_run(cap, st, a);
    if b.len() == 0 {
        assert(a + b =~= a);
        assert(first.1 + Seq::<Seq<u8>>::empty() =~= first.1);
    } else {
        law_chunking_is_invisible(cap, st, a, b.drop_last());
        assert((a + b).drop_last() =~= a + b.drop_last());
        assert((a + b).last() == b.last());
        let mid = frame_run(cap, first.0, b.drop_last());
        let last = frame_step(cap, mid.0, b.last());
        assert(first.1 + mid.1 + last.1 =~= first.1 + (mid.1 + last.1));
    }
}

/// Every line a stream yields is non-empty, fits the capacity and holds no newline.
pub proof fn law_frames_are_bounded(cap: nat, stream: Seq<u8>)
    ensures
        forall|k: int| 0 <= k < frames(cap, stream).len() ==> {
            let line = #[trigger] frames(cap, stream)[k];
            &&& 0 < line.len() <= cap
            &&& forall|i: int| 0 <= i < line.len() ==> line[i] != NEWLINE
        },
    decreases stream.len(),
{
    if stream.len() > 0 {
        let prefix = stream.drop_last();
        law_frames_are_bounded(cap, prefix);
        if stream.last() == NEWLINE {
            lemma_pending_has_no_newline(prefix);
            let seg = pending(prefix);
            let out = frames(cap, prefix) + emit(cap, seg);
            assert forall|k: int| 0 <= k < out.len() implies {
                let line = #[trigger] out[k];
                &&& 0 < line.len() <= cap
                &&& forall|i: int| 0 <= i < line.len() ==> line[i] != NEWLINE
            } by {
                if k >= frames(cap, prefix).len() {
                    let line = out[k];
                    assert(line == trim_cr(seg));
                    assert forall|i: int| 0 <= i < line.len() implies line[i] != NEWLINE by {
                        assert(line[i] == seg[i]);
                    }
                }
            }
        }
    }
}

} // verus!
