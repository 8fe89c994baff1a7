//! The event-stream ingestor.
//!
//! The caller opens the stream and reads it; every chunk that it reads goes
//! through [`SseIngestor::feed`], which puts the bytes back together into
//! lines, decodes each finished line and returns the payment hashes found.
//! Lines end with a line feed. Where a chunk ends has no influence on what is
//! found: see [`law_chunking_is_irrelevant`].

use vstd::prelude::*;
use crate::decoder::{
    data_marker, event_marker, sse_step, text_payment, FrameDecoder, Transport,
};
use crate::text::{decode_lossy, lemma_texts_push, lossy_text, texts};

verus! {

/// The path of the event stream below the service's base address.
pub const SSE_PATH: &'static str = "/api/v1/payments/sse";

/// How long to wait, in milliseconds, before a stream that ended is reported
/// as ended, and before a faulted transport is connected again.
pub const RETRY_DELAY_MS: u64 = 1000;

/// The headers of the request that opens the stream: they ask for an event
/// stream, forbid caching and keep the connection alive.
pub fn request_headers() -> (r: Vec<(&'static str, &'static str)>)
    ensures
        r@.len() == 3,
        r@[0].0@ == "Accept"@ && r@[0].1@ == "text/event-stream"@,
        r@[1].0@ == "Cache-Control"@ && r@[1].1@ == "no-cache"@,
        r@[2].0@ == "Connection"@ && r@[2].1@ == "keep-alive"@,
{
    let mut headers: Vec<(&'static str, &'static str)> = Vec::new();
    headers.push(("Accept", "text/event-stream"));
    headers.push(("Cache-Control", "no-cache"));
    headers.push(("Connection", "keep-alive"));
    headers
}

/// The byte that ends a line.
pub const LINE_FEED: u8 = 10;

/// The state of the ingestor: the bytes of the line that is not finished yet,
/// and the decoder's armed flag.
pub ghost struct SseState {
    pub pending: Seq<u8>,
    pub armed: bool,
}

/// What one more byte does: a line feed finishes the pending line, which is
/// decoded as text and handed to the decoder; any other byte joins the
/// pending line.
pub open spec fn byte_step(state: SseState, byte: u8) -> (SseState, Option<Seq<char>>) {
    if byte == LINE_FEED {
        let (armed, hash) = sse_step(state.armed, lossy_text(state.pending));
        (SseState { pending: Seq::empty(), armed }, hash)
    } else {
        (SseState { pending: state.pending.push(byte), armed: state.armed }, None)
    }
}

/// The state after `bytes` and the payment hashes found in them, in order.
pub open spec fn run(state: SseState, bytes: Seq<u8>) -> (SseState, Seq<Seq<char>>)
    decreases bytes.len(),
{
    if bytes.len() == 0 {
        (state, Seq::empty())
    } else {
        let (before, found) = run(state, bytes.drop_last());
        let (after, hash) = byte_step(before, bytes.last());
        (
            after,
            match hash {
                Some(h) => found.push(h),
                None => found,
            },
        )
    }
}

/// The bytes of a sequence of chunks, one after the other.
pub open spec fn joined(chunks: Seq<Seq<u8>>) -> Seq<u8>
    decreases chunks.len(),
{
    if chunks.len() == 0 {
        Seq::empty()
    } else {
        joined(chunks.drop_last()) + chunks.last()
    }
}

/// The state after feeding `chunks` one by one, and all the payment hashes
/// found on the way.
pub open spec fn run_chunks(state: SseState, chunks: Seq<Seq<u8>>) -> (SseState, Seq<Seq<char>>)
    decreases chunks.len(),
{
    if chunks.len() == 0 {
        (state, Seq::empty())
    } else {
        let (before, found) = run_chunks(state, chunks.drop_last());
        let (after, more) = run(before, chunks.last());
        (after, found + more)
    }
}

/// Whether no byte of `line` is a line feed.
pub open spec fn is_line(line: Seq<u8>) -> bool {
    forall|i: int| 0 <= i < line.len() ==> line[i] != LINE_FEED
}

/// What the caller learned from one read of the stream.
#[derive(Debug)]
pub enum ReadOutcome {
    /// The read delivered these bytes.
    Chunk(Vec<u8>),
    /// The read failed.
    Failed,
    /// The stream ended without an error.
    Finished,
}

/// What the caller does after a read.
#[derive(Clone, Copy, Debug, PartialEq, Eq, Structural)]
pub enum StreamVerdict {
    /// Read again.
    Continue,
    /// Report the end of the stream at once.
    End,
    /// Wait for the given number of milliseconds, then report the end of the
    /// stream.
    EndAfterPause(u64),
}

/// The answer to one read: the payment hashes to deliver, in order, and what
/// to do next.
#[derive(Debug)]
pub struct SseStep {
    pub hashes: Vec<String>,
    pub verdict: StreamVerdict,
}

/// The ingestor of one event-stream connection.
#[derive(Debug)]
pub struct SseIngestor {
    pending: Vec<u8>,
    decoder: FrameDecoder,
}

impl View for SseIngestor {
    type V = SseState;

    closed spec fn view(&self) -> SseState {
        SseState { pending: self.pending@, armed: self.decoder.armed() }
    }
}

impl SseIngestor {
    /// The ingestor of a fresh connection: no pending bytes, not armed.
    pub fn new() -> (r: SseIngestor)
        ensures
            r@ == (SseState { pending: Seq::empty(), armed: false }),
    {
        SseIngestor { pending: Vec::new(), decoder: FrameDecoder::new() }
    }

    /// Whether the last finished line was a payment event marker.
    pub fn is_armed(&self) -> (r: bool)
        ensures
            r == self@.armed,
    {
        self.decoder.is_armed()
    }

    /// The number of bytes of the line that is not finished yet.
    pub fn pending_len(&self) -> (r: usize)
        ensures
            r == self@.pending.len(),
    {
        self.pending.len()
    }

    /// Feeds one chunk of the response body and returns the payment hashes
    /// of the lines that it finished, in order.
    pub fn feed(&mut self, chunk: &[u8]) -> (hashes: Vec<String>)
        ensures
            (final(self)@, texts(hashes@)) == run(old(self)@, chunk@),
    {
        let ghost start = self@;
        let mut hashes: Vec<String> = Vec::new();
        let mut i: usize = 0;
        assert(texts(hashes@) =~= Seq::empty());
        while i < chunk.len()
            invariant
                i <= chunk.len(),
                (self@, texts(hashes@)) == run(start, chunk@.take(i as int)),
            decreases chunk.len() - i,
        {
            let byte = chunk[i];
            proof {
                assert(chunk@.take(i + 1).drop_last() =~= chunk@.take(i as int));
                assert(chunk@.take(i + 1).last() == byte);
            }
            if byte == LINE_FEED {
                let line = decode_lossy(self.pending.as_slice());
                let hash = self.decoder.accept_line(line.as_str());
                self.pending.clear();
                match hash {
                    Some(h) => {
                        proof {
                            lemma_texts_push(hashes@, h);
                        }
                        hashes.push(h);
                    },
                    None => {},
                }
            } else {
                self.pending.push(byte);
            }
            i += 1;
        }
        proof {
            assert(chunk@.take(i as int) =~= chunk@);
        }
        hashes
    }

    /// Answers one read of the stream.
    ///
    /// A chunk is fed and reading goes on. A failed read ends the stream at
    /// once. A stream that ends without an error ends after a pause of
    /// [`RETRY_DELAY_MS`], so that a server that closes at once is not
    /// hammered. Neither end changes the ingestor.
    pub fn on_read(&mut self, outcome: ReadOutcome) -> (step: SseStep)
        ensures
            match outcome {
                ReadOutcome::Chunk(bytes) => {
                    &&& step.verdict == StreamVerdict::Continue
                    &&& (final(self)@, texts(step.hashes@)) == run(old(self)@, bytes@)
                },
                ReadOutcome::Failed => {
                    &&& step.verdict == StreamVerdict::End
                    &&& step.hashes@.len() == 0
                    &&& final(self)@ == old(self)@
                },
                ReadOutcome::Finished => {
                    &&& step.verdict == StreamVerdict::EndAfterPause(RETRY_DELAY_MS)
                    &&& step.hashes@.len() == 0
                    &&& final(self)@ == old(self)@
                },
            },
    {
        match outcome {
            ReadOutcome::Chunk(bytes) => {
                let hashes = self.feed(bytes.as_slice());
                SseStep { hashes, verdict: StreamVerdict::Continue }
            },
            ReadOutcome::Failed => SseStep { hashes: Vec::new(), verdict: StreamVerdict::End },
            ReadOutcome::Finished => SseStep {
                hashes: Vec::new(),
                verdict: StreamVerdict::EndAfterPause(RETRY_DELAY_MS),
            },
        }
    }
}

/// Feeding two runs of bytes one after the other is feeding them joined: the
/// second run starts in the state that the first one left, and the hashes
/// found are those of the first followed by those of the second.
pub proof fn law_run_concat(state: SseState, first: Seq<u8>, second: Seq<u8>)
    ensures
        run(state, first + second).0 == run(run(state, first).0, second).0,
        run(state, first + second).1 == run(state, first).1 + run(run(state, first).0, second).1,
    decreases second.len(),
{
    let mid = run(state, first);
    if second.len() == 0 {
        assert(first + second =~= first);
        assert(mid.1 + Seq::<Seq<char>>::empty() =~= mid.1);
    } else {
        law_run_concat(state, first, second.drop_last());
        assert((first + second).drop_last() =~= first + second.drop_last());
        assert((first + second).last() == second.last());
        let before = run(mid.0, second.drop_last());
        let hash = byte_step(before.0, second.last()).1;
        match hash {
            Some(h) => {
                assert((mid.1 + before.1).push(h) =~= mid.1 + before.1.push(h));
            },
            None => {},
        }
    }
}

/// Where the chunks end does not matter: feeding a stream chunk by chunk
/// leaves the same state and finds the same hashes, in the same order, as
/// feeding all of its bytes at once.
pub proof fn law_chunking_is_irrelevant(state: SseState, chunks: Seq<Seq<u8>>)
    ensures
        run_chunks(state, chunks) == run(state, joined(chunks)),
    decreases chunks.len(),
{
    if chunks.len() > 0 {
        law_chunking_is_irrelevant(state, chunks.drop_last());
        law_run_concat(state, joined(chunks.drop_last()), chunks.last());
    }
}

/// Bytes without a line feed join the pending line and yield nothing.
pub proof fn lemma_run_within_line(state: SseState, bytes: Seq<u8>)
    requires
        is_line(bytes),
    ensures
        run(state, bytes) == (
            SseState { pending: state.pending + bytes, armed: state.armed },
            Seq::<Seq<char>>::empty(),
        ),
    decreases bytes.len(),
{
    if bytes.len() == 0 {
        assert(state.pending + bytes =~= state.pending);
    } else {
        lemma_run_within_line(state, bytes.drop_last());
        assert((state.pending + bytes.drop_last()).push(bytes.last()) =~= state.pending + bytes);
    }
}

/// A line feed after bytes that hold none finishes the line: the pending
/// bytes and the new ones are decoded together and go through one step of the
/// decoder.
pub proof fn lemma_run_line(state: SseState, line: Seq<u8>)
    requires
        is_line(line),
    ensures
        run(state, line.push(LINE_FEED)).0 == (SseState {
            pending: Seq::empty(),
            armed: sse_step(state.armed, lossy_text(state.pending + line)).0,
        }),
        run(state, line.push(LINE_FEED)).1 == match sse_step(
            state.armed,
            lossy_text(state.pending + line),
        ).1 {
            Some(h) => seq![h],
            None => Seq::empty(),
        },
{
    lemma_run_within_line(state, line);
    assert(line.push(LINE_FEED).drop_last() =~= line);
    match sse_step(state.armed, lossy_text(state.pending + line)).1 {
        Some(h) => {
            assert(Seq::<Seq<char>>::empty().push(h) =~= seq![h]);
        },
        None => {},
    }
}

/// A line that ends while the decoder is not armed yields nothing, whatever
/// it holds and however it is cut into chunks: data that no payment event
/// announced is not a notification.
pub proof fn law_unannounced_line_yields_nothing(
    state: SseState,
    line: Seq<u8>,
    chunks: Seq<Seq<u8>>,
)
    requires
        !state.armed,
        is_line(line),
        joined(chunks) == line.push(LINE_FEED),
    ensures
        run_chunks(state, chunks).1 == Seq::<Seq<char>>::empty(),
{
    law_chunking_is_irrelevant(state, chunks);
    lemma_run_line(state, line);
}

/// A payment event yields its hash whatever the chunking.
///
/// Take an event line that begins with the event marker and a data line
/// whose JSON holds the payment hash `hash`, each ended by a line feed, and a
/// decoder with no pending bytes. However the bytes of the two lines are cut
/// into chunks, feeding the chunks finds exactly `hash`, and leaves the
/// decoder disarmed with no pending bytes.
pub proof fn law_event_then_data_yields_hash(
    state: SseState,
    event_line: Seq<u8>,
    data_line: Seq<u8>,
    hash: Seq<char>,
    chunks: Seq<Seq<u8>>,
)
    requires
        state.pending.len() == 0,
        is_line(event_line),
        is_line(data_line),
        event_marker().is_prefix_of(lossy_text(event_line)),
        data_marker().is_prefix_of(lossy_text(data_line)),
        text_payment(Transport::Sse, lossy_text(data_line).skip(data_marker().len() as int))
            == Some(hash),
        joined(chunks) == event_line.push(LINE_FEED) + data_line.push(LINE_FEED),
    ensures
        run_chunks(state, chunks) == (
            SseState { pending: Seq::empty(), armed: false },
            seq![hash],
        ),
{
    let first = event_line.push(LINE_FEED);
    let second = data_line.push(LINE_FEED);
    law_chunking_is_irrelevant(state, chunks);
    law_run_concat(state, first, second);
    lemma_run_line(state, event_line);
    let mid = run(state, first).0;
    lemma_run_line(mid, data_line);
    assert(state.pending + event_line =~= event_line);
    assert(mid.pending + data_line =~= data_line);
    assert(!event_marker().is_prefix_of(lossy_text(data_line))) by {
        reveal_strlit("event: payment-received");
        reveal_strlit("data:");
        let text = lossy_text(data_line);
        if event_marker().is_prefix_of(text) {
            assert(event_marker()[0] == text.subrange(0, event_marker().len() as int)[0]);
            assert(data_marker()[0] == text.subrange(0, data_marker().len() as int)[0]);
        }
    }
    assert(Seq::<Seq<char>>::empty() + seq![hash] =~= seq![hash]);
}

/// The same payment event fed twice is found twice: nothing is dropped as a
/// duplicate.
pub proof fn law_repeated_event_is_found_twice(
    state: SseState,
    event_line: Seq<u8>,
    data_line: Seq<u8>,
    hash: Seq<char>,
)
    requires
        state.pending.len() == 0,
        is_line(event_line),
        is_line(data_line),
        event_marker().is_prefix_of(lossy_text(event_line)),
        data_marker().is_prefix_of(lossy_text(data_line)),
        text_payment(Transport::Sse, lossy_text(data_line).skip(data_marker().len() as int))
            == Some(hash),
    ensures
        ({
            let event = event_line.push(LINE_FEED) + data_line.push(LINE_FEED);
            run(state, event + event).1 == seq![hash, hash]
        }),
{
    let event = event_line.push(LINE_FEED) + data_line.push(LINE_FEED);
    let once = seq![event];
    assert(once.drop_last() =~= Seq::<Seq<u8>>::empty());
    assert(joined(once.drop_last()) =~= Seq::<u8>::empty());
    assert(joined(once) =~= event);
    law_event_then_data_yields_hash(state, event_line, data_line, hash, once);
    law_chunking_is_irrelevant(state, once);
    let mid = run(state, event).0;
    law_event_then_data_yields_hash(mid, event_line, data_line, hash, once);
    law_chunking_is_irrelevant(mid, once);
    law_run_concat(state, event, event);
    assert(seq![hash] + seq![hash] =~= seq![hash, hash]);
}

} // verus!
