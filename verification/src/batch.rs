//! The batching pipeline around the dispatcher: collecting request lines
//! into batches, putting the responses of a batch in the order of its
//! requests, and deciding when and how the buffered responses are written.

use vstd::prelude::*;
use crate::cache::{byte_len, ResponseBuffer};
use crate::json::{json_model, json_text, render, JsonModel};
use crate::server::{internal_error, internal_error_model, null_result, null_result_model};
use crate::text::{option_text, trim, trimmed};

verus! {

/// The most request lines in one batch.
pub const MAX_BATCH_SIZE: usize = 100;

/// The most bytes in one request line.
pub const MAX_REQUEST_SIZE: usize = 10485760;

/// How long a batch is collected, in milliseconds from its start.
pub const BATCH_TIMEOUT_MS: u64 = 50;

/// The most bytes of responses held before they are written.
pub const RESPONSE_BUFFER_SIZE: usize = 10485760;

/// A flush of more responses than this is written as one compressed stream.
pub const COMPRESSION_THRESHOLD: usize = 100;

/// What the reader saw while a batch was collected.
pub enum ReadEvent {
    /// A line, as read.
    Line(String),
    /// The input has ended.
    EndOfStream,
    /// Reading failed; nothing more will be read.
    Failed,
    /// The time of the batch is over.
    Timeout,
}

/// The request lines of the batch being collected, and whether the input has
/// ended.
pub struct Batch {
    pub lines: Vec<String>,
    pub ended: bool,
}

/// Whether a line is taken into a batch: it is not larger than a request may
/// be, and not blank.
pub open spec fn enqueued(line: Seq<char>) -> bool {
    byte_len(line) <= MAX_REQUEST_SIZE && trimmed(line).len() > 0
}

/// Whether a line is larger than a request may be.
pub fn is_oversized(line: &str) -> (oversized: bool)
    ensures
        oversized == (byte_len(line@) > MAX_REQUEST_SIZE),
{
    line.as_bytes().len() > MAX_REQUEST_SIZE
}

impl Batch {
    /// The request lines collected.
    pub open spec fn requests(&self) -> Seq<Seq<char>> {
        crate::text::texts(self.lines@)
    }

    /// An empty batch on an input that has not ended.
    pub fn new() -> (b: Batch)
        ensures
            b.lines@.len() == 0,
            b.requests() == Seq::<Seq<char>>::empty(),
            !b.ended,
    {
        let b = Batch { lines: Vec::new(), ended: false };
        proof {
            assert(b.requests() =~= Seq::<Seq<char>>::empty());
        }
        b
    }

    /// Whether the batch has as many lines as a batch may have.
    pub fn is_full(&self) -> (full: bool)
        ensures
            full == (self.lines@.len() >= MAX_BATCH_SIZE),
    {
        self.lines.len() >= MAX_BATCH_SIZE
    }

    /// Takes in what the reader saw, and says whether to go on collecting.
    /// A line joins the batch trimmed, unless it is oversized or blank;
    /// collecting goes on until the batch is full. The end of the input, a
    /// failed read and the timeout end the collecting; the first two also
    /// mark the input as ended.
    pub fn accept(&mut self, event: ReadEvent) -> (more: bool)
        requires
            old(self).lines@.len() < MAX_BATCH_SIZE,
        ensures
            match event {
                ReadEvent::Line(line) => {
                    &&& final(self).ended == old(self).ended
                    &&& final(self).requests() == if enqueued(line@) {
                        old(self).requests().push(trimmed(line@))
                    } else {
                        old(self).requests()
                    }
                    &&& more == (final(self).lines@.len() < MAX_BATCH_SIZE)
                },
                ReadEvent::EndOfStream | ReadEvent::Failed => {
                    &&& final(self).ended
                    &&& final(self).requests() == old(self).requests()
                    &&& !more
                },
                ReadEvent::Timeout => {
                    &&& final(self).ended == old(self).ended
                    &&& final(self).requests() == old(self).requests()
                    &&& !more
                },
            },
    {
        match event {
            ReadEvent::Line(line) => {
                if !is_oversized(line.as_str()) {
                    let text = trim(line.as_str());
                    if !text.is_empty() {
                        crate::text::push_text(&mut self.lines, text);
                    }
                }
                self.lines.len() < MAX_BATCH_SIZE
            },
            ReadEvent::EndOfStream => {
                self.ended = true;
                false
            },
            ReadEvent::Failed => {
                self.ended = true;
                false
            },
            ReadEvent::Timeout => false,
        }
    }

    /// Hands out the lines collected, in the order in which they came, and
    /// leaves the batch empty for the next round.
    pub fn take(&mut self) -> (lines: Vec<String>)
        ensures
            lines@ == old(self).lines@,
            final(self).lines@.len() == 0,
            final(self).ended == old(self).ended,
    {
        let mut lines: Vec<String> = Vec::new();
        std::mem::swap(&mut self.lines, &mut lines);
        lines
    }

    /// Whether the loop is over: the input has ended and no line is left to
    /// process.
    pub fn finished(&self) -> (done: bool)
        ensures
            done == (self.ended && self.lines@.len() == 0),
    {
        self.ended && self.lines.len() == 0
    }
}

/// How the processing of one request ended.
pub enum Outcome {
    /// With a response.
    Response(serde_json::Value),
    /// Without one.
    Silent,
    /// The task that processed it failed, with this message.
    Failed(String),
}

/// What `serde_json::to_string` makes of a tree: the text it writes, or
/// nothing where it reports an error.
pub uninterp spec fn serialized(m: JsonModel) -> Option<Seq<char>>;

/// The text of the internal error that stands for a response that could not
/// be serialized.
pub open spec fn unserializable() -> Seq<char> {
    json_text(internal_error_model("Internal error"@))
}

/// The line for a response by what serializing it gave: the text, or the
/// internal error in its place where there is none.
pub open spec fn line_or_error(text: Option<Seq<char>>) -> Seq<char> {
    match text {
        Some(t) => t,
        None => unserializable(),
    }
}

/// The line that answers a request whose processing ended with `outcome`:
/// the serialized response, and the internal error in its place only where
/// the response cannot be serialized; the null result where there is no
/// response; the internal error with the task's message where the task
/// failed.
pub open spec fn line_of(outcome: Outcome) -> Seq<char> {
    match outcome {
        Outcome::Response(v) => line_or_error(serialized(json_model(v))),
        Outcome::Silent => json_text(null_result_model()),
        Outcome::Failed(message) => json_text(internal_error_model("Internal error: "@ + message@)),
    }
}

/// A response that can be serialized is answered by its own serialized
/// text, whatever became of the other requests of its batch; the internal
/// error takes its place only where it cannot be serialized.
pub proof fn response_is_answered_by_its_own_text(response: serde_json::Value)
    ensures
        serialized(json_model(response)) is Some ==> line_of(Outcome::Response(response)) == serialized(
            json_model(response),
        ).unwrap(),
        serialized(json_model(response)) is None ==> line_of(Outcome::Response(response)) == unserializable(),
{
}

/// `serde_json::to_string` on a value: what [`serialized`] names, the text
/// where the call succeeds and nothing where it reports an error.
#[verifier::external_body]
fn serialize(v: &serde_json::Value) -> (r: Option<String>)
    ensures
        option_text(r) == serialized(json_model(*v)),
{
    serde_json::to_string(v).ok()
}

/// The line for a response that was serialized, or for one that could not
/// be: then the internal error stands in its place.
pub fn serialized_line(serialized: Option<String>) -> (line: String)
    ensures
        line@ == line_or_error(option_text(serialized)),
{
    match serialized {
        Some(text) => text,
        None => render(&internal_error("Internal error")),
    }
}

/// The line that answers one request.
pub fn slot_line(outcome: &Outcome) -> (line: String)
    ensures
        line@ == line_of(*outcome),
{
    match outcome {
        Outcome::Response(v) => serialized_line(serialize(v)),
        Outcome::Silent => render(&null_result()),
        Outcome::Failed(message) => {
            let mut text = String::from_str("Internal error: ");
            text.append(message.as_str());
            render(&internal_error(text.as_str()))
        },
    }
}

/// The lines of a batch: one for each request, at the place of its request,
/// whatever the order in which the requests were finished.
pub fn assemble(outcomes: &Vec<Outcome>) -> (lines: Vec<String>)
    ensures
        lines@.len() == outcomes@.len(),
        forall|i: int| 0 <= i < outcomes@.len() ==> (#[trigger] lines@[i])@ == line_of(outcomes@[i]),
{
    let mut lines: Vec<String> = Vec::new();
    let mut i: usize = 0;
    while i < outcomes.len()
        invariant
            i <= outcomes.len(),
            lines@.len() == i,
            forall|k: int| 0 <= k < i ==> (#[trigger] lines@[k])@ == line_of(outcomes@[k]),
        decreases outcomes.len() - i,
    {
        let line = slot_line(&outcomes[i]);
        lines.push(line);
        i = i + 1;
    }
    lines
}

/// What `flate2` makes of data as a gzip stream at its default level: the
/// bytes of the stream, or nothing where the encoder reports an error.
pub uninterp spec fn gzip_stream(data: Seq<u8>) -> Option<Seq<u8>>;

/// The bytes of optional bytes.
pub open spec fn option_bytes(bytes: Option<Vec<u8>>) -> Option<Seq<u8>> {
    match bytes {
        Some(b) => Some(b@),
        None => None,
    }
}

/// `flate2::write::GzEncoder` at the default level, given all the data and
/// finished: what [`gzip_stream`] names, the stream where the encoder
/// reports no error and nothing where it reports one.
#[verifier::external_body]
fn gzip(data: &Vec<u8>) -> (r: Option<Vec<u8>>)
    ensures
        option_bytes(r) == gzip_stream(data@),
{
    let mut encoder = flate2::write::GzEncoder::new(Vec::new(), flate2::Compression::default());
    std::io::Write::write_all(&mut encoder, data).ok()?;
    encoder.finish().ok()
}

/// The bytes of lines, each followed by a line feed.
pub open spec fn framed(lines: Seq<String>) -> Seq<u8>
    decreases lines.len(),
{
    if lines.len() == 0 {
        Seq::<u8>::empty()
    } else {
        framed(lines.drop_last()) + vstd::utf8::encode_utf8(lines.last()@) + seq![10u8]
    }
}

/// One write of buffered responses.
pub enum Flush {
    /// The responses, to be written line by line.
    Lines(Vec<String>),
    /// The responses as one compressed stream.
    Compressed(Vec<u8>),
}

/// The compressor reported an error.
#[derive(Debug)]
pub struct CompressionFailed;

/// Lays out the lines of a frame as bytes, each followed by a line feed.
pub fn frame(lines: &Vec<String>) -> (bytes: Vec<u8>)
    ensures
        bytes@ == framed(lines@),
{
    let mut bytes: Vec<u8> = Vec::new();
    let mut i: usize = 0;
    proof {
        assert(lines@.take(0) =~= Seq::<String>::empty());
    }
    while i < lines.len()
        invariant
            i <= lines.len(),
            bytes@ == framed(lines@.take(i as int)),
        decreases lines.len() - i,
    {
        proof {
            assert(lines@.take(i as int + 1).drop_last() =~= lines@.take(i as int));
            assert(lines@.take(i as int + 1).last() == lines@[i as int]);
        }
        bytes.extend_from_slice(lines[i].as_str().as_bytes());
        bytes.push(10u8);
        i = i + 1;
    }
    proof {
        assert(lines@.take(lines.len() as int) =~= lines@);
    }
    bytes
}

/// The write of a compressed stream, from what the compressor gave.
pub fn compressed_flush(stream: Option<Vec<u8>>) -> (r: Result<Flush, CompressionFailed>)
    ensures
        match stream {
            Some(bytes) => r == Ok::<Flush, CompressionFailed>(Flush::Compressed(bytes)),
            None => r is Err,
        },
{
    match stream {
        Some(bytes) => Ok(Flush::Compressed(bytes)),
        None => Err(CompressionFailed),
    }
}

/// Decides how buffered responses are written: more than a hundred go out
/// as one compressed stream of their frame, fewer line by line. The flush
/// fails only where the compressor reports an error.
pub fn plan_flush(lines: Vec<String>) -> (r: Result<Flush, CompressionFailed>)
    ensures
        lines@.len() <= COMPRESSION_THRESHOLD ==> r == Ok::<Flush, CompressionFailed>(Flush::Lines(lines)),
        lines@.len() > COMPRESSION_THRESHOLD ==> match gzip_stream(framed(lines@)) {
            Some(stream) => r is Ok && r.unwrap() is Compressed && r.unwrap()->Compressed_0@ == stream,
            None => r is Err,
        },
{
    if lines.len() > COMPRESSION_THRESHOLD {
        compressed_flush(gzip(&frame(&lines)))
    } else {
        Ok(Flush::Lines(lines))
    }
}

/// The lines of a list of writes, one write after the other.
pub open spec fn written(batches: Seq<Vec<String>>) -> Seq<String>
    decreases batches.len(),
{
    if batches.len() == 0 {
        Seq::<String>::empty()
    } else {
        written(batches.drop_last()) + batches.last()@
    }
}

/// The lines of a list of writes, write by write.
pub open spec fn lines_of(batches: Seq<Vec<String>>) -> Seq<Seq<String>> {
    batches.map_values(|b: Vec<String>| b@)
}

/// Whether the response fits in what is left of the buffer.
pub open spec fn fits(buffer: ResponseBuffer, response: String) -> bool {
    buffer.current_size + byte_len(response@) <= buffer.max_size
}

/// Whether the response fits in the buffer once it is empty.
pub open spec fn fits_alone(buffer: ResponseBuffer, response: String) -> bool {
    fits(buffer, response) || byte_len(response@) <= buffer.max_size
}

/// The lines that stay in the buffer when the response comes: all of them
/// where it fits, none where they have to make room.
pub open spec fn carried(buffer: ResponseBuffer, response: String) -> Seq<String> {
    if fits(buffer, response) {
        buffer.buffer@
    } else {
        Seq::<String>::empty()
    }
}

/// Whether the buffer has reached its threshold once the response is in:
/// half its size in bytes, or fifty lines.
pub open spec fn threshold_reached(buffer: ResponseBuffer, response: String) -> bool {
    fits_alone(buffer, response) && ({
        let size = if fits(buffer, response) {
            buffer.current_size + byte_len(response@)
        } else {
            byte_len(response@) as int
        };
        size >= buffer.max_size / 2 || carried(buffer, response).len() + 1 >= 50
    })
}

/// What is handed out when the response comes: first what the buffer held,
/// where that has to make room; then the response by itself, where no empty
/// buffer could take it, or else the buffer with the response in it, where
/// that has reached its threshold.
pub open spec fn handed_out(buffer: ResponseBuffer, response: String) -> Seq<Seq<String>> {
    let room = if fits(buffer, response) {
        Seq::<Seq<String>>::empty()
    } else {
        seq![buffer.buffer@]
    };
    if !fits_alone(buffer, response) {
        room.push(seq![response])
    } else if threshold_reached(buffer, response) {
        room.push(carried(buffer, response).push(response))
    } else {
        room
    }
}

/// Buffers one response and says what is due to be written. A response that
/// the buffer cannot take is put in once what is held has been handed out; a
/// response that no empty buffer could take goes out by itself. After that
/// the buffer is handed out where it has reached its threshold. No response
/// is lost, and the order is kept: what is handed out, followed by what the
/// buffer holds, is what the buffer held followed by the response.
pub fn buffer_response(buffer: &mut ResponseBuffer, response: String) -> (due: Vec<Vec<String>>)
    requires
        old(buffer).wf(),
    ensures
        final(buffer).wf(),
        final(buffer).max_size == old(buffer).max_size,
        written(due@) + final(buffer).buffer@ == old(buffer).buffer@.push(response),
        lines_of(due@) == handed_out(*old(buffer), response),
        final(buffer).buffer@ == if threshold_reached(*old(buffer), response) || !fits_alone(*old(buffer), response) {
            Seq::<String>::empty()
        } else {
            carried(*old(buffer), response).push(response)
        },
{
    let mut due: Vec<Vec<String>> = Vec::new();
    let ghost held = buffer.buffer@;
    proof {
        assert(written(due@) =~= Seq::<String>::empty());
        assert(lines_of(due@) =~= Seq::<Seq<String>>::empty());
    }
    let size: usize = response.as_str().as_bytes().len();
    let fits_now = size <= buffer.max_size - buffer.current_size;
    if !fits_now {
        let first = buffer.take_buffer();
        proof {
            assert(due@.push(first).drop_last() =~= due@);
            assert(written(due@.push(first)) =~= held);
            assert(lines_of(due@.push(first)) =~= seq![held]);
        }
        due.push(first);
        if size > buffer.max_size {
            let mut alone: Vec<String> = Vec::new();
            alone.push(response);
            proof {
                assert(alone@ =~= seq![response]);
                assert(due@.push(alone).drop_last() =~= due@);
                assert(written(due@.push(alone)) =~= held.push(response));
                assert(lines_of(due@.push(alone)) =~= seq![held].push(seq![response]));
            }
            due.push(alone);
            proof {
                assert(written(due@) + buffer.buffer@ =~= held.push(response));
            }
            return due;
        }
    }
    let ghost room = lines_of(due@);
    let ghost kept = buffer.buffer@;
    proof {
        assert(kept =~= carried(*old(buffer), response));
        assert(fits_alone(*old(buffer), response));
    }
    let accepted = buffer.add(response);
    assert(accepted);
    if buffer.should_flush() {
        let ghost lines = buffer.buffer@;
        let rest = buffer.take_buffer();
        proof {
            assert(due@.push(rest).drop_last() =~= due@);
            assert(written(due@.push(rest)) =~= written(due@) + lines);
            assert(lines_of(due@.push(rest)) =~= room.push(kept.push(response)));
            assert(threshold_reached(*old(buffer), response));
        }
        due.push(rest);
    } else {
        proof {
            assert(!threshold_reached(*old(buffer), response));
        }
    }
    proof {
        assert(written(due@) + buffer.buffer@ =~= held.push(response));
    }
    due
}

} // verus!
