//! The decisions of a session's output pipeline: the reader worker, which
//! drains the terminal in blocking reads, and the relay, which decodes each
//! chunk and publishes it as an output event.

use vstd::prelude::*;
use vstd::string::StringExecFns;
use crate::text::{decimal, push_decimal};

verus! {

/// The size of the buffer of one blocking read.
pub const READ_CHUNK_SIZE: usize = 4096;

/// How many chunks the queue between the reader and the relay holds.
pub const QUEUE_CAPACITY: usize = 256;

/// What the reader worker observed.
#[derive(Debug, Clone, Copy, PartialEq, Eq, Structural)]
pub enum ReaderEvent {
    /// A read returned this many bytes; zero is the end of the stream.
    Read(usize),
    /// A read was interrupted or would have blocked.
    ReadInterrupted,
    /// A read failed otherwise.
    ReadFailed,
    /// The last chunk was queued for the relay.
    Queued,
    /// The relay is gone, so the chunk could not be queued.
    QueueClosed,
}

/// What the reader worker does next.
#[derive(Debug, Clone, Copy, PartialEq, Eq, Structural)]
pub enum ReaderAction {
    /// Queue the first `n` bytes of the buffer, waiting while the queue is full.
    Forward(usize),
    /// Read again.
    ReadAgain,
    /// Stop the worker.
    Exit,
}

/// The reader worker's decision for an event.
pub open spec fn reader_decision(e: ReaderEvent) -> ReaderAction {
    match e {
        ReaderEvent::Read(n) => if n == 0 {
            ReaderAction::Exit
        } else {
            ReaderAction::Forward(n)
        },
        ReaderEvent::ReadInterrupted => ReaderAction::ReadAgain,
        ReaderEvent::ReadFailed => ReaderAction::Exit,
        ReaderEvent::Queued => ReaderAction::ReadAgain,
        ReaderEvent::QueueClosed => ReaderAction::Exit,
    }
}

/// Decides the reader worker's next move: the end of the stream, a hard read
/// failure or a vanished relay stop it; a transient interruption is retried;
/// data is forwarded.
pub fn reader_step(e: ReaderEvent) -> (r: ReaderAction)
    ensures
        r == reader_decision(e),
{
    match e {
        ReaderEvent::Read(n) => if n == 0 {
            ReaderAction::Exit
        } else {
            ReaderAction::Forward(n)
        },
        ReaderEvent::ReadInterrupted => ReaderAction::ReadAgain,
        ReaderEvent::ReadFailed => ReaderAction::Exit,
        ReaderEvent::Queued => ReaderAction::ReadAgain,
        ReaderEvent::QueueClosed => ReaderAction::Exit,
    }
}

/// The text that best-effort UTF-8 decoding makes of `b`, each invalid
/// sequence replaced by U+FFFD.
pub uninterp spec fn utf8_lossy(b: Seq<u8>) -> Seq<char>;

/// Every byte is ASCII.
pub open spec fn all_ascii(b: Seq<u8>) -> bool {
    forall|i: int| 0 <= i < b.len() ==> #[trigger] b[i] < 128
}

/// The characters of ASCII bytes, one for each.
pub open spec fn ascii_chars(b: Seq<u8>) -> Seq<char> {
    Seq::new(b.len(), |i: int| b[i] as char)
}

/// Relies on `String::from_utf8_lossy`: the text depends on the bytes alone,
/// and valid UTF-8, here all-ASCII bytes, comes back unchanged.
#[verifier::external_body]
fn lossy_text(b: &[u8]) -> (r: String)
    ensures
        r@ == utf8_lossy(b@),
        all_ascii(b@) ==> r@ == ascii_chars(b@),
{
    String::from_utf8_lossy(b).into_owned()
}

/// What the relay observed first.
pub enum RelayEvent {
    /// A chunk arrived from the reader worker.
    Chunk(Vec<u8>),
    /// The queue is empty and the reader worker is gone.
    Closed,
    /// The termination protocol asked the relay to stop.
    Shutdown,
}

/// What the relay does next.
pub enum RelayAction {
    /// Publish this text as the session's next output event, then wait again.
    Emit(String),
    /// Stop the relay, even if chunks are still queued.
    Stop,
}

/// Decides the relay's next move: a chunk is decoded and published; a closed
/// queue or a shutdown request stops it. The decoding is best effort and
/// local to the chunk, so a character split across two chunks is replaced.
pub fn relay_step(e: RelayEvent) -> (r: RelayAction)
    ensures
        match e {
            RelayEvent::Chunk(b) => r matches RelayAction::Emit(t) && t@ == utf8_lossy(b@) && (
            all_ascii(b@) ==> t@ == ascii_chars(b@)),
            _ => r is Stop,
        },
{
    match e {
        RelayEvent::Chunk(b) => RelayAction::Emit(lossy_text(b.as_slice())),
        RelayEvent::Closed => RelayAction::Stop,
        RelayEvent::Shutdown => RelayAction::Stop,
    }
}

/// The name of the event stream of session `id`: "pty-output-<id>".
pub fn output_event_name(id: u32) -> (r: String)
    ensures
        r@ == "pty-output-"@ + decimal(id as nat),
{
    let mut s = String::from_str("pty-output-");
    push_decimal(&mut s, id as u64);
    s
}

/// The name of the reader worker of session `id`: "pty-reader-<id>".
pub fn reader_thread_name(id: u32) -> (r: String)
    ensures
        r@ == "pty-reader-"@ + decimal(id as nat),
{
    let mut s = String::from_str("pty-reader-");
    push_decimal(&mut s, id as u64);
    s
}

} // verus!
