use vstd::prelude::*;
use vstd::utf8::{decode_utf8, valid_utf8};

verus! {

/// One frame of a container's demultiplexed output stream.
#[derive(Clone, Debug, PartialEq, Eq)]
pub enum LogChunk {
    StdOut(Vec<u8>),
    StdErr(Vec<u8>),
    StdIn(Vec<u8>),
}

/// The local stream a frame is written to.
#[derive(Clone, Copy, Debug, PartialEq, Eq, Structural)]
pub enum Sink {
    Stdout,
    Stderr,
}

/// The text that `String::from_utf8_lossy` makes of a byte string.
pub uninterp spec fn lossy_text(b: Seq<u8>) -> Seq<char>;

/// Relies on `String::from_utf8_lossy`: the result depends on the bytes
/// alone, and valid UTF-8 is decoded without replacement.
#[verifier::external_body]
fn decode_lossy(b: &Vec<u8>) -> (r: String)
    ensures
        r@ == lossy_text(b@),
        valid_utf8(b@) ==> r@ == decode_utf8(b@),
{
    String::from_utf8_lossy(b.as_slice()).into_owned()
}

/// The local stream of each kind of frame: the command's standard error goes
/// to standard error, its output and the echo of its input to standard output.
pub open spec fn sink_of(chunk: LogChunk) -> Sink {
    match chunk {
        LogChunk::StdErr(_) => Sink::Stderr,
        _ => Sink::Stdout,
    }
}

/// The bytes a frame carries.
pub open spec fn payload(chunk: LogChunk) -> Seq<u8> {
    match chunk {
        LogChunk::StdOut(b) => b@,
        LogChunk::StdErr(b) => b@,
        LogChunk::StdIn(b) => b@,
    }
}

/// Where a frame goes and what is written there: its payload decoded as
/// UTF-8, with malformed bytes replaced rather than refused.
pub fn relay(chunk: &LogChunk) -> (r: (Sink, String))
    ensures
        r.0 == sink_of(*chunk),
        r.1@ == lossy_text(payload(*chunk)),
        valid_utf8(payload(*chunk)) ==> r.1@ == decode_utf8(payload(*chunk)),
{
    match chunk {
        LogChunk::StdOut(b) => (Sink::Stdout, decode_lossy(b)),
        LogChunk::StdErr(b) => (Sink::Stderr, decode_lossy(b)),
        LogChunk::StdIn(b) => (Sink::Stdout, decode_lossy(b)),
    }
}

} // verus!
