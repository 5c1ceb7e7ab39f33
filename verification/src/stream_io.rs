//! Draining a request from a socket: what each read adds to the buffer, when
//! the drain ends, and the text that the drained bytes hold.

use vstd::prelude::*;
use vstd::string::*;
use vstd::utf8::{decode_utf8, valid_utf8};

verus! {

/// The number of bytes that one read asks the socket for.
pub const READ_CHUNK_SIZE: usize = 4096;

/// What one non-blocking read on the socket gave.
#[derive(Debug)]
pub enum ReadOutcome {
    /// The bytes that were read; none where the peer has closed.
    Read(Vec<u8>),
    /// Nothing is there to read at the moment.
    WouldBlock,
    /// The read failed otherwise.
    Failed,
}

/// What the drain does after a read.
#[derive(Debug, PartialEq, Eq)]
pub enum DrainStep {
    /// Read again.
    More,
    /// The request is in the buffer.
    Done,
    /// Give the connection up.
    Failed,
}

/// What a read leaves in a buffer that held `buffer`.
pub open spec fn drained(buffer: Seq<u8>, outcome: ReadOutcome) -> Seq<u8> {
    match outcome {
        ReadOutcome::Read(bytes) => buffer + bytes@,
        _ => buffer,
    }
}

/// What follows a read: another read after bytes, the end after none or after
/// "would block", failure after a failed read.
pub open spec fn step_after(outcome: ReadOutcome) -> DrainStep {
    match outcome {
        ReadOutcome::Read(bytes) => if bytes@.len() == 0 {
            DrainStep::Done
        } else {
            DrainStep::More
        },
        ReadOutcome::WouldBlock => DrainStep::Done,
        ReadOutcome::Failed => DrainStep::Failed,
    }
}

/// Takes one read into the buffer and says how the drain goes on.
pub fn drain_step(buffer: &mut Vec<u8>, outcome: &ReadOutcome) -> (step: DrainStep)
    ensures
        step == step_after(*outcome),
        final(buffer)@ == drained(old(buffer)@, *outcome),
{
    match outcome {
        ReadOutcome::Read(bytes) => {
            if bytes.len() == 0 {
                assert(buffer@ + bytes@ =~= buffer@);
                DrainStep::Done
            } else {
                buffer.extend_from_slice(bytes.as_slice());
                DrainStep::More
            }
        },
        ReadOutcome::WouldBlock => DrainStep::Done,
        ReadOutcome::Failed => DrainStep::Failed,
    }
}

/// Calls `std::str::from_utf8`, which succeeds on exactly the byte strings
/// that are valid UTF-8 and then gives the text they encode.
#[verifier::external_body]
fn utf8_str<'a>(bytes: &'a [u8]) -> (text: Option<&'a str>)
    ensures
        text is Some <==> valid_utf8(bytes@),
        text is Some ==> text.unwrap()@ == decode_utf8(bytes@),
{
    std::str::from_utf8(bytes).ok()
}

/// The text that drained bytes hold; `None` where they are no UTF-8.
pub fn decoded_text(buffer: &Vec<u8>) -> (text: Option<String>)
    ensures
        text is Some <==> valid_utf8(buffer@),
        text is Some ==> text.unwrap()@ == decode_utf8(buffer@),
{
    match utf8_str(buffer.as_slice()) {
        Some(s) => Some(String::from_str(s)),
        None => None,
    }
}

} // verus!
