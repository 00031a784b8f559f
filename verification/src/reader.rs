//! The reader loop of a session: what follows each read of its output.

use crate::event::{
    base64_standard, data_event, encodable_len, error_event, flow_after, EventView, Flow,
    TerminalEvent,
};
use crate::text::{joined, owned};
use vstd::prelude::*;

verus! {

/// The size of the buffer that each read of a session's output fills.
pub const READ_BUFFER_SIZE: usize = 8192;

/// What the reader loop does after a read.
pub enum ReaderAction {
    /// Deliver the data event and read on. Where the sink no longer takes
    /// it, the loop ends without another word.
    Deliver(TerminalEvent),
    /// The loop ends: deliver the error event, if there is one, then
    /// finalize the session with `message`.
    Finish { error: Option<TerminalEvent>, message: String },
}

impl ReaderAction {
    /// What the loop does after this action, given whether the sink took
    /// the event: it reads on after a chunk that was delivered, and ends
    /// after a chunk that was not, or after the end of the output.
    pub fn after_delivery(&self, delivered: bool) -> (flow: Flow)
        ensures
            flow == flow_after(self is Deliver, delivered),
    {
        match self {
            ReaderAction::Deliver(_) => if delivered {
                Flow::GoOn
            } else {
                Flow::Stop
            },
            ReaderAction::Finish { .. } => Flow::Stop,
        }
    }
}

/// The message of a read that failed with `detail`.
pub open spec fn read_failure_text(detail: Seq<char>) -> Seq<char> {
    "Failed to read terminal output: "@ + detail
}

/// Whether `action` is what follows `read` in the reader loop of `id`.
/// A read of no bytes is the end of the output; a read of some bytes is
/// forwarded as one data event; a failed read is reported and ends the
/// session with the same text.
pub open spec fn reader_follows(
    id: Seq<char>,
    read: Result<Seq<u8>, Seq<char>>,
    action: ReaderAction,
) -> bool {
    match read {
        Ok(chunk) => if chunk.len() == 0 {
            &&& action matches ReaderAction::Finish { error, message }
            &&& error is None
            &&& message@ == "process exited"@
        } else {
            &&& action matches ReaderAction::Deliver(event)
            &&& event@ == (EventView::Data { id, data: base64_standard(chunk) })
        },
        Err(detail) => {
            &&& action matches ReaderAction::Finish { error, message }
            &&& error matches Some(event)
            &&& event@ == (EventView::Error {
                id: Some(id),
                message: read_failure_text(detail),
            })
            &&& message@ == read_failure_text(detail)
        },
    }
}

/// The value of a read's outcome.
pub open spec fn read_view(read: Result<&[u8], String>) -> Result<Seq<u8>, Seq<char>> {
    match read {
        Ok(chunk) => Ok(chunk@),
        Err(detail) => Err(detail@),
    }
}

/// Decides what follows one read of the output of session `id`. `read`
/// holds the bytes that the read gave, or the description of its failure.
pub fn reader_step(id: &str, read: Result<&[u8], String>) -> (action: ReaderAction)
    requires
        read matches Ok(chunk) ==> encodable_len(chunk@.len()),
    ensures
        reader_follows(id@, read_view(read), action),
{
    match read {
        Ok(chunk) => {
            if chunk.len() == 0 {
                ReaderAction::Finish { error: None, message: owned("process exited") }
            } else {
                ReaderAction::Deliver(data_event(id, chunk))
            }
        },
        Err(detail) => {
            let message = joined("Failed to read terminal output: ", detail.as_str());
            let error = error_event(Some(owned(id)), message.clone());
            ReaderAction::Finish { error: Some(error), message }
        },
    }
}

/// Every chunk that fits the read buffer can be encoded.
pub proof fn buffer_can_be_encoded(len: nat)
    requires
        len <= READ_BUFFER_SIZE,
    ensures
        encodable_len(len),
{
}

} // verus!
