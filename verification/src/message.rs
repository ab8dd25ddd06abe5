//! The texts under which failed bulk operations are reported.

use vstd::prelude::*;
use crate::bulk::{BulkError, Operation, RetrievalKind};
use crate::packet::TransportError;

verus! {

/// The text for a failed exchange of `operation`.
pub open spec fn failure_text(operation: Operation, error: BulkError) -> Seq<char> {
    match operation {
        Operation::DmaAddTrace => match error {
            BulkError::Rejected => "error adding trace on satellite"@,
            BulkError::Unexpected => "adding DMA trace failed, unexpected aux packet"@,
            BulkError::Transport(_) => "adding DMA trace failed, aux error"@,
        },
        Operation::DmaRemoveTrace => match error {
            BulkError::Rejected => "satellite DMA erase error"@,
            BulkError::Unexpected => "erasing trace failed, unexpected aux packet"@,
            BulkError::Transport(_) => "erasing trace failed, aux error"@,
        },
        Operation::DmaPlayback => match error {
            BulkError::Rejected => "error on DMA playback request"@,
            BulkError::Unexpected => "received unexpected aux packet during DMA playback"@,
            BulkError::Transport(_) => "aux error on DMA playback"@,
        },
        Operation::SubkernelAddData => match error {
            BulkError::Rejected => "error adding subkernel on satellite"@,
            BulkError::Unexpected => "adding subkernel failed, unexpected aux packet"@,
            BulkError::Transport(_) => "adding subkernel failed, aux error"@,
        },
        Operation::SubkernelLoadRun => match error {
            BulkError::Rejected => "error on subkernel run request"@,
            BulkError::Unexpected => "received unexpected aux packet during subkernel run"@,
            BulkError::Transport(_) => "aux error on subkernel run"@,
        },
        Operation::SubkernelMessage => match error {
            BulkError::Transport(_) => "sending message to subkernel, aux error"@,
            _ => "sending message to subkernel failed, unexpected aux packet"@,
        },
    }
}

/// The text for a failed exchange of `operation`.
pub fn failure_message(operation: Operation, error: BulkError) -> (text: &'static str)
    ensures
        text@ == failure_text(operation, error),
{
    match operation {
        Operation::DmaAddTrace => match error {
            BulkError::Rejected => "error adding trace on satellite",
            BulkError::Unexpected => "adding DMA trace failed, unexpected aux packet",
            BulkError::Transport(_) => "adding DMA trace failed, aux error",
        },
        Operation::DmaRemoveTrace => match error {
            BulkError::Rejected => "satellite DMA erase error",
            BulkError::Unexpected => "erasing trace failed, unexpected aux packet",
            BulkError::Transport(_) => "erasing trace failed, aux error",
        },
        Operation::DmaPlayback => match error {
            BulkError::Rejected => "error on DMA playback request",
            BulkError::Unexpected => "received unexpected aux packet during DMA playback",
            BulkError::Transport(_) => "aux error on DMA playback",
        },
        Operation::SubkernelAddData => match error {
            BulkError::Rejected => "error adding subkernel on satellite",
            BulkError::Unexpected => "adding subkernel failed, unexpected aux packet",
            BulkError::Transport(_) => "adding subkernel failed, aux error",
        },
        Operation::SubkernelLoadRun => match error {
            BulkError::Rejected => "error on subkernel run request",
            BulkError::Unexpected => "received unexpected aux packet during subkernel run",
            BulkError::Transport(_) => "aux error on subkernel run",
        },
        Operation::SubkernelMessage => match error {
            BulkError::Transport(_) => "sending message to subkernel, aux error",
            _ => "sending message to subkernel failed, unexpected aux packet",
        },
    }
}

/// The text for a retrieval of `kind` that was aborted while it waited for
/// its header (`at_header`) or for a segment: a failed exchange is reported
/// under the transport's own text, any other reply as unexpected.
pub open spec fn retrieval_failure_text(
    kind: RetrievalKind,
    at_header: bool,
    error: BulkError,
) -> Seq<char> {
    match error {
        BulkError::Transport(e) => match e {
            TransportError::LinkDown => "link went down"@,
            TransportError::Timeout => "timeout"@,
            TransportError::PacketError => "aux packet error"@,
            TransportError::UnexpectedReply => "unexpected reply"@,
        },
        _ => match kind {
            RetrievalKind::SubkernelException => {
                "received unexpected aux packet during subkernel exception request"@
            },
            RetrievalKind::Analyzer => if at_header {
                "received unexpected aux packet during remote analyzer header request"@
            } else {
                "received unexpected aux packet during remote analyzer data request"@
            },
        },
    }
}

/// The text for an aborted retrieval.
pub fn retrieval_failure_message(kind: RetrievalKind, at_header: bool, error: BulkError) -> (text:
    &'static str)
    ensures
        text@ == retrieval_failure_text(kind, at_header, error),
{
    match error {
        BulkError::Transport(e) => e.message(),
        _ => match kind {
            RetrievalKind::SubkernelException => {
                "received unexpected aux packet during subkernel exception request"
            },
            RetrievalKind::Analyzer => if at_header {
                "received unexpected aux packet during remote analyzer header request"
            } else {
                "received unexpected aux packet during remote analyzer data request"
            },
        },
    }
}

} // verus!
