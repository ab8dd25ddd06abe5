//! The auxiliary-channel packets that the control plane reads and builds.

use vstd::prelude::*;

verus! {

/// A packet of the auxiliary channel. A payload is held with its true
/// length: the length of the vector.
#[derive(Debug, PartialEq, Eq)]
#[allow(inconsistent_fields)]
pub enum Packet {
    EchoRequest,
    EchoReply,
    ResetRequest,
    ResetAck,
    TSCAck,
    DestinationStatusRequest { destination: u8 },
    DestinationDownReply,
    DestinationOkReply,
    DestinationSequenceErrorReply { channel: u16 },
    DestinationCollisionReply { channel: u16 },
    DestinationBusyReply { channel: u16 },
    RoutingSetPath { destination: u8, hops: Vec<u8> },
    RoutingSetRank { rank: u8 },
    RoutingAck,
    DmaAddTraceRequest { id: u32, destination: u8, last: bool, trace: Vec<u8> },
    DmaAddTraceReply { succeeded: bool },
    DmaRemoveTraceRequest { id: u32, destination: u8 },
    DmaRemoveTraceReply { succeeded: bool },
    DmaPlaybackRequest { id: u32, destination: u8, timestamp: u64 },
    DmaPlaybackReply { succeeded: bool },
    DmaPlaybackStatus { id: u32, destination: u8, error: u8, channel: u32, timestamp: u64 },
    AnalyzerHeaderRequest { destination: u8 },
    AnalyzerHeader { sent_bytes: u32, total_byte_count: u64, overflow_occurred: bool },
    AnalyzerDataRequest { destination: u8 },
    AnalyzerData { last: bool, data: Vec<u8> },
    SubkernelAddDataRequest { id: u32, destination: u8, last: bool, data: Vec<u8> },
    SubkernelAddDataReply { succeeded: bool },
    SubkernelLoadRunRequest { id: u32, destination: u8, run: bool },
    SubkernelLoadRunReply { succeeded: bool },
    SubkernelFinished { id: u32, with_exception: bool },
    SubkernelExceptionRequest { destination: u8 },
    SubkernelException { last: bool, data: Vec<u8> },
    SubkernelMessage { id: u32, destination: u8, last: bool, data: Vec<u8> },
    SubkernelMessageAck { destination: u8 },
}

/// Why one exchange over a link failed. None of these is fatal.
#[derive(Debug, Clone, Copy, PartialEq, Eq, Structural)]
pub enum TransportError {
    /// The link's receiver lost its carrier.
    LinkDown,
    /// No packet arrived before the deadline.
    Timeout,
    /// A packet arrived that could not be decoded.
    PacketError,
    /// A packet arrived that is not the reply to the request.
    UnexpectedReply,
}

impl TransportError {
    /// The text under which the error is logged.
    pub fn message(&self) -> (text: &'static str)
        ensures
            text@ == match *self {
                TransportError::LinkDown => "link went down"@,
                TransportError::Timeout => "timeout"@,
                TransportError::PacketError => "aux packet error"@,
                TransportError::UnexpectedReply => "unexpected reply"@,
            },
    {
        match self {
            TransportError::LinkDown => "link went down",
            TransportError::Timeout => "timeout",
            TransportError::PacketError => "aux packet error",
            TransportError::UnexpectedReply => "unexpected reply",
        }
    }
}

} // verus!
