//! Bulk transfers over the transaction channel: chunked uploads, single
//! exchanges keyed by destination, and retrievals that run until the remote
//! sets the terminal flag.

use vstd::prelude::*;
use crate::chunk::{copy_range, segments};
use crate::packet::{Packet, TransportError};
use crate::routing::{RoutingTable, DEST_COUNT};
use crate::survey::UpDestinations;
use crate::transact::solicited;

verus! {

/// The exchanges whose reply says whether the remote accepted the request.
#[derive(Debug, Clone, Copy, PartialEq, Eq, Structural)]
pub enum Operation {
    DmaAddTrace,
    DmaRemoveTrace,
    DmaPlayback,
    SubkernelAddData,
    SubkernelLoadRun,
    SubkernelMessage,
}

/// Why a bulk operation was aborted.
#[derive(Debug, Clone, Copy, PartialEq, Eq, Structural)]
pub enum BulkError {
    /// The remote answered that it failed.
    Rejected,
    /// The reply was of the wrong kind.
    Unexpected,
    /// The exchange itself failed.
    Transport(TransportError),
}

/// The verdict on the reply to a request of `operation`: success where the
/// remote acknowledged, and otherwise why not.
pub open spec fn verdict(operation: Operation, reply: Result<Packet, TransportError>) -> Result<
    (),
    BulkError,
>
    recommends
        solicited(reply),
{
    match reply {
        Err(e) => Err(BulkError::Transport(e)),
        Ok(packet) => {
            let flag: Option<bool> = match operation {
                Operation::DmaAddTrace => match packet {
                    Packet::DmaAddTraceReply { succeeded } => Some(succeeded),
                    _ => None,
                },
                Operation::DmaRemoveTrace => match packet {
                    Packet::DmaRemoveTraceReply { succeeded } => Some(succeeded),
                    _ => None,
                },
                Operation::DmaPlayback => match packet {
                    Packet::DmaPlaybackReply { succeeded } => Some(succeeded),
                    _ => None,
                },
                Operation::SubkernelAddData => match packet {
                    Packet::SubkernelAddDataReply { succeeded } => Some(succeeded),
                    _ => None,
                },
                Operation::SubkernelLoadRun => match packet {
                    Packet::SubkernelLoadRunReply { succeeded } => Some(succeeded),
                    _ => None,
                },
                Operation::SubkernelMessage => match packet {
                    Packet::SubkernelMessageAck { destination } => Some(true),
                    _ => None,
                },
            };
            match flag {
                Some(true) => Ok(()),
                Some(false) => Err(BulkError::Rejected),
                None => Err(BulkError::Unexpected),
            }
        },
    }
}

/// Judges the reply to a request of `operation`.
pub fn exchange_verdict(operation: Operation, reply: &Result<Packet, TransportError>) -> (result:
    Result<(), BulkError>)
    requires
        solicited(*reply),
    ensures
        result == verdict(operation, *reply),
{
    match reply {
        Err(e) => Err(BulkError::Transport(*e)),
        Ok(packet) => {
            let flag: Option<bool> = match operation {
                Operation::DmaAddTrace => match packet {
                    Packet::DmaAddTraceReply { succeeded } => Some(*succeeded),
                    _ => None,
                },
                Operation::DmaRemoveTrace => match packet {
                    Packet::DmaRemoveTraceReply { succeeded } => Some(*succeeded),
                    _ => None,
                },
                Operation::DmaPlayback => match packet {
                    Packet::DmaPlaybackReply { succeeded } => Some(*succeeded),
                    _ => None,
                },
                Operation::SubkernelAddData => match packet {
                    Packet::SubkernelAddDataReply { succeeded } => Some(*succeeded),
                    _ => None,
                },
                Operation::SubkernelLoadRun => match packet {
                    Packet::SubkernelLoadRunReply { succeeded } => Some(*succeeded),
                    _ => None,
                },
                Operation::SubkernelMessage => match packet {
                    Packet::SubkernelMessageAck { destination } => Some(true),
                    _ => None,
                },
            };
            match flag {
                Some(true) => Ok(()),
                Some(false) => Err(BulkError::Rejected),
                None => Err(BulkError::Unexpected),
            }
        },
    }
}

/// One request and the link that it goes over.
#[derive(Debug, PartialEq, Eq)]
pub struct Exchange {
    pub linkno: u8,
    pub request: Packet,
}

/// The request that erases trace `id` on `destination`.
pub fn ddma_send_erase(routing_table: &RoutingTable, id: u32, destination: u8) -> (exchange:
    Exchange)
    requires
        routing_table.wf(),
        routing_table.hop(destination) != 0,
    ensures
        exchange.linkno == routing_table.hop(destination) - 1,
        exchange.request == (Packet::DmaRemoveTraceRequest { id, destination }),
{
    let linkno: u8 = routing_table.first_hop(destination) - 1;
    Exchange { linkno, request: Packet::DmaRemoveTraceRequest { id, destination } }
}

/// The request that plays trace `id` back on `destination` at `timestamp`.
pub fn ddma_send_playback(
    routing_table: &RoutingTable,
    id: u32,
    destination: u8,
    timestamp: u64,
) -> (exchange: Exchange)
    requires
        routing_table.wf(),
        routing_table.hop(destination) != 0,
    ensures
        exchange.linkno == routing_table.hop(destination) - 1,
        exchange.request == (Packet::DmaPlaybackRequest { id, destination, timestamp }),
{
    let linkno: u8 = routing_table.first_hop(destination) - 1;
    Exchange { linkno, request: Packet::DmaPlaybackRequest { id, destination, timestamp } }
}

/// The request that loads subkernel `id` on `destination`, and runs it if
/// `run` is set.
pub fn subkernel_load(routing_table: &RoutingTable, id: u32, destination: u8, run: bool) -> (exchange:
    Exchange)
    requires
        routing_table.wf(),
        routing_table.hop(destination) != 0,
    ensures
        exchange.linkno == routing_table.hop(destination) - 1,
        exchange.request == (Packet::SubkernelLoadRunRequest { id, destination, run }),
{
    let linkno: u8 = routing_table.first_hop(destination) - 1;
    Exchange { linkno, request: Packet::SubkernelLoadRunRequest { id, destination, run } }
}

/// Judges the reply to the request that `ddma_send_erase` gave.
pub fn ddma_erase_reply(reply: &Result<Packet, TransportError>) -> (result: Result<(), BulkError>)
    requires
        solicited(*reply),
    ensures
        result == verdict(Operation::DmaRemoveTrace, *reply),
{
    exchange_verdict(Operation::DmaRemoveTrace, reply)
}

/// Judges the reply to the request that `ddma_send_playback` gave.
pub fn ddma_playback_reply(reply: &Result<Packet, TransportError>) -> (result: Result<
    (),
    BulkError,
>)
    requires
        solicited(*reply),
    ensures
        result == verdict(Operation::DmaPlayback, *reply),
{
    exchange_verdict(Operation::DmaPlayback, reply)
}

/// Judges the reply to the request that `subkernel_load` gave.
pub fn subkernel_load_reply(reply: &Result<Packet, TransportError>) -> (result: Result<
    (),
    BulkError,
>)
    requires
        solicited(*reply),
    ensures
        result == verdict(Operation::SubkernelLoadRun, *reply),
{
    exchange_verdict(Operation::SubkernelLoadRun, reply)
}

/// The payloads that are uploaded in segments.
#[derive(Debug, Clone, Copy, PartialEq, Eq, Structural)]
pub enum UploadKind {
    DmaTrace,
    SubkernelCode,
    SubkernelMessage,
}

impl UploadKind {
    /// The exchange that carries one segment of this payload.
    pub open spec fn operation(self) -> Operation {
        match self {
            UploadKind::DmaTrace => Operation::DmaAddTrace,
            UploadKind::SubkernelCode => Operation::SubkernelAddData,
            UploadKind::SubkernelMessage => Operation::SubkernelMessage,
        }
    }

    /// The exchange that carries one segment of this payload.
    pub fn exchange(self) -> (operation: Operation)
        ensures
            operation == self.operation(),
    {
        match self {
            UploadKind::DmaTrace => Operation::DmaAddTrace,
            UploadKind::SubkernelCode => Operation::SubkernelAddData,
            UploadKind::SubkernelMessage => Operation::SubkernelMessage,
        }
    }
}

/// Where a multi-exchange operation stands.
#[derive(Debug, Clone, Copy, PartialEq, Eq, Structural)]
pub enum Progress {
    /// A further exchange is due.
    Continue,
    /// The operation is complete.
    Done,
    /// The operation was aborted; nothing further is sent.
    Failed(BulkError),
}

/// A payload on its way to a destination, segment by segment and strictly in
/// order. The bytes before `offset` were acknowledged.
#[derive(Debug, PartialEq, Eq)]
pub struct Upload {
    pub kind: UploadKind,
    pub linkno: u8,
    pub id: u32,
    pub destination: u8,
    pub data: Vec<u8>,
    pub max_segment: usize,
    pub offset: usize,
    pub progress: Progress,
}

/// Whether `packet` is the request that carries `segment` of a payload of
/// `kind` under `id` to `destination`.
pub open spec fn carries(
    kind: UploadKind,
    id: u32,
    destination: u8,
    packet: Packet,
    segment: (Seq<u8>, bool),
) -> bool {
    match kind {
        UploadKind::DmaTrace => packet matches Packet::DmaAddTraceRequest {
            id: i,
            destination: d,
            last,
            trace,
        } && i == id && d == destination && last == segment.1 && trace@ == segment.0,
        UploadKind::SubkernelCode => packet matches Packet::SubkernelAddDataRequest {
            id: i,
            destination: d,
            last,
            data,
        } && i == id && d == destination && last == segment.1 && data@ == segment.0,
        UploadKind::SubkernelMessage => packet matches Packet::SubkernelMessage {
            id: i,
            destination: d,
            last,
            data,
        } && i == id && d == destination && last == segment.1 && data@ == segment.0,
    }
}

impl Upload {
    /// The segment size is positive and the offset lies within the payload.
    pub open spec fn wf(&self) -> bool {
        self.max_segment > 0 && self.offset <= self.data@.len()
    }

    /// The segments that are still to be sent, in order: those of the bytes
    /// from `offset` on while the upload runs, and none once it is complete
    /// or was aborted.
    pub open spec fn pending(&self) -> Seq<(Seq<u8>, bool)> {
        if self.progress is Continue {
            segments(self.data@.skip(self.offset as int), self.max_segment as nat)
        } else {
            Seq::empty()
        }
    }

    fn start(
        kind: UploadKind,
        routing_table: &RoutingTable,
        id: u32,
        destination: u8,
        data: Vec<u8>,
        max_segment: usize,
    ) -> (upload: Upload)
        requires
            routing_table.wf(),
            routing_table.hop(destination) != 0,
            max_segment > 0,
        ensures
            upload.wf(),
            upload.kind == kind,
            upload.linkno == routing_table.hop(destination) - 1,
            upload.id == id,
            upload.destination == destination,
            upload.data@ == data@,
            upload.max_segment == max_segment,
            upload.offset == 0,
            upload.progress == Progress::Continue,
            upload.pending() == segments(data@, max_segment as nat),
    {
        let linkno: u8 = routing_table.first_hop(destination) - 1;
        assert(data@.skip(0) =~= data@);
        Upload {
            kind,
            linkno,
            id,
            destination,
            data,
            max_segment,
            offset: 0,
            progress: Progress::Continue,
        }
    }

    /// The request that is due: the one that carries the first pending
    /// segment, and none once the upload is complete or was aborted.
    pub fn next_request(&self) -> (request: Option<Packet>)
        requires
            self.wf(),
        ensures
            request is None <==> self.pending().len() == 0,
            request is None <==> !(self.progress is Continue),
            request matches Some(packet) ==> carries(
                self.kind,
                self.id,
                self.destination,
                packet,
                self.pending()[0],
            ),
    {
        match self.progress {
            Progress::Continue => {},
            _ => {
                return None;
            },
        }
        let remaining: usize = self.data.len() - self.offset;
        let last: bool = remaining <= self.max_segment;
        let end: usize = if last {
            self.data.len()
        } else {
            self.offset + self.max_segment
        };
        let bytes = copy_range(self.data.as_slice(), self.offset, end);
        proof {
            let rest = self.data@.skip(self.offset as int);
            if last {
                assert(bytes@ =~= rest);
            } else {
                assert(bytes@ =~= rest.take(self.max_segment as int));
            }
        }
        let id: u32 = self.id;
        let destination: u8 = self.destination;
        Some(
            match self.kind {
                UploadKind::DmaTrace => Packet::DmaAddTraceRequest {
                    id,
                    destination,
                    last,
                    trace: bytes,
                },
                UploadKind::SubkernelCode => Packet::SubkernelAddDataRequest {
                    id,
                    destination,
                    last,
                    data: bytes,
                },
                UploadKind::SubkernelMessage => Packet::SubkernelMessage {
                    id,
                    destination,
                    last,
                    data: bytes,
                },
            },
        )
    }

    /// The exchange of the first pending segment ended with `reply`. An
    /// acknowledgment moves on to the next segment, or completes the upload
    /// if the segment was the terminal one; anything else aborts the upload,
    /// and no further segment is sent. An upload that is complete or was
    /// aborted stays as it is.
    pub fn on_reply(&mut self, reply: &Result<Packet, TransportError>) -> (progress: Progress)
        requires
            solicited(*reply),
            old(self).wf(),
        ensures
            final(self).wf(),
            progress == final(self).progress,
            final(self).kind == old(self).kind,
            final(self).linkno == old(self).linkno,
            final(self).id == old(self).id,
            final(self).destination == old(self).destination,
            final(self).data == old(self).data,
            final(self).max_segment == old(self).max_segment,
            !(old(self).progress is Continue) ==> progress == old(self).progress && final(self).offset == old(self).offset,
            old(self).progress is Continue ==> match verdict(old(self).kind.operation(), *reply) {
                Ok(_) => final(self).pending() == old(self).pending().skip(1) && progress == (
                if old(self).pending()[0].1 {
                    Progress::Done
                } else {
                    Progress::Continue
                }),
                Err(e) => progress == Progress::Failed(e) && final(self).pending().len() == 0,
            },
    {
        match self.progress {
            Progress::Continue => {},
            _ => {
                return self.progress;
            },
        }
        let ghost rest = self.data@.skip(self.offset as int);
        match exchange_verdict(self.kind.exchange(), reply) {
            Ok(_) => {
                let remaining: usize = self.data.len() - self.offset;
                if remaining <= self.max_segment {
                    self.progress = Progress::Done;
                    proof {
                        assert(old(self).pending().skip(1) =~= Seq::empty());
                    }
                } else {
                    proof {
                        assert(rest.skip(self.max_segment as int) =~= self.data@.skip(
                            self.offset + self.max_segment,
                        ));
                        assert(old(self).pending().skip(1) =~= segments(
                            rest.skip(self.max_segment as int),
                            self.max_segment as nat,
                        ));
                    }
                    self.offset = self.offset + self.max_segment;
                }
            },
            Err(e) => {
                self.progress = Progress::Failed(e);
            },
        }
        self.progress
    }
}

/// Starts the upload of DMA trace `id` to `destination`, in segments of at
/// most `max_segment` bytes over the link of the destination's first hop.
pub fn ddma_upload_trace(
    routing_table: &RoutingTable,
    id: u32,
    destination: u8,
    trace: Vec<u8>,
    max_segment: usize,
) -> (upload: Upload)
    requires
        routing_table.wf(),
        routing_table.hop(destination) != 0,
        max_segment > 0,
    ensures
        upload.wf(),
        upload.kind == UploadKind::DmaTrace,
        upload.linkno == routing_table.hop(destination) - 1,
        upload.id == id,
        upload.destination == destination,
        upload.data@ == trace@,
        upload.max_segment == max_segment,
        upload.offset == 0,
        upload.progress == Progress::Continue,
        upload.pending() == segments(trace@, max_segment as nat),
{
    Upload::start(UploadKind::DmaTrace, routing_table, id, destination, trace, max_segment)
}

/// Starts the upload of the code of subkernel `id` to `destination`.
pub fn subkernel_upload(
    routing_table: &RoutingTable,
    id: u32,
    destination: u8,
    data: Vec<u8>,
    max_segment: usize,
) -> (upload: Upload)
    requires
        routing_table.wf(),
        routing_table.hop(destination) != 0,
        max_segment > 0,
    ensures
        upload.wf(),
        upload.kind == UploadKind::SubkernelCode,
        upload.linkno == routing_table.hop(destination) - 1,
        upload.id == id,
        upload.destination == destination,
        upload.data@ == data@,
        upload.max_segment == max_segment,
        upload.offset == 0,
        upload.progress == Progress::Continue,
        upload.pending() == segments(data@, max_segment as nat),
{
    Upload::start(UploadKind::SubkernelCode, routing_table, id, destination, data, max_segment)
}

/// Starts the sending of a message to subkernel `id` on `destination`; each
/// segment is acknowledged by the destination.
pub fn subkernel_send_message(
    routing_table: &RoutingTable,
    id: u32,
    destination: u8,
    message: Vec<u8>,
    max_segment: usize,
) -> (upload: Upload)
    requires
        routing_table.wf(),
        routing_table.hop(destination) != 0,
        max_segment > 0,
    ensures
        upload.wf(),
        upload.kind == UploadKind::SubkernelMessage,
        upload.linkno == routing_table.hop(destination) - 1,
        upload.id == id,
        upload.destination == destination,
        upload.data@ == message@,
        upload.max_segment == max_segment,
        upload.offset == 0,
        upload.progress == Progress::Continue,
        upload.pending() == segments(message@, max_segment as nat),
{
    Upload::start(UploadKind::SubkernelMessage, routing_table, id, destination, message, max_segment)
}

/// The payloads that are fetched from a destination in segments.
#[derive(Debug, Clone, Copy, PartialEq, Eq, Structural)]
pub enum RetrievalKind {
    /// The exception that a subkernel raised.
    SubkernelException,
    /// The analyzer's dump, which a header announces.
    Analyzer,
}

/// Where a retrieval stands.
#[derive(Debug, Clone, Copy, PartialEq, Eq, Structural)]
pub enum RetrievalStage {
    /// The header is to be asked for.
    Header,
    /// The next segment is to be asked for.
    Data,
    /// The terminal segment arrived, or the header announced no data.
    Done,
    /// The retrieval was aborted.
    Failed(BulkError),
}

/// A payload on its way from a destination. `data` holds the segments that
/// arrived so far, in order; the three header fields are those of the
/// analyzer's header once it arrived.
#[derive(Debug, PartialEq, Eq)]
pub struct Retrieval {
    pub kind: RetrievalKind,
    pub linkno: u8,
    pub destination: u8,
    pub stage: RetrievalStage,
    pub sent_bytes: u32,
    pub total_byte_count: u64,
    pub overflow_occurred: bool,
    pub data: Vec<u8>,
}

/// What a destination's analyzer held.
#[derive(Debug, PartialEq, Eq)]
pub struct RemoteBuffer {
    pub sent_bytes: u32,
    pub total_byte_count: u64,
    pub overflow_occurred: bool,
    pub data: Vec<u8>,
}

/// The segment that `reply` delivers to a retrieval of `kind`: its bytes and
/// its terminal flag, if the reply is a segment of that kind.
pub open spec fn delivered(kind: RetrievalKind, reply: Result<Packet, TransportError>) -> Option<
    (Seq<u8>, bool),
> {
    match reply {
        Ok(Packet::SubkernelException { last, data }) => if kind is SubkernelException {
            Some((data@, last))
        } else {
            None
        },
        Ok(Packet::AnalyzerData { last, data }) => if kind is Analyzer {
            Some((data@, last))
        } else {
            None
        },
        _ => None,
    }
}

/// Why a reply that delivers nothing aborts the retrieval.
pub open spec fn retrieval_error(reply: Result<Packet, TransportError>) -> BulkError
    recommends
        solicited(reply),
{
    match reply {
        Err(e) => BulkError::Transport(e),
        Ok(_) => BulkError::Unexpected,
    }
}

/// The stage of a retrieval of `kind` at `stage` once its exchange ended
/// with `reply`.
pub open spec fn stage_after(
    kind: RetrievalKind,
    stage: RetrievalStage,
    reply: Result<Packet, TransportError>,
) -> RetrievalStage
    recommends
        solicited(reply),
{
    match stage {
        RetrievalStage::Header => match reply {
            Ok(Packet::AnalyzerHeader { sent_bytes, total_byte_count, overflow_occurred }) => {
                if sent_bytes > 0 {
                    RetrievalStage::Data
                } else {
                    RetrievalStage::Done
                }
            },
            _ => RetrievalStage::Failed(retrieval_error(reply)),
        },
        RetrievalStage::Data => match delivered(kind, reply) {
            Some(segment) => if segment.1 {
                RetrievalStage::Done
            } else {
                RetrievalStage::Data
            },
            None => RetrievalStage::Failed(retrieval_error(reply)),
        },
        _ => stage,
    }
}

/// The bytes that a retrieval of `kind` at `stage` holds once its exchange
/// ended with `reply`: a delivered segment is appended.
pub open spec fn data_after(
    kind: RetrievalKind,
    stage: RetrievalStage,
    data: Seq<u8>,
    reply: Result<Packet, TransportError>,
) -> Seq<u8> {
    match delivered(kind, reply) {
        Some((bytes, last)) => if stage is Data {
            data + bytes
        } else {
            data
        },
        None => data,
    }
}

impl Retrieval {
    /// The request that is due, and none once the retrieval is complete or
    /// was aborted.
    pub fn next_request(&self) -> (request: Option<Packet>)
        ensures
            request == match self.stage {
                RetrievalStage::Header => Some(
                    Packet::AnalyzerHeaderRequest { destination: self.destination },
                ),
                RetrievalStage::Data => Some(
                    match self.kind {
                        RetrievalKind::SubkernelException => Packet::SubkernelExceptionRequest {
                            destination: self.destination,
                        },
                        RetrievalKind::Analyzer => Packet::AnalyzerDataRequest {
                            destination: self.destination,
                        },
                    },
                ),
                _ => None,
            },
    {
        match self.stage {
            RetrievalStage::Header => Some(
                Packet::AnalyzerHeaderRequest { destination: self.destination },
            ),
            RetrievalStage::Data => Some(
                match self.kind {
                    RetrievalKind::SubkernelException => Packet::SubkernelExceptionRequest {
                        destination: self.destination,
                    },
                    RetrievalKind::Analyzer => Packet::AnalyzerDataRequest {
                        destination: self.destination,
                    },
                },
            ),
            _ => None,
        }
    }

    /// The exchange that was due ended with `reply`. A header is recorded
    /// and says whether segments follow; a segment is appended, and the
    /// terminal one completes the retrieval; anything else aborts it. A
    /// retrieval that is complete or was aborted stays as it is.
    pub fn on_reply(&mut self, reply: Result<Packet, TransportError>) -> (stage: RetrievalStage)
        requires
            solicited(reply),
        ensures
            stage == final(self).stage,
            stage == stage_after(old(self).kind, old(self).stage, reply),
            final(self).data@ == data_after(old(self).kind, old(self).stage, old(self).data@, reply),
            final(self).kind == old(self).kind,
            final(self).linkno == old(self).linkno,
            final(self).destination == old(self).destination,
            old(self).stage is Header && reply is Ok && reply->Ok_0 is AnalyzerHeader ==> {
                &&& final(self).sent_bytes == reply->Ok_0->sent_bytes
                &&& final(self).total_byte_count == reply->Ok_0->total_byte_count
                &&& final(self).overflow_occurred == reply->Ok_0->overflow_occurred
            },
            !(old(self).stage is Header && reply is Ok && reply->Ok_0 is AnalyzerHeader) ==> {
                &&& final(self).sent_bytes == old(self).sent_bytes
                &&& final(self).total_byte_count == old(self).total_byte_count
                &&& final(self).overflow_occurred == old(self).overflow_occurred
            },
    {
        match self.stage {
            RetrievalStage::Header => {
                match reply {
                    Ok(Packet::AnalyzerHeader { sent_bytes, total_byte_count, overflow_occurred }) => {
                        self.sent_bytes = sent_bytes;
                        self.total_byte_count = total_byte_count;
                        self.overflow_occurred = overflow_occurred;
                        self.stage = if sent_bytes > 0 {
                            RetrievalStage::Data
                        } else {
                            RetrievalStage::Done
                        };
                    },
                    Ok(_) => {
                        self.stage = RetrievalStage::Failed(BulkError::Unexpected);
                    },
                    Err(e) => {
                        self.stage = RetrievalStage::Failed(BulkError::Transport(e));
                    },
                }
            },
            RetrievalStage::Data => {
                let kind = self.kind;
                let segment: Result<(Vec<u8>, bool), BulkError> = match reply {
                    Ok(Packet::SubkernelException { last, data }) => match kind {
                        RetrievalKind::SubkernelException => Ok((data, last)),
                        RetrievalKind::Analyzer => Err(BulkError::Unexpected),
                    },
                    Ok(Packet::AnalyzerData { last, data }) => match kind {
                        RetrievalKind::Analyzer => Ok((data, last)),
                        RetrievalKind::SubkernelException => Err(BulkError::Unexpected),
                    },
                    Ok(_) => Err(BulkError::Unexpected),
                    Err(e) => Err(BulkError::Transport(e)),
                };
                match segment {
                    Ok((bytes, last)) => {
                        self.data.extend_from_slice(bytes.as_slice());
                        if last {
                            self.stage = RetrievalStage::Done;
                        }
                    },
                    Err(e) => {
                        self.stage = RetrievalStage::Failed(e);
                    },
                }
            },
            _ => {},
        }
        self.stage
    }

    /// What a complete retrieval brought, with the header that announced
    /// it. A retrieval that still runs or was aborted gives no buffer.
    pub fn into_buffer(self) -> (buffer: RemoteBuffer)
        requires
            self.stage is Done,
        ensures
            buffer.sent_bytes == self.sent_bytes,
            buffer.total_byte_count == self.total_byte_count,
            buffer.overflow_occurred == self.overflow_occurred,
            buffer.data == self.data,
    {
        RemoteBuffer {
            sent_bytes: self.sent_bytes,
            total_byte_count: self.total_byte_count,
            overflow_occurred: self.overflow_occurred,
            data: self.data,
        }
    }
}

/// Starts the retrieval of the exception that a subkernel raised on
/// `destination`: segments are asked for until the terminal one arrives.
pub fn subkernel_retrieve_exception(routing_table: &RoutingTable, destination: u8) -> (retrieval:
    Retrieval)
    requires
        routing_table.wf(),
        routing_table.hop(destination) != 0,
    ensures
        retrieval.kind == RetrievalKind::SubkernelException,
        retrieval.linkno == routing_table.hop(destination) - 1,
        retrieval.destination == destination,
        retrieval.stage == RetrievalStage::Data,
        retrieval.data@ == Seq::<u8>::empty(),
        retrieval.sent_bytes == 0,
        retrieval.total_byte_count == 0,
        !retrieval.overflow_occurred,
{
    let linkno: u8 = routing_table.first_hop(destination) - 1;
    Retrieval {
        kind: RetrievalKind::SubkernelException,
        linkno,
        destination,
        stage: RetrievalStage::Data,
        sent_bytes: 0,
        total_byte_count: 0,
        overflow_occurred: false,
        data: Vec::new(),
    }
}

/// Starts the retrieval of the analyzer's dump from `destination`: the
/// header first, then, if it announces data, segments until the terminal
/// one arrives.
pub fn analyzer_get_data(routing_table: &RoutingTable, destination: u8) -> (retrieval: Retrieval)
    requires
        routing_table.wf(),
        routing_table.hop(destination) != 0,
    ensures
        retrieval.kind == RetrievalKind::Analyzer,
        retrieval.linkno == routing_table.hop(destination) - 1,
        retrieval.destination == destination,
        retrieval.stage == RetrievalStage::Header,
        retrieval.data@ == Seq::<u8>::empty(),
        retrieval.sent_bytes == 0,
        retrieval.total_byte_count == 0,
        !retrieval.overflow_occurred,
{
    let linkno: u8 = routing_table.first_hop(destination) - 1;
    Retrieval {
        kind: RetrievalKind::Analyzer,
        linkno,
        destination,
        stage: RetrievalStage::Header,
        sent_bytes: 0,
        total_byte_count: 0,
        overflow_occurred: false,
        data: Vec::new(),
    }
}

/// Whether the analyzer of destination `d` is queried: the destination is
/// Up and has a link, that is, its first hop is not the master itself.
pub open spec fn queried(routing_table: RoutingTable, up: Seq<bool>, d: int) -> bool {
    up[d] && routing_table.hop(d as u8) != 0
}

/// The destinations whose analyzers are queried: every destination that is
/// Up and has a link, in the order of their numbers. For each of them
/// `analyzer_get_data` starts the retrieval.
pub fn analyzer_query(routing_table: &RoutingTable, up_destinations: &UpDestinations) -> (destinations:
    Vec<u8>)
    requires
        routing_table.wf(),
        up_destinations.wf(),
    ensures
        forall|k: int|
            0 <= k < destinations@.len() ==> queried(
                *routing_table,
                up_destinations@,
                #[trigger] destinations@[k] as int,
            ),
        forall|j: int, k: int|
            0 <= j < k < destinations@.len() ==> destinations@[j] < destinations@[k],
        forall|d: int|
            0 <= d < DEST_COUNT && queried(*routing_table, up_destinations@, d)
                ==> destinations@.contains(d as u8),
{
    let mut destinations: Vec<u8> = Vec::new();
    let mut d: usize = 0;
    while d < DEST_COUNT
        invariant
            d <= DEST_COUNT,
            routing_table.wf(),
            up_destinations.wf(),
            forall|k: int|
                0 <= k < destinations@.len() ==> (#[trigger] destinations@[k]) < d && queried(
                    *routing_table,
                    up_destinations@,
                    destinations@[k] as int,
                ),
            forall|j: int, k: int|
                0 <= j < k < destinations@.len() ==> destinations@[j] < destinations@[k],
            forall|n: int|
                0 <= n < d && queried(*routing_table, up_destinations@, n)
                    ==> destinations@.contains(n as u8),
        decreases DEST_COUNT - d,
    {
        let destination: u8 = d as u8;
        if up_destinations.destination_up(destination) && routing_table.first_hop(destination)
            != 0 {
            let ghost before = destinations@;
            destinations.push(destination);
            proof {
                assert(destinations@[destinations@.len() - 1] == destination);
                assert forall|n: int|
                    0 <= n < d + 1 && queried(
                        *routing_table,
                        up_destinations@,
                        n,
                    ) implies destinations@.contains(n as u8) by {
                    if n < d {
                        let k = choose|k: int| 0 <= k < before.len() && before[k] == n as u8;
                        assert(destinations@[k] == n as u8);
                    }
                }
            }
        }
        d += 1;
    }
    destinations
}

/// What a complete retrieval brought.
pub open spec fn buffer_of(retrieval: Retrieval) -> RemoteBuffer {
    RemoteBuffer {
        sent_bytes: retrieval.sent_bytes,
        total_byte_count: retrieval.total_byte_count,
        overflow_occurred: retrieval.overflow_occurred,
        data: retrieval.data,
    }
}

/// Adds the outcome of the retrieval from one destination to the buffers
/// gathered from the destinations before it. A complete retrieval adds its
/// buffer at the end, so that the buffers stand in the order in which the
/// destinations were queried. An aborted one ends the query with its error,
/// and what was gathered so far is dropped.
pub fn analyzer_gather(buffers: &mut Vec<RemoteBuffer>, retrieval: Retrieval) -> (result: Result<
    (),
    BulkError,
>)
    requires
        retrieval.stage is Done || retrieval.stage is Failed,
    ensures
        match retrieval.stage {
            RetrievalStage::Failed(e) => result == Err::<(), BulkError>(e) && final(buffers)@
                == Seq::<RemoteBuffer>::empty(),
            _ => result is Ok && final(buffers)@ == old(buffers)@.push(buffer_of(retrieval)),
        },
{
    match retrieval.stage {
        RetrievalStage::Failed(e) => {
            buffers.clear();
            Err(e)
        },
        _ => {
            let buffer = retrieval.into_buffer();
            buffers.push(buffer);
            Ok(())
        },
    }
}

} // verus!
