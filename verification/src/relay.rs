//! The log relay: from the bytes of a pipe to log records.
//!
//! The engine writes its log output to the write end of a pipe. A worker
//! reads the other end chunk by chunk; what it does with each read is
//! decided here.

use crate::error::OsError;
use crate::text::{decode_lossy, utf8_lossy};
use vstd::prelude::*;
use vstd::utf8::{decode_utf8, valid_utf8};

verus! {

/// The most bytes that the relay reads at once.
pub const LOG_CHUNK_LEN: usize = 2048;

/// A log record.
#[derive(Debug, PartialEq, Eq)]
pub enum Record {
    /// A chunk of the engine's log output, as text.
    Info(String),
    /// The failure that ended the relay.
    Error(OsError),
}

/// What a `Record` stands for.
pub ghost enum RecordView {
    Info(Seq<char>),
    Error(OsError),
}

impl View for Record {
    type V = RecordView;

    open spec fn view(&self) -> RecordView {
        match self {
            Record::Info(text) => RecordView::Info(text@),
            Record::Error(failure) => RecordView::Error(*failure),
        }
    }
}

/// The worker that owns the read end of the log pipe.
#[derive(Debug)]
pub struct LogRelay {
    fd: i32,
}

impl View for LogRelay {
    type V = i32;

    closed spec fn view(&self) -> i32 {
        self.fd
    }
}

/// What the relay does after a read.
#[derive(Debug)]
pub enum Relayed {
    /// It emits the record and reads again.
    Record(Record, LogRelay),
    /// It emits the record, if there is one, closes the read end `close` and
    /// stops.
    End { record: Option<Record>, close: i32 },
}

/// What one read of the pipe gave: the bytes read, none at the end of the
/// stream, or the failure.
pub type ReadView = Result<Seq<u8>, OsError>;

/// What `read` stands for.
pub open spec fn read_view(read: Result<&[u8], OsError>) -> ReadView {
    match read {
        Ok(chunk) => Ok(chunk@),
        Err(failure) => Err(failure),
    }
}

/// The record that a read gives, if it gives one: a chunk that is not empty
/// gives its lenient decoding, whole and as one record, and a failure gives
/// an error record.
pub open spec fn record_of(read: ReadView) -> Option<RecordView> {
    match read {
        Ok(chunk) => if chunk.len() == 0 {
            None
        } else {
            Some(RecordView::Info(utf8_lossy(chunk)))
        },
        Err(failure) => Some(RecordView::Error(failure)),
    }
}

/// Whether the relay reads again after a read: it does after a chunk that is
/// not empty, and stops at the end of the stream and at a failure.
pub open spec fn reads_on(read: ReadView) -> bool {
    read matches Ok(chunk) && chunk.len() > 0
}

impl LogRelay {
    /// The relay that owns the read end `fd`.
    pub fn new(fd: i32) -> (relay: LogRelay)
        ensures
            relay@ == fd,
    {
        LogRelay { fd }
    }

    /// The read end to read from.
    pub fn fd(&self) -> (fd: i32)
        ensures
            fd == self@,
    {
        self.fd
    }

    /// Takes what a read of at most `LOG_CHUNK_LEN` bytes gave.
    pub fn relay(self, read: Result<&[u8], OsError>) -> (relayed: Relayed)
        ensures
            reads_on(read_view(read)) <==> relayed is Record,
            relayed matches Relayed::Record(record, relay) ==> relay@ == self@ && Some(record@)
                == record_of(read_view(read)),
            relayed matches Relayed::End { record, close } ==> close == self@ && record_view(
                record,
            ) == record_of(read_view(read)),
            relayed matches Relayed::Record(record, _) ==> (valid_utf8(read->Ok_0@) ==> record@
                == RecordView::Info(decode_utf8(read->Ok_0@))),
    {
        match read {
            Ok(chunk) => {
                if chunk.len() == 0 {
                    Relayed::End { record: None, close: self.fd }
                } else {
                    Relayed::Record(Record::Info(decode_lossy(chunk)), self)
                }
            },
            Err(failure) => Relayed::End { record: Some(Record::Error(failure)), close: self.fd },
        }
    }
}

/// What a record that may be missing stands for.
pub open spec fn record_view(record: Option<Record>) -> Option<RecordView> {
    match record {
        Some(record) => Some(record@),
        None => None,
    }
}

/// The work of a relay over a sequence of reads.
pub ghost struct Relaying {
    /// The records emitted, in their order.
    pub records: Seq<RecordView>,
    /// How many of the reads the relay took.
    pub reads: nat,
    /// Whether the relay has stopped and closed its read end.
    pub stopped: bool,
}

/// The work of a relay when `reads` come in, one after the other. Reads that
/// come after it has stopped are not taken.
pub open spec fn relaying(reads: Seq<ReadView>) -> Relaying
    decreases reads.len(),
{
    if reads.len() == 0 {
        Relaying { records: seq![], reads: 0, stopped: false }
    } else {
        let first = match record_of(reads[0]) {
            Some(record) => seq![record],
            None => seq![],
        };
        if reads_on(reads[0]) {
            let rest = relaying(reads.drop_first());
            Relaying { records: first + rest.records, reads: 1 + rest.reads, stopped: rest.stopped }
        } else {
            Relaying { records: first, reads: 1, stopped: true }
        }
    }
}

/// The reads that a writer causes who writes `chunks` and then closes the
/// pipe, followed by `after`.
pub open spec fn reads_of(chunks: Seq<Seq<u8>>, after: Seq<ReadView>) -> Seq<ReadView> {
    Seq::new(chunks.len(), |i: int| Ok::<Seq<u8>, OsError>(chunks[i])) + seq![
        Ok::<Seq<u8>, OsError>(seq![]),
    ] + after
}

/// Chunks in, records out: when the reads give N chunks, none of them empty,
/// and then the end of the stream, the relay emits exactly N records, the
/// i-th being the lenient decoding of the i-th chunk, and then stops,
/// whatever might be read after that.
pub proof fn one_record_per_chunk(chunks: Seq<Seq<u8>>, after: Seq<ReadView>)
    requires
        forall|i: int| 0 <= i < chunks.len() ==> (#[trigger] chunks[i]).len() > 0,
    ensures
        relaying(reads_of(chunks, after)).records.len() == chunks.len(),
        forall|i: int|
            0 <= i < chunks.len() ==> relaying(reads_of(chunks, after)).records[i]
                == RecordView::Info(utf8_lossy(#[trigger] chunks[i])),
        relaying(reads_of(chunks, after)).stopped,
        relaying(reads_of(chunks, after)).reads == chunks.len() + 1,
    decreases chunks.len(),
{
    let reads = reads_of(chunks, after);
    if chunks.len() == 0 {
        assert(reads[0] == Ok::<Seq<u8>, OsError>(seq![]));
    } else {
        let rest = chunks.drop_first();
        assert(reads[0] == Ok::<Seq<u8>, OsError>(chunks[0]));
        assert(reads.drop_first() =~= reads_of(rest, after));
        one_record_per_chunk(rest, after);
        let done = relaying(reads);
        let tail = relaying(reads_of(rest, after));
        assert(done.records =~= seq![RecordView::Info(utf8_lossy(chunks[0]))] + tail.records);
        assert forall|i: int| 0 <= i < chunks.len() implies done.records[i] == RecordView::Info(
            utf8_lossy(#[trigger] chunks[i]),
        ) by {
            if i > 0 {
                assert(chunks[i] == rest[i - 1]);
                assert(done.records[i] == tail.records[i - 1]);
            }
        }
    }
}

/// A failed read ends the relay with one error record: after N chunks, none
/// of them empty, a failure adds the record of that failure and stops the
/// relay.
pub proof fn failure_ends_relay(chunks: Seq<Seq<u8>>, failure: OsError, after: Seq<ReadView>)
    requires
        forall|i: int| 0 <= i < chunks.len() ==> (#[trigger] chunks[i]).len() > 0,
    ensures
        ({
            let reads = Seq::new(chunks.len(), |i: int| Ok::<Seq<u8>, OsError>(chunks[i]))
                + seq![Err::<Seq<u8>, OsError>(failure)] + after;
            &&& relaying(reads).records.len() == chunks.len() + 1
            &&& relaying(reads).records.last() == RecordView::Error(failure)
            &&& relaying(reads).stopped
            &&& relaying(reads).reads == chunks.len() + 1
        }),
    decreases chunks.len(),
{
    let reads = Seq::new(chunks.len(), |i: int| Ok::<Seq<u8>, OsError>(chunks[i])) + seq![
        Err::<Seq<u8>, OsError>(failure),
    ] + after;
    if chunks.len() == 0 {
        assert(reads[0] == Err::<Seq<u8>, OsError>(failure));
    } else {
        let rest = chunks.drop_first();
        let rest_reads = Seq::new(rest.len(), |i: int| Ok::<Seq<u8>, OsError>(rest[i])) + seq![
            Err::<Seq<u8>, OsError>(failure),
        ] + after;
        assert(reads[0] == Ok::<Seq<u8>, OsError>(chunks[0]));
        assert(reads.drop_first() =~= rest_reads);
        failure_ends_relay(rest, failure, after);
        let tail = relaying(rest_reads);
        assert(relaying(reads).records =~= seq![RecordView::Info(utf8_lossy(chunks[0]))]
            + tail.records);
    }
}

} // verus!
