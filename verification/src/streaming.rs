//! The byte-stream abstraction: data in transit as an ordered, finite,
//! single-pass sequence of fallible chunks.
//!
//! A [`ByteStream`] is produced by a download capability and consumed exactly
//! once, strictly forward, by an upload capability. Each element either
//! carries a chunk of payload bytes or records a read failure observed
//! mid-stream; after the first failure no further payload is delivered.
//!
//! A [`ChunkSink`] models the destination of an upload: the bytes written so
//! far, in arrival order, and whether the destination handle has been
//! closed. [`run_transfer`] drives a stream into a sink chunk by chunk and
//! is the verified heart of every pairing: on success the sink has received
//! exactly the stream's payload, in order, with no duplication or loss, and
//! the sink is closed on success and failure alike.

use vstd::prelude::*;
use vstd::string::StringExecFns;
use crate::errors::{AppError, ErrorKind};

verus! {

/// One element of a byte stream: a chunk of payload bytes, or a read
/// failure observed at this position.
#[derive(Debug, PartialEq, Clone)]
pub enum StreamItem {
    Data(Vec<u8>),
    ReadError(String),
}

/// Holds when every element of the stream is a payload chunk, i.e. the
/// stream was read to its end without a failure.
pub open spec fn all_data(items: Seq<StreamItem>) -> bool {
    forall|i: int| 0 <= i < items.len() ==> items[i] is Data
}

/// The payload a consumer observes: the concatenation, in order, of the
/// chunks delivered before the first read failure (all chunks, if none
/// fails).
pub open spec fn payload(items: Seq<StreamItem>) -> Seq<u8>
    decreases items.len(),
{
    if items.len() == 0 {
        Seq::empty()
    } else {
        match items[0] {
            StreamItem::Data(chunk) => chunk@ + payload(items.drop_first()),
            StreamItem::ReadError(_) => Seq::empty(),
        }
    }
}

/// The message of the first read failure in the stream, if any.
pub open spec fn first_error(items: Seq<StreamItem>) -> Option<Seq<char>>
    decreases items.len(),
{
    if items.len() == 0 {
        None
    } else {
        match items[0] {
            StreamItem::Data(_) => first_error(items.drop_first()),
            StreamItem::ReadError(msg) => Some(msg@),
        }
    }
}

/// Appending one more payload chunk to an unfailed stream extends the
/// payload by exactly that chunk's bytes.
pub proof fn lemma_payload_push_data(items: Seq<StreamItem>, item: StreamItem)
    requires
        all_data(items),
        item is Data,
    ensures
        payload(items.push(item)) == payload(items) + item->Data_0@,
    decreases items.len(),
{
    if items.len() == 0 {
        let pushed = items.push(item);
        assert(pushed[0] == item);
        assert(pushed.drop_first() =~= Seq::<StreamItem>::empty());
        assert(payload(pushed) == item->Data_0@ + payload(Seq::<StreamItem>::empty()));
        assert(payload(pushed) =~= item->Data_0@);
        assert(payload(items) + item->Data_0@ =~= item->Data_0@);
    } else {
        assert(items[0] is Data);
        assert(items.push(item)[0] == items[0]);
        assert(items.push(item).drop_first() =~= items.drop_first().push(item));
        assert forall|i: int| 0 <= i < items.drop_first().len() implies items.drop_first()[i] is Data by {
            assert(items[i + 1] is Data);
        }
        lemma_payload_push_data(items.drop_first(), item);
        assert(payload(items.push(item)) =~= payload(items) + item->Data_0@);
    }
}

/// The payload of a stream whose element at position `i` is its first read
/// failure is exactly the payload of the chunks before `i`: the failure cuts
/// the stream off.
pub proof fn lemma_payload_stops_at_error(items: Seq<StreamItem>, i: int)
    requires
        0 <= i < items.len(),
        all_data(items.take(i)),
        items[i] is ReadError,
    ensures
        payload(items) == payload(items.take(i)),
        first_error(items) == Some(items[i]->ReadError_0@),
    decreases i,
{
    if i == 0 {
        assert(items[0] is ReadError);
        assert(payload(items.take(0)) =~= Seq::<u8>::empty());
    } else {
        assert(items.take(i)[0] == items[0]);
        assert(items[0] is Data);
        assert forall|j: int| 0 <= j < i - 1 implies #[trigger] items.drop_first().take(i - 1)[j] is Data by {
            assert(items.take(i)[j + 1] is Data);
        }
        assert(items.drop_first()[i - 1] == items[i]);
        lemma_payload_stops_at_error(items.drop_first(), i - 1);
        assert(items.take(i)[0] == items[0]);
        assert(items.take(i).drop_first() =~= items.drop_first().take(i - 1));
        assert(payload(items) =~= payload(items.take(i)));
    }
}

/// The concatenation of a sequence of chunks, in order.
pub open spec fn flatten_bytes(chunks: Seq<Seq<u8>>) -> Seq<u8>
    decreases chunks.len(),
{
    if chunks.len() == 0 {
        Seq::empty()
    } else {
        chunks[0] + flatten_bytes(chunks.drop_first())
    }
}

/// Law (round trip): a stream that delivers a known sequence of chunks and
/// ends without a failure carries as payload exactly the concatenation of
/// those chunks — in order, with no duplication and no loss. Hence driving
/// such a stream into a sink reproduces the downloaded bytes at the
/// destination exactly.
pub proof fn lemma_round_trip(items: Seq<StreamItem>, chunks: Seq<Seq<u8>>)
    requires
        items.len() == chunks.len(),
        forall|i: int|
            #![trigger items[i]]
            0 <= i < items.len() ==> items[i] is Data && items[i]->Data_0@ == chunks[i],
    ensures
        all_data(items),
        payload(items) == flatten_bytes(chunks),
    decreases items.len(),
{
    if items.len() > 0 {
        assert(items[0] is Data);
        assert forall|i: int|
            #![trigger items.drop_first()[i]]
            0 <= i < items.drop_first().len() implies items.drop_first()[i] is Data
                && items.drop_first()[i]->Data_0@ == chunks.drop_first()[i] by {
            assert(items[i + 1] is Data && items[i + 1]->Data_0@ == chunks[i + 1]);
        }
        lemma_round_trip(items.drop_first(), chunks.drop_first());
        assert(payload(items) == items[0]->Data_0@ + payload(items.drop_first()));
        assert(items[0]->Data_0@ == chunks[0]);
    }
}

/// A finite byte stream: the elements still to be consumed, in order.
///
/// Ownership of the stream passes to its consumer, which reads it forward
/// exactly once; there is no seeking and no re-read.
#[derive(Debug)]
pub struct ByteStream {
    pub items: Vec<StreamItem>,
}

impl ByteStream {
    /// Builds a stream that delivers the given chunks, in order, with no
    /// failure.
    pub fn from_chunks(chunks: Vec<Vec<u8>>) -> (s: ByteStream)
        ensures
            s.items@.len() == chunks@.len(),
            forall|i: int| 0 <= i < chunks@.len() ==> s.items@[i] == StreamItem::Data(chunks@[i]),
            all_data(s.items@),
    {
        let ghost orig = chunks@;
        let mut chunks = chunks;
        let mut items: Vec<StreamItem> = Vec::new();
        while chunks.len() > 0
            invariant
                items@.len() + chunks@.len() == orig.len(),
                chunks@ =~= orig.skip(items@.len() as int),
                forall|i: int| 0 <= i < items@.len() ==> items@[i] == StreamItem::Data(orig[i]),
            decreases chunks@.len(),
        {
            let c = chunks.remove(0);
            proof {
                assert(c == orig[items@.len() as int]);
            }
            items.push(StreamItem::Data(c));
            proof {
                assert(chunks@ =~= orig.skip(items@.len() as int));
            }
        }
        ByteStream { items }
    }

    /// Consumes and returns the next element of the stream, or `None` once
    /// the stream is exhausted. Consumption is strictly forward: a returned
    /// element is gone from the stream.
    pub fn next_item(&mut self) -> (r: Option<StreamItem>)
        ensures
            old(self).items@.len() == 0 ==> r is None && final(self).items@ == old(self).items@,
            old(self).items@.len() > 0 ==> r == Some(old(self).items@[0])
                && final(self).items@ == old(self).items@.drop_first(),
    {
        if self.items.len() == 0 {
            None
        } else {
            let item = self.items.remove(0);
            proof {
                assert(self.items@ =~= old(self).items@.drop_first());
            }
            Some(item)
        }
    }
}

/// The destination side of an upload: the bytes written so far, in arrival
/// order, and whether the destination handle has been closed. Once closed,
/// a sink accepts no further writes.
#[derive(Debug)]
pub struct ChunkSink {
    pub written: Vec<u8>,
    pub closed: bool,
}

impl ChunkSink {
    /// A fresh, open sink holding no bytes. Creating a sink for a
    /// destination that already holds data models create-or-overwrite:
    /// earlier contents do not survive.
    pub fn new() -> (s: ChunkSink)
        ensures
            s.written@ == Seq::<u8>::empty(),
            !s.closed,
    {
        ChunkSink { written: Vec::new(), closed: false }
    }

    /// Appends one chunk's bytes to the sink, in order.
    pub fn write_chunk(&mut self, chunk: &Vec<u8>)
        requires
            !old(self).closed,
        ensures
            !final(self).closed,
            final(self).written@ == old(self).written@ + chunk@,
    {
        let mut j: usize = 0;
        while j < chunk.len()
            invariant
                j <= chunk@.len(),
                self.closed == old(self).closed,
                self.written@ == old(self).written@ + chunk@.take(j as int),
            decreases chunk@.len() - j,
        {
            let b = chunk[j];
            self.written.push(b);
            proof {
                assert(chunk@.take(j as int + 1) =~= chunk@.take(j as int).push(chunk@[j as int]));
                assert(self.written@ =~= old(self).written@ + chunk@.take(j as int + 1));
            }
            j += 1;
        }
        proof {
            assert(chunk@.take(chunk@.len() as int) =~= chunk@);
        }
    }

    /// Closes the destination handle. The bytes already written stay as
    /// they are.
    pub fn close(&mut self)
        ensures
            final(self).closed,
            final(self).written@ == old(self).written@,
    {
        self.closed = true;
    }
}

/// Drains a byte stream into a sink, chunk by chunk, in arrival order,
/// without buffering the stream.
///
/// The sink is closed on every path, success and failure alike. The call
/// succeeds exactly when the stream delivers all its chunks without a read
/// failure, and then the sink has received exactly the stream's payload —
/// in order, with no duplication and no loss. A mid-stream read failure
/// surfaces as a `StreamReadFailure` naming the failure, with every chunk
/// delivered before it already written.
pub fn run_transfer(stream: ByteStream, sink: &mut ChunkSink) -> (r: Result<(), AppError>)
    requires
        !old(sink).closed,
    ensures
        final(sink).closed,
        final(sink).written@ == old(sink).written@ + payload(stream.items@),
        r is Ok <==> all_data(stream.items@),
        r matches Err(e) ==> e.kind == ErrorKind::StreamReadFailure
            && first_error(stream.items@) is Some
            && e.details@ == "Error streaming object: "@ + first_error(stream.items@)->Some_0,
{
    let n = stream.items.len();
    let mut i: usize = 0;
    while i < n
        invariant
            n == stream.items@.len(),
            i <= n,
            all_data(stream.items@.take(i as int)),
            !sink.closed,
            sink.written@ == old(sink).written@ + payload(stream.items@.take(i as int)),
        decreases n - i,
    {
        match &stream.items[i] {
            StreamItem::Data(chunk) => {
                sink.write_chunk(chunk);
                proof {
                    assert(stream.items@.take(i as int + 1)
                        =~= stream.items@.take(i as int).push(stream.items@[i as int]));
                    lemma_payload_push_data(stream.items@.take(i as int), stream.items@[i as int]);
                    assert(sink.written@
                        =~= old(sink).written@ + payload(stream.items@.take(i as int + 1)));
                }
                i += 1;
            },
            StreamItem::ReadError(msg) => {
                sink.close();
                let mut details = "Error streaming object: ".to_owned();
                details.append(msg.as_str());
                proof {
                    lemma_payload_stops_at_error(stream.items@, i as int);
                    assert(!all_data(stream.items@));
                }
                return Err(AppError { kind: ErrorKind::StreamReadFailure, details });
            },
        }
    }
    sink.close();
    proof {
        assert(stream.items@.take(n as int) =~= stream.items@);
    }
    Ok(())
}

} // verus!
