//! The accumulation of the consumer's output.

use crate::verdict::{CollectResult, CollectResultView};
use vstd::prelude::*;

verus! {

/// What one read from the consumer's output returned.
#[derive(Debug, PartialEq, Eq)]
pub enum StreamRead {
    /// These bytes; an empty chunk means end of stream.
    Chunk(Vec<u8>),
    /// The stream reached its end.
    EndOfStream,
    /// The read failed; the message is what the operation reported.
    Failed(String),
}

/// The mathematical content of a [`StreamRead`].
pub enum StreamReadView {
    Chunk(Seq<u8>),
    EndOfStream,
    Failed(Seq<char>),
}

impl View for StreamRead {
    type V = StreamReadView;

    open spec fn view(&self) -> StreamReadView {
        match self {
            StreamRead::Chunk(chunk) => StreamReadView::Chunk(chunk@),
            StreamRead::EndOfStream => StreamReadView::EndOfStream,
            StreamRead::Failed(reason) => StreamReadView::Failed(reason@),
        }
    }
}

/// Gathers the consumer's output, chunk by chunk, in the order it is produced.
///
/// The collector does not depend on the relay: output that the consumer emits
/// while the producer is still running is accumulated like any other.
#[derive(Debug, PartialEq, Eq)]
pub struct Collector {
    bytes: Vec<u8>,
}

impl View for Collector {
    type V = Seq<u8>;

    closed spec fn view(&self) -> Seq<u8> {
        self.bytes@
    }
}

/// A collection after one more read: still open, or over.
#[derive(Debug, PartialEq, Eq)]
pub enum Collecting {
    /// The stream goes on; read again.
    More(Collector),
    /// The stream is over; this is the collector's result.
    Done(CollectResult),
}

/// The mathematical content of a [`Collecting`].
pub enum CollectingView {
    More(Seq<u8>),
    Done(CollectResultView),
}

impl View for Collecting {
    type V = CollectingView;

    open spec fn view(&self) -> CollectingView {
        match self {
            Collecting::More(collector) => CollectingView::More(collector@),
            Collecting::Done(result) => CollectingView::Done(result@),
        }
    }
}

/// The collection of `gathered` after one more `read`.
///
/// A chunk is appended behind what was gathered. At the end of the stream the
/// result is the whole output. After a failed read the result is the failure,
/// and the bytes gathered until then are dropped, so that no partial output
/// is ever taken for a result.
pub open spec fn collect_step(gathered: Seq<u8>, read: StreamReadView) -> CollectingView {
    match read {
        StreamReadView::Chunk(chunk) => if chunk.len() > 0 {
            CollectingView::More(gathered + chunk)
        } else {
            CollectingView::Done(CollectResultView::Collected(gathered))
        },
        StreamReadView::EndOfStream => CollectingView::Done(CollectResultView::Collected(gathered)),
        StreamReadView::Failed(reason) => CollectingView::Done(CollectResultView::Failed(reason)),
    }
}

/// The collection of `gathered` after the reads `reads`, one after the other;
/// reads behind the end of the stream count for nothing.
pub open spec fn collect_run(gathered: Seq<u8>, reads: Seq<StreamReadView>) -> CollectingView
    decreases reads.len(),
{
    if reads.len() == 0 {
        CollectingView::More(gathered)
    } else {
        match collect_run(gathered, reads.drop_last()) {
            CollectingView::More(so_far) => collect_step(so_far, reads.last()),
            CollectingView::Done(result) => CollectingView::Done(result),
        }
    }
}

impl Collector {
    /// A collector that holds no byte yet.
    pub fn new() -> (collector: Collector)
        ensures
            collector@ == Seq::<u8>::empty(),
    {
        Collector { bytes: Vec::new() }
    }

    /// The number of bytes collected so far.
    pub fn len(&self) -> (n: usize)
        ensures
            n == self@.len(),
    {
        self.bytes.len()
    }

    /// Takes the result of one read.
    pub fn absorb(self, read: StreamRead) -> (step: Collecting)
        ensures
            step@ == collect_step(self@, read@),
    {
        let mut bytes = self.bytes;
        match read {
            StreamRead::Chunk(chunk) => {
                if chunk.len() > 0 {
                    let mut chunk = chunk;
                    bytes.append(&mut chunk);
                    Collecting::More(Collector { bytes })
                } else {
                    Collecting::Done(CollectResult::Collected(bytes))
                }
            },
            StreamRead::EndOfStream => Collecting::Done(CollectResult::Collected(bytes)),
            StreamRead::Failed(reason) => Collecting::Done(CollectResult::Failed(reason)),
        }
    }
}

/// The concatenation of the chunks among `reads`, in order.
pub open spec fn chunks_of(reads: Seq<StreamReadView>) -> Seq<u8>
    decreases reads.len(),
{
    if reads.len() == 0 {
        Seq::empty()
    } else {
        chunks_of(reads.drop_last()) + match reads.last() {
            StreamReadView::Chunk(chunk) => chunk,
            _ => Seq::empty(),
        }
    }
}

/// A collection that reads nothing but non-empty chunks and then meets the
/// end of the stream yields every byte of every chunk, in the order read.
pub proof fn law_collection_is_complete_and_ordered(chunks: Seq<StreamReadView>)
    requires
        forall|i: int|
            0 <= i < chunks.len() ==> ((#[trigger] chunks[i]) matches StreamReadView::Chunk(chunk)
                && chunk.len() > 0),
    ensures
        collect_run(Seq::empty(), chunks) == CollectingView::More(chunks_of(chunks)),
        collect_run(Seq::empty(), chunks.push(StreamReadView::EndOfStream)) == CollectingView::Done(
            CollectResultView::Collected(chunks_of(chunks)),
        ),
    decreases chunks.len(),
{
    if chunks.len() > 0 {
        law_collection_is_complete_and_ordered(chunks.drop_last());
    }
    assert(chunks.push(StreamReadView::EndOfStream).drop_last() =~= chunks);
    assert(collect_run(Seq::empty(), chunks) == CollectingView::More(chunks_of(chunks)));
}

} // verus!
