//! The streaming write chain.
//!
//! When the engine chooses the streaming path it feeds byte chunks into a
//! chain of write sinks. Each stage owns a user-supplied transform and a
//! handle on the next sink; the transform forwards or withholds bytes and
//! must close what it owns. `WriteStream` models the downstream sink the
//! engine supplies: it records every byte it accepts and every close call,
//! which is exactly what the chain's obligations speak about.

use crate::status::{ERROR, OK};
use vstd::prelude::*;

verus! {

/// A user-supplied streaming transform: one stage of the write chain.
///
/// The engine calls `write` with consecutive chunks of the file's content
/// and `close` exactly once when no chunk remains. Chunk boundaries carry no
/// meaning; a transform that forwards bytes must write them to the next sink
/// itself and close that sink when it is done.
pub trait Stream {
    /// Consume one chunk. On success the result reports how many of the
    /// chunk's bytes were consumed; on failure it carries a message for the
    /// engine's last-error slot.
    fn write(&mut self, buf: &Vec<u8>) -> (r: Result<usize, String>)
        ensures
            (r matches Ok(n) ==> n <= buf@.len()),
    ;

    /// Flush whatever is held back and finish; called exactly once.
    fn close(&mut self) -> i32;

    /// The downstream model sink this transform forwards into, so that
    /// the shell owning the chain can deliver the forwarded bytes to the
    /// engine's real next sink; absent for a transform that forwards
    /// nothing.
    fn downstream(&mut self) -> Option<&mut WriteStream> {
        None
    }
}

/// The downstream write sink the engine hands to a streaming filter.
///
/// It stands for the next stage of the engine's chain: bytes written to it
/// have left this filter for good. The model records the bytes it accepted
/// and how often it was closed, so that a transform's forwarding and closing
/// duties can be stated exactly.
pub struct WriteStream {
    data: Vec<u8>,
    closes: u64,
}

impl WriteStream {
    /// The bytes this sink has accepted, in order.
    pub closed spec fn spec_data(&self) -> Seq<u8> {
        self.data@
    }

    /// How often this sink has been closed.
    pub closed spec fn spec_closes(&self) -> int {
        self.closes as int
    }

    /// A fresh sink: nothing accepted, never closed.
    pub fn new() -> (r: Self)
        ensures
            r.spec_data() == Seq::<u8>::empty(),
            r.spec_closes() == 0,
    {
        WriteStream { data: Vec::new(), closes: 0 }
    }

    /// The bytes accepted so far.
    pub fn data(&self) -> (r: &Vec<u8>)
        ensures
            r@ == self.spec_data(),
    {
        &self.data
    }

    /// The number of close calls so far.
    pub fn closes(&self) -> (r: u64)
        ensures
            r == self.spec_closes(),
    {
        self.closes
    }

    /// Drain what the sink has accepted: the shell delivers exactly these
    /// bytes to the engine's real next sink, and the model starts empty
    /// again.
    pub fn take_pending(&mut self) -> (r: Vec<u8>)
        ensures
            r@ == old(self).spec_data(),
            final(self).spec_data() == Seq::<u8>::empty(),
            final(self).spec_closes() == old(self).spec_closes(),
    {
        let mut taken: Vec<u8> = Vec::new();
        core::mem::swap(&mut self.data, &mut taken);
        taken
    }
}

impl Stream for WriteStream {
    /// The engine's sink accepts every chunk whole.
    fn write(&mut self, buf: &Vec<u8>) -> (r: Result<usize, String>)
        ensures
            final(self).spec_data() == old(self).spec_data() + buf@,
            final(self).spec_closes() == old(self).spec_closes(),
            r == Ok::<usize, String>(buf@.len() as usize),
    {
        self.data.extend_from_slice(buf.as_slice());
        Ok(buf.len())
    }

    /// Closing the engine's sink is counted and always succeeds.
    fn close(&mut self) -> (r: i32)
        ensures
            final(self).spec_data() == old(self).spec_data(),
            old(self).spec_closes() < u64::MAX ==> final(self).spec_closes() == old(
                self,
            ).spec_closes() + 1,
            old(self).spec_closes() == u64::MAX ==> final(self).spec_closes() == u64::MAX,
            r == OK,
    {
        if self.closes < u64::MAX {
            self.closes = self.closes + 1;
        }
        OK
    }
}

/// A transform that forwards every byte unchanged to the next sink.
pub struct Passthrough {
    next: WriteStream,
}

impl Passthrough {
    /// The sink this stage forwards to.
    pub closed spec fn spec_next(&self) -> WriteStream {
        self.next
    }

    /// Wrap the next sink; nothing is buffered, nothing is held back.
    pub fn new(next: WriteStream) -> (r: Self)
        ensures
            r.spec_next() == next,
    {
        Passthrough { next }
    }

    /// Hand the sink back, for inspection after the chain is done.
    pub fn into_next(self) -> (r: WriteStream)
        ensures
            r == self.spec_next(),
    {
        self.next
    }
}

impl Stream for Passthrough {
    /// Every chunk goes straight through: the next sink's bytes grow by
    /// exactly this chunk.
    fn write(&mut self, buf: &Vec<u8>) -> (r: Result<usize, String>)
        ensures
            final(self).spec_next().spec_data() == old(self).spec_next().spec_data() + buf@,
            final(self).spec_next().spec_closes() == old(self).spec_next().spec_closes(),
            r == Ok::<usize, String>(buf@.len() as usize),
    {
        self.next.write(buf)
    }

    /// Nothing is buffered, so closing before any write still only closes
    /// the next sink, exactly once, and forwards no further byte.
    fn close(&mut self) -> (r: i32)
        ensures
            final(self).spec_next().spec_data() == old(self).spec_next().spec_data(),
            old(self).spec_next().spec_closes() < u64::MAX ==> final(self).spec_next().spec_closes()
                == old(self).spec_next().spec_closes() + 1,
            old(self).spec_next().spec_closes() == u64::MAX ==> final(self).spec_next().spec_closes()
                == u64::MAX,
            r == OK,
    {
        self.next.close()
    }

    /// The sink this stage forwards into.
    fn downstream(&mut self) -> Option<&mut WriteStream> {
        Some(&mut self.next)
    }
}

/// One heap-held link of the engine's write chain: the transform a filter
/// returned, wrapped for the engine's write/close/free protocol.
pub struct StreamLink<S: Stream> {
    inner: S,
}

impl<S: Stream> StreamLink<S> {
    /// The transform this link owns.
    pub closed spec fn spec_inner(&self) -> S {
        self.inner
    }

    /// Wrap a transform the filter returned.
    pub fn new(inner: S) -> (r: Self)
        ensures
            r.spec_inner() == inner,
    {
        StreamLink { inner }
    }

    /// Reclaim the transform, as the engine's free call releases the
    /// link.
    pub fn into_inner(self) -> (r: S)
        ensures
            r == self.spec_inner(),
    {
        self.inner
    }

    /// The engine wrote one chunk into the chain. A sink write answers
    /// zero on success; a failing one deposits the transform's message in
    /// the engine's last-error slot and answers the generic error code.
    pub fn write(&mut self, data: &Vec<u8>, last_error: &mut Option<String>) -> (r: i32)
        ensures
            r == OK || r == ERROR,
            r == OK ==> *final(last_error) == *old(last_error),
            r == ERROR ==> (*final(last_error)) is Some,
    {
        match self.inner.write(data) {
            Ok(_) => OK,
            Err(msg) => {
                *last_error = Some(msg);
                ERROR
            },
        }
    }

    /// The engine closed the chain: delegate to the transform, which must
    /// flush what it held back and close the sink it owns.
    pub fn close(&mut self) -> i32 {
        self.inner.close()
    }

    /// The transform's downstream model sink, for the shell that delivers
    /// its bytes to the engine's real next sink. What it holds is the
    /// transform's own state; nothing more can be said link-generically.
    pub fn downstream(&mut self) -> Option<&mut WriteStream> {
        self.inner.downstream()
    }
}

/// Decision part of a write to the engine's downstream sink: an absent
/// write slot swallows the bytes and reports nothing written; a wired one
/// consumed the whole chunk exactly when it answered zero, and anything
/// else is a failure to surface.
pub fn sink_write_result(has_write_fn: bool, ret: i32, len: usize) -> (r: Result<usize, String>)
    ensures
        !has_write_fn ==> r == Ok::<usize, String>(0),
        has_write_fn && ret == 0 ==> r == Ok::<usize, String>(len),
        has_write_fn && ret != 0 ==> r is Err,
{
    if !has_write_fn {
        Ok(0)
    } else if ret == 0 {
        Ok(len)
    } else {
        Err("the downstream sink refused the write".to_owned())
    }
}

/// Decision part of closing the engine's downstream sink: an absent close
/// slot closes trivially with success; a wired one answers with its own
/// code, verbatim.
pub fn sink_close_result(has_close_fn: bool, ret: i32) -> (r: i32)
    ensures
        !has_close_fn ==> r == OK,
        has_close_fn ==> r == ret,
{
    if has_close_fn {
        ret
    } else {
        OK
    }
}

/// The `next` argument a filter's stream hook receives: absent exactly
/// when the engine supplied no next sink, else a fresh model of that
/// sink, with nothing accepted and never closed.
pub fn next_sink_arg(has_next: bool) -> (r: Option<WriteStream>)
    ensures
        has_next <==> r is Some,
        (match r {
            Some(s) => s.spec_data() == Seq::<u8>::empty() && s.spec_closes() == 0,
            None => true,
        }),
{
    if has_next {
        Some(WriteStream::new())
    } else {
        None
    }
}

/// The concatenation of a sequence of chunks.
pub open spec fn flatten_chunks(chunks: Seq<Seq<u8>>) -> Seq<u8>
    decreases chunks.len(),
{
    if chunks.len() == 0 {
        Seq::<u8>::empty()
    } else {
        chunks[0] + flatten_chunks(chunks.drop_first())
    }
}

/// Feed a whole sequence of chunks through a pass-through stage: the next
/// sink receives exactly their concatenation, and is not closed.
pub fn write_chunks(stage: &mut Passthrough, chunks: &Vec<Vec<u8>>) -> (r: i32)
    ensures
        final(stage).spec_next().spec_data() == old(stage).spec_next().spec_data()
            + flatten_chunks(chunks@.map_values(|c: Vec<u8>| c@)),
        final(stage).spec_next().spec_closes() == old(stage).spec_next().spec_closes(),
        r == OK,
{
    let ghost all = chunks@.map_values(|c: Vec<u8>| c@);
    let mut i: usize = 0;
    while i < chunks.len()
        invariant
            i <= chunks@.len(),
            all == chunks@.map_values(|c: Vec<u8>| c@),
            stage.spec_next().spec_data() == old(stage).spec_next().spec_data() + flatten_chunks(
                all.take(i as int),
            ),
            stage.spec_next().spec_closes() == old(stage).spec_next().spec_closes(),
        decreases chunks@.len() - i,
    {
        proof {
            lemma_flatten_chunks_snoc(all, i as int);
        }
        let _ = stage.write(&chunks[i]);
        i = i + 1;
    }
    proof {
        assert(all.take(chunks@.len() as int) =~= all);
    }
    OK
}

/// Appending one more chunk extends the concatenation by that chunk.
proof fn lemma_flatten_chunks_snoc(chunks: Seq<Seq<u8>>, i: int)
    requires
        0 <= i < chunks.len(),
    ensures
        flatten_chunks(chunks.take(i + 1)) == flatten_chunks(chunks.take(i)) + chunks[i],
    decreases i,
{
    if i == 0 {
        assert(chunks.take(1) =~= seq![chunks[0]]);
        assert(chunks.take(1).drop_first() =~= Seq::<Seq<u8>>::empty());
        assert(chunks.take(0) =~= Seq::<Seq<u8>>::empty());
        assert(flatten_chunks(chunks.take(1)) == chunks[0] + flatten_chunks(
            Seq::<Seq<u8>>::empty(),
        ));
        assert(chunks[0] + Seq::<u8>::empty() =~= chunks[0]);
        assert(flatten_chunks(chunks.take(0)) + chunks[0] =~= chunks[0]);
    } else {
        lemma_flatten_chunks_snoc(chunks.drop_first(), i - 1);
        assert(chunks.take(i + 1).drop_first() =~= chunks.drop_first().take(i));
        assert(chunks.take(i).drop_first() =~= chunks.drop_first().take(i - 1));
        assert(chunks.take(i + 1)[0] == chunks[0]);
        assert(chunks.take(i)[0] == chunks[0]);
        assert(chunks.drop_first()[i - 1] == chunks[i]);
        assert(flatten_chunks(chunks.take(i + 1)) == chunks[0] + flatten_chunks(
            chunks.drop_first().take(i),
        ));
        assert(flatten_chunks(chunks.take(i)) + chunks[i] == chunks[0] + (flatten_chunks(
            chunks.drop_first().take(i - 1),
        ) + chunks[i]));
        assert(chunks[0] + (flatten_chunks(chunks.drop_first().take(i - 1)) + chunks[i]) =~= chunks[0]
            + flatten_chunks(chunks.drop_first().take(i)));
    }
}

/// Chunk boundaries carry no meaning: two chunkings of the same content,
/// written through a pass-through stage from the same starting sink, leave
/// the next sink with the same bytes.
pub proof fn lemma_chunking_independent(base: Seq<u8>, c1: Seq<Seq<u8>>, c2: Seq<Seq<u8>>)
    requires
        flatten_chunks(c1) == flatten_chunks(c2),
    ensures
        base + flatten_chunks(c1) == base + flatten_chunks(c2),
{
}

} // verus!
