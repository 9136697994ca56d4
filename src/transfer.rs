//! One request: connection failures are absorbed as a zero-byte result,
//! failures while the body streams are fatal for the worker.
use vstd::prelude::*;

verus! {

/// Total number of bytes in a sequence of chunks.
pub open spec fn total_len(chunks: Seq<Seq<u8>>) -> nat
    decreases chunks.len(),
{
    if chunks.len() == 0 {
        0
    } else {
        total_len(chunks.drop_last()) + chunks.last().len()
    }
}

/// The bytes of a sequence of chunks, one after another.
pub open spec fn concat(chunks: Seq<Seq<u8>>) -> Seq<u8>
    decreases chunks.len(),
{
    if chunks.len() == 0 {
        Seq::empty()
    } else {
        concat(chunks.drop_last()) + chunks.last()
    }
}

/// What one request came to.
#[derive(Debug, Clone, PartialEq, Eq)]
pub enum RequestOutcome {
    /// The request ended; `bytes` counts the body that was drained (zero
    /// where the connection could not be made).
    Completed { bytes: u64 },
    /// Reading the body failed after the response had started.
    Fatal { detail: String },
}

/// The outcome recorded for a request whose connection failed.
pub open spec fn connect_failure_outcome() -> RequestOutcome {
    RequestOutcome::Completed { bytes: 0 }
}

/// The body of one response, counted as its chunks arrive.
pub struct Transfer {
    received: u64,
    chunks: Ghost<Seq<Seq<u8>>>,
}

impl Transfer {
    /// The chunks received so far, in order.
    pub closed spec fn chunks(&self) -> Seq<Seq<u8>> {
        self.chunks@
    }

    /// The count kept so far.
    pub closed spec fn count(&self) -> nat {
        self.received as nat
    }

    pub closed spec fn wf(&self) -> bool {
        self.received as nat == total_len(self.chunks@)
    }

    /// A transfer that has received nothing.
    pub fn new() -> (r: Transfer)
        ensures
            r.wf(),
            r.chunks() == Seq::<Seq<u8>>::empty(),
            r.count() == 0,
    {
        Transfer { received: 0, chunks: Ghost(Seq::empty()) }
    }

    /// Bytes counted so far.
    pub fn received(&self) -> (r: u64)
        requires
            self.wf(),
        ensures
            r as nat == total_len(self.chunks()),
            r as nat == self.count(),
    {
        self.received
    }

    /// Whether a chunk of `len` more bytes can still be counted in a `u64`.
    pub fn can_take(&self, len: usize) -> (r: bool)
        ensures
            r == (self.count() + len <= u64::MAX),
    {
        len as u64 as usize == len && self.received <= u64::MAX - len as u64
    }

    /// Counts one more chunk of the body.
    pub fn on_chunk(&mut self, chunk: &[u8])
        requires
            old(self).wf(),
            old(self).count() + chunk@.len() <= u64::MAX,
        ensures
            final(self).wf(),
            final(self).chunks() == old(self).chunks().push(chunk@),
            final(self).count() == old(self).count() + chunk@.len(),
    {
        self.received = self.received + chunk.len() as u64;
        self.chunks = Ghost(self.chunks@.push(chunk@));
        assert(self.chunks@.drop_last() =~= old(self).chunks@);
    }

    /// The body has ended: the outcome is the number of bytes received.
    pub fn finish(self) -> (r: RequestOutcome)
        requires
            self.wf(),
        ensures
            r == (RequestOutcome::Completed { bytes: total_len(self.chunks()) as u64 }),
    {
        RequestOutcome::Completed { bytes: self.received }
    }

    /// Reading the body failed: the outcome is fatal, whatever was received.
    pub fn body_failed(self, detail: String) -> (r: RequestOutcome)
        ensures
            r == (RequestOutcome::Fatal { detail }),
    {
        RequestOutcome::Fatal { detail }
    }
}

/// The connection could not be made: the failure is absorbed and the request
/// counts as zero bytes.
pub fn connect_failed() -> (r: RequestOutcome)
    ensures
        r == connect_failure_outcome(),
{
    RequestOutcome::Completed { bytes: 0 }
}

/// Splitting a body into chunks does not change the count: whatever the
/// chunking, the chunk lengths add up to the length of the whole body.
pub proof fn lemma_count_any_chunking(chunks: Seq<Seq<u8>>, payload: Seq<u8>)
    requires
        concat(chunks) == payload,
    ensures
        total_len(chunks) == payload.len(),
    decreases chunks.len(),
{
    if chunks.len() > 0 {
        lemma_count_any_chunking(chunks.drop_last(), concat(chunks.drop_last()));
    }
}

} // verus!
