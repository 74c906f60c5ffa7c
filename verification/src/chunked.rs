//! One file's chunked transfer as it runs: which chunk to send next, how
//! many uploads are under way, and the envelope of each chunk.
//!
//! The driver asks `next_action`, does what it says (reads the chunk's
//! bytes and posts their envelope, or waits for an upload to end) and
//! reports every upload that has ended with `chunk_finished`.

use vstd::prelude::*;
use crate::chunk::{chunk_count, chunk_span, total_chunks, ChunkSpan};
use crate::dispatch::Dispatch;
use crate::envelope::{base64_fits, base64_standard, ChunkEnvelope};

verus! {

/// Uploads of one file that may run at once, unless the caller says
/// otherwise.
pub const MAX_CONCURRENT_UPLOADS: usize = 32;

/// What the driver of a chunked transfer does next.
#[derive(Debug, Clone, Copy, PartialEq, Eq, Structural)]
pub enum ChunkAction {
    /// Read this piece of the file and post it; a permit was taken for it.
    Send(ChunkSpan),
    /// Every permit is out, or every chunk was started: wait for an upload
    /// to end.
    Wait,
    /// Every chunk was started and every upload has ended.
    Complete,
}

/// What `next_action` answers in a state.
pub open spec fn action_in(state: Dispatch) -> ChunkAction {
    if state.can_start() {
        ChunkAction::Send(
            ChunkSpan {
                chunk_id: state.started as u64,
                offset: crate::chunk::chunk_start(state.chunk_size, state.started) as u64,
                len: crate::chunk::chunk_length(state.file_size, state.chunk_size, state.started)
                    as usize,
            },
        )
    } else if state.running > 0 {
        ChunkAction::Wait
    } else {
        ChunkAction::Complete
    }
}

/// A chunked transfer of one file.
#[derive(Debug)]
pub struct ChunkedUpload {
    file_name: String,
    file_size: u64,
    chunk_size: usize,
    total_chunks: u64,
    max_concurrency: usize,
    next_chunk: u64,
    in_flight: usize,
}

impl View for ChunkedUpload {
    type V = Dispatch;

    closed spec fn view(&self) -> Dispatch {
        Dispatch {
            file_size: self.file_size as nat,
            chunk_size: self.chunk_size as nat,
            limit: self.max_concurrency as nat,
            started: self.next_chunk as nat,
            running: self.in_flight as nat,
        }
    }
}

impl ChunkedUpload {
    #[verifier::type_invariant]
    spec fn inv(self) -> bool {
        &&& self@.wf()
        &&& self.total_chunks == self@.total()
    }

    /// The name under which the chunks are sent.
    pub closed spec fn name(self) -> Seq<char> {
        self.file_name@
    }

    /// A transfer of `file_size` bytes in chunks of `chunk_size`, of which
    /// at most `max_concurrency` are uploaded at once. Nothing is started
    /// yet.
    pub fn new(file_name: String, file_size: u64, chunk_size: usize, max_concurrency: usize) -> (upload:
        Self)
        requires
            chunk_size > 0,
            max_concurrency >= 1,
        ensures
            upload@ == Dispatch::initial(
                file_size as nat,
                chunk_size as nat,
                max_concurrency as nat,
            ),
            upload@.wf(),
            upload.name() == file_name@,
    {
        ChunkedUpload {
            file_name,
            file_size,
            chunk_size,
            total_chunks: total_chunks(file_size, chunk_size),
            max_concurrency,
            next_chunk: 0,
            in_flight: 0,
        }
    }

    /// Says what to do next, and takes a permit when that is to send a
    /// chunk. Chunks come in the order of their ids, each once; no chunk
    /// is handed out while `max_concurrency` uploads are running.
    pub fn next_action(&mut self) -> (action: ChunkAction)
        ensures
            old(self)@.wf(),
            final(self)@.wf(),
            final(self)@.running <= final(self)@.limit,
            action == action_in(old(self)@),
            final(self)@ == old(self)@.step(crate::dispatch::DispatchEvent::Poll),
            final(self).name() == old(self).name(),
            action matches ChunkAction::Send(span) ==> span.chunk_id == old(self)@.started
                && span.is_piece_of(old(self)@.file_size, old(self)@.chunk_size),
            action == ChunkAction::Complete <==> old(self)@.is_complete(),
    {
        proof {
            use_type_invariant(&*self);
        }
        if self.next_chunk < self.total_chunks && self.in_flight < self.max_concurrency {
            let span = chunk_span(self.file_size, self.chunk_size, self.next_chunk);
            self.next_chunk = self.next_chunk + 1;
            self.in_flight = self.in_flight + 1;
            ChunkAction::Send(span)
        } else if self.in_flight > 0 {
            ChunkAction::Wait
        } else {
            ChunkAction::Complete
        }
    }

    /// Takes note that one upload has ended, whether it went well or not,
    /// and frees its permit. Returns `false`, and changes nothing, when no
    /// upload was running.
    pub fn chunk_finished(&mut self) -> (freed: bool)
        ensures
            final(self)@.wf(),
            freed == (old(self)@.running > 0),
            final(self)@ == old(self)@.step(crate::dispatch::DispatchEvent::ChunkDone),
            final(self).name() == old(self).name(),
    {
        proof {
            use_type_invariant(&*self);
        }
        if self.in_flight > 0 {
            self.in_flight = self.in_flight - 1;
            true
        } else {
            false
        }
    }

    /// The envelope of chunk `chunk_id` around the bytes read for it.
    pub fn envelope(&self, chunk_id: u64, bytes: &[u8]) -> (envelope: ChunkEnvelope)
        requires
            chunk_id < self@.total(),
            base64_fits(bytes@.len()),
        ensures
            envelope.wf(),
            envelope.filename@ == self.name(),
            envelope.chunk_id == chunk_id,
            envelope.total_chunks == self@.total(),
            envelope.data@ == base64_standard(bytes@),
    {
        proof {
            use_type_invariant(self);
        }
        ChunkEnvelope::new(self.file_name.as_str(), chunk_id, self.total_chunks, bytes)
    }

    /// Name of the file.
    pub fn file_name(&self) -> (name: &str)
        ensures
            name@ == self.name(),
    {
        self.file_name.as_str()
    }

    /// Length of the file in bytes.
    pub fn file_size(&self) -> (n: u64)
        ensures
            n == self@.file_size,
    {
        self.file_size
    }

    /// Length of every chunk but the last.
    pub fn chunk_size(&self) -> (n: usize)
        ensures
            n == self@.chunk_size,
    {
        self.chunk_size
    }

    /// Number of chunks of the file.
    pub fn total_chunks(&self) -> (n: u64)
        ensures
            n == self@.total(),
            n == chunk_count(self@.file_size, self@.chunk_size),
    {
        proof {
            use_type_invariant(self);
        }
        self.total_chunks
    }

    /// Uploads that may run at once.
    pub fn max_concurrency(&self) -> (n: usize)
        ensures
            n == self@.limit,
    {
        self.max_concurrency
    }

    /// Chunks started so far.
    pub fn started(&self) -> (n: u64)
        ensures
            n == self@.started,
    {
        self.next_chunk
    }

    /// Uploads under way.
    pub fn in_flight(&self) -> (n: usize)
        ensures
            n == self@.running,
            n <= self@.limit,
    {
        proof {
            use_type_invariant(self);
        }
        self.in_flight
    }

    /// Whether every chunk was started and every upload has ended.
    pub fn is_complete(&self) -> (done: bool)
        ensures
            done == self@.is_complete(),
    {
        proof {
            use_type_invariant(self);
        }
        self.next_chunk == self.total_chunks && self.in_flight == 0
    }
}

} // verus!
