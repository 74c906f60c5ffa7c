//! Admission of chunk uploads under a concurrency cap, as a mathematical
//! state machine, and the laws that hold of every run of it.
//!
//! A run is a sequence of events. `Poll` asks for the next thing to do and
//! starts the next chunk when a permit is free; `ChunkDone` reports that one
//! running upload has ended (well or badly) and gives its permit back.

use vstd::prelude::*;
use crate::chunk::chunk_count;

verus! {

/// State of one file's chunked transfer.
pub struct Dispatch {
    /// Length of the file in bytes.
    pub file_size: nat,
    /// Length of every chunk but the last.
    pub chunk_size: nat,
    /// Number of permits: how many uploads may run at once.
    pub limit: nat,
    /// Chunks started so far; they are the ids `0 .. started`.
    pub started: nat,
    /// Uploads started and not yet ended.
    pub running: nat,
}

/// What drives the state machine.
pub enum DispatchEvent {
    /// The driver asks what to do next.
    Poll,
    /// One running upload has ended.
    ChunkDone,
}

impl Dispatch {
    /// Number of chunks of the file.
    pub open spec fn total(self) -> nat {
        chunk_count(self.file_size, self.chunk_size)
    }

    /// The states a transfer can be in.
    pub open spec fn wf(self) -> bool {
        &&& self.chunk_size > 0
        &&& self.limit >= 1
        &&& self.started <= self.total()
        &&& self.running <= self.limit
        &&& self.running <= self.started
    }

    /// The state before anything was started.
    pub open spec fn initial(file_size: nat, chunk_size: nat, limit: nat) -> Dispatch {
        Dispatch { file_size, chunk_size, limit, started: 0, running: 0 }
    }

    /// A chunk is left and a permit is free.
    pub open spec fn can_start(self) -> bool {
        self.started < self.total() && self.running < self.limit
    }

    /// Every chunk was started and every upload has ended.
    pub open spec fn is_complete(self) -> bool {
        self.started == self.total() && self.running == 0
    }

    /// The state after chunk `started` took a permit.
    pub open spec fn start(self) -> Dispatch {
        Dispatch { started: self.started + 1, running: self.running + 1, ..self }
    }

    /// The state after one upload gave its permit back. Nothing changes
    /// when none is running.
    pub open spec fn finish(self) -> Dispatch {
        if self.running > 0 {
            Dispatch { running: (self.running - 1) as nat, ..self }
        } else {
            self
        }
    }

    /// The state after one event.
    pub open spec fn step(self, event: DispatchEvent) -> Dispatch {
        match event {
            DispatchEvent::Poll => if self.can_start() {
                self.start()
            } else {
                self
            },
            DispatchEvent::ChunkDone => self.finish(),
        }
    }

    /// The chunk ids that one event sends: the next id when a poll starts
    /// a chunk, none otherwise.
    pub open spec fn step_sends(self, event: DispatchEvent) -> Seq<nat> {
        match event {
            DispatchEvent::Poll => if self.can_start() {
                seq![self.started]
            } else {
                Seq::empty()
            },
            DispatchEvent::ChunkDone => Seq::empty(),
        }
    }

    /// The state after a sequence of events.
    pub open spec fn after(self, events: Seq<DispatchEvent>) -> Dispatch
        decreases events.len(),
    {
        if events.len() == 0 {
            self
        } else {
            self.after(events.drop_last()).step(events.last())
        }
    }

    /// The chunk ids sent in the course of a sequence of events, in the
    /// order in which they were sent.
    pub open spec fn sent(self, events: Seq<DispatchEvent>) -> Seq<nat>
        decreases events.len(),
    {
        if events.len() == 0 {
            Seq::empty()
        } else {
            self.sent(events.drop_last()) + self.after(events.drop_last()).step_sends(
                events.last(),
            )
        }
    }
}

/// The ids `0, 1, .., n - 1`.
pub open spec fn ids_below(n: nat) -> Seq<nat> {
    Seq::new(n, |i: int| i as nat)
}

/// One event keeps a state within the cap: no more uploads run than there
/// are permits.
pub proof fn lemma_step_keeps_wf(state: Dispatch, event: DispatchEvent)
    requires
        state.wf(),
    ensures
        state.step(event).wf(),
        state.step(event).running <= state.limit,
        state.step(event).started >= state.started,
{
}

/// Concurrency cap: whatever the events and whatever their order, at no
/// point of a run do more than `limit` uploads run at once, for any
/// `limit >= 1`.
pub proof fn lemma_cap_holds_throughout(
    file_size: nat,
    chunk_size: nat,
    limit: nat,
    events: Seq<DispatchEvent>,
)
    requires
        chunk_size > 0,
        limit >= 1,
    ensures
        forall|k: int|
            0 <= k <= events.len() ==> (#[trigger] Dispatch::initial(
                file_size,
                chunk_size,
                limit,
            ).after(events.take(k))).running <= limit,
{
    let start = Dispatch::initial(file_size, chunk_size, limit);
    assert forall|k: int| 0 <= k <= events.len() implies (#[trigger] start.after(
        events.take(k),
    )).running <= limit by {
        lemma_run_keeps_wf(start, events.take(k));
    }
}

/// A run from a state within the cap ends in a state within the cap.
pub proof fn lemma_run_keeps_wf(state: Dispatch, events: Seq<DispatchEvent>)
    requires
        state.wf(),
    ensures
        state.after(events).wf(),
        state.after(events).file_size == state.file_size,
        state.after(events).chunk_size == state.chunk_size,
        state.after(events).limit == state.limit,
        state.after(events).started >= state.started,
    decreases events.len(),
{
    if events.len() > 0 {
        lemma_run_keeps_wf(state, events.drop_last());
        lemma_step_keeps_wf(state.after(events.drop_last()), events.last());
    }
}

/// In every run from the initial state the ids sent so far are
/// `0 .. started`, each once and in rising order.
pub proof fn lemma_sent_ids_in_order(
    file_size: nat,
    chunk_size: nat,
    limit: nat,
    events: Seq<DispatchEvent>,
)
    requires
        chunk_size > 0,
        limit >= 1,
    ensures
        Dispatch::initial(file_size, chunk_size, limit).sent(events) == ids_below(
            Dispatch::initial(file_size, chunk_size, limit).after(events).started,
        ),
    decreases events.len(),
{
    let start = Dispatch::initial(file_size, chunk_size, limit);
    if events.len() > 0 {
        let before = start.after(events.drop_last());
        lemma_sent_ids_in_order(file_size, chunk_size, limit, events.drop_last());
        assert(ids_below(before.started) + before.step_sends(events.last()) =~= ids_below(
            before.step(events.last()).started,
        ));
    }
}

/// Every chunk exactly once: when a run from the initial state has come to
/// its end, the ids sent are `0, 1, .., total - 1`. So every id below the
/// chunk count was sent, and none of them twice.
pub proof fn lemma_every_chunk_sent_exactly_once(
    file_size: nat,
    chunk_size: nat,
    limit: nat,
    events: Seq<DispatchEvent>,
)
    requires
        chunk_size > 0,
        limit >= 1,
        Dispatch::initial(file_size, chunk_size, limit).after(events).is_complete(),
    ensures
        Dispatch::initial(file_size, chunk_size, limit).sent(events) == ids_below(
            chunk_count(file_size, chunk_size),
        ),
        Dispatch::initial(file_size, chunk_size, limit).sent(events).len() == chunk_count(
            file_size,
            chunk_size,
        ),
        Dispatch::initial(file_size, chunk_size, limit).sent(events).no_duplicates(),
        forall|id: nat|
            id < chunk_count(file_size, chunk_size) ==> #[trigger] Dispatch::initial(
                file_size,
                chunk_size,
                limit,
            ).sent(events).contains(id),
{
    lemma_sent_ids_in_order(file_size, chunk_size, limit, events);
    lemma_run_keeps_wf(Dispatch::initial(file_size, chunk_size, limit), events);
    let sent = Dispatch::initial(file_size, chunk_size, limit).sent(events);
    assert forall|id: nat| id < chunk_count(file_size, chunk_size) implies sent.contains(id) by {
        assert(sent[id as int] == id);
    }
}

/// A transfer that is not complete can always go on: a chunk can start, or
/// an upload is running whose end will free a permit.
pub proof fn lemma_never_stuck(state: Dispatch)
    requires
        state.wf(),
        !state.is_complete(),
    ensures
        state.can_start() || state.running > 0,
{
}

} // verus!
