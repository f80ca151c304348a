use vstd::prelude::*;
use vstd::string::StringExecFns;
use crate::session::{AudioChunk, GenerationEvent, GenerationSession, SessionState,
    spec_chunks_of_event, spec_next_state};

verus! {

/// The response head the adapter finalizes before any audio byte: a `200`
/// status and the audio streaming headers. Once built it is on the wire and
/// no later failure can change it.
pub struct ResponseHead {
    pub status: u16,
    pub content_type: String,
    pub transfer_encoding: String,
}

/// What the transport driver must do next, decided by the adapter each time
/// the transport signals write-readiness.
pub enum AdapterAction {
    /// Pull the next generation event from the backend and hand it to
    /// [`StreamAdapter::on_event`].
    RequestEvent,
    /// Forward this chunk to the transport.
    Write(AudioChunk),
    /// End the byte stream cleanly (zero-length terminal marker, no error).
    Finish,
    /// Terminate the byte stream abruptly and log the fault; the status line
    /// is already sent and cannot change.
    Abort,
}

/// Adapts one generation session to a chunked HTTP body. The adapter never
/// buffers more than one event's worth of decoded audio, and it only asks
/// the backend for the next event when the transport has signalled readiness
/// and the buffer is drained — backpressure travels from the transport to the
/// generation loop. The ghost counters account for that: events are pulled
/// at most as often as readiness was signalled.
pub struct StreamAdapter {
    pub session: GenerationSession,
    /// Chunks decoded from the most recent event, not yet written.
    pub buffer: Vec<AudioChunk>,
    /// A `RequestEvent` action is outstanding and unanswered.
    pub awaiting: bool,
    /// The response head has been finalized.
    pub headers_sent: bool,
    /// How often the transport has signalled readiness.
    pub ready_signals: Ghost<nat>,
    /// How many events have been pulled from the backend.
    pub events_pulled: Ghost<nat>,
}

impl StreamAdapter {
    /// The adapter invariant. In particular: every pulled event was paid for
    /// by a readiness signal, and an outstanding pull holds one such credit.
    pub open spec fn wf(self) -> bool {
        &&& self.events_pulled@ + (if self.awaiting {
            1nat
        } else {
            0nat
        }) <= self.ready_signals@
        &&& self.awaiting ==> self.session.live() && self.buffer@.len() == 0
        &&& self.session.state != SessionState::Idle
        &&& self.session.state == SessionState::Failed ==> self.buffer@.len() == 0
        &&& forall|i: int| 0 <= i < self.buffer@.len() ==> (#[trigger] self.buffer@[i]).wf()
    }

    /// Wraps a submitted session. Nothing is buffered, nothing was pulled,
    /// and no readiness has been seen.
    pub fn new(session: GenerationSession) -> (a: Self)
        requires
            session.state == SessionState::Submitted,
        ensures
            a.wf(),
            a.session == session,
            a.buffer@.len() == 0,
            !a.awaiting,
            !a.headers_sent,
            a.ready_signals@ == 0,
            a.events_pulled@ == 0,
    {
        StreamAdapter {
            session,
            buffer: Vec::new(),
            awaiting: false,
            headers_sent: false,
            ready_signals: Ghost(0nat),
            events_pulled: Ghost(0nat),
        }
    }

    /// Finalizes the status line and headers: `200 OK`, an audio content
    /// type, chunked transfer encoding. Must happen before any chunk is
    /// produced; every later failure leaves the head untouched.
    pub fn begin(&mut self) -> (head: ResponseHead)
        requires
            old(self).wf(),
            !old(self).headers_sent,
        ensures
            final(self).wf(),
            final(self).headers_sent,
            final(self).session == old(self).session,
            final(self).buffer == old(self).buffer,
            final(self).awaiting == old(self).awaiting,
            final(self).ready_signals == old(self).ready_signals,
            final(self).events_pulled == old(self).events_pulled,
            head.status == 200,
            head.content_type@ == "audio/pcm"@,
            head.transfer_encoding@ == "chunked"@,
    {
        self.headers_sent = true;
        ResponseHead {
            status: 200,
            content_type: String::from_str("audio/pcm"),
            transfer_encoding: String::from_str("chunked"),
        }
    }

    /// Takes one readiness signal from the transport and decides the next
    /// step: abort after a failure, drain the buffer one chunk at a time,
    /// finish cleanly after completion, and only with a drained buffer and a
    /// live session ask for the next event.
    pub fn on_ready(&mut self) -> (a: AdapterAction)
        requires
            old(self).wf(),
            old(self).headers_sent,
            !old(self).awaiting,
        ensures
            final(self).wf(),
            final(self).headers_sent,
            final(self).session == old(self).session,
            final(self).ready_signals@ == old(self).ready_signals@ + 1,
            final(self).events_pulled == old(self).events_pulled,
            a is Abort <==> old(self).session.state == SessionState::Failed,
            a is Write <==> old(self).session.state != SessionState::Failed && old(
                self,
            ).buffer@.len() > 0,
            a is Finish <==> old(self).session.state == SessionState::Completed && old(
                self,
            ).buffer@.len() == 0,
            a is RequestEvent <==> old(self).session.live() && old(self).buffer@.len() == 0,
            a is Write ==> a->Write_0 == old(self).buffer@[0] && final(self).buffer@ == old(
                self,
            ).buffer@.drop_first(),
            !(a is Write) ==> final(self).buffer == old(self).buffer,
            final(self).awaiting == (a is RequestEvent),
    {
        proof {
            self.ready_signals@ = self.ready_signals@ + 1;
        }
        match self.session.state {
            SessionState::Failed => AdapterAction::Abort,
            _ => {
                if self.buffer.len() > 0 {
                    let chunk = self.buffer.remove(0);
                    proof {
                        assert(self.buffer@ =~= old(self).buffer@.drop_first());
                    }
                    AdapterAction::Write(chunk)
                } else if matches!(self.session.state, SessionState::Completed) {
                    AdapterAction::Finish
                } else {
                    self.awaiting = true;
                    AdapterAction::RequestEvent
                }
            },
        }
    }

    /// Answers an outstanding `RequestEvent` with the backend's next event.
    /// The event's audio is decoded into the buffer (a failure contributes
    /// nothing and discards unflushed audio) and the session steps to the
    /// state the event dictates.
    pub fn on_event(&mut self, e: &GenerationEvent)
        requires
            old(self).wf(),
            old(self).awaiting,
        ensures
            final(self).wf(),
            final(self).headers_sent == old(self).headers_sent,
            !final(self).awaiting,
            final(self).ready_signals == old(self).ready_signals,
            final(self).events_pulled@ == old(self).events_pulled@ + 1,
            final(self).session.state == spec_next_state(*e),
            final(self).session.prompt == old(self).session.prompt,
            final(self).session.config == old(self).session.config,
            final(self).buffer@.map_values(|c: AudioChunk| c.data@) == spec_chunks_of_event(*e),
    {
        proof {
            self.events_pulled@ = self.events_pulled@ + 1;
        }
        self.awaiting = false;
        let chunks = self.session.on_event(e);
        proof {
            assert(chunks@.map_values(|c: AudioChunk| c.data@).len() == chunks@.len());
        }
        self.buffer = chunks;
    }

    /// How many decoded chunks wait for the transport.
    pub fn buffered_len(&self) -> (n: usize)
        ensures
            n == self.buffer@.len(),
    {
        self.buffer.len()
    }
}

/// Backpressure is respected, never ignored: in every reachable adapter the
/// number of events pulled from the backend stays at or below the number of
/// readiness signals the transport gave. A transport that never signals
/// readiness therefore never causes an event to be pulled or decoded — the
/// adapter cannot buffer without bound.
pub proof fn lemma_backpressure(a: StreamAdapter)
    requires
        a.wf(),
    ensures
        a.events_pulled@ <= a.ready_signals@,
        a.ready_signals@ == 0 ==> a.events_pulled@ == 0 && !a.awaiting,
{
}

} // verus!
