use vstd::prelude::*;
use crate::sampling::SamplingConfig;

verus! {

/// Token accounting reported by the backend with a completed generation.
#[derive(Clone, Copy, PartialEq, Eq, Structural, Debug)]
pub struct UsageStats {
    pub prompt_tokens: u64,
    pub completion_tokens: u64,
}

/// One event of a generation call, in causal order: any number of
/// `PartialToken`s followed by exactly one terminal `Completed` or `Failed`.
/// A request/response backend is the degenerate case that sends a single
/// `Completed` and no `PartialToken`.
pub enum GenerationEvent {
    /// One incrementally generated audio token.
    PartialToken(u32),
    /// Generation finished: the full final text and the usage accounting.
    Completed(String, UsageStats),
    /// Generation failed; the payload describes the fault.
    Failed(String),
}

impl GenerationEvent {
    /// Whether this event ends the generation call.
    pub open spec fn is_terminal(self) -> bool {
        !(self is PartialToken)
    }
}

/// An ordered, non-empty buffer of raw audio bytes. The end of a stream is
/// signalled out of band, never by an empty chunk.
pub struct AudioChunk {
    pub data: Vec<u8>,
}

impl AudioChunk {
    pub open spec fn wf(self) -> bool {
        self.data@.len() > 0
    }
}

/// The byte length of every chunk the placeholder decoder emits.
pub const CHUNK_LEN: usize = 1024;

/// What the placeholder decoder emits for one audio token: a single chunk of
/// [`CHUNK_LEN`] bytes, each carrying the token's low byte. The real
/// audio-token codec is model-specific and substitutable; it only has to turn
/// a token into zero or more ordered, non-empty chunks.
pub open spec fn spec_decode_token(token: u32) -> Seq<Seq<u8>> {
    seq![Seq::new(CHUNK_LEN as nat, |i: int| (token % 256) as u8)]
}

/// What the placeholder decoder emits for a final text: nothing for an empty
/// text, otherwise a single zero-filled chunk of [`CHUNK_LEN`] bytes.
pub open spec fn spec_decode_text(text: Seq<char>) -> Seq<Seq<u8>> {
    if text.len() == 0 {
        Seq::<Seq<u8>>::empty()
    } else {
        seq![Seq::new(CHUNK_LEN as nat, |i: int| 0u8)]
    }
}

/// The audio bytes one event contributes to the stream: a `PartialToken`
/// decodes, a `Completed` flushes its final text, a `Failed` contributes
/// nothing (unflushed audio is discarded).
pub open spec fn spec_chunks_of_event(e: GenerationEvent) -> Seq<Seq<u8>> {
    match e {
        GenerationEvent::PartialToken(token) => spec_decode_token(token),
        GenerationEvent::Completed(text, _) => spec_decode_text(text@),
        GenerationEvent::Failed(_) => Seq::<Seq<u8>>::empty(),
    }
}

/// Builds a vector of `len` copies of `value`.
fn filled(value: u8, len: usize) -> (v: Vec<u8>)
    ensures
        v@ == Seq::new(len as nat, |i: int| value),
{
    let mut v: Vec<u8> = Vec::new();
    let mut i: usize = 0;
    while i < len
        invariant
            0 <= i <= len,
            v@ =~= Seq::new(i as nat, |j: int| value),
        decreases len - i,
    {
        v.push(value);
        proof {
            assert(v@ =~= Seq::new((i + 1) as nat, |j: int| value));
        }
        i = i + 1;
    }
    proof {
        assert(v@ =~= Seq::new(len as nat, |i: int| value));
    }
    v
}

/// Decodes one audio token with the placeholder codec.
pub fn decode_token(token: u32) -> (chunks: Vec<AudioChunk>)
    ensures
        chunks@.map_values(|c: AudioChunk| c.data@) == spec_decode_token(token),
        forall|i: int| 0 <= i < chunks@.len() ==> (#[trigger] chunks@[i]).wf(),
{
    let byte: u8 = (token % 256) as u8;
    let mut chunks: Vec<AudioChunk> = Vec::new();
    chunks.push(AudioChunk { data: filled(byte, CHUNK_LEN) });
    proof {
        assert(chunks@.map_values(|c: AudioChunk| c.data@) =~= spec_decode_token(token));
    }
    chunks
}

/// Decodes a final text with the placeholder codec.
pub fn decode_text(text: &str) -> (chunks: Vec<AudioChunk>)
    ensures
        chunks@.map_values(|c: AudioChunk| c.data@) == spec_decode_text(text@),
        forall|i: int| 0 <= i < chunks@.len() ==> (#[trigger] chunks@[i]).wf(),
{
    let mut chunks: Vec<AudioChunk> = Vec::new();
    if !text.is_empty() {
        chunks.push(AudioChunk { data: filled(0, CHUNK_LEN) });
    }
    proof {
        assert(chunks@.map_values(|c: AudioChunk| c.data@) =~= spec_decode_text(text@));
    }
    chunks
}

/// The states of one generation session. `Streaming` is entered by the first
/// `PartialToken`; a fully synchronous backend goes from `Submitted` straight
/// to `Completed`. No transition skips `Submitted`.
#[derive(Clone, Copy, PartialEq, Eq, Structural, Debug)]
pub enum SessionState {
    Idle,
    Submitted,
    Streaming,
    Completed,
    Failed,
}

/// The state an event moves a live session to.
pub open spec fn spec_next_state(e: GenerationEvent) -> SessionState {
    match e {
        GenerationEvent::PartialToken(_) => SessionState::Streaming,
        GenerationEvent::Completed(_, _) => SessionState::Completed,
        GenerationEvent::Failed(_) => SessionState::Failed,
    }
}

/// One in-flight generation call: the formatted prompt and the sampling
/// configuration it was submitted with, and where in its lifecycle it stands.
/// Each session is independent; nothing in it is shared with other sessions.
pub struct GenerationSession {
    pub state: SessionState,
    pub prompt: String,
    pub config: SamplingConfig,
}

impl GenerationSession {
    /// A session is live while it still expects events from the backend.
    pub open spec fn live(self) -> bool {
        self.state == SessionState::Submitted || self.state == SessionState::Streaming
    }

    /// Creates a session for one generation call. It holds the prompt and
    /// configuration unchanged for its whole life (no mid-stream mutation).
    pub fn new(prompt: String, config: SamplingConfig) -> (s: Self)
        requires
            config.wf(),
        ensures
            s.state == SessionState::Idle,
            s.prompt == prompt,
            s.config == config,
    {
        GenerationSession { state: SessionState::Idle, prompt, config }
    }

    /// Records that the prompt and configuration went to the backend as a
    /// single generation call. Every session passes through here before any
    /// event is taken.
    pub fn submit(&mut self)
        requires
            old(self).state == SessionState::Idle,
        ensures
            final(self).state == SessionState::Submitted,
            final(self).prompt == old(self).prompt,
            final(self).config == old(self).config,
    {
        self.state = SessionState::Submitted;
    }

    /// Takes the next backend event and returns the audio chunks it
    /// contributes, in order. A `PartialToken` keeps the session live in
    /// `Streaming`; `Completed` flushes the final text and ends the session
    /// cleanly; `Failed` ends it immediately, discarding unflushed audio.
    pub fn on_event(&mut self, e: &GenerationEvent) -> (chunks: Vec<AudioChunk>)
        requires
            old(self).live(),
        ensures
            final(self).state == spec_next_state(*e),
            final(self).prompt == old(self).prompt,
            final(self).config == old(self).config,
            chunks@.map_values(|c: AudioChunk| c.data@) == spec_chunks_of_event(*e),
            forall|i: int| 0 <= i < chunks@.len() ==> (#[trigger] chunks@[i]).wf(),
    {
        match e {
            GenerationEvent::PartialToken(token) => {
                self.state = SessionState::Streaming;
                decode_token(*token)
            },
            GenerationEvent::Completed(text, _) => {
                self.state = SessionState::Completed;
                decode_text(text.as_str())
            },
            GenerationEvent::Failed(_) => {
                self.state = SessionState::Failed;
                let chunks: Vec<AudioChunk> = Vec::new();
                proof {
                    assert(chunks@.map_values(|c: AudioChunk| c.data@) =~= spec_chunks_of_event(
                        *e,
                    ));
                }
                chunks
            },
        }
    }

    /// Whether the session still expects events.
    pub fn is_live(&self) -> (r: bool)
        ensures
            r == self.live(),
    {
        match self.state {
            SessionState::Submitted => true,
            SessionState::Streaming => true,
            _ => false,
        }
    }
}

/// The whole audio stream an event sequence produces: each event's chunks in
/// event order, stopping at the first terminal event (anything after it is
/// never consumed).
pub open spec fn spec_chunks_of_events(events: Seq<GenerationEvent>) -> Seq<Seq<u8>>
    decreases events.len(),
{
    if events.len() == 0 {
        Seq::<Seq<u8>>::empty()
    } else if events[0].is_terminal() {
        spec_chunks_of_event(events[0])
    } else {
        spec_chunks_of_event(events[0]) + spec_chunks_of_events(events.drop_first())
    }
}

/// Runs a freshly submitted session over a complete event sequence and
/// collects the emitted chunks: the degenerate driver for a backend that
/// answers with its events all at once. Events after the first terminal one
/// are not consumed.
pub fn run_events(session: &mut GenerationSession, events: &Vec<GenerationEvent>) -> (chunks: Vec<
    AudioChunk,
>)
    requires
        old(session).state == SessionState::Submitted,
    ensures
        chunks@.map_values(|c: AudioChunk| c.data@) == spec_chunks_of_events(events@),
        forall|i: int| 0 <= i < chunks@.len() ==> (#[trigger] chunks@[i]).wf(),
        final(session).prompt == old(session).prompt,
        final(session).config == old(session).config,
        final(session).live() <==> (forall|i: int|
            0 <= i < events@.len() ==> !(#[trigger] events@[i]).is_terminal()),
{
    let mut chunks: Vec<AudioChunk> = Vec::new();
    let mut i: usize = 0;
    let n: usize = events.len();
    proof {
        assert(events@.skip(0) =~= events@);
        assert(chunks@.map_values(|c: AudioChunk| c.data@) + spec_chunks_of_events(events@)
            =~= spec_chunks_of_events(events@));
    }
    while i < n
        invariant
            n == events@.len(),
            0 <= i <= n,
            session.prompt == old(session).prompt,
            session.config == old(session).config,
            session.live(),
            forall|j: int| 0 <= j < i ==> !(#[trigger] events@[j]).is_terminal(),
            chunks@.map_values(|c: AudioChunk| c.data@) + spec_chunks_of_events(
                events@.skip(i as int),
            ) == spec_chunks_of_events(events@),
            forall|j: int| 0 <= j < chunks@.len() ==> (#[trigger] chunks@[j]).wf(),
        decreases n - i,
    {
        let ghost prefix = chunks@.map_values(|c: AudioChunk| c.data@);
        let mut emitted = session.on_event(&events[i]);
        let ghost emitted_view = emitted@.map_values(|c: AudioChunk| c.data@);
        chunks.append(&mut emitted);
        proof {
            assert(chunks@.map_values(|c: AudioChunk| c.data@) =~= prefix + emitted_view);
            assert(events@.skip(i as int)[0] == events@[i as int]);
            assert(events@.skip(i as int).drop_first() =~= events@.skip(i + 1));
        }
        if !session.is_live() {
            proof {
                assert(events@[i as int].is_terminal());
                assert(spec_chunks_of_events(events@.skip(i as int)) == emitted_view);
            }
            return chunks;
        }
        proof {
            assert(!events@[i as int].is_terminal());
            assert(spec_chunks_of_events(events@.skip(i as int)) == emitted_view
                + spec_chunks_of_events(events@.skip(i + 1)));
        }
        i = i + 1;
    }
    proof {
        assert(events@.skip(n as int) =~= Seq::<GenerationEvent>::empty());
        assert(chunks@.map_values(|c: AudioChunk| c.data@) + Seq::<Seq<u8>>::empty()
            =~= chunks@.map_values(|c: AudioChunk| c.data@));
    }
    chunks
}

/// Chunk ordering is preserved end to end: as long as no terminal event has
/// occurred, the chunks produced by a prefix of the event sequence stand as a
/// prefix of the whole stream, in the same relative order — an event never
/// contributes bytes ahead of an earlier event's bytes.
pub proof fn lemma_chunk_order(events: Seq<GenerationEvent>, i: int)
    requires
        0 <= i <= events.len(),
        forall|j: int| 0 <= j < i ==> !(#[trigger] events[j]).is_terminal(),
    ensures
        spec_chunks_of_events(events.take(i)).len() <= spec_chunks_of_events(events).len(),
        spec_chunks_of_events(events).take(
            spec_chunks_of_events(events.take(i)).len() as int,
        ) == spec_chunks_of_events(events.take(i)),
    decreases i,
{
    if i == 0 {
        assert(events.take(0) =~= Seq::<GenerationEvent>::empty());
    } else {
        let head = events[0];
        assert(!head.is_terminal());
        let rest = events.drop_first();
        assert(forall|j: int| 0 <= j < i - 1 ==> !(#[trigger] rest[j]).is_terminal());
        lemma_chunk_order(rest, i - 1);
        assert(events.take(i)[0] == head);
        assert(!events.take(i)[0].is_terminal());
        assert(events.take(i).drop_first() =~= rest.take(i - 1));
        if events.len() > 0 {
            assert(spec_chunks_of_events(events) == spec_chunks_of_event(head)
                + spec_chunks_of_events(rest));
        }
        let h = spec_chunks_of_event(head);
        let p = spec_chunks_of_events(rest.take(i - 1));
        let w = spec_chunks_of_events(rest);
        assert(spec_chunks_of_events(events.take(i)) == h + p);
        assert((h + w).take((h + p).len() as int) =~= h + w.take(p.len() as int));
    }
}

} // verus!
