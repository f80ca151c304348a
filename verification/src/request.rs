use vstd::prelude::*;
use vstd::string::StringExecFns;
use crate::errors::PipelineError;

verus! {

/// An inbound synthesis request. `input` is the text to speak and must be
/// non-empty; `voice` selects the speaker persona (the transport layer fills
/// in [`default_voice`] when the field is absent); `instructions` is an
/// optional style hint the backend may ignore; `model` optionally selects
/// among several loaded backends.
pub struct SpeechRequest {
    pub input: String,
    pub voice: String,
    pub instructions: Option<String>,
    pub model: Option<String>,
}

/// The system-wide default voice, used when a request names none.
pub fn default_voice() -> (v: String)
    ensures
        v@ == "tara"@,
{
    String::from_str("tara")
}

impl SpeechRequest {
    /// A request is valid exactly when its `input` text is non-empty.
    pub open spec fn valid(self) -> bool {
        self.input@.len() > 0
    }

    /// Checks the request; an invalid one must be answered with a
    /// client-error status and no stream may be started for it.
    pub fn validate(&self) -> (r: Result<(), PipelineError>)
        ensures
            r is Ok <==> self.valid(),
            r is Err ==> r->Err_0 == PipelineError::InvalidRequest,
    {
        if self.input.as_str().is_empty() {
            Err(PipelineError::InvalidRequest)
        } else {
            Ok(())
        }
    }
}

/// One turn of a conversation: the voice that speaks and what it says.
pub struct ConversationTurn {
    pub voice: String,
    pub content: String,
}

/// An ordered, non-empty list of turns; generation continues from the last
/// turn's voice.
pub struct Conversation {
    pub turns: Vec<ConversationTurn>,
}

impl Conversation {
    /// A conversation is well-formed exactly when it has at least one turn.
    pub open spec fn wf(self) -> bool {
        self.turns@.len() > 0
    }
}

/// Builds the single-turn conversation a synthesis request stands for: the
/// request's voice speaking the request's input.
pub fn conversation_of(req: &SpeechRequest) -> (c: Conversation)
    requires
        req.valid(),
    ensures
        c.wf(),
        c.turns@.len() == 1,
        c.turns@[0].voice@ == req.voice@,
        c.turns@[0].content@ == req.input@,
{
    let turn = ConversationTurn { voice: req.voice.clone(), content: req.input.clone() };
    let mut turns: Vec<ConversationTurn> = Vec::new();
    turns.push(turn);
    Conversation { turns }
}

} // verus!
