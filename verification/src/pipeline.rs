use vstd::prelude::*;
use crate::errors::PipelineError;
use crate::prompt::{format_prompt, lemma_format_deterministic, spec_render_conversation};
use crate::request::{conversation_of, ConversationTurn, SpeechRequest};
use crate::sampling::{SamplingConfig, SamplingConfigBuilder, END_OF_TURN_TOKEN};
use crate::session::{GenerationSession, SessionState};

verus! {

/// Everything one generation call needs, fixed before any byte is written:
/// the formatted prompt and the sampling configuration.
#[derive(Debug)]
pub struct PreparedRequest {
    pub prompt: String,
    pub config: SamplingConfig,
}

impl PreparedRequest {
    pub open spec fn wf(self) -> bool {
        self.config.wf()
    }
}

/// The one conversation turn a synthesis request stands for.
pub open spec fn spec_request_turn(req: SpeechRequest) -> ConversationTurn {
    ConversationTurn { voice: req.voice, content: req.input }
}

/// Whether a configuration carries exactly the process-wide default sampling
/// policy.
pub open spec fn spec_is_default_policy(c: SamplingConfig) -> bool {
    &&& c.temperature_milli == 900
    &&& c.top_k == 128
    &&& c.top_p_milli == 900
    &&& c.frequency_penalty_milli == 1100
    &&& c.presence_penalty_milli == 0
    &&& c.max_len == 1200
    &&& c.stop_token_ids@ == seq![END_OF_TURN_TOKEN]
    &&& c.n_choices == 1
}

/// The pure, pre-stream half of the speech handler: checks the request,
/// renders its conversation into the backend prompt with the continuation
/// segment, and builds the default sampling configuration. Fails exactly on
/// an invalid request (empty `input`), with `InvalidRequest`, before any
/// stream could start; every error here still controls the status code.
pub fn prepare(req: &SpeechRequest) -> (r: Result<PreparedRequest, PipelineError>)
    ensures
        r is Ok <==> req.valid(),
        r is Err ==> r->Err_0 == PipelineError::InvalidRequest,
        r is Ok ==> r->Ok_0.prompt@ == spec_render_conversation(seq![spec_request_turn(*req)], true),
        r is Ok ==> spec_is_default_policy(r->Ok_0.config) && r->Ok_0.wf(),
{
    req.validate()?;
    let conversation = conversation_of(req);
    let prompt = match format_prompt(&conversation, true) {
        Ok(p) => p,
        Err(_) => {
            proof {
                assert(false);
            }
            return Err(PipelineError::EmptyConversation);
        },
    };
    proof {
        lemma_format_deterministic(conversation.turns@, seq![spec_request_turn(*req)], true);
    }
    let config = match SamplingConfigBuilder::default_policy().build() {
        Ok(c) => c,
        Err(_) => {
            proof {
                assert(false);
            }
            return Err(PipelineError::InvalidConfig);
        },
    };
    Ok(PreparedRequest { prompt, config })
}

/// Starts one generation call: the prepared prompt and configuration go to
/// the backend as a single submission, and the returned session is ready to
/// take the backend's events. No transition skips `Submitted`.
pub fn start(prepared: PreparedRequest) -> (s: GenerationSession)
    requires
        prepared.wf(),
    ensures
        s.state == SessionState::Submitted,
        s.prompt == prepared.prompt,
        s.config == prepared.config,
{
    let mut session = GenerationSession::new(prepared.prompt, prepared.config);
    session.submit();
    session
}

} // verus!
