use vstd::prelude::*;
use crate::errors::PipelineError;

verus! {

/// Decoding parameters for one generation call, fixed before generation
/// starts and never changed mid-stream. Fractional parameters are held in
/// thousandths (a value of 900 stands for 0.9), so every invariant is exact
/// integer arithmetic; the transport layer converts to the backend's unit.
#[derive(Debug)]
pub struct SamplingConfig {
    /// Temperature, in thousandths; must be positive.
    pub temperature_milli: u32,
    /// Top-k cutoff; 0 disables it.
    pub top_k: u32,
    /// Top-p (nucleus) mass, in thousandths; must lie in (0, 1000].
    pub top_p_milli: u32,
    /// Frequency penalty, in thousandths.
    pub frequency_penalty_milli: u32,
    /// Presence penalty, in thousandths.
    pub presence_penalty_milli: u32,
    /// Maximum number of generated tokens; must be positive.
    pub max_len: u32,
    /// Terminal token identifiers; must be non-empty so generation is
    /// guaranteed to stop.
    pub stop_token_ids: Vec<u32>,
    /// Number of candidate completions; this pipeline always requests 1.
    pub n_choices: u32,
}

impl SamplingConfig {
    /// The configuration invariant: temperature positive, top-p in (0, 1],
    /// max length positive, a non-empty stop condition, and at least one
    /// candidate completion.
    pub open spec fn wf(self) -> bool {
        &&& self.temperature_milli > 0
        &&& 0 < self.top_p_milli <= 1000
        &&& self.max_len > 0
        &&& self.stop_token_ids@.len() > 0
        &&& self.n_choices >= 1
    }
}

/// The end-of-turn token id of the backing model, the default stop condition.
pub const END_OF_TURN_TOKEN: u32 = 128258;

/// Builds a [`SamplingConfig`], starting from the process-wide default policy
/// and allowing per-request overrides. [`SamplingConfigBuilder::build`]
/// rejects any combination that breaks the configuration invariant.
pub struct SamplingConfigBuilder {
    pub temperature_milli: u32,
    pub top_k: u32,
    pub top_p_milli: u32,
    pub frequency_penalty_milli: u32,
    pub presence_penalty_milli: u32,
    pub max_len: u32,
    pub stop_token_ids: Vec<u32>,
    pub n_choices: u32,
}

impl SamplingConfigBuilder {
    /// Whether the fields currently held by the builder satisfy the
    /// configuration invariant.
    pub open spec fn acceptable(self) -> bool {
        &&& self.temperature_milli > 0
        &&& 0 < self.top_p_milli <= 1000
        &&& self.max_len > 0
        &&& self.stop_token_ids@.len() > 0
        &&& self.n_choices >= 1
    }

    /// The fixed default policy: temperature 0.9, top-k 128, top-p 0.9,
    /// frequency penalty 1.1, no presence penalty, at most 1200 tokens,
    /// stopping at the model's end-of-turn token, one candidate.
    pub fn default_policy() -> (b: Self)
        ensures
            b.temperature_milli == 900,
            b.top_k == 128,
            b.top_p_milli == 900,
            b.frequency_penalty_milli == 1100,
            b.presence_penalty_milli == 0,
            b.max_len == 1200,
            b.stop_token_ids@ == seq![END_OF_TURN_TOKEN],
            b.n_choices == 1,
            b.acceptable(),
    {
        let mut stop: Vec<u32> = Vec::new();
        stop.push(END_OF_TURN_TOKEN);
        proof {
            assert(stop@ =~= seq![END_OF_TURN_TOKEN]);
        }
        SamplingConfigBuilder {
            temperature_milli: 900,
            top_k: 128,
            top_p_milli: 900,
            frequency_penalty_milli: 1100,
            presence_penalty_milli: 0,
            max_len: 1200,
            stop_token_ids: stop,
            n_choices: 1,
        }
    }

    /// Overrides the temperature (in thousandths).
    pub fn with_temperature_milli(self, v: u32) -> (b: Self)
        ensures
            b == (Self { temperature_milli: v, ..self }),
    {
        Self { temperature_milli: v, ..self }
    }

    /// Overrides the top-p mass (in thousandths).
    pub fn with_top_p_milli(self, v: u32) -> (b: Self)
        ensures
            b == (Self { top_p_milli: v, ..self }),
    {
        Self { top_p_milli: v, ..self }
    }

    /// Overrides the top-k cutoff.
    pub fn with_top_k(self, v: u32) -> (b: Self)
        ensures
            b == (Self { top_k: v, ..self }),
    {
        Self { top_k: v, ..self }
    }

    /// Overrides the maximum output length.
    pub fn with_max_len(self, v: u32) -> (b: Self)
        ensures
            b == (Self { max_len: v, ..self }),
    {
        Self { max_len: v, ..self }
    }

    /// Replaces the stop condition.
    pub fn with_stop_tokens(self, stop: Vec<u32>) -> (b: Self)
        ensures
            b == (Self { stop_token_ids: stop, ..self }),
    {
        Self { stop_token_ids: stop, ..self }
    }

    /// Finishes the build. Returns `Ok` exactly when the held fields satisfy
    /// the configuration invariant, and the produced configuration carries
    /// them unchanged; otherwise fails with `InvalidConfig`.
    pub fn build(self) -> (r: Result<SamplingConfig, PipelineError>)
        ensures
            r is Ok <==> self.acceptable(),
            r is Err ==> r->Err_0 == PipelineError::InvalidConfig,
            r is Ok ==> {
                &&& r->Ok_0.temperature_milli == self.temperature_milli
                &&& r->Ok_0.top_k == self.top_k
                &&& r->Ok_0.top_p_milli == self.top_p_milli
                &&& r->Ok_0.frequency_penalty_milli == self.frequency_penalty_milli
                &&& r->Ok_0.presence_penalty_milli == self.presence_penalty_milli
                &&& r->Ok_0.max_len == self.max_len
                &&& r->Ok_0.stop_token_ids@ == self.stop_token_ids@
                &&& r->Ok_0.n_choices == self.n_choices
                &&& r->Ok_0.wf()
            },
    {
        if self.temperature_milli == 0 || self.top_p_milli == 0 || self.top_p_milli > 1000
            || self.max_len == 0 || self.stop_token_ids.len() == 0 || self.n_choices == 0 {
            Err(PipelineError::InvalidConfig)
        } else {
            Ok(SamplingConfig {
                temperature_milli: self.temperature_milli,
                top_k: self.top_k,
                top_p_milli: self.top_p_milli,
                frequency_penalty_milli: self.frequency_penalty_milli,
                presence_penalty_milli: self.presence_penalty_milli,
                max_len: self.max_len,
                stop_token_ids: self.stop_token_ids,
                n_choices: self.n_choices,
            })
        }
    }
}

} // verus!
