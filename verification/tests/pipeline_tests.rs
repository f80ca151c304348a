use tts_pipeline::errors::PipelineError;
use tts_pipeline::pipeline::prepare;
use tts_pipeline::prompt::format_prompt;
use tts_pipeline::request::{conversation_of, default_voice, Conversation, ConversationTurn,
    SpeechRequest};
use tts_pipeline::sampling::{SamplingConfigBuilder, END_OF_TURN_TOKEN};
use tts_pipeline::errors::status_code;

fn request(input: &str, voice: &str) -> SpeechRequest {
    SpeechRequest {
        input: input.to_string(),
        voice: voice.to_string(),
        instructions: None,
        model: None,
    }
}

#[test]
fn default_voice_is_tara() {
    assert_eq!(default_voice(), "tara");
}

#[test]
fn hello_world_prompt_renders_exactly() {
    let req = request("Hello world", "tara");
    let prepared = prepare(&req).unwrap();
    assert_eq!(
        prepared.prompt,
        "<|audio|>tara: Hello world<|eot_id|><|audio|>tara: "
    );
}

#[test]
fn prompt_contains_voice_and_input_verbatim() {
    let req = request("the quick brown fox", "leah");
    let prepared = prepare(&req).unwrap();
    assert!(prepared.prompt.contains("leah"));
    assert!(prepared.prompt.contains("the quick brown fox"));
    assert!(prepared.prompt.ends_with("<|audio|>leah: "));
}

#[test]
fn missing_input_gives_client_error_and_no_stream() {
    let req = request("", "tara");
    let err = prepare(&req).unwrap_err();
    assert_eq!(err, PipelineError::InvalidRequest);
    assert_eq!(status_code(&err), 400);
}

#[test]
fn formatting_twice_is_byte_identical() {
    let req = request("same text twice", "dan");
    let conv = conversation_of(&req);
    let first = format_prompt(&conv, true).unwrap();
    let second = format_prompt(&conv, true).unwrap();
    assert_eq!(first.as_bytes(), second.as_bytes());
}

#[test]
fn multi_turn_prompt_renders_in_order() {
    let conv = Conversation {
        turns: vec![
            ConversationTurn { voice: "tara".to_string(), content: "hi".to_string() },
            ConversationTurn { voice: "leo".to_string(), content: "there".to_string() },
        ],
    };
    let with_continuation = format_prompt(&conv, true).unwrap();
    assert_eq!(
        with_continuation,
        "<|audio|>tara: hi<|eot_id|><|audio|>leo: there<|eot_id|><|audio|>leo: "
    );
    let without = format_prompt(&conv, false).unwrap();
    assert_eq!(
        without,
        "<|audio|>tara: hi<|eot_id|><|audio|>leo: there<|eot_id|>"
    );
}

#[test]
fn empty_conversation_is_an_internal_defect() {
    let conv = Conversation { turns: Vec::new() };
    let err = format_prompt(&conv, true).unwrap_err();
    assert_eq!(err, PipelineError::EmptyConversation);
    assert_eq!(status_code(&err), 500);
}

#[test]
fn default_policy_builds_a_valid_config() {
    let config = SamplingConfigBuilder::default_policy().build().unwrap();
    assert!(config.top_p_milli > 0 && config.top_p_milli <= 1000);
    assert!(config.max_len > 0);
    assert!(!config.stop_token_ids.is_empty());
    assert_eq!(config.temperature_milli, 900);
    assert_eq!(config.top_k, 128);
    assert_eq!(config.frequency_penalty_milli, 1100);
    assert_eq!(config.max_len, 1200);
    assert_eq!(config.stop_token_ids, vec![END_OF_TURN_TOKEN]);
    assert_eq!(config.n_choices, 1);
}

#[test]
fn zero_top_p_is_rejected() {
    let err = SamplingConfigBuilder::default_policy()
        .with_top_p_milli(0)
        .build()
        .unwrap_err();
    assert_eq!(err, PipelineError::InvalidConfig);
}

#[test]
fn top_p_above_one_is_rejected() {
    let err = SamplingConfigBuilder::default_policy()
        .with_top_p_milli(1001)
        .build()
        .unwrap_err();
    assert_eq!(err, PipelineError::InvalidConfig);
}

#[test]
fn zero_max_len_is_rejected() {
    let err = SamplingConfigBuilder::default_policy()
        .with_max_len(0)
        .build()
        .unwrap_err();
    assert_eq!(err, PipelineError::InvalidConfig);
}

#[test]
fn empty_stop_condition_is_rejected() {
    let err = SamplingConfigBuilder::default_policy()
        .with_stop_tokens(Vec::new())
        .build()
        .unwrap_err();
    assert_eq!(err, PipelineError::InvalidConfig);
}

#[test]
fn top_p_boundary_of_one_is_accepted() {
    let config = SamplingConfigBuilder::default_policy()
        .with_top_p_milli(1000)
        .build()
        .unwrap();
    assert_eq!(config.top_p_milli, 1000);
}

#[test]
fn per_request_overrides_carry_through() {
    let config = SamplingConfigBuilder::default_policy()
        .with_temperature_milli(500)
        .with_top_k(0)
        .with_max_len(64)
        .build()
        .unwrap();
    assert_eq!(config.temperature_milli, 500);
    assert_eq!(config.top_k, 0);
    assert_eq!(config.max_len, 64);
}

#[test]
fn status_codes_follow_the_taxonomy() {
    assert_eq!(status_code(&PipelineError::InvalidRequest), 400);
    assert_eq!(status_code(&PipelineError::EmptyConversation), 500);
    assert_eq!(status_code(&PipelineError::InvalidConfig), 500);
    assert_eq!(status_code(&PipelineError::BackendUnavailable), 503);
    assert_eq!(status_code(&PipelineError::GenerationFailed), 500);
}
