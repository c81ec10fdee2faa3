use completion_chain::chain::{
    ChainAction, ChainEvent, ChainState, CompletionChain, CompletionResponseCache,
    ContextRetriever, InferenceCall, PipelineError, TrackingRecord,
};
use completion_chain::model::{
    CompletionRequest, CompletionResponse, InferenceOutput, Message, MessageRole, Model,
    ModelOptions, Usage,
};
use completion_chain::options::{KvModelOptionsDefaults, ModelOptionsDefaults, StoredOptions};
use completion_chain::prompts::{FormatError, Llama2PromptFormatter, PromptFormatter};

type Chain = CompletionChain<KvModelOptionsDefaults, Llama2PromptFormatter>;

fn defaults() -> ModelOptions {
    ModelOptions {
        max_tokens: 100,
        repeat_penalty_bits: 1.1f32.to_bits(),
        repeat_penalty_last_n_token_count: 64,
        temperature_bits: 0.8f32.to_bits(),
        top_k: 40,
        top_p_bits: 0.9f32.to_bits(),
    }
}

fn system_user_request() -> CompletionRequest {
    CompletionRequest::new(
        Model::Llama2Chat,
        vec![
            Message::new(MessageRole::System, "Be helpful".to_string()),
            Message::new(MessageRole::User, "Hi".to_string()),
        ],
    )
}

struct FixedContext(Option<String>);

impl ContextRetriever for FixedContext {
    fn get(&self, _messages: &[Message]) -> Option<String> {
        self.0.clone()
    }
}

struct FixedCache(Option<CompletionResponse>);

impl CompletionResponseCache for FixedCache {
    fn check(&self, _call: &InferenceCall) -> Option<CompletionResponse> {
        self.0.clone()
    }
}

/// Runs a chain to its end; records every inference call it asks for.
fn run<O: ModelOptionsDefaults, F: PromptFormatter>(
    chain: &CompletionChain<O, F>,
    req: &CompletionRequest,
    stored: &StoredOptions,
    context: &dyn ContextRetriever,
    cache: &dyn CompletionResponseCache,
    calls: &mut Vec<(Model, String, ModelOptions)>,
) -> Result<CompletionResponse, PipelineError> {
    let mut state = ChainState::Start;
    let mut event = ChainEvent::Begin;
    loop {
        let (next, action) = chain.step(req, state, event);
        state = next;
        event = match action {
            ChainAction::ReadStoredOptions => ChainEvent::StoredOptions(stored.clone()),
            ChainAction::RetrieveContext => ChainEvent::Context(context.get(&req.messages)),
            ChainAction::CheckCache(call) => ChainEvent::Cached(cache.check(&call)),
            ChainAction::Infer(call) => {
                calls.push((call.model, call.prompt.clone(), call.params));
                ChainEvent::Inferred(Ok(InferenceOutput {
                    text: "Hello!".to_string(),
                    usage: Usage { prompt_token_count: 12, generated_token_count: 3 },
                }))
            }
            ChainAction::Record(_) => ChainEvent::Recorded(Ok(())),
            ChainAction::Finish(outcome) => return outcome,
        };
    }
}

#[test]
fn end_to_end_system_user_request() {
    let chain = Chain::new(defaults());
    let mut calls = Vec::new();
    let resp = run(
        &chain,
        &system_user_request(),
        &StoredOptions::empty(),
        &FixedContext(None),
        &FixedCache(None),
        &mut calls,
    )
    .unwrap();
    assert_eq!(calls.len(), 1);
    assert_eq!(calls[0].0, Model::Llama2Chat);
    assert_eq!(calls[0].1, "<s>[INST] <<SYS>>\nBe helpful\n<</SYS>>\n\nHi [/INST]");
    assert_eq!(calls[0].2, defaults());
    assert_eq!(resp.content, "Hello!");
    assert_eq!(resp.usage, Usage { prompt_token_count: 12, generated_token_count: 3 });
    assert_eq!(resp.id.len(), 26);
    assert!(resp.created > 1_600_000_000);
}

#[test]
fn non_empty_context_stops_before_inference() {
    let mut chain = Chain::new(defaults());
    chain.with_context();
    let mut calls = Vec::new();
    let out = run(
        &chain,
        &system_user_request(),
        &StoredOptions::empty(),
        &FixedContext(Some("extra".to_string())),
        &FixedCache(None),
        &mut calls,
    );
    assert!(matches!(out, Err(PipelineError::UnsupportedFeature)));
    assert_eq!(calls.len(), 0);
}

#[test]
fn empty_context_lets_the_call_go_on() {
    let mut chain = Chain::new(defaults());
    chain.with_context();
    let mut calls = Vec::new();
    let out = run(
        &chain,
        &system_user_request(),
        &StoredOptions::empty(),
        &FixedContext(Some(String::new())),
        &FixedCache(None),
        &mut calls,
    );
    assert!(out.is_ok());
    assert_eq!(calls.len(), 1);
}

#[test]
fn cache_hit_skips_inference() {
    let mut chain = Chain::new(defaults());
    chain.with_cache();
    let cached = CompletionResponse {
        id: "cached-id".to_string(),
        created: 7,
        content: "from cache".to_string(),
        usage: Usage { prompt_token_count: 1, generated_token_count: 2 },
    };
    let mut calls = Vec::new();
    let resp = run(
        &chain,
        &system_user_request(),
        &StoredOptions::empty(),
        &FixedContext(None),
        &FixedCache(Some(cached)),
        &mut calls,
    )
    .unwrap();
    assert_eq!(calls.len(), 0);
    assert_eq!(resp.id, "cached-id");
    assert_eq!(resp.content, "from cache");
}

#[test]
fn cache_miss_infers_once() {
    let mut chain = Chain::new(defaults());
    chain.with_cache();
    let mut calls = Vec::new();
    let out = run(
        &chain,
        &system_user_request(),
        &StoredOptions::empty(),
        &FixedContext(None),
        &FixedCache(None),
        &mut calls,
    );
    assert!(out.is_ok());
    assert_eq!(calls.len(), 1);
}

#[test]
fn stored_options_reach_the_engine() {
    let mut chain = Chain::new(defaults());
    chain.with_options(KvModelOptionsDefaults::new(false));
    let mut stored = StoredOptions::empty();
    stored.max_tokens = Some(256u32.to_be_bytes().to_vec());
    stored.top_k = Some(vec![9]);
    let mut req = system_user_request();
    req.temperature_bits = Some(0.1f32.to_bits());
    let mut calls = Vec::new();
    run(&chain, &req, &stored, &FixedContext(None), &FixedCache(None), &mut calls).unwrap();
    assert_eq!(calls.len(), 1);
    assert_eq!(calls[0].2.max_tokens, 256);
    assert_eq!(calls[0].2.top_k, 40);
    assert_eq!(f32::from_bits(calls[0].2.temperature_bits), 0.1);
}

#[test]
fn malformed_messages_never_reach_the_engine() {
    let chain = Chain::new(defaults());
    let req = CompletionRequest::new(
        Model::CodellamaInstruct,
        vec![Message::new(MessageRole::Assistant, "a".to_string())],
    );
    let mut calls = Vec::new();
    let out = run(
        &chain,
        &req,
        &StoredOptions::empty(),
        &FixedContext(None),
        &FixedCache(None),
        &mut calls,
    );
    assert!(matches!(out, Err(PipelineError::Validation(FormatError::InvalidFirstRole))));
    assert_eq!(calls.len(), 0);
}

#[test]
fn missing_formatter_is_a_configuration_error() {
    let mut chain = Chain::new(defaults());
    chain.without_formatter();
    let mut calls = Vec::new();
    let out = run(
        &chain,
        &system_user_request(),
        &StoredOptions::empty(),
        &FixedContext(None),
        &FixedCache(None),
        &mut calls,
    );
    assert!(matches!(out, Err(PipelineError::MissingFormatter)));
    assert_eq!(calls.len(), 0);
}

#[test]
fn inference_error_is_passed_on() {
    let chain = Chain::new(defaults());
    let req = system_user_request();
    let (state, action) = chain.step(&req, ChainState::Start, ChainEvent::Begin);
    assert!(matches!(action, ChainAction::Infer(_)));
    let (state, action) = chain.step(&req, state, ChainEvent::Inferred(Err("boom".to_string())));
    assert!(matches!(state, ChainState::Finished));
    match action {
        ChainAction::Finish(Err(PipelineError::Inference(m))) => assert_eq!(m, "boom"),
        other => panic!("unexpected {:?}", other),
    }
}

#[test]
fn event_out_of_order_ends_the_call() {
    let chain = Chain::new(defaults());
    let req = system_user_request();
    let (_, action) = chain.step(&req, ChainState::Start, ChainEvent::Context(None));
    assert!(matches!(action, ChainAction::Finish(Err(PipelineError::OutOfOrder))));
    let (_, action) = chain.step(&req, ChainState::Finished, ChainEvent::Begin);
    assert!(matches!(action, ChainAction::Finish(Err(PipelineError::OutOfOrder))));
}

#[test]
fn unsupported_feature_message() {
    assert_eq!(
        PipelineError::UnsupportedFeature.message(),
        "formatting with context is not yet supported"
    );
    assert_eq!(PipelineError::Inference("x".to_string()).message(), "x");
}

#[test]
fn responses_get_fresh_ids() {
    let out = || InferenceOutput {
        text: "t".to_string(),
        usage: Usage { prompt_token_count: 0, generated_token_count: 0 },
    };
    let a = CompletionResponse::from_output(out());
    let b = CompletionResponse::from_output(out());
    assert_eq!(a.id.len(), 26);
    assert!(!a.id.is_empty());
    assert_ne!(a.id, b.id);
    assert_ne!(a.id, "t");
    assert_eq!(a.content, "t");
}

#[test]
fn assemble_copies_fields() {
    let r = CompletionResponse::assemble(
        "id".to_string(),
        42,
        InferenceOutput {
            text: "x".to_string(),
            usage: Usage { prompt_token_count: 5, generated_token_count: 6 },
        },
    );
    assert_eq!(r.id, "id");
    assert_eq!(r.created, 42);
    assert_eq!(r.content, "x");
    assert_eq!(r.usage.generated_token_count, 6);
}

fn output() -> InferenceOutput {
    InferenceOutput {
        text: "answer".to_string(),
        usage: Usage { prompt_token_count: 4, generated_token_count: 5 },
    }
}

#[test]
fn successful_inference_is_recorded_with_its_usage() {
    let mut chain = Chain::new(defaults());
    chain.with_tracking();
    let req = system_user_request();
    let (state, _) = chain.step(&req, ChainState::Start, ChainEvent::Begin);
    let (state, action) = chain.step(&req, state, ChainEvent::Inferred(Ok(output())));
    match action {
        ChainAction::Record(TrackingRecord { call, usage, error }) => {
            assert_eq!(call.prompt, "<s>[INST] <<SYS>>\nBe helpful\n<</SYS>>\n\nHi [/INST]");
            assert_eq!(usage, Usage { prompt_token_count: 4, generated_token_count: 5 });
            assert!(error.is_none());
        }
        other => panic!("unexpected {:?}", other),
    }
    let (_, action) = chain.step(&req, state, ChainEvent::Recorded(Ok(())));
    match action {
        ChainAction::Finish(Ok(resp)) => assert_eq!(resp.content, "answer"),
        other => panic!("unexpected {:?}", other),
    }
}

#[test]
fn failed_inference_is_recorded_with_no_usage_and_its_error() {
    let mut chain = Chain::new(defaults());
    chain.with_tracking();
    let req = system_user_request();
    let (state, _) = chain.step(&req, ChainState::Start, ChainEvent::Begin);
    let (state, action) = chain.step(&req, state, ChainEvent::Inferred(Err("down".to_string())));
    match action {
        ChainAction::Record(TrackingRecord { usage, error, .. }) => {
            assert_eq!(usage, Usage { prompt_token_count: 0, generated_token_count: 0 });
            assert_eq!(error.as_deref(), Some("down"));
        }
        other => panic!("unexpected {:?}", other),
    }
    let (_, action) = chain.step(&req, state, ChainEvent::Recorded(Ok(())));
    assert!(matches!(action, ChainAction::Finish(Err(PipelineError::Inference(m))) if m == "down"));
}

#[test]
fn tracking_failure_keeps_the_outcome() {
    let mut chain = Chain::new(defaults());
    chain.with_tracking();
    let req = system_user_request();
    let (state, _) = chain.step(&req, ChainState::Start, ChainEvent::Begin);
    let (state, _) = chain.step(&req, state, ChainEvent::Inferred(Ok(output())));
    let (state, action) = chain.step(&req, state, ChainEvent::Recorded(Err("disk full".to_string())));
    assert!(matches!(state, ChainState::Finished));
    match action {
        ChainAction::Finish(Ok(resp)) => {
            assert_eq!(resp.content, "answer");
            assert_eq!(resp.usage.generated_token_count, 5);
        }
        other => panic!("unexpected {:?}", other),
    }
}

#[test]
fn stages_are_set_on_an_empty_chain() {
    let mut chain: Chain = CompletionChain::empty(defaults());
    chain.with_options(KvModelOptionsDefaults::new(true));
    chain.with_formatter(Llama2PromptFormatter::default());
    let mut stored = StoredOptions::empty();
    stored.max_tokens = Some(7u32.to_be_bytes().to_vec());
    let mut req = system_user_request();
    req.max_tokens = Some(500);
    let mut calls = Vec::new();
    run(&chain, &req, &stored, &FixedContext(None), &FixedCache(None), &mut calls).unwrap();
    assert_eq!(calls.len(), 1);
    assert_eq!(calls[0].1, "<s>[INST] <<SYS>>\nBe helpful\n<</SYS>>\n\nHi [/INST]");
    assert_eq!(calls[0].2.max_tokens, 7);
    assert_eq!(calls[0].2.top_k, 40);
}

#[test]
fn empty_chain_has_no_formatter() {
    let chain: Chain = CompletionChain::empty(defaults());
    let mut calls = Vec::new();
    let out = run(
        &chain,
        &system_user_request(),
        &StoredOptions::empty(),
        &FixedContext(None),
        &FixedCache(None),
        &mut calls,
    );
    assert!(matches!(out, Err(PipelineError::MissingFormatter)));
    assert_eq!(calls.len(), 0);
}

#[test]
fn every_error_has_its_message() {
    assert_eq!(PipelineError::Validation(FormatError::EmptyInput).message(), "no messages");
    assert_eq!(
        PipelineError::Validation(FormatError::InvalidFirstRole).message(),
        "the first message must not be an assistant message"
    );
    assert_eq!(
        PipelineError::Validation(FormatError::MisplacedSystemRole).message(),
        "a system message may only stand first"
    );
    assert_eq!(PipelineError::Validation(FormatError::InvalidRole).message(), "unknown message role");
    assert_eq!(PipelineError::MissingFormatter.message(), "formatter is required");
    assert_eq!(PipelineError::OutOfOrder.message(), "event out of order");
}
