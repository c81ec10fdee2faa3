use completion_chain::api::{
    InferRequest, InferRequestOptions, InferResponse, DEFAULT_MAX_TOKENS, DEFAULT_TOP_K,
};
use completion_chain::model::{InferenceOutput, Model, Usage};

fn raw(model: &str, options: Option<InferRequestOptions>) -> InferRequest {
    InferRequest { model: model.to_string(), prompt: "p".to_string(), options }
}

#[test]
fn endpoint_model_names() {
    assert_eq!(raw("llama2-chat", None).target_model(), Some(Model::Llama2Chat));
    assert_eq!(raw("llama2-code", None).target_model(), Some(Model::CodellamaInstruct));
    assert_eq!(raw("mistral", None).target_model(), None);
}

#[test]
fn endpoint_defaults_fill_missing_options() {
    let p = raw("llama2-chat", None).params();
    assert_eq!(p.max_tokens, 75);
    assert_eq!(f32::from_bits(p.repeat_penalty_bits), 1.1f32);
    assert_eq!(p.repeat_penalty_last_n_token_count, 64);
    assert_eq!(f32::from_bits(p.temperature_bits), 0.0f32);
    assert_eq!(p.top_k, 40);
    assert_eq!(f32::from_bits(p.top_p_bits), 0.9f32);
    let partial = InferRequestOptions {
        max_tokens: Some(10),
        repeat_penalty_bits: None,
        repeat_penalty_last_n_token_count: None,
        temperature_bits: Some(0.7f32.to_bits()),
        top_k: None,
        top_p_bits: None,
    };
    let p = raw("llama2-chat", Some(partial)).params();
    assert_eq!(p.max_tokens, 10);
    assert_eq!(f32::from_bits(p.temperature_bits), 0.7f32);
    assert_eq!(p.top_k, DEFAULT_TOP_K);
    assert_eq!(InferRequestOptions::default().max_tokens, Some(DEFAULT_MAX_TOKENS));
}

#[test]
fn infer_response_copies_output() {
    let r = InferResponse::from_output(InferenceOutput {
        text: "out".to_string(),
        usage: Usage { prompt_token_count: 3, generated_token_count: 4 },
    });
    assert_eq!(r.text, "out");
    assert_eq!(r.usage.prompt_token_count, 3);
    assert_eq!(r.usage.generated_token_count, 4);
}
