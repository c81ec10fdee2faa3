use vstd::prelude::*;
use crate::model::{InferenceOutput, Model, ModelOptions};

verus! {

pub const DEFAULT_MAX_TOKENS: u32 = 75;
/// 1.1 in single precision.
pub const DEFAULT_REPEAT_PENALTY_BITS: u32 = 0x3F8C_CCCD;
pub const DEFAULT_REPEAT_PENALTY_LAST_N_TOKEN_COUNT: u32 = 64;
/// 0.0 in single precision.
pub const DEFAULT_TEMPERATURE_BITS: u32 = 0;
pub const DEFAULT_TOP_K: u32 = 40;
/// 0.9 in single precision.
pub const DEFAULT_TOP_P_BITS: u32 = 0x3F66_6666;

/// The endpoint's defaults for every parameter.
pub open spec fn endpoint_defaults() -> ModelOptions {
    ModelOptions {
        max_tokens: DEFAULT_MAX_TOKENS,
        repeat_penalty_bits: DEFAULT_REPEAT_PENALTY_BITS,
        repeat_penalty_last_n_token_count: DEFAULT_REPEAT_PENALTY_LAST_N_TOKEN_COUNT,
        temperature_bits: DEFAULT_TEMPERATURE_BITS,
        top_k: DEFAULT_TOP_K,
        top_p_bits: DEFAULT_TOP_P_BITS,
    }
}

pub open spec fn or_default(v: Option<u32>, d: u32) -> u32 {
    match v {
        Some(x) => x,
        None => d,
    }
}

/// Parameters of a raw inference request; real values as single-precision bit patterns.
#[derive(Clone, Copy, Debug, PartialEq, Eq, Structural)]
pub struct InferRequestOptions {
    pub max_tokens: Option<u32>,
    pub repeat_penalty_bits: Option<u32>,
    pub repeat_penalty_last_n_token_count: Option<u32>,
    pub temperature_bits: Option<u32>,
    pub top_k: Option<u32>,
    pub top_p_bits: Option<u32>,
}

impl Default for InferRequestOptions {
    fn default() -> (r: InferRequestOptions)
        ensures
            r.max_tokens == Some(DEFAULT_MAX_TOKENS),
            r.repeat_penalty_bits == Some(DEFAULT_REPEAT_PENALTY_BITS),
            r.repeat_penalty_last_n_token_count == Some(DEFAULT_REPEAT_PENALTY_LAST_N_TOKEN_COUNT),
            r.temperature_bits == Some(DEFAULT_TEMPERATURE_BITS),
            r.top_k == Some(DEFAULT_TOP_K),
            r.top_p_bits == Some(DEFAULT_TOP_P_BITS),
    {
        InferRequestOptions {
            max_tokens: Some(DEFAULT_MAX_TOKENS),
            repeat_penalty_bits: Some(DEFAULT_REPEAT_PENALTY_BITS),
            repeat_penalty_last_n_token_count: Some(DEFAULT_REPEAT_PENALTY_LAST_N_TOKEN_COUNT),
            temperature_bits: Some(DEFAULT_TEMPERATURE_BITS),
            top_k: Some(DEFAULT_TOP_K),
            top_p_bits: Some(DEFAULT_TOP_P_BITS),
        }
    }
}

fn value_or(v: Option<u32>, d: u32) -> (r: u32)
    ensures
        r == or_default(v, d),
{
    match v {
        Some(x) => x,
        None => d,
    }
}

impl InferRequestOptions {
    /// Every parameter that is given, the endpoint's default for the others.
    pub open spec fn params_of(self) -> ModelOptions {
        ModelOptions {
            max_tokens: or_default(self.max_tokens, DEFAULT_MAX_TOKENS),
            repeat_penalty_bits: or_default(self.repeat_penalty_bits, DEFAULT_REPEAT_PENALTY_BITS),
            repeat_penalty_last_n_token_count: or_default(
                self.repeat_penalty_last_n_token_count,
                DEFAULT_REPEAT_PENALTY_LAST_N_TOKEN_COUNT,
            ),
            temperature_bits: or_default(self.temperature_bits, DEFAULT_TEMPERATURE_BITS),
            top_k: or_default(self.top_k, DEFAULT_TOP_K),
            top_p_bits: or_default(self.top_p_bits, DEFAULT_TOP_P_BITS),
        }
    }

    pub fn into_params(self) -> (r: ModelOptions)
        ensures
            r == self.params_of(),
    {
        ModelOptions {
            max_tokens: value_or(self.max_tokens, DEFAULT_MAX_TOKENS),
            repeat_penalty_bits: value_or(self.repeat_penalty_bits, DEFAULT_REPEAT_PENALTY_BITS),
            repeat_penalty_last_n_token_count: value_or(
                self.repeat_penalty_last_n_token_count,
                DEFAULT_REPEAT_PENALTY_LAST_N_TOKEN_COUNT,
            ),
            temperature_bits: value_or(self.temperature_bits, DEFAULT_TEMPERATURE_BITS),
            top_k: value_or(self.top_k, DEFAULT_TOP_K),
            top_p_bits: value_or(self.top_p_bits, DEFAULT_TOP_P_BITS),
        }
    }
}

/// A raw inference request: a model name, a ready prompt, optional parameters.
#[derive(Clone, Debug)]
pub struct InferRequest {
    pub model: String,
    pub prompt: String,
    pub options: Option<InferRequestOptions>,
}

/// The model that a raw request's name stands for.
pub open spec fn endpoint_model(name: Seq<char>) -> Option<Model> {
    if name == "llama2-chat"@ {
        Some(Model::Llama2Chat)
    } else if name == "llama2-code"@ {
        Some(Model::CodellamaInstruct)
    } else {
        None
    }
}

impl InferRequest {
    /// The requested model; names other than `llama2-chat` and `llama2-code`
    /// are not supported.
    pub fn target_model(&self) -> (r: Option<Model>)
        ensures
            r == endpoint_model(self.model@),
    {
        if self.model == String::from_str("llama2-chat") {
            Some(Model::Llama2Chat)
        } else if self.model == String::from_str("llama2-code") {
            Some(Model::CodellamaInstruct)
        } else {
            None
        }
    }

    /// The parameters to run with: those given, the endpoint's defaults for the rest.
    pub fn params(&self) -> (r: ModelOptions)
        ensures
            self.options is None ==> r == endpoint_defaults(),
            self.options matches Some(o) ==> r == o.params_of(),
    {
        match self.options {
            Some(o) => o.into_params(),
            None => InferRequestOptions::default().into_params(),
        }
    }
}

/// Token counts of a raw inference.
#[derive(Clone, Copy, Debug, PartialEq, Eq, Structural)]
pub struct InferResponseUsage {
    pub prompt_token_count: u32,
    pub generated_token_count: u32,
}

/// The answer to a raw inference request.
#[derive(Clone, Debug)]
pub struct InferResponse {
    pub text: String,
    pub usage: InferResponseUsage,
}

impl InferResponse {
    /// The engine's output, passed on verbatim.
    pub fn from_output(output: InferenceOutput) -> (r: InferResponse)
        ensures
            r.text == output.text,
            r.usage.prompt_token_count == output.usage.prompt_token_count,
            r.usage.generated_token_count == output.usage.generated_token_count,
    {
        InferResponse {
            text: output.text,
            usage: InferResponseUsage {
                prompt_token_count: output.usage.prompt_token_count,
                generated_token_count: output.usage.generated_token_count,
            },
        }
    }
}

} // verus!
