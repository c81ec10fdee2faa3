use vstd::prelude::*;
use crate::model::{
    CompletionRequest, CompletionResponse, InferenceOutput, Message, MessageRole, Model,
    ModelOptions, Usage,
};
use crate::options::{KvModelOptionsDefaults, ModelOptionsDefaults, StoredOptions};
use crate::prompts::{
    block_separator, lemma_system_then_user, prompt_prefix, sys_block, usr_block, FormatError,
    Llama2PromptFormatter, PromptFormatter,
};

verus! {

/// Looks up a previously computed response for an equivalent call.
pub trait CompletionResponseCache {
    fn check(&self, call: &InferenceCall) -> Option<CompletionResponse>;
}

/// Looks up extra context for a list of messages.
pub trait ContextRetriever {
    fn get(&self, messages: &[Message]) -> Option<String>;
}

/// Why a completion call did not produce a response.
#[derive(Clone, Debug)]
pub enum PipelineError {
    /// The message sequence is malformed.
    Validation(FormatError),
    /// No prompt formatter is configured.
    MissingFormatter,
    /// Context-augmented formatting was asked for; it is not supported.
    UnsupportedFeature,
    /// The inference engine failed; its message is passed on unchanged.
    Inference(String),
    /// An event came that the current stage does not wait for.
    OutOfOrder,
}

/// The text of each error.
pub open spec fn message_of(e: PipelineError) -> Seq<char> {
    match e {
        PipelineError::Validation(FormatError::EmptyInput) => "no messages"@,
        PipelineError::Validation(FormatError::InvalidFirstRole) => "the first message must not be an assistant message"@,
        PipelineError::Validation(FormatError::MisplacedSystemRole) => "a system message may only stand first"@,
        PipelineError::Validation(FormatError::InvalidRole) => "unknown message role"@,
        PipelineError::MissingFormatter => "formatter is required"@,
        PipelineError::UnsupportedFeature => "formatting with context is not yet supported"@,
        PipelineError::Inference(m) => m@,
        PipelineError::OutOfOrder => "event out of order"@,
    }
}

impl PipelineError {
    /// A short description of the error.
    pub fn message(&self) -> (r: String)
        ensures
            r@ == message_of(*self),
    {
        match self {
            PipelineError::Validation(FormatError::EmptyInput) => String::from_str("no messages"),
            PipelineError::Validation(FormatError::InvalidFirstRole) => String::from_str(
                "the first message must not be an assistant message",
            ),
            PipelineError::Validation(FormatError::MisplacedSystemRole) => String::from_str(
                "a system message may only stand first",
            ),
            PipelineError::Validation(FormatError::InvalidRole) => String::from_str(
                "unknown message role",
            ),
            PipelineError::MissingFormatter => String::from_str("formatter is required"),
            PipelineError::UnsupportedFeature => String::from_str(
                "formatting with context is not yet supported",
            ),
            PipelineError::Inference(m) => m.clone(),
            PipelineError::OutOfOrder => String::from_str("event out of order"),
        }
    }
}

/// One call of the inference engine; it is also the key of the response cache.
#[derive(Debug)]
pub struct InferenceCall {
    pub model: Model,
    pub prompt: String,
    pub params: ModelOptions,
}

impl InferenceCall {
    pub fn duplicate(&self) -> (r: InferenceCall)
        ensures
            r == *self,
    {
        InferenceCall { model: self.model, prompt: self.prompt.clone(), params: self.params }
    }
}

/// What the tracking sink records of one inference: the call, the token
/// counts, and the engine's error message where it failed.
#[derive(Debug)]
pub struct TrackingRecord {
    pub call: InferenceCall,
    pub usage: Usage,
    pub error: Option<String>,
}

/// The token counts recorded for a failed inference.
pub open spec fn no_usage() -> Usage {
    Usage { prompt_token_count: 0, generated_token_count: 0 }
}

/// Where a completion call stands.
#[derive(Debug)]
pub enum ChainState {
    /// Nothing has happened yet.
    Start,
    /// Waiting for the values of the persisted store.
    Resolving,
    /// Waiting for the context retriever's answer.
    Retrieving { params: ModelOptions },
    /// Waiting for the cache's answer on `call`.
    CheckingCache { call: InferenceCall },
    /// Waiting for the inference engine to run `call`.
    Inferring { call: InferenceCall },
    /// Waiting for the tracking sink; `outcome` is what the call ends with.
    Recording { outcome: Result<CompletionResponse, PipelineError> },
    /// The call has ended.
    Finished,
}

/// What the runner of a chain hands it next.
#[derive(Debug)]
pub enum ChainEvent {
    /// The call begins.
    Begin,
    /// The values read from the persisted store.
    StoredOptions(StoredOptions),
    /// What the context retriever returned.
    Context(Option<String>),
    /// What the cache returned.
    Cached(Option<CompletionResponse>),
    /// What the inference engine returned, or its error message.
    Inferred(Result<InferenceOutput, String>),
    /// Whether the tracking sink stored the record, or its error message.
    Recorded(Result<(), String>),
}

/// What the runner of a chain must do next.
#[derive(Debug)]
pub enum ChainAction {
    /// Read the six parameters from the persisted store.
    ReadStoredOptions,
    /// Ask the context retriever about the request's messages.
    RetrieveContext,
    /// Ask the cache for a response to this call.
    CheckCache(InferenceCall),
    /// Run the inference engine on this call.
    Infer(InferenceCall),
    /// Hand this record, with the request's messages, to the tracking sink.
    Record(TrackingRecord),
    /// The call is over, with this outcome.
    Finish(Result<CompletionResponse, PipelineError>),
}

/// `c` asks the engine for `prompt` on `model` with `params`.
pub open spec fn is_call(c: InferenceCall, model: Model, prompt: Seq<char>, params: ModelOptions) -> bool {
    c.model == model && c.prompt@ == prompt && c.params == params
}

/// `r` ends the call with `outcome`.
pub open spec fn finishes(
    r: (ChainState, ChainAction),
    outcome: Result<CompletionResponse, PipelineError>,
) -> bool {
    r.0 is Finished && r.1 == ChainAction::Finish(outcome)
}

/// `resp` answers with the engine's output `out` under a fresh identifier.
pub open spec fn answers(resp: CompletionResponse, out: InferenceOutput) -> bool {
    resp.content == out.text && resp.usage == out.usage && resp.id@.len() == 26
}

/// The stages of a completion call, and what is configured for them: the
/// built-in parameter defaults, a source of parameters, a response cache, a
/// context retriever, a prompt formatter and a tracking sink.
pub struct CompletionChain<O, F> {
    pub defaults: ModelOptions,
    pub options: Option<O>,
    pub has_cache: bool,
    pub has_retriever: bool,
    pub formatter: Option<F>,
    pub has_tracking: bool,
}

impl CompletionChain<KvModelOptionsDefaults, Llama2PromptFormatter> {
    /// A chain with the given built-in defaults and the Llama 2 formatter,
    /// and no parameter source, cache, retriever or tracking sink.
    pub fn new(defaults: ModelOptions) -> (r: Self)
        ensures
            r.defaults == defaults,
            r.options is None,
            !r.has_cache,
            !r.has_retriever,
            r.formatter is Some,
            !r.has_tracking,
    {
        CompletionChain {
            defaults,
            options: None,
            has_cache: false,
            has_retriever: false,
            formatter: Some(Llama2PromptFormatter::default()),
            has_tracking: false,
        }
    }
}

impl<O: ModelOptionsDefaults, F: PromptFormatter> CompletionChain<O, F> {
    /// What follows once the call has its parameters `p` and its context check is passed.
    pub open spec fn after_context(self, req: CompletionRequest, p: ModelOptions, r: (
        ChainState,
        ChainAction,
    )) -> bool {
        match self.formatter {
            None => finishes(r, Err(PipelineError::MissingFormatter)),
            Some(f) => match f.prompt_of(req.messages@) {
                Err(e) => finishes(r, Err(PipelineError::Validation(e))),
                Ok(text) => if self.has_cache {
                    &&& r.0 matches ChainState::CheckingCache { call } && is_call(
                        call,
                        req.model,
                        text,
                        p,
                    )
                    &&& r.1 matches ChainAction::CheckCache(c) && is_call(c, req.model, text, p)
                } else {
                    &&& r.0 matches ChainState::Inferring { call } && is_call(
                        call,
                        req.model,
                        text,
                        p,
                    )
                    &&& r.1 matches ChainAction::Infer(c) && is_call(c, req.model, text, p)
                },
            },
        }
    }

    /// What follows once the call has its parameters `p`.
    pub open spec fn after_params(self, req: CompletionRequest, p: ModelOptions, r: (
        ChainState,
        ChainAction,
    )) -> bool {
        if self.has_retriever {
            r.0 == ChainState::Retrieving { params: p } && r.1 is RetrieveContext
        } else {
            self.after_context(req, p, r)
        }
    }

    /// What follows the engine's `result` on `call`.
    pub open spec fn after_inference(
        self,
        call: InferenceCall,
        result: Result<InferenceOutput, String>,
        r: (ChainState, ChainAction),
    ) -> bool {
        match result {
            Ok(out) => if self.has_tracking {
                &&& r.0 matches ChainState::Recording { outcome: Ok(resp) } && answers(resp, out)
                &&& r.1 == ChainAction::Record(
                    TrackingRecord { call, usage: out.usage, error: None },
                )
            } else {
                &&& r.0 is Finished
                &&& r.1 matches ChainAction::Finish(Ok(resp)) && answers(resp, out)
            },
            Err(m) => if self.has_tracking {
                &&& r.0 == ChainState::Recording { outcome: Err(PipelineError::Inference(m)) }
                &&& r.1 == ChainAction::Record(
                    TrackingRecord { call, usage: no_usage(), error: Some(m) },
                )
            } else {
                finishes(r, Err(PipelineError::Inference(m)))
            },
        }
    }

    /// One step of a completion call for `req`: from `state`, on `event`, the result `r`.
    pub open spec fn step_result(
        self,
        req: CompletionRequest,
        state: ChainState,
        event: ChainEvent,
        r: (ChainState, ChainAction),
    ) -> bool {
        match (state, event) {
            (ChainState::Start, ChainEvent::Begin) => match self.options {
                Some(_) => r.0 is Resolving && r.1 is ReadStoredOptions,
                None => self.after_params(req, self.defaults, r),
            },
            (ChainState::Resolving, ChainEvent::StoredOptions(stored)) => match self.options {
                Some(o) => self.after_params(req, o.options_of(req, stored, self.defaults), r),
                None => self.after_params(req, self.defaults, r),
            },
            (ChainState::Retrieving { params }, ChainEvent::Context(found)) => match found {
                Some(text) => if text@.len() > 0 {
                    finishes(r, Err(PipelineError::UnsupportedFeature))
                } else {
                    self.after_context(req, params, r)
                },
                None => self.after_context(req, params, r),
            },
            (ChainState::CheckingCache { call }, ChainEvent::Cached(hit)) => match hit {
                Some(resp) => finishes(r, Ok(resp)),
                None => r.0 == ChainState::Inferring { call } && r.1 == ChainAction::Infer(call),
            },
            (ChainState::Inferring { call }, ChainEvent::Inferred(result)) => self.after_inference(
                call,
                result,
                r,
            ),
            (ChainState::Recording { outcome }, ChainEvent::Recorded(_)) => finishes(r, outcome),
            _ => finishes(r, Err(PipelineError::OutOfOrder)),
        }
    }

    /// A chain with the given built-in defaults and nothing else configured,
    /// not even a formatter.
    pub fn empty(defaults: ModelOptions) -> (r: Self)
        ensures
            r.defaults == defaults,
            r.options is None,
            !r.has_cache,
            !r.has_retriever,
            r.formatter is None,
            !r.has_tracking,
    {
        CompletionChain {
            defaults,
            options: None,
            has_cache: false,
            has_retriever: false,
            formatter: None,
            has_tracking: false,
        }
    }

    /// Uses `options` as the source of parameters.
    pub fn with_options(&mut self, options: O)
        ensures
            *final(self) == (CompletionChain { options: Some(options), ..*old(self) }),
    {
        self.options = Some(options);
    }

    /// Declares that the runner consults a response cache.
    pub fn with_cache(&mut self)
        ensures
            *final(self) == (CompletionChain { has_cache: true, ..*old(self) }),
    {
        self.has_cache = true;
    }

    /// Declares that the runner consults a context retriever.
    pub fn with_context(&mut self)
        ensures
            *final(self) == (CompletionChain { has_retriever: true, ..*old(self) }),
    {
        self.has_retriever = true;
    }

    /// Uses `formatter` to turn messages into the prompt.
    pub fn with_formatter(&mut self, formatter: F)
        ensures
            *final(self) == (CompletionChain { formatter: Some(formatter), ..*old(self) }),
    {
        self.formatter = Some(formatter);
    }

    /// Leaves the chain without a prompt formatter.
    pub fn without_formatter(&mut self)
        ensures
            *final(self) == (CompletionChain { formatter: None, ..*old(self) }),
    {
        self.formatter = None;
    }

    /// Declares that the runner hands every inference to a tracking sink.
    pub fn with_tracking(&mut self)
        ensures
            *final(self) == (CompletionChain { has_tracking: true, ..*old(self) }),
    {
        self.has_tracking = true;
    }

    fn format_stage(&self, req: &CompletionRequest, params: ModelOptions) -> (r: (
        ChainState,
        ChainAction,
    ))
        ensures
            self.after_context(*req, params, r),
    {
        match &self.formatter {
            None => (ChainState::Finished, ChainAction::Finish(Err(PipelineError::MissingFormatter))),
            Some(f) => match f.format(req.messages.as_slice()) {
                Err(e) => (ChainState::Finished, ChainAction::Finish(Err(PipelineError::Validation(e)))),
                Ok(prompt) => {
                    let call = InferenceCall { model: req.model, prompt, params };
                    let key = call.duplicate();
                    if self.has_cache {
                        (ChainState::CheckingCache { call }, ChainAction::CheckCache(key))
                    } else {
                        (ChainState::Inferring { call }, ChainAction::Infer(key))
                    }
                },
            },
        }
    }

    fn params_stage(&self, req: &CompletionRequest, params: ModelOptions) -> (r: (
        ChainState,
        ChainAction,
    ))
        ensures
            self.after_params(*req, params, r),
    {
        if self.has_retriever {
            (ChainState::Retrieving { params }, ChainAction::RetrieveContext)
        } else {
            self.format_stage(req, params)
        }
    }

    fn inference_stage(&self, call: InferenceCall, result: Result<InferenceOutput, String>) -> (r: (
        ChainState,
        ChainAction,
    ))
        ensures
            self.after_inference(call, result, r),
    {
        match result {
            Ok(out) => {
                let usage = out.usage;
                let resp = CompletionResponse::from_output(out);
                if self.has_tracking {
                    (
                        ChainState::Recording { outcome: Ok(resp) },
                        ChainAction::Record(TrackingRecord { call, usage, error: None }),
                    )
                } else {
                    (ChainState::Finished, ChainAction::Finish(Ok(resp)))
                }
            },
            Err(m) => if self.has_tracking {
                let text = m.clone();
                (
                    ChainState::Recording { outcome: Err(PipelineError::Inference(m)) },
                    ChainAction::Record(
                        TrackingRecord {
                            call,
                            usage: Usage { prompt_token_count: 0, generated_token_count: 0 },
                            error: Some(text),
                        },
                    ),
                )
            } else {
                (ChainState::Finished, ChainAction::Finish(Err(PipelineError::Inference(m))))
            },
        }
    }

    /// Advances a completion call for `req` by one stage: from `state`, on
    /// `event`, to the next state and the action that the runner performs.
    /// Parameters are resolved first, then the context check, formatting and
    /// the cache lookup by the resolved call; the engine runs only after all
    /// of them passed, and the tracking sink, if any, after the engine.
    pub fn step(&self, req: &CompletionRequest, state: ChainState, event: ChainEvent) -> (r: (
        ChainState,
        ChainAction,
    ))
        ensures
            self.step_result(*req, state, event, r),
    {
        match (state, event) {
            (ChainState::Start, ChainEvent::Begin) => match &self.options {
                Some(_) => (ChainState::Resolving, ChainAction::ReadStoredOptions),
                None => self.params_stage(req, self.defaults),
            },
            (ChainState::Resolving, ChainEvent::StoredOptions(stored)) => match &self.options {
                Some(o) => {
                    let params = o.get(req, &stored, &self.defaults);
                    self.params_stage(req, params)
                },
                None => self.params_stage(req, self.defaults),
            },
            (ChainState::Retrieving { params }, ChainEvent::Context(found)) => match found {
                Some(text) => if text.as_str().is_empty() {
                    self.format_stage(req, params)
                } else {
                    (ChainState::Finished, ChainAction::Finish(Err(PipelineError::UnsupportedFeature)))
                },
                None => self.format_stage(req, params),
            },
            (ChainState::CheckingCache { call }, ChainEvent::Cached(hit)) => match hit {
                Some(resp) => (ChainState::Finished, ChainAction::Finish(Ok(resp))),
                None => {
                    let key = call.duplicate();
                    (ChainState::Inferring { call }, ChainAction::Infer(key))
                },
            },
            (ChainState::Inferring { call }, ChainEvent::Inferred(result)) => self.inference_stage(
                call,
                result,
            ),
            (ChainState::Recording { outcome }, ChainEvent::Recorded(_)) => (
                ChainState::Finished,
                ChainAction::Finish(outcome),
            ),
            _ => (ChainState::Finished, ChainAction::Finish(Err(PipelineError::OutOfOrder))),
        }
    }
}

/// The context retriever's answer `found` lets the call go on.
pub open spec fn context_passes(found: Option<String>) -> bool {
    match found {
        Some(text) => text@.len() == 0,
        None => true,
    }
}

/// `event` is the retriever's answer and it lets the call go on.
pub open spec fn context_cleared(event: ChainEvent) -> bool {
    match event {
        ChainEvent::Context(found) => context_passes(found),
        _ => false,
    }
}

/// `event` is the retriever's answer and it holds context.
pub open spec fn context_found(event: ChainEvent) -> bool {
    match event {
        ChainEvent::Context(found) => !context_passes(found),
        _ => false,
    }
}

/// With a context retriever configured, the engine is reached only through
/// the retriever: a step asks for inference or a cache lookup only after the
/// retriever answered with nothing, or on a cache miss that itself follows
/// such an answer. A non-empty answer ends the call as unsupported, and an
/// ended call never asks for anything again.
pub proof fn lemma_context_gates_inference<O: ModelOptionsDefaults, F: PromptFormatter>(
    chain: CompletionChain<O, F>,
    req: CompletionRequest,
    state: ChainState,
    event: ChainEvent,
    r: (ChainState, ChainAction),
)
    requires
        chain.has_retriever,
        chain.step_result(req, state, event, r),
    ensures
        r.1 is Infer ==> state is CheckingCache || (state is Retrieving && context_cleared(event)),
        r.0 is CheckingCache ==> state is Retrieving && context_cleared(event),
        (state is Retrieving && context_found(event)) ==> finishes(
            r,
            Err(PipelineError::UnsupportedFeature),
        ),
        state is Finished ==> finishes(r, Err(PipelineError::OutOfOrder)),
{
}

/// The tracking sink's answer never changes how a call ends: whatever it
/// reports, success or failure, the call ends with the outcome that the
/// engine's result had already fixed.
pub proof fn lemma_tracking_keeps_outcome<O: ModelOptionsDefaults, F: PromptFormatter>(
    chain: CompletionChain<O, F>,
    req: CompletionRequest,
    outcome: Result<CompletionResponse, PipelineError>,
    written: Result<(), String>,
    r: (ChainState, ChainAction),
)
    requires
        chain.step_result(
            req,
            (ChainState::Recording { outcome }),
            ChainEvent::Recorded(written),
            r,
        ),
    ensures
        finishes(r, outcome),
{
}

/// With a tracking sink, a failed inference is recorded with no token counts
/// and the engine's message, and the call then ends with that failure.
pub proof fn lemma_failed_inference_is_recorded<O: ModelOptionsDefaults, F: PromptFormatter>(
    chain: CompletionChain<O, F>,
    req: CompletionRequest,
    call: InferenceCall,
    m: String,
    r: (ChainState, ChainAction),
)
    requires
        chain.has_tracking,
        chain.step_result(
            req,
            (ChainState::Inferring { call }),
            ChainEvent::Inferred(Err(m)),
            r,
        ),
    ensures
        r.1 == ChainAction::Record((TrackingRecord { call, usage: no_usage(), error: Some(m) })),
        r.0 == (ChainState::Recording { outcome: Err(PipelineError::Inference(m)) }),
{
}

/// A chain with built-in defaults only and the Llama 2 formatter, on a system
/// message followed by a user message: the first step already asks the
/// engine, once, for the system block followed by the user block, with the
/// built-in defaults.
pub proof fn lemma_system_user_request_reaches_engine<O: ModelOptionsDefaults>(
    chain: CompletionChain<O, Llama2PromptFormatter>,
    req: CompletionRequest,
    r: (ChainState, ChainAction),
)
    requires
        chain.options is None,
        !chain.has_cache,
        !chain.has_retriever,
        chain.formatter is Some,
        req.messages@.len() == 2,
        req.messages@[0].role == MessageRole::System,
        req.messages@[1].role == MessageRole::User,
        chain.step_result(req, ChainState::Start, ChainEvent::Begin, r),
    ensures
        r.0 is Inferring,
        r.1 matches ChainAction::Infer(c) && is_call(
            c,
            req.model,
            prompt_prefix() + sys_block(req.messages@[0].content@) + block_separator() + usr_block(
                req.messages@[1].content@,
            ),
            chain.defaults,
        ),
{
    lemma_system_then_user(req.messages@);
}

} // verus!
