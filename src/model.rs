use vstd::prelude::*;
use crate::prompts::FormatError;

verus! {

/// Who wrote a message of a chat.
#[derive(Clone, Copy, Debug, PartialEq, Eq, Structural)]
pub enum MessageRole {
    System,
    User,
    Assistant,
}

impl Default for MessageRole {
    fn default() -> (r: MessageRole)
        ensures
            r == MessageRole::User,
    {
        MessageRole::User
    }
}

impl MessageRole {
    /// The kebab-case name of the role.
    pub open spec fn name_of(self) -> Seq<char> {
        match self {
            MessageRole::System => "system"@,
            MessageRole::User => "user"@,
            MessageRole::Assistant => "assistant"@,
        }
    }

    /// The name of the role in a request or response body.
    pub open spec fn wire_name_of(self) -> Seq<char> {
        match self {
            MessageRole::System => "System"@,
            MessageRole::User => "User"@,
            MessageRole::Assistant => "Assistant"@,
        }
    }

    pub fn wire_name(&self) -> (r: &'static str)
        ensures
            r@ == self.wire_name_of(),
    {
        match self {
            MessageRole::System => "System",
            MessageRole::User => "User",
            MessageRole::Assistant => "Assistant",
        }
    }

    /// The role with the given body name; any other name is an invalid role.
    pub fn from_name(name: &str) -> (r: Result<MessageRole, FormatError>)
        ensures
            r matches Ok(role) ==> role.wire_name_of() == name@,
            r is Err ==> r == Err::<MessageRole, FormatError>(FormatError::InvalidRole)
                && name@ != MessageRole::System.wire_name_of() && name@
                != MessageRole::User.wire_name_of() && name@ != MessageRole::Assistant.wire_name_of(),
    {
        let given = String::from_str(name);
        if given == String::from_str("System") {
            Ok(MessageRole::System)
        } else if given == String::from_str("User") {
            Ok(MessageRole::User)
        } else if given == String::from_str("Assistant") {
            Ok(MessageRole::Assistant)
        } else {
            Err(FormatError::InvalidRole)
        }
    }

    /// The kebab-case name, as the tracking sink records it.
    pub fn as_str(&self) -> (r: &'static str)
        ensures
            r@ == self.name_of(),
    {
        match self {
            MessageRole::System => "system",
            MessageRole::User => "user",
            MessageRole::Assistant => "assistant",
        }
    }
}

/// One role-tagged message of a chat.
#[derive(Clone, Debug)]
pub struct Message {
    pub role: MessageRole,
    pub content: String,
}

impl Message {
    pub fn new(role: MessageRole, content: String) -> (r: Message)
        ensures
            r.role == role,
            r.content@ == content@,
    {
        Message { role, content }
    }
}

/// A chat model that the pipeline knows by name.
#[derive(Clone, Copy, Debug, PartialEq, Eq, Structural)]
pub enum Model {
    Llama2Chat,
    CodellamaInstruct,
}

impl Default for Model {
    fn default() -> (r: Model)
        ensures
            r == Model::Llama2Chat,
    {
        Model::Llama2Chat
    }
}

impl Model {
    /// The kebab-case name of the model.
    pub open spec fn name_of(self) -> Seq<char> {
        match self {
            Model::Llama2Chat => "llama2-chat"@,
            Model::CodellamaInstruct => "codellama-instruct"@,
        }
    }

    pub fn as_str(&self) -> (r: &'static str)
        ensures
            r@ == self.name_of(),
    {
        match self {
            Model::Llama2Chat => "llama2-chat",
            Model::CodellamaInstruct => "codellama-instruct",
        }
    }

    /// The model with the given name; unknown names are refused.
    pub fn from_name(name: &str) -> (r: Option<Model>)
        ensures
            r matches Some(m) ==> m.name_of() == name@,
            r is None ==> name@ != Model::Llama2Chat.name_of()
                && name@ != Model::CodellamaInstruct.name_of(),
    {
        let given = String::from_str(name);
        if given == String::from_str("llama2-chat") {
            Some(Model::Llama2Chat)
        } else if given == String::from_str("codellama-instruct") {
            Some(Model::CodellamaInstruct)
        } else {
            None
        }
    }
}

/// Generation parameters, all of them set.
///
/// The three real-valued parameters are held as the bit patterns of their
/// IEEE-754 single-precision values, so they pass through unchanged.
#[derive(Clone, Copy, Debug, PartialEq, Eq, Structural)]
pub struct ModelOptions {
    pub max_tokens: u32,
    pub repeat_penalty_bits: u32,
    pub repeat_penalty_last_n_token_count: u32,
    pub temperature_bits: u32,
    pub top_k: u32,
    pub top_p_bits: u32,
}

/// Token counts of one inference.
#[derive(Clone, Copy, Debug, PartialEq, Eq, Structural)]
pub struct Usage {
    pub prompt_token_count: u32,
    pub generated_token_count: u32,
}

/// A chat completion asked for by a caller, with optional per-field overrides.
///
/// Real-valued overrides are IEEE-754 single-precision bit patterns.
#[derive(Clone, Debug)]
pub struct CompletionRequest {
    pub model: Model,
    pub messages: Vec<Message>,
    pub user: Option<String>,
    pub max_tokens: Option<u32>,
    pub repeat_penalty_bits: Option<u32>,
    pub repeat_penalty_last_n_token_count: Option<u32>,
    pub temperature_bits: Option<u32>,
    pub top_k: Option<u32>,
    pub top_p_bits: Option<u32>,
}

impl CompletionRequest {
    /// A request for `model` on `messages` with no overrides.
    pub fn new(model: Model, messages: Vec<Message>) -> (r: CompletionRequest)
        ensures
            r.model == model,
            r.messages@ == messages@,
            r.user is None,
            r.max_tokens is None,
            r.repeat_penalty_bits is None,
            r.repeat_penalty_last_n_token_count is None,
            r.temperature_bits is None,
            r.top_k is None,
            r.top_p_bits is None,
    {
        CompletionRequest {
            model,
            messages,
            user: None,
            max_tokens: None,
            repeat_penalty_bits: None,
            repeat_penalty_last_n_token_count: None,
            temperature_bits: None,
            top_k: None,
            top_p_bits: None,
        }
    }
}

/// The answer to a completion request.
#[derive(Clone, Debug)]
pub struct CompletionResponse {
    pub id: String,
    pub created: u64,
    pub content: String,
    pub usage: Usage,
}

/// Relies on `ulid::Ulid::new` and its conversion into `String`: a new
/// identifier from the clock and a random source, written as 26 Crockford
/// base32 characters.
#[verifier::external_body]
fn fresh_ulid() -> (r: String)
    ensures
        r@.len() == 26,
{
    ulid::Ulid::new().into()
}

/// Relies on `SystemTime::elapsed` of `std::time::UNIX_EPOCH`: the whole
/// seconds since the epoch, or `None` where the clock stands before it.
#[verifier::external_body]
fn seconds_since_epoch() -> (r: Option<u64>) {
    match std::time::UNIX_EPOCH.elapsed() {
        Ok(d) => Some(d.as_secs()),
        Err(_) => None,
    }
}

impl CompletionResponse {
    /// A response that carries the given identity and the engine's output verbatim.
    pub fn assemble(id: String, created: u64, output: InferenceOutput) -> (r: CompletionResponse)
        ensures
            r.id == id,
            r.created == created,
            r.content == output.text,
            r.usage == output.usage,
    {
        CompletionResponse { id, created, content: output.text, usage: output.usage }
    }

    /// A response to the engine's output under a fresh identifier, stamped
    /// with the current time (zero where the clock stands before the epoch).
    pub fn from_output(output: InferenceOutput) -> (r: CompletionResponse)
        ensures
            r.id@.len() == 26,
            r.content == output.text,
            r.usage == output.usage,
    {
        let id = fresh_ulid();
        let created: u64 = match seconds_since_epoch() {
            Some(s) => s,
            None => 0,
        };
        Self::assemble(id, created, output)
    }
}

/// What the inference engine hands back: the generated text and its counts.
#[derive(Clone, Debug)]
pub struct InferenceOutput {
    pub text: String,
    pub usage: Usage,
}

} // verus!
