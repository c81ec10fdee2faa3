use vstd::prelude::*;
use crate::model::{CompletionRequest, ModelOptions};

verus! {

/// The four bytes of `b`, read as a big-endian integer; other lengths do not decode.
pub open spec fn decode_be_u32(b: Seq<u8>) -> Option<u32> {
    if b.len() == 4 {
        Some(
            (b[0] as int * 16777216 + b[1] as int * 65536 + b[2] as int * 256 + b[3] as int) as u32,
        )
    } else {
        None
    }
}

/// `prior`, replaced by the stored value where one is present and decodes.
pub open spec fn stored_or(prior: u32, stored: Option<Vec<u8>>) -> u32 {
    match stored {
        Some(b) => match decode_be_u32(b@) {
            Some(v) => v,
            None => prior,
        },
        None => prior,
    }
}

/// `prior`, replaced by the request's value where one is given and allowed.
pub open spec fn requested_or(prior: u32, requested: Option<u32>, ignore_request: bool) -> u32 {
    match requested {
        Some(v) => if ignore_request {
            prior
        } else {
            v
        },
        None => prior,
    }
}

/// One parameter: built-in default, then the stored value, then the request's.
pub open spec fn layered(
    default: u32,
    stored: Option<Vec<u8>>,
    requested: Option<u32>,
    ignore_request: bool,
) -> u32 {
    requested_or(stored_or(default, stored), requested, ignore_request)
}

/// The raw values found in the persisted store under each parameter's name;
/// `None` where the key is absent or could not be read.
#[derive(Clone, Debug)]
pub struct StoredOptions {
    pub max_tokens: Option<Vec<u8>>,
    pub repeat_penalty: Option<Vec<u8>>,
    pub repeat_penalty_last_n_token_count: Option<Vec<u8>>,
    pub temperature: Option<Vec<u8>>,
    pub top_k: Option<Vec<u8>>,
    pub top_p: Option<Vec<u8>>,
}

impl StoredOptions {
    /// A store that holds none of the parameters.
    pub fn empty() -> (r: StoredOptions)
        ensures
            r.max_tokens is None,
            r.repeat_penalty is None,
            r.repeat_penalty_last_n_token_count is None,
            r.temperature is None,
            r.top_k is None,
            r.top_p is None,
    {
        StoredOptions {
            max_tokens: None,
            repeat_penalty: None,
            repeat_penalty_last_n_token_count: None,
            temperature: None,
            top_k: None,
            top_p: None,
        }
    }
}

/// The parameters that built-in defaults, stored values and request overrides give.
pub open spec fn resolved_options(
    req: CompletionRequest,
    stored: StoredOptions,
    defaults: ModelOptions,
    ignore_request: bool,
) -> ModelOptions {
    ModelOptions {
        max_tokens: layered(defaults.max_tokens, stored.max_tokens, req.max_tokens, ignore_request),
        repeat_penalty_bits: layered(
            defaults.repeat_penalty_bits,
            stored.repeat_penalty,
            req.repeat_penalty_bits,
            ignore_request,
        ),
        repeat_penalty_last_n_token_count: layered(
            defaults.repeat_penalty_last_n_token_count,
            stored.repeat_penalty_last_n_token_count,
            req.repeat_penalty_last_n_token_count,
            ignore_request,
        ),
        temperature_bits: layered(
            defaults.temperature_bits,
            stored.temperature,
            req.temperature_bits,
            ignore_request,
        ),
        top_k: layered(defaults.top_k, stored.top_k, req.top_k, ignore_request),
        top_p_bits: layered(defaults.top_p_bits, stored.top_p, req.top_p_bits, ignore_request),
    }
}

/// Resolves generation parameters from the persisted store, optionally
/// letting the request's own values win.
#[derive(Clone, Copy, Debug)]
pub struct KvModelOptionsDefaults {
    pub ignore_request: bool,
}

impl KvModelOptionsDefaults {
    pub fn new(ignore_request: bool) -> (r: KvModelOptionsDefaults)
        ensures
            r.ignore_request == ignore_request,
    {
        KvModelOptionsDefaults { ignore_request }
    }

    /// Reads four bytes as a big-endian integer. A real-valued parameter is
    /// stored the same way, as the bit pattern of its single-precision value.
    pub fn val_into_u32(b: Vec<u8>) -> (r: Option<u32>)
        ensures
            r == decode_be_u32(b@),
    {
        if b.len() == 4 {
            let v: u32 = (b[0] as u32) * 16777216 + (b[1] as u32) * 65536 + (b[2] as u32) * 256
                + (b[3] as u32);
            Some(v)
        } else {
            None
        }
    }

    fn overlay_stored(prior: u32, stored: &Option<Vec<u8>>) -> (r: u32)
        ensures
            r == stored_or(prior, *stored),
    {
        match stored {
            Some(b) => match Self::val_into_u32(b.clone()) {
                Some(v) => v,
                None => prior,
            },
            None => prior,
        }
    }

    fn overlay_requested(&self, prior: u32, requested: Option<u32>) -> (r: u32)
        ensures
            r == requested_or(prior, requested, self.ignore_request),
    {
        match requested {
            Some(v) => if self.ignore_request {
                prior
            } else {
                v
            },
            None => prior,
        }
    }

    fn layer(&self, default: u32, stored: &Option<Vec<u8>>, requested: Option<u32>) -> (r: u32)
        ensures
            r == layered(default, *stored, requested, self.ignore_request),
    {
        let from_store = Self::overlay_stored(default, stored);
        self.overlay_requested(from_store, requested)
    }
}

/// A source of generation parameters: from the request, the values read from
/// the persisted store and the built-in defaults, the parameters to run with.
pub trait ModelOptionsDefaults {
    /// What `get` returns.
    spec fn options_of(
        &self,
        req: CompletionRequest,
        stored: StoredOptions,
        defaults: ModelOptions,
    ) -> ModelOptions;

    fn get(&self, req: &CompletionRequest, stored: &StoredOptions, defaults: &ModelOptions) -> (r:
        ModelOptions)
        ensures
            r == self.options_of(*req, *stored, *defaults),
    ;
}

impl ModelOptionsDefaults for KvModelOptionsDefaults {
    open spec fn options_of(
        &self,
        req: CompletionRequest,
        stored: StoredOptions,
        defaults: ModelOptions,
    ) -> ModelOptions {
        resolved_options(req, stored, defaults, self.ignore_request)
    }

    /// The parameters of `req`: each starts at its built-in default, takes the
    /// stored value where that is present and decodes, then the request's
    /// value where one is given and requests are not ignored.
    fn get(&self, req: &CompletionRequest, stored: &StoredOptions, defaults: &ModelOptions) -> (r:
        ModelOptions) {
        ModelOptions {
            max_tokens: self.layer(defaults.max_tokens, &stored.max_tokens, req.max_tokens),
            repeat_penalty_bits: self.layer(
                defaults.repeat_penalty_bits,
                &stored.repeat_penalty,
                req.repeat_penalty_bits,
            ),
            repeat_penalty_last_n_token_count: self.layer(
                defaults.repeat_penalty_last_n_token_count,
                &stored.repeat_penalty_last_n_token_count,
                req.repeat_penalty_last_n_token_count,
            ),
            temperature_bits: self.layer(
                defaults.temperature_bits,
                &stored.temperature,
                req.temperature_bits,
            ),
            top_k: self.layer(defaults.top_k, &stored.top_k, req.top_k),
            top_p_bits: self.layer(defaults.top_p_bits, &stored.top_p, req.top_p_bits),
        }
    }
}

/// A stored value that is present but does not decode changes nothing: each
/// such parameter keeps the value it had before the store was consulted (its
/// built-in default), and only a request override may still replace it.
pub proof fn lemma_undecodable_stored_value_keeps_default(
    req: CompletionRequest,
    stored: StoredOptions,
    defaults: ModelOptions,
    ignore_request: bool,
)
    ensures
        ({
            let r = resolved_options(req, stored, defaults, ignore_request);
            &&& (stored.max_tokens matches Some(b) && decode_be_u32(b@) is None) ==> r.max_tokens
                == requested_or(defaults.max_tokens, req.max_tokens, ignore_request)
            &&& (stored.repeat_penalty matches Some(b) && decode_be_u32(b@) is None)
                ==> r.repeat_penalty_bits == requested_or(
                defaults.repeat_penalty_bits,
                req.repeat_penalty_bits,
                ignore_request,
            )
            &&& (stored.repeat_penalty_last_n_token_count matches Some(b) && decode_be_u32(b@) is None)
                ==> r.repeat_penalty_last_n_token_count == requested_or(
                defaults.repeat_penalty_last_n_token_count,
                req.repeat_penalty_last_n_token_count,
                ignore_request,
            )
            &&& (stored.temperature matches Some(b) && decode_be_u32(b@) is None)
                ==> r.temperature_bits == requested_or(
                defaults.temperature_bits,
                req.temperature_bits,
                ignore_request,
            )
            &&& (stored.top_k matches Some(b) && decode_be_u32(b@) is None) ==> r.top_k
                == requested_or(defaults.top_k, req.top_k, ignore_request)
            &&& (stored.top_p matches Some(b) && decode_be_u32(b@) is None) ==> r.top_p_bits
                == requested_or(defaults.top_p_bits, req.top_p_bits, ignore_request)
        }),
{
}

/// A value that is present in the store and does not decode leaves the
/// parameter at its built-in default when the request gives none.
pub proof fn lemma_undecodable_stored_value_without_override(
    default: u32,
    stored: Vec<u8>,
    ignore_request: bool,
)
    requires
        decode_be_u32(stored@) is None,
    ensures
        layered(default, Some(stored), None, ignore_request) == default,
{
}

/// When requests are ignored, the overrides that a request carries make no
/// difference to the resolved parameters.
pub proof fn lemma_ignored_request_overrides(
    req1: CompletionRequest,
    req2: CompletionRequest,
    stored: StoredOptions,
    defaults: ModelOptions,
)
    ensures
        resolved_options(req1, stored, defaults, true) == resolved_options(
            req2,
            stored,
            defaults,
            true,
        ),
{
}

} // verus!
