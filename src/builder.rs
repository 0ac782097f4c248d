use vstd::prelude::*;
use crate::chat::GenerationParams;
use crate::error::RllmError;

verus! {

/// Supported backends.
#[derive(Debug, Clone, Copy, PartialEq, Eq, Structural)]
pub enum LLMBackend {
    OpenAI,
    Anthropic,
    Ollama,
    DeepSeek,
    XAI,
    Phind,
}

/// Backends that cannot be configured without an API key.
pub open spec fn needs_api_key(b: LLMBackend) -> bool {
    b is OpenAI || b is Anthropic || b is DeepSeek || b is XAI
}

/// The address used for a self-hosted Ollama when none is given.
pub open spec fn ollama_default_url() -> Seq<char> {
    "http://localhost:11434"@
}

/// The view of an optional string.
pub open spec fn opt_view(o: Option<String>) -> Option<Seq<char>> {
    match o {
        Some(s) => Some(s@),
        None => None,
    }
}

/// Settings collected by a builder, in their mathematical form.
pub struct BuilderView<V> {
    pub backend: Option<LLMBackend>,
    pub api_key: Option<Seq<char>>,
    pub base_url: Option<Seq<char>>,
    pub model: Option<Seq<char>>,
    pub system: Option<Seq<char>>,
    pub params: GenerationParams,
    pub timeout_seconds: Option<u64>,
    pub stream: Option<bool>,
    pub embedding_encoding_format: Option<Seq<char>>,
    pub embedding_dimensions: Option<u32>,
    pub validator: Option<V>,
    pub validator_attempts: usize,
}

/// A checked provider configuration: a backend with what it needs to be built.
#[derive(Debug)]
pub struct ProviderConfig<V> {
    pub backend: LLMBackend,
    pub api_key: Option<String>,
    pub base_url: Option<String>,
    pub model: Option<String>,
    pub system: Option<String>,
    pub params: GenerationParams,
    pub timeout_seconds: Option<u64>,
    pub stream: Option<bool>,
    pub embedding_encoding_format: Option<String>,
    pub embedding_dimensions: Option<u32>,
    pub validator: Option<V>,
    pub validator_attempts: usize,
}

/// Whether `b` occurs in the table of available backends.
pub fn is_available(b: LLMBackend, available: &[LLMBackend]) -> (r: bool)
    ensures
        r == available@.contains(b),
{
    let n = available.len();
    let mut i: usize = 0;
    while i < n
        invariant
            n == available@.len(),
            i <= n,
            forall|k: int| 0 <= k < i ==> available@[k] != b,
        decreases n - i,
    {
        if available[i] == b {
            return true;
        }
        i = i + 1;
    }
    false
}

/// Collects provider settings and checks them eagerly in `build`.
pub struct LLMBuilder<V> {
    backend: Option<LLMBackend>,
    api_key: Option<String>,
    base_url: Option<String>,
    model: Option<String>,
    system: Option<String>,
    params: GenerationParams,
    timeout_seconds: Option<u64>,
    stream: Option<bool>,
    embedding_encoding_format: Option<String>,
    embedding_dimensions: Option<u32>,
    validator: Option<V>,
    validator_attempts: usize,
}

impl<V> View for LLMBuilder<V> {
    type V = BuilderView<V>;

    closed spec fn view(&self) -> BuilderView<V> {
        BuilderView {
            backend: self.backend,
            api_key: opt_view(self.api_key),
            base_url: opt_view(self.base_url),
            model: opt_view(self.model),
            system: opt_view(self.system),
            params: self.params,
            timeout_seconds: self.timeout_seconds,
            stream: self.stream,
            embedding_encoding_format: opt_view(self.embedding_encoding_format),
            embedding_dimensions: self.embedding_dimensions,
            validator: self.validator,
            validator_attempts: self.validator_attempts,
        }
    }
}

/// The validator type of a builder that has none.
#[derive(Debug, Clone, Copy)]
pub struct NoValidator;

impl LLMBuilder<NoValidator> {
    /// A builder with nothing set.
    pub fn new() -> (r: Self)
        ensures
            r@ == (BuilderView::<NoValidator> {
                backend: None,
                api_key: None,
                base_url: None,
                model: None,
                system: None,
                params: GenerationParams {
                    max_tokens: None,
                    temperature_milli: None,
                    top_p_milli: None,
                    top_k: None,
                },
                timeout_seconds: None,
                stream: None,
                embedding_encoding_format: None,
                embedding_dimensions: None,
                validator: None,
                validator_attempts: 0,
            }),
    {
        LLMBuilder {
            backend: None,
            api_key: None,
            base_url: None,
            model: None,
            system: None,
            params: GenerationParams {
                max_tokens: None,
                temperature_milli: None,
                top_p_milli: None,
                top_k: None,
            },
            timeout_seconds: None,
            stream: None,
            embedding_encoding_format: None,
            embedding_dimensions: None,
            validator: None,
            validator_attempts: 0,
        }
    }
}

impl<V> LLMBuilder<V> {

    /// Sets the backend.
    pub fn backend(self, backend: LLMBackend) -> (r: Self)
        ensures
            r@ == (BuilderView { backend: Some(backend), ..self@ }),
    {
        LLMBuilder { backend: Some(backend), ..self }
    }

    /// Sets the API key.
    pub fn api_key(self, key: String) -> (r: Self)
        ensures
            r@ == (BuilderView { api_key: Some(key@), ..self@ }),
    {
        LLMBuilder { api_key: Some(key), ..self }
    }

    /// Sets the base URL of the service.
    pub fn base_url(self, url: String) -> (r: Self)
        ensures
            r@ == (BuilderView { base_url: Some(url@), ..self@ }),
    {
        LLMBuilder { base_url: Some(url), ..self }
    }

    /// Sets the model name.
    pub fn model(self, model: String) -> (r: Self)
        ensures
            r@ == (BuilderView { model: Some(model@), ..self@ }),
    {
        LLMBuilder { model: Some(model), ..self }
    }

    /// Sets the maximum number of tokens to generate.
    pub fn max_tokens(self, max_tokens: u32) -> (r: Self)
        ensures
            r@ == (BuilderView {
                params: GenerationParams { max_tokens: Some(max_tokens), ..self@.params },
                ..self@
            }),
    {
        LLMBuilder { params: GenerationParams { max_tokens: Some(max_tokens), ..self.params }, ..self }
    }

    /// Sets the sampling temperature, in thousandths.
    pub fn temperature(self, temperature_milli: u32) -> (r: Self)
        ensures
            r@ == (BuilderView {
                params: GenerationParams { temperature_milli: Some(temperature_milli), ..self@.params },
                ..self@
            }),
    {
        LLMBuilder {
            params: GenerationParams { temperature_milli: Some(temperature_milli), ..self.params },
            ..self
        }
    }

    /// Sets the system prompt.
    pub fn system(self, system: String) -> (r: Self)
        ensures
            r@ == (BuilderView { system: Some(system@), ..self@ }),
    {
        LLMBuilder { system: Some(system), ..self }
    }

    /// Sets the request timeout in seconds.
    pub fn timeout_seconds(self, timeout_seconds: u64) -> (r: Self)
        ensures
            r@ == (BuilderView { timeout_seconds: Some(timeout_seconds), ..self@ }),
    {
        LLMBuilder { timeout_seconds: Some(timeout_seconds), ..self }
    }

    /// Enables or disables streamed responses.
    pub fn stream(self, stream: bool) -> (r: Self)
        ensures
            r@ == (BuilderView { stream: Some(stream), ..self@ }),
    {
        LLMBuilder { stream: Some(stream), ..self }
    }

    /// Sets nucleus sampling, in thousandths.
    pub fn top_p(self, top_p_milli: u32) -> (r: Self)
        ensures
            r@ == (BuilderView {
                params: GenerationParams { top_p_milli: Some(top_p_milli), ..self@.params },
                ..self@
            }),
    {
        LLMBuilder { params: GenerationParams { top_p_milli: Some(top_p_milli), ..self.params }, ..self }
    }

    /// Sets top-k sampling.
    pub fn top_k(self, top_k: u32) -> (r: Self)
        ensures
            r@ == (BuilderView {
                params: GenerationParams { top_k: Some(top_k), ..self@.params },
                ..self@
            }),
    {
        LLMBuilder { params: GenerationParams { top_k: Some(top_k), ..self.params }, ..self }
    }

    /// Sets the encoding format of embeddings.
    pub fn embedding_encoding_format(self, format: String) -> (r: Self)
        ensures
            r@ == (BuilderView { embedding_encoding_format: Some(format@), ..self@ }),
    {
        LLMBuilder { embedding_encoding_format: Some(format), ..self }
    }

    /// Sets the dimension of embeddings.
    pub fn embedding_dimensions(self, dimensions: u32) -> (r: Self)
        ensures
            r@ == (BuilderView { embedding_dimensions: Some(dimensions), ..self@ }),
    {
        LLMBuilder { embedding_dimensions: Some(dimensions), ..self }
    }

    /// Sets the validator of responses: text to `Ok(())`, or to the reason it is
    /// invalid. The built provider is then wrapped with it.
    pub fn validator<F>(self, f: F) -> (r: LLMBuilder<F>)
        ensures
            r@ == (BuilderView {
                backend: self@.backend,
                api_key: self@.api_key,
                base_url: self@.base_url,
                model: self@.model,
                system: self@.system,
                params: self@.params,
                timeout_seconds: self@.timeout_seconds,
                stream: self@.stream,
                embedding_encoding_format: self@.embedding_encoding_format,
                embedding_dimensions: self@.embedding_dimensions,
                validator: Some(f),
                validator_attempts: self@.validator_attempts,
            }),
    {
        LLMBuilder {
            backend: self.backend,
            api_key: self.api_key,
            base_url: self.base_url,
            model: self.model,
            system: self.system,
            params: self.params,
            timeout_seconds: self.timeout_seconds,
            stream: self.stream,
            embedding_encoding_format: self.embedding_encoding_format,
            embedding_dimensions: self.embedding_dimensions,
            validator: Some(f),
            validator_attempts: self.validator_attempts,
        }
    }

    /// Sets how many inner calls a validated provider may make per request.
    pub fn validator_attempts(self, attempts: usize) -> (r: Self)
        ensures
            r@ == (BuilderView { validator_attempts: attempts, ..self@ }),
    {
        LLMBuilder { validator_attempts: attempts, ..self }
    }

    /// Checks the settings: a backend must be chosen, it must be among the
    /// `available` ones, and the hosted backends need an API key. A self-hosted
    /// Ollama without a base URL gets the local default address.
    pub fn build(self, available: &[LLMBackend]) -> (r: Result<ProviderConfig<V>, RllmError>)
        ensures
            r is Ok <==> (self@.backend matches Some(b) && available@.contains(b) && (needs_api_key(b)
                ==> self@.api_key is Some)),
            match r {
                Ok(c) => {
                    &&& Some(c.backend) == self@.backend
                    &&& opt_view(c.api_key) == self@.api_key
                    &&& opt_view(c.base_url) == (if c.backend is Ollama && self@.base_url is None {
                        Some(ollama_default_url())
                    } else {
                        self@.base_url
                    })
                    &&& opt_view(c.model) == self@.model
                    &&& opt_view(c.system) == self@.system
                    &&& c.params == self@.params
                    &&& c.timeout_seconds == self@.timeout_seconds
                    &&& c.stream == self@.stream
                    &&& opt_view(c.embedding_encoding_format) == self@.embedding_encoding_format
                    &&& c.embedding_dimensions == self@.embedding_dimensions
                    &&& c.validator == self@.validator
                    &&& c.validator_attempts == self@.validator_attempts
                },
                Err(e) => e is ConfigurationError,
            },
    {
        let backend = match self.backend {
            Some(b) => b,
            None => {
                return Err(RllmError::ConfigurationError("No backend specified".to_owned()));
            },
        };
        if !is_available(backend, available) {
            return Err(RllmError::ConfigurationError("backend not available".to_owned()));
        }
        let keyed = match backend {
            LLMBackend::OpenAI | LLMBackend::Anthropic | LLMBackend::DeepSeek | LLMBackend::XAI => true,
            LLMBackend::Ollama | LLMBackend::Phind => false,
        };
        if keyed && self.api_key.is_none() {
            return Err(RllmError::ConfigurationError("No API key provided".to_owned()));
        }
        let base_url = match (backend, self.base_url) {
            (LLMBackend::Ollama, None) => Some("http://localhost:11434".to_owned()),
            (_, url) => url,
        };
        Ok(
            ProviderConfig {
                backend,
                api_key: self.api_key,
                base_url,
                model: self.model,
                system: self.system,
                params: self.params,
                timeout_seconds: self.timeout_seconds,
                stream: self.stream,
                embedding_encoding_format: self.embedding_encoding_format,
                embedding_dimensions: self.embedding_dimensions,
                validator: self.validator,
                validator_attempts: self.validator_attempts,
            },
        )
    }
}

} // verus!
