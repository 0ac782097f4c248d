use rllm::builder::{LLMBackend, LLMBuilder};
use rllm::error::RllmError;

const ALL: [LLMBackend; 6] = [
    LLMBackend::OpenAI,
    LLMBackend::Anthropic,
    LLMBackend::Ollama,
    LLMBackend::DeepSeek,
    LLMBackend::XAI,
    LLMBackend::Phind,
];

#[test]
fn build_without_backend_fails() {
    let r = LLMBuilder::new().model("m".to_string()).build(&ALL);
    assert!(matches!(r, Err(RllmError::ConfigurationError(_))));
}

#[test]
fn hosted_backend_needs_key() {
    for b in [LLMBackend::OpenAI, LLMBackend::Anthropic, LLMBackend::DeepSeek, LLMBackend::XAI] {
        assert!(matches!(LLMBuilder::new().backend(b).build(&ALL), Err(RllmError::ConfigurationError(_))));
        assert!(LLMBuilder::new().backend(b).api_key("k".to_string()).build(&ALL).is_ok());
    }
}

#[test]
fn ollama_gets_default_url_and_phind_needs_no_key() {
    let c = LLMBuilder::new().backend(LLMBackend::Ollama).build(&ALL).unwrap();
    assert_eq!(c.base_url.as_deref(), Some("http://localhost:11434"));
    let c = LLMBuilder::new().backend(LLMBackend::Ollama).base_url("http://h:1".to_string()).build(&ALL).unwrap();
    assert_eq!(c.base_url.as_deref(), Some("http://h:1"));
    let c = LLMBuilder::new().backend(LLMBackend::Phind).build(&ALL).unwrap();
    assert_eq!(c.backend, LLMBackend::Phind);
    assert!(c.api_key.is_none());
}

#[test]
fn settings_carried_into_config() {
    let c = LLMBuilder::new()
        .backend(LLMBackend::XAI)
        .api_key("key".to_string())
        .model("grok".to_string())
        .max_tokens(500)
        .temperature(700)
        .top_p(900)
        .top_k(40)
        .system("be brief".to_string())
        .timeout_seconds(30)
        .stream(false)
        .embedding_encoding_format("float".to_string())
        .embedding_dimensions(256)
        .validator_attempts(3)
        .build(&ALL)
        .unwrap();
    assert_eq!(c.api_key.as_deref(), Some("key"));
    assert_eq!(c.model.as_deref(), Some("grok"));
    assert_eq!(c.params.max_tokens, Some(500));
    assert_eq!(c.params.temperature_milli, Some(700));
    assert_eq!(c.params.top_p_milli, Some(900));
    assert_eq!(c.params.top_k, Some(40));
    assert_eq!(c.system.as_deref(), Some("be brief"));
    assert_eq!(c.timeout_seconds, Some(30));
    assert_eq!(c.stream, Some(false));
    assert_eq!(c.embedding_encoding_format.as_deref(), Some("float"));
    assert_eq!(c.embedding_dimensions, Some(256));
    assert_eq!(c.validator_attempts, 3);
    assert!(c.base_url.is_none());
}

#[test]
fn unavailable_backend_rejected() {
    let r = LLMBuilder::new().backend(LLMBackend::OpenAI).api_key("k".to_string()).build(&[LLMBackend::XAI]);
    assert!(matches!(r, Err(RllmError::ConfigurationError(_))));
    let r = LLMBuilder::new().backend(LLMBackend::XAI).api_key("k".to_string()).build(&[LLMBackend::XAI]);
    assert!(r.is_ok());
    let r = LLMBuilder::new().backend(LLMBackend::Phind).build(&[]);
    assert!(matches!(r, Err(RllmError::ConfigurationError(_))));
}

#[test]
fn validator_carried_into_config() {
    let c = LLMBuilder::new()
        .backend(LLMBackend::Phind)
        .validator(|s: &str| if s.is_empty() { Err("empty".to_string()) } else { Ok(()) })
        .validator_attempts(2)
        .build(&ALL)
        .unwrap();
    let v = c.validator.unwrap();
    assert_eq!(v(""), Err("empty".to_string()));
    assert_eq!(v("x"), Ok(()));
    assert_eq!(c.validator_attempts, 2);
    assert!(LLMBuilder::new().backend(LLMBackend::Phind).build(&ALL).unwrap().validator.is_none());
}
