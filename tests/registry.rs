use rllm::error::RllmError;
use rllm::registry::LLMRegistryBuilder;

#[test]
fn registry_duplicate_id_rejected() {
    let r = LLMRegistryBuilder::new()
        .register("openai".to_string(), 1u32)
        .register("anthro".to_string(), 2u32)
        .register("openai".to_string(), 3u32)
        .build();
    assert!(matches!(r, Err(RllmError::ConfigurationError(_))));
}

#[test]
fn registry_lookup() {
    let reg = LLMRegistryBuilder::new()
        .register("openai".to_string(), 1u32)
        .register("anthro".to_string(), 2u32)
        .build()
        .unwrap();
    assert_eq!(reg.len(), 2);
    assert_eq!(*reg.get("anthro").unwrap(), 2);
    assert_eq!(*reg.get("openai").unwrap(), 1);
    assert_eq!(reg.position("anthro"), Some(1));
    assert!(matches!(reg.get("ollama"), Err(RllmError::ConfigurationError(_))));
}

#[test]
fn empty_registry_builds() {
    let reg = LLMRegistryBuilder::<u8>::new().build().unwrap();
    assert_eq!(reg.len(), 0);
    assert!(reg.get("x").is_err());
}
