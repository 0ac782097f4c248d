use rllm::chain::{ChainError, ChainNext, ChainRun, MultiChainStep, MultiChainStepMode, MultiPromptChain};
use rllm::chat::GenerationParams;
use rllm::error::RllmError;
use rllm::registry::{LLMRegistry, LLMRegistryBuilder};
use rllm::results::ChainResult;

#[derive(Clone)]
enum Mock {
    Fixed(&'static str),
    Echo(&'static str),
    Fail,
}

impl Mock {
    fn reply(&self, prompt: &str) -> Result<String, RllmError> {
        match self {
            Mock::Fixed(s) => Ok(s.to_string()),
            Mock::Echo(p) => Ok(format!("{}{}", p, prompt)),
            Mock::Fail => Err(RllmError::TransportError("connection refused".to_string())),
        }
    }
}

fn step(id: &str, provider: &str, template: &str) -> MultiChainStep {
    MultiChainStep {
        id: id.to_string(),
        provider_id: provider.to_string(),
        mode: MultiChainStepMode::Chat,
        template: template.to_string(),
        params: None,
    }
}

fn registry(entries: Vec<(&str, Mock)>) -> LLMRegistry<Mock> {
    let mut b = LLMRegistryBuilder::new();
    for (id, m) in entries {
        b = b.register(id.to_string(), m);
    }
    b.build().unwrap()
}

/// Runs the chain, logging each call as (provider id, prompt).
fn drive(
    chain: MultiPromptChain,
    reg: &LLMRegistry<Mock>,
    log: &mut Vec<(String, String)>,
) -> Result<ChainResult, ChainError> {
    let mut run = ChainRun::new(chain);
    loop {
        match run.next(reg) {
            ChainNext::Call(call) => {
                log.push((call.provider_id.clone(), call.prompt.clone()));
                let p = reg.get(&call.provider_id).unwrap();
                match p.reply(&call.prompt) {
                    Ok(text) => run.record(text),
                    Err(e) => return Err(run.fail(e)),
                }
            }
            ChainNext::Finished => return Ok(run.into_result()),
            ChainNext::Aborted(e) => return Err(e),
        }
    }
}

fn pairs(r: &ChainResult) -> Vec<(String, String)> {
    (0..r.len()).map(|i| {
        let (a, b) = r.entry(i);
        (a.clone(), b.clone())
    }).collect()
}

#[test]
fn independent_steps_called_once_in_order() {
    let reg = registry(vec![("a", Mock::Echo("a:")), ("b", Mock::Echo("b:"))]);
    let chain = MultiPromptChain::new(vec![
        step("s1", "a", "one"),
        step("s2", "b", "two"),
        step("s3", "a", "three"),
    ])
    .unwrap();
    let mut log = Vec::new();
    let res = drive(chain, &reg, &mut log).unwrap();
    assert_eq!(
        log,
        vec![
            ("a".to_string(), "one".to_string()),
            ("b".to_string(), "two".to_string()),
            ("a".to_string(), "three".to_string()),
        ]
    );
    assert_eq!(
        pairs(&res),
        vec![
            ("s1".to_string(), "a:one".to_string()),
            ("s2".to_string(), "b:two".to_string()),
            ("s3".to_string(), "a:three".to_string()),
        ]
    );
}

#[test]
fn end_to_end_output_threaded_into_next_prompt() {
    let reg = registry(vec![("alpha", Mock::Fixed("R1")), ("beta", Mock::Echo("seen: "))]);
    let chain = MultiPromptChain::new(vec![step("A", "alpha", "X"), step("B", "beta", "prefix {{A}} suffix")]).unwrap();
    let mut log = Vec::new();
    let res = drive(chain, &reg, &mut log).unwrap();
    assert_eq!(log[0], ("alpha".to_string(), "X".to_string()));
    assert_eq!(log[1], ("beta".to_string(), "prefix R1 suffix".to_string()));
    assert_eq!(
        pairs(&res),
        vec![
            ("A".to_string(), "R1".to_string()),
            ("B".to_string(), "seen: prefix R1 suffix".to_string()),
        ]
    );
    assert_eq!(res.get("B").unwrap(), "seen: prefix R1 suffix");
}

#[test]
fn end_to_end_failure_stops_before_second_step() {
    let reg = registry(vec![("alpha", Mock::Fail), ("beta", Mock::Echo(""))]);
    let chain = MultiPromptChain::new(vec![step("A", "alpha", "X"), step("B", "beta", "prefix {{A}} suffix")]).unwrap();
    let mut log = Vec::new();
    let err = drive(chain, &reg, &mut log).unwrap_err();
    assert_eq!(err.step_id, "A");
    assert_eq!(err.error, RllmError::TransportError("connection refused".to_string()));
    assert_eq!(log.len(), 1);
    assert_eq!(log[0].0, "alpha");
}

#[test]
fn forward_reference_aborts_with_template_error() {
    let reg = registry(vec![("p", Mock::Echo(""))]);
    let chain = MultiPromptChain::new(vec![
        step("first", "p", "go"),
        step("second", "p", "use {{third}}"),
        step("third", "p", "late"),
    ])
    .unwrap();
    let mut log = Vec::new();
    let err = drive(chain, &reg, &mut log).unwrap_err();
    assert_eq!(err.step_id, "second");
    assert_eq!(err.error, RllmError::TemplateError("third".to_string()));
    assert_eq!(log.len(), 1);
}

#[test]
fn self_reference_aborts_with_template_error() {
    let reg = registry(vec![("p", Mock::Echo(""))]);
    let chain = MultiPromptChain::new(vec![step("me", "p", "about {{me}}")]).unwrap();
    let mut log = Vec::new();
    let err = drive(chain, &reg, &mut log).unwrap_err();
    assert_eq!(err.error, RllmError::TemplateError("me".to_string()));
    assert!(log.is_empty());
}

#[test]
fn unknown_provider_is_configuration_error_before_any_call() {
    let reg = registry(vec![("p", Mock::Echo(""))]);
    let chain = MultiPromptChain::new(vec![step("a", "p", "x"), step("b", "missing", "y")]).unwrap();
    let mut log = Vec::new();
    let err = drive(chain, &reg, &mut log).unwrap_err();
    assert_eq!(err.step_id, "b");
    assert!(matches!(err.error, RllmError::ConfigurationError(_)));
    assert_eq!(log.len(), 1);
}

#[test]
fn duplicate_step_ids_rejected() {
    let r = MultiPromptChain::new(vec![step("a", "p", "x"), step("a", "p", "y")]);
    assert!(matches!(r, Err(RllmError::ConfigurationError(_))));
}

#[test]
fn empty_chain_finishes_with_no_outputs() {
    let reg = registry(vec![("p", Mock::Echo(""))]);
    let chain = MultiPromptChain::new(vec![]).unwrap();
    let mut log = Vec::new();
    let res = drive(chain, &reg, &mut log).unwrap();
    assert_eq!(res.len(), 0);
    assert!(log.is_empty());
}

#[test]
fn step_call_carries_mode_and_params() {
    let reg = registry(vec![("p", Mock::Echo(""))]);
    let params = GenerationParams { max_tokens: Some(500), temperature_milli: Some(700), top_p_milli: None, top_k: None };
    let mut s = step("a", "p", "hello");
    s.mode = MultiChainStepMode::Completion;
    s.params = Some(params);
    let mut run = ChainRun::new(MultiPromptChain::new(vec![s]).unwrap());
    match run.next(&reg) {
        ChainNext::Call(c) => {
            assert_eq!(c.step_id, "a");
            assert_eq!(c.mode, MultiChainStepMode::Completion);
            assert_eq!(c.params, Some(params));
            assert_eq!(c.prompt, "hello");
        }
        _ => panic!("expected a call"),
    }
}
