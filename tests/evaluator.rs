use rllm::error::RllmError;
use rllm::evaluator::{EvalError, LLMEvaluator};

fn evaluate(e: &LLMEvaluator<Result<&'static str, ()>, fn(&str) -> u32>) -> Result<Vec<String>, EvalError> {
    let mut run = e.start();
    while let Some(i) = run.next_index() {
        match e.provider_at(i) {
            Ok(t) => run.record(t.to_string()),
            Err(()) => return Err(run.fail(RllmError::AuthError("rejected".to_string()))),
        }
    }
    Ok(run.into_texts())
}

#[test]
fn three_providers_three_results_in_order() {
    let e: LLMEvaluator<Result<&'static str, ()>, fn(&str) -> u32> = LLMEvaluator::new(vec![Ok("one"), Ok("two"), Ok("three")]);
    assert!(e.scoring_fn().is_none());
    let texts = evaluate(&e).unwrap();
    assert_eq!(texts, vec!["one".to_string(), "two".to_string(), "three".to_string()]);
}

#[test]
fn evaluation_fails_fast_with_provider_index() {
    let e: LLMEvaluator<Result<&'static str, ()>, fn(&str) -> u32> = LLMEvaluator::new(vec![Ok("one"), Err(()), Ok("three")]);
    let err = evaluate(&e).unwrap_err();
    assert_eq!(err.provider_index, 1);
    assert_eq!(err.error, RllmError::AuthError("rejected".to_string()));
}

#[test]
fn scoring_function_is_kept() {
    fn len_score(s: &str) -> u32 {
        s.len() as u32
    }
    let e: LLMEvaluator<Result<&'static str, ()>, fn(&str) -> u32> = LLMEvaluator::new(vec![Ok("abc")]).scoring(len_score as fn(&str) -> u32);
    assert_eq!(e.len(), 1);
    let f = e.scoring_fn().unwrap();
    assert_eq!(f("abcd"), 4);
}

#[test]
fn failed_evaluation_is_over() {
    let mut run = rllm::evaluator::Evaluation::new(3);
    assert_eq!(run.next_index(), Some(0));
    run.record("one".to_string());
    assert_eq!(run.next_index(), Some(1));
    let err = run.fail(RllmError::TransportError("timeout".to_string()));
    assert_eq!(err.provider_index, 1);
    assert_eq!(err.error, RllmError::TransportError("timeout".to_string()));
}
