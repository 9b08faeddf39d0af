use llm_adapters::error::{u16_to_decimal, AgentError};
use llm_adapters::executor::{ExecutionResult, StepResult};
use llm_adapters::openai::{first_choice_text, ChatCompletionResponse, Choice, OpenAIMessage};

fn completion_with(contents: &[&str]) -> ChatCompletionResponse {
    ChatCompletionResponse {
        id: "cmpl_1".to_string(),
        object: "chat.completion".to_string(),
        created: 1700000000,
        model: "gpt-test".to_string(),
        choices: contents
            .iter()
            .enumerate()
            .map(|(i, c)| Choice {
                index: i as u32,
                message: OpenAIMessage { role: "assistant".to_string(), content: c.to_string() },
                finish_reason: Some("stop".to_string()),
            })
            .collect(),
    }
}

#[test]
fn step_result_success_records_fields() {
    let r = StepResult::success("llm_call".to_string(), "done".to_string());
    assert_eq!(r.step_type, "llm_call");
    assert_eq!(r.output, "done");
    assert!(r.success);
}

#[test]
fn step_result_failure_records_fields() {
    let r = StepResult::failure("llm_call".to_string(), "request timed out".to_string());
    assert_eq!(r.step_type, "llm_call");
    assert_eq!(r.output, "request timed out");
    assert!(!r.success);
}

#[test]
fn execution_result_holds_step_results_in_order() {
    let result = ExecutionResult {
        success: true,
        final_response: "done".to_string(),
        step_results: vec![
            StepResult::success("a".to_string(), "one".to_string()),
            StepResult::failure("b".to_string(), "two".to_string()),
        ],
    };
    assert_eq!(result.step_results.len(), 2);
    assert_eq!(result.step_results[0].step_type, "a");
    assert_eq!(result.step_results[1].step_type, "b");
}

#[test]
fn decimal_rendering_is_exact() {
    assert_eq!(u16_to_decimal(0), "0");
    assert_eq!(u16_to_decimal(7), "7");
    assert_eq!(u16_to_decimal(42), "42");
    assert_eq!(u16_to_decimal(401), "401");
    assert_eq!(u16_to_decimal(65535), "65535");
}

#[test]
fn descriptions_name_each_error_kind() {
    assert_eq!(AgentError::Timeout.description(), "request timed out");
    assert_eq!(
        AgentError::ConnectionFailure.description(),
        "could not connect to the endpoint"
    );
    assert_eq!(
        AgentError::AuthenticationFailure.description(),
        "authentication failed: invalid API key"
    );
    assert_eq!(AgentError::RateLimitExceeded.description(), "rate limit exceeded");
    assert_eq!(
        AgentError::HttpFailure(503, "oops".to_string()).description(),
        "HTTP 503 error: oops"
    );
    assert_eq!(
        AgentError::DeserializationFailure.description(),
        "failed to deserialize the response"
    );
    assert_eq!(AgentError::EmptyResponse.description(), "response contained no content");
}

#[test]
fn first_choice_text_selects_first_choice() {
    let r = first_choice_text(&completion_with(&["hello", "other"]));
    assert_eq!(r.unwrap(), "hello");
}

#[test]
fn zero_choices_yield_empty_response_error() {
    let r = first_choice_text(&completion_with(&[]));
    assert_eq!(r.unwrap_err(), AgentError::EmptyResponse);
}
