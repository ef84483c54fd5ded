use cli_pilot::completion::{
    classify_response, extract_error_details, service_rejection_from_body,
    ChatCompletionResponse, Choice, CompletionResult, Message, Usage,
};
use cli_pilot::text::u16_to_decimal;

fn parsed_response() -> ChatCompletionResponse {
    ChatCompletionResponse {
        id: "cmpl-3".into(),
        object: "chat.completion".into(),
        created: 1,
        model: "gpt-3.5-turbo".into(),
        usage: Usage { prompt_tokens: 2, completion_tokens: 3, total_tokens: 5 },
        choices: vec![Choice {
            message: Message { role: "assistant".into(), content: "ls".into() },
            finish_reason: "stop".into(),
            index: 0,
        }],
    }
}

#[test]
fn success_status_with_parsed_body_is_a_success() {
    let r = classify_response(200, Some(parsed_response()), "raw".into());
    match r {
        CompletionResult::Success(p) => assert_eq!(p.choices[0].message.content, "ls"),
        _ => panic!("expected a success"),
    }
}

#[test]
fn success_status_with_unparsable_body_is_a_parse_failure() {
    let r = classify_response(200, None, "not the success shape".into());
    match r {
        CompletionResult::ParseFailure(b) => assert_eq!(b, "not the success shape"),
        _ => panic!("expected a parse failure"),
    }
}

#[test]
fn structured_error_body_is_read() {
    let body = "{\"error\":{\"message\":\"model overloaded\",\"code\":\"overloaded\"}}";
    let r = classify_response(503, None, body.into());
    match r {
        CompletionResult::ServiceRejection { status, message, code } => {
            assert_eq!(status, 503);
            assert_eq!(message, "model overloaded");
            assert_eq!(code, Some("overloaded".to_string()));
        }
        _ => panic!("expected a service rejection"),
    }
}

#[test]
fn error_code_falls_back_to_unknown() {
    let body = "{\"error\":{\"message\":\"bad request\"}}";
    let details = extract_error_details(body);
    assert_eq!(details, Some(("bad request".to_string(), "unknown".to_string())));
    let body = "{\"error\":{\"message\":\"bad request\",\"code\":null}}";
    let details = extract_error_details(body);
    assert_eq!(details, Some(("bad request".to_string(), "unknown".to_string())));
}

#[test]
fn unstructured_error_body_is_kept_verbatim() {
    let r = service_rejection_from_body(500, "<html>oops</html>".into());
    match r {
        CompletionResult::ServiceRejection { status, message, code } => {
            assert_eq!(status, 500);
            assert_eq!(message, "<html>oops</html>");
            assert_eq!(code, None);
        }
        _ => panic!("expected a service rejection"),
    }
}

#[test]
fn rejection_report_carries_status_and_message() {
    let r = CompletionResult::ServiceRejection {
        status: 404,
        message: "no such model".into(),
        code: Some("model_not_found".into()),
    };
    assert_eq!(r.describe(), "Error: 404 - no such model");
    let c = CompletionResult::ConnectivityFailure("connection refused".into());
    assert_eq!(c.describe(), "Error: connection refused");
    let p = CompletionResult::ParseFailure("x".into());
    assert_eq!(p.describe(), "Failed to parse response from OpenAI API");
}

#[test]
fn decimal_rendering_is_exact() {
    assert_eq!(u16_to_decimal(0), "0");
    assert_eq!(u16_to_decimal(7), "7");
    assert_eq!(u16_to_decimal(200), "200");
    assert_eq!(u16_to_decimal(65535), "65535");
}

#[test]
fn first_content_reads_the_first_candidate() {
    let p = parsed_response();
    assert_eq!(p.first_content(), Some(&"ls".to_string()));
}
