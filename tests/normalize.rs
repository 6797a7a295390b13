use schedule_creator::json::json_quote;
use schedule_creator::request::{normalize, schedule_body, schedule_uri, ChangeRow, ScheduleRequest};

fn row(pk: &str, date: &str) -> ChangeRow {
    ChangeRow { pk: pk.to_string(), date: date.to_string(), status: "NEW".to_string() }
}

fn job_42() -> ScheduleRequest {
    normalize(&row("job-42", "2024-01-01T00:00:00Z"))
}

#[test]
fn normalizes_job_42_row() {
    let r = job_42();
    assert_eq!(r.client_token, "job-42");
    assert_eq!(r.name, "job-42");
    assert_eq!(r.schedule_expression, "at(2024-01-01T00:00:00Z)");
    assert_eq!(r.schedule_expression_timezone, "UTC");
    assert_eq!(r.time_window.mode, "OFF");
}

#[test]
fn normalized_token_equals_name() {
    for pk in ["a", "", "row/with spaces", "ünï"] {
        let r = normalize(&row(pk, "2030-06-01T12:00:00Z"));
        assert_eq!(r.client_token, r.name);
        assert_eq!(r.name, pk);
    }
}

#[test]
fn normalizes_empty_date() {
    let r = normalize(&row("x", ""));
    assert_eq!(r.schedule_expression, "at()");
}

#[test]
fn quotes_plain_text() {
    assert_eq!(json_quote("job-42"), "\"job-42\"");
    assert_eq!(json_quote(""), "\"\"");
}

#[test]
fn quotes_escapes() {
    assert_eq!(json_quote("a\"b\\c"), "\"a\\\"b\\\\c\"");
    assert_eq!(json_quote("\n\t\r\u{8}\u{c}"), "\"\\n\\t\\r\\b\\f\"");
    assert_eq!(json_quote("\u{1}\u{1f}"), "\"\\u0001\\u001f\"");
    assert_eq!(json_quote("/é\u{7f}"), "\"/é\u{7f}\"");
}

#[test]
fn builds_endpoint_uri() {
    assert_eq!(
        schedule_uri("eu-west-1", "job-42"),
        "https://scheduler.eu-west-1.amazonaws.com/schedules/job-42"
    );
}

#[test]
fn builds_body_for_job_42() {
    let body = schedule_body(&job_42(), "arn:target", "arn:role", "arn:dlq", "hi!");
    assert_eq!(
        body,
        "{\"ClientToken\":\"job-42\",\"FlexibleTimeWindow\":{\"Mode\":\"OFF\"},\
         \"RetryPolicy\":{\"MaximumEventAgeInSeconds\":60,\"MaximumRetryAttempts\":0},\
         \"ScheduleExpression\":\"at(2024-01-01T00:00:00Z)\",\"ScheduleExpressionTimezone\":\"UTC\",\
         \"Target\":{\"Arn\":\"arn:target\",\"DeadLetterConfig\":{\"Arn\":\"arn:dlq\"},\
         \"Input\":\"hi!\",\"RoleArn\":\"arn:role\"}}"
    );
}

#[test]
fn body_fixed_members_for_any_input() {
    for (pk, dlq) in [("a\"b", "q1"), ("", ""), ("job\n7", "arn:aws:sqs:x")] {
        let body = schedule_body(&normalize(&row(pk, "d")), "t", "r", dlq, "in");
        assert!(body.contains("\"FlexibleTimeWindow\":{\"Mode\":\"OFF\"}"));
        assert!(body.contains(
            "\"RetryPolicy\":{\"MaximumEventAgeInSeconds\":60,\"MaximumRetryAttempts\":0}"
        ));
        let dead_letter = format!("\"DeadLetterConfig\":{{\"Arn\":{}}}", json_quote(dlq));
        assert!(body.contains(&dead_letter));
        assert!(body.starts_with(&format!("{{\"ClientToken\":{}", json_quote(pk))));
    }
}

#[test]
fn body_is_valid_json() {
    let body = schedule_body(&normalize(&row("we\"ird\\", "2024")), "t", "r", "d", "i");
    let v: serde_json::Value = serde_json::from_str(&body).unwrap();
    assert_eq!(v["ClientToken"], "we\"ird\\");
    assert_eq!(v["RetryPolicy"]["MaximumRetryAttempts"], 0);
    assert_eq!(v["RetryPolicy"]["MaximumEventAgeInSeconds"], 60);
    assert_eq!(v["Target"]["DeadLetterConfig"]["Arn"], "d");
}
