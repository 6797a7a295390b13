//! The schedule request, the row it is made from, the endpoint it is sent to
//! and the create-schedule body.

use vstd::prelude::*;
use vstd::string::*;
use crate::json::{json_quote, json_string};

verus! {

/// The time-window setting of a schedule.
pub struct TimeWindow {
    pub mode: String,
}

/// A one-shot schedule to create: `client_token` and `name` both hold the
/// row's identifier, `schedule_expression` is `at(<timestamp>)`.
pub struct ScheduleRequest {
    pub client_token: String,
    pub schedule_expression: String,
    pub schedule_expression_timezone: String,
    pub name: String,
    pub time_window: TimeWindow,
}

/// The fields of a newly written row that the normaliser reads.
pub struct ChangeRow {
    pub pk: String,
    pub date: String,
    pub status: String,
}

/// `at(<date>)`: a trigger that fires once, at `date`.
pub open spec fn one_time_expression(date: Seq<char>) -> Seq<char> {
    "at("@ + date + ")"@
}

/// The request that the normaliser makes of a row with identifier `pk` and
/// trigger time `date`.
pub open spec fn is_normalized(r: ScheduleRequest, pk: Seq<char>, date: Seq<char>) -> bool {
    &&& r.client_token@ == pk
    &&& r.name@ == pk
    &&& r.schedule_expression@ == one_time_expression(date)
    &&& r.schedule_expression_timezone@ == "UTC"@
    &&& r.time_window.mode@ == "OFF"@
}

/// Maps a new row to the request that schedules it: its identifier is both
/// the schedule's name and its idempotency token, its date the trigger time,
/// in UTC, with no flexible window.
pub fn normalize(row: &ChangeRow) -> (r: ScheduleRequest)
    ensures
        is_normalized(r, row.pk@, row.date@),
{
    let mut expression = String::from_str("at(");
    expression.append(row.date.as_str());
    expression.append(")");
    ScheduleRequest {
        client_token: row.pk.clone(),
        schedule_expression: expression,
        schedule_expression_timezone: String::from_str("UTC"),
        name: row.pk.clone(),
        time_window: TimeWindow { mode: String::from_str("OFF") },
    }
}

/// `https://scheduler.<region>.amazonaws.com/schedules/<name>`, the name
/// embedded as it is.
pub open spec fn schedule_uri_of(region: Seq<char>, name: Seq<char>) -> Seq<char> {
    "https://scheduler."@ + region + ".amazonaws.com/schedules/"@ + name
}

/// The endpoint that creates the schedule `name` in `region`.
pub fn schedule_uri(region: &str, name: &str) -> (r: String)
    ensures
        r@ == schedule_uri_of(region@, name@),
{
    let mut uri = String::from_str("https://scheduler.");
    uri.append(region);
    uri.append(".amazonaws.com/schedules/");
    uri.append(name);
    uri
}

/// The fixed time-window member of every body: no flexibility.
pub open spec fn flexible_window_off() -> Seq<char> {
    "\"FlexibleTimeWindow\":{\"Mode\":\"OFF\"}"@
}

/// The fixed retry member of every body: no retry, events kept 60 seconds.
pub open spec fn no_retry_policy() -> Seq<char> {
    "\"RetryPolicy\":{\"MaximumEventAgeInSeconds\":60,\"MaximumRetryAttempts\":0}"@
}

/// The dead-letter member of the target, for the queue `dlq`.
pub open spec fn dead_letter_member(dlq: Seq<char>) -> Seq<char> {
    "\"DeadLetterConfig\":{\"Arn\":"@ + json_string(dlq) + "}"@
}

/// The create-schedule body, compact, its keys in lexicographic order.
pub open spec fn create_schedule_body(
    client_token: Seq<char>,
    expression: Seq<char>,
    timezone: Seq<char>,
    target_arn: Seq<char>,
    role_arn: Seq<char>,
    dlq_arn: Seq<char>,
    input: Seq<char>,
) -> Seq<char> {
    "{\"ClientToken\":"@ + json_string(client_token) + ","@ + flexible_window_off() + ","@
        + no_retry_policy() + ",\"ScheduleExpression\":"@ + json_string(expression)
        + ",\"ScheduleExpressionTimezone\":"@ + json_string(timezone) + ",\"Target\":{\"Arn\":"@
        + json_string(target_arn) + ","@ + dead_letter_member(dlq_arn) + ",\"Input\":"@
        + json_string(input) + ",\"RoleArn\":"@ + json_string(role_arn) + "}}"@
}

/// The body of the create-schedule call for `req`, aimed at `target_arn`,
/// run as `role_arn`, with failures sent to `dlq_arn` and `input` handed to
/// the target.
pub fn schedule_body(
    req: &ScheduleRequest,
    target_arn: &str,
    role_arn: &str,
    dlq_arn: &str,
    input: &str,
) -> (r: String)
    ensures
        r@ == create_schedule_body(
            req.client_token@,
            req.schedule_expression@,
            req.schedule_expression_timezone@,
            target_arn@,
            role_arn@,
            dlq_arn@,
            input@,
        ),
{
    let mut body = String::from_str("{\"ClientToken\":");
    body.append(json_quote(req.client_token.as_str()).as_str());
    body.append(",");
    body.append("\"FlexibleTimeWindow\":{\"Mode\":\"OFF\"}");
    body.append(",");
    body.append("\"RetryPolicy\":{\"MaximumEventAgeInSeconds\":60,\"MaximumRetryAttempts\":0}");
    body.append(",\"ScheduleExpression\":");
    body.append(json_quote(req.schedule_expression.as_str()).as_str());
    body.append(",\"ScheduleExpressionTimezone\":");
    body.append(json_quote(req.schedule_expression_timezone.as_str()).as_str());
    body.append(",\"Target\":{\"Arn\":");
    body.append(json_quote(target_arn).as_str());
    body.append(",");
    body.append("\"DeadLetterConfig\":{\"Arn\":");
    body.append(json_quote(dlq_arn).as_str());
    body.append("}");
    body.append(",\"Input\":");
    body.append(json_quote(input).as_str());
    body.append(",\"RoleArn\":");
    body.append(json_quote(role_arn).as_str());
    body.append("}}");
    body
}

/// `t` occurs in `s` as a contiguous run.
pub open spec fn contains(s: Seq<char>, t: Seq<char>) -> bool {
    exists|i: int| 0 <= i && i + t.len() <= s.len() && #[trigger] s.subrange(i, i + t.len()) == t
}

/// Whatever the request and destinations, the body turns the flexible time
/// window off, asks for no retry with events kept 60 seconds, and names the
/// dead-letter queue.
pub proof fn lemma_body_fixed_members(
    client_token: Seq<char>,
    expression: Seq<char>,
    timezone: Seq<char>,
    target_arn: Seq<char>,
    role_arn: Seq<char>,
    dlq_arn: Seq<char>,
    input: Seq<char>,
)
    ensures
        ({
            let body = create_schedule_body(
                client_token,
                expression,
                timezone,
                target_arn,
                role_arn,
                dlq_arn,
                input,
            );
            &&& contains(body, flexible_window_off())
            &&& contains(body, no_retry_policy())
            &&& contains(body, dead_letter_member(dlq_arn))
        }),
{
    let body = create_schedule_body(
        client_token,
        expression,
        timezone,
        target_arn,
        role_arn,
        dlq_arn,
        input,
    );
    let p1 = "{\"ClientToken\":"@ + json_string(client_token) + ","@;
    let p2 = p1 + flexible_window_off() + ","@;
    let p3 = p2 + no_retry_policy() + ",\"ScheduleExpression\":"@ + json_string(expression)
        + ",\"ScheduleExpressionTimezone\":"@ + json_string(timezone) + ",\"Target\":{\"Arn\":"@
        + json_string(target_arn) + ","@;
    let w = flexible_window_off();
    let n = no_retry_policy();
    let d = dead_letter_member(dlq_arn);
    assert(body.subrange(p1.len() as int, (p1.len() + w.len()) as int) =~= w);
    assert(body.subrange(p2.len() as int, (p2.len() + n.len()) as int) =~= n);
    assert(body.subrange(p3.len() as int, (p3.len() + d.len()) as int) =~= d);
}

/// A normalised request carries its name as its idempotency token, so the
/// body that creates the schedule opens with the name that the endpoint
/// carries, as its client token.
pub proof fn lemma_normalized_token_is_name(
    r: ScheduleRequest,
    pk: Seq<char>,
    date: Seq<char>,
    target_arn: Seq<char>,
    role_arn: Seq<char>,
    dlq_arn: Seq<char>,
    input: Seq<char>,
)
    requires
        is_normalized(r, pk, date),
    ensures
        r.client_token@ == r.name@,
        ({
            let head = "{\"ClientToken\":"@ + json_string(r.name@);
            create_schedule_body(
                r.client_token@,
                r.schedule_expression@,
                r.schedule_expression_timezone@,
                target_arn,
                role_arn,
                dlq_arn,
                input,
            ).subrange(0, head.len() as int) == head
        }),
{
    let head = "{\"ClientToken\":"@ + json_string(r.name@);
    let body = create_schedule_body(
        r.client_token@,
        r.schedule_expression@,
        r.schedule_expression_timezone@,
        target_arn,
        role_arn,
        dlq_arn,
        input,
    );
    assert(body.subrange(0, head.len() as int) =~= head);
}

} // verus!
