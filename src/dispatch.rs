//! One dispatch: from a schedule request and the resolved configuration to
//! the canonical request, and from the service's answer to the result.

use vstd::prelude::*;
use vstd::string::*;
use crate::error::{ConfigurationError, DispatchError};
use crate::json::{json_quote, json_string};
use crate::request::{create_schedule_body, schedule_body, schedule_uri, schedule_uri_of, ScheduleRequest};
use crate::signing::CanonicalRequest;

verus! {

/// The variable naming the task that a schedule runs.
pub const TARGET_ARN_VAR: &'static str = "SCHEDULER_TARGET_ARN";

/// The variable naming the role that a schedule runs the task as.
pub const ROLE_ARN_VAR: &'static str = "SCHEDULER_ROLE_ARN";

/// The variable naming the queue that failed runs go to.
pub const DLQ_ARN_VAR: &'static str = "SCHEDULER_DLQ_ARN";

/// The signing name of the scheduling service.
pub const SERVICE_NAME: &'static str = "scheduler";

/// What was found in the environment; `None` where a value is missing.
pub struct DispatchConfig {
    pub region: Option<String>,
    pub target_arn: Option<String>,
    pub role_arn: Option<String>,
    pub dlq_arn: Option<String>,
}

/// `r` is the error for the unset variable `name`.
pub open spec fn is_missing_variable<T>(r: Result<T, DispatchError>, name: Seq<char>) -> bool {
    match r {
        Err(DispatchError::Configuration(ConfigurationError::MissingVariable(v))) => v@ == name,
        _ => false,
    }
}

/// Every value that a dispatch needs is present.
pub open spec fn config_complete(config: DispatchConfig) -> bool {
    &&& config.region is Some
    &&& config.target_arn is Some
    &&& config.role_arn is Some
    &&& config.dlq_arn is Some
}

/// Builds the unsigned create-schedule request for `req`: a `POST` to the
/// schedule's endpoint in the configured region, no headers, the
/// create-schedule body with the configured destinations and `input` for
/// the target. Fails, checking in this order, where the region, the target,
/// the role or the queue is missing; nothing is sent in that case.
pub fn plan_request(req: &ScheduleRequest, config: &DispatchConfig, input: &str) -> (r: Result<
    CanonicalRequest,
    DispatchError,
>)
    ensures
        r is Ok <==> config_complete(*config),
        config.region is None ==> r matches Err(
            DispatchError::Configuration(ConfigurationError::MissingRegion),
        ),
        config.region is Some && config.target_arn is None ==> is_missing_variable(
            r,
            TARGET_ARN_VAR@,
        ),
        config.region is Some && config.target_arn is Some && config.role_arn is None
            ==> is_missing_variable(r, ROLE_ARN_VAR@),
        config.region is Some && config.target_arn is Some && config.role_arn is Some
            && config.dlq_arn is None ==> is_missing_variable(r, DLQ_ARN_VAR@),
        r is Ok ==> {
            let c = r->Ok_0;
            &&& c.method@ == "POST"@
            &&& c.uri@ == schedule_uri_of(config.region->0@, req.name@)
            &&& c.headers@.len() == 0
            &&& c.body@ == create_schedule_body(
                req.client_token@,
                req.schedule_expression@,
                req.schedule_expression_timezone@,
                config.target_arn->0@,
                config.role_arn->0@,
                config.dlq_arn->0@,
                input@,
            )
        },
{
    let region = match &config.region {
        Some(v) => v,
        None => return Err(DispatchError::Configuration(ConfigurationError::MissingRegion)),
    };
    let target_arn = match &config.target_arn {
        Some(v) => v,
        None => return Err(
            DispatchError::Configuration(
                ConfigurationError::MissingVariable(String::from_str(TARGET_ARN_VAR)),
            ),
        ),
    };
    let role_arn = match &config.role_arn {
        Some(v) => v,
        None => return Err(
            DispatchError::Configuration(
                ConfigurationError::MissingVariable(String::from_str(ROLE_ARN_VAR)),
            ),
        ),
    };
    let dlq_arn = match &config.dlq_arn {
        Some(v) => v,
        None => return Err(
            DispatchError::Configuration(
                ConfigurationError::MissingVariable(String::from_str(DLQ_ARN_VAR)),
            ),
        ),
    };
    Ok(CanonicalRequest {
        method: String::from_str("POST"),
        uri: schedule_uri(region.as_str(), req.name.as_str()),
        headers: Vec::new(),
        body: schedule_body(req, target_arn.as_str(), role_arn.as_str(), dlq_arn.as_str(), input),
    })
}

/// Whether a schedule was created.
pub enum ScheduleStatus {
    Scheduled,
    Failed,
}

/// The outcome of a dispatch, keyed by the schedule's name.
pub struct ScheduleResult {
    pub pk: String,
    pub status: ScheduleStatus,
}

/// The status as the invoking framework receives it.
pub open spec fn status_text(s: ScheduleStatus) -> Seq<char> {
    match s {
        ScheduleStatus::Scheduled => "SCHEDULED"@,
        ScheduleStatus::Failed => "FAILED"@,
    }
}

/// `{"pk":<pk>,"status":<status>}`, compact.
pub open spec fn result_json(pk: Seq<char>, status: ScheduleStatus) -> Seq<char> {
    "{\"pk\":"@ + json_string(pk) + ",\"status\":"@ + json_string(status_text(status)) + "}"@
}

impl ScheduleResult {
    /// The result as the JSON value handed back to the invoking framework.
    pub fn to_json(&self) -> (r: String)
        ensures
            r@ == result_json(self.pk@, self.status),
    {
        let status = match self.status {
            ScheduleStatus::Scheduled => "SCHEDULED",
            ScheduleStatus::Failed => "FAILED",
        };
        let mut out = String::from_str("{\"pk\":");
        out.append(json_quote(self.pk.as_str()).as_str());
        out.append(",\"status\":");
        out.append(json_quote(status).as_str());
        out.append("}");
        out
    }
}

/// A status in 200 to 299: the schedule was created.
pub open spec fn is_success_status(status: u16) -> bool {
    200 <= status <= 299
}

/// Classifies the service's answer to the create-schedule call for `name`:
/// a status in 200 to 299 gives `name` as `Scheduled`, any other status the
/// service rejection carrying that status and `body`.
pub fn classify_response(name: &str, status: u16, body: String) -> (r: Result<
    ScheduleResult,
    DispatchError,
>)
    ensures
        r is Ok <==> is_success_status(status),
        r is Ok ==> r->Ok_0.pk@ == name@ && r->Ok_0.status == ScheduleStatus::Scheduled,
        r is Err ==> r->Err_0 == (DispatchError::ServiceRejection { status, body }),
{
    if 200 <= status && status <= 299 {
        Ok(ScheduleResult { pk: String::from_str(name), status: ScheduleStatus::Scheduled })
    } else {
        Err(DispatchError::ServiceRejection { status, body })
    }
}

/// Settles a dispatch for `name` from the one answer to its single send:
/// a transport failure (its message) gives `Transport`, a received status and
/// body are classified as `classify_response` does. Nothing is retried.
pub fn settle_response(name: &str, outcome: Result<(u16, String), String>) -> (r: Result<
    ScheduleResult,
    DispatchError,
>)
    ensures
        outcome is Err ==> r is Err && r->Err_0 == DispatchError::Transport(outcome->Err_0),
        outcome is Ok ==> {
            let (status, body) = outcome->Ok_0;
            &&& r is Ok <==> is_success_status(status)
            &&& r is Ok ==> r->Ok_0.pk@ == name@ && r->Ok_0.status == ScheduleStatus::Scheduled
            &&& r is Err ==> r->Err_0 == (DispatchError::ServiceRejection { status, body })
        },
{
    match outcome {
        Ok((status, body)) => classify_response(name, status, body),
        Err(message) => Err(DispatchError::Transport(message)),
    }
}

} // verus!
