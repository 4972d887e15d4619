//! The HTTP interface's decisions: request checks, answers for lookups,
//! creation, cancellation and cron updates, health, and API-key authorization.
use vstd::prelude::*;

use crate::job::{CreateJobRequest, Job, JobResponse, NewJob, PatchJobRequest, response_of};

verus! {

broadcast use vstd::string::group_string_axioms;

/// Why a request is refused.
#[derive(Debug)]
pub enum ApiError {
    /// The request is malformed; the message says why.
    BadRequest(String),
    /// No such job for this client.
    NotFound,
    /// Something failed inside the service; the message says what.
    Internal(String),
}

/// Checks a creation request: the idempotency key must not be empty.
pub fn check_create_request(req: &CreateJobRequest) -> (r: Result<(), ApiError>)
    ensures
        req.idempotency_key@.len() == 0 <==> r is Err,
        r is Ok || (r matches Err(ApiError::BadRequest(m)) && m@ == "idempotency_key is required"@),
{
    if req.idempotency_key.as_str().is_empty() {
        Err(ApiError::BadRequest("idempotency_key is required".to_string()))
    } else {
        Ok(())
    }
}

/// How a creation request is served once its idempotency key has been looked up.
#[derive(Debug)]
pub enum CreatePlan {
    /// A job already holds the key: answer with it (HTTP 200).
    Existing(JobResponse),
    /// Create a recurring template and its first instance, and answer with the instance (HTTP 201).
    Recurring(CreateJobRequest),
    /// Store this one-off job and answer with it (HTTP 201).
    OneOff(NewJob),
}

/// Decides how to serve a creation request: a job that already holds the key
/// is returned as it is; otherwise a request with a recurrence creates a
/// recurring job and one without stores a one-off job.
pub fn plan_create(existing: Option<Job>, client_id: u128, req: CreateJobRequest) -> (r: CreatePlan)
    ensures
        existing matches Some(job) ==> r == CreatePlan::Existing(response_of(job)),
        existing is None && req.recurrence is Some ==> r == CreatePlan::Recurring(req),
        existing is None && req.recurrence is None ==> (r matches CreatePlan::OneOff(new_job)
            && new_job.takes_request(client_id, req) && new_job.scheduled_at == req.scheduled_at
            && !new_job.is_recurring && !new_job.is_template && new_job.parent_job_id is None),
{
    match existing {
        Some(job) => CreatePlan::Existing(JobResponse::from(job)),
        None => {
            if req.recurrence.is_some() {
                CreatePlan::Recurring(req)
            } else {
                CreatePlan::OneOff(NewJob::one_off(client_id, req))
            }
        },
    }
}

/// The answer to a lookup of one of the client's jobs.
pub fn found_job(job: Option<Job>) -> (r: Result<JobResponse, ApiError>)
    ensures
        job matches Some(j) ==> r == Ok::<JobResponse, ApiError>(response_of(j)),
        job is None ==> r matches Err(ApiError::NotFound),
{
    match job {
        Some(j) => Ok(JobResponse::from(j)),
        None => Err(ApiError::NotFound),
    }
}

/// How a cancellation is carried out.
#[derive(Debug, Clone, Copy, PartialEq, Eq, Structural)]
pub enum CancelPlan {
    /// Cancel the template and its scheduled instances.
    Template,
    /// Cancel the job if it is still scheduled.
    Single,
}

/// Decides how to cancel the job the client named: unknown jobs are not
/// found, templates are cancelled with their instances, other jobs alone.
pub fn plan_cancel(job: Option<&Job>) -> (r: Result<CancelPlan, ApiError>)
    ensures
        job is None ==> r matches Err(ApiError::NotFound),
        job matches Some(j) ==> r == Ok::<CancelPlan, ApiError>(
            if j.is_template {
                CancelPlan::Template
            } else {
                CancelPlan::Single
            },
        ),
{
    match job {
        None => Err(ApiError::NotFound),
        Some(j) => {
            if j.is_template {
                Ok(CancelPlan::Template)
            } else {
                Ok(CancelPlan::Single)
            }
        },
    }
}

/// The answer once a template and its instances were cancelled: not found when nothing changed.
pub fn template_cancel_result(cancelled: u64) -> (r: Result<(), ApiError>)
    ensures
        cancelled == 0 ==> r matches Err(ApiError::NotFound),
        cancelled > 0 ==> r is Ok,
{
    if cancelled == 0 {
        Err(ApiError::NotFound)
    } else {
        Ok(())
    }
}

/// The answer once a single job's cancellation was attempted: only a
/// scheduled job can be cancelled.
pub fn single_cancel_result(cancelled: bool) -> (r: Result<(), ApiError>)
    ensures
        cancelled ==> r is Ok,
        !cancelled ==> (r matches Err(ApiError::BadRequest(m)) && m@ == "only scheduled jobs can be cancelled"@),
{
    if cancelled {
        Ok(())
    } else {
        Err(ApiError::BadRequest("only scheduled jobs can be cancelled".to_string()))
    }
}

/// Checks a cron update: the expression must not be empty.
pub fn check_patch_request(req: &PatchJobRequest) -> (r: Result<(), ApiError>)
    ensures
        req.cron_expr@.len() == 0 <==> r is Err,
        r is Ok || (r matches Err(ApiError::BadRequest(m)) && m@ == "cron_expr is required"@),
{
    if req.cron_expr.as_str().is_empty() {
        Err(ApiError::BadRequest("cron_expr is required".to_string()))
    } else {
        Ok(())
    }
}

/// The answer once a cron update was attempted: not found unless a recurring
/// template of the client was changed.
pub fn patch_update_result(updated: bool) -> (r: Result<(), ApiError>)
    ensures
        updated ==> r is Ok,
        !updated ==> r matches Err(ApiError::NotFound),
{
    if updated {
        Ok(())
    } else {
        Err(ApiError::NotFound)
    }
}

/// What the health endpoint answers.
#[derive(Debug, Clone, Copy, PartialEq, Eq)]
pub struct HealthReport {
    pub status_code: u16,
    pub status: &'static str,
    pub database: &'static str,
    pub scheduler: &'static str,
}

/// The health answer: 200 and `ok` when both the database and the scheduler
/// are up, else 503 and `degraded`, with each part reported `up` or `down`.
pub fn health_report(db_ok: bool, scheduler_ok: bool) -> (r: HealthReport)
    ensures
        r.status_code == (if db_ok && scheduler_ok {
            200u16
        } else {
            503u16
        }),
        r.status@ == (if db_ok && scheduler_ok {
            "ok"@
        } else {
            "degraded"@
        }),
        r.database@ == (if db_ok {
            "up"@
        } else {
            "down"@
        }),
        r.scheduler@ == (if scheduler_ok {
            "up"@
        } else {
            "down"@
        }),
{
    let database = if db_ok {
        "up"
    } else {
        "down"
    };
    let scheduler = if scheduler_ok {
        "up"
    } else {
        "down"
    };
    if db_ok && scheduler_ok {
        HealthReport { status_code: 200, status: "ok", database, scheduler }
    } else {
        HealthReport { status_code: 503, status: "degraded", database, scheduler }
    }
}

} // verus!
