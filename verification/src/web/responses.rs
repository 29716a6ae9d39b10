//! The bodies of probe and status responses.

use vstd::prelude::*;
use vstd::string::*;
use crate::web::health::{ComponentHealth, ProbeResult, ProbeStatus, StatusResult};

verus! {

/// The body of a probe response.
#[derive(Debug, Clone)]
pub struct ProbeResponse {
    pub status: String,
    pub timestamp: i64,
}

/// The body entry of one component's status.
#[derive(Debug, Clone)]
pub struct ComponentStatus {
    pub status: String,
    pub detail: Option<String>,
}

/// The component checks of a status response.
#[derive(Debug, Clone)]
pub struct StatusChecks {
    pub database: ComponentStatus,
}

/// The body of a status response.
#[derive(Debug, Clone)]
pub struct StatusResponse {
    pub status: String,
    pub service: String,
    pub version: String,
    pub environment: String,
    pub timestamp: i64,
    pub checks: StatusChecks,
}

/// How a probe answer is written in a response.
pub open spec fn probe_label(s: ProbeStatus) -> Seq<char> {
    match s {
        ProbeStatus::Alive => "ok"@,
        ProbeStatus::Ready => "ready"@,
        ProbeStatus::NotReady => "not_ready"@,
    }
}

/// How the overall health is written: an unhealthy service is "degraded".
pub open spec fn overall_label(h: ComponentHealth) -> Seq<char> {
    match h {
        ComponentHealth::Healthy => "healthy"@,
        ComponentHealth::Unhealthy => "degraded"@,
    }
}

/// How a component's health is written.
pub open spec fn component_label(h: ComponentHealth) -> Seq<char> {
    match h {
        ComponentHealth::Healthy => "healthy"@,
        ComponentHealth::Unhealthy => "unhealthy"@,
    }
}

impl ProbeResponse {
    pub fn from_result(r: ProbeResult) -> (b: ProbeResponse)
        ensures
            b.status@ == probe_label(r.status),
            b.timestamp == r.timestamp,
    {
        let status = match r.status {
            ProbeStatus::Alive => "ok",
            ProbeStatus::Ready => "ready",
            ProbeStatus::NotReady => "not_ready",
        };
        ProbeResponse { status: status.to_owned(), timestamp: r.timestamp }
    }
}

impl StatusResponse {
    pub fn from_result(r: StatusResult) -> (b: StatusResponse)
        ensures
            b.status@ == overall_label(r.overall),
            b.service == r.service,
            b.version == r.version,
            b.environment == r.environment,
            b.timestamp == r.timestamp,
            b.checks.database.status@ == component_label(r.database.health),
            b.checks.database.detail == r.database.detail,
    {
        let overall = match r.overall {
            ComponentHealth::Healthy => "healthy",
            ComponentHealth::Unhealthy => "degraded",
        };
        let db_status = match r.database.health {
            ComponentHealth::Healthy => "healthy",
            ComponentHealth::Unhealthy => "unhealthy",
        };
        StatusResponse {
            status: overall.to_owned(),
            service: r.service,
            version: r.version,
            environment: r.environment,
            timestamp: r.timestamp,
            checks: StatusChecks {
                database: ComponentStatus { status: db_status.to_owned(), detail: r.database.detail },
            },
        }
    }
}

} // verus!
