//! Liveness, readiness and status reports, and the response bodies that
//! carry them.

use vstd::prelude::*;
use vstd::string::*;
use crate::configuration::schema::Config;

verus! {

/// The answer of a probe.
#[derive(Debug, Clone, Copy, PartialEq, Eq)]
pub enum ProbeStatus {
    /// The process is alive; written as `ok`.
    Alive,
    Ready,
    NotReady,
}

/// The health of one component.
#[derive(Debug, Clone, Copy, PartialEq, Eq)]
pub enum ComponentHealth {
    Healthy,
    Unhealthy,
}

/// A probe answer and when it was given (Unix time in nanoseconds).
#[derive(Debug, Clone, Copy, PartialEq, Eq)]
pub struct ProbeResult {
    pub status: ProbeStatus,
    pub timestamp: i64,
}

/// The health of one component, with the failure's text when unhealthy.
#[derive(Debug, Clone)]
pub struct ComponentStatus {
    pub health: ComponentHealth,
    pub detail: Option<String>,
}

/// The service's status report.
#[derive(Debug, Clone)]
pub struct StatusResult {
    pub overall: ComponentHealth,
    pub service: String,
    pub version: String,
    pub environment: String,
    pub timestamp: i64,
    pub database: ComponentStatus,
}

pub const HTTP_OK: u16 = 200;

pub const HTTP_SERVICE_UNAVAILABLE: u16 = 503;

/// The process is alive.
pub fn livez(now: i64) -> (r: ProbeResult)
    ensures
        r == (ProbeResult { status: ProbeStatus::Alive, timestamp: now }),
{
    ProbeResult { status: ProbeStatus::Alive, timestamp: now }
}

/// Ready exactly when the database answered its ping: 200 and `Ready`, else
/// 503 and `NotReady`.
pub fn readyz<E>(ping: &Result<(), E>, now: i64) -> (r: (u16, ProbeResult))
    ensures
        ping is Ok ==> r == (HTTP_OK, ProbeResult { status: ProbeStatus::Ready, timestamp: now }),
        ping is Err ==> r == (
            HTTP_SERVICE_UNAVAILABLE,
            ProbeResult { status: ProbeStatus::NotReady, timestamp: now },
        ),
{
    match ping {
        Ok(()) => (HTTP_OK, ProbeResult { status: ProbeStatus::Ready, timestamp: now }),
        Err(_) => (HTTP_SERVICE_UNAVAILABLE, ProbeResult { status: ProbeStatus::NotReady, timestamp: now }),
    }
}

/// The status report: the database's health decides the overall health and
/// the HTTP status (200 healthy, 503 not); a failed ping's text is the
/// database's detail; service name and environment come from the
/// configuration.
pub fn status(cfg: &Config, version: &str, ping: Result<(), String>, now: i64) -> (r: (
    u16,
    StatusResult,
))
    ensures
        r.1.service@ == cfg.primary.name@,
        r.1.environment@ == cfg.primary.env@,
        r.1.version@ == version@,
        r.1.timestamp == now,
        r.1.overall == r.1.database.health,
        match ping {
            Ok(()) => r.0 == HTTP_OK && r.1.database.health == ComponentHealth::Healthy
                && r.1.database.detail is None,
            Err(e) => r.0 == HTTP_SERVICE_UNAVAILABLE && r.1.database.health
                == ComponentHealth::Unhealthy && (r.1.database.detail matches Some(d) && d@ == e@),
        },
{
    let (health, detail) = match ping {
        Ok(()) => (ComponentHealth::Healthy, None),
        Err(e) => (ComponentHealth::Unhealthy, Some(e)),
    };
    let overall = health;
    let http_status = match overall {
        ComponentHealth::Healthy => HTTP_OK,
        ComponentHealth::Unhealthy => HTTP_SERVICE_UNAVAILABLE,
    };
    (
        http_status,
        StatusResult {
            overall,
            service: cfg.primary.name.clone(),
            version: version.to_owned(),
            environment: cfg.primary.env.clone(),
            timestamp: now,
            database: ComponentStatus { health, detail },
        },
    )
}

} // verus!
