//! The server builder and the request-level decisions of the middleware stack.

use vstd::prelude::*;
use std::sync::Arc;
use crate::configuration::schema::Config;
use crate::web::routes::{listen_address, listen_address_of};

verus! {

/// Builds the HTTP server from a shared configuration.
pub struct ServerBuilder {
    cfg: Arc<Config>,
}

impl ServerBuilder {
    pub fn new(cfg: Arc<Config>) -> (b: ServerBuilder)
        ensures
            b.config() == *cfg,
    {
        ServerBuilder { cfg }
    }

    pub closed spec fn config(&self) -> Config {
        *self.cfg
    }

    /// The configuration the server is built from.
    pub fn cfg(&self) -> (c: &Config)
        ensures
            *c == self.config(),
    {
        &self.cfg
    }

    /// The `host:port` address the listener binds.
    pub fn bind_address(&self) -> (s: String)
        ensures
            s@ == listen_address_of(self.config().server),
    {
        listen_address(&self.cfg.server)
    }
}

/// How a finished request is logged.
#[derive(Debug, Clone, Copy, PartialEq, Eq)]
pub enum ResponseSeverity {
    /// A 5xx answer.
    ServerError,
    /// A 4xx answer.
    ClientError,
    /// Anything else.
    Completed,
}

/// Server errors are logged as errors, client errors as warnings, the rest as
/// information.
pub fn response_severity(status: u16) -> (s: ResponseSeverity)
    ensures
        s == (if 500 <= status < 600 {
            ResponseSeverity::ServerError
        } else if 400 <= status < 500 {
            ResponseSeverity::ClientError
        } else {
            ResponseSeverity::Completed
        }),
{
    if 500 <= status && status < 600 {
        ResponseSeverity::ServerError
    } else if 400 <= status && status < 500 {
        ResponseSeverity::ClientError
    } else {
        ResponseSeverity::Completed
    }
}

} // verus!
