//! Process-wide settings, each with a default when it is not given.

use vstd::prelude::*;

verus! {

/// Where to reach the executor, where to export spans, and the service's name.
#[derive(Clone, Debug, PartialEq)]
pub struct Config {
    pub worker_url: String,
    pub exporter_endpoint: String,
    pub service_name: String,
}

pub open spec fn or_default(v: Option<String>, d: Seq<char>) -> Seq<char> {
    match v {
        Some(s) => s@,
        None => d,
    }
}

/// Fills each missing setting with its default: the executor at
/// `http://localhost:3001`, the exporter at `http://localhost:4317`, and the
/// given service name.
pub fn resolve_config(
    worker_url: Option<String>,
    exporter_endpoint: Option<String>,
    service_name: Option<String>,
    default_service_name: &str,
) -> (r: Config)
    ensures
        r.worker_url@ == or_default(worker_url, "http://localhost:3001"@),
        r.exporter_endpoint@ == or_default(exporter_endpoint, "http://localhost:4317"@),
        r.service_name@ == or_default(service_name, default_service_name@),
{
    let worker_url = match worker_url {
        Some(s) => s,
        None => String::from_str("http://localhost:3001"),
    };
    let exporter_endpoint = match exporter_endpoint {
        Some(s) => s,
        None => String::from_str("http://localhost:4317"),
    };
    let service_name = match service_name {
        Some(s) => s,
        None => String::from_str(default_service_name),
    };
    Config { worker_url, exporter_endpoint, service_name }
}

impl Config {
    /// The executor's work endpoint.
    pub fn work_url(&self) -> (r: String)
        ensures
            r@ == self.worker_url@ + "/work"@,
    {
        let mut u = self.worker_url.clone();
        u.append("/work");
        u
    }
}

} // verus!
