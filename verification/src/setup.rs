//! The choices that are made once, when a service is set up.

use vstd::prelude::*;
use crate::text::{decimal, has_prefix, push_decimal, push_text, starts_with};

verus! {

/// The line format of the log.
#[derive(Debug, Clone, Copy, PartialEq, Eq, Structural)]
pub enum LogFormat {
    /// One JSON object per line, for production.
    Json,
    /// Lines for people, for development.
    Pretty,
}

/// An environment is a production environment when its name starts with
/// `prod`.
pub open spec fn is_production(environment: Seq<char>) -> bool {
    has_prefix(environment, "prod"@)
}

/// The line format for an environment: JSON in production, pretty elsewhere.
pub fn log_format_for(environment: &str) -> (r: LogFormat)
    ensures
        r == if is_production(environment@) {
            LogFormat::Json
        } else {
            LogFormat::Pretty
        },
{
    if starts_with(environment, "prod") {
        LogFormat::Json
    } else {
        LogFormat::Pretty
    }
}

/// The path under which the routes of one API version are mounted.
pub open spec fn api_path(version: nat) -> Seq<char> {
    "/api/v"@ + decimal(version)
}

/// The paths for `count` sets of routes: the set at position `i`, counted
/// from zero, is mounted under version `i + 1`.
pub fn api_paths(count: usize) -> (paths: Vec<String>)
    ensures
        paths@.len() == count,
        forall|i: int| 0 <= i < count ==> (#[trigger] paths@[i])@ == api_path((i + 1) as nat),
{
    let mut paths: Vec<String> = Vec::new();
    let mut i: usize = 0;
    while i < count
        invariant
            0 <= i <= count,
            paths@.len() == i,
            forall|k: int| 0 <= k < i ==> (#[trigger] paths@[k])@ == api_path((k + 1) as nat),
        decreases count - i,
    {
        let mut path = "/api/v".to_owned();
        push_decimal(&mut path, i as u64 + 1);
        paths.push(path);
        i += 1;
    }
    paths
}

/// The name of the dataset that traces are sent to when none is configured:
/// the name of the service, a hyphen, and the environment.
pub fn default_dataset(service_name: &str, environment: &str) -> (r: String)
    ensures
        r@ == service_name@ + "-"@ + environment@,
{
    let mut out = service_name.to_owned();
    push_text(&mut out, "-");
    push_text(&mut out, environment);
    out
}

} // verus!
