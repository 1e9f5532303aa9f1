//! The addresses of the kernel's HTTP interface.
//!
//! Every address is the base URL without its trailing slashes, followed by the
//! path of the endpoint.

use crate::text::{trim_end_matches, without_trailing, CharClass};
use vstd::prelude::*;

verus! {

/// The readiness probe: any answer from it means that the kernel is up.
pub const HEALTH_PATH: &'static str = "/docs";

/// Tells the kernel to load a page.
pub const NAVIGATE_PATH: &'static str = "/api/v1/browser/navigate";

/// The status of the companion window.
pub const STATUS_PATH: &'static str = "/api/v1/browser/status";

/// Takes the geometry of the companion window.
pub const POSITION_PATH: &'static str = "/api/v1/browser/position";

/// Asks the kernel to shut down.
pub const SHUTDOWN_PATH: &'static str = "/api/v1/system/shutdown";

/// Asks the kernel whether an update is available.
pub const UPDATE_CHECK_PATH: &'static str = "/api/v1/system/update/check";

/// Tells the kernel to install an update.
pub const UPDATE_EXECUTE_PATH: &'static str = "/api/v1/system/update/execute";

/// The address of the endpoint `path` under `base`.
pub open spec fn endpoint_text(base: Seq<char>, path: Seq<char>) -> Seq<char> {
    without_trailing(base, CharClass::Exactly('/')) + path
}

/// The address of the endpoint `path` under `base`.
pub fn endpoint(base: &str, path: &str) -> (url: String)
    ensures
        url@ == endpoint_text(base@, path@),
{
    let mut url = String::from_str(trim_end_matches(base, '/'));
    url.append(path);
    url
}

/// The address of the readiness probe.
pub fn health_url(base: &str) -> (url: String)
    ensures
        url@ == endpoint_text(base@, HEALTH_PATH@),
{
    endpoint(base, HEALTH_PATH)
}

/// The address that takes a navigation order.
pub fn navigate_url(base: &str) -> (url: String)
    ensures
        url@ == endpoint_text(base@, NAVIGATE_PATH@),
{
    endpoint(base, NAVIGATE_PATH)
}

/// The address that reports the status of the companion window.
pub fn status_url(base: &str) -> (url: String)
    ensures
        url@ == endpoint_text(base@, STATUS_PATH@),
{
    endpoint(base, STATUS_PATH)
}

/// The address that takes the geometry of the companion window.
pub fn position_url(base: &str) -> (url: String)
    ensures
        url@ == endpoint_text(base@, POSITION_PATH@),
{
    endpoint(base, POSITION_PATH)
}

/// The address that takes the shutdown request.
pub fn shutdown_url(base: &str) -> (url: String)
    ensures
        url@ == endpoint_text(base@, SHUTDOWN_PATH@),
{
    endpoint(base, SHUTDOWN_PATH)
}

/// The address that answers an update query.
pub fn update_check_url(base: &str) -> (url: String)
    ensures
        url@ == endpoint_text(base@, UPDATE_CHECK_PATH@),
{
    endpoint(base, UPDATE_CHECK_PATH)
}

/// The address that takes an install order.
pub fn update_execute_url(base: &str) -> (url: String)
    ensures
        url@ == endpoint_text(base@, UPDATE_EXECUTE_PATH@),
{
    endpoint(base, UPDATE_EXECUTE_PATH)
}

} // verus!
