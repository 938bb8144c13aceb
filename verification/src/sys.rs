//! Trusted access to the process environment: the wall clock, backtrace
//! capture, and filesystem probes. Each function wraps one call into std
//! whose result depends on the environment, so no contract pins the value
//! down; callers state what holds of every outcome.

use vstd::prelude::*;

verus! {

/// Relies on std::time::SystemTime::now: milliseconds since the Unix epoch,
/// or 0 when the clock reads before the epoch. The value depends on the
/// machine's clock, so nothing is promised of it.
#[verifier::external_body]
pub fn wall_clock_ms() -> u64 {
    match std::time::SystemTime::now().duration_since(std::time::UNIX_EPOCH) {
        Ok(d) => d.as_millis() as u64,
        Err(_) => 0,
    }
}

/// Relies on std::backtrace::Backtrace::capture: a rendering of the stack at
/// the call site. The text depends on the build and the call stack, so
/// nothing is promised of it.
#[verifier::external_body]
pub fn capture_backtrace() -> String {
    std::backtrace::Backtrace::capture().to_string()
}

/// Relies on std::path::Path::exists: whether the path names anything on
/// disk right now. The answer depends on the filesystem, so nothing is
/// promised of it.
#[verifier::external_body]
pub fn path_exists(path: &str) -> bool {
    std::path::Path::new(path).exists()
}

/// Relies on std::path::Path::is_dir: whether the path names a directory on
/// disk right now. The answer depends on the filesystem, so nothing is
/// promised of it.
#[verifier::external_body]
pub fn path_is_dir(path: &str) -> bool {
    std::path::Path::new(path).is_dir()
}

} // verus!
