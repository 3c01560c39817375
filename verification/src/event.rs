//! Helpers around nginx's event-loop counters.
use vstd::prelude::*;

use crate::ffi::ngx_atomic_t;

verus! {

/// One snapshot of nginx's global connection-state counters: the same values
/// that the `ngx_http_stub_status_module` exposes.
///
/// The seven counters are read independently, so the snapshot is not
/// consistent across counters; for monitoring use cases the drift between
/// reads is irrelevant.
#[derive(Clone, Copy, Debug, Default)]
#[non_exhaustive]
pub struct ConnectionStats {
    /// Connections currently in use.
    pub active: u64,
    /// Connections currently reading a request header.
    pub reading: u64,
    /// Connections currently writing a response.
    pub writing: u64,
    /// Connections currently idle in keep-alive.
    pub waiting: u64,
    /// Total connections accepted since process start.
    pub accepted: u64,
    /// Total connections handled since process start.
    pub handled: u64,
    /// Total requests served since process start.
    pub requests: u64,
}

/// A snapshot built from the seven counter values, each in the field of the
/// same name.
pub fn snapshot_from_counters(
    active: ngx_atomic_t,
    reading: ngx_atomic_t,
    writing: ngx_atomic_t,
    waiting: ngx_atomic_t,
    accepted: ngx_atomic_t,
    handled: ngx_atomic_t,
    requests: ngx_atomic_t,
) -> (stats: ConnectionStats)
    ensures
        stats.active == active,
        stats.reading == reading,
        stats.writing == writing,
        stats.waiting == waiting,
        stats.accepted == accepted,
        stats.handled == handled,
        stats.requests == requests,
{
    ConnectionStats {
        active: active as u64,
        reading: reading as u64,
        writing: writing as u64,
        waiting: waiting as u64,
        accepted: accepted as u64,
        handled: handled as u64,
        requests: requests as u64,
    }
}

} // verus!
