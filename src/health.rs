//! The liveness record.
use vstd::prelude::*;

verus! {

/// One answer of the health endpoint.
#[derive(Clone, Debug)]
pub struct HealthStatus {
    pub status: String,
    pub uptime: u64,
}

/// The liveness record for the given uptime, in seconds: always `"ok"`.
pub fn health_status(uptime: u64) -> (r: HealthStatus)
    ensures
        r.status@ == "ok"@,
        r.uptime == uptime,
{
    HealthStatus { status: String::from_str("ok"), uptime }
}

} // verus!
