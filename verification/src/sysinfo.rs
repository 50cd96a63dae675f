//! Memory counters and uptime.

use libc::{c_ulong, c_ulonglong};
use std::time::Duration;
use vstd::prelude::*;

verus! {

/// Main memory and swap space, in kilobytes.
///
/// The fields are reported independently of each other: `used + free` need
/// not add up to `total`.
#[derive(Debug, Clone, Copy, PartialEq, Eq)]
pub struct MemInfo {
    pub total: c_ulong,
    pub used: c_ulonglong,
    pub free: c_ulonglong,
    pub shared: c_ulonglong,
    pub buffers: c_ulonglong,
    pub cached: c_ulonglong,
    pub available: c_ulonglong,
    pub swap_total: c_ulonglong,
    pub swap_used: c_ulonglong,
    pub swap_free: c_ulonglong,
}

/// Time since boot and time spent idle.
#[derive(Debug, Clone, Copy, PartialEq, Eq)]
pub struct Uptime {
    pub active: Duration,
    pub idle: Duration,
}

/// Collects the ten memory counters, read after a refresh, into one value.
/// Every field is the counter of its name, unchanged.
pub fn get_meminfo(
    total: c_ulong,
    used: c_ulonglong,
    free: c_ulonglong,
    shared: c_ulonglong,
    buffers: c_ulonglong,
    cached: c_ulonglong,
    available: c_ulonglong,
    swap_total: c_ulonglong,
    swap_used: c_ulonglong,
    swap_free: c_ulonglong,
) -> (info: MemInfo)
    ensures
        info == (MemInfo {
            total,
            used,
            free,
            shared,
            buffers,
            cached,
            available,
            swap_total,
            swap_used,
            swap_free,
        }),
{
    MemInfo {
        total,
        used,
        free,
        shared,
        buffers,
        cached,
        available,
        swap_total,
        swap_used,
        swap_free,
    }
}

/// Builds the uptime from the two durations that the uptime query reported.
///
/// Both fields of the result are the time since boot. The reported idle time
/// is taken and then left aside, as callers of this accessor have always seen
/// it; whether `idle` ought to carry it instead is an open question, since
/// the two differ on any machine that has done work.
pub fn get_uptime(active: Duration, idle: Duration) -> (uptime: Uptime)
    ensures
        uptime == (Uptime { active, idle: active }),
{
    let _ = idle;
    Uptime { active, idle: active }
}

} // verus!
