//! Readings from slow probes, kept between telemetry ticks and refreshed at
//! most once per interval.
use vstd::prelude::*;

verus! {

/// Milliseconds between CPU clock probes.
pub const CPU_CLOCK_REFRESH_MS: u64 = 333;

/// Milliseconds between firmware sensor probes.
pub const FIRMWARE_SENSOR_REFRESH_MS: u64 = 2000;

/// Milliseconds between NVIDIA GPU queries while the GPU may be queried.
pub const GPU_REFRESH_MS: u64 = 1000;

/// The last reading of a probe and when it was last probed.
#[derive(Clone, Copy, Debug)]
pub struct CachedReading<T> {
    pub last_refresh_ms: Option<u64>,
    pub value: T,
}

impl<T: Copy> CachedReading<T> {
    /// A reading that was never probed, holding `initial`.
    pub fn new(initial: T) -> (r: Self)
        ensures
            r.last_refresh_ms is None,
            r.value == initial,
    {
        CachedReading { last_refresh_ms: None, value: initial }
    }
}

/// A probe is due at `now_ms` when it never ran or its last run is at
/// least `interval_ms` old.
pub open spec fn probe_due(last_refresh_ms: Option<u64>, now_ms: u64, interval_ms: u64) -> bool {
    match last_refresh_ms {
        Some(t) => now_ms - t >= interval_ms,
        None => true,
    }
}

/// Whether the probe of `cache` is due at `now_ms` (see [`probe_due`]).
pub fn refresh_due<T>(cache: &CachedReading<T>, now_ms: u64, interval_ms: u64) -> (r: bool)
    ensures
        r == probe_due(cache.last_refresh_ms, now_ms, interval_ms),
{
    match cache.last_refresh_ms {
        Some(t) => now_ms >= t && now_ms - t >= interval_ms,
        None => true,
    }
}

/// Records a probe run at `now_ms`: a successful reading replaces the
/// value, a failed one keeps the previous value; either way the probe waits
/// a full interval before it runs again.
pub fn record_probe<T: Copy>(cache: &mut CachedReading<T>, now_ms: u64, reading: Option<T>)
    ensures
        final(cache).last_refresh_ms == Some(now_ms),
        final(cache).value == (match reading {
            Some(v) => v,
            None => old(cache).value,
        }),
{
    cache.last_refresh_ms = Some(now_ms);
    match reading {
        Some(v) => cache.value = v,
        None => {},
    }
}

/// The reading returned at `now_ms`: the probe runs (`probed` is its
/// outcome) only when due, and the cached value is returned.
pub fn read_cached<T: Copy>(
    cache: &mut CachedReading<T>,
    now_ms: u64,
    interval_ms: u64,
    probed: Option<Option<T>>,
) -> (r: T)
    requires
        probed is Some == probe_due(old(cache).last_refresh_ms, now_ms, interval_ms),
    ensures
        probed matches Some(reading) ==> final(cache).last_refresh_ms == Some(now_ms)
            && final(cache).value == (match reading {
            Some(v) => v,
            None => old(cache).value,
        }),
        probed is None ==> *final(cache) == *old(cache),
        r == final(cache).value,
{
    match probed {
        Some(reading) => record_probe(cache, now_ms, reading),
        None => {},
    }
    cache.value
}

} // verus!
