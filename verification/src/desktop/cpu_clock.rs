//! The effective CPU clock the shell shows, refreshed at most every 750 ms
//! from a performance-counter probe.
use vstd::prelude::*;

use crate::text::{parse_unsigned_chars, spec_parse_unsigned, spec_trim, trim};

verus! {

/// Milliseconds between probes.
pub const CPU_CLOCK_REFRESH_INTERVAL_MS: u64 = 750;

/// The last probed clock and how long ago it was taken.
#[derive(Clone, Copy, Debug, PartialEq, Eq, Structural)]
pub struct CpuClockCache {
    pub last_refresh_ms: Option<u64>,
    pub value_mhz: u16,
}

impl CpuClockCache {
    /// A cache that was never filled.
    pub fn new() -> (r: Self)
        ensures
            r.last_refresh_ms is None,
            r.value_mhz == 0,
    {
        CpuClockCache { last_refresh_ms: None, value_mhz: 0 }
    }
}

/// Whether the clock is probed again at `now_ms`: when it never was or the
/// last probe is at least 750 ms old.
pub open spec fn refresh_due(cache: CpuClockCache, now_ms: u64) -> bool {
    match cache.last_refresh_ms {
        Some(t) => now_ms - t >= CPU_CLOCK_REFRESH_INTERVAL_MS,
        None => true,
    }
}

/// Whether a probe is due at `now_ms` (see [`refresh_due`]).
pub fn should_refresh(cache: &CpuClockCache, now_ms: u64) -> (r: bool)
    ensures
        r == refresh_due(*cache, now_ms),
{
    match cache.last_refresh_ms {
        Some(t) => now_ms >= t && now_ms - t >= CPU_CLOCK_REFRESH_INTERVAL_MS,
        None => true,
    }
}

/// The clock the probe printed: its trimmed output as a `u16` above 0.
pub open spec fn spec_probe_value(output: Seq<char>) -> Option<u16> {
    match spec_parse_unsigned(spec_trim(output), 10, 65535) {
        Some(v) => if v > 0 {
            Some(v as u16)
        } else {
            None
        },
        None => None,
    }
}

/// Reads the probe's output (`None` when the probe failed).
pub fn parse_probe_output(output: Option<&str>) -> (r: Option<u16>)
    ensures
        output is None ==> r is None,
        output matches Some(o) ==> r == spec_probe_value(o@),
{
    let o = match output {
        Some(o) => o,
        None => return None,
    };
    let t = trim(o);
    match parse_unsigned_chars(t.as_slice(), 10, 65535) {
        Some(v) => if v > 0 {
            Some(v as u16)
        } else {
            None
        },
        None => None,
    }
}

/// The clock shown for a cached value: none when it is 0.
pub open spec fn shown_clock(value_mhz: u16) -> Option<u16> {
    if value_mhz > 0 {
        Some(value_mhz)
    } else {
        None
    }
}

/// The clock to show at `now_ms`. When a probe is due, `probed` is its
/// result: a value is stored with the time; a failed probe keeps the cache
/// and shows nothing when nothing was ever cached. When no probe is due,
/// `probed` is ignored and the cache is shown. A value of 0 shows as none.
pub fn read_effective_cpu_clock_mhz(
    cache: &mut CpuClockCache,
    now_ms: u64,
    probed: Option<u16>,
) -> (r: Option<u16>)
    ensures
        !refresh_due(*old(cache), now_ms) ==> *final(cache) == *old(cache) && r == shown_clock(
            old(cache).value_mhz,
        ),
        refresh_due(*old(cache), now_ms) ==> (probed matches Some(v) ==> *final(cache) == (
        CpuClockCache { last_refresh_ms: Some(now_ms), value_mhz: v }) && r == shown_clock(v)),
        refresh_due(*old(cache), now_ms) && probed is None ==> *final(cache) == *old(cache) && r
            == (if old(cache).last_refresh_ms is None {
            None
        } else {
            shown_clock(old(cache).value_mhz)
        }),
{
    if should_refresh(cache, now_ms) {
        match probed {
            Some(v) => {
                cache.value_mhz = v;
                cache.last_refresh_ms = Some(now_ms);
            },
            None => {
                if cache.last_refresh_ms.is_none() {
                    return None;
                }
            },
        }
    }
    if cache.value_mhz > 0 {
        Some(cache.value_mhz)
    } else {
        None
    }
}

} // verus!
