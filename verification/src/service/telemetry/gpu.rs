//! GPU telemetry decisions: finding the NVIDIA adapter, when to poll it,
//! and turning NVML readings into percentages.
use vstd::prelude::*;

use crate::text::{
    lemma_split_by_nonempty,
    chars_of, parse_unsigned_chars, push_chars, push_decimal, push_signed_decimal, spec_decimal,
    spec_parse_unsigned, spec_signed_decimal, spec_trim, split_by, split_chars, string_from_chars,
    trim, trim_chars,
};

verus! {

// ----------------------------------------------------------------------------
// Finding the NVIDIA adapter
// ----------------------------------------------------------------------------

/// The UTF-16 code units of `VEN_10DE`, NVIDIA's PCI vendor id in hardware
/// ids.
pub open spec fn nvidia_vendor_id() -> Seq<u16> {
    seq![0x56u16, 0x45u16, 0x4Eu16, 0x5Fu16, 0x31u16, 0x30u16, 0x44u16, 0x45u16]
}

/// `w` with an ASCII lower-case letter mapped to upper case.
pub open spec fn ascii_upper_u16(w: u16) -> u16 {
    if 0x61 <= w <= 0x7A {
        (w - 32) as u16
    } else {
        w
    }
}

/// `needle` occurs in `hay` at `i`, ignoring ASCII case in `hay`.
pub open spec fn occurs_upper_at(hay: Seq<u16>, needle: Seq<u16>, i: int) -> bool {
    0 <= i && i + needle.len() <= hay.len() && forall|k: int|
        0 <= k < needle.len() ==> ascii_upper_u16(#[trigger] hay[i + k]) == needle[k]
}

/// The segment `data[start..end)` holds the NVIDIA vendor id.
pub open spec fn segment_has_vendor(data: Seq<u16>, start: int, end: int) -> bool {
    exists|i: int| start <= i && i + 8 <= end && occurs_upper_at(data, nvidia_vendor_id(), i)
}

/// The end of the string that starts at `start`: the next 0, or the end.
pub open spec fn string_end(data: Seq<u16>, start: int) -> int
    decreases data.len() - start,
{
    if start >= data.len() || data[start] == 0 {
        start
    } else {
        string_end(data, start + 1)
    }
}

/// One of the strings of the REG_MULTI_SZ `data`, from `start` up to the
/// empty string that ends the list, holds the NVIDIA vendor id.
pub open spec fn vendor_in_strings(data: Seq<u16>, start: int) -> bool
    decreases data.len() + 1 - start,
    via vendor_in_strings_decreases
{
    if start < 0 || start >= data.len() {
        false
    } else {
        let end = string_end(data, start);
        if end == start {
            false
        } else {
            segment_has_vendor(data, start, end) || vendor_in_strings(data, end + 1)
        }
    }
}

/// Where a string of a REG_MULTI_SZ ends: at or after its start, at a 0 or
/// the end, with no 0 before.
pub proof fn lemma_string_end_bounds(data: Seq<u16>, start: int)
    requires
        0 <= start <= data.len(),
    ensures
        start <= string_end(data, start) <= data.len(),
        string_end(data, start) < data.len() ==> data[string_end(data, start)] == 0,
        forall|k: int| start <= k < string_end(data, start) ==> data[k] != 0,
    decreases data.len() - start,
{
    if start < data.len() && data[start] != 0 {
        lemma_string_end_bounds(data, start + 1);
    }
}

#[via_fn]
proof fn vendor_in_strings_decreases(data: Seq<u16>, start: int) {
    if 0 <= start < data.len() {
        lemma_string_end_bounds(data, start);
    }
}

fn segment_has_vendor_exec(data: &[u16], start: usize, end: usize) -> (r: bool)
    requires
        start <= end <= data@.len(),
    ensures
        r == segment_has_vendor(data@, start as int, end as int),
{
    let needle: [u16; 8] = [0x56, 0x45, 0x4E, 0x5F, 0x31, 0x30, 0x44, 0x45];
    assert(needle@ =~= nvidia_vendor_id());
    if end - start < 8 {
        return false;
    }
    let last = end - 8;
    let mut i = start;
    while i <= last
        invariant
            start <= i <= last + 1,
            last + 8 == end,
            end <= data@.len(),
            needle@ == nvidia_vendor_id(),
            forall|j: int| start <= j < i ==> !occurs_upper_at(data@, nvidia_vendor_id(), j),
        decreases last + 1 - i,
    {
        let mut k: usize = 0;
        let mut all = true;
        while k < 8
            invariant
                k <= 8,
                i <= last,
                last + 8 == end,
                end <= data@.len(),
                needle@ == nvidia_vendor_id(),
                all == forall|m: int| 0 <= m < k ==> ascii_upper_u16(#[trigger] data@[i + m]) == needle@[m],
            decreases 8 - k,
        {
            let w = data[i + k];
            let up: u16 = if 0x61 <= w && w <= 0x7A {
                w - 32
            } else {
                w
            };
            if up != needle[k] {
                all = false;
            }
            k = k + 1;
        }
        if all {
            assert(occurs_upper_at(data@, nvidia_vendor_id(), i as int));
            return true;
        }
        i = i + 1;
    }
    false
}

/// Whether a device's hardware-id list (a REG_MULTI_SZ of UTF-16 code
/// units) names the NVIDIA vendor id in any of its strings, ignoring case.
pub fn is_nvidia_hardware_id(data: &[u16]) -> (r: bool)
    ensures
        r == vendor_in_strings(data@, 0),
{
    let n = data.len();
    let mut start: usize = 0;
    while start < n
        invariant
            n == data@.len(),
            start <= n,
            vendor_in_strings(data@, 0) == vendor_in_strings(data@, start as int),
        decreases n - start,
    {
        let mut end = start;
        while end < n && data[end] != 0
            invariant
                start <= end <= n,
                n == data@.len(),
                string_end(data@, start as int) == string_end(data@, end as int),
            decreases n - end,
        {
            end = end + 1;
        }
        proof {
            lemma_string_end_bounds(data@, start as int);
        }
        if end == start {
            return false;
        }
        if segment_has_vendor_exec(data, start, end) {
            return true;
        }
        if end == n {
            assert(!vendor_in_strings(data@, n as int + 1));
            return false;
        }
        start = end + 1;
    }
    false
}

// ----------------------------------------------------------------------------
// When to poll
// ----------------------------------------------------------------------------

/// Size in bytes of the device power-data record (`CM_POWER_DATA`).
pub const CM_POWER_DATA_SIZE: u32 = 56;

/// The PnP power state that means fully on (D0).
pub const POWER_DEVICE_D0: u32 = 1;

/// The GPU is in D0: the power-data query succeeded, returned a whole
/// record, and its most recent power state is D0.
pub open spec fn power_state_is_d0(status: u32, returned_size: u32, most_recent_state: u32) -> bool {
    status == 0 && returned_size >= CM_POWER_DATA_SIZE && most_recent_state == POWER_DEVICE_D0
}

/// Whether the GPU is in D0 (see [`power_state_is_d0`]); a failed query
/// counts as not in D0.
pub fn gpu_power_state_is_d0(status: u32, returned_size: u32, most_recent_state: u32) -> (r: bool)
    ensures
        r == power_state_is_d0(status, returned_size, most_recent_state),
{
    status == 0 && returned_size >= CM_POWER_DATA_SIZE && most_recent_state == POWER_DEVICE_D0
}

/// Seconds between fallback probes when the adapter cannot be located.
pub const FALLBACK_PROBE_INTERVAL_SECS: u64 = 30;

/// Whether the GPU is polled this tick: with a located adapter, exactly when
/// it is in D0; without one, when no fallback probe was made yet or the last
/// was at least 30 seconds ago.
pub open spec fn should_poll(adapter_found: bool, d0: bool, secs_since_fallback_probe: Option<u64>) -> bool {
    if adapter_found {
        d0
    } else {
        match secs_since_fallback_probe {
            Some(s) => s >= FALLBACK_PROBE_INTERVAL_SECS,
            None => true,
        }
    }
}

/// Whether the GPU is polled this tick (see [`should_poll`]).
pub fn gpu_should_poll(
    adapter_found: bool,
    d0: bool,
    secs_since_fallback_probe: Option<u64>,
) -> (r: bool)
    ensures
        r == should_poll(adapter_found, d0, secs_since_fallback_probe),
{
    if adapter_found {
        d0
    } else {
        match secs_since_fallback_probe {
            Some(s) => s >= FALLBACK_PROBE_INTERVAL_SECS,
            None => true,
        }
    }
}

/// A located GPU that is not confirmed in D0 is never polled: a failed or
/// short power-data query, or any state other than D0, leaves it alone.
pub proof fn law_sleeping_gpu_is_not_polled(
    status: u32,
    returned_size: u32,
    most_recent_state: u32,
    secs_since_fallback_probe: Option<u64>,
)
    requires
        status != 0 || returned_size < CM_POWER_DATA_SIZE || most_recent_state != POWER_DEVICE_D0,
    ensures
        !should_poll(
            true,
            power_state_is_d0(status, returned_size, most_recent_state),
            secs_since_fallback_probe,
        ),
{
}

/// The line logged when the observed D0 state `d0` differs from the last
/// logged one; nothing when it is the same.
pub open spec fn d0_log_message(last_logged_d0: Option<bool>, d0: bool) -> Option<Seq<char>> {
    if last_logged_d0 == Some(d0) {
        None
    } else if d0 {
        Some("GPU entered D0 (woken by another process). Starting NVML polling."@)
    } else {
        Some("GPU entered D3/D3cold. NVML polling suspended; RTD3 unrestricted."@)
    }
}

/// The line to log for the observed D0 state; the logged state becomes
/// `d0`.
pub fn log_d0_transition(last_logged_d0: &mut Option<bool>, d0: bool) -> (r: Option<&'static str>)
    ensures
        *final(last_logged_d0) == Some(d0),
        match d0_log_message(*old(last_logged_d0), d0) {
            Some(m) => r matches Some(t) && t@ == m,
            None => r is None,
        },
{
    if *last_logged_d0 == Some(d0) {
        return None;
    }
    *last_logged_d0 = Some(d0);
    if d0 {
        Some("GPU entered D0 (woken by another process). Starting NVML polling.")
    } else {
        Some("GPU entered D3/D3cold. NVML polling suspended; RTD3 unrestricted.")
    }
}

/// A transition is logged once: after a state is logged, observing it again
/// logs nothing, and observing the other state logs a line.
pub proof fn law_d0_transition_logged_once(last_logged_d0: Option<bool>, d0: bool)
    ensures
        d0_log_message(Some(d0), d0) is None,
        d0_log_message(Some(d0), !d0) is Some,
        last_logged_d0 != Some(d0) ==> d0_log_message(last_logged_d0, d0) is Some,
{
}

/// What the telemetry worker remembers between GPU reads: the last logged
/// D0 state and when (in seconds) the last fallback probe was made.
#[derive(Clone, Copy, Debug, Default, PartialEq, Eq, Structural)]
pub struct GpuPollState {
    pub last_logged_d0: Option<bool>,
    pub last_fallback_probe_secs: Option<u64>,
}

/// Whether the GPU is queried this tick, and the transition line to log.
#[derive(Clone, Copy, Debug)]
pub struct GpuPollDecision {
    pub poll: bool,
    pub log_line: Option<&'static str>,
}

/// The decision half of a GPU read at `now_secs`. With a located adapter
/// (`adapter_d0` its D0 state) the GPU is queried exactly when it is in D0,
/// and a change of D0 state is logged once. Without one, a fallback probe
/// is made when none was made yet or the last is at least 30 seconds old,
/// and its time is recorded. When no query is made the cached readings
/// stand.
pub fn read_gpu_snapshot(state: &mut GpuPollState, adapter_d0: Option<bool>, now_secs: u64) -> (r:
    GpuPollDecision)
    ensures
        adapter_d0 matches Some(d0) ==> r.poll == d0 && final(state).last_logged_d0 == Some(d0)
            && final(state).last_fallback_probe_secs == old(state).last_fallback_probe_secs && (
        match d0_log_message(old(state).last_logged_d0, d0) {
            Some(m) => r.log_line matches Some(t) && t@ == m,
            None => r.log_line is None,
        }),
        adapter_d0 is None ==> r.log_line is None && final(state).last_logged_d0 == old(
            state,
        ).last_logged_d0 && r.poll == should_poll(
            false,
            false,
            match old(state).last_fallback_probe_secs {
                Some(t) => Some(if now_secs >= t { (now_secs - t) as u64 } else { 0u64 }),
                None => None,
            },
        ) && (r.poll ==> final(state).last_fallback_probe_secs == Some(now_secs)) && (!r.poll
            ==> final(state).last_fallback_probe_secs == old(state).last_fallback_probe_secs),
{
    match adapter_d0 {
        Some(d0) => {
            let log_line = log_d0_transition(&mut state.last_logged_d0, d0);
            GpuPollDecision { poll: gpu_should_poll(true, d0, None), log_line }
        },
        None => {
            let since = match state.last_fallback_probe_secs {
                Some(t) => Some(if now_secs >= t { now_secs - t } else { 0 }),
                None => None,
            };
            let due = gpu_should_poll(false, false, since);
            if due {
                state.last_fallback_probe_secs = Some(now_secs);
            }
            GpuPollDecision { poll: due, log_line: None }
        },
    }
}

// ----------------------------------------------------------------------------
// NVML readings
// ----------------------------------------------------------------------------

/// An NVML call succeeded (status 0); otherwise the error
/// `<call> failed with NVML status <code>`.
pub fn nvml_call(code: i32, call_name: &str) -> (r: Result<(), String>)
    ensures
        code == 0 ==> r is Ok,
        code != 0 ==> (r matches Err(e) && e@ == call_name@ + " failed with NVML status "@
            + spec_signed_decimal(code as int)),
{
    if code == 0 {
        Ok(())
    } else {
        let mut e = String::new();
        e.append(call_name);
        e.append(" failed with NVML status ");
        push_signed_decimal(&mut e, code as i64);
        Err(e)
    }
}

/// `part / whole` as a percentage rounded to the nearest integer (halves
/// up), capped at 100. The ratio is rounded exactly, as a rational number,
/// where a computation in `f64` can fall just below an exact half and round
/// down (57 of 200: 29 here, 28 in `f64`).
pub open spec fn percent_of(part: nat, whole: nat) -> u8 {
    let p = (200 * part + whole) / (2 * whole);
    if p > 100 {
        100
    } else {
        p as u8
    }
}

/// The integer GPU readings telemetry reports.
#[derive(Clone, Copy, Debug, Default, PartialEq, Eq, Structural)]
pub struct GpuCoreReadings {
    pub usage_percent: Option<u8>,
    pub memory_usage_percent: Option<u8>,
    pub temp_c: Option<u8>,
    pub clock_mhz: Option<u16>,
}

/// The readings from raw NVML values: utilization capped at 100,
/// temperature at 255, clock at 65535, and memory use as a percentage of
/// the total rounded exactly (see [`percent_of`]; none when the total is 0).
pub fn nvml_core_readings(
    utilization_gpu: u32,
    temperature: u32,
    clock_mhz: u32,
    memory_used: u64,
    memory_total: u64,
) -> (r: GpuCoreReadings)
    ensures
        r.usage_percent == Some(if utilization_gpu > 100 { 100u8 } else { utilization_gpu as u8 }),
        r.temp_c == Some(if temperature > 255 { 255u8 } else { temperature as u8 }),
        r.clock_mhz == Some(if clock_mhz > 65535 { 65535u16 } else { clock_mhz as u16 }),
        memory_total == 0 ==> r.memory_usage_percent is None,
        memory_total > 0 ==> r.memory_usage_percent == Some(percent_of(memory_used as nat, memory_total as nat)),
{
    let memory_usage_percent = if memory_total > 0 {
        let p: u128 = (200 * memory_used as u128 + memory_total as u128) / (2 * memory_total as u128);
        Some(if p > 100 { 100u8 } else { p as u8 })
    } else {
        None
    };
    GpuCoreReadings {
        usage_percent: Some(if utilization_gpu > 100 { 100 } else { utilization_gpu as u8 }),
        memory_usage_percent,
        temp_c: Some(if temperature > 255 { 255 } else { temperature as u8 }),
        clock_mhz: Some(if clock_mhz > 65535 { 65535 } else { clock_mhz as u16 }),
    }
}

// ----------------------------------------------------------------------------
// The nvidia-smi fallback
// ----------------------------------------------------------------------------

/// The first line of `nvidia-smi` output, trimmed.
pub open spec fn smi_row(stdout: Seq<char>) -> Seq<char> {
    spec_trim(split_by(stdout, '\n')[0])
}

/// The comma-separated fields of a row, each trimmed.
pub open spec fn smi_fields(row: Seq<char>) -> Seq<Seq<char>> {
    split_by(row, ',').map_values(|f: Seq<char>| spec_trim(f))
}

/// A parsed number narrowed to `u8`.
pub open spec fn narrow_u8(v: Option<nat>) -> Option<u8> {
    match v {
        Some(n) => Some(n as u8),
        None => None,
    }
}

/// A parsed number narrowed to `u16`.
pub open spec fn narrow_u16(v: Option<nat>) -> Option<u16> {
    match v {
        Some(n) => Some(n as u16),
        None => None,
    }
}

/// A parsed `u16` utilization capped at 100.
pub open spec fn capped_percent(v: Option<nat>) -> Option<u8> {
    match v {
        Some(n) => Some(if n > 100 { 100u8 } else { n as u8 }),
        None => None,
    }
}

/// The integer readings of an `nvidia-smi --query-gpu` CSV row, and all of
/// its trimmed fields (the memory and power columns are read from these).
pub struct NvidiaSmiRow {
    pub temp_c: Option<u8>,
    pub clock_mhz: Option<u16>,
    pub usage_percent: Option<u8>,
    pub fields: Vec<String>,
}

/// Reads the output of the `nvidia-smi` GPU query: a failed run, an empty
/// first row and a row of fewer than five fields are errors; otherwise the
/// temperature (`u8`), graphics clock (`u16`) and utilization (`u16`, capped
/// at 100) are parsed from the first three fields.
pub fn parse_nvidia_smi_output(success: bool, stdout: &str, stderr: &str) -> (r: Result<
    NvidiaSmiRow,
    String,
>)
    ensures
        !success ==> (r matches Err(e) && e@ == "nvidia-smi GPU query failed: "@ + spec_trim(
            stderr@,
        )),
        success && smi_row(stdout@).len() == 0 ==> (r matches Err(e) && e@
            == "nvidia-smi returned no GPU rows"@),
        success && smi_row(stdout@).len() > 0 && smi_fields(smi_row(stdout@)).len() < 5 ==> (r matches Err(e)
            && e@ == "unexpected nvidia-smi field count: "@ + spec_decimal(
            smi_fields(smi_row(stdout@)).len(),
        )),
        success && smi_row(stdout@).len() > 0 && smi_fields(smi_row(stdout@)).len() >= 5 ==> (r matches Ok(row)
            && row.temp_c == narrow_u8(spec_parse_unsigned(smi_fields(smi_row(stdout@))[0], 10, 255))
            && row.clock_mhz == narrow_u16(
            spec_parse_unsigned(smi_fields(smi_row(stdout@))[1], 10, 65535),
        ) && row.usage_percent == capped_percent(
            spec_parse_unsigned(smi_fields(smi_row(stdout@))[2], 10, 65535),
        ) && row.fields.len() == smi_fields(smi_row(stdout@)).len() && forall|j: int|
            0 <= j < row.fields.len() ==> (#[trigger] row.fields[j])@ == smi_fields(
                smi_row(stdout@),
            )[j]),
{
    if !success {
        let mut e = String::new();
        e.append("nvidia-smi GPU query failed: ");
        let t = trim(stderr);
        push_chars(&mut e, t.as_slice());
        return Err(e);
    }
    let all = chars_of(stdout);
    let lines = split_chars(all.as_slice(), '\n');
    proof {
        lemma_split_by_nonempty(all@, '\n');
    }
    let row = trim_chars(lines[0].as_slice());
    if row.len() == 0 {
        return Err(String::from_str("nvidia-smi returned no GPU rows"));
    }
    let pieces = split_chars(row.as_slice(), ',');
    let ghost expected = smi_fields(row@);
    let mut fields: Vec<Vec<char>> = Vec::new();
    for j in 0..pieces.len()
        invariant
            pieces.len() == split_by(row@, ',').len(),
            forall|k: int| 0 <= k < pieces.len() ==> (#[trigger] pieces[k])@ == split_by(row@, ',')[k],
            expected == smi_fields(row@),
            fields.len() == j,
            forall|k: int| 0 <= k < j ==> (#[trigger] fields[k])@ == expected[k],
    {
        fields.push(trim_chars(pieces[j].as_slice()));
    }
    if fields.len() < 5 {
        let mut e = String::new();
        e.append("unexpected nvidia-smi field count: ");
        push_decimal(&mut e, fields.len() as u64);
        return Err(e);
    }
    let temp_c = match parse_unsigned_chars(fields[0].as_slice(), 10, 255) {
        Some(v) => Some(v as u8),
        None => None,
    };
    let clock_mhz = match parse_unsigned_chars(fields[1].as_slice(), 10, 65535) {
        Some(v) => Some(v as u16),
        None => None,
    };
    let usage_percent = match parse_unsigned_chars(fields[2].as_slice(), 10, 65535) {
        Some(v) => Some(if v > 100 { 100u8 } else { v as u8 }),
        None => None,
    };
    let mut texts: Vec<String> = Vec::new();
    for j in 0..fields.len()
        invariant
            fields.len() == expected.len(),
            forall|k: int| 0 <= k < fields.len() ==> (#[trigger] fields[k])@ == expected[k],
            texts.len() == j,
            forall|k: int| 0 <= k < j ==> (#[trigger] texts[k])@ == expected[k],
    {
        texts.push(string_from_chars(fields[j].as_slice()));
    }
    Ok(NvidiaSmiRow { temp_c, clock_mhz, usage_percent, fields: texts })
}

/// NVML must report at least one device.
pub fn check_nvml_device_count(count: u32) -> (r: Result<(), String>)
    ensures
        count > 0 ==> r is Ok,
        count == 0 ==> (r matches Err(e) && e@ == "NVML reported zero NVIDIA devices"@),
{
    if count == 0 {
        Err(String::from_str("NVML reported zero NVIDIA devices"))
    } else {
        Ok(())
    }
}

} // verus!
