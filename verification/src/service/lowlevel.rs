//! The low-level sampler: decoding the thermal model-specific registers read
//! through the WinRing0 driver, the driver load retry policy, and the
//! summary of one sample.
use vstd::prelude::*;

use crate::text::{chars_of, push_decimal, spec_decimal, string_from, text_equals};

verus! {

// ----------------------------------------------------------------------------
// Device I/O control codes
// ----------------------------------------------------------------------------

/// A Windows device I/O control code, as the `CTL_CODE` macro builds it.
pub open spec fn spec_ctl_code(device_type: u32, function: u32, method: u32, access: u32) -> u32 {
    (device_type << 16u32) | (access << 14u32) | (function << 2u32) | method
}

/// Builds a device I/O control code.
pub fn ctl_code(device_type: u32, function: u32, method: u32, access: u32) -> (r: u32)
    ensures
        r == spec_ctl_code(device_type, function, method, access),
{
    (device_type << 16u32) | (access << 14u32) | (function << 2u32) | method
}

/// The driver's device type.
pub const OLS_TYPE: u32 = 40000;

/// The function number of the driver's MSR read request.
pub const OLS_READ_MSR_FUNCTION: u32 = 0x821;

/// The control code of the driver's MSR read request (buffered, any access).
pub fn ioctl_ols_read_msr() -> (r: u32)
    ensures
        r == spec_ctl_code(OLS_TYPE, OLS_READ_MSR_FUNCTION, 0, 0),
        r == 0x9C40_2084,
{
    let r = ctl_code(OLS_TYPE, OLS_READ_MSR_FUNCTION, 0, 0);
    assert(spec_ctl_code(40000u32, 0x821u32, 0u32, 0u32) == 0x9C40_2084u32) by (bit_vector);
    r
}

// ----------------------------------------------------------------------------
// Thermal registers
// ----------------------------------------------------------------------------

/// `IA32_TEMPERATURE_TARGET`: TjMax sits in bits 23:16.
pub const IA32_TEMPERATURE_TARGET: u32 = 0x1A2;

/// `IA32_THERM_STATUS` of the core the thread runs on.
pub const IA32_THERM_STATUS: u32 = 0x19C;

/// `IA32_PACKAGE_THERM_STATUS`.
pub const IA32_PACKAGE_THERM_STATUS: u32 = 0x1B1;

/// Bits 23:16 of a register value.
pub open spec fn tj_max_field(value: u64) -> nat {
    ((value as nat) / 0x1_0000) % 0x100
}

/// TjMax from an `IA32_TEMPERATURE_TARGET` value: bits 23:16, when not 0.
pub fn decode_tj_max(value: u64) -> (r: Option<u8>)
    ensures
        tj_max_field(value) > 0 ==> r == Some(tj_max_field(value) as u8),
        tj_max_field(value) == 0 ==> r is None,
{
    let tj = (((value as u32) >> 16u32) & 0xffu32) as u8;
    assert(((value as u32) >> 16u32) & 0xffu32 == (value / 0x1_0000u64) % 0x100u64) by (bit_vector);
    if tj > 0 {
        Some(tj)
    } else {
        None
    }
}

/// The reading-valid flag of a thermal status value: bit 31.
pub open spec fn reading_valid(value: u64) -> bool {
    ((value as nat) / 0x8000_0000) % 2 == 1
}

/// The distance below TjMax of a thermal status value: bits 22:16.
pub open spec fn delta_to_tj_max(value: u64) -> nat {
    ((value as nat) / 0x1_0000) % 0x80
}

/// The temperature a thermal status value gives against `tj_max`: TjMax
/// minus the distance, not below 0; none without TjMax, without a value or
/// when the reading is not valid.
pub open spec fn spec_thermal_temp(tj_max: Option<u8>, value: Option<u64>) -> Option<u8> {
    match (tj_max, value) {
        (Some(tj), Some(v)) => if reading_valid(v) {
            Some(
                if tj >= delta_to_tj_max(v) {
                    (tj - delta_to_tj_max(v)) as u8
                } else {
                    0u8
                },
            )
        } else {
            None
        },
        _ => None,
    }
}

/// The temperature of a thermal status register value (see [`spec_thermal_temp`]).
pub fn decode_digital_thermal_temp(tj_max: Option<u8>, value: Option<u64>) -> (r: Option<u8>)
    ensures
        r == spec_thermal_temp(tj_max, value),
{
    let tj = match tj_max {
        Some(t) => t,
        None => return None,
    };
    let v = match value {
        Some(v) => v,
        None => return None,
    };
    assert((v >> 31u64) & 1u64 == (v / 0x8000_0000u64) % 2u64) by (bit_vector);
    assert((v >> 16u64) & 0x7fu64 == (v / 0x1_0000u64) % 0x80u64) by (bit_vector);
    if (v >> 31u64) & 1u64 != 1 {
        return None;
    }
    let delta = ((v >> 16u64) & 0x7fu64) as u8;
    Some(if tj >= delta { tj - delta } else { 0 })
}

// ----------------------------------------------------------------------------
// Wide strings for the Win32 API
// ----------------------------------------------------------------------------

/// The UTF-16 code units of one character.
pub open spec fn utf16_units(c: char) -> Seq<u16> {
    let u = c as u32;
    if u < 0x1_0000 {
        seq![u as u16]
    } else {
        let v = (u - 0x1_0000) as nat;
        seq![(0xD800 + v / 0x400) as u16, (0xDC00 + v % 0x400) as u16]
    }
}

/// The UTF-16 encoding of a character sequence.
pub open spec fn utf16_of(s: Seq<char>) -> Seq<u16>
    decreases s.len(),
{
    if s.len() == 0 {
        Seq::empty()
    } else {
        utf16_of(s.drop_last()) + utf16_units(s.last())
    }
}

/// `value` as a NUL-terminated UTF-16 string.
pub fn to_wide_string(value: &str) -> (r: Vec<u16>)
    ensures
        r@ == utf16_of(value@).push(0u16),
{
    let chars = chars_of(value);
    let n = chars.len();
    let mut r: Vec<u16> = Vec::new();
    assert(chars@.take(0) =~= Seq::<char>::empty());
    for i in 0..n
        invariant
            n == chars@.len(),
            chars@ == value@,
            r@ == utf16_of(chars@.take(i as int)),
    {
        assert(chars@.take(i + 1).drop_last() =~= chars@.take(i as int));
        let c = chars[i];
        let u = c as u32;
        proof {
            vstd::utf8::char_is_scalar(c);
        }
        if u < 0x1_0000 {
            r.push(u as u16);
        } else {
            let v = u - 0x1_0000;
            assert(v / 0x400 < 0x400);
            r.push((0xD800 + v / 0x400) as u16);
            r.push((0xDC00 + v % 0x400) as u16);
        }
        assert(r@ =~= utf16_of(chars@.take(i + 1)));
    }
    assert(chars@.take(n as int) =~= value@);
    r.push(0);
    r
}

// ----------------------------------------------------------------------------
// Driver setup
// ----------------------------------------------------------------------------

/// Seconds between attempts to load the driver.
pub const LOAD_RETRY_INTERVAL_SECS: u64 = 15;

/// Whether to try loading the driver now: not while it is loaded; otherwise
/// when no attempt was made yet or the last was at least 15 seconds ago.
pub fn should_try_load(loaded: bool, secs_since_last_attempt: Option<u64>) -> (r: bool)
    ensures
        r == (!loaded && match secs_since_last_attempt {
            Some(s) => s >= LOAD_RETRY_INTERVAL_SECS,
            None => true,
        }),
{
    if loaded {
        return false;
    }
    match secs_since_last_attempt {
        Some(s) => s >= LOAD_RETRY_INTERVAL_SECS,
        None => true,
    }
}

/// The driver binary is written when none is staged or the staged one has
/// another length than the embedded one.
pub fn driver_needs_write(staged_len: Option<u64>, embedded_len: u64) -> (r: bool)
    ensures
        r == (match staged_len {
            Some(n) => n != embedded_len,
            None => true,
        }),
{
    match staged_len {
        Some(n) => n != embedded_len,
        None => true,
    }
}

/// `ERROR_SERVICE_EXISTS`.
pub const ERROR_SERVICE_EXISTS: i32 = 1073;

/// `ERROR_SERVICE_ALREADY_RUNNING`.
pub const ERROR_SERVICE_ALREADY_RUNNING: i32 = 1056;

/// A failed creation of the driver service is answered by opening the
/// existing one exactly when the OS error says it exists.
pub fn create_failure_means_existing(os_error: Option<i32>) -> (r: bool)
    ensures
        r == (os_error == Some(ERROR_SERVICE_EXISTS)),
{
    match os_error {
        Some(code) => code == ERROR_SERVICE_EXISTS,
        None => false,
    }
}

/// A failed start of the driver service is an error unless the service is
/// already running.
pub fn start_failure_is_fatal(os_error: Option<i32>) -> (r: bool)
    ensures
        r == (os_error != Some(ERROR_SERVICE_ALREADY_RUNNING)),
{
    match os_error {
        Some(code) => code != ERROR_SERVICE_ALREADY_RUNNING,
        None => true,
    }
}

/// A line for the driver-initialization log.
pub struct LogLine {
    pub level: &'static str,
    pub message: String,
}

/// Whether the driver is loaded, and the last load error.
pub struct LoadTracker {
    pub loaded: bool,
    pub last_load_error: Option<String>,
}

impl LoadTracker {
    /// A tracker before any load attempt.
    pub fn new() -> (r: Self)
        ensures
            !r.loaded,
            r.last_load_error is None,
    {
        LoadTracker { loaded: false, last_load_error: None }
    }
}

/// The text of an optional error.
pub open spec fn error_view(e: Option<String>) -> Option<Seq<char>> {
    match e {
        Some(s) => Some(s@),
        None => None,
    }
}

/// A load outcome by its texts.
pub open spec fn outcome_view(outcome: Result<(), &str>) -> Result<(), Seq<char>> {
    match outcome {
        Ok(()) => Ok(()),
        Err(s) => Err(s@),
    }
}

/// The error recorded after a load outcome: cleared by a success, the new
/// summary after a failure.
pub open spec fn error_after_load(outcome: Result<(), Seq<char>>) -> Option<Seq<char>> {
    match outcome {
        Ok(()) => None,
        Err(s) => Some(s),
    }
}

/// The (level, message) logged for a load outcome given the recorded
/// error: a success is logged as a recovery when an error was recorded; a
/// failure is logged only when its summary differs from the recorded one.
pub open spec fn load_log(recorded: Option<Seq<char>>, outcome: Result<(), Seq<char>>) -> Option<
    (Seq<char>, Seq<char>),
> {
    match outcome {
        Ok(()) => if recorded is Some {
            Some(("INFO"@, "Recovered after prior WinRing0 initialization failure."@))
        } else {
            Some(("INFO"@, "WinRing0 initialization succeeded."@))
        },
        Err(s) => if recorded == Some(s) {
            None
        } else {
            Some(("ERROR"@, s))
        },
    }
}

/// Records the outcome of a load attempt and says what to log (see
/// [`load_log`]).
pub fn record_load_outcome(tracker: &mut LoadTracker, outcome: Result<(), &str>) -> (r: Option<
    LogLine,
>)
    ensures
        final(tracker).loaded == (outcome is Ok || old(tracker).loaded),
        error_view(final(tracker).last_load_error) == error_after_load(outcome_view(outcome)),
        match load_log(error_view(old(tracker).last_load_error), outcome_view(outcome)) {
            Some((level, message)) => r matches Some(l) && l.level@ == level && l.message@
                == message,
            None => r is None,
        },
{
    match outcome {
        Ok(()) => {
            let message = if tracker.last_load_error.is_some() {
                String::from_str("Recovered after prior WinRing0 initialization failure.")
            } else {
                String::from_str("WinRing0 initialization succeeded.")
            };
            tracker.last_load_error = None;
            tracker.loaded = true;
            Some(LogLine { level: "INFO", message })
        },
        Err(summary) => {
            let same = match &tracker.last_load_error {
                Some(p) => text_equals(p.as_str(), summary),
                None => false,
            };
            tracker.last_load_error = Some(string_from(summary));
            if same {
                None
            } else {
                Some(LogLine { level: "ERROR", message: string_from(summary) })
            }
        },
    }
}

/// A failure is logged once until its summary changes: the same failure
/// right after it is not logged again, and a success after any failure is
/// logged as a recovery.
pub proof fn law_load_failure_logged_once(recorded: Option<Seq<char>>, summary: Seq<char>)
    ensures
        load_log(error_after_load(Err(summary)), Err(summary)) is None,
        load_log(error_after_load(Err(summary)), Ok(())) == Some(
            ("INFO"@, "Recovered after prior WinRing0 initialization failure."@),
        ),
        recorded != Some(summary) ==> load_log(recorded, Err(summary)) == Some(("ERROR"@, summary)),
{
}

/// The detail of a sample taken while the driver is not loaded: the last
/// load error, else a note that the driver is not initialized.
pub fn unavailable_detail(last_load_error: &Option<String>) -> (r: String)
    ensures
        last_load_error matches Some(e) ==> r@ == e@,
        last_load_error is None ==> r@ == "WinRing0 driver is not initialized."@,
{
    match last_load_error {
        Some(e) => string_from(e.as_str()),
        None => String::from_str("WinRing0 driver is not initialized."),
    }
}

// ----------------------------------------------------------------------------
// One sample
// ----------------------------------------------------------------------------

/// The energy consumed between two readings of the wrapping 32-bit RAPL
/// energy counter, in counter units.
pub fn rapl_counter_delta(previous: u32, current: u32) -> (r: u32)
    ensures
        r as int == (current as int - previous as int) % 0x1_0000_0000,
{
    current.wrapping_sub(previous)
}

/// The smallest value of a non-empty sequence.
pub open spec fn seq_min(s: Seq<u8>) -> u8
    recommends
        s.len() > 0,
    decreases s.len(),
{
    if s.len() <= 1 {
        s[0]
    } else {
        let m = seq_min(s.drop_last());
        if s.last() < m {
            s.last()
        } else {
            m
        }
    }
}

/// The largest value of a non-empty sequence.
pub open spec fn seq_max(s: Seq<u8>) -> u8
    recommends
        s.len() > 0,
    decreases s.len(),
{
    if s.len() <= 1 {
        s[0]
    } else {
        let m = seq_max(s.drop_last());
        if s.last() > m {
            s.last()
        } else {
            m
        }
    }
}

/// The lowest of the core temperatures, none when there are none.
pub fn lowest_temp(temps: &[u8]) -> (r: Option<u8>)
    ensures
        temps@.len() == 0 ==> r is None,
        temps@.len() > 0 ==> r == Some(seq_min(temps@)),
        r matches Some(m) ==> (forall|i: int| 0 <= i < temps@.len() ==> m <= temps@[i]) && temps@.contains(m),
{
    let n = temps.len();
    if n == 0 {
        return None;
    }
    let mut m = temps[0];
    let mut i: usize = 1;
    assert(temps@.take(1).len() == 1);
    while i < n
        invariant
            1 <= i <= n,
            n == temps@.len(),
            m == seq_min(temps@.take(i as int)),
            forall|k: int| 0 <= k < i ==> m <= temps@[k],
            exists|k: int| 0 <= k < i && temps@[k] == m,
        decreases n - i,
    {
        assert(temps@.take(i + 1).drop_last() =~= temps@.take(i as int));
        if temps[i] < m {
            m = temps[i];
        }
        i = i + 1;
    }
    assert(temps@.take(n as int) =~= temps@);
    Some(m)
}

/// The highest of the core temperatures, none when there are none.
pub fn highest_temp(temps: &[u8]) -> (r: Option<u8>)
    ensures
        temps@.len() == 0 ==> r is None,
        temps@.len() > 0 ==> r == Some(seq_max(temps@)),
        r matches Some(m) ==> (forall|i: int| 0 <= i < temps@.len() ==> temps@[i] <= m) && temps@.contains(m),
{
    let n = temps.len();
    if n == 0 {
        return None;
    }
    let mut m = temps[0];
    let mut i: usize = 1;
    assert(temps@.take(1).len() == 1);
    while i < n
        invariant
            1 <= i <= n,
            n == temps@.len(),
            m == seq_max(temps@.take(i as int)),
            forall|k: int| 0 <= k < i ==> temps@[k] <= m,
            exists|k: int| 0 <= k < i && temps@[k] == m,
        decreases n - i,
    {
        assert(temps@.take(i + 1).drop_last() =~= temps@.take(i as int));
        if temps[i] > m {
            m = temps[i];
        }
        i = i + 1;
    }
    assert(temps@.take(n as int) =~= temps@);
    Some(m)
}

/// The core temperatures that decoded, in core order.
pub open spec fn decoded_core_temps(tj_max: Option<u8>, raw: Seq<Option<u64>>) -> Seq<u8>
    decreases raw.len(),
{
    if raw.len() == 0 {
        Seq::empty()
    } else {
        let prev = decoded_core_temps(tj_max, raw.drop_last());
        match spec_thermal_temp(tj_max, raw.last()) {
            Some(t) => prev.push(t),
            None => prev,
        }
    }
}

/// The temperatures of one sample taken with the driver loaded.
pub struct LowLevelReadings {
    pub available: bool,
    pub detail: String,
    pub tj_max_c: Option<u8>,
    pub package_temp_c: Option<u8>,
    pub core_temps_c: Vec<u8>,
    pub sampled_processor_count: usize,
    pub lowest_core_temp_c: Option<u8>,
    pub highest_core_temp_c: Option<u8>,
}

/// Summarises one sample from the raw register reads (none where a read
/// failed): TjMax, the package and per-core temperatures, the lowest and
/// highest core, and the detail line. The sample is available when TjMax,
/// the package temperature or the average core temperature is known.
pub fn summarize_sample(
    tj_max_raw: Option<u64>,
    package_raw: Option<u64>,
    core_raw: &[Option<u64>],
    average_core_temp_c: Option<u8>,
    driver_path: &str,
    logical_processor_count: usize,
) -> (r: LowLevelReadings)
    ensures
        r.tj_max_c == (match tj_max_raw {
            Some(v) => if tj_max_field(v) > 0 {
                Some(tj_max_field(v) as u8)
            } else {
                None
            },
            None => None,
        }),
        r.package_temp_c == spec_thermal_temp(r.tj_max_c, package_raw),
        r.core_temps_c@ == decoded_core_temps(r.tj_max_c, core_raw@),
        r.sampled_processor_count == r.core_temps_c@.len(),
        r.core_temps_c@.len() == 0 ==> r.lowest_core_temp_c is None && r.highest_core_temp_c is None,
        r.core_temps_c@.len() > 0 ==> r.lowest_core_temp_c == Some(seq_min(r.core_temps_c@))
            && r.highest_core_temp_c == Some(seq_max(r.core_temps_c@)),
        r.available == (r.tj_max_c is Some || r.package_temp_c is Some || average_core_temp_c is Some),
        r.detail@ == "WinRing0 kernel driver active from "@ + driver_path@ + ". Sampled "@
            + spec_decimal(r.sampled_processor_count as nat) + " physical cores across "@
            + spec_decimal(logical_processor_count as nat) + " logical processors."@,
{
    let tj_max_c = match tj_max_raw {
        Some(v) => decode_tj_max(v),
        None => None,
    };
    let package_temp_c = decode_digital_thermal_temp(tj_max_c, package_raw);
    let mut core_temps_c: Vec<u8> = Vec::new();
    let n = core_raw.len();
    assert(core_raw@.take(0) =~= Seq::<Option<u64>>::empty());
    for i in 0..n
        invariant
            n == core_raw@.len(),
            core_temps_c@ == decoded_core_temps(tj_max_c, core_raw@.take(i as int)),
    {
        assert(core_raw@.take(i + 1).drop_last() =~= core_raw@.take(i as int));
        if let Some(t) = decode_digital_thermal_temp(tj_max_c, core_raw[i]) {
            core_temps_c.push(t);
        }
    }
    assert(core_raw@.take(n as int) =~= core_raw@);
    let sampled_processor_count = core_temps_c.len();
    let lowest_core_temp_c = lowest_temp(core_temps_c.as_slice());
    let highest_core_temp_c = highest_temp(core_temps_c.as_slice());
    let mut detail = String::new();
    detail.append("WinRing0 kernel driver active from ");
    detail.append(driver_path);
    detail.append(". Sampled ");
    push_decimal(&mut detail, sampled_processor_count as u64);
    detail.append(" physical cores across ");
    push_decimal(&mut detail, logical_processor_count as u64);
    detail.append(" logical processors.");
    LowLevelReadings {
        available: tj_max_c.is_some() || package_temp_c.is_some() || average_core_temp_c.is_some(),
        detail,
        tj_max_c,
        package_temp_c,
        core_temps_c,
        sampled_processor_count,
        lowest_core_temp_c,
        highest_core_temp_c,
    }
}

} // verus!
