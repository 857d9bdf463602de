//! Power profiles: the processor-state policy, the firmware platform profile
//! and the messages that record what each step did.
use vstd::prelude::*;

use super::models::{
    AppliedPowerProfileSnapshot, ApplyPowerProfileRequest, CustomPowerBaseId, PowerProfileId,
    ProcessorStateReadback, ProcessorStateSettings,
};
use crate::text::{
    push_debug_option, push_decimal, push_hex_padded, push_signed_decimal, spec_debug_option,
    spec_decimal, spec_hex_padded, spec_signed_decimal, string_from,
};

verus! {

// ----------------------------------------------------------------------------
// Firmware platform-profile values
// ----------------------------------------------------------------------------

/// Platform-profile value of the quiet mode (bit 0 of the SupportedProfiles
/// mask).
pub const GAMING_PROFILE_QUIET: u64 = 0;

/// Platform-profile value of the balanced mode (bit 1).
pub const GAMING_PROFILE_BALANCED: u64 = 1;

/// Platform-profile value of the performance mode (bit 4).
pub const GAMING_PROFILE_PERFORMANCE: u64 = 4;

/// Platform-profile value of the turbo mode (bit 5).
pub const GAMING_PROFILE_TURBO: u64 = 5;

// ----------------------------------------------------------------------------
// Processor state
// ----------------------------------------------------------------------------

/// `v` clamped into 5..=100.
pub open spec fn clamp_state(v: u8) -> u8 {
    if v < 5 {
        5
    } else if v > 100 {
        100
    } else {
        v
    }
}

/// The error for a minimum above the maximum (after clamping).
pub open spec fn processor_order_error(min: u8, max: u8) -> Seq<char> {
    "Processor minimum "@ + spec_decimal(min as nat) + " cannot exceed maximum "@ + spec_decimal(
        max as nat,
    ) + "."@
}

/// Clamps both processor states into 5..=100 and refuses a minimum above
/// the maximum.
pub fn sanitize_processor_state(processor_state: ProcessorStateSettings) -> (r: Result<
    ProcessorStateSettings,
    String,
>)
    ensures
        clamp_state(processor_state.min_percent) <= clamp_state(processor_state.max_percent) ==> r
            == Ok::<ProcessorStateSettings, String>(
            ProcessorStateSettings {
                min_percent: clamp_state(processor_state.min_percent),
                max_percent: clamp_state(processor_state.max_percent),
            },
        ),
        clamp_state(processor_state.min_percent) > clamp_state(processor_state.max_percent) ==> (
        r matches Err(e) && e@ == processor_order_error(
            clamp_state(processor_state.min_percent),
            clamp_state(processor_state.max_percent),
        )),
{
    let min_percent = clamp_state_exec(processor_state.min_percent);
    let max_percent = clamp_state_exec(processor_state.max_percent);
    if min_percent > max_percent {
        let mut e = String::new();
        e.append("Processor minimum ");
        push_decimal(&mut e, min_percent as u64);
        e.append(" cannot exceed maximum ");
        push_decimal(&mut e, max_percent as u64);
        e.append(".");
        assert(e@ =~= processor_order_error(min_percent, max_percent));
        return Err(e);
    }
    Ok(ProcessorStateSettings { min_percent, max_percent })
}

/// A processor state that sanitizing accepted is accepted again unchanged.
pub proof fn law_sanitized_processor_state_is_fixed_point(p: ProcessorStateSettings)
    requires
        clamp_state(p.min_percent) <= clamp_state(p.max_percent),
    ensures
        ({
            let q = ProcessorStateSettings {
                min_percent: clamp_state(p.min_percent),
                max_percent: clamp_state(p.max_percent),
            };
            &&& clamp_state(q.min_percent) == q.min_percent
            &&& clamp_state(q.max_percent) == q.max_percent
            &&& clamp_state(q.min_percent) <= clamp_state(q.max_percent)
        }),
{
}

/// No drift is reported when both readbacks equal the requested state.
pub proof fn law_matching_readback_has_no_drift(requested: ProcessorStateSettings)
    ensures
        !drifted((ProcessorStateReadback { ac: requested, dc: requested }), requested),
{
}

/// Drift is reported exactly when Windows read back, on AC or on DC, a
/// processor policy other than the one requested.
pub proof fn law_drift_iff_a_readback_differs(
    readback: ProcessorStateReadback,
    requested: ProcessorStateSettings,
)
    ensures
        (readback.ac != requested || readback.dc != requested) ==> drifted(readback, requested),
        (readback.ac == requested && readback.dc == requested) ==> !drifted(readback, requested),
{
}

fn clamp_state_exec(v: u8) -> (r: u8)
    ensures
        r == clamp_state(v),
{
    if v < 5 {
        5
    } else if v > 100 {
        100
    } else {
        v
    }
}

/// Windows reported a processor policy other than the one requested.
pub open spec fn drifted(readback: ProcessorStateReadback, requested: ProcessorStateSettings) -> bool {
    readback.ac.min_percent != requested.min_percent || readback.ac.max_percent
        != requested.max_percent || readback.dc.min_percent != requested.min_percent
        || readback.dc.max_percent != requested.max_percent
}

/// Whether the AC or DC readback differs from the requested processor state.
pub fn processor_state_drift(
    readback: &ProcessorStateReadback,
    requested: &ProcessorStateSettings,
) -> (r: bool)
    ensures
        r == drifted(*readback, *requested),
        r == (readback.ac != *requested || readback.dc != *requested),
{
    readback.ac.min_percent != requested.min_percent || readback.ac.max_percent
        != requested.max_percent || readback.dc.min_percent != requested.min_percent
        || readback.dc.max_percent != requested.max_percent
}

// ----------------------------------------------------------------------------
// Profile names
// ----------------------------------------------------------------------------

/// The label of a power profile.
pub open spec fn power_profile_label(id: PowerProfileId) -> Seq<char> {
    match id {
        PowerProfileId::BatteryGuard => "quiet"@,
        PowerProfileId::Balanced => "balanced"@,
        PowerProfileId::Performance => "performance"@,
        PowerProfileId::Turbo => "turbo"@,
        PowerProfileId::Custom => "custom"@,
    }
}

/// The label of a power profile: battery guard is `quiet`; the others carry
/// their own names.
pub fn profile_label(profile_id: &PowerProfileId) -> (r: &'static str)
    ensures
        r@ == power_profile_label(*profile_id),
{
    match profile_id {
        PowerProfileId::BatteryGuard => "quiet",
        PowerProfileId::Balanced => "balanced",
        PowerProfileId::Performance => "performance",
        PowerProfileId::Turbo => "turbo",
        PowerProfileId::Custom => "custom",
    }
}

/// Platform-profile value and label of a custom base mode.
pub open spec fn custom_base_value(base: CustomPowerBaseId) -> (u64, Seq<char>) {
    match base {
        CustomPowerBaseId::Balanced => (GAMING_PROFILE_BALANCED, "balanced"@),
        CustomPowerBaseId::Performance => (GAMING_PROFILE_PERFORMANCE, "performance"@),
        CustomPowerBaseId::Turbo => (GAMING_PROFILE_TURBO, "turbo"@),
    }
}

/// The platform-profile value and label of a custom base mode.
pub fn custom_base_profile_details(custom_base: &CustomPowerBaseId) -> (r: (u64, &'static str))
    ensures
        r.0 == custom_base_value(*custom_base).0,
        r.1@ == custom_base_value(*custom_base).1,
{
    match custom_base {
        CustomPowerBaseId::Balanced => (GAMING_PROFILE_BALANCED, "balanced"),
        CustomPowerBaseId::Performance => (GAMING_PROFILE_PERFORMANCE, "performance"),
        CustomPowerBaseId::Turbo => (GAMING_PROFILE_TURBO, "turbo"),
    }
}

// ----------------------------------------------------------------------------
// Firmware call outcomes
// ----------------------------------------------------------------------------

/// What an AcerGamingFunction method call returned: the input it was given
/// and its `gmOutput`, when there was one.
#[derive(Clone, Copy, Debug, PartialEq, Eq, Structural)]
pub struct GamingCallResult {
    pub input: u64,
    pub output: Option<u64>,
}

/// A `gmOutput` of none, 0 or 1 counts as accepted.
pub open spec fn output_accepted(output: Option<u64>) -> bool {
    match output {
        None => true,
        Some(v) => v == 0 || v == 1,
    }
}

/// Whether a SetGamingMiscSetting `gmOutput` means the write was accepted.
pub fn misc_setting_output_accepted(output: Option<u64>) -> (r: bool)
    ensures
        r == output_accepted(output),
{
    match output {
        None => true,
        Some(v) => v == 0 || v == 1,
    }
}

/// Whether a SetGamingProfile `gmOutput` means the write was accepted.
pub fn legacy_gaming_profile_output_accepted(output: Option<u64>) -> (r: bool)
    ensures
        r == output_accepted(output),
{
    match output {
        None => true,
        Some(v) => v == 0 || v == 1,
    }
}

/// The low byte of a misc-setting `gmOutput`.
pub fn misc_value_byte(output: Option<u64>) -> (r: Option<u8>)
    ensures
        r == (match output {
            Some(v) => Some((v % 256) as u8),
            None => None,
        }),
{
    match output {
        Some(v) => Some((v % 256) as u8),
        None => None,
    }
}

/// Bit `profile` of `mask` is set (profiles 8 and above are never set).
pub open spec fn mask_has_profile(mask: u8, profile: u8) -> bool {
    profile < 8 && (mask as nat / pow2_nat(profile as nat)) % 2 == 1
}

/// `2` raised to `k`.
pub open spec fn pow2_nat(k: nat) -> nat
    decreases k,
{
    if k == 0 {
        1
    } else {
        2 * pow2_nat((k - 1) as nat)
    }
}

/// Whether the SupportedProfiles bitmask advertises `profile`.
pub fn supported_profile_mask_contains(mask: u8, profile: u8) -> (r: bool)
    ensures
        r == mask_has_profile(mask, profile),
{
    if profile >= 8 {
        return false;
    }
    let mut m: u8 = mask;
    let mut k: u8 = 0;
    assert(pow2_nat(0) == 1);
    assert(mask as nat / 1 == mask as nat);
    while k < profile
        invariant
            k <= profile < 8,
            m as nat == mask as nat / pow2_nat(k as nat),
        decreases profile - k,
    {
        proof {
            assert(pow2_nat((k + 1) as nat) == 2 * pow2_nat(k as nat));
            lemma_pow2_positive(k as nat);
            vstd::arithmetic::div_mod::lemma_div_denominator(
                mask as int,
                pow2_nat(k as nat) as int,
                2,
            );
            assert(pow2_nat(k as nat) * 2 == 2 * pow2_nat(k as nat));
        }
        m = m / 2;
        k = k + 1;
    }
    m % 2 == 1
}

proof fn lemma_pow2_positive(k: nat)
    ensures
        pow2_nat(k) > 0,
    decreases k,
{
    if k > 0 {
        lemma_pow2_positive((k - 1) as nat);
    }
}

/// The names of the profiles advertised by a SupportedProfiles bitmask, by
/// bit: quiet (0), balanced (1), performance (4), turbo (5), eco (6).
pub open spec fn profile_names_of(mask: u8) -> Seq<Seq<char>> {
    let all = seq![
        (0u8, "quiet"@),
        (1u8, "balanced"@),
        (4u8, "performance"@),
        (5u8, "turbo"@),
        (6u8, "eco"@),
    ];
    all.filter(|e: (u8, Seq<char>)| mask_has_profile(mask, e.0)).map_values(
        |e: (u8, Seq<char>)| e.1,
    )
}

/// The advertised profile names, or `none` when no known bit is set.
pub open spec fn supported_names(mask: u8) -> Seq<Seq<char>> {
    if profile_names_of(mask).len() == 0 {
        seq!["none"@]
    } else {
        profile_names_of(mask)
    }
}

/// The names of the profiles a SupportedProfiles bitmask advertises.
pub fn supported_profile_names(mask: u8) -> (r: Vec<&'static str>)
    ensures
        r@.map_values(|s: &'static str| s@) == supported_names(mask),
{
    let mut names: Vec<&'static str> = Vec::new();
    let ghost all = seq![
        (0u8, "quiet"@),
        (1u8, "balanced"@),
        (4u8, "performance"@),
        (5u8, "turbo"@),
        (6u8, "eco"@),
    ];
    let ghost pred = |e: (u8, Seq<char>)| mask_has_profile(mask, e.0);
    let ghost proj = |e: (u8, Seq<char>)| e.1;
    proof {
        reveal_with_fuel(Seq::filter, 6);
    }
    if supported_profile_mask_contains(mask, 0) {
        names.push("quiet");
    }
    assert(names@.map_values(|s: &'static str| s@) =~= all.take(1).filter(pred).map_values(proj));
    if supported_profile_mask_contains(mask, 1) {
        names.push("balanced");
    }
    assert(all.take(2).drop_last() =~= all.take(1));
    assert(names@.map_values(|s: &'static str| s@) =~= all.take(2).filter(pred).map_values(proj));
    if supported_profile_mask_contains(mask, 4) {
        names.push("performance");
    }
    assert(all.take(3).drop_last() =~= all.take(2));
    assert(names@.map_values(|s: &'static str| s@) =~= all.take(3).filter(pred).map_values(proj));
    if supported_profile_mask_contains(mask, 5) {
        names.push("turbo");
    }
    assert(all.take(4).drop_last() =~= all.take(3));
    assert(names@.map_values(|s: &'static str| s@) =~= all.take(4).filter(pred).map_values(proj));
    if supported_profile_mask_contains(mask, 6) {
        names.push("eco");
    }
    assert(all.take(5).drop_last() =~= all.take(4));
    assert(all.take(5) =~= all);
    assert(names@.map_values(|s: &'static str| s@) =~= profile_names_of(mask));
    if names.len() == 0 {
        names.push("none");
        assert(names@.map_values(|s: &'static str| s@) =~= seq!["none"@]);
    }
    names
}

// ----------------------------------------------------------------------------
// Messages about firmware reads and writes
// ----------------------------------------------------------------------------

/// Describes a platform-profile readback under `label`.
pub open spec fn readback_description(label: Seq<char>, result: Result<Option<u8>, String>) -> Seq<
    char,
> {
    match result {
        Ok(Some(v)) => label + " read as 0x"@ + spec_hex_padded(v as nat, 2) + "."@,
        Ok(None) => label + " returned no gmOutput byte."@,
        Err(e) => label + " was unavailable: "@ + e@ + "."@,
    }
}

/// Whether a platform-profile readback read exactly `expected`.
pub open spec fn readback_matches(result: Result<Option<u8>, String>, expected: u8) -> bool {
    result matches Ok(Some(v)) && v == expected
}

/// Whether the platform-profile readback confirms the value `expected`.
pub fn profile_readback_matches(result: &Result<Option<u8>, String>, expected: u8) -> (r: bool)
    ensures
        r == readback_matches(*result, expected),
{
    match result {
        Ok(Some(v)) => *v == expected,
        _ => false,
    }
}

fn push_readback_description(s: &mut String, label: &str, result: &Result<Option<u8>, String>)
    ensures
        final(s)@ == old(s)@ + readback_description(label@, *result),
{
    let ghost start = s@;
    s.append(label);
    match result {
        Ok(Some(v)) => {
            s.append(" read as 0x");
            push_hex_padded(s, *v as u64, 2);
            s.append(".");
        },
        Ok(None) => {
            s.append(" returned no gmOutput byte.");
        },
        Err(e) => {
            s.append(" was unavailable: ");
            s.append(e.as_str());
            s.append(".");
        },
    }
    assert(s@ =~= start + readback_description(label@, *result));
}

/// Describes a platform-profile readback under `label`.
pub fn describe_profile_readback(label: &str, result: &Result<Option<u8>, String>) -> (r: String)
    ensures
        r@ == readback_description(label@, *result),
{
    let mut s = String::new();
    push_readback_description(&mut s, label, result);
    assert(s@ =~= readback_description(label@, *result));
    s
}

/// Names joined with `, `.
pub open spec fn join_names(names: Seq<Seq<char>>) -> Seq<char>
    decreases names.len(),
{
    if names.len() == 0 {
        Seq::empty()
    } else if names.len() == 1 {
        names[0]
    } else {
        join_names(names.drop_last()) + ", "@ + names.last()
    }
}

fn push_joined_names(s: &mut String, names: &Vec<&'static str>)
    ensures
        final(s)@ == old(s)@ + join_names(names@.map_values(|n: &'static str| n@)),
{
    let ghost start = s@;
    let ghost all = names@.map_values(|n: &'static str| n@);
    let n = names.len();
    for i in 0..n
        invariant
            n == names@.len(),
            all == names@.map_values(|n: &'static str| n@),
            s@ == start + join_names(all.take(i as int)),
    {
        let ghost before = s@;
        if i > 0 {
            s.append(", ");
        }
        s.append(names[i]);
        proof {
            assert(all.take(i + 1).drop_last() =~= all.take(i as int));
            assert(all.take(i + 1).last() == names@[i as int]@);
            if i == 0 {
                assert(join_names(all.take(1)) == all.take(1)[0]);
                assert(join_names(all.take(0)) =~= Seq::<char>::empty());
            }
        }
        assert(s@ =~= start + join_names(all.take(i + 1)));
    }
    assert(all.take(n as int) =~= all);
}

/// Describes the SupportedProfiles probe and whether it advertises the
/// target value.
pub open spec fn supported_description(result: Result<Option<u8>, String>, target: u8) -> Seq<char> {
    match result {
        Ok(Some(mask)) => "SupportedProfiles raw bitmask 0x"@ + spec_hex_padded(mask as nat, 2)
            + " advertises ["@ + join_names(supported_names(mask)) + "]; target 0x"@
            + spec_hex_padded(target as nat, 2) + " is "@ + (if mask_has_profile(mask, target) {
            "advertised"@
        } else {
            "not advertised"@
        })
            + ". AeroForge still records write/readback behavior because some Windows providers under-report this bitmask."@,
        Ok(None) => "SupportedProfiles probe returned no gmOutput byte."@,
        Err(e) => "SupportedProfiles probe unavailable: "@ + e@ + "."@,
    }
}

/// Describes the SupportedProfiles probe result for the target value.
pub fn describe_supported_profiles(result: &Result<Option<u8>, String>, target_profile_value: u8) -> (r:
    String)
    ensures
        r@ == supported_description(*result, target_profile_value),
{
    let mut s = String::new();
    match result {
        Ok(Some(mask)) => {
            let names = supported_profile_names(*mask);
            s.append("SupportedProfiles raw bitmask 0x");
            push_hex_padded(&mut s, *mask as u64, 2);
            s.append(" advertises [");
            push_joined_names(&mut s, &names);
            s.append("]; target 0x");
            push_hex_padded(&mut s, target_profile_value as u64, 2);
            s.append(" is ");
            if supported_profile_mask_contains(*mask, target_profile_value) {
                s.append("advertised");
            } else {
                s.append("not advertised");
            }
            s.append(
                ". AeroForge still records write/readback behavior because some Windows providers under-report this bitmask.",
            );
        },
        Ok(None) => {
            s.append("SupportedProfiles probe returned no gmOutput byte.");
        },
        Err(e) => {
            s.append("SupportedProfiles probe unavailable: ");
            s.append(e.as_str());
            s.append(".");
        },
    }
    assert(s@ =~= supported_description(*result, target_profile_value));
    s
}

/// Describes the platform profile read before the write.
pub open spec fn before_description(result: Result<Option<u8>, String>) -> Seq<char> {
    match result {
        Ok(Some(v)) => "Current platform profile before apply read as 0x"@ + spec_hex_padded(
            v as nat,
            2,
        ) + "."@,
        Ok(None) => "Current platform profile before apply returned no gmOutput byte."@,
        Err(e) => "Current platform profile before apply was unavailable: "@ + e@ + "."@,
    }
}

fn push_before_description(s: &mut String, result: &Result<Option<u8>, String>)
    ensures
        final(s)@ == old(s)@ + before_description(*result),
{
    let ghost start = s@;
    match result {
        Ok(Some(v)) => {
            s.append("Current platform profile before apply read as 0x");
            push_hex_padded(s, *v as u64, 2);
            s.append(".");
        },
        Ok(None) => {
            s.append("Current platform profile before apply returned no gmOutput byte.");
        },
        Err(e) => {
            s.append("Current platform profile before apply was unavailable: ");
            s.append(e.as_str());
            s.append(".");
        },
    }
    assert(s@ =~= start + before_description(*result));
}

/// What the NVIDIA Whisper call reported.
#[derive(Clone, Copy, Debug, PartialEq, Eq, Structural)]
pub struct NvApiWhisperResult {
    pub init_candidate_id: u32,
    pub init_status: i32,
    pub hidden_id: u32,
    pub status: i32,
    pub enabled: bool,
}

/// Describes a Whisper call after `prefix`.
pub open spec fn whisper_description(prefix: Seq<char>, w: NvApiWhisperResult) -> Seq<char> {
    prefix + " with NVAPI init 0x"@ + spec_hex_padded(w.init_candidate_id as nat, 8) + " status "@
        + spec_signed_decimal(w.init_status as int) + " and hidden setter 0x"@ + spec_hex_padded(
        w.hidden_id as nat,
        8,
    ) + " status "@ + spec_signed_decimal(w.status as int) + " (enabled="@ + (if w.enabled {
        "true"@
    } else {
        "false"@
    }) + ")."@
}

/// Describes a Whisper call after `prefix`.
pub fn format_whisper_detail(prefix: &str, result: &NvApiWhisperResult) -> (r: String)
    ensures
        r@ == whisper_description(prefix@, *result),
{
    let mut s = String::new();
    s.append(prefix);
    s.append(" with NVAPI init 0x");
    push_hex_padded(&mut s, result.init_candidate_id as u64, 8);
    s.append(" status ");
    push_signed_decimal(&mut s, result.init_status as i64);
    s.append(" and hidden setter 0x");
    push_hex_padded(&mut s, result.hidden_id as u64, 8);
    s.append(" status ");
    push_signed_decimal(&mut s, result.status as i64);
    s.append(" (enabled=");
    if result.enabled {
        s.append("true");
    } else {
        s.append("false");
    }
    s.append(").");
    assert(s@ =~= whisper_description(prefix@, *result));
    s
}

// ----------------------------------------------------------------------------
// Writing the firmware platform profile
// ----------------------------------------------------------------------------

/// The label of a custom base mode, defaulting to `balanced`, the base a
/// custom profile takes when none is given.
pub open spec fn base_label_or_default(label: Option<&'static str>) -> Seq<char> {
    match label {
        Some(l) => l@,
        None => "balanced"@,
    }
}

/// The readback label after a SetGamingProfile write.
pub open spec fn after_legacy_label() -> Seq<char> {
    "Current platform profile after legacy profile write"@
}

/// The readback label after a SetGamingMiscSetting write.
pub open spec fn after_misc_label() -> Seq<char> {
    "Current platform profile after misc-setting write"@
}

/// What the legacy SetGamingProfile path records: the write's outcome, its
/// `gmOutput`, and the platform-profile readback that followed it.
pub open spec fn legacy_detail(
    profile_label: Seq<char>,
    target: u8,
    balanced_base_for_custom: bool,
    custom_base_label: Option<&'static str>,
    write: Result<GamingCallResult, String>,
    after: Result<Option<u8>, String>,
) -> Seq<char> {
    match write {
        Ok(res) => {
            let confirmed = readback_matches(after, target);
            let desc = readback_description(after_legacy_label(), after);
            let call = "SetGamingProfile("@ + spec_decimal(res.input as nat) + ") and gmOutput "@
                + spec_debug_option(res.output);
            if confirmed || output_accepted(res.output) {
                let verb = if confirmed {
                    "Confirmed"@
                } else {
                    "Accepted but did not confirm"@
                };
                if balanced_base_for_custom {
                    verb + " AcerGamingFunction "@ + base_label_or_default(custom_base_label)
                        + " base mode with "@ + call
                        + " before layering the custom processor policy. "@ + desc
                } else {
                    verb + " AcerGamingFunction "@ + profile_label + " mode with "@ + call + ". "@
                        + desc
                }
            } else if balanced_base_for_custom {
                "AcerGamingFunction rejected the "@ + base_label_or_default(custom_base_label)
                    + " base mode for Custom with "@ + call + ". "@ + desc
                    + " Continuing with Windows processor policy only."@
            } else {
                "AcerGamingFunction rejected "@ + profile_label + " mode with "@ + call + ". "@ + desc
                    + " Continuing with Windows processor policy only."@
            }
        },
        Err(e) => "AcerGamingFunction "@ + profile_label + " mode write was unavailable: "@ + e@
            + ". Continuing with Windows processor policy only."@,
    }
}

fn push_call_description(s: &mut String, res: &GamingCallResult)
    ensures
        final(s)@ == old(s)@ + ("SetGamingProfile("@ + spec_decimal(res.input as nat)
            + ") and gmOutput "@ + spec_debug_option(res.output)),
{
    let ghost start = s@;
    s.append("SetGamingProfile(");
    push_decimal(s, res.input);
    s.append(") and gmOutput ");
    push_debug_option(s, res.output);
    assert(s@ =~= start + ("SetGamingProfile("@ + spec_decimal(res.input as nat)
        + ") and gmOutput "@ + spec_debug_option(res.output)));
}

/// Records what the legacy SetGamingProfile path did (see [`legacy_detail`]).
pub fn legacy_gaming_profile_detail(
    profile_label: &str,
    target_profile_value: u8,
    balanced_base_for_custom: bool,
    custom_base_label: Option<&'static str>,
    write: &Result<GamingCallResult, String>,
    after_legacy: &Result<Option<u8>, String>,
) -> (r: String)
    ensures
        r@ == legacy_detail(
            profile_label@,
            target_profile_value,
            balanced_base_for_custom,
            custom_base_label,
            *write,
            *after_legacy,
        ),
{
    let mut s = String::new();
    match write {
        Ok(result) => {
            let confirmed = profile_readback_matches(after_legacy, target_profile_value);
            let base_label = match custom_base_label {
                Some(l) => l,
                None => "balanced",
            };
            if confirmed || legacy_gaming_profile_output_accepted(result.output) {
                if confirmed {
                    s.append("Confirmed");
                } else {
                    s.append("Accepted but did not confirm");
                }
                s.append(" AcerGamingFunction ");
                if balanced_base_for_custom {
                    s.append(base_label);
                    s.append(" base mode with ");
                    push_call_description(&mut s, result);
                    s.append(" before layering the custom processor policy. ");
                } else {
                    s.append(profile_label);
                    s.append(" mode with ");
                    push_call_description(&mut s, result);
                    s.append(". ");
                }
                push_readback_description(
                    &mut s,
                    "Current platform profile after legacy profile write",
                    after_legacy,
                );
            } else {
                if balanced_base_for_custom {
                    s.append("AcerGamingFunction rejected the ");
                    s.append(base_label);
                    s.append(" base mode for Custom with ");
                } else {
                    s.append("AcerGamingFunction rejected ");
                    s.append(profile_label);
                    s.append(" mode with ");
                }
                push_call_description(&mut s, result);
                s.append(". ");
                push_readback_description(
                    &mut s,
                    "Current platform profile after legacy profile write",
                    after_legacy,
                );
                s.append(" Continuing with Windows processor policy only.");
            }
        },
        Err(e) => {
            s.append("AcerGamingFunction ");
            s.append(profile_label);
            s.append(" mode write was unavailable: ");
            s.append(e.as_str());
            s.append(". Continuing with Windows processor policy only.");
        },
    }
    assert(s@ =~= legacy_detail(
        profile_label@,
        target_profile_value,
        balanced_base_for_custom,
        custom_base_label,
        *write,
        *after_legacy,
    ));
    s
}

/// The platform-profile byte for a firmware input (0 when it does not fit).
pub open spec fn profile_value_of(input: u64) -> u8 {
    if input <= 255 {
        input as u8
    } else {
        0
    }
}

/// The platform-profile byte written for a firmware input (`u8::try_from`,
/// or 0 when the input does not fit).
pub fn platform_profile_value(input: u64) -> (r: u8)
    ensures
        r == profile_value_of(input),
{
    if input <= 255 {
        input as u8
    } else {
        0
    }
}

/// The SetGamingMiscSetting write was accepted and the readback confirmed
/// the target; otherwise the legacy SetGamingProfile path is tried.
pub open spec fn misc_write_confirmed(
    misc: Result<GamingCallResult, String>,
    after_misc: Result<Option<u8>, String>,
    value: u8,
) -> bool {
    misc matches Ok(r) && output_accepted(r.output) && readback_matches(after_misc, value)
}

/// The platform-profile write counts as confirmed only when the write
/// returned an accepted `gmOutput` (none, 0 or 1) and the profile read back
/// afterwards is the target itself; whenever the readback is anything
/// else, or the write failed, the legacy write is needed.
pub proof fn law_misc_write_confirmed_only_by_matching_readback(
    misc: Result<GamingCallResult, String>,
    after_misc: Result<Option<u8>, String>,
    value: u8,
)
    ensures
        misc_write_confirmed(misc, after_misc, value) ==> after_misc == Ok::<Option<u8>, String>(
            Some(value),
        ),
        misc_write_confirmed(misc, after_misc, value) ==> (misc matches Ok(c) && (c.output is None
            || c.output == Some(0u64) || c.output == Some(1u64))),
        (misc matches Ok(c) && (c.output is None || c.output == Some(0u64) || c.output == Some(1u64)))
            && after_misc == Ok::<Option<u8>, String>(Some(value)) ==> misc_write_confirmed(
            misc,
            after_misc,
            value,
        ),
{
}

/// Whether the legacy SetGamingProfile write has to follow the misc-setting
/// write.
pub fn platform_profile_needs_legacy(
    misc: &Result<GamingCallResult, String>,
    after_misc: &Result<Option<u8>, String>,
    value: u8,
) -> (r: bool)
    ensures
        r == !misc_write_confirmed(*misc, *after_misc, value),
        *after_misc != Ok::<Option<u8>, String>(Some(value)) ==> r,
        *misc is Err ==> r,
{
    match misc {
        Ok(result) => !(misc_setting_output_accepted(result.output) && profile_readback_matches(
            after_misc,
            value,
        )),
        Err(_) => true,
    }
}

/// What the platform-profile write records: the SupportedProfiles probe,
/// the profile read before, the misc-setting write, the readback after it,
/// and, when the write was not confirmed, the legacy path's detail.
pub open spec fn platform_detail(
    profile_label: Seq<char>,
    value: u8,
    balanced_base_for_custom: bool,
    custom_base_label: Option<&'static str>,
    supported: Result<Option<u8>, String>,
    before: Result<Option<u8>, String>,
    misc: Result<GamingCallResult, String>,
    after_misc: Result<Option<u8>, String>,
    legacy: Seq<char>,
) -> Seq<char> {
    let context = supported_description(supported, value) + " "@ + before_description(before)
        + " "@ + readback_description(after_misc_label(), after_misc);
    let setting = "SetGamingMiscSetting(0x0B, 0x"@ + spec_hex_padded(value as nat, 2) + ")"@;
    match misc {
        Ok(r) => if output_accepted(r.output) {
            if readback_matches(after_misc, value) {
                let mode = if balanced_base_for_custom {
                    base_label_or_default(custom_base_label)
                } else {
                    profile_label
                };
                "Confirmed AcerGamingFunction "@ + mode + " platform profile with "@ + setting
                    + " gmOutput "@ + spec_debug_option(r.output) + ". "@ + context
            } else {
                "AcerGamingFunction accepted "@ + setting + " with gmOutput "@ + spec_debug_option(
                    r.output,
                ) + ", but the follow-up platform-profile readback did not confirm the target. "@
                    + context + " "@ + legacy
            }
        } else {
            "AcerGamingFunction rejected platform profile "@ + setting + " with gmOutput "@
                + spec_debug_option(r.output) + ". "@ + context + " "@ + legacy
        },
        Err(e) => "AcerGamingFunction platform profile misc-setting write unavailable: "@ + e@
            + ". "@ + context + " "@ + legacy,
    }
}

/// Records what the platform-profile write did (see [`platform_detail`]);
/// `legacy` is the legacy path's detail, used only when
/// [`platform_profile_needs_legacy`] held.
pub fn apply_acer_platform_profile_or_fallback(
    profile_label: &str,
    value: u8,
    balanced_base_for_custom: bool,
    custom_base_label: Option<&'static str>,
    supported: &Result<Option<u8>, String>,
    before: &Result<Option<u8>, String>,
    misc: &Result<GamingCallResult, String>,
    after_misc: &Result<Option<u8>, String>,
    legacy: &str,
) -> (r: String)
    ensures
        r@ == platform_detail(
            profile_label@,
            value,
            balanced_base_for_custom,
            custom_base_label,
            *supported,
            *before,
            *misc,
            *after_misc,
            legacy@,
        ),
{
    let mut setting = String::new();
    setting.append("SetGamingMiscSetting(0x0B, 0x");
    push_hex_padded(&mut setting, value as u64, 2);
    setting.append(")");
    let mut context = describe_supported_profiles(supported, value);
    context.append(" ");
    push_before_description(&mut context, before);
    context.append(" ");
    push_readback_description(
        &mut context,
        "Current platform profile after misc-setting write",
        after_misc,
    );
    let mut s = String::new();
    match misc {
        Ok(result) => {
            if misc_setting_output_accepted(result.output) {
                if profile_readback_matches(after_misc, value) {
                    s.append("Confirmed AcerGamingFunction ");
                    if balanced_base_for_custom {
                        match custom_base_label {
                            Some(l) => s.append(l),
                            None => s.append("balanced"),
                        }
                    } else {
                        s.append(profile_label);
                    }
                    s.append(" platform profile with ");
                    s.append(setting.as_str());
                    s.append(" gmOutput ");
                    push_debug_option(&mut s, result.output);
                    s.append(". ");
                    s.append(context.as_str());
                } else {
                    s.append("AcerGamingFunction accepted ");
                    s.append(setting.as_str());
                    s.append(" with gmOutput ");
                    push_debug_option(&mut s, result.output);
                    s.append(
                        ", but the follow-up platform-profile readback did not confirm the target. ",
                    );
                    s.append(context.as_str());
                    s.append(" ");
                    s.append(legacy);
                }
            } else {
                s.append("AcerGamingFunction rejected platform profile ");
                s.append(setting.as_str());
                s.append(" with gmOutput ");
                push_debug_option(&mut s, result.output);
                s.append(". ");
                s.append(context.as_str());
                s.append(" ");
                s.append(legacy);
            }
        },
        Err(e) => {
            s.append("AcerGamingFunction platform profile misc-setting write unavailable: ");
            s.append(e.as_str());
            s.append(". ");
            s.append(context.as_str());
            s.append(" ");
            s.append(legacy);
        },
    }
    assert(s@ =~= platform_detail(
        profile_label@,
        value,
        balanced_base_for_custom,
        custom_base_label,
        *supported,
        *before,
        *misc,
        *after_misc,
        legacy@,
    ));
    s
}

// ----------------------------------------------------------------------------
// Applying a power profile
// ----------------------------------------------------------------------------

/// How a power profile sets the firmware: the label and platform-profile
/// input it writes, whether it is the base mode of a custom profile (with
/// that base's label), and whether NVIDIA Whisper is switched on (quiet) or
/// cleared.
#[derive(Clone, Copy, Debug)]
pub struct OperatingModePlan {
    pub platform_label: &'static str,
    pub input: u64,
    pub balanced_base_for_custom: bool,
    pub custom_base_label: Option<&'static str>,
    pub whisper_quiet: bool,
}

/// The operating-mode plan of a profile: battery guard writes the quiet
/// profile and turns Whisper on; balanced, performance and turbo write their
/// own profile and clear Whisper; custom writes its base mode (the balanced
/// base when none is given) and clears Whisper.
pub open spec fn operating_mode_of(
    profile_id: PowerProfileId,
    custom_base: Option<CustomPowerBaseId>,
    plan: OperatingModePlan,
) -> bool {
    match profile_id {
        PowerProfileId::BatteryGuard => plan.platform_label@ == "quiet"@ && plan.input
            == GAMING_PROFILE_QUIET && !plan.balanced_base_for_custom && plan.custom_base_label is None
            && plan.whisper_quiet,
        PowerProfileId::Balanced => plan.platform_label@ == "balanced"@ && plan.input
            == GAMING_PROFILE_BALANCED && !plan.balanced_base_for_custom
            && plan.custom_base_label is None && !plan.whisper_quiet,
        PowerProfileId::Performance => plan.platform_label@ == "performance"@ && plan.input
            == GAMING_PROFILE_PERFORMANCE && !plan.balanced_base_for_custom
            && plan.custom_base_label is None && !plan.whisper_quiet,
        PowerProfileId::Turbo => plan.platform_label@ == "turbo"@ && plan.input
            == GAMING_PROFILE_TURBO && !plan.balanced_base_for_custom
            && plan.custom_base_label is None && !plan.whisper_quiet,
        PowerProfileId::Custom => {
            let base = match custom_base {
                Some(b) => b,
                None => CustomPowerBaseId::Balanced,
            };
            &&& plan.platform_label@ == "custom"@
            &&& plan.input == custom_base_value(base).0
            &&& plan.balanced_base_for_custom
            &&& plan.custom_base_label matches Some(l) && l@ == custom_base_value(base).1
            &&& !plan.whisper_quiet
        },
    }
}

/// A fixed profile writes its own platform-profile value: the same value a
/// custom profile writes for the base of the same name (balanced 1,
/// performance 4, turbo 5), and 0 (quiet) for battery guard; a custom
/// profile writes its base's value. Different fixed profiles therefore
/// never write the same value.
pub proof fn law_plan_writes_the_profiles_own_value(
    profile_id: PowerProfileId,
    custom_base: Option<CustomPowerBaseId>,
    plan: OperatingModePlan,
    other_id: PowerProfileId,
    other_base: Option<CustomPowerBaseId>,
    other: OperatingModePlan,
)
    requires
        operating_mode_of(profile_id, custom_base, plan),
        operating_mode_of(other_id, other_base, other),
    ensures
        profile_id == PowerProfileId::BatteryGuard ==> plan.input == 0,
        profile_id == PowerProfileId::Balanced ==> plan.input == custom_base_value(
            CustomPowerBaseId::Balanced,
        ).0 && plan.platform_label@ == custom_base_value(CustomPowerBaseId::Balanced).1,
        profile_id == PowerProfileId::Performance ==> plan.input == custom_base_value(
            CustomPowerBaseId::Performance,
        ).0 && plan.platform_label@ == custom_base_value(CustomPowerBaseId::Performance).1,
        profile_id == PowerProfileId::Turbo ==> plan.input == custom_base_value(
            CustomPowerBaseId::Turbo,
        ).0 && plan.platform_label@ == custom_base_value(CustomPowerBaseId::Turbo).1,
        profile_id == PowerProfileId::Custom ==> plan.input == custom_base_value(
            match custom_base {
                Some(b) => b,
                None => CustomPowerBaseId::Balanced,
            },
        ).0,
        profile_id != PowerProfileId::Custom && other_id != PowerProfileId::Custom && profile_id
            != other_id ==> plan.input != other.input,
{
}

/// The operating-mode plan of a profile (see [`operating_mode_of`]).
pub fn plan_operating_mode(
    profile_id: &PowerProfileId,
    custom_base_profile: Option<&CustomPowerBaseId>,
) -> (r: OperatingModePlan)
    ensures
        operating_mode_of(
            *profile_id,
            match custom_base_profile {
                Some(b) => Some(*b),
                None => None,
            },
            r,
        ),
        *profile_id == PowerProfileId::BatteryGuard ==> r.input == 0,
        *profile_id == PowerProfileId::Balanced ==> r.input == custom_base_value(
            CustomPowerBaseId::Balanced,
        ).0,
        *profile_id == PowerProfileId::Performance ==> r.input == custom_base_value(
            CustomPowerBaseId::Performance,
        ).0,
        *profile_id == PowerProfileId::Turbo ==> r.input == custom_base_value(
            CustomPowerBaseId::Turbo,
        ).0,
{
    match profile_id {
        PowerProfileId::BatteryGuard => OperatingModePlan {
            platform_label: "quiet",
            input: GAMING_PROFILE_QUIET,
            balanced_base_for_custom: false,
            custom_base_label: None,
            whisper_quiet: true,
        },
        PowerProfileId::Custom => {
            let base = match custom_base_profile {
                Some(b) => *b,
                None => CustomPowerBaseId::Balanced,
            };
            let (input, label) = custom_base_profile_details(&base);
            OperatingModePlan {
                platform_label: profile_label(profile_id),
                input,
                balanced_base_for_custom: true,
                custom_base_label: Some(label),
                whisper_quiet: false,
            }
        },
        _ => {
            let input = match profile_id {
                PowerProfileId::Balanced => GAMING_PROFILE_BALANCED,
                PowerProfileId::Performance => GAMING_PROFILE_PERFORMANCE,
                _ => GAMING_PROFILE_TURBO,
            };
            OperatingModePlan {
                platform_label: profile_label(profile_id),
                input,
                balanced_base_for_custom: false,
                custom_base_label: None,
                whisper_quiet: false,
            }
        },
    }
}

/// The Whisper part of the operating-mode detail.
pub open spec fn whisper_part(quiet: bool, whisper: Result<NvApiWhisperResult, String>) -> Seq<char> {
    match whisper {
        Ok(w) => if quiet {
            whisper_description("Applied direct NVIDIA Whisper quiet state"@, w)
        } else {
            whisper_description("Cleared NVIDIA Whisper state"@, w)
        },
        Err(e) => if quiet {
            "NVIDIA Whisper quiet state was unavailable: "@ + e@
                + ". Continuing with Windows processor policy."@
        } else {
            "NVIDIA Whisper clear was unavailable: "@ + e@ + "."@
        },
    }
}

/// The operating-mode detail: the firmware detail, a space, then the
/// Whisper outcome.
pub fn operating_mode_detail(
    plan: &OperatingModePlan,
    firmware_detail: &str,
    whisper: &Result<NvApiWhisperResult, String>,
) -> (r: String)
    ensures
        r@ == firmware_detail@ + " "@ + whisper_part(plan.whisper_quiet, *whisper),
{
    let whisper_detail = match whisper {
        Ok(w) => if plan.whisper_quiet {
            format_whisper_detail("Applied direct NVIDIA Whisper quiet state", w)
        } else {
            format_whisper_detail("Cleared NVIDIA Whisper state", w)
        },
        Err(e) => {
            let mut d = String::new();
            if plan.whisper_quiet {
                d.append("NVIDIA Whisper quiet state was unavailable: ");
                d.append(e.as_str());
                d.append(". Continuing with Windows processor policy.");
            } else {
                d.append("NVIDIA Whisper clear was unavailable: ");
                d.append(e.as_str());
                d.append(".");
            }
            d
        },
    };
    let mut s = String::new();
    s.append(firmware_detail);
    s.append(" ");
    s.append(whisper_detail.as_str());
    assert(s@ =~= firmware_detail@ + " "@ + whisper_part(plan.whisper_quiet, *whisper));
    s
}

/// The detail recorded for a power-profile apply.
pub open spec fn power_apply_detail(
    operating_detail: Seq<char>,
    requested: ProcessorStateSettings,
    readback: ProcessorStateReadback,
) -> Seq<char> {
    operating_detail + " Windows processor policy requested min "@ + spec_decimal(
        requested.min_percent as nat,
    ) + " / max "@ + spec_decimal(requested.max_percent as nat)
        + " on the active scheme. Read back AC "@ + spec_decimal(readback.ac.min_percent as nat)
        + " / "@ + spec_decimal(readback.ac.max_percent as nat) + " and DC "@ + spec_decimal(
        readback.dc.min_percent as nat,
    ) + " / "@ + spec_decimal(readback.dc.max_percent as nat) + "."@ + (if drifted(
        readback,
        requested,
    ) {
        " Windows reported a different processor policy than the requested values."@
    } else {
        Seq::empty()
    })
}

/// A processor state clamped into 5..=100 on both ends.
pub open spec fn clamped_processor_state(p: ProcessorStateSettings) -> ProcessorStateSettings {
    ProcessorStateSettings {
        min_percent: clamp_state(p.min_percent),
        max_percent: clamp_state(p.max_percent),
    }
}

/// Sanitizing accepts the processor state: after clamping, the minimum does
/// not exceed the maximum.
pub open spec fn processor_state_accepted(p: ProcessorStateSettings) -> bool {
    clamp_state(p.min_percent) <= clamp_state(p.max_percent)
}

/// The applied snapshot of a power profile once the sanitized processor
/// state has been written and read back: it records the request's profile
/// and custom base, the sanitized state (never the raw request values), the
/// readback and whether it drifted. A request whose state sanitizing
/// refuses gets sanitizing's error.
pub fn finish_power_profile(
    request: &ApplyPowerProfileRequest,
    operating_detail: &str,
    readback: ProcessorStateReadback,
    applied_at_unix: u64,
) -> (r: Result<AppliedPowerProfileSnapshot, String>)
    ensures
        !processor_state_accepted(request.processor_state) ==> (r matches Err(e) && e@
            == processor_order_error(
            clamp_state(request.processor_state.min_percent),
            clamp_state(request.processor_state.max_percent),
        )),
        processor_state_accepted(request.processor_state) ==> (r matches Ok(a) && {
            let state = clamped_processor_state(request.processor_state);
            &&& a.profile_id == request.profile_id
            &&& a.processor_state == state
            &&& a.custom_base_profile == request.custom_base_profile
            &&& a.readback == readback
            &&& a.drift_detected == drifted(readback, state)
            &&& a.applied_at_unix == applied_at_unix
            &&& a.detail@ == power_apply_detail(operating_detail@, state, readback)
        }),
{
    let processor_state = match sanitize_processor_state(request.processor_state) {
        Ok(state) => state,
        Err(e) => return Err(e),
    };
    let drift_detected = processor_state_drift(&readback, &processor_state);
    let mut s = String::new();
    s.append(operating_detail);
    s.append(" Windows processor policy requested min ");
    push_decimal(&mut s, processor_state.min_percent as u64);
    s.append(" / max ");
    push_decimal(&mut s, processor_state.max_percent as u64);
    s.append(" on the active scheme. Read back AC ");
    push_decimal(&mut s, readback.ac.min_percent as u64);
    s.append(" / ");
    push_decimal(&mut s, readback.ac.max_percent as u64);
    s.append(" and DC ");
    push_decimal(&mut s, readback.dc.min_percent as u64);
    s.append(" / ");
    push_decimal(&mut s, readback.dc.max_percent as u64);
    s.append(".");
    if drift_detected {
        s.append(" Windows reported a different processor policy than the requested values.");
    }
    assert(s@ =~= power_apply_detail(operating_detail@, processor_state, readback));
    Ok(
        AppliedPowerProfileSnapshot {
            profile_id: request.profile_id,
            processor_state,
            custom_base_profile: request.custom_base_profile,
            readback,
            drift_detected,
            applied_at_unix,
            detail: s,
        },
    )
}

} // verus!
