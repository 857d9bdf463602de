//! The order of a power-profile apply, as steps from what the last call
//! returned to the next call: the processor state is checked first; the
//! firmware platform profile is probed, written and read back, with the
//! legacy profile write only when the write was not confirmed; NVIDIA
//! Whisper is set once; the processor state is written through powercfg
//! call by call, stopping at the first failure; and the policy is read
//! back and recorded.
use vstd::prelude::*;

use super::models::{
    AppliedPowerProfileSnapshot, ApplyPowerProfileRequest, ProcessorStateReadback,
};
use super::power::{
    apply_acer_platform_profile_or_fallback, clamp_state, clamped_processor_state, drifted,
    finish_power_profile, legacy_detail, legacy_gaming_profile_detail, misc_write_confirmed,
    operating_mode_detail, operating_mode_of, plan_operating_mode, platform_detail,
    platform_profile_needs_legacy, platform_profile_value, power_apply_detail,
    processor_order_error, processor_state_accepted, profile_value_of, sanitize_processor_state,
    whisper_part, GamingCallResult, NvApiWhisperResult, OperatingModePlan,
};
use super::powercfg::{processor_state_calls, spec_processor_state_calls, PowercfgCall};

verus! {

/// Where a power-profile apply stands, with what the calls so far returned.
#[derive(Debug)]
pub enum PowerStage {
    /// Waiting for the SupportedProfiles read.
    ReadSupported,
    /// Waiting for the platform profile read before the write.
    ReadBefore { supported: Result<Option<u8>, String> },
    /// Waiting for the platform-profile write.
    WriteMisc { supported: Result<Option<u8>, String>, before: Result<Option<u8>, String> },
    /// Waiting for the platform profile read after the write.
    ReadAfterMisc {
        supported: Result<Option<u8>, String>,
        before: Result<Option<u8>, String>,
        misc: Result<GamingCallResult, String>,
    },
    /// Waiting for the legacy SetGamingProfile write.
    WriteLegacy {
        supported: Result<Option<u8>, String>,
        before: Result<Option<u8>, String>,
        misc: Result<GamingCallResult, String>,
        after_misc: Result<Option<u8>, String>,
    },
    /// Waiting for the platform profile read after the legacy write.
    ReadAfterLegacy {
        supported: Result<Option<u8>, String>,
        before: Result<Option<u8>, String>,
        misc: Result<GamingCallResult, String>,
        after_misc: Result<Option<u8>, String>,
        write: Result<GamingCallResult, String>,
    },
    /// Waiting for the Whisper call, with the firmware detail so far.
    SetWhisper { firmware_detail: String },
    /// Waiting for the powercfg call at `index` of the processor-state calls.
    Powercfg { detail: String, index: usize },
    /// Waiting for the processor-state readback.
    ReadBack { detail: String },
    /// The apply has finished.
    Done,
}

/// A power-profile apply in progress: the request, its operating-mode plan
/// and where it stands.
#[derive(Debug)]
pub struct PowerApply {
    pub request: ApplyPowerProfileRequest,
    pub plan: OperatingModePlan,
    pub stage: PowerStage,
}

/// What a call of the apply returned.
#[derive(Debug)]
pub enum PowerEvent {
    /// A platform-profile byte read (SupportedProfiles or the current profile).
    ProfileByte(Result<Option<u8>, String>),
    /// A platform-profile or legacy profile write.
    GamingCall(Result<GamingCallResult, String>),
    /// The Whisper call.
    Whisper(Result<NvApiWhisperResult, String>),
    /// A powercfg call.
    Powercfg(Result<(), String>),
    /// The processor-state readback, and the time it was taken.
    Readback(Result<ProcessorStateReadback, String>, u64),
}

/// The next call of the apply, or its result.
#[derive(Debug)]
pub enum PowerAction {
    ReadSupportedProfiles,
    ReadPlatformProfile,
    SetPlatformProfile(u8),
    SetGamingProfile(u64),
    SetWhisper(bool),
    RunPowercfg(PowercfgCall),
    ReadProcessorState,
    Finish(Result<AppliedPowerProfileSnapshot, String>),
}

/// The custom base a request names.
pub open spec fn request_base(
    request: ApplyPowerProfileRequest,
) -> Option<super::models::CustomPowerBaseId> {
    request.custom_base_profile
}

/// An apply that has not finished was started from an accepted processor
/// state, carries its request's plan, and stands at a valid powercfg call.
pub open spec fn power_apply_wf(s: PowerApply) -> bool {
    !(s.stage is Done) ==> {
        &&& processor_state_accepted(s.request.processor_state)
        &&& operating_mode_of(s.request.profile_id, request_base(s.request), s.plan)
        &&& (s.stage matches PowerStage::Powercfg { index, .. } ==> index < 5)
    }
}

/// `event` answers the call that `stage` waits for.
pub open spec fn event_answers(stage: PowerStage, event: PowerEvent) -> bool {
    match stage {
        PowerStage::ReadSupported => event is ProfileByte,
        PowerStage::ReadBefore { .. } => event is ProfileByte,
        PowerStage::WriteMisc { .. } => event is GamingCall,
        PowerStage::ReadAfterMisc { .. } => event is ProfileByte,
        PowerStage::WriteLegacy { .. } => event is GamingCall,
        PowerStage::ReadAfterLegacy { .. } => event is ProfileByte,
        PowerStage::SetWhisper { .. } => event is Whisper,
        PowerStage::Powercfg { .. } => event is Powercfg,
        PowerStage::ReadBack { .. } => event is Readback,
        PowerStage::Done => false,
    }
}

/// The platform-profile byte the plan writes.
pub open spec fn plan_value(plan: OperatingModePlan) -> u8 {
    profile_value_of(plan.input)
}

/// The firmware detail of the platform-profile path with the given legacy
/// detail.
pub open spec fn plan_platform_detail(
    plan: OperatingModePlan,
    supported: Result<Option<u8>, String>,
    before: Result<Option<u8>, String>,
    misc: Result<GamingCallResult, String>,
    after_misc: Result<Option<u8>, String>,
    legacy: Seq<char>,
) -> Seq<char> {
    platform_detail(
        plan.platform_label@,
        plan_value(plan),
        plan.balanced_base_for_custom,
        plan.custom_base_label,
        supported,
        before,
        misc,
        after_misc,
        legacy,
    )
}

/// The legacy path's detail for the plan.
pub open spec fn plan_legacy_detail(
    plan: OperatingModePlan,
    write: Result<GamingCallResult, String>,
    after: Result<Option<u8>, String>,
) -> Seq<char> {
    legacy_detail(
        plan.platform_label@,
        plan_value(plan),
        plan.balanced_base_for_custom,
        plan.custom_base_label,
        write,
        after,
    )
}

/// The powercfg call at `index` for the request's sanitized state.
pub open spec fn powercfg_call_at(request: ApplyPowerProfileRequest, index: int) -> PowercfgCall {
    spec_processor_state_calls(clamped_processor_state(request.processor_state))[index]
}

/// Starts a power-profile apply: a processor state that sanitizing refuses
/// ends it at once with sanitizing's error, before any call; otherwise the
/// first call reads the supported profiles.
pub fn start_power_apply(request: ApplyPowerProfileRequest) -> (r: (PowerApply, PowerAction))
    ensures
        power_apply_wf(r.0),
        r.0.request == request,
        !processor_state_accepted(request.processor_state) ==> (r.1 matches PowerAction::Finish(Err(e)) && e@ == processor_order_error(
            clamp_state(request.processor_state.min_percent),
            clamp_state(request.processor_state.max_percent),
        ) && r.0.stage is Done),
        processor_state_accepted(request.processor_state) ==> (r.0.stage is ReadSupported && r.1 is ReadSupportedProfiles),
{
    let base = match &request.custom_base_profile {
        Some(b) => Some(b),
        None => None,
    };
    let plan = plan_operating_mode(&request.profile_id, base);
    match sanitize_processor_state(request.processor_state) {
        Err(e) => (PowerApply { request, plan, stage: PowerStage::Done }, PowerAction::Finish(Err(e))),
        Ok(_) => (
            PowerApply { request, plan, stage: PowerStage::ReadSupported },
            PowerAction::ReadSupportedProfiles,
        ),
    }
}

/// The firmware detail once the platform-profile path is complete, with
/// the Whisper call as the next step.
fn to_whisper(
    request: ApplyPowerProfileRequest,
    plan: OperatingModePlan,
    firmware_detail: String,
) -> (r: (PowerApply, PowerAction))
    ensures
        r.0.request == request,
        r.0.plan == plan,
        r.0.stage matches PowerStage::SetWhisper { firmware_detail: d } && d@ == firmware_detail@,
        r.1 == PowerAction::SetWhisper(plan.whisper_quiet),
{
    let quiet = plan.whisper_quiet;
    (PowerApply { request, plan, stage: PowerStage::SetWhisper { firmware_detail } }, PowerAction::SetWhisper(quiet))
}

/// Takes the apply one step: from what the awaited call returned to the
/// next call, or to the result.
/// - The reads and the platform-profile write follow one another; after the
///   readback, the legacy SetGamingProfile write comes exactly when the
///   platform-profile write was not confirmed.
/// - Once the firmware detail is complete, Whisper is set once, quiet as
///   the plan says.
/// - The powercfg calls then run in the order of the processor-state calls;
///   the first that fails ends the apply with its error.
/// - The readback ends it: an error with that error, a readback with the
///   snapshot [`finish_power_profile`] records.
#[verifier::rlimit(40)]
pub fn next_power_action(s: PowerApply, event: PowerEvent) -> (r: (PowerApply, PowerAction))
    requires
        power_apply_wf(s),
        event_answers(s.stage, event),
    ensures
        power_apply_wf(r.0),
        r.0.request == s.request,
        r.0.plan == s.plan,
        s.stage is ReadSupported ==> (event matches PowerEvent::ProfileByte(x) && r.0.stage
            == PowerStage::ReadBefore { supported: x } && r.1 is ReadPlatformProfile),
        s.stage matches PowerStage::ReadBefore { supported } ==> (event matches PowerEvent::ProfileByte(x)
            && r.0.stage == PowerStage::WriteMisc { supported, before: x } && r.1
            == PowerAction::SetPlatformProfile(plan_value(s.plan))),
        s.stage matches PowerStage::WriteMisc { supported, before } ==> (event matches PowerEvent::GamingCall(m)
            && r.0.stage == PowerStage::ReadAfterMisc { supported, before, misc: m } && r.1 is ReadPlatformProfile),
        s.stage matches PowerStage::ReadAfterMisc { supported, before, misc } ==> (event matches PowerEvent::ProfileByte(a) && (
            if misc_write_confirmed(misc, a, plan_value(s.plan)) {
                r.0.stage matches PowerStage::SetWhisper { firmware_detail } && firmware_detail@
                    == plan_platform_detail(s.plan, supported, before, misc, a, Seq::empty())
                    && r.1 == PowerAction::SetWhisper(s.plan.whisper_quiet)
            } else {
                r.0.stage == PowerStage::WriteLegacy { supported, before, misc, after_misc: a } && r.1
                    == PowerAction::SetGamingProfile(s.plan.input)
            })),
        s.stage matches PowerStage::WriteLegacy { supported, before, misc, after_misc } ==> (event matches PowerEvent::GamingCall(w) && (
            if w is Ok {
                r.0.stage == PowerStage::ReadAfterLegacy { supported, before, misc, after_misc, write: w }
                    && r.1 is ReadPlatformProfile
            } else {
                r.0.stage matches PowerStage::SetWhisper { firmware_detail } && firmware_detail@
                    == plan_platform_detail(
                    s.plan,
                    supported,
                    before,
                    misc,
                    after_misc,
                    plan_legacy_detail(s.plan, w, Ok(None)),
                ) && r.1 == PowerAction::SetWhisper(s.plan.whisper_quiet)
            })),
        s.stage matches PowerStage::ReadAfterLegacy { supported, before, misc, after_misc, write } ==> (
        event matches PowerEvent::ProfileByte(a) && (r.0.stage matches PowerStage::SetWhisper {
            firmware_detail,
        } && firmware_detail@ == plan_platform_detail(
            s.plan,
            supported,
            before,
            misc,
            after_misc,
            plan_legacy_detail(s.plan, write, a),
        ) && r.1 == PowerAction::SetWhisper(s.plan.whisper_quiet))),
        s.stage matches PowerStage::SetWhisper { firmware_detail } ==> (event matches PowerEvent::Whisper(w)
            && (r.0.stage matches PowerStage::Powercfg { detail, index } && index == 0 && detail@
            == firmware_detail@ + " "@ + whisper_part(s.plan.whisper_quiet, w) && r.1
            == PowerAction::RunPowercfg(powercfg_call_at(s.request, 0)))),
        s.stage matches PowerStage::Powercfg { detail, index } ==> (event matches PowerEvent::Powercfg(p) && (
            match p {
                Err(e) => r.0.stage is Done && r.1 == PowerAction::Finish(Err(e)),
                Ok(()) => if index + 1 < 5 {
                    r.0.stage matches PowerStage::Powercfg { detail: d, index: i } && d@ == detail@ && i
                        == index + 1 && r.1 == PowerAction::RunPowercfg(
                        powercfg_call_at(s.request, index + 1),
                    )
                } else {
                    r.0.stage matches PowerStage::ReadBack { detail: d } && d@ == detail@ && r.1 is ReadProcessorState
                },
            })),
        s.stage matches PowerStage::ReadBack { detail } ==> (event matches PowerEvent::Readback(rb, at) && (r.0.stage is Done) && (
            match rb {
                Err(e) => r.1 == PowerAction::Finish(Err(e)),
                Ok(readback) => r.1 matches PowerAction::Finish(Ok(a)) && {
                    let state = clamped_processor_state(s.request.processor_state);
                    &&& a.profile_id == s.request.profile_id
                    &&& a.processor_state == state
                    &&& a.custom_base_profile == s.request.custom_base_profile
                    &&& a.readback == readback
                    &&& a.drift_detected == drifted(readback, state)
                    &&& a.applied_at_unix == at
                    &&& a.detail@ == power_apply_detail(detail@, state, readback)
                },
            })),
{
    let PowerApply { request, plan, stage } = s;
    let value = platform_profile_value(plan.input);
    match stage {
        PowerStage::ReadSupported => match event {
            PowerEvent::ProfileByte(x) => (
                PowerApply { request, plan, stage: PowerStage::ReadBefore { supported: x } },
                PowerAction::ReadPlatformProfile,
            ),
            _ => (PowerApply { request, plan, stage: PowerStage::Done }, PowerAction::ReadProcessorState),
        },
        PowerStage::ReadBefore { supported } => match event {
            PowerEvent::ProfileByte(x) => (
                PowerApply { request, plan, stage: PowerStage::WriteMisc { supported, before: x } },
                PowerAction::SetPlatformProfile(value),
            ),
            _ => (PowerApply { request, plan, stage: PowerStage::Done }, PowerAction::ReadProcessorState),
        },
        PowerStage::WriteMisc { supported, before } => match event {
            PowerEvent::GamingCall(m) => (
                PowerApply { request, plan, stage: PowerStage::ReadAfterMisc { supported, before, misc: m } },
                PowerAction::ReadPlatformProfile,
            ),
            _ => (PowerApply { request, plan, stage: PowerStage::Done }, PowerAction::ReadProcessorState),
        },
        PowerStage::ReadAfterMisc { supported, before, misc } => match event {
            PowerEvent::ProfileByte(a) => {
                if platform_profile_needs_legacy(&misc, &a, value) {
                    let input = plan.input;
                    (
                        PowerApply {
                            request,
                            plan,
                            stage: PowerStage::WriteLegacy { supported, before, misc, after_misc: a },
                        },
                        PowerAction::SetGamingProfile(input),
                    )
                } else {
                    let legacy = String::new();
                    let firmware_detail = apply_acer_platform_profile_or_fallback(
                        plan.platform_label,
                        value,
                        plan.balanced_base_for_custom,
                        plan.custom_base_label,
                        &supported,
                        &before,
                        &misc,
                        &a,
                        legacy.as_str(),
                    );
                    to_whisper(request, plan, firmware_detail)
                }
            },
            _ => (PowerApply { request, plan, stage: PowerStage::Done }, PowerAction::ReadProcessorState),
        },
        PowerStage::WriteLegacy { supported, before, misc, after_misc } => match event {
            PowerEvent::GamingCall(w) => {
                match w {
                    Ok(call) => (
                        PowerApply {
                            request,
                            plan,
                            stage: PowerStage::ReadAfterLegacy {
                                supported,
                                before,
                                misc,
                                after_misc,
                                write: Ok(call),
                            },
                        },
                        PowerAction::ReadPlatformProfile,
                    ),
                    Err(e) => {
                        let write: Result<GamingCallResult, String> = Err(e);
                        let after: Result<Option<u8>, String> = Ok(None);
                        let legacy = legacy_gaming_profile_detail(
                            plan.platform_label,
                            value,
                            plan.balanced_base_for_custom,
                            plan.custom_base_label,
                            &write,
                            &after,
                        );
                        let firmware_detail = apply_acer_platform_profile_or_fallback(
                            plan.platform_label,
                            value,
                            plan.balanced_base_for_custom,
                            plan.custom_base_label,
                            &supported,
                            &before,
                            &misc,
                            &after_misc,
                            legacy.as_str(),
                        );
                        to_whisper(request, plan, firmware_detail)
                    },
                }
            },
            _ => (PowerApply { request, plan, stage: PowerStage::Done }, PowerAction::ReadProcessorState),
        },
        PowerStage::ReadAfterLegacy { supported, before, misc, after_misc, write } => match event {
            PowerEvent::ProfileByte(a) => {
                let legacy = legacy_gaming_profile_detail(
                    plan.platform_label,
                    value,
                    plan.balanced_base_for_custom,
                    plan.custom_base_label,
                    &write,
                    &a,
                );
                let firmware_detail = apply_acer_platform_profile_or_fallback(
                    plan.platform_label,
                    value,
                    plan.balanced_base_for_custom,
                    plan.custom_base_label,
                    &supported,
                    &before,
                    &misc,
                    &after_misc,
                    legacy.as_str(),
                );
                to_whisper(request, plan, firmware_detail)
            },
            _ => (PowerApply { request, plan, stage: PowerStage::Done }, PowerAction::ReadProcessorState),
        },
        PowerStage::SetWhisper { firmware_detail } => match event {
            PowerEvent::Whisper(w) => {
                let detail = operating_mode_detail(&plan, firmware_detail.as_str(), &w);
                let state = match sanitize_processor_state(request.processor_state) {
                    Ok(st) => st,
                    Err(_) => request.processor_state,
                };
                let calls = processor_state_calls(state);
                let call = calls[0];
                (PowerApply { request, plan, stage: PowerStage::Powercfg { detail, index: 0 } }, PowerAction::RunPowercfg(call))
            },
            _ => (PowerApply { request, plan, stage: PowerStage::Done }, PowerAction::ReadProcessorState),
        },
        PowerStage::Powercfg { detail, index } => match event {
            PowerEvent::Powercfg(p) => match p {
                Err(e) => (PowerApply { request, plan, stage: PowerStage::Done }, PowerAction::Finish(Err(e))),
                Ok(()) => {
                    if index + 1 < 5 {
                        let state = match sanitize_processor_state(request.processor_state) {
                            Ok(st) => st,
                            Err(_) => request.processor_state,
                        };
                        let calls = processor_state_calls(state);
                        let call = calls[index + 1];
                        (
                            PowerApply { request, plan, stage: PowerStage::Powercfg { detail, index: index + 1 } },
                            PowerAction::RunPowercfg(call),
                        )
                    } else {
                        (PowerApply { request, plan, stage: PowerStage::ReadBack { detail } }, PowerAction::ReadProcessorState)
                    }
                },
            },
            _ => (PowerApply { request, plan, stage: PowerStage::Done }, PowerAction::ReadProcessorState),
        },
        PowerStage::ReadBack { detail } => match event {
            PowerEvent::Readback(rb, at) => match rb {
                Err(e) => (PowerApply { request, plan, stage: PowerStage::Done }, PowerAction::Finish(Err(e))),
                Ok(readback) => {
                    let result = finish_power_profile(&request, detail.as_str(), readback, at);
                    (PowerApply { request, plan, stage: PowerStage::Done }, PowerAction::Finish(result))
                },
            },
            _ => (PowerApply { request, plan, stage: PowerStage::Done }, PowerAction::ReadProcessorState),
        },
        PowerStage::Done => (PowerApply { request, plan, stage: PowerStage::Done }, PowerAction::ReadProcessorState),
    }
}

} // verus!
