//! What the macOS backend reports about itself.
use vstd::prelude::*;
use crate::capability::{
    all_distinct, finding_texts, law_distinct_findings_are_kept, recorded, report_from, Capability,
    CapabilityFinding, CapabilityReport, CapabilityState, StateView,
};

verus! {

/// The backend name used in capability findings.
pub const BACKEND: &'static str = "macos-appkit";

/// What the macOS backend reports: the two capabilities seen working on one
/// Mac as available, citing the evidence, and every other one unknown, with
/// what would settle it.
pub open spec fn macos_findings() -> Seq<(Capability, StateView, Seq<char>)> {
    seq![
        (Capability::LiveOverlay, StateView::Available("E011: ink stayed visible above Finder and the desktop from a screen-saver-level window, on one Retina Mac"@), BACKEND@),
        (Capability::DrawPointerCapture, StateView::Available("E011: clicks on empty canvas drew shapes rather than reaching Finder underneath"@), BACKEND@),
        (Capability::VisiblePassthrough, StateView::Unknown("setIgnoresMouseEvents: should let AppKit route clicks underneath with nothing forwarded by us; nobody has watched it"@), BACKEND@),
        (Capability::KeyboardRelease, StateView::Unknown("resigning key window should return the keyboard, but an accessory application that accepts keys takes focus in the first place; unresolved, see ADR-006"@), BACKEND@),
        (Capability::GlobalShortcut, StateView::Unknown("Carbon's RegisterEventHotKey binds Control+Option+D and Control+Option+H without an accessibility grant (ADR-007); nobody has pressed them"@), BACKEND@),
        (Capability::OutputEnumeration, StateView::Unknown("NSScreen should report every screen with its backing scale; nobody has watched it"@), BACKEND@),
        (Capability::SimultaneousOutputs, StateView::Unknown("one window per screen should be possible; no second window has been created"@), BACKEND@),
        (Capability::FullscreenOverlay, StateView::Unknown("NSWindowCollectionBehavior is set to join all Spaces and act as a fullscreen auxiliary, which is the documented route; whether it is honoured at this window level is the single most uncertain thing in this backend"@), BACKEND@),
        (Capability::WorkspaceOverlay, StateView::Unknown("Spaces are covered by the same collection behaviour and are equally unmeasured"@), BACKEND@),
        (Capability::Capture, StateView::Unknown("out of scope for this backend; capture is ADR-003 and deliberately unbuilt"@), BACKEND@),
        (Capability::CaptureExclusion, StateView::Unknown("out of scope for this backend; capture is ADR-003 and deliberately unbuilt"@), BACKEND@),
    ]
}

/// What this backend could offer, and what is actually known about it.
pub fn capabilities() -> (report: CapabilityReport)
    ensures
        report@ == recorded(macos_findings(), macos_findings().len() as int),
{
    let mut findings: Vec<CapabilityFinding> = Vec::new();
    findings.push(CapabilityFinding::new(
        Capability::LiveOverlay,
        CapabilityState::available("E011: ink stayed visible above Finder and the desktop from a screen-saver-level window, on one Retina Mac"),
        BACKEND,
    ));
    findings.push(CapabilityFinding::new(
        Capability::DrawPointerCapture,
        CapabilityState::available("E011: clicks on empty canvas drew shapes rather than reaching Finder underneath"),
        BACKEND,
    ));
    findings.push(CapabilityFinding::new(
        Capability::VisiblePassthrough,
        CapabilityState::unknown("setIgnoresMouseEvents: should let AppKit route clicks underneath with nothing forwarded by us; nobody has watched it"),
        BACKEND,
    ));
    findings.push(CapabilityFinding::new(
        Capability::KeyboardRelease,
        CapabilityState::unknown("resigning key window should return the keyboard, but an accessory application that accepts keys takes focus in the first place; unresolved, see ADR-006"),
        BACKEND,
    ));
    findings.push(CapabilityFinding::new(
        Capability::GlobalShortcut,
        CapabilityState::unknown("Carbon's RegisterEventHotKey binds Control+Option+D and Control+Option+H without an accessibility grant (ADR-007); nobody has pressed them"),
        BACKEND,
    ));
    findings.push(CapabilityFinding::new(
        Capability::OutputEnumeration,
        CapabilityState::unknown("NSScreen should report every screen with its backing scale; nobody has watched it"),
        BACKEND,
    ));
    findings.push(CapabilityFinding::new(
        Capability::SimultaneousOutputs,
        CapabilityState::unknown("one window per screen should be possible; no second window has been created"),
        BACKEND,
    ));
    findings.push(CapabilityFinding::new(
        Capability::FullscreenOverlay,
        CapabilityState::unknown("NSWindowCollectionBehavior is set to join all Spaces and act as a fullscreen auxiliary, which is the documented route; whether it is honoured at this window level is the single most uncertain thing in this backend"),
        BACKEND,
    ));
    findings.push(CapabilityFinding::new(
        Capability::WorkspaceOverlay,
        CapabilityState::unknown("Spaces are covered by the same collection behaviour and are equally unmeasured"),
        BACKEND,
    ));
    findings.push(CapabilityFinding::new(
        Capability::Capture,
        CapabilityState::unknown("out of scope for this backend; capture is ADR-003 and deliberately unbuilt"),
        BACKEND,
    ));
    findings.push(CapabilityFinding::new(
        Capability::CaptureExclusion,
        CapabilityState::unknown("out of scope for this backend; capture is ADR-003 and deliberately unbuilt"),
        BACKEND,
    ));
    assert(finding_texts(findings@) =~= macos_findings());
    report_from(findings)
}

/// Every capability is accounted for, once: the report holds one finding per
/// capability, in the order recorded.
pub proof fn law_every_capability_is_accounted_for()
    ensures
        recorded(macos_findings(), macos_findings().len() as int) == macos_findings(),
        macos_findings().len() == 11,
{
    let findings = macos_findings();
    assert(all_distinct(findings));
    law_distinct_findings_are_kept(findings);
}

} // verus!
