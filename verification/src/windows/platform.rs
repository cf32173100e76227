//! What the Windows backend reports about itself, and what a remote verb
//! asks of its overlay.
use vstd::prelude::*;
use crate::capability::{
    all_distinct, finding_texts, law_distinct_findings_are_kept, recorded, report_from, Capability,
    CapabilityFinding, CapabilityReport, CapabilityState, StateView,
};
use crate::tool::Action;
use crate::verbs::{all_verbs, ControlCommand};

verus! {

/// The backend name used in capability findings.
pub const BACKEND: &'static str = "windows-layered";

/// What the Windows backend reports: the two capabilities seen working on one
/// machine as available, citing the evidence, and every other one unknown,
/// with what would settle it. A documented behaviour is not a measurement.
pub open spec fn windows_findings() -> Seq<(Capability, StateView, Seq<char>)> {
    seq![
        (Capability::LiveOverlay, StateView::Available("E010: ink drawn with UpdateLayeredWindow stayed visible above a terminal window, on one machine at 96 dpi"@), BACKEND@),
        (Capability::DrawPointerCapture, StateView::Available("E010: clicks on empty canvas drew strokes rather than reaching the terminal underneath, which is the alpha-1 floor doing its job"@), BACKEND@),
        (Capability::VisiblePassthrough, StateView::Unknown("WS_EX_TRANSPARENT should let the window manager route clicks underneath with nothing forwarded by us; nobody has watched it"@), BACKEND@),
        (Capability::KeyboardRelease, StateView::Unknown("dropping the foreground window should return the keyboard; nobody has watched it"@), BACKEND@),
        (Capability::GlobalShortcut, StateView::Unknown("RegisterHotKey should bind a chord and refuse one another application owns; nobody has watched it"@), BACKEND@),
        (Capability::OutputEnumeration, StateView::Unknown("EnumDisplayMonitors should report every monitor with its own DPI; nobody has watched it"@), BACKEND@),
        (Capability::SimultaneousOutputs, StateView::Unknown("one window per monitor should be possible, but no second window has been created"@), BACKEND@),
        (Capability::FullscreenOverlay, StateView::Unknown("a top-most window is expected to lose to an exclusive-fullscreen application; entirely unmeasured and the most likely to disappoint"@), BACKEND@),
        (Capability::WorkspaceOverlay, StateView::Unknown("Windows virtual desktops have not been considered at all"@), BACKEND@),
        (Capability::Capture, StateView::Unknown("out of scope for this backend; capture is ADR-003 and deliberately unbuilt"@), BACKEND@),
        (Capability::CaptureExclusion, StateView::Unknown("out of scope for this backend; capture is ADR-003 and deliberately unbuilt"@), BACKEND@),
    ]
}

/// What this backend could offer, and what is actually known about it.
pub fn capabilities() -> (report: CapabilityReport)
    ensures
        report@ == recorded(windows_findings(), windows_findings().len() as int),
{
    let mut findings: Vec<CapabilityFinding> = Vec::new();
    findings.push(CapabilityFinding::new(
        Capability::LiveOverlay,
        CapabilityState::available("E010: ink drawn with UpdateLayeredWindow stayed visible above a terminal window, on one machine at 96 dpi"),
        BACKEND,
    ));
    findings.push(CapabilityFinding::new(
        Capability::DrawPointerCapture,
        CapabilityState::available("E010: clicks on empty canvas drew strokes rather than reaching the terminal underneath, which is the alpha-1 floor doing its job"),
        BACKEND,
    ));
    findings.push(CapabilityFinding::new(
        Capability::VisiblePassthrough,
        CapabilityState::unknown("WS_EX_TRANSPARENT should let the window manager route clicks underneath with nothing forwarded by us; nobody has watched it"),
        BACKEND,
    ));
    findings.push(CapabilityFinding::new(
        Capability::KeyboardRelease,
        CapabilityState::unknown("dropping the foreground window should return the keyboard; nobody has watched it"),
        BACKEND,
    ));
    findings.push(CapabilityFinding::new(
        Capability::GlobalShortcut,
        CapabilityState::unknown("RegisterHotKey should bind a chord and refuse one another application owns; nobody has watched it"),
        BACKEND,
    ));
    findings.push(CapabilityFinding::new(
        Capability::OutputEnumeration,
        CapabilityState::unknown("EnumDisplayMonitors should report every monitor with its own DPI; nobody has watched it"),
        BACKEND,
    ));
    findings.push(CapabilityFinding::new(
        Capability::SimultaneousOutputs,
        CapabilityState::unknown("one window per monitor should be possible, but no second window has been created"),
        BACKEND,
    ));
    findings.push(CapabilityFinding::new(
        Capability::FullscreenOverlay,
        CapabilityState::unknown("a top-most window is expected to lose to an exclusive-fullscreen application; entirely unmeasured and the most likely to disappoint"),
        BACKEND,
    ));
    findings.push(CapabilityFinding::new(
        Capability::WorkspaceOverlay,
        CapabilityState::unknown("Windows virtual desktops have not been considered at all"),
        BACKEND,
    ));
    findings.push(CapabilityFinding::new(
        Capability::Capture,
        CapabilityState::unknown("out of scope for this backend; capture is ADR-003 and deliberately unbuilt"),
        BACKEND,
    ));
    findings.push(CapabilityFinding::new(
        Capability::CaptureExclusion,
        CapabilityState::unknown("out of scope for this backend; capture is ADR-003 and deliberately unbuilt"),
        BACKEND,
    ));
    assert(finding_texts(findings@) =~= windows_findings());
    report_from(findings)
}

/// Every capability is accounted for, once: the report holds one finding per
/// capability, in the order recorded.
pub proof fn law_every_capability_is_accounted_for()
    ensures
        recorded(windows_findings(), windows_findings().len() as int) == windows_findings(),
        windows_findings().len() == 11,
{
    let findings = windows_findings();
    assert(all_distinct(findings));
    law_distinct_findings_are_kept(findings);
}

/// What a remote verb asks the overlay to do.
#[derive(Clone, Copy, Debug, PartialEq, Eq, Structural)]
pub enum Remote {
    Act(Action),
    Quit,
}

/// What a remote verb number asks for: the verb's action, or `Quit` for the
/// verb that is not an action; nothing for a number that is not a verb.
pub open spec fn remote_of(index: u32) -> Option<Remote> {
    if index < 8 {
        match all_verbs()[index as int].action_spec() {
            Some(action) => Some(Remote::Act(action)),
            None => Some(Remote::Quit),
        }
    } else {
        None
    }
}

/// Turns a verb number from a window message into what it asks for. The
/// numbering is the verbs' own, so the decoding is too.
pub fn decode(index: u32) -> (remote: Option<Remote>)
    ensures
        remote == remote_of(index),
{
    let command = match ControlCommand::from_index(index) {
        Some(command) => command,
        None => {
            return None;
        },
    };
    match command.action() {
        Some(action) => Some(Remote::Act(action)),
        None => Some(Remote::Quit),
    }
}

} // verus!
