//! What a Wayland registry probe observed, and the capability findings made
//! of it.
//!
//! An advertised protocol is evidence that a route is worth trying, not that
//! the route works: the probe creates no surface, so it reports no overlay,
//! input region or focus behaviour as available.
use vstd::prelude::*;
use crate::capability::{
    all_distinct, finding_texts, law_distinct_findings_are_kept, recorded, report_from, Capability,
    CapabilityFinding, CapabilityReport, CapabilityState, StateView,
};
use crate::output::OutputInfo;
use crate::text::{decimal, push_decimal, same_text};

verus! {

/// One protocol global as the compositor advertised it.
#[derive(Clone, Debug, PartialEq, Eq, PartialOrd, Ord)]
pub struct AdvertisedGlobal {
    pub interface: String,
    pub version: u32,
}

/// What one probe run observed.
#[derive(Clone, Debug)]
pub struct WaylandProbe {
    /// Every advertised global, sorted by interface name.
    pub globals: Vec<AdvertisedGlobal>,
    /// One entry per output, in the order the registry advertised them.
    pub outputs: Vec<OutputInfo>,
}

/// The globals as text and version.
pub open spec fn global_texts(globals: Seq<AdvertisedGlobal>) -> Seq<(Seq<char>, u32)> {
    globals.map_values(|g: AdvertisedGlobal| (g.interface@, g.version))
}

/// The version of the first global advertising `interface`, if any does.
pub open spec fn first_version(globals: Seq<(Seq<char>, u32)>, interface: Seq<char>) -> Option<u32>
    decreases globals.len(),
{
    if globals.len() == 0 {
        None
    } else if globals[0].0 == interface {
        Some(globals[0].1)
    } else {
        first_version(globals.drop_first(), interface)
    }
}

/// A global with none before it naming the interface is the first.
proof fn lemma_first_version(globals: Seq<(Seq<char>, u32)>, interface: Seq<char>, at: int)
    requires
        0 <= at <= globals.len(),
        at < globals.len() ==> globals[at].0 == interface,
        forall|j: int| 0 <= j < at ==> (#[trigger] globals[j]).0 != interface,
    ensures
        at < globals.len() ==> first_version(globals, interface) == Some(globals[at].1),
        at == globals.len() ==> first_version(globals, interface) is None,
    decreases globals.len(),
{
    if globals.len() > 0 && globals[0].0 != interface {
        let rest = globals.drop_first();
        assert forall|j: int| 0 <= j < at - 1 implies (#[trigger] rest[j]).0 != interface by {
            assert(rest[j] == globals[j + 1]);
        }
        if at - 1 < rest.len() {
            assert(rest[at - 1] == globals[at]);
        }
        lemma_first_version(rest, interface, at - 1);
    }
}

/// The wlroots layer-shell protocol's interface name.
pub open spec fn layer_shell() -> Seq<char> {
    "zwlr_layer_shell_v1"@
}

impl WaylandProbe {
    /// Whether an interface was advertised, and at which version.
    pub fn version_of(&self, interface: &str) -> (version: Option<u32>)
        ensures
            version == first_version(global_texts(self.globals@), interface@),
    {
        let ghost texts = global_texts(self.globals@);
        let n = self.globals.len();
        let mut i: usize = 0;
        while i < n
            invariant
                n == self.globals@.len(),
                texts == global_texts(self.globals@),
                i <= n,
                forall|j: int| 0 <= j < i ==> (#[trigger] texts[j]).0 != interface@,
            decreases n - i,
        {
            let global = &self.globals[i];
            assert(texts[i as int] == (global.interface@, global.version));
            if same_text(global.interface.as_str(), interface) {
                proof {
                    lemma_first_version(texts, interface@, i as int);
                }
                return Some(global.version);
            }
            i = i + 1;
        }
        proof {
            lemma_first_version(texts, interface@, n as int);
        }
        None
    }

    /// Whether the wlroots layer-shell protocol is advertised: worth
    /// attempting, never proof that an overlay works.
    pub fn advertises_layer_shell(&self) -> (advertised: bool)
        ensures
            advertised == first_version(global_texts(self.globals@), layer_shell()) is Some,
    {
        self.version_of("zwlr_layer_shell_v1").is_some()
    }
}

/// Why the overlay capabilities stay unknown, given the layer-shell version
/// advertised, if any.
pub open spec fn overlay_reason(layer: Option<u32>) -> Seq<char> {
    match layer {
        Some(version) => "zwlr_layer_shell_v1 v"@ + decimal(version as nat)
            + " is advertised, but no surface has been created; T006 must demonstrate stacking and drawing before this can be called available"@,
        None => "zwlr_layer_shell_v1 is not advertised; the standalone xdg-shell route is unproven and is the subject of T007 and ADR-002"@,
    }
}

/// What enumerating outputs showed.
pub open spec fn outputs_state(count: nat) -> StateView {
    if count == 0 {
        StateView::Unavailable("the compositor advertised no wl_output"@)
    } else {
        StateView::Available("wl_output enumerated "@ + decimal(count) + " output(s) over the protocol"@)
    }
}

/// The findings a probe makes: outputs enumerated is the one thing it
/// proves; everything else stays unknown, with what would settle it.
pub open spec fn wayland_findings(output_count: nat, layer: Option<u32>) -> Seq<(Capability, StateView, Seq<char>)> {
    seq![
        (Capability::OutputEnumeration, outputs_state(output_count), "wayland"@),
        (Capability::LiveOverlay, StateView::Unknown(overlay_reason(layer)), "wayland"@),
        (Capability::DrawPointerCapture, StateView::Unknown("no input region has been set on any surface. "@ + overlay_reason(layer)), "wayland"@),
        (Capability::VisiblePassthrough, StateView::Unknown("an empty input region must be observed on a live surface. "@ + overlay_reason(layer)), "wayland"@),
        (Capability::KeyboardRelease, StateView::Unknown("keyboard interactivity is a layer-surface property; no surface exists yet (T006)"@), "wayland"@),
        (Capability::GlobalShortcut, StateView::Unknown("the org.freedesktop.portal.GlobalShortcuts interface was not queried: no D-Bus client dependency has been chosen yet (T012)"@), "wayland"@),
        (Capability::SimultaneousOutputs, StateView::Unknown("a V1 concern (FR-021); no surface exists on any output yet"@), "wayland"@),
        (Capability::FullscreenOverlay, StateView::Unknown("requires a native run against a fullscreen application (T006)"@), "wayland"@),
        (Capability::WorkspaceOverlay, StateView::Unknown("requires a native run across workspaces (T006)"@), "wayland"@),
        (Capability::Capture, StateView::Unknown("not probed on purpose: capture is a later feature (FR-026) and drawing must never depend on it"@), "wayland"@),
        (Capability::CaptureExclusion, StateView::Unknown("not probed: belongs with capture (FR-027)"@), "wayland"@),
    ]
}

/// Turns protocol observations into capability findings.
pub fn capabilities(probe: &WaylandProbe) -> (report: CapabilityReport)
    ensures
        report@ == recorded(
            wayland_findings(probe.outputs@.len(), first_version(global_texts(probe.globals@), layer_shell())),
            11,
        ),
{
    let ghost layer = first_version(global_texts(probe.globals@), layer_shell());
    let count = probe.outputs.len();
    let outputs = if count == 0 {
        CapabilityState::unavailable("the compositor advertised no wl_output")
    } else {
        let mut evidence = String::from_str("wl_output enumerated ");
        push_decimal(&mut evidence, count as u64);
        evidence.append(" output(s) over the protocol");
        CapabilityState::available(evidence.as_str())
    };
    proof {
        reveal_strlit("zwlr_layer_shell_v1");
    }
    let reason = match probe.version_of("zwlr_layer_shell_v1") {
        Some(version) => {
            let mut reason = String::from_str("zwlr_layer_shell_v1 v");
            push_decimal(&mut reason, version as u64);
            reason.append(
                " is advertised, but no surface has been created; T006 must demonstrate stacking and drawing before this can be called available",
            );
            reason
        },
        None => String::from_str(
            "zwlr_layer_shell_v1 is not advertised; the standalone xdg-shell route is unproven and is the subject of T007 and ADR-002",
        ),
    };
    assert(reason@ == overlay_reason(layer));
    let mut drawing = String::from_str("no input region has been set on any surface. ");
    drawing.append(reason.as_str());
    let mut passing = String::from_str("an empty input region must be observed on a live surface. ");
    passing.append(reason.as_str());
    let mut findings: Vec<CapabilityFinding> = Vec::new();
    findings.push(CapabilityFinding::new(Capability::OutputEnumeration, outputs, "wayland"));
    findings.push(CapabilityFinding::new(Capability::LiveOverlay, CapabilityState::unknown(reason.as_str()), "wayland"));
    findings.push(CapabilityFinding::new(Capability::DrawPointerCapture, CapabilityState::unknown(drawing.as_str()), "wayland"));
    findings.push(CapabilityFinding::new(Capability::VisiblePassthrough, CapabilityState::unknown(passing.as_str()), "wayland"));
    findings.push(CapabilityFinding::new(
        Capability::KeyboardRelease,
        CapabilityState::unknown("keyboard interactivity is a layer-surface property; no surface exists yet (T006)"),
        "wayland",
    ));
    findings.push(CapabilityFinding::new(
        Capability::GlobalShortcut,
        CapabilityState::unknown("the org.freedesktop.portal.GlobalShortcuts interface was not queried: no D-Bus client dependency has been chosen yet (T012)"),
        "wayland",
    ));
    findings.push(CapabilityFinding::new(
        Capability::SimultaneousOutputs,
        CapabilityState::unknown("a V1 concern (FR-021); no surface exists on any output yet"),
        "wayland",
    ));
    findings.push(CapabilityFinding::new(
        Capability::FullscreenOverlay,
        CapabilityState::unknown("requires a native run against a fullscreen application (T006)"),
        "wayland",
    ));
    findings.push(CapabilityFinding::new(
        Capability::WorkspaceOverlay,
        CapabilityState::unknown("requires a native run across workspaces (T006)"),
        "wayland",
    ));
    findings.push(CapabilityFinding::new(
        Capability::Capture,
        CapabilityState::unknown("not probed on purpose: capture is a later feature (FR-026) and drawing must never depend on it"),
        "wayland",
    ));
    findings.push(CapabilityFinding::new(
        Capability::CaptureExclusion,
        CapabilityState::unknown("not probed: belongs with capture (FR-027)"),
        "wayland",
    ));
    assert(finding_texts(findings@) =~= wayland_findings(count as nat, layer));
    report_from(findings)
}

/// Every capability is accounted for, once, and nothing but output
/// enumeration can read as available: an advertised protocol never makes an
/// overlay capability available.
pub proof fn law_only_outputs_can_be_available(output_count: nat, layer: Option<u32>)
    ensures
        recorded(wayland_findings(output_count, layer), 11) == wayland_findings(output_count, layer),
        forall|i: int| 1 <= i < 11 ==> (#[trigger] wayland_findings(output_count, layer)[i]).1 is Unknown,
{
    let findings = wayland_findings(output_count, layer);
    assert(all_distinct(findings));
    law_distinct_findings_are_kept(findings);
}

/// Whether `a` sorts strictly before `b`, character by character, a proper
/// prefix first: the order of Rust's `String`.
pub open spec fn text_less(a: Seq<char>, b: Seq<char>) -> bool
    decreases a.len(),
{
    if b.len() == 0 {
        false
    } else if a.len() == 0 {
        true
    } else if a[0] != b[0] {
        a[0] < b[0]
    } else {
        text_less(a.drop_first(), b.drop_first())
    }
}

/// Of two different texts, one sorts before the other.
proof fn lemma_text_total(a: Seq<char>, b: Seq<char>)
    ensures
        text_less(a, b) || text_less(b, a) || a == b,
    decreases a.len(),
{
    if a.len() > 0 && b.len() > 0 && a[0] == b[0] {
        lemma_text_total(a.drop_first(), b.drop_first());
        if a.drop_first() == b.drop_first() {
            assert(a =~= seq![a[0]] + a.drop_first());
            assert(b =~= seq![b[0]] + b.drop_first());
        }
    } else if a.len() == 0 && b.len() == 0 {
        assert(a =~= b);
    }
}

/// Whether global `a` sorts no later than `b`: by interface, then version,
/// as the derived order of `AdvertisedGlobal` has it.
pub open spec fn global_le(a: (Seq<char>, u32), b: (Seq<char>, u32)) -> bool {
    text_less(a.0, b.0) || (a.0 == b.0 && a.1 <= b.1)
}

/// Whether each global sorts no later than the next.
pub open spec fn in_order(globals: Seq<(Seq<char>, u32)>) -> bool {
    forall|i: int| 0 <= i < globals.len() - 1 ==> #[trigger] global_le(globals[i], globals[i + 1])
}

/// Whether text `a` sorts strictly before `b`.
fn text_before(a: &str, b: &str) -> (before: bool)
    ensures
        before == text_less(a@, b@),
{
    let n = a.unicode_len();
    let m = b.unicode_len();
    let mut i: usize = 0;
    assert(a@.skip(0) =~= a@);
    assert(b@.skip(0) =~= b@);
    while i < n && i < m
        invariant
            n == a@.len(),
            m == b@.len(),
            i <= n,
            i <= m,
            text_less(a@, b@) == text_less(a@.skip(i as int), b@.skip(i as int)),
        decreases n - i,
    {
        let x = a.get_char(i);
        let y = b.get_char(i);
        assert(a@.skip(i as int)[0] == x);
        assert(b@.skip(i as int)[0] == y);
        if x != y {
            return x < y;
        }
        assert(a@.skip(i as int).drop_first() =~= a@.skip(i + 1));
        assert(b@.skip(i as int).drop_first() =~= b@.skip(i + 1));
        i = i + 1;
    }
    i == n && i < m
}

/// Whether one global sorts no later than another.
fn global_before(a: &AdvertisedGlobal, b: &AdvertisedGlobal) -> (le: bool)
    ensures
        le == global_le((a.interface@, a.version), (b.interface@, b.version)),
{
    if text_before(a.interface.as_str(), b.interface.as_str()) {
        true
    } else {
        same_text(a.interface.as_str(), b.interface.as_str()) && a.version <= b.version
    }
}

/// The globals in the order `AdvertisedGlobal` sorts: by interface name,
/// then version. The same globals, each as often as before.
pub fn sort_globals(globals: Vec<AdvertisedGlobal>) -> (sorted: Vec<AdvertisedGlobal>)
    ensures
        global_texts(sorted@).to_multiset() == global_texts(globals@).to_multiset(),
        in_order(global_texts(sorted@)),
{
    broadcast use vstd::seq_lib::group_to_multiset_ensures, vstd::multiset::group_multiset_axioms;
    let ghost all = global_texts(globals@);
    let mut rest = globals;
    let mut sorted: Vec<AdvertisedGlobal> = Vec::new();
    assert(global_texts(sorted@) =~= Seq::<(Seq<char>, u32)>::empty());
    proof {
        assert(global_texts(sorted@).to_multiset() =~= vstd::multiset::Multiset::empty());
        assert(vstd::multiset::Multiset::empty().add(all.to_multiset()) =~= all.to_multiset());
    }
    while rest.len() > 0
        invariant
            global_texts(sorted@).to_multiset().add(global_texts(rest@).to_multiset()) == all.to_multiset(),
            in_order(global_texts(sorted@)),
        decreases rest@.len(),
    {
        let ghost before_rest = rest@;
        let global = rest.pop().unwrap();
        assert(before_rest =~= rest@.push(global));
        assert(global_texts(before_rest) =~= global_texts(rest@).push((global.interface@, global.version)));
        let ghost item = (global.interface@, global.version);
        let ghost shown = global_texts(sorted@);
        let n = sorted.len();
        let mut p: usize = 0;
        while p < n && global_before(&sorted[p as usize], &global)
            invariant
                n == sorted@.len(),
                shown == global_texts(sorted@),
                item == (global.interface@, global.version),
                p <= n,
                forall|j: int| 0 <= j < p ==> global_le(#[trigger] shown[j], item),
            decreases n - p,
        {
            assert(shown[p as int] == (sorted@[p as int].interface@, sorted@[p as int].version));
            p = p + 1;
        }
        if p < n {
            assert(shown[p as int] == (sorted@[p as int].interface@, sorted@[p as int].version));
            assert(!global_le(shown[p as int], item));
            proof {
                lemma_text_total(shown[p as int].0, item.0);
            }
            assert(global_le(item, shown[p as int]));
        }
        sorted.insert(p, global);
        let ghost grown = global_texts(sorted@);
        assert(grown =~= shown.insert(p as int, item));
        assert forall|i: int| 0 <= i < grown.len() - 1 implies #[trigger] global_le(grown[i], grown[i + 1]) by {
            if i + 1 < p {
                assert(grown[i] == shown[i] && grown[i + 1] == shown[i + 1]);
                assert(global_le(shown[i], shown[i + 1]));
            } else if i + 1 == p {
                assert(grown[i] == shown[i] && grown[i + 1] == item);
                assert(global_le(shown[i], item));
            } else if i == p {
                assert(grown[i] == item && grown[i + 1] == shown[i]);
            } else {
                let k = i - 1;
                assert(grown[i] == shown[k] && grown[i + 1] == shown[k + 1]);
                assert(global_le(shown[k], shown[k + 1]));
            }
        }
        proof {
            vstd::seq_lib::to_multiset_insert(shown, p as int, item);
            vstd::seq_lib::to_multiset_build(global_texts(rest@), item);
            assert(grown.to_multiset() == shown.to_multiset().insert(item));
            assert(global_texts(before_rest).to_multiset() == global_texts(rest@).to_multiset().insert(item));
            assert(grown.to_multiset().add(global_texts(rest@).to_multiset()) =~= shown.to_multiset().add(
                global_texts(before_rest).to_multiset(),
            ));
        }
    }
    assert(global_texts(rest@) =~= Seq::<(Seq<char>, u32)>::empty());
    proof {
        assert(global_texts(rest@).to_multiset() =~= vstd::multiset::Multiset::empty());
        assert(global_texts(sorted@).to_multiset().add(vstd::multiset::Multiset::empty()) =~= global_texts(sorted@).to_multiset());
    }
    sorted
}

} // verus!
