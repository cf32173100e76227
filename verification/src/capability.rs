//! What can be asked of a display backend, and what is known about it.
//!
//! `Unknown`, `Available`, `NeedsUserAction` and `Unavailable` stay distinct,
//! every state carries its explanation, and a capability nobody reported on
//! reads back as `Unknown`, never as a default of available.
use vstd::prelude::*;

verus! {

/// The capabilities a backend can be asked about.
#[derive(Clone, Copy, Debug, PartialEq, Eq, Structural, PartialOrd, Ord, Hash)]
pub enum Capability {
    /// Ink is drawn above other applications while they keep updating.
    LiveOverlay,
    /// Draw mode receives pointer input over the whole output, including
    /// visually transparent pixels.
    DrawPointerCapture,
    /// PassThrough leaves ink visible while input belongs to applications
    /// underneath, without forwarding or synthesising anything.
    VisiblePassthrough,
    /// The overlay can give up keyboard ownership.
    KeyboardRelease,
    /// A global activation chord can be registered or routed.
    GlobalShortcut,
    /// Outputs and their scale and geometry can be enumerated.
    OutputEnumeration,
    /// Several outputs can host overlays at the same time.
    SimultaneousOutputs,
    /// The overlay survives above a fullscreen application.
    FullscreenOverlay,
    /// The overlay behaves across workspaces.
    WorkspaceOverlay,
    /// Screen capture. Never required for drawing.
    Capture,
    /// Capture can exclude our own surfaces.
    CaptureExclusion,
}

impl Capability {
    /// The capability's name in diagnostics.
    pub open spec fn name(self) -> Seq<char> {
        match self {
            Capability::LiveOverlay => "live_overlay"@,
            Capability::DrawPointerCapture => "draw_pointer_capture"@,
            Capability::VisiblePassthrough => "visible_passthrough"@,
            Capability::KeyboardRelease => "keyboard_release"@,
            Capability::GlobalShortcut => "global_shortcut"@,
            Capability::OutputEnumeration => "output_enumeration"@,
            Capability::SimultaneousOutputs => "simultaneous_outputs"@,
            Capability::FullscreenOverlay => "fullscreen_overlay"@,
            Capability::WorkspaceOverlay => "workspace_overlay"@,
            Capability::Capture => "capture"@,
            Capability::CaptureExclusion => "capture_exclusion"@,
        }
    }

    /// The capability's name in diagnostics.
    pub fn as_str(self) -> (name: &'static str)
        ensures
            name@ == self.name(),
    {
        match self {
            Capability::LiveOverlay => "live_overlay",
            Capability::DrawPointerCapture => "draw_pointer_capture",
            Capability::VisiblePassthrough => "visible_passthrough",
            Capability::KeyboardRelease => "keyboard_release",
            Capability::GlobalShortcut => "global_shortcut",
            Capability::OutputEnumeration => "output_enumeration",
            Capability::SimultaneousOutputs => "simultaneous_outputs",
            Capability::FullscreenOverlay => "fullscreen_overlay",
            Capability::WorkspaceOverlay => "workspace_overlay",
            Capability::Capture => "capture",
            Capability::CaptureExclusion => "capture_exclusion",
        }
    }
}

/// What is known about one capability right now.
#[derive(Clone, Debug, PartialEq, Eq)]
pub enum CapabilityState {
    /// Nothing has been established. Carries what stopped the probe, so a
    /// reader can tell "we did not look" from "we looked and it is not there".
    Unknown { not_probed_because: String },
    /// Observed to work, with the observation that supports it.
    Available { evidence: String },
    /// Reachable only after the user acts: granting a permission, binding a
    /// shortcut, installing a companion.
    NeedsUserAction { action: String },
    /// Observed to be absent or refused, with the reason.
    Unavailable { reason: String },
}

/// A capability state as text: which of the four, and its explanation.
pub enum StateView {
    Unknown(Seq<char>),
    Available(Seq<char>),
    NeedsUserAction(Seq<char>),
    Unavailable(Seq<char>),
}

impl View for CapabilityState {
    type V = StateView;

    open spec fn view(&self) -> StateView {
        match self {
            CapabilityState::Unknown { not_probed_because } => StateView::Unknown(not_probed_because@),
            CapabilityState::Available { evidence } => StateView::Available(evidence@),
            CapabilityState::NeedsUserAction { action } => StateView::NeedsUserAction(action@),
            CapabilityState::Unavailable { reason } => StateView::Unavailable(reason@),
        }
    }
}

impl StateView {
    /// The short word diagnostics print for the state.
    pub open spec fn label(self) -> Seq<char> {
        match self {
            StateView::Unknown(_) => "unknown"@,
            StateView::Available(_) => "available"@,
            StateView::NeedsUserAction(_) => "needs_user_action"@,
            StateView::Unavailable(_) => "unavailable"@,
        }
    }

    /// The explanation the state carries.
    pub open spec fn detail(self) -> Seq<char> {
        match self {
            StateView::Unknown(text) => text,
            StateView::Available(text) => text,
            StateView::NeedsUserAction(text) => text,
            StateView::Unavailable(text) => text,
        }
    }
}

/// What a report says of a capability nobody reported on.
pub open spec fn nobody_reported() -> StateView {
    StateView::Unknown("no adapter reported on this capability"@)
}

impl CapabilityState {
    pub fn unknown(not_probed_because: &str) -> (state: Self)
        ensures
            state@ == StateView::Unknown(not_probed_because@),
    {
        CapabilityState::Unknown { not_probed_because: String::from_str(not_probed_because) }
    }

    pub fn available(evidence: &str) -> (state: Self)
        ensures
            state@ == StateView::Available(evidence@),
    {
        CapabilityState::Available { evidence: String::from_str(evidence) }
    }

    pub fn needs_user_action(action: &str) -> (state: Self)
        ensures
            state@ == StateView::NeedsUserAction(action@),
    {
        CapabilityState::NeedsUserAction { action: String::from_str(action) }
    }

    pub fn unavailable(reason: &str) -> (state: Self)
        ensures
            state@ == StateView::Unavailable(reason@),
    {
        CapabilityState::Unavailable { reason: String::from_str(reason) }
    }

    /// True only for `Available`. `Unknown` is deliberately false: an
    /// unprobed capability must never be treated as usable.
    pub fn is_available(&self) -> (available: bool)
        ensures
            available == (self@ is Available),
    {
        match self {
            CapabilityState::Available { .. } => true,
            _ => false,
        }
    }

    /// The short word used in diagnostics output.
    pub fn label(&self) -> (label: &'static str)
        ensures
            label@ == self@.label(),
    {
        match self {
            CapabilityState::Unknown { .. } => "unknown",
            CapabilityState::Available { .. } => "available",
            CapabilityState::NeedsUserAction { .. } => "needs_user_action",
            CapabilityState::Unavailable { .. } => "unavailable",
        }
    }

    /// The explanatory text, whichever variant carries it.
    pub fn detail(&self) -> (detail: &str)
        ensures
            detail@ == self@.detail(),
    {
        match self {
            CapabilityState::Unknown { not_probed_because } => not_probed_because.as_str(),
            CapabilityState::Available { evidence } => evidence.as_str(),
            CapabilityState::NeedsUserAction { action } => action.as_str(),
            CapabilityState::Unavailable { reason } => reason.as_str(),
        }
    }

    /// A copy with the same text.
    fn duplicate(&self) -> (copy: Self)
        ensures
            copy@ == self@,
    {
        match self {
            CapabilityState::Unknown { not_probed_because } =>
                CapabilityState::Unknown { not_probed_because: not_probed_because.clone() },
            CapabilityState::Available { evidence } =>
                CapabilityState::Available { evidence: evidence.clone() },
            CapabilityState::NeedsUserAction { action } =>
                CapabilityState::NeedsUserAction { action: action.clone() },
            CapabilityState::Unavailable { reason } =>
                CapabilityState::Unavailable { reason: reason.clone() },
        }
    }
}

/// One capability plus the observation behind it.
#[derive(Clone, Debug, PartialEq, Eq)]
pub struct CapabilityFinding {
    pub capability: Capability,
    pub state: CapabilityState,
    /// Which adapter produced this, such as `wayland`, `x11`, `none`.
    pub backend: String,
}

impl View for CapabilityFinding {
    type V = (Capability, StateView, Seq<char>);

    open spec fn view(&self) -> (Capability, StateView, Seq<char>) {
        (self.capability, self.state@, self.backend@)
    }
}

impl CapabilityFinding {
    pub fn new(capability: Capability, state: CapabilityState, backend: &str) -> (finding: Self)
        ensures
            finding@ == (capability, state@, backend@),
    {
        CapabilityFinding { capability, state, backend: String::from_str(backend) }
    }
}

/// The position of the first finding about `capability`, or -1 if there is
/// none.
pub open spec fn first_about(findings: Seq<(Capability, StateView, Seq<char>)>, capability: Capability) -> int
    decreases findings.len(),
{
    if findings.len() == 0 {
        -1
    } else if findings[0].0 == capability {
        0
    } else {
        let rest = first_about(findings.drop_first(), capability);
        if rest < 0 { -1 } else { rest + 1 }
    }
}

/// Whether any finding is about `capability`.
pub open spec fn reported(findings: Seq<(Capability, StateView, Seq<char>)>, capability: Capability) -> bool {
    exists|i: int| 0 <= i < findings.len() && (#[trigger] findings[i]).0 == capability
}

/// What a list of findings says of `capability`: the first finding about it,
/// or `Unknown` with the reason that nobody reported.
pub open spec fn state_in(findings: Seq<(Capability, StateView, Seq<char>)>, capability: Capability) -> StateView {
    let at = first_about(findings, capability);
    if at >= 0 { findings[at].1 } else { nobody_reported() }
}

/// The findings after `finding` is recorded: it replaces the first finding
/// about the same capability, or joins the end.
pub open spec fn with_finding(
    findings: Seq<(Capability, StateView, Seq<char>)>,
    finding: (Capability, StateView, Seq<char>),
) -> Seq<(Capability, StateView, Seq<char>)> {
    let at = first_about(findings, finding.0);
    if at >= 0 { findings.update(at, finding) } else { findings.push(finding) }
}

/// The capabilities of `all`, in order, that no finding is about.
pub open spec fn unreported_in(findings: Seq<(Capability, StateView, Seq<char>)>, all: Seq<Capability>) -> Seq<Capability>
    decreases all.len(),
{
    if all.len() == 0 {
        Seq::empty()
    } else {
        let rest = unreported_in(findings, all.drop_last());
        if reported(findings, all.last()) { rest } else { rest.push(all.last()) }
    }
}

/// `first_about` is the position of the first finding about the capability.
proof fn lemma_first_about(findings: Seq<(Capability, StateView, Seq<char>)>, capability: Capability)
    ensures
        -1 <= first_about(findings, capability) < findings.len(),
        first_about(findings, capability) >= 0 ==> findings[first_about(findings, capability)].0 == capability,
        forall|j: int| 0 <= j < first_about(findings, capability) ==> (#[trigger] findings[j]).0 != capability,
        first_about(findings, capability) < 0 <==> !reported(findings, capability),
    decreases findings.len(),
{
    if findings.len() > 0 {
        let rest = findings.drop_first();
        lemma_first_about(rest, capability);
        assert forall|j: int| 0 < j < findings.len() implies findings[j] == rest[j - 1] by {}
        if findings[0].0 != capability {
            if reported(findings, capability) {
                let i = choose|i: int| 0 <= i < findings.len() && (#[trigger] findings[i]).0 == capability;
                assert(rest[i - 1].0 == capability);
            }
            if reported(rest, capability) {
                let i = choose|i: int| 0 <= i < rest.len() && (#[trigger] rest[i]).0 == capability;
                assert(findings[i + 1].0 == capability);
            }
        }
    }
}

/// A position holding the capability with none before it is `first_about`.
proof fn lemma_first_about_is(findings: Seq<(Capability, StateView, Seq<char>)>, capability: Capability, at: int)
    requires
        -1 <= at <= findings.len(),
        0 <= at < findings.len() ==> findings[at].0 == capability,
        forall|j: int| 0 <= j < at ==> (#[trigger] findings[j]).0 != capability,
    ensures
        0 <= at < findings.len() ==> first_about(findings, capability) == at,
        at == findings.len() ==> first_about(findings, capability) == -1,
{
    lemma_first_about(findings, capability);
    if at == findings.len() {
        if reported(findings, capability) {
            let i = choose|i: int| 0 <= i < findings.len() && (#[trigger] findings[i]).0 == capability;
            assert(findings[i].0 != capability);
        }
    }
}

/// Recording a finding makes the report say what the finding says of its
/// capability, leaves what it says of every other capability unchanged, and
/// adds an entry only when the capability was not reported before: a later
/// finding refines an earlier one and leaves no stale copy behind.
pub proof fn law_recorded_finding_reads_back(
    findings: Seq<(Capability, StateView, Seq<char>)>,
    finding: (Capability, StateView, Seq<char>),
)
    ensures
        state_in(with_finding(findings, finding), finding.0) == finding.1,
        forall|other: Capability| other != finding.0
            ==> #[trigger] state_in(with_finding(findings, finding), other) == state_in(findings, other),
        with_finding(findings, finding).len()
            == if reported(findings, finding.0) { findings.len() } else { findings.len() + 1 },
{
    let after = with_finding(findings, finding);
    let at = first_about(findings, finding.0);
    lemma_first_about(findings, finding.0);
    if at >= 0 {
        assert forall|j: int| 0 <= j < after.len() implies (#[trigger] after[j]).0 == findings[j].0 by {}
        lemma_first_about_is(after, finding.0, at);
        assert forall|other: Capability| other != finding.0
            implies #[trigger] state_in(after, other) == state_in(findings, other) by {
            lemma_first_about(findings, other);
            let there = first_about(findings, other);
            if there >= 0 {
                lemma_first_about_is(after, other, there);
            } else {
                assert forall|j: int| 0 <= j < after.len() implies (#[trigger] after[j]).0 != other by {
                    assert(!(0 <= j < findings.len() && (#[trigger] findings[j]).0 == other));
                }
                lemma_first_about_is(after, other, after.len() as int);
            }
        }
    } else {
        lemma_first_about_is(after, finding.0, findings.len() as int);
        assert forall|other: Capability| other != finding.0
            implies #[trigger] state_in(after, other) == state_in(findings, other) by {
            lemma_first_about(findings, other);
            let there = first_about(findings, other);
            if there >= 0 {
                lemma_first_about_is(after, other, there);
            } else {
                assert forall|j: int| 0 <= j < after.len() implies (#[trigger] after[j]).0 != other by {
                    if j < findings.len() {
                        assert(!(0 <= j < findings.len() && (#[trigger] findings[j]).0 == other));
                    }
                }
                lemma_first_about_is(after, other, after.len() as int);
            }
        }
    }
}

/// A capability is listed as unreported exactly when it is asked about and
/// no finding is about it, and such a capability reads back as `Unknown`.
pub proof fn law_unreported_reads_as_unknown(
    findings: Seq<(Capability, StateView, Seq<char>)>,
    all: Seq<Capability>,
    capability: Capability,
)
    ensures
        unreported_in(findings, all).contains(capability)
            <==> (all.contains(capability) && !reported(findings, capability)),
        !reported(findings, capability) ==> state_in(findings, capability) == nobody_reported(),
    decreases all.len(),
{
    lemma_first_about(findings, capability);
    if all.len() > 0 {
        let shorter = all.drop_last();
        law_unreported_reads_as_unknown(findings, shorter, capability);
        assert(all == shorter.push(all.last()));
        if all.contains(capability) && !shorter.contains(capability) {
            let i = choose|i: int| 0 <= i < all.len() && all[i] == capability;
            if i < shorter.len() {
                assert(shorter[i] == capability);
            }
        }
        if shorter.contains(capability) {
            let i = choose|i: int| 0 <= i < shorter.len() && shorter[i] == capability;
            assert(all[i] == capability);
        }
        let rest = unreported_in(findings, shorter);
        if !reported(findings, all.last()) {
            let listed = rest.push(all.last());
            assert(listed[rest.len() as int] == all.last());
            if listed.contains(capability) {
                let i = choose|i: int| 0 <= i < listed.len() && listed[i] == capability;
                if i < rest.len() {
                    assert(rest[i] == capability);
                }
            }
            if rest.contains(capability) {
                let i = choose|i: int| 0 <= i < rest.len() && rest[i] == capability;
                assert(listed[i] == capability);
            }
        }
    }
}

/// The findings of a list, as text.
pub open spec fn finding_texts(findings: Seq<CapabilityFinding>) -> Seq<(Capability, StateView, Seq<char>)> {
    findings.map_values(|f: CapabilityFinding| f@)
}

/// The first `count` findings of a list, recorded in order into an empty
/// report.
pub open spec fn recorded(findings: Seq<(Capability, StateView, Seq<char>)>, count: int) -> Seq<(Capability, StateView, Seq<char>)>
    decreases count,
{
    if count <= 0 {
        Seq::empty()
    } else {
        with_finding(recorded(findings, count - 1), findings[count - 1])
    }
}

/// Whether no two findings of a list are about the same capability.
pub open spec fn all_distinct(findings: Seq<(Capability, StateView, Seq<char>)>) -> bool {
    forall|i: int, j: int| 0 <= i < j < findings.len() ==> (#[trigger] findings[i]).0 != (#[trigger] findings[j]).0
}

/// Recording findings about distinct capabilities keeps every one of them,
/// in the order they were recorded: nothing is merged or lost.
pub proof fn law_distinct_findings_are_kept(findings: Seq<(Capability, StateView, Seq<char>)>)
    requires
        all_distinct(findings),
    ensures
        recorded(findings, findings.len() as int) == findings,
{
    lemma_recorded_prefix(findings, findings.len() as int);
    assert(findings.take(findings.len() as int) =~= findings);
}

/// The first `count` distinct findings, recorded, are those findings.
proof fn lemma_recorded_prefix(findings: Seq<(Capability, StateView, Seq<char>)>, count: int)
    requires
        all_distinct(findings),
        0 <= count <= findings.len(),
    ensures
        recorded(findings, count) == findings.take(count),
    decreases count,
{
    if count > 0 {
        let k = count - 1;
        lemma_recorded_prefix(findings, k);
        let before = findings.take(k);
        let next = findings[k];
        assert forall|j: int| 0 <= j < k implies (#[trigger] before[j]).0 != next.0 by {
            assert(before[j] == findings[j]);
        }
        lemma_first_about_is(before, next.0, k);
        assert(before.push(next) =~= findings.take(count));
    } else {
        assert(findings.take(0) =~= Seq::<(Capability, StateView, Seq<char>)>::empty());
    }
}

/// Every finding from one probe run.
///
/// A capability that was never asked about reads back as `Unknown` rather
/// than being silently missing, so a reader cannot mistake absence for a
/// negative result.
#[derive(Clone, Debug)]
pub struct CapabilityReport {
    findings: Vec<CapabilityFinding>,
}

impl View for CapabilityReport {
    type V = Seq<(Capability, StateView, Seq<char>)>;

    closed spec fn view(&self) -> Seq<(Capability, StateView, Seq<char>)> {
        self.findings@.map_values(|f: CapabilityFinding| f@)
    }
}

impl Default for CapabilityReport {
    fn default() -> (report: Self)
        ensures
            report@ == Seq::<(Capability, StateView, Seq<char>)>::empty(),
    {
        CapabilityReport::new()
    }
}

impl CapabilityReport {
    pub fn new() -> (report: Self)
        ensures
            report@ == Seq::<(Capability, StateView, Seq<char>)>::empty(),
    {
        let report = CapabilityReport { findings: Vec::new() };
        assert(report@ =~= Seq::<(Capability, StateView, Seq<char>)>::empty());
        report
    }

    /// Records a finding. A later finding for the same capability replaces
    /// the earlier one, so an adapter can refine what the session probe
    /// assumed.
    pub fn record(&mut self, finding: CapabilityFinding)
        ensures
            final(self)@ == with_finding(old(self)@, finding@),
    {
        let ghost before = self@;
        let ghost wanted = finding@;
        let n = self.findings.len();
        let mut i: usize = 0;
        while i < n
            invariant
                n == self.findings@.len(),
                i <= n,
                self@ == before,
                old(self)@ == before,
                finding@ == wanted,
                before.len() == n,
                forall|j: int| 0 <= j < i ==> (#[trigger] before[j]).0 != wanted.0,
            decreases n - i,
        {
            assert(before[i as int] == self.findings@[i as int]@);
            if self.findings[i].capability == finding.capability {
                proof {
                    lemma_first_about_is(before, wanted.0, i as int);
                }
                self.findings.set(i, finding);
                assert(self@ =~= before.update(i as int, wanted));
                return;
            }
            i = i + 1;
        }
        proof {
            lemma_first_about_is(before, wanted.0, n as int);
        }
        self.findings.push(finding);
        assert(self@ =~= before.push(wanted));
    }

    /// What the report says of `capability`.
    pub fn state_of(&self, capability: Capability) -> (state: CapabilityState)
        ensures
            state@ == state_in(self@, capability),
    {
        let n = self.findings.len();
        let mut i: usize = 0;
        while i < n
            invariant
                n == self.findings@.len(),
                self@.len() == n,
                i <= n,
                forall|j: int| 0 <= j < i ==> (#[trigger] self@[j]).0 != capability,
            decreases n - i,
        {
            assert(self@[i as int] == self.findings@[i as int]@);
            if self.findings[i].capability == capability {
                proof {
                    lemma_first_about_is(self@, capability, i as int);
                }
                return self.findings[i].state.duplicate();
            }
            i = i + 1;
        }
        proof {
            lemma_first_about_is(self@, capability, n as int);
        }
        CapabilityState::unknown("no adapter reported on this capability")
    }

    /// The findings, in the order their capabilities were first reported.
    pub fn findings(&self) -> (findings: &[CapabilityFinding])
        ensures
            findings@.map_values(|f: CapabilityFinding| f@) == self@,
    {
        self.findings.as_slice()
    }

    /// The capabilities of `all`, in order, that no adapter has reported on.
    pub fn unreported(&self, all: &[Capability]) -> (missing: Vec<Capability>)
        ensures
            missing@ == unreported_in(self@, all@),
    {
        let mut missing: Vec<Capability> = Vec::new();
        let n = all.len();
        let mut i: usize = 0;
        while i < n
            invariant
                n == all@.len(),
                i <= n,
                missing@ == unreported_in(self@, all@.take(i as int)),
            decreases n - i,
        {
            let wanted = all[i];
            let known = self.mentions(wanted);
            assert(all@.take(i + 1).drop_last() =~= all@.take(i as int));
            if !known {
                missing.push(wanted);
            }
            i = i + 1;
        }
        assert(all@.take(n as int) =~= all@);
        missing
    }

    /// Whether any finding is about `capability`.
    fn mentions(&self, capability: Capability) -> (known: bool)
        ensures
            known == reported(self@, capability),
    {
        let n = self.findings.len();
        let mut i: usize = 0;
        while i < n
            invariant
                n == self.findings@.len(),
                self@.len() == n,
                i <= n,
                forall|j: int| 0 <= j < i ==> (#[trigger] self@[j]).0 != capability,
            decreases n - i,
        {
            assert(self@[i as int] == self.findings@[i as int]@);
            if self.findings[i].capability == capability {
                return true;
            }
            i = i + 1;
        }
        false
    }
}

/// The report that recording `findings` in order makes.
pub(crate) fn report_from(findings: Vec<CapabilityFinding>) -> (report: CapabilityReport)
    ensures
        report@ == recorded(finding_texts(findings@), findings@.len() as int),
{
    let ghost all = finding_texts(findings@);
    let total = findings.len();
    let mut rest = findings;
    let mut report = CapabilityReport::new();
    let mut done: usize = 0;
    while rest.len() > 0
        invariant
            all.len() == total,
            done + rest@.len() == total,
            finding_texts(rest@) == all.skip(done as int),
            report@ == recorded(all, done as int),
        decreases rest@.len(),
    {
        let ghost before = rest@;
        let finding = rest.remove(0);
        assert(finding@ == all[done as int]) by {
            assert(finding_texts(before)[0] == all.skip(done as int)[0]);
        }
        assert(finding_texts(rest@) =~= all.skip(done + 1)) by {
            assert(rest@ =~= before.drop_first());
            assert forall|j: int| 0 <= j < rest@.len() implies #[trigger] finding_texts(rest@)[j] == all.skip(done + 1)[j] by {
                assert(finding_texts(before)[j + 1] == all.skip(done as int)[j + 1]);
            }
        }
        report.record(finding);
        done = done + 1;
    }
    report
}

} // verus!
