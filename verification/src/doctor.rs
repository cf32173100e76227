//! The `doctor` report.
//!
//! Diagnostics carry backend names, protocol names and error classes, never
//! desktop pixels, annotation text or key streams. The report always ends
//! with what was not probed, so a reader is never left to assume that a
//! silent capability is a working one. What the report says is computed
//! here from what the probes observed; reading the environment and talking
//! to sockets is the program's.
use vstd::prelude::*;
use crate::capability::{
    recorded, state_in, with_finding, Capability, CapabilityFinding,
    CapabilityReport, CapabilityState, StateView,
};
use crate::display_server::{EnvSnapshot, SessionKind, SessionView};
use crate::macos::platform::{self as macos_platform, macos_findings};
use crate::output::OutputInfo;
use crate::platform_error::PlatformError;
use crate::text::{decimal, push_decimal, push_signed, push_thousandths, signed_decimal, thousandths};
use crate::wayland::platform::{self as wayland_platform, first_version, global_texts, layer_shell, wayland_findings, WaylandProbe};
use crate::windows::platform::{self as windows_platform, windows_findings};

verus! {

/// Which adapter this build links, and what it observed when the session is
/// Wayland: the registry probe's result on Linux, or the compiled-in backend
/// elsewhere.
pub enum Adapter {
    /// The Wayland registry probe ran, and this is what it gave.
    Wayland(Result<WaylandProbe, PlatformError>),
    /// The Windows backend is compiled in.
    Windows,
    /// The macOS backend is compiled in.
    Macos,
    /// No adapter is compiled into this build.
    Missing,
}

/// Every capability, in the order the report lists them.
pub open spec fn every_capability() -> Seq<Capability> {
    seq![
        Capability::LiveOverlay,
        Capability::DrawPointerCapture,
        Capability::VisiblePassthrough,
        Capability::KeyboardRelease,
        Capability::GlobalShortcut,
        Capability::OutputEnumeration,
        Capability::SimultaneousOutputs,
        Capability::FullscreenOverlay,
        Capability::WorkspaceOverlay,
        Capability::Capture,
        Capability::CaptureExclusion,
    ]
}

/// Every capability, in the order the report lists them.
pub fn all_capabilities() -> (all: [Capability; 11])
    ensures
        all@ == every_capability(),
{
    let all = [
        Capability::LiveOverlay,
        Capability::DrawPointerCapture,
        Capability::VisiblePassthrough,
        Capability::KeyboardRelease,
        Capability::GlobalShortcut,
        Capability::OutputEnumeration,
        Capability::SimultaneousOutputs,
        Capability::FullscreenOverlay,
        Capability::WorkspaceOverlay,
        Capability::Capture,
        Capability::CaptureExclusion,
    ];
    assert(all@ =~= every_capability());
    all
}

/// A line break.
pub open spec fn nl() -> Seq<char> {
    "\n"@
}

/// The text of a value, or a placeholder for a missing one.
pub open spec fn or_text(value: Option<Seq<char>>, missing: Seq<char>) -> Seq<char> {
    match value {
        Some(text) => text,
        None => missing,
    }
}

/// The text of an optional string.
pub open spec fn opt_text(value: Option<String>) -> Option<Seq<char>> {
    match value {
        Some(text) => Some(text@),
        None => None,
    }
}

/// `count` spaces.
pub open spec fn spaces(count: nat) -> Seq<char> {
    Seq::new(count, |i: int| ' ')
}

// Each function below describes the report as it grows: the text so far,
// `out`, followed by what the section adds.

/// The first lines: what ran, built for what.
pub open spec fn with_header(out: Seq<char>, version: Seq<char>, os: Seq<char>) -> Seq<char> {
    out + "yappyink doctor "@ + version + nl() + "build target: "@ + os + nl() + nl()
}

/// One line per reason nothing answered.
pub open spec fn with_reasons(out: Seq<char>, reasons: Seq<Seq<char>>) -> Seq<char>
    decreases reasons.len(),
{
    if reasons.len() == 0 {
        out
    } else {
        with_reasons(out, reasons.drop_last()) + "  no session:        "@ + reasons.last() + nl()
    }
}

/// What answered, in detail.
pub open spec fn with_session_detail(out: Seq<char>, session: SessionView) -> Seq<char> {
    match session {
        SessionView::Wayland(socket) => out + "  wayland socket:    "@ + socket + " (connected)"@ + nl(),
        SessionView::X11(display, socket) => out + "  x11 display:       "@ + display + " via "@ + socket + nl(),
        SessionView::Unreachable(reasons) => with_reasons(out, reasons),
    }
}

/// The backend's name in diagnostics.
pub open spec fn backend_word(session: SessionView) -> Seq<char> {
    match session {
        SessionView::Wayland(_) => "wayland"@,
        SessionView::X11(_, _) => "x11"@,
        SessionView::Unreachable(_) => "none"@,
    }
}

/// The session section: what answered, and what the environment claims,
/// marked as context only.
pub open spec fn with_session(out: Seq<char>, session: SessionView, claimed: Option<Seq<char>>, desktop: Option<Seq<char>>) -> Seq<char> {
    with_session_detail(out + "session"@ + nl() + "  reachable backend: "@ + backend_word(session) + nl(), session)
        + "  claims to be:      XDG_SESSION_TYPE="@ + or_text(claimed, "<unset>"@)
        + ", XDG_CURRENT_DESKTOP="@ + or_text(desktop, "<unset>"@) + nl()
        + "  note:              these two strings are context only. Nothing above or below was"@ + nl()
        + "                     decided from them; the backend is whatever answered a connection."@ + nl()
        + nl()
}

/// One line per advertised global.
pub open spec fn with_globals(out: Seq<char>, globals: Seq<(Seq<char>, u32)>) -> Seq<char>
    decreases globals.len(),
{
    if globals.len() == 0 {
        out
    } else {
        with_globals(out, globals.drop_last()) + "    "@ + globals.last().0 + " v"@
            + decimal(globals.last().1 as nat) + nl()
    }
}

/// The current-mode line of an output.
pub open spec fn with_mode(out: Seq<char>, output: OutputInfo) -> Seq<char> {
    match output.resolution {
        Some((width, height)) => {
            let text = out + "      current mode: "@ + signed_decimal(width as int) + "x"@
                + signed_decimal(height as int) + " px @ "@;
            match output.refresh_mhz {
                Some(refresh) => text + thousandths(refresh as int) + " Hz"@ + nl(),
                None => text + "<no refresh>"@ + nl(),
            }
        },
        None => out + "      current mode: <not reported>"@ + nl(),
    }
}

/// What the report says of one output.
pub open spec fn with_output(out: Seq<char>, output: OutputInfo, index: nat) -> Seq<char> {
    let named = out + "  ["@ + decimal(index) + "] "@ + or_text(opt_text(output.name), "<no name event>"@) + nl();
    let described = match output.description {
        Some(description) => named + "      description: "@ + description@ + nl(),
        None => named,
    };
    let scaled = with_mode(described, output) + "      integer scale: "@ + match output.scale {
        Some(scale) => signed_decimal(scale as int),
        None => "<not reported>"@,
    };
    scaled + "   transform: "@ + or_text(opt_text(output.transform), "<not reported>"@) + nl()
}

/// What the report says of every output, numbered from 0.
pub open spec fn with_outputs(out: Seq<char>, outputs: Seq<OutputInfo>) -> Seq<char>
    decreases outputs.len(),
{
    if outputs.len() == 0 {
        out
    } else {
        with_output(with_outputs(out, outputs.drop_last()), outputs.last(), (outputs.len() - 1) as nat)
    }
}

/// The Wayland protocol section for a probe that ran.
pub open spec fn with_probe(out: Seq<char>, probe: WaylandProbe) -> Seq<char> {
    let listed = with_globals(
        out + "  advertised globals: "@ + decimal(probe.globals@.len()) + nl(),
        global_texts(probe.globals@),
    );
    let layered = listed + "  zwlr_layer_shell_v1: "@ + (if first_version(global_texts(probe.globals@), layer_shell()) is Some {
        "advertised (still unproven: no surface was created)"@
    } else {
        "not advertised"@
    }) + nl() + nl() + "outputs ("@ + decimal(probe.outputs@.len()) + ")"@ + nl();
    with_outputs(layered, probe.outputs@)
        + "  note: integer scale only. Fractional scaling is negotiated per surface,"@ + nl()
        + "        so the effective scale is not established here (FR-012, T018)."@ + nl()
}

/// A first version is found exactly when some global names the interface.
proof fn lemma_found_when_named(globals: Seq<(Seq<char>, u32)>, interface: Seq<char>)
    ensures
        first_version(globals, interface) is Some <==> exists|i: int| 0 <= i < globals.len() && (#[trigger] globals[i]).0
            == interface,
    decreases globals.len(),
{
    if globals.len() > 0 {
        let rest = globals.drop_first();
        lemma_found_when_named(rest, interface);
        if exists|i: int| 0 <= i < globals.len() && (#[trigger] globals[i]).0 == interface {
            let i = choose|i: int| 0 <= i < globals.len() && (#[trigger] globals[i]).0 == interface;
            if i > 0 {
                assert(rest[i - 1] == globals[i]);
            }
        }
        if exists|i: int| 0 <= i < rest.len() && (#[trigger] rest[i]).0 == interface {
            let i = choose|i: int| 0 <= i < rest.len() && (#[trigger] rest[i]).0 == interface;
            assert(globals[i + 1] == rest[i]);
        }
    }
}

/// The report's layer-shell line tells the truth: right after the list of
/// globals it says the wlroots layer-shell protocol is advertised exactly
/// when some advertised global's interface is `zwlr_layer_shell_v1`, and
/// "not advertised" otherwise.
pub proof fn law_the_layer_shell_line_tells_the_truth(out: Seq<char>, probe: WaylandProbe)
    ensures
        ({
            let line = with_globals(
                out + "  advertised globals: "@ + decimal(probe.globals@.len()) + "\n"@,
                global_texts(probe.globals@),
            ) + "  zwlr_layer_shell_v1: "@ + (if exists|i: int|
                0 <= i < probe.globals@.len() && (#[trigger] probe.globals@[i]).interface@ == "zwlr_layer_shell_v1"@ {
                "advertised (still unproven: no surface was created)"@
            } else {
                "not advertised"@
            }) + "\n"@;
            &&& with_probe(out, probe).len() >= line.len()
            &&& with_probe(out, probe).take(line.len() as int) == line
        }),
{
    let texts = global_texts(probe.globals@);
    lemma_found_when_named(texts, layer_shell());
    let named = exists|i: int|
        0 <= i < probe.globals@.len() && (#[trigger] probe.globals@[i]).interface@ == "zwlr_layer_shell_v1"@;
    if named {
        let i = choose|i: int|
            0 <= i < probe.globals@.len() && (#[trigger] probe.globals@[i]).interface@ == "zwlr_layer_shell_v1"@;
        assert(texts[i].0 == layer_shell());
    }
    if first_version(texts, layer_shell()) is Some {
        let i = choose|i: int| 0 <= i < texts.len() && (#[trigger] texts[i]).0 == layer_shell();
        assert(probe.globals@[i].interface@ == "zwlr_layer_shell_v1"@);
    }
    let word = if named {
        "advertised (still unproven: no surface was created)"@
    } else {
        "not advertised"@
    };
    let listed = with_globals(out + "  advertised globals: "@ + decimal(probe.globals@.len()) + nl(), texts);
    let line = listed + "  zwlr_layer_shell_v1: "@ + word + nl();
    let layered = line + nl() + "outputs ("@ + decimal(probe.outputs@.len()) + ")"@ + nl();
    assert(layered == listed + "  zwlr_layer_shell_v1: "@ + word + nl() + nl() + "outputs ("@ + decimal(
        probe.outputs@.len(),
    ) + ")"@ + nl());
    lemma_outputs_extend(layered, probe.outputs@);
    let whole = with_probe(out, probe);
    assert(whole.take(layered.len() as int) == layered);
    assert(layered.take(line.len() as int) =~= line);
    assert(whole.take(line.len() as int) =~= whole.take(layered.len() as int).take(line.len() as int));
}

/// Listing outputs only adds to what came before.
proof fn lemma_outputs_extend(out: Seq<char>, outputs: Seq<OutputInfo>)
    ensures
        with_outputs(out, outputs).len() >= out.len(),
        with_outputs(out, outputs).take(out.len() as int) == out,
    decreases outputs.len(),
{
    if outputs.len() > 0 {
        let before = with_outputs(out, outputs.drop_last());
        lemma_outputs_extend(out, outputs.drop_last());
        lemma_output_extends(before, outputs.last(), (outputs.len() - 1) as nat);
        let after = with_outputs(out, outputs);
        assert(after.take(out.len() as int) =~= before.take(out.len() as int));
    }
}

/// One output's lines only add to what came before.
proof fn lemma_output_extends(out: Seq<char>, output: OutputInfo, index: nat)
    ensures
        with_output(out, output, index).len() >= out.len(),
        with_output(out, output, index).take(out.len() as int) == out,
{
    let after = with_output(out, output, index);
    let extra = after.skip(out.len() as int);
    assert(after.take(out.len() as int) =~= out) by {
        let named = out + "  ["@ + decimal(index) + "] "@ + or_text(opt_text(output.name), "<no name event>"@) + nl();
        assert(named.take(out.len() as int) =~= out);
    }
}

/// What the adapter section says.
pub open spec fn with_adapter(out: Seq<char>, adapter: Adapter) -> Seq<char> {
    match adapter {
        Adapter::Wayland(Ok(probe)) => with_probe(out, probe),
        Adapter::Wayland(Err(error)) => out + "  probe failed ["@ + error.class_name() + "]: "@ + error.sentence() + nl(),
        Adapter::Windows => out + "  the windows-layered backend is compiled in, and has never been run"@ + nl(),
        Adapter::Macos => out + "  the macos-appkit backend is compiled in, and has never been run"@ + nl(),
        Adapter::Missing => out + "  no wayland adapter is compiled into this build"@ + nl(),
    }
}

/// The findings the adapter section records.
pub open spec fn adapter_findings(adapter: Adapter) -> Seq<(Capability, StateView, Seq<char>)> {
    match adapter {
        Adapter::Wayland(Ok(probe)) => recorded(
            wayland_findings(probe.outputs@.len(), first_version(global_texts(probe.globals@), layer_shell())),
            11,
        ),
        Adapter::Wayland(Err(error)) => with_finding(
            Seq::empty(),
            (Capability::OutputEnumeration, StateView::Unknown("the wayland probe failed: "@ + error.sentence()), "wayland"@),
        ),
        Adapter::Windows => recorded(windows_findings(), 11),
        Adapter::Macos => recorded(macos_findings(), 11),
        Adapter::Missing => Seq::empty(),
    }
}

/// What the adapter section could not observe.
pub open spec fn adapter_gaps(adapter: Adapter) -> Seq<Seq<char>> {
    match adapter {
        Adapter::Wayland(Ok(_)) => Seq::empty(),
        Adapter::Wayland(Err(_)) => seq!["every wayland capability: the compositor connection failed, so nothing was observed"@],
        Adapter::Windows => seq!["every windows capability: the backend compiles but nobody has watched it"@],
        Adapter::Macos => seq!["every macos capability: the backend compiles but nobody has watched it"@],
        Adapter::Missing => seq!["every wayland capability: this binary was not built for Linux"@],
    }
}

/// What was deliberately or necessarily left unprobed, for a session.
pub open spec fn gaps(session: SessionView, adapter: Adapter) -> Seq<Seq<char>> {
    let first = match session {
        SessionView::Wayland(_) => adapter_gaps(adapter).push(
            "X11 and XWayland: not probed, because the native wayland socket answered first"@,
        ),
        SessionView::X11(_, _) => seq![
            "everything about X11: the socket answers, but no X11 adapter exists yet (T005). Compositor presence, EWMH stacking hints, and input shapes were not queried"@,
        ],
        SessionView::Unreachable(_) => seq!["every capability: no display server answered, so no adapter ran"@],
    };
    first.push(
        "the GlobalShortcuts portal: no D-Bus client dependency is chosen yet, so the interface was never queried (T012, FR-005)"@,
    ).push("Windows and macOS: this binary has never been built or run on them (T003, T004)"@).push(
        "capture and screen recording: deliberately never probed, because drawing must not depend on them (FR-014, FR-026)"@,
    )
}

/// A capability's name padded with spaces to at least 22 characters.
pub open spec fn with_padded_name(out: Seq<char>, name: Seq<char>) -> Seq<char> {
    if name.len() < 22 { out + name + spaces((22 - name.len()) as nat) } else { out + name }
}

/// Two lines per capability: its state, and the reason for it.
pub open spec fn with_capabilities(out: Seq<char>, findings: Seq<(Capability, StateView, Seq<char>)>, capabilities: Seq<Capability>) -> Seq<char>
    decreases capabilities.len(),
{
    if capabilities.len() == 0 {
        out
    } else {
        let capability = capabilities.last();
        let state = state_in(findings, capability);
        with_padded_name(with_capabilities(out, findings, capabilities.drop_last()) + "  "@, capability.name())
            + " "@ + state.label() + nl() + "  "@ + spaces(22) + "   because: "@ + state.detail() + nl()
    }
}

/// One line per item not probed.
pub open spec fn with_gaps(out: Seq<char>, items: Seq<Seq<char>>) -> Seq<char>
    decreases items.len(),
{
    if items.len() == 0 {
        out
    } else {
        with_gaps(out, items.drop_last()) + "  - "@ + items.last() + nl()
    }
}

/// The value of a variable, if it is set.
pub open spec fn variable(env: Map<Seq<char>, Seq<char>>, name: Seq<char>) -> Option<Seq<char>> {
    if env.dom().contains(name) { Some(env[name]) } else { None }
}

/// The whole report.
pub open spec fn report_text(
    version: Seq<char>,
    os: Seq<char>,
    env: Map<Seq<char>, Seq<char>>,
    session: SessionView,
    adapter: Adapter,
) -> Seq<char> {
    let wayland = session is Wayland;
    let introduced = with_session(
        with_header(Seq::empty(), version, os),
        session,
        variable(env, "XDG_SESSION_TYPE"@),
        variable(env, "XDG_CURRENT_DESKTOP"@),
    );
    let probed = if wayland { with_adapter(introduced + "wayland protocol"@ + nl(), adapter) } else { introduced };
    let findings = if wayland { adapter_findings(adapter) } else { Seq::empty() };
    let listed = with_capabilities(probed + nl() + "capabilities"@ + nl(), findings, every_capability());
    with_gaps(listed + nl() + "not probed"@ + nl(), gaps(session, adapter)) + nl()
        + "No overlay surface, input region, shortcut, or pass-through behaviour has been"@ + nl()
        + "demonstrated by this report. Every capability above is a runtime observation, which"@ + nl()
        + "is not release certification: see platform-matrix.md for what evidence requires."@ + nl()
}

/// Whatever answered, the report lists what it did not probe: at least the
/// three things no build probes.
pub proof fn law_the_report_always_says_what_it_skipped(session: SessionView, adapter: Adapter)
    ensures
        gaps(session, adapter).len() >= 3,
{
}

/// Appends `text` and a line break.
fn push_line(out: &mut String, text: &str)
    ensures
        final(out)@ == old(out)@ + text@ + nl(),
{
    out.append(text);
    out.append("\n");
}

/// Appends a line break.
fn push_newline(out: &mut String)
    ensures
        final(out)@ == old(out)@ + nl(),
{
    out.append("\n");
}

/// Appends `count` spaces.
fn push_spaces(out: &mut String, count: usize)
    ensures
        final(out)@ == old(out)@ + spaces(count as nat),
{
    proof {
        reveal_strlit(" ");
    }
    let ghost start = out@;
    let mut i: usize = 0;
    while i < count
        invariant
            i <= count,
            out@ == start + spaces(i as nat),
        decreases count - i,
    {
        out.append(" ");
        proof {
            reveal_strlit(" ");
        }
        assert(start + spaces((i + 1) as nat) =~= start + spaces(i as nat) + " "@);
        i = i + 1;
    }
}

/// Appends the session section.
fn push_session(out: &mut String, session: &SessionKind, env: &EnvSnapshot)
    ensures
        final(out)@ == with_session(
            old(out)@,
            session@,
            variable(env@, "XDG_SESSION_TYPE"@),
            variable(env@, "XDG_CURRENT_DESKTOP"@),
        ),
{
    push_line(out, "session");
    out.append("  reachable backend: ");
    push_line(out, session.backend_name());
    let ghost before_detail = out@;
    match session {
        SessionKind::Wayland { socket } => {
            out.append("  wayland socket:    ");
            out.append(socket.as_str());
            push_line(out, " (connected)");
        },
        SessionKind::X11 { display, socket } => {
            out.append("  x11 display:       ");
            out.append(display.as_str());
            out.append(" via ");
            push_line(out, socket.as_str());
        },
        SessionKind::Unreachable { reasons } => {
            let ghost texts = reasons@.map_values(|r: String| r@);
            let n = reasons.len();
            let mut i: usize = 0;
            while i < n
                invariant
                    n == reasons@.len(),
                    texts == reasons@.map_values(|r: String| r@),
                    i <= n,
                    out@ == with_reasons(before_detail, texts.take(i as int)),
                decreases n - i,
            {
                out.append("  no session:        ");
                push_line(out, reasons[i].as_str());
                assert(texts.take(i + 1).drop_last() =~= texts.take(i as int));
                i = i + 1;
            }
            assert(texts.take(n as int) =~= texts);
        },
    }
    let claimed = env.claimed_session_type();
    let desktop = env.reported_desktop();
    out.append("  claims to be:      XDG_SESSION_TYPE=");
    out.append(match claimed {
        Some(text) => text,
        None => "<unset>",
    });
    out.append(", XDG_CURRENT_DESKTOP=");
    push_line(out, match desktop {
        Some(text) => text,
        None => "<unset>",
    });
    push_line(out, "  note:              these two strings are context only. Nothing above or below was");
    push_line(out, "                     decided from them; the backend is whatever answered a connection.");
    push_newline(out);
}

/// Appends what the report says of one output.
fn push_output(out: &mut String, output: &OutputInfo, index: usize)
    ensures
        final(out)@ == with_output(old(out)@, *output, index as nat),
{
    out.append("  [");
    push_decimal(out, index as u64);
    out.append("] ");
    push_line(out, match &output.name {
        Some(name) => name.as_str(),
        None => "<no name event>",
    });
    if let Some(description) = &output.description {
        out.append("      description: ");
        push_line(out, description.as_str());
    }
    match output.resolution {
        Some((width, height)) => {
            out.append("      current mode: ");
            push_signed(out, width as i64);
            out.append("x");
            push_signed(out, height as i64);
            out.append(" px @ ");
            match output.refresh_mhz {
                Some(refresh) => {
                    push_thousandths(out, refresh);
                    push_line(out, " Hz");
                },
                None => {
                    push_line(out, "<no refresh>");
                },
            }
        },
        None => {
            push_line(out, "      current mode: <not reported>");
        },
    }
    out.append("      integer scale: ");
    match output.scale {
        Some(scale) => push_signed(out, scale as i64),
        None => out.append("<not reported>"),
    }
    out.append("   transform: ");
    push_line(out, match &output.transform {
        Some(transform) => transform.as_str(),
        None => "<not reported>",
    });
}

/// Appends the Wayland protocol section for a probe that ran.
fn push_probe(out: &mut String, probe: &WaylandProbe)
    ensures
        final(out)@ == with_probe(old(out)@, *probe),
{
    let ghost globals = global_texts(probe.globals@);
    out.append("  advertised globals: ");
    push_decimal(out, probe.globals.len() as u64);
    push_newline(out);
    let ghost before_globals = out@;
    let n = probe.globals.len();
    let mut i: usize = 0;
    while i < n
        invariant
            n == probe.globals@.len(),
            globals == global_texts(probe.globals@),
            i <= n,
            out@ == with_globals(before_globals, globals.take(i as int)),
        decreases n - i,
    {
        let global = &probe.globals[i];
        assert(globals[i as int] == (global.interface@, global.version));
        out.append("    ");
        out.append(global.interface.as_str());
        out.append(" v");
        push_decimal(out, global.version as u64);
        push_newline(out);
        assert(globals.take(i + 1).drop_last() =~= globals.take(i as int));
        i = i + 1;
    }
    assert(globals.take(n as int) =~= globals);
    out.append("  zwlr_layer_shell_v1: ");
    if probe.advertises_layer_shell() {
        out.append("advertised (still unproven: no surface was created)");
    } else {
        out.append("not advertised");
    }
    push_newline(out);
    push_newline(out);
    out.append("outputs (");
    push_decimal(out, probe.outputs.len() as u64);
    push_line(out, ")");
    let ghost before_outputs = out@;
    let m = probe.outputs.len();
    let mut j: usize = 0;
    while j < m
        invariant
            m == probe.outputs@.len(),
            j <= m,
            out@ == with_outputs(before_outputs, probe.outputs@.take(j as int)),
        decreases m - j,
    {
        push_output(out, &probe.outputs[j], j);
        assert(probe.outputs@.take(j + 1).drop_last() =~= probe.outputs@.take(j as int));
        j = j + 1;
    }
    assert(probe.outputs@.take(m as int) =~= probe.outputs@);
    push_line(out, "  note: integer scale only. Fractional scaling is negotiated per surface,");
    push_line(out, "        so the effective scale is not established here (FR-012, T018).");
}

/// Appends the adapter section, and gives back the findings it records
/// and what it could not observe.
fn push_adapter(out: &mut String, adapter: &Adapter) -> (result: (CapabilityReport, Vec<String>))
    ensures
        final(out)@ == with_adapter(old(out)@, *adapter),
        result.0@ == adapter_findings(*adapter),
        result.1@.map_values(|g: String| g@) == adapter_gaps(*adapter),
{
    let mut gaps: Vec<String> = Vec::new();
    let report = match adapter {
        Adapter::Wayland(Ok(probe)) => {
            push_probe(out, probe);
            wayland_platform::capabilities(probe)
        },
        Adapter::Wayland(Err(error)) => {
            out.append("  probe failed [");
            out.append(error.class());
            out.append("]: ");
            let sentence = error.message();
            push_line(out, sentence.as_str());
            let mut reason = String::from_str("the wayland probe failed: ");
            reason.append(sentence.as_str());
            let mut report = CapabilityReport::new();
            report.record(CapabilityFinding::new(
                Capability::OutputEnumeration,
                CapabilityState::unknown(reason.as_str()),
                "wayland",
            ));
            gaps.push(String::from_str("every wayland capability: the compositor connection failed, so nothing was observed"));
            report
        },
        Adapter::Windows => {
            push_line(out, "  the windows-layered backend is compiled in, and has never been run");
            gaps.push(String::from_str("every windows capability: the backend compiles but nobody has watched it"));
            windows_platform::capabilities()
        },
        Adapter::Macos => {
            push_line(out, "  the macos-appkit backend is compiled in, and has never been run");
            gaps.push(String::from_str("every macos capability: the backend compiles but nobody has watched it"));
            macos_platform::capabilities()
        },
        Adapter::Missing => {
            push_line(out, "  no wayland adapter is compiled into this build");
            gaps.push(String::from_str("every wayland capability: this binary was not built for Linux"));
            CapabilityReport::new()
        },
    };
    assert(gaps@.map_values(|g: String| g@) =~= adapter_gaps(*adapter));
    (report, gaps)
}

/// Appends two lines per capability of `capabilities`: its state in
/// `report`, and the reason.
fn push_capabilities(out: &mut String, report: &CapabilityReport, capabilities: &[Capability])
    ensures
        final(out)@ == with_capabilities(old(out)@, report@, capabilities@),
{
    let ghost start = out@;
    let n = capabilities.len();
    let mut i: usize = 0;
    while i < n
        invariant
            n == capabilities@.len(),
            i <= n,
            out@ == with_capabilities(start, report@, capabilities@.take(i as int)),
        decreases n - i,
    {
        let capability = capabilities[i];
        let state = report.state_of(capability);
        let name = capability.as_str();
        out.append("  ");
        out.append(name);
        let length = name.unicode_len();
        if length < 22 {
            push_spaces(out, 22 - length);
        }
        out.append(" ");
        push_line(out, state.label());
        out.append("  ");
        push_spaces(out, 22);
        out.append("   because: ");
        push_line(out, state.detail());
        assert(capabilities@.take(i + 1).drop_last() =~= capabilities@.take(i as int));
        i = i + 1;
    }
    assert(capabilities@.take(n as int) =~= capabilities@);
}

/// Appends one line per item not probed.
fn push_gaps(out: &mut String, items: &Vec<String>)
    ensures
        final(out)@ == with_gaps(old(out)@, items@.map_values(|g: String| g@)),
{
    let ghost start = out@;
    let ghost texts = items@.map_values(|g: String| g@);
    let n = items.len();
    let mut i: usize = 0;
    while i < n
        invariant
            n == items@.len(),
            texts == items@.map_values(|g: String| g@),
            i <= n,
            out@ == with_gaps(start, texts.take(i as int)),
        decreases n - i,
    {
        out.append("  - ");
        push_line(out, items[i].as_str());
        assert(texts.take(i + 1).drop_last() =~= texts.take(i as int));
        i = i + 1;
    }
    assert(texts.take(n as int) =~= texts);
}

/// Renders the report from what the probes observed: the program's version
/// and target, the environment, the session that answered, and the adapter
/// this build links.
pub fn report(version: &str, os: &str, env: &EnvSnapshot, session: &SessionKind, adapter: &Adapter) -> (text: String)
    ensures
        text@ == report_text(version@, os@, env@, session@, *adapter),
{
    let mut out = String::new();
    out.append("yappyink doctor ");
    push_line(&mut out, version);
    out.append("build target: ");
    push_line(&mut out, os);
    push_newline(&mut out);
    assert(out@ == with_header(Seq::empty(), version@, os@)) by {
        assert(Seq::<char>::empty() + "yappyink doctor "@ =~= "yappyink doctor "@);
    }
    push_session(&mut out, session, env);
    let wayland = match session {
        SessionKind::Wayland { .. } => true,
        _ => false,
    };
    let mut gaps: Vec<String> = Vec::new();
    let findings = if wayland {
        push_line(&mut out, "wayland protocol");
        let (findings, adapter_gaps) = push_adapter(&mut out, adapter);
        gaps = adapter_gaps;
        gaps.push(String::from_str("X11 and XWayland: not probed, because the native wayland socket answered first"));
        findings
    } else {
        match session {
            SessionKind::X11 { .. } => gaps.push(String::from_str(
                "everything about X11: the socket answers, but no X11 adapter exists yet (T005). Compositor presence, EWMH stacking hints, and input shapes were not queried",
            )),
            _ => gaps.push(String::from_str("every capability: no display server answered, so no adapter ran")),
        }
        CapabilityReport::new()
    };
    gaps.push(String::from_str(
        "the GlobalShortcuts portal: no D-Bus client dependency is chosen yet, so the interface was never queried (T012, FR-005)",
    ));
    gaps.push(String::from_str("Windows and macOS: this binary has never been built or run on them (T003, T004)"));
    gaps.push(String::from_str(
        "capture and screen recording: deliberately never probed, because drawing must not depend on them (FR-014, FR-026)",
    ));
    assert(gaps@.map_values(|g: String| g@) =~= crate::doctor::gaps(session@, *adapter));
    push_newline(&mut out);
    push_line(&mut out, "capabilities");
    let all = all_capabilities();
    push_capabilities(&mut out, &findings, &all);
    push_newline(&mut out);
    push_line(&mut out, "not probed");
    push_gaps(&mut out, &gaps);
    push_newline(&mut out);
    push_line(&mut out, "No overlay surface, input region, shortcut, or pass-through behaviour has been");
    push_line(&mut out, "demonstrated by this report. Every capability above is a runtime observation, which");
    push_line(&mut out, "is not release certification: see platform-matrix.md for what evidence requires.");
    out
}

} // verus!
