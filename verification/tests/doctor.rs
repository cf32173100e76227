use yappyink::capability::Capability;
use yappyink::display_server::{EnvSnapshot, SessionKind};
use yappyink::doctor::{all_capabilities, report, Adapter};
use yappyink::output::OutputInfo;
use yappyink::platform_error::PlatformError;
use yappyink::wayland::platform::{AdvertisedGlobal, WaylandProbe};

fn unreachable() -> SessionKind {
    SessionKind::Unreachable {
        reasons: vec!["wayland: WAYLAND_DISPLAY is not set".to_owned(), "x11: DISPLAY is not set".to_owned()],
    }
}

#[test]
fn a_report_is_always_produced_and_always_lists_what_it_skipped() {
    let text = report("0.9.0", "linux", &EnvSnapshot::default(), &unreachable(), &Adapter::Missing);
    assert!(text.contains("session"));
    assert!(text.contains("not probed"));
    for capability in all_capabilities() {
        assert!(text.contains(capability.as_str()), "{capability:?} is missing from the report");
    }
    assert!(text.starts_with("yappyink doctor 0.9.0\nbuild target: linux\n\nsession\n  reachable backend: none\n"));
    assert!(text.contains("  no session:        x11: DISPLAY is not set\n"));
    assert!(text.contains("  - every capability: no display server answered, so no adapter ran\n"));
    assert!(text.contains("XDG_SESSION_TYPE=<unset>, XDG_CURRENT_DESKTOP=<unset>\n"));
}

#[test]
fn every_capability_line_carries_its_reason() {
    let text = report("0.9.0", "linux", &EnvSnapshot::default(), &unreachable(), &Adapter::Missing);
    assert_eq!(text.matches("because:").count(), all_capabilities().len());
    assert!(text.contains(
        "  live_overlay           unknown\n                           because: no adapter reported on this capability\n"
    ));
}

#[test]
fn a_wayland_session_reports_what_the_probe_saw() {
    let env = EnvSnapshot::from_pairs(&[("XDG_SESSION_TYPE", "wayland"), ("XDG_CURRENT_DESKTOP", "GNOME")]);
    let session = SessionKind::Wayland { socket: "/run/user/1000/wayland-0".to_owned() };
    let probe = WaylandProbe {
        globals: vec![
            AdvertisedGlobal { interface: "wl_output".to_owned(), version: 4 },
            AdvertisedGlobal { interface: "zwlr_layer_shell_v1".to_owned(), version: 4 },
        ],
        outputs: vec![OutputInfo {
            name: Some("eDP-1".to_owned()),
            description: None,
            resolution: Some((1366, 768)),
            refresh_mhz: Some(59951),
            scale: Some(1),
            transform: Some("Normal".to_owned()),
        }],
    };
    let text = report("0.9.0", "linux", &env, &session, &Adapter::Wayland(Ok(probe)));
    assert!(text.contains("  wayland socket:    /run/user/1000/wayland-0 (connected)\n"));
    assert!(text.contains("XDG_SESSION_TYPE=wayland, XDG_CURRENT_DESKTOP=GNOME\n"));
    assert!(text.contains("wayland protocol\n  advertised globals: 2\n    wl_output v4\n    zwlr_layer_shell_v1 v4\n"));
    assert!(text.contains("  zwlr_layer_shell_v1: advertised (still unproven: no surface was created)\n"));
    assert!(text.contains("outputs (1)\n  [0] eDP-1\n      current mode: 1366x768 px @ 59.951 Hz\n"));
    assert!(text.contains("      integer scale: 1   transform: Normal\n"));
    assert!(text.contains("  output_enumeration     available\n"));
    assert!(text.contains("  - X11 and XWayland: not probed, because the native wayland socket answered first\n"));
    assert_eq!(text.matches("because:").count(), 11);
}

#[test]
fn a_failed_probe_is_reported_with_its_class() {
    let session = SessionKind::Wayland { socket: "/w".to_owned() };
    let failed = Adapter::Wayland(Err(PlatformError::disconnected("could not connect to the compositor: refused")));
    let text = report("1", "linux", &EnvSnapshot::default(), &session, &failed);
    assert!(text.contains(
        "  probe failed [disconnected]: the connection was lost: could not connect to the compositor: refused\n"
    ));
    assert!(text.contains("because: the wayland probe failed: the connection was lost: could not connect"));
    assert!(text.contains("  - every wayland capability: the compositor connection failed, so nothing was observed\n"));
}

#[test]
fn refresh_rates_print_with_three_places_as_floats_would() {
    let session = SessionKind::Wayland { socket: "/w".to_owned() };
    for refresh in [0, 1, 999, 1000, 60000, 59951, -500, -1500, i32::MAX, i32::MIN] {
        let probe = WaylandProbe {
            globals: vec![],
            outputs: vec![OutputInfo {
                resolution: Some((-1, 2)),
                refresh_mhz: Some(refresh),
                ..OutputInfo::default()
            }],
        };
        let text = report("1", "linux", &EnvSnapshot::default(), &session, &Adapter::Wayland(Ok(probe)));
        let expected = format!("      current mode: -1x2 px @ {:.3} Hz\n", f64::from(refresh) / 1000.0);
        assert!(text.contains(&expected), "{refresh}: {text}");
        assert!(text.contains("  [0] <no name event>\n"));
        assert!(text.contains("      integer scale: <not reported>   transform: <not reported>\n"));
    }
}

#[test]
fn an_x11_session_is_not_probed_further() {
    let session = SessionKind::X11 { display: ":0".to_owned(), socket: "/tmp/.X11-unix/X0".to_owned() };
    let text = report("1", "linux", &EnvSnapshot::default(), &session, &Adapter::Missing);
    assert!(text.contains("  x11 display:       :0 via /tmp/.X11-unix/X0\n"));
    assert!(!text.contains("wayland protocol"));
    assert!(text.contains("  - everything about X11"));
    assert_eq!(
        text.matches("because: no adapter reported on this capability").count(),
        11
    );
    let _ = Capability::Capture;
}
