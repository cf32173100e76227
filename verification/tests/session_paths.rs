use yappyink::display_server::{wayland_socket_path, x11_socket_path, EnvSnapshot};

#[test]
fn relative_wayland_display_resolves_against_the_runtime_dir() {
    let env = EnvSnapshot::from_pairs(&[
        ("WAYLAND_DISPLAY", "wayland-0"),
        ("XDG_RUNTIME_DIR", "/run/user/1001"),
    ]);
    assert_eq!(wayland_socket_path(&env).unwrap(), "/run/user/1001/wayland-0");
}

#[test]
fn absolute_wayland_display_is_used_as_is() {
    let env = EnvSnapshot::from_pairs(&[("WAYLAND_DISPLAY", "/custom/wl.sock")]);
    assert_eq!(wayland_socket_path(&env).unwrap(), "/custom/wl.sock");
}

#[test]
fn x11_display_number_is_taken_from_before_the_screen() {
    let env = EnvSnapshot::from_pairs(&[("DISPLAY", ":1.0")]);
    let (display, path) = x11_socket_path(&env).unwrap();
    assert_eq!(display, ":1.0");
    assert_eq!(path, "/tmp/.X11-unix/X1");
}

#[test]
fn remote_x11_display_is_refused_rather_than_guessed() {
    let env = EnvSnapshot::from_pairs(&[("DISPLAY", "host:0")]);
    assert!(x11_socket_path(&env).is_err());
}

#[test]
fn every_refusal_names_its_cause() {
    let inherited = EnvSnapshot::from_pairs(&[("WAYLAND_SOCKET", "5"), ("WAYLAND_DISPLAY", "wayland-0")]);
    assert_eq!(
        wayland_socket_path(&inherited),
        Err("WAYLAND_SOCKET is set, so the display is an inherited fd this probe cannot reopen".to_owned())
    );
    let empty = EnvSnapshot::from_pairs(&[("WAYLAND_DISPLAY", "")]);
    assert_eq!(wayland_socket_path(&empty), Err("WAYLAND_DISPLAY is empty".to_owned()));
    let relative = EnvSnapshot::from_pairs(&[("WAYLAND_DISPLAY", "wayland-1")]);
    assert_eq!(
        wayland_socket_path(&relative),
        Err("WAYLAND_DISPLAY is the relative name \"wayland-1\" but XDG_RUNTIME_DIR is not set".to_owned())
    );
    let remote = EnvSnapshot::from_pairs(&[("DISPLAY", "host:0")]);
    assert_eq!(
        x11_socket_path(&remote),
        Err("DISPLAY \"host:0\" is not a local display; this probe does not open TCP sockets".to_owned())
    );
    let screenless = EnvSnapshot::from_pairs(&[("DISPLAY", ":.0")]);
    assert_eq!(
        x11_socket_path(&screenless),
        Err("DISPLAY \":.0\" has no usable display number".to_owned())
    );
    let lettered = EnvSnapshot::from_pairs(&[("DISPLAY", ":a")]);
    assert!(x11_socket_path(&lettered).is_err());
    assert_eq!(x11_socket_path(&EnvSnapshot::default()), Err("DISPLAY is not set".to_owned()));
}

#[test]
fn a_runtime_dir_with_a_trailing_slash_gets_no_second_one() {
    let env = EnvSnapshot::from_pairs(&[("WAYLAND_DISPLAY", "wayland-0"), ("XDG_RUNTIME_DIR", "/run/user/5/")]);
    assert_eq!(wayland_socket_path(&env).unwrap(), "/run/user/5/wayland-0");
    let two_digit = EnvSnapshot::from_pairs(&[("DISPLAY", ":12")]);
    assert_eq!(x11_socket_path(&two_digit).unwrap().1, "/tmp/.X11-unix/X12");
}
