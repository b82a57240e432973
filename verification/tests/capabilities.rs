use orbiscreen::capabilities::{Capabilities, CaptureStep, Compositor, SessionType};

fn caps(vars: &[(&str, &str)]) -> Capabilities {
    let pairs: Vec<(String, String)> = vars
        .iter()
        .map(|(k, v)| ((*k).to_string(), (*v).to_string()))
        .collect();
    Capabilities::from_lookup(&pairs)
}

#[test]
fn kde_wayland_is_detected() {
    let c = caps(&[
        ("XDG_SESSION_TYPE", "wayland"),
        ("WAYLAND_DISPLAY", "wayland-0"),
        ("XDG_CURRENT_DESKTOP", "KDE"),
    ]);
    assert_eq!(c.session, SessionType::Wayland);
    assert_eq!(c.compositor, Compositor::Kde);
}

#[test]
fn kde_via_full_session_flag() {
    let c = caps(&[
        ("XDG_SESSION_TYPE", "wayland"),
        ("KDE_FULL_SESSION", "true"),
    ]);
    assert_eq!(c.compositor, Compositor::Kde);
}

#[test]
fn gnome_wayland_is_detected() {
    let c = caps(&[
        ("XDG_SESSION_TYPE", "wayland"),
        ("XDG_CURRENT_DESKTOP", "ubuntu:GNOME"),
    ]);
    assert_eq!(c.session, SessionType::Wayland);
    assert_eq!(c.compositor, Compositor::Gnome);
}

#[test]
fn cosmic_wayland_is_detected() {
    let c = caps(&[
        ("XDG_SESSION_TYPE", "wayland"),
        ("WAYLAND_DISPLAY", "wayland-0"),
        ("XDG_CURRENT_DESKTOP", "COSMIC"),
    ]);
    assert_eq!(c.session, SessionType::Wayland);
    assert_eq!(c.compositor, Compositor::Cosmic);
    assert!(!c.is_wlroots());
}

#[test]
fn cosmic_pop_is_detected() {
    let c = caps(&[
        ("XDG_SESSION_TYPE", "wayland"),
        ("XDG_CURRENT_DESKTOP", "COSMIC:Pop"),
    ]);
    assert_eq!(c.compositor, Compositor::Cosmic);
    assert!(!c.is_wlroots());
}

#[test]
fn cosmic_via_session_desktop() {
    let c = caps(&[
        ("XDG_SESSION_TYPE", "wayland"),
        ("XDG_SESSION_DESKTOP", "cosmic"),
    ]);
    assert_eq!(c.compositor, Compositor::Cosmic);
}

#[test]
fn cosmic_via_data_control() {
    let c = caps(&[
        ("XDG_SESSION_TYPE", "wayland"),
        ("COSMIC_DATA_CONTROL", "1"),
    ]);
    assert_eq!(c.compositor, Compositor::Cosmic);
}

#[test]
fn hyprland_wins_over_desktop_tokens() {
    let c = caps(&[
        ("XDG_SESSION_TYPE", "wayland"),
        ("HYPRLAND_INSTANCE_SIGNATURE", "abc123"),
        ("XDG_CURRENT_DESKTOP", "Hyprland"),
    ]);
    assert_eq!(c.compositor, Compositor::Hyprland);
    assert!(c.is_wlroots());
}

#[test]
fn sway_is_detected_from_socket() {
    let c = caps(&[
        ("XDG_SESSION_TYPE", "wayland"),
        ("SWAYSOCK", "/run/user/1000/sway-ipc.sock"),
    ]);
    assert_eq!(c.compositor, Compositor::Sway);
    assert!(c.is_wlroots());
}

#[test]
fn labwc_and_river_are_wlroots() {
    let labwc = caps(&[
        ("XDG_SESSION_TYPE", "wayland"),
        ("XDG_CURRENT_DESKTOP", "Labwc"),
    ]);
    assert_eq!(labwc.compositor, Compositor::Labwc);
    assert!(labwc.is_wlroots());
    let river = caps(&[
        ("XDG_SESSION_TYPE", "wayland"),
        ("XDG_CURRENT_DESKTOP", "river"),
    ]);
    assert_eq!(river.compositor, Compositor::River);
    assert!(river.is_wlroots());
}

#[test]
fn x11_session_is_detected_with_or_without_xdg_type() {
    let with_type = caps(&[("XDG_SESSION_TYPE", "x11"), ("XDG_CURRENT_DESKTOP", "XFCE")]);
    assert_eq!(with_type.session, SessionType::X11);
    assert_eq!(with_type.compositor, Compositor::X11);
    let with_display_only = caps(&[("DISPLAY", ":0")]);
    assert_eq!(with_display_only.session, SessionType::X11);
}

#[test]
fn wayland_display_alone_implies_wayland() {
    let c = caps(&[("WAYLAND_DISPLAY", "wayland-1")]);
    assert_eq!(c.session, SessionType::Wayland);
    assert_eq!(c.compositor, Compositor::OtherWayland);
}

#[test]
fn empty_env_is_unknown() {
    let c = caps(&[]);
    assert_eq!(c.session, SessionType::Unknown);
    assert_eq!(c.compositor, Compositor::Unknown);
}

#[test]
fn kde_chain_prefers_native_virtual_first() {
    let c = caps(&[
        ("XDG_SESSION_TYPE", "wayland"),
        ("XDG_CURRENT_DESKTOP", "KDE"),
    ]);
    assert_eq!(
        c.auto_chain(),
        vec![CaptureStep::KwinVirtual, CaptureStep::Portal]
    );
}

#[test]
fn gnome_chain_uses_portal_only() {
    let c = caps(&[
        ("XDG_SESSION_TYPE", "wayland"),
        ("XDG_CURRENT_DESKTOP", "GNOME"),
    ]);
    assert_eq!(c.auto_chain(), vec![CaptureStep::Portal]);
}

#[test]
fn cosmic_chain_prefers_evdi_then_portal() {
    let c = caps(&[
        ("XDG_SESSION_TYPE", "wayland"),
        ("XDG_CURRENT_DESKTOP", "COSMIC"),
    ]);
    assert_eq!(c.auto_chain(), vec![CaptureStep::Evdi, CaptureStep::Portal]);
}

#[test]
fn wlroots_chain_prefers_virtual_output_then_screencopy() {
    let expected = vec![
        CaptureStep::WlrootsVirtual,
        CaptureStep::WlrScreencopy,
        CaptureStep::Portal,
        CaptureStep::Evdi,
    ];
    let sway = caps(&[
        ("XDG_SESSION_TYPE", "wayland"),
        ("SWAYSOCK", "/run/sway.sock"),
    ]);
    assert!(sway.is_wlroots());
    assert_eq!(sway.auto_chain(), expected);
    let hyprland = caps(&[
        ("XDG_SESSION_TYPE", "wayland"),
        ("HYPRLAND_INSTANCE_SIGNATURE", "instance"),
    ]);
    assert!(hyprland.is_wlroots());
    assert_eq!(hyprland.auto_chain(), expected);
}

#[test]
fn x11_chain_tries_evdi_before_root_capture() {
    let c = caps(&[("XDG_SESSION_TYPE", "x11"), ("XDG_CURRENT_DESKTOP", "MATE")]);
    assert_eq!(
        c.auto_chain(),
        vec![CaptureStep::Evdi, CaptureStep::X11Root]
    );
}

#[test]
fn capture_step_display_names_are_stable() {
    assert_eq!(CaptureStep::KwinVirtual.to_string(), "kwin-virtual");
    assert_eq!(CaptureStep::WlrootsVirtual.to_string(), "wlroots-virtual");
    assert_eq!(CaptureStep::WlrScreencopy.to_string(), "wlr-screencopy");
    assert_eq!(CaptureStep::Portal.to_string(), "portal");
    assert_eq!(CaptureStep::Evdi.to_string(), "evdi");
    assert_eq!(CaptureStep::X11Root.to_string(), "x11-root");
}

#[test]
fn cosmic_display_name_is_expected() {
    assert_eq!(Compositor::Cosmic.to_string(), "COSMIC (cosmic-comp)");
}
