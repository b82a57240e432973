use orbiscreen::capabilities::{Compositor, SessionType};
use orbiscreen::gui::{
    completed_status, local_ips_or_loopback, offline_status, panel_view, AutostartAction,
    DaemonClient, DaemonStatus, PanelStatus,
};
use orbiscreen::ui::{
    badge_err, badge_ok, card_lines, colors_enabled, devices_line, environment_text,
    format_backend_name, format_encoder_name, stream_url, DevicesLine,
};

#[test]
fn colour_follows_the_terminal() {
    assert!(colors_enabled(false, Some("xterm-256color"), true));
    assert!(!colors_enabled(true, Some("xterm"), true));
    assert!(!colors_enabled(false, Some("dumb"), true));
    assert!(!colors_enabled(false, None, false));
    assert_eq!(badge_err(false), "[FAIL]");
    assert!(badge_ok(true).contains('\x1b'));
}

#[test]
fn encoder_and_backend_names_ignore_case() {
    assert_eq!(format_encoder_name("NVENC"), "NVENC");
    assert_eq!(format_encoder_name("VaApi"), "VA-API");
    assert_eq!(format_encoder_name("x264"), "Software");
    assert_eq!(format_encoder_name("av1"), "Hardware");
    assert_eq!(format_backend_name("KWin"), "KWin Virtual");
    assert_eq!(format_backend_name("Portal"), "XDG Portal");
    assert_eq!(format_backend_name("evdi"), "Virtual");
}

#[test]
fn stream_url_and_environment() {
    assert_eq!(stream_url(Some("192.168.1.5"), 8788, "abc"), "http://192.168.1.5:8788/?token=abc");
    assert_eq!(stream_url(None, 80, "t"), "http://localhost:80/?token=t");
    assert_eq!(environment_text(Compositor::Unknown, SessionType::Unknown), "Linux Session");
    assert_eq!(environment_text(Compositor::Kde, SessionType::Wayland), "KDE Plasma (wayland)");
    assert_eq!(devices_line(2, 5), DevicesLine::Usb(2));
    assert_eq!(devices_line(0, 5), DevicesLine::Clients(5));
    assert_eq!(devices_line(0, 0), DevicesLine::Waiting);
}

#[test]
fn plain_card_is_ruled_and_padded() {
    let rows = vec![("Port".to_string(), "8788".to_string())];
    let lines = card_lines("Status", &rows, false);
    assert_eq!(lines.len(), 3);
    assert!(lines[0].starts_with("+-- Status "));
    assert_eq!(lines[0].chars().count(), 72);
    assert_eq!(lines[1], format!("|  {:<18} 8788", "Port"));
    assert!(lines[2].starts_with("+---"));
}

#[test]
fn offline_daemon_reports_defaults() {
    let s = offline_status(true, local_ips_or_loopback(None));
    assert!(s.running);
    assert_eq!(s.local_ips, vec!["127.0.0.1".to_string()]);
    assert_eq!(s.encoder, "Unknown");
    assert_eq!(s.signaling_port, 8788);
    let mut d = DaemonStatus::default();
    d.signaling_port = u16::MAX;
    let c = completed_status(d, vec!["10.0.0.2".to_string()]);
    assert_eq!(c.udp_port, u16::MAX);
    assert_eq!(c.local_ips, vec!["10.0.0.2".to_string()]);
}

#[test]
fn autostart_entry_path_and_actions() {
    assert_eq!(
        DaemonClient::autostart_file_path(Some("/home/u")),
        "/home/u/.config/autostart/orbiscreen.desktop"
    );
    assert_eq!(DaemonClient::autostart_file_path(None), "/tmp/.config/autostart/orbiscreen.desktop");
    assert_eq!(DaemonClient::set_autostart(true, true), AutostartAction::Write);
    assert_eq!(DaemonClient::set_autostart(false, true), AutostartAction::Remove);
    assert_eq!(DaemonClient::set_autostart(false, false), AutostartAction::Nothing);
    assert!(DaemonClient::is_autostart_enabled(true));
}

#[test]
fn panel_reads_the_daemon_status() {
    let json = r#"{"running": true, "frames_forwarded": 42, "active_clients": 1, "total_clients": 3, "encoder": "x264"}"#;
    let st = PanelStatus::parse(json).expect("status");
    assert!(st.available && st.running);
    assert_eq!((st.frames_forwarded, st.active_clients, st.total_clients), (42, 1, 3));
    assert_eq!(st.encoder, "x264");
    assert_eq!(st.capture_backend, "?");
    let view = panel_view(&st, false);
    assert_eq!(view.stream_row, "encoder: x264 · source: ? · frames forwarded: 42");
    assert_eq!(view.transport_row, "connected clients: 1 active / 3 total");
    assert_eq!(view.switch_state, Some(true));
    assert!(PanelStatus::parse("{}").is_none());
    assert!(PanelStatus::parse("not json").is_none());
    let busy = panel_view(&st, true);
    assert_eq!(busy.switch_state, None);
}

#[test]
fn plain_status_dashboard() {
    let lines = orbiscreen::ui::dashboard_lines(
        true, 1920, 1080, 60, "nvenc", "kwin-virtual", 8788, 1, 2, "tok", Some("10.0.0.5"), false,
    );
    assert_eq!(lines.len(), 9);
    assert_eq!(lines[1], "[Daemon is active & streaming]");
    assert!(lines[3].starts_with("+-- Status ---"));
    assert_eq!(lines[4], "|  Display   1920x1080 @ 60Hz  · NVENC · KWin Virtual");
    assert_eq!(lines[5], "|  Devices   3 device(s) connected");
    assert_eq!(lines[6], "|  Stream    http://10.0.0.5:8788/?token=tok");
    let coloured = orbiscreen::ui::dashboard_lines(
        false, 1280, 720, 30, "x264", "portal", 1, 0, 0, "t", None, true,
    );
    assert!(coloured[1].contains("Daemon is stopped"));
    assert!(coloured[5].contains("Waiting for device"));
}

#[test]
fn plain_startup_card() {
    let lines = orbiscreen::ui::startup_lines("2560x1440 @ 120Hz", "vaapi", "wlroots", 8788, "tok", true, None, false);
    assert_eq!(lines.len(), 10);
    assert_eq!(lines[1], "[Orbiscreen is streaming]");
    assert_eq!(lines[4], "|  Display   2560x1440 @ 120Hz · VA-API · wlroots");
    assert_eq!(lines[5], "|  USB ADB   Active");
    assert_eq!(lines[6], "|  Stream    http://localhost:8788/?token=tok");
    assert_eq!(lines[8], "Press Ctrl+C to stop, or run 'orbiscreen stop'.");
    let coloured = orbiscreen::ui::startup_lines("x", "x264", "x11", 9000, "t", true, Some("1.2.3.4"), true);
    assert!(coloured[5].contains("✔ Active on port 9000"));
}
