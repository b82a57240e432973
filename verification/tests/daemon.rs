use orbiscreen::capabilities::CaptureStep;
use orbiscreen::capture::CaptureBackend;
use orbiscreen::daemon::{
    after_read_error, backend_name, captured_output_name, encoder_name, should_advertise,
    FrameSourceKind, PumpStep,
};
use orbiscreen::encode::EncoderKind;
use orbiscreen::config::DisplayConfig;
use orbiscreen::daemon::{
    apply_display_set, capture_chain, choose_client_dir, client_dir_candidates, clients_summary,
    config_error_reply, display_info, http_body, http_get_request, instance_name,
    is_address_in_use, is_service_unknown, journal_args, parse_display_set, report_from_bus,
    report_from_http, snapshot_due, status_json_from, status_token, stop_reply, systemd_state,
    tracing_filter, uninstall_summary, unit_dir, usable_saved_token, PtsClock, PtsRebase,
    StatusJson,
};

#[test]
fn display_set_reads_size_and_rate() {
    assert_eq!(parse_display_set(Some(" 2560x1440@120Hz "), None, None, None), (Some(2560), Some(1440), Some(120)));
    assert_eq!(parse_display_set(Some("1280x720"), None, None, Some(30)), (Some(1280), Some(720), Some(30)));
    assert_eq!(parse_display_set(Some("bogus"), Some(1), Some(2), Some(3)), (Some(1), Some(2), Some(3)));
    assert_eq!(parse_display_set(None, Some(800), None, None), (Some(800), None, None));
    let mut d = DisplayConfig::default();
    apply_display_set(&mut d, (Some(2560), None, Some(144)));
    assert_eq!((d.width, d.height, d.refresh_rate_hz), (2560, 1080, 144));
}

#[test]
fn capture_chain_follows_the_preference() {
    let auto = vec![CaptureStep::Portal, CaptureStep::Evdi];
    assert_eq!(capture_chain("auto", auto.clone()).0, auto);
    let (evdi, explicit) = capture_chain("evdi", auto.clone());
    assert_eq!(evdi, vec![CaptureStep::Evdi]);
    assert!(explicit);
}

#[test]
fn http_helpers() {
    assert_eq!(
        http_get_request("/health", 8788),
        "GET /health HTTP/1.1\r\nHost: 127.0.0.1:8788\r\nConnection: close\r\n\r\n"
    );
    assert_eq!(http_body("HTTP/1.1 200 OK\r\n\r\n{\"a\":1}").as_deref(), Some("{\"a\":1}"));
    assert_eq!(http_body("no separator"), None);
    assert!(is_address_in_use("bind: Address already in use (os error 98)"));
    assert!(!is_address_in_use("permission denied"));
    assert!(is_service_unknown("org.freedesktop.DBus.Error.ServiceUnknown"));
}

#[test]
fn bus_status_is_read_with_defaults() {
    let s = status_json_from(r#"{"running": true, "encoder": "nvenc", "active_clients": 2, "signaling_port": 9000}"#)
        .expect("json");
    let r = report_from_bus(&s, 8788);
    assert!(r.running);
    assert_eq!(r.encoder, "nvenc");
    assert_eq!(r.capture, "Unknown");
    assert_eq!(r.active_clients, 2);
    assert_eq!((r.width, r.height, r.fps), (1920, 1080, 60));
    assert_eq!(r.port, 9000);
    assert!(status_json_from("not json").is_none());
}

#[test]
fn http_status_combines_health_and_info() {
    let health = status_json_from(r#"{"status": "ok", "usb_devices": 1}"#).unwrap();
    let info = status_json_from(r#"{"encoder": "vaapi", "display_width": 2560, "refresh_hz": 120}"#).unwrap();
    let r = report_from_http(&health, &info, 8788);
    assert!(r.running);
    assert_eq!(r.encoder, "vaapi");
    assert_eq!(r.capture, "Virtual");
    assert_eq!(r.usb_devices, 1);
    assert_eq!((r.width, r.height, r.fps), (2560, 1080, 120));
    let r2 = report_from_http(&StatusJson::default(), &StatusJson::default(), 1);
    assert!(!r2.running);
    assert_eq!(r2.encoder, "auto");
}

#[test]
fn service_and_paths() {
    assert_eq!(unit_dir(Some("/x"), Some("/home/u")), "/x/systemd/user");
    assert_eq!(unit_dir(None, Some("/home/u")), "/home/u/.config/systemd/user");
    assert_eq!(journal_args(true, 50), vec!["--user", "-u", "orbiscreen", "-n", "50", "-f"]);
    assert_eq!(uninstall_summary(0), ("[Orbiscreen] Uninstallation complete.".to_string(), true));
    assert_eq!(
        uninstall_summary(2).0,
        "[Orbiscreen] Uninstallation finished with 2 error(s); see warnings above."
    );
    assert_eq!(tracing_filter(0), "INFO,zbus=error,ashpd=error");
    assert_eq!(tracing_filter(5), "TRACE,zbus=error,ashpd=error");
    assert_eq!(systemd_state(Some(" active\n"), "inactive"), "active");
    assert_eq!(systemd_state(None, "inactive"), "inactive");
    assert_eq!(status_token(None), "token-active");
    assert_eq!(status_token(Some("  abc \n")), "abc");
}

#[test]
fn pts_never_goes_back() {
    let mut c = PtsClock::new(16);
    assert_eq!(c.next(0), 32);
    assert_eq!(c.next(100), 100);
    assert_eq!(c.next(101), 116);
    let mut r = PtsRebase::new();
    assert_eq!(r.rebase(1000), 0);
    assert_eq!(r.rebase(1500), 500);
    assert_eq!(r.rebase(10), 0);
    assert!(snapshot_due(None));
    assert!(!snapshot_due(Some(99)));
    assert!(snapshot_due(Some(100)));
}

#[test]
fn client_files_and_tokens() {
    let c = client_dir_candidates("/opt/app", Some("/home/u"));
    assert_eq!(
        c,
        vec![
            "/opt/app/clients/web".to_string(),
            "/home/u/.local/share/orbiscreen/client".to_string(),
            "/usr/share/orbiscreen/client".to_string(),
            "/app/share/orbiscreen/client".to_string(),
        ]
    );
    assert_eq!(choose_client_dir(None, false, &c, &[false, true, true, false]), "/home/u/.local/share/orbiscreen/client");
    assert_eq!(choose_client_dir(Some("/e"), true, &c, &[true, true, true, true]), "/e");
    assert_eq!(choose_client_dir(None, false, &c, &[false, false, false, false]), "clients/web");
    assert_eq!(usable_saved_token(Some("short")), None);
    let long = "0123456789abcdef0123456789abcdef";
    assert_eq!(usable_saved_token(Some(&format!(" {long}\n"))).as_deref(), Some(long));
    assert_eq!(instance_name(None), "orbiscreen-host");
    assert_eq!(display_info(1920, 1080, 60), "1920x1080 @ 60Hz");
    assert_eq!(stop_reply(false), ("Orbiscreen is not running", false));
    assert_eq!(
        clients_summary(1, 4),
        "HTTP MPEG-TS /stream: 1 active client(s), 4 total connection(s)"
    );
    assert_eq!(config_error_reply("boom"), "config serialize error: boom");
}

#[test]
fn frame_source_names_and_pump_steps() {
    assert_eq!(
        captured_output_name(&FrameSourceKind::WlrVirtual("HEADLESS-1".into())).as_deref(),
        Some("HEADLESS-1")
    );
    assert_eq!(
        captured_output_name(&FrameSourceKind::Capture(CaptureBackend::KwinVirtual)).as_deref(),
        Some("Virtual-ORBISCREEN")
    );
    assert_eq!(captured_output_name(&FrameSourceKind::Evdi), None);
    assert!(!backend_name(&FrameSourceKind::Evdi).is_empty());
    assert_eq!(encoder_name(EncoderKind::Nvenc), "nvenc");
    assert_eq!(after_read_error(true), PumpStep::Stop);
    assert_eq!(after_read_error(false), PumpStep::Retry);
    assert!(should_advertise(false, true));
    assert!(!should_advertise(true, true));
}
