use orbiscreen::config::{
    default_config_path, default_token_path, CaptureConfig, Config, DisplayConfig, EncodeConfig,
    TransportConfig,
};
use orbiscreen::portal_state::{load_portal_state, portal_state_path, PortalState};

/// Reads a configuration file as the daemon does: every section and key is
/// optional and falls back to its default, unknown keys are ignored, and the
/// result is sanitized.
fn load_config(text: &str) -> Result<Config, String> {
    let table: toml::Table = text.parse().map_err(|e: toml::de::Error| e.to_string())?;
    let mut cfg = Config::default();
    let section = |name: &str| table.get(name).and_then(|v| v.as_table()).cloned();
    if let Some(d) = section("display") {
        if let Some(v) = d.get("width").and_then(|v| v.as_integer()) {
            cfg.display.width = v as u32;
        }
        if let Some(v) = d.get("height").and_then(|v| v.as_integer()) {
            cfg.display.height = v as u32;
        }
        if let Some(v) = d.get("refresh_rate_hz").and_then(|v| v.as_integer()) {
            cfg.display.refresh_rate_hz = v as u32;
        }
    }
    if let Some(c) = section("capture") {
        if let Some(v) = c.get("preferred").and_then(|v| v.as_str()) {
            cfg.capture.preferred = v.to_string();
        }
    }
    if let Some(e) = section("encode") {
        if let Some(v) = e.get("bitrate_kbps").and_then(|v| v.as_integer()) {
            cfg.encode.bitrate_kbps = v as u32;
        }
        if let Some(v) = e.get("preferred_encoder").and_then(|v| v.as_str()) {
            cfg.encode.preferred_encoder = v.to_string();
        }
    }
    if let Some(t) = section("transport") {
        if let Some(v) = t.get("signaling_port").and_then(|v| v.as_integer()) {
            cfg.transport.signaling_port = v as u16;
        }
        if let Some(v) = t.get("mdns_advertise").and_then(|v| v.as_bool()) {
            cfg.transport.mdns_advertise = v;
        }
    }
    cfg.sanitize();
    Ok(cfg)
}

fn same_encode(a: &EncodeConfig, b: &EncodeConfig) -> bool {
    a.bitrate_kbps == b.bitrate_kbps && a.preferred_encoder == b.preferred_encoder
}

fn same_transport(a: &TransportConfig, b: &TransportConfig) -> bool {
    a.signaling_port == b.signaling_port && a.mdns_advertise == b.mdns_advertise
}

#[test]
fn partial_toml_falls_back_to_defaults() {
    let parsed = load_config("[display]\nwidth = 2560\n").expect("parse partial config");
    assert_eq!(parsed.display.width, 2560);
    assert_eq!(parsed.display.height, 1080);
    assert!(same_encode(&parsed.encode, &EncodeConfig::default()));
    assert!(same_transport(&parsed.transport, &TransportConfig::default()));
}

#[test]
fn out_of_range_config_is_clamped() {
    let toml = "\
[display]
width = 0
height = 0
refresh_rate_hz = 0
[encode]
bitrate_kbps = 500000
preferred_encoder = \"vp9\"
[transport]
signaling_port = 80
mdns_advertise = true
";
    let cfg = load_config(toml).expect("parse bad config");
    assert_eq!(cfg.display.width, DisplayConfig::MIN_WIDTH);
    assert_eq!(cfg.display.height, DisplayConfig::MIN_HEIGHT);
    assert_eq!(cfg.display.refresh_rate_hz, 1);
    assert_eq!(cfg.encode.bitrate_kbps, EncodeConfig::MAX_BITRATE_KBPS);
    assert_eq!(cfg.encode.preferred_encoder, "auto");
    assert_eq!(cfg.transport.signaling_port, 8788);
}

#[test]
fn oversized_display_is_clamped_to_maximums() {
    let toml = "\
[display]
width = 999999
height = 999999
";
    let cfg = load_config(toml).expect("parse oversized config");
    assert_eq!(cfg.display.width, DisplayConfig::MAX_WIDTH);
    assert_eq!(cfg.display.height, DisplayConfig::MAX_HEIGHT);
}

#[test]
fn legacy_webrtc_port_range_key_is_ignored() {
    let toml = "[transport]\nwebrtc_port_range = [50100, 50000]\n";
    let cfg = load_config(toml).expect("legacy key must not break parsing");
    assert!(same_transport(&cfg.transport, &TransportConfig::default()));
}

#[test]
fn default_display_is_1080p60() {
    let display = DisplayConfig::default();
    assert_eq!(display.width, 1920);
    assert_eq!(display.height, 1080);
    assert_eq!(display.refresh_rate_hz, 60);
}

#[test]
fn unknown_capture_preference_falls_back_to_auto() {
    let parsed = load_config("[capture]\npreferred = \"magic\"\n").expect("parse capture config");
    assert_eq!(parsed.capture.preferred, "auto");
}

#[test]
fn capture_preference_accepts_known_values() {
    for value in CaptureConfig::preferences() {
        let parsed = load_config(&format!("[capture]\npreferred = \"{value}\"\n")).expect("parse");
        assert_eq!(parsed.capture.preferred, value);
    }
}

#[test]
fn default_config_path_uses_xdg_config_home_when_set() {
    let path = default_config_path(Some("/tmp/orbiscreen-test-xdg"), Some("/home/u"));
    assert_eq!(path, "/tmp/orbiscreen-test-xdg/orbiscreen/orbiscreen.toml");
}

#[test]
fn config_and_token_paths_fall_back_to_home() {
    assert_eq!(default_config_path(None, Some("/home/u")), "/home/u/.config/orbiscreen/orbiscreen.toml");
    assert_eq!(default_token_path(None, Some("/home/u")), "/home/u/.config/orbiscreen/token");
}

#[test]
fn sanitize_keeps_values_in_range() {
    let mut cfg = Config::default();
    cfg.display.width = 2560;
    cfg.encode.bitrate_kbps = 99;
    cfg.encode.preferred_encoder = "NVENC".to_string();
    cfg.transport.signaling_port = 1024;
    cfg.sanitize();
    assert_eq!(cfg.display.width, 2560);
    assert_eq!(cfg.encode.bitrate_kbps, EncodeConfig::MIN_BITRATE_KBPS);
    assert_eq!(cfg.encode.preferred_encoder, "NVENC");
    assert_eq!(cfg.transport.signaling_port, 1024);
}

#[test]
fn path_prefers_xdg_state_home() {
    assert_eq!(
        portal_state_path(Some("/tmp/orbiscreen-state"), Some("/home/u")),
        "/tmp/orbiscreen-state/orbiscreen/portal.json"
    );
}

#[test]
fn path_falls_back_to_home_local_state() {
    assert_eq!(portal_state_path(None, Some("/home/u")), "/home/u/.local/state/orbiscreen/portal.json");
}

#[test]
fn path_ignores_relative_xdg_state_home() {
    assert_eq!(
        portal_state_path(Some("relative/path"), Some("/home/u")),
        "/home/u/.local/state/orbiscreen/portal.json"
    );
}

#[test]
fn missing_state_is_default() {
    let state = load_portal_state(None);
    assert_eq!(state.screencast_restore_token, None);
    assert_eq!(state.remote_desktop_restore_token, None);
    let kept = load_portal_state(Some(PortalState {
        screencast_restore_token: Some("cast-token".into()),
        remote_desktop_restore_token: None,
    }));
    assert_eq!(kept.screencast_restore_token.as_deref(), Some("cast-token"));
}

#[test]
fn sanitize_twice_changes_nothing_more() {
    let mut cfg = Config::default();
    cfg.display.width = 100_000;
    cfg.display.refresh_rate_hz = 0;
    cfg.capture.preferred = "magic".to_string();
    cfg.encode.bitrate_kbps = 1;
    cfg.encode.preferred_encoder = "av1".to_string();
    cfg.transport.signaling_port = 22;
    cfg.sanitize();
    let once = (
        cfg.display.width,
        cfg.display.refresh_rate_hz,
        cfg.capture.preferred.clone(),
        cfg.encode.bitrate_kbps,
        cfg.encode.preferred_encoder.clone(),
        cfg.transport.signaling_port,
    );
    assert_eq!(once, (7680, 1, "auto".to_string(), 100, "auto".to_string(), 8788));
    cfg.sanitize();
    let twice = (
        cfg.display.width,
        cfg.display.refresh_rate_hz,
        cfg.capture.preferred.clone(),
        cfg.encode.bitrate_kbps,
        cfg.encode.preferred_encoder.clone(),
        cfg.transport.signaling_port,
    );
    assert_eq!(once, twice);
}
