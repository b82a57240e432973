use orbiscreen::capture::CaptureError;
use orbiscreen::hexid::{format_hex, parse_hex_exec};
use orbiscreen::kwin::{
    accepted_connector, desktop_is_kde, forget_connector_in_config, strip_connector_text, handshake_status, kwin_connectors,
    kwin_output_config_path, kwin_protocol_version, kwin_stream_names, kwin_stream_size,
    kwin_uses_description, no_stream_error, permission_content_matches, permission_file_contents,
    pipewire_pipeline, user_applications_dir, HandshakeStatus, KwinVirtualError,
    KwinVirtualSpec, VIRTUAL_OUTPUT_CONNECTOR,
};

fn spec(name: Option<&str>) -> KwinVirtualSpec {
    KwinVirtualSpec { width: 1920, height: 1080, output_name: name.map(|s| s.to_string()) }
}

#[test]
fn kde_is_found_in_the_desktop_list() {
    assert!(desktop_is_kde(Some("KDE")));
    assert!(desktop_is_kde(Some("ubuntu:kde")));
    assert!(!desktop_is_kde(Some("GNOME")));
    assert!(!desktop_is_kde(None));
}

#[test]
fn permission_file_names_the_executable() {
    let exe = "/usr/bin/orbiscreen";
    let content = permission_file_contents(exe);
    assert!(content.starts_with("[Desktop Entry]\nExec=/usr/bin/orbiscreen\n"));
    assert!(permission_content_matches(&content, exe));
    assert!(!permission_content_matches(&content, "/opt/other"));
    assert!(!permission_content_matches("[Desktop Entry]\nExec=/usr/bin/orbiscreen\n", exe));
}

#[test]
fn paths_under_home() {
    assert_eq!(user_applications_dir(Some("/data"), Some("/home/u")).as_deref(), Some("/data/applications"));
    assert_eq!(
        user_applications_dir(Some("rel"), Some("/home/u")).as_deref(),
        Some("/home/u/.local/share/applications")
    );
    assert_eq!(user_applications_dir(None, None), None);
    assert_eq!(
        kwin_output_config_path(Some("/home/u")).as_deref(),
        Some("/home/u/.config/kwinoutputconfig.json")
    );
}

#[test]
fn connectors_and_stream_names() {
    let (a, b) = kwin_connectors(&spec(None), 42);
    assert_eq!(a, "Virtual-ORBISCREEN");
    assert_eq!(b, "Virtual-ORBISCREEN-42");
    assert_eq!(kwin_stream_names(&spec(Some("Tab")), 7), vec!["Tab".to_string(), "Tab-7".to_string()]);
    assert_eq!(accepted_connector("X"), "Virtual-X");
}

#[test]
fn protocol_and_size_checks() {
    assert_eq!(kwin_stream_size(&spec(None)).unwrap(), (1920, 1080));
    let big = KwinVirtualSpec { width: u32::MAX, height: 10, output_name: None };
    match kwin_stream_size(&big) {
        Err(e) => assert_eq!(
            e.message(),
            format!("requested size {}x10 exceeds the protocol's i32 dimensions", u32::MAX)
        ),
        Ok(_) => panic!("oversized stream accepted"),
    }
    assert_eq!(kwin_protocol_version(5, 4).unwrap(), 4);
    assert!(matches!(kwin_protocol_version(1, 4), Err(KwinVirtualError::ProtocolTooOld)));
    assert!(kwin_uses_description(4));
    assert!(!kwin_uses_description(3));
}

#[test]
fn handshake_outcomes() {
    assert!(matches!(
        handshake_status(Some("nope"), false, None, false),
        HandshakeStatus::Failed(KwinVirtualError::StreamFailed(_))
    ));
    match handshake_status(None, true, None, false) {
        HandshakeStatus::Failed(KwinVirtualError::StreamFailed(m)) => {
            assert_eq!(m, "compositor closed the stream during setup")
        },
        other => panic!("unexpected {other:?}"),
    }
    match no_stream_error(None) {
        KwinVirtualError::StreamFailed(m) => assert_eq!(m, "no virtual output"),
        other => panic!("unexpected {other:?}"),
    }
    match KwinVirtualError::Timeout.into_capture_error() {
        CaptureError::Io(m) => assert!(m.starts_with("timed out")),
        other => panic!("unexpected {other:?}"),
    }
    assert!(pipewire_pipeline(41, 1920, 1080).starts_with("pipewiresrc path=41 "));
}

#[test]
fn hex_ids_roundtrip() {
    for n in [0u64, 9, 10, 255, 0xdead_beef, u64::MAX] {
        let s = format_hex(n);
        let chars: Vec<char> = s.chars().collect();
        assert_eq!(parse_hex_exec(&chars), Some(n));
    }
    assert_eq!(format_hex(255), "ff");
    assert_eq!(parse_hex_exec(&['x']), None);
    assert_eq!(parse_hex_exec(&[]), None);
}

#[test]
fn forget_saved_virtual_output_drops_connector() {
    let raw = r#"[{
                "data": [
                    {"connectorName": "eDP-1"},
                    {"connectorName": "Virtual-ORBISCREEN", "uuid": "dead"}
                ]
            }]"#;
    let written = forget_connector_in_config(raw, VIRTUAL_OUTPUT_CONNECTOR);
    assert!(written.is_some());
    let raw = written.unwrap();
    assert!(!raw.contains("Virtual-ORBISCREEN"));
    assert!(raw.contains("eDP-1"));
    assert!(forget_connector_in_config(&raw, VIRTUAL_OUTPUT_CONNECTOR).is_none());
}

#[test]
fn forget_connector_drops_numbered_siblings_only() {
    let raw = r#"{"outputs": [{"connectorName": "Virtual-ORBISCREEN-4242"},
        {"connectorName": "Virtual-ORBISCREENX"}, {"connectorName": "DP-2"}], "version": 1}"#;
    let written = forget_connector_in_config(raw, VIRTUAL_OUTPUT_CONNECTOR).expect("changed");
    let back: serde_json::Value = serde_json::from_str(&written).unwrap();
    let expected: serde_json::Value = serde_json::from_str(
        r#"{"outputs": [{"connectorName": "Virtual-ORBISCREENX"}, {"connectorName": "DP-2"}], "version": 1}"#,
    )
    .unwrap();
    assert_eq!(back, expected);
    assert_eq!(written, serde_json::to_string_pretty(&expected).unwrap());
}

#[test]
fn forget_connector_leaves_unreadable_or_clean_configs() {
    assert!(forget_connector_in_config("not json", VIRTUAL_OUTPUT_CONNECTOR).is_none());
    assert!(forget_connector_in_config(r#"[{"connectorName": "eDP-1"}]"#, VIRTUAL_OUTPUT_CONNECTOR)
        .is_none());
    assert!(forget_connector_in_config("\"Virtual-ORBISCREEN\"", VIRTUAL_OUTPUT_CONNECTOR).is_none());
}

#[test]
fn strip_connector_text_searches_only_as_deep_as_asked() {
    let raw = r#"[[{"connectorName": "Virtual-ORBISCREEN"}]]"#;
    let (same, changed) = strip_connector_text(raw, VIRTUAL_OUTPUT_CONNECTOR, 1);
    assert!(!changed);
    assert_eq!(same, raw);
    let (out, changed) = strip_connector_text(raw, VIRTUAL_OUTPUT_CONNECTOR, 2);
    assert!(changed);
    assert_eq!(out, "[[]]");
}

fn strip_value(value: &mut serde_json::Value, connector: &str) -> bool {
    let mut changed = false;
    match value {
        serde_json::Value::Array(items) => {
            let before = items.len();
            items.retain(|entry| match entry.get("connectorName").and_then(|v| v.as_str()) {
                Some(name) => name != connector && !name.starts_with(&format!("{connector}-")),
                None => true,
            });
            changed = items.len() != before;
            for item in items.iter_mut() {
                changed |= strip_value(item, connector);
            }
        }
        serde_json::Value::Object(map) => {
            for child in map.values_mut() {
                changed |= strip_value(child, connector);
            }
        }
        _ => {}
    }
    changed
}

#[test]
fn forgetting_prints_what_one_parse_of_the_config_holds() {
    let raw = r#"{"b": [{"connectorName": "Virtual-ORBISCREEN", "scale": 1.25},
        {"connectorName": "eDP-1", "scale": 1.0000000000000002, "x": 0.30000000000000004,
         "big": 123456789012345678901234567890, "tiny": 4.9406564584124654e-324,
         "odd": 9007199254740993.0, "e": 1.7976931348623157e308, "n": -0, "s": "a\u00e9\n"}],
        "a": {"k": [1.5e-7, {"connectorName": "Virtual-ORBISCREEN-7"}]}, "a": {"k": [2]}}"#;
    let mut root: serde_json::Value = serde_json::from_str(raw).unwrap();
    assert!(strip_value(&mut root, VIRTUAL_OUTPUT_CONNECTOR));
    let expected = serde_json::to_string_pretty(&root).unwrap();
    assert_eq!(forget_connector_in_config(raw, VIRTUAL_OUTPUT_CONNECTOR), Some(expected));
}
