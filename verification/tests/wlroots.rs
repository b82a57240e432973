use orbiscreen::wlroots::{detect_ipc_kind, hyprland_create_rejected, hyprland_reply_ok};
use orbiscreen::wlroots::{
    create_payloads, decode_sway_header, encode_sway_message, hyprland_remove_outcome,
    mode_command, output_name_is_safe, parse_hyprland_monitors, parse_sway_command_success,
    parse_sway_outputs, remove_request, AppearOutcome, AppearWatch, OutputSnapshot,
    VirtualOutputSpec, WlrootsIpcKind, WlrootsVirtualOutputError, SWAY_MSG_GET_OUTPUTS,
    SWAY_MSG_RUN_COMMAND,
};

fn snap(name: &str, w: u32, h: u32) -> OutputSnapshot {
    OutputSnapshot { name: name.to_string(), width: w, height: h }
}

#[test]
fn sway_message_is_i3_ipc_framed() {
    let msg = encode_sway_message(SWAY_MSG_RUN_COMMAND, "create output");
    assert_eq!(&msg[..6], b"i3-ipc");
    assert_eq!(u32::from_le_bytes(msg[6..10].try_into().unwrap()), 13);
    assert_eq!(u32::from_le_bytes(msg[10..14].try_into().unwrap()), 0);
    assert_eq!(&msg[14..], b"create output");
}

#[test]
fn sway_success_reply_is_accepted() {
    parse_sway_command_success(r#"[{"success": true}]"#).expect("accepted");
    parse_sway_command_success(r#"[{"success": true}, {"success": true}]"#)
        .expect("accepted multi");
}

#[test]
fn sway_failure_reply_carries_error() {
    let err = parse_sway_command_success(
        r#"[{"success": false, "error": "Cannot create any more outputs"}]"#,
    )
    .expect_err("rejected");
    assert!(err.message().contains("Cannot create any more outputs"));
}

#[test]
fn sway_empty_reply_is_an_error() {
    assert!(parse_sway_command_success("[]").is_err());
    assert!(parse_sway_command_success("not json").is_err());
}

#[test]
fn sway_outputs_reply_is_parsed() {
    let json = r#"[
        {"name": "eDP-1", "active": true, "rect": {"x": 0, "y": 0, "width": 1920, "height": 1080}},
        {"name": "HEADLESS-1", "active": true, "rect": {"x": 1920, "y": 0, "width": 1280, "height": 720}},
        {"no_name": true}
    ]"#;
    let outputs = parse_sway_outputs(json).expect("parse");
    assert_eq!(outputs.len(), 2);
    assert_eq!(outputs[0].name, "eDP-1");
    assert_eq!((outputs[0].width, outputs[0].height), (1920, 1080));
    assert_eq!(outputs[1].name, "HEADLESS-1");
    assert_eq!((outputs[1].width, outputs[1].height), (1280, 720));
}

#[test]
fn hyprland_monitors_reply_is_parsed() {
    let json = r#"[
        {"id": 0, "name": "eDP-1", "width": 2560, "height": 1440, "refreshRate": 144.0},
        {"id": 1, "name": "HEADLESS-A-1", "width": 1920, "height": 1080, "refreshRate": 60.0}
    ]"#;
    let outputs = parse_hyprland_monitors(json).expect("parse");
    assert_eq!(outputs.len(), 2);
    assert_eq!(outputs[1].name, "HEADLESS-A-1");
    assert_eq!((outputs[1].width, outputs[1].height), (1920, 1080));
}

#[test]
fn hyprland_bad_reply_is_reported() {
    assert!(parse_hyprland_monitors("unknown request").is_err());
    assert!(parse_hyprland_monitors(r#"{"oops": 1}"#).is_err());
}

#[test]
fn output_names_with_only_safe_chars_pass() {
    assert!(output_name_is_safe("HEADLESS-1"));
    assert!(output_name_is_safe("eDP-1"));
    assert!(output_name_is_safe("DP-2.1_x"));
}

#[test]
fn output_names_with_command_chars_are_rejected() {
    assert!(!output_name_is_safe(""));
    assert!(!output_name_is_safe("x remove"));
    assert!(!output_name_is_safe("a;exec foo"));
    assert!(!output_name_is_safe("name;exec"));
    assert!(!output_name_is_safe("a,b"));
    assert!(!output_name_is_safe(&"n".repeat(65)));
}

#[test]
fn sway_failure_without_message_says_unknown_error() {
    match parse_sway_command_success(r#"[{"success": true}, {"success": false}]"#) {
        Err(WlrootsVirtualOutputError::Rejected(m)) => assert_eq!(m, "unknown error"),
        other => panic!("unexpected {other:?}"),
    }
}

#[test]
fn sway_reply_that_is_not_a_list_is_reported() {
    match parse_sway_command_success(r#"{"success": true}"#) {
        Err(WlrootsVirtualOutputError::Sway(m)) => assert_eq!(m, "command reply is not a list"),
        other => panic!("unexpected {other:?}"),
    }
    match parse_sway_outputs("[") {
        Err(WlrootsVirtualOutputError::Sway(m)) => assert!(m.starts_with("bad outputs reply: ")),
        other => panic!("unexpected {other:?}"),
    }
}

#[test]
fn header_roundtrips_payload_length() {
    let msg = encode_sway_message(SWAY_MSG_GET_OUTPUTS, "");
    assert_eq!(msg.len(), 14);
    let header: [u8; 14] = msg[..14].try_into().unwrap();
    assert_eq!(decode_sway_header(&header).unwrap(), 0);
    let msg = encode_sway_message(SWAY_MSG_RUN_COMMAND, "output HEADLESS-1 mode 1280x720");
    let header: [u8; 14] = msg[..14].try_into().unwrap();
    assert_eq!(decode_sway_header(&header).unwrap(), 31);
}

#[test]
fn header_with_bad_magic_is_rejected() {
    let mut header = [0u8; 14];
    header[..6].copy_from_slice(b"i3-ipx");
    assert!(decode_sway_header(&header).is_err());
}

#[test]
fn hyprland_payloads_fall_back_from_full_mode() {
    let spec = VirtualOutputSpec { width: 1280, height: 720, refresh_rate_hz: 60 };
    let p = create_payloads(WlrootsIpcKind::Hyprland, spec);
    assert_eq!(
        p,
        vec![
            "output create headless 1280x720@60".to_string(),
            "output create headless 1280x720".to_string(),
            "output create headless".to_string(),
        ]
    );
    assert_eq!(create_payloads(WlrootsIpcKind::Sway, spec), vec!["create output".to_string()]);
}

#[test]
fn remove_request_refuses_unsafe_names() {
    assert!(remove_request(WlrootsIpcKind::Sway, "a;exec rm").is_err());
    assert!(remove_request(WlrootsIpcKind::Hyprland, "HEADLESS-2").is_ok());
    assert!(hyprland_remove_outcome("ok").is_ok());
    assert!(hyprland_remove_outcome("no such output").is_err());
}

#[test]
fn timeout_message_is_in_seconds() {
    assert_eq!(
        WlrootsVirtualOutputError::Timeout(5000).message(),
        "the virtual output did not appear within 5.0s"
    );
}

#[test]
fn mode_command_targets_the_new_output() {
    let spec = VirtualOutputSpec { width: 1920, height: 1080, refresh_rate_hz: 60 };
    let cmd = mode_command(WlrootsIpcKind::Sway, "HEADLESS-1", spec);
    assert!(cmd.is_some());
    assert!(cmd.unwrap().contains("HEADLESS-1"));
}

#[test]
fn appear_watch_reports_the_new_output() {
    let before = vec![snap("eDP-1", 1920, 1080)];
    let mut watch = AppearWatch::new(&before);
    let step = watch.observe(&before, 50);
    assert!(matches!(step.outcome, AppearOutcome::Pending));
    let after = vec![snap("eDP-1", 1920, 1080), snap("HEADLESS-1", 1280, 720)];
    let step = watch.observe(&after, 100);
    assert_eq!(step.set_mode.as_deref(), Some("HEADLESS-1"));
    assert!(matches!(step.outcome, AppearOutcome::Pending));
    let step = watch.observe(&after, 150);
    assert_eq!(step.set_mode, None);
    match step.outcome {
        AppearOutcome::Appeared(o) => assert_eq!(o.name, "HEADLESS-1"),
        _ => panic!("expected the new output"),
    }
}

#[test]
fn appear_watch_times_out() {
    let before = vec![snap("eDP-1", 1920, 1080)];
    let mut watch = AppearWatch::new(&before);
    let step = watch.observe(&before, 5000);
    assert!(matches!(step.outcome, AppearOutcome::TimedOut));
}

#[test]
fn hyprland_create_replies() {
    assert!(hyprland_reply_ok(" ok\n"));
    assert!(!hyprland_reply_ok("unknown request"));
    assert!(hyprland_create_rejected().message().contains("hyprland >= 0.44 required"));
    assert_eq!(
        detect_ipc_kind(Some("/run/sway.sock"), true, None, None, false),
        Some(WlrootsIpcKind::Sway)
    );
    assert_eq!(
        detect_ipc_kind(None, false, Some("abc"), Some("/run/user/1000"), true),
        Some(WlrootsIpcKind::Hyprland)
    );
    assert_eq!(detect_ipc_kind(Some("/run/sway.sock"), false, None, None, false), None);
}

#[test]
fn unsafe_names_are_quoted_in_the_refusal() {
    match remove_request(WlrootsIpcKind::Sway, "a;exec \"rm\"") {
        Err(WlrootsVirtualOutputError::Rejected(m)) => {
            assert_eq!(m, "refusing unsafe output name \"a;exec \\\"rm\\\"\"")
        },
        other => panic!("unexpected {other:?}"),
    }
    assert_eq!(remove_request(WlrootsIpcKind::Sway, "HEADLESS-2").unwrap(), "output HEADLESS-2 remove");
    assert_eq!(remove_request(WlrootsIpcKind::Hyprland, "HEADLESS-2").unwrap(), "output destroy HEADLESS-2");
}
