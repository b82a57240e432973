use orbiscreen::kscreen::{
    disable_output_arg, is_portal_virtual_output, output_uuid_in, parse_kscreen_outputs,
    select_tablet_output, stale_portal_outputs, strip_ansi, KscreenOutput,
};
use orbiscreen::kwin::VIRTUAL_OUTPUT_CONNECTOR;

#[test]
fn parse_kscreen_doctor_outputs() {
    let text = "\
\u{1b}[01;32mOutput: \u{1b}[0;0m1 eDP-1 8d4cd7b2-4072-46fe-9076-a472ff599d3e
\u{1b}[01;32menabled\u{1b}[0;0m
connected
Geometry: 0,0 1920x1200
Output: 2 DP-6 2185e147-5700-4a76-95c7-4ca01c705bea
enabled
Geometry: 1920,0 2560x1440
Output: 3 Virtual-virtual-xdp-kde- 3ab51ad6-f454-4c80-bee1-bb69124801de
enabled
Geometry: 4480,0 1920x1080
Output: 4 Virtual-ORBISCREEN deadbeef-0000-0000-0000-000000000000
disabled
";
    let outs = parse_kscreen_outputs(text);
    assert_eq!(
        outs,
        vec![
            KscreenOutput {
                name: "eDP-1".into(),
                uuid: Some("8d4cd7b2-4072-46fe-9076-a472ff599d3e".into()),
                enabled: true
            },
            KscreenOutput {
                name: "DP-6".into(),
                uuid: Some("2185e147-5700-4a76-95c7-4ca01c705bea".into()),
                enabled: true
            },
            KscreenOutput {
                name: "Virtual-virtual-xdp-kde-".into(),
                uuid: Some("3ab51ad6-f454-4c80-bee1-bb69124801de".into()),
                enabled: true
            },
            KscreenOutput {
                name: "Virtual-ORBISCREEN".into(),
                uuid: Some("deadbeef-0000-0000-0000-000000000000".into()),
                enabled: false
            },
        ]
    );
    assert_eq!(
        select_tablet_output(&outs, Some(VIRTUAL_OUTPUT_CONNECTOR)).as_deref(),
        None
    );
    let mut with_orbi = outs.clone();
    with_orbi[3].enabled = true;
    assert_eq!(
        select_tablet_output(&with_orbi, Some(VIRTUAL_OUTPUT_CONNECTOR)).as_deref(),
        Some(VIRTUAL_OUTPUT_CONNECTOR)
    );
    with_orbi.push(KscreenOutput {
        name: "Virtual-ORBISCREEN-123".into(),
        uuid: Some("aaaaaaaa-bbbb-cccc-dddd-eeeeeeeeeeee".into()),
        enabled: true,
    });
    assert_eq!(
        select_tablet_output(&with_orbi, Some("Virtual-ORBISCREEN-123")).as_deref(),
        Some("Virtual-ORBISCREEN-123")
    );
    assert_eq!(
        select_tablet_output(&with_orbi, Some(VIRTUAL_OUTPUT_CONNECTOR)).as_deref(),
        Some(VIRTUAL_OUTPUT_CONNECTOR)
    );
    assert_eq!(
        select_tablet_output(&with_orbi, None).as_deref(),
        Some("Virtual-ORBISCREEN-123")
    );
}

#[test]
fn ansi_sequences_are_removed() {
    assert_eq!(strip_ansi("\u{1b}[01;32mOutput: \u{1b}[0;0m1"), "Output: 1");
    assert_eq!(strip_ansi("plain"), "plain");
    assert_eq!(strip_ansi("a\u{1b}b"), "a\u{1b}b");
}

#[test]
fn output_without_uuid_token_has_none() {
    let outs = parse_kscreen_outputs("Output: 1 HDMI-A-1 notauuid\nenabled\n");
    assert_eq!(outs.len(), 1);
    assert_eq!(outs[0].name, "HDMI-A-1");
    assert_eq!(outs[0].uuid, None);
    assert!(outs[0].enabled);
}

#[test]
fn uuid_lookup_and_stale_portal_outputs() {
    let outs = parse_kscreen_outputs(
        "Output: 1 eDP-1 1111-2222\nenabled\nOutput: 2 Virtual-virtual-xdp-kde- 3333-4444\nenabled\n",
    );
    assert_eq!(output_uuid_in(&outs, "eDP-1").as_deref(), Some("1111-2222"));
    assert_eq!(output_uuid_in(&outs, "DP-9"), None);
    assert!(is_portal_virtual_output("Virtual-virtual-xdp-kde-"));
    assert!(!is_portal_virtual_output("eDP-1"));
    assert_eq!(stale_portal_outputs(&outs), vec!["Virtual-virtual-xdp-kde-".to_string()]);
    assert!(disable_output_arg("eDP-1").contains("eDP-1"));
}
