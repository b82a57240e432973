use orbiscreen::hub::kwin_input_paths;
use orbiscreen::encode::EncoderKind;
use orbiscreen::hub::{
    adopt_resize_state, clamp_session_size, enable_output_args, event_paths_from_introspect,
    next_id, resolve_session_id, session_bitrate, should_reap_idle_session, target_resolution,
    AcquirePlan, AttachPlan, FramePacer, HubConfig, ResizeCarry, SessionEntry, SessionTable,
    IDLE_AFTER_LAST_VIEWER_NANOS, WAITING_FOR_FIRST_VIEWER_NANOS,
};

const SEC: u128 = 1_000_000_000;

fn carry(name: &str, viewers: usize, ever_attached: bool) -> ResizeCarry {
    ResizeCarry { name: name.to_string(), key: None, bitrate_kbps: None, viewers, ever_attached }
}

fn session_with(id: &str, ever_attached: bool) -> SessionEntry {
    SessionEntry {
        id: id.to_string(),
        name: "test".into(),
        client_key: None,
        width: 1280,
        height: 720,
        bitrate_kbps: None,
        viewers: 0,
        ever_attached,
        idle_since: None,
    }
}

fn keys(ids: &[&str]) -> Vec<String> {
    ids.iter().map(|s| s.to_string()).collect()
}

fn cfg(w: u32, h: u32) -> HubConfig {
    HubConfig {
        encode_kind: EncoderKind::X264,
        bitrate_kbps: 8000,
        refresh_hz: 60,
        default_width: w,
        default_height: h,
        has_explicit_override: false,
    }
}

#[test]
fn resize_swap_preserves_viewers_and_deadline() {
    let now = 1000;
    let fresh = adopt_resize_state(session_with("a", false), &carry("test", 0, false), now);
    assert_eq!(fresh.viewers, 0);
    assert!(!fresh.ever_attached);
    let waiting = fresh.idle_since.unwrap();
    let viewed = adopt_resize_state(session_with("b", true), &carry("test", 2, true), now);
    assert_eq!(viewed.viewers, 2);
    assert!(viewed.ever_attached);
    let after = viewed.idle_since.unwrap();
    assert!(after > waiting);
}

#[test]
fn subscribed_video_is_not_reaped_at_the_idle_timeout() {
    assert!(!should_reap_idle_session(0, 1, true, 120 * SEC));
    assert!(!should_reap_idle_session(1, 0, true, 120 * SEC));
    assert!(should_reap_idle_session(0, 0, true, 120 * SEC));
    assert!(!should_reap_idle_session(0, 0, true, 119 * SEC));
    assert!(should_reap_idle_session(0, 0, false, 30 * SEC));
    assert!(!should_reap_idle_session(0, 0, false, 29 * SEC));
}

#[test]
fn resize_swap_initializes_idle_deadline_for_never_attached() {
    let e = adopt_resize_state(session_with("c", false), &carry("test", 0, false), 5);
    assert_eq!(e.idle_since, Some(5 + WAITING_FOR_FIRST_VIEWER_NANOS));
}

#[test]
fn resolve_id_does_not_steal_the_only_session_when_id_is_unknown() {
    let one = keys(&["web"]);
    assert_eq!(resolve_session_id(&one, None).as_deref(), Some("web"));
    assert_eq!(resolve_session_id(&one, Some("")).as_deref(), Some("web"));
    assert_eq!(resolve_session_id(&one, Some("web")).as_deref(), Some("web"));
    assert_eq!(resolve_session_id(&one, Some("stale")), None);
    let two = keys(&["web", "android"]);
    assert_eq!(resolve_session_id(&two, None), None);
    assert_eq!(resolve_session_id(&two, Some("android")).as_deref(), Some("android"));
}

#[test]
fn resolve_attach_session_id_prefers_key_unattached_and_newest() {
    let mut sessions = SessionTable::new();
    let mut s1 = session_with("1", true);
    s1.client_key = Some("device-a".into());
    s1.viewers = 1;
    sessions.insert_entry(s1);

    let mut s2 = session_with("2", false);
    s2.client_key = Some("device-b".into());
    s2.viewers = 0;
    sessions.insert_entry(s2);

    assert_eq!(sessions.resolve_attach_session_id(Some("1"), None).as_deref(), Some("1"));
    assert_eq!(sessions.resolve_attach_session_id(None, Some("device-a")).as_deref(), Some("1"));
    assert_eq!(sessions.resolve_attach_session_id(None, Some("device-b")).as_deref(), Some("2"));
    assert_eq!(sessions.resolve_attach_session_id(None, None).as_deref(), Some("2"));

    assert!(sessions.attach("2"));
    assert_eq!(sessions.resolve_attach_session_id(None, None).as_deref(), Some("2"));
}

#[test]
fn introspect_xml_includes_high_event_nodes() {
    let xml = r#"<!DOCTYPE node PUBLIC "-
"http://www.freedesktop.org/standards/dbus/1.0/introspect.dtd">
<node>
  <interface name="org.freedesktop.DBus.Introspectable"/>
  <node name="event0"/>
  <node name="event31"/>
  <node name="event256"/>
  <node name="event260"/>
  <node name="not-an-event"/>
</node>"#;
    let paths = event_paths_from_introspect(xml);
    assert_eq!(
        paths,
        vec![
            "/org/kde/KWin/InputDevice/event0",
            "/org/kde/KWin/InputDevice/event31",
            "/org/kde/KWin/InputDevice/event256",
            "/org/kde/KWin/InputDevice/event260",
        ]
    );
}

#[test]
fn target_resolution_prioritizes_configured_resolution() {
    let mut c = cfg(1920, 1152);
    c.refresh_hz = 90;
    assert_eq!(target_resolution(&c, 2560, 1536), (1920, 1152));
}

#[test]
fn target_resolution_adopts_client_native_when_auto() {
    let c = cfg(0, 0);
    assert_eq!(target_resolution(&c, 2560, 1536), (2560, 1536));
    assert_eq!(target_resolution(&c, 0, 0), (1920, 1080));
}

#[test]
fn attach_then_detach_leaves_session_idle_and_watched() {
    let mut t = SessionTable::new();
    t.insert_opened(session_with("a", false), 10);
    assert!(t.attach("a"));
    assert_eq!(t.get(0).viewers, 1);
    assert_eq!(t.get(0).idle_since, None);
    t.detach("a", 50);
    assert_eq!(t.get(0).viewers, 0);
    assert!(t.get(0).ever_attached);
    assert_eq!(t.get(0).idle_since, Some(50));
    assert!(!t.attach("zz"));
}

#[test]
fn reap_tick_closes_only_idle_unwatched_sessions() {
    let mut t = SessionTable::new();
    t.insert_opened(session_with("a", false), 0);
    t.insert_opened(session_with("b", false), 0);
    let closed = t.reap_tick(WAITING_FOR_FIRST_VIEWER_NANOS, &[0, 1]);
    assert_eq!(closed, vec!["a".to_string()]);
    assert_eq!(t.len(), 1);
    assert_eq!(t.get(0).id, "b");
}

#[test]
fn watched_session_survives_a_tick() {
    let mut t = SessionTable::new();
    t.insert_opened(session_with("a", true), 0);
    assert!(t.attach("a"));
    let closed = t.reap_tick(IDLE_AFTER_LAST_VIEWER_NANOS * 2, &[0]);
    assert!(closed.is_empty());
    assert_eq!(t.len(), 1);
}

#[test]
fn same_key_replaces_the_older_session() {
    let mut t = SessionTable::new();
    let mut a = session_with("a", false);
    a.client_key = Some("k".into());
    t.insert_entry(a);
    let mut b = session_with("b", false);
    b.client_key = Some("k".into());
    t.insert_entry(b);
    assert_eq!(t.len(), 1);
    assert_eq!(t.get(0).id, "b");
    assert_eq!(t.resolve_id(Some("k")).as_deref(), Some("b"));
    assert!(t.remove("b").is_some());
    assert_eq!(t.len(), 0);
}

#[test]
fn acquire_and_attach_plans() {
    let mut t = SessionTable::new();
    let c = cfg(0, 0);
    match t.attach_plan(&c, None, None) {
        AttachPlan::OpenDefault { width, height } => assert_eq!((width, height), (1920, 1080)),
        other => panic!("unexpected {other:?}"),
    }
    let mut a = session_with("a", false);
    a.client_key = Some("dev".into());
    t.insert_entry(a);
    match t.acquire_plan(&c, Some("dev"), 1280, 720) {
        AcquirePlan::Reuse { id } => assert_eq!(id, "a"),
        other => panic!("unexpected {other:?}"),
    }
    match t.acquire_plan(&c, Some("dev"), 1920, 1080) {
        AcquirePlan::Open { width, height, replace } => {
            assert_eq!((width, height), (1920, 1080));
            assert_eq!(replace.as_deref(), Some("a"));
        },
        other => panic!("unexpected {other:?}"),
    }
    assert!(matches!(t.attach_plan(&c, Some("nope"), None), AttachPlan::NoSession));
}

#[test]
fn session_ids_are_hex_counters() {
    let mut counter = 0x1f;
    assert_eq!(next_id(&mut counter), "1f");
    assert_eq!(counter, 0x20);
    let mut last = u64::MAX;
    let _ = next_id(&mut last);
    assert_eq!(last, 0);
}

#[test]
fn session_sizes_and_bitrates() {
    assert_eq!(clamp_session_size(100, 99999), (320, 4320));
    assert_eq!(clamp_session_size(1280, 720), (1280, 720));
    assert_eq!(session_bitrate(Some(5000), 12000, 9000), 5000);
    assert_eq!(session_bitrate(None, 12000, 9000), 12000);
    assert_eq!(session_bitrate(None, 8000, 9000), 9000);
    assert_eq!(session_bitrate(None, 0, 9000), 9000);
}

#[test]
fn enable_args_name_the_output() {
    let args = enable_output_args("Virtual-1", 1920);
    assert!(args.iter().any(|a| a == "output.Virtual-1.enable"));
}

#[test]
fn pacer_spaces_frames() {
    let mut p = FramePacer::new(50, 0);
    assert!(p.next_target_fits());
    assert!(!FramePacer::new(1, u64::MAX).next_target_fits());
    let (pts, sleep) = p.frame_pushed(0);
    assert_eq!(pts, 1000);
    assert_eq!(sleep, Some(20_000_000));
    let (pts2, _) = p.frame_pushed(500);
    assert_eq!(pts2, 2000);
}

#[test]
fn resize_carries_the_session_over() {
    let mut t = SessionTable::new();
    let mut a = session_with("a", true);
    a.client_key = Some("dev".into());
    a.bitrate_kbps = Some(6000);
    a.viewers = 2;
    t.insert_entry(a);
    assert!(matches!(t.resize_plan("zz", 1, 1), orbiscreen::hub::ResizePlan::Unknown));
    assert!(matches!(t.resize_plan("a", 1280, 720), orbiscreen::hub::ResizePlan::Unchanged));
    let carry = match t.resize_plan("a", 1920, 1080) {
        orbiscreen::hub::ResizePlan::Reopen { carry } => carry,
        other => panic!("unexpected {other:?}"),
    };
    assert_eq!(carry.key.as_deref(), Some("dev"));
    assert_eq!(carry.bitrate_kbps, Some(6000));
    assert_eq!(carry.viewers, 2);
    let mut b = session_with("b", false);
    b.client_key = carry.key.clone();
    b.width = 1920;
    b.height = 1080;
    let b = adopt_resize_state(b, &carry, 0);
    assert!(t.replace_after_resize("a", b));
    assert_eq!(t.len(), 1);
    assert_eq!(t.get(0).id, "b");
    assert_eq!(t.get(0).viewers, 2);
    assert!(!t.replace_after_resize("a", session_with("c", false)));
    assert_eq!(t.len(), 1);
}

#[test]
fn keyframe_requests_target_the_named_session_or_all() {
    let mut t = SessionTable::new();
    t.insert_entry(session_with("a", false));
    t.insert_entry(session_with("b", false));
    assert_eq!(t.idr_targets("b"), vec!["b".to_string()]);
    assert_eq!(t.idr_targets(""), vec!["a".to_string(), "b".to_string()]);
    assert!(t.idr_targets("zz").is_empty());
}

#[test]
fn input_paths_fall_back_to_every_event_node() {
    let found = vec!["/org/kde/KWin/InputDevice/event3".to_string()];
    assert_eq!(kwin_input_paths(found.clone()), found);
    let all = kwin_input_paths(Vec::new());
    assert_eq!(all.len(), 513);
    assert_eq!(all[0], "/org/kde/KWin/InputDevice/event0");
    assert_eq!(all[512], "/org/kde/KWin/InputDevice/event512");
}
