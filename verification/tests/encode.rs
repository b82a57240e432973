use orbiscreen::encode::{
    appsrc_max_bytes, check_frame, encoder_candidates, encoder_properties, frame_duration_ns,
    pick_encoder, EncodeError, EncodeParams, EncoderKind,
};

#[test]
fn parses_known_encoders() {
    assert_eq!(EncoderKind::parse("x264"), Some(EncoderKind::X264));
    assert_eq!(EncoderKind::parse("NVENC"), Some(EncoderKind::Nvenc));
    assert_eq!(EncoderKind::parse("Vaapi"), Some(EncoderKind::Vaapi));
}

#[test]
fn rejects_unknown_encoders() {
    assert_eq!(EncoderKind::parse("vp9"), None);
    assert_eq!(EncoderKind::parse(""), None);
}

#[test]
fn gst_element_names_are_stable() {
    assert_eq!(EncoderKind::X264.gst_element(), "x264enc");
    assert_eq!(EncoderKind::Nvenc.gst_element(), "nvh264enc");
    assert_eq!(EncoderKind::Vaapi.gst_element(), "vaapih264enc");
}

#[test]
fn default_params_target_full_hd() {
    let params = EncodeParams::default();
    assert_eq!(params.width, 1920);
    assert_eq!(params.height, 1080);
    assert_eq!(params.framerate, 60);
    assert_eq!(params.kind, EncoderKind::X264);
}

#[test]
fn detect_available_returns_a_known_kind() {
    let kind = pick_encoder(EncoderKind::X264, false, false, false);
    assert!(matches!(kind, EncoderKind::X264 | EncoderKind::Vaapi | EncoderKind::Nvenc));
}

#[test]
fn frame_duration_ns_matches_framerate() {
    assert_eq!(frame_duration_ns(60), 16_666_666);
    assert_eq!(frame_duration_ns(30), 33_333_333);
    assert_eq!(frame_duration_ns(0), 1_000_000_000);
}

#[test]
fn unavailable_preference_falls_back_in_order() {
    assert_eq!(pick_encoder(EncoderKind::Nvenc, true, true, true), EncoderKind::Nvenc);
    assert_eq!(pick_encoder(EncoderKind::Nvenc, true, false, true), EncoderKind::X264);
    assert_eq!(pick_encoder(EncoderKind::Nvenc, true, false, false), EncoderKind::Vaapi);
    assert_eq!(pick_encoder(EncoderKind::Vaapi, false, true, false), EncoderKind::Nvenc);
    assert_eq!(
        encoder_candidates(EncoderKind::Nvenc),
        vec![EncoderKind::Nvenc, EncoderKind::X264, EncoderKind::Vaapi, EncoderKind::Nvenc]
    );
}

#[test]
fn x264_gets_low_latency_properties() {
    let props = encoder_properties(EncoderKind::X264, 8000, true, true, false);
    assert_eq!(
        props,
        vec![
            ("bitrate".to_string(), "8000".to_string()),
            ("tune".to_string(), "zerolatency".to_string()),
            ("speed-preset".to_string(), "ultrafast".to_string()),
            ("repeat-headers".to_string(), "true".to_string()),
        ]
    );
    assert!(encoder_properties(EncoderKind::Vaapi, 8000, false, true, true).is_empty());
}

#[test]
fn x264_keyframes_every_six_frames() {
    let props = encoder_properties(EncoderKind::X264, 4000, false, false, true);
    assert_eq!(
        props,
        vec![
            ("tune".to_string(), "zerolatency".to_string()),
            ("speed-preset".to_string(), "ultrafast".to_string()),
            ("key-int-max".to_string(), "6".to_string()),
        ]
    );
}

#[test]
fn frames_of_another_size_are_refused() {
    assert!(check_frame(16, 2, 2, 2, 2).is_ok());
    match check_frame(12, 2, 2, 2, 2) {
        Err(e) => assert_eq!(e.message(), "frame size 12 B does not match encoder config 16 B (2x2x4)"),
        Ok(()) => panic!("short frame accepted"),
    }
    assert!(matches!(check_frame(16, 4, 1, 2, 2), Err(EncodeError::FrameSizeMismatch { .. })));
    assert_eq!(appsrc_max_bytes(1920, 1080), 1920 * 1080 * 4 * 60);
}
