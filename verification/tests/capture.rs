use orbiscreen::capture::sample_frame_size;
use orbiscreen::capture::{
    assemble_frame_rows, check_image_size, detect_backend, fast_frame_hash, frame_is_unchanged,
    open_plan, screencopy_frame_len, CaptureBackend, CaptureError, CapturePreference,
    CaptureSession, CaptureUnavailable, CapturedFrame, OpenPlan, WaylandCaptureError,
    WaylandCaptureSpec, WlrScreencopyError,
};

fn assemble(src: &[u8], width: u32, height: u32, stride: u32, premultiplied: bool) -> Option<Vec<u8>> {
    let mut dst = vec![0u8; (width as usize) * 4 * height as usize];
    if assemble_frame_rows(&mut dst, src, width, height, stride, premultiplied) {
        Some(dst)
    } else {
        None
    }
}

#[test]
fn size_in_bytes_is_w_h_4() {
    assert_eq!(CapturedFrame::size_in_bytes(1920, 1080), 1920 * 1080 * 4);
    assert_eq!(CapturedFrame::size_in_bytes(0, 0), 0);
}

#[test]
fn capture_preference_parses_known_values() {
    assert_eq!(
        CapturePreference::parse("kwin-virtual"),
        CapturePreference::KwinVirtual
    );
    assert_eq!(CapturePreference::parse("portal"), CapturePreference::Portal);
    assert_eq!(CapturePreference::parse("auto"), CapturePreference::Auto);
    assert_eq!(
        CapturePreference::parse("nonsense"),
        CapturePreference::Auto
    );
}

#[test]
fn empty_frame_is_zeroes() {
    let frame = CapturedFrame {
        width: 4,
        height: 2,
        data: vec![0; 32],
    };
    assert_eq!(frame.data.len(), 32);
    assert!(frame.data.iter().all(|b| *b == 0));
}

#[test]
fn assembly_copies_contiguous_rows() {
    let src = vec![7u8; 4 * 3];
    let data = assemble(&src, 3, 1, 12, false).expect("assembly");
    assert_eq!(data, src);
}

#[test]
fn assembly_strips_stride_padding() {
    let src = [
        0xAA, 0xBB, 0xCC, 0xDD, 0x01, 0x02, 0x03, 0x04, 0xFF, 0xFF, 0xFF, 0xFF, 0xFF, 0xFF, 0xFF,
        0xFF, 0x11, 0x22, 0x33, 0x44, 0x05, 0x06, 0x07, 0x08,
    ];
    let data = assemble(&src, 2, 2, 16, false).expect("assembly");
    assert_eq!(data.len(), 16);
    assert_eq!(&data[..8], &src[..8]);
    assert_eq!(data[8..], src[16..24]);
}

#[test]
fn assembly_forces_opaque_alpha_for_premultiplied_xrgb() {
    let src = [0x10, 0x20, 0x30, 0x00, 0x40, 0x50, 0x60, 0x7F];
    let data = assemble(&src, 2, 1, 8, true).expect("assembly");
    assert_eq!(data[3], 0xFF);
    assert_eq!(data[7], 0xFF);
    assert_eq!(&data[..3], &src[..3]);
    assert_eq!(&data[4..7], &src[4..7]);
}

#[test]
fn assembly_keeps_alpha_for_argb_source() {
    let src = [0x10, 0x20, 0x30, 0x7F];
    let data = assemble(&src, 1, 1, 4, false).expect("assembly");
    assert_eq!(data[3], 0x7F);
}

#[test]
fn assembly_rejects_short_buffers() {
    let src = vec![0u8; 7];
    assert!(assemble(&src, 2, 1, 8, false).is_none());
    assert!(assemble(&src, 1, 2, 4, false).is_none());
}

#[test]
fn assembly_handles_zero_sized_frames() {
    let data = assemble(&[], 0, 0, 0, true).expect("assembly");
    assert!(data.is_empty());
}

#[test]
fn assembly_refuses_a_destination_of_the_wrong_size() {
    let src = [1u8; 8];
    let mut dst = vec![0u8; 4];
    assert!(!assemble_frame_rows(&mut dst, &src, 2, 1, 8, false));
    assert_eq!(dst, vec![0u8; 4]);
}

#[test]
fn hash_is_deterministic() {
    let data = vec![0xAB; 64];
    assert_eq!(fast_frame_hash(&data), fast_frame_hash(&data));
}

#[test]
fn hash_detects_single_bit_change() {
    let mut a = vec![0u8; 256];
    let mut b = a.clone();
    b[127] ^= 1;
    assert_ne!(fast_frame_hash(&a), fast_frame_hash(&b));
    a[0] ^= 0x80;
    assert_ne!(fast_frame_hash(&a), fast_frame_hash(&b));
}

#[test]
fn hash_depends_on_length() {
    let short = vec![0u8; 15];
    let long = vec![0u8; 16];
    assert_ne!(fast_frame_hash(&short), fast_frame_hash(&long));
}

#[test]
fn hash_handles_unaligned_tail() {
    let data: Vec<u8> = (0..37u8).collect();
    assert_eq!(fast_frame_hash(&data), fast_frame_hash(&data));
}

#[test]
fn hash_handles_empty_input() {
    assert_eq!(fast_frame_hash(&[]), fast_frame_hash(&[]));
}

#[test]
fn hash_of_empty_input_is_the_two_seeds() {
    assert_eq!(
        fast_frame_hash(&[]),
        [0xcbf2_9ce4_8422_2325, 0x9e37_79b9_7f4a_7c15]
    );
}

#[test]
fn hash_of_one_byte_follows_the_tail_rule() {
    let a = (0xcbf2_9ce4_8422_2325u64 ^ 5).wrapping_mul(0x0000_0100_0000_01b3) ^ 1;
    let b = (0x9e37_79b9_7f4a_7c15u64 ^ 5).wrapping_mul(0x0000_0100_0000_01b3) ^ 1;
    assert_eq!(fast_frame_hash(&[5]), [a, b]);
}

#[test]
fn unchanged_frames_are_detected_by_hash() {
    let mut last = None;
    assert!(!frame_is_unchanged(&mut last, [1, 2]));
    assert!(frame_is_unchanged(&mut last, [1, 2]));
    assert!(!frame_is_unchanged(&mut last, [1, 3]));
    assert_eq!(last, Some([1, 3]));
}

#[test]
fn open_plan_follows_session_and_preference() {
    assert_eq!(open_plan(false, CapturePreference::Auto), OpenPlan::X11Root);
    assert_eq!(
        open_plan(false, CapturePreference::KwinVirtual),
        OpenPlan::Unavailable(CaptureUnavailable::KwinNeedsWayland)
    );
    assert_eq!(
        open_plan(false, CapturePreference::Mirror),
        OpenPlan::Unavailable(CaptureUnavailable::PortalNeedsWayland)
    );
    assert_eq!(open_plan(true, CapturePreference::Auto), OpenPlan::KwinThenPortal);
    assert_eq!(open_plan(true, CapturePreference::KwinVirtual), OpenPlan::KwinOnly);
    assert_eq!(open_plan(true, CapturePreference::Mirror), OpenPlan::Portal);
    assert_eq!(
        CaptureUnavailable::KwinNeedsWayland.message(),
        "kwin-virtual capture requires a Wayland session"
    );
}

#[test]
fn backend_detection_follows_wayland_display() {
    assert_eq!(detect_backend(true), CaptureBackend::Wayland);
    assert_eq!(detect_backend(false), CaptureBackend::X11);
}

#[test]
fn only_a_closed_kwin_output_ends_a_session() {
    let mut kwin = CaptureSession::opened(CaptureBackend::KwinVirtual, 1280, 720);
    assert!(!kwin.is_ended());
    kwin.mark_source_ended();
    assert!(kwin.is_ended());
    assert_eq!((kwin.width(), kwin.height()), (1280, 720));
    let mut x11 = CaptureSession::opened(CaptureBackend::X11, 800, 600);
    x11.mark_source_ended();
    assert!(!x11.is_ended());
    assert_eq!(x11.backend(), CaptureBackend::X11);
}

#[test]
fn image_size_checks_name_both_sizes() {
    assert!(check_image_size(16, 16, true).is_ok());
    match check_image_size(10, 16, true) {
        Err(CaptureError::Io(m)) => assert_eq!(m, "shm GetImage wrote 10 B, expected 16 B"),
        other => panic!("unexpected {other:?}"),
    }
    match check_image_size(10, 16, false) {
        Err(CaptureError::Io(m)) => assert_eq!(m, "GetImage reply truncated: need 16 B, have 10"),
        other => panic!("unexpected {other:?}"),
    }
}

#[test]
fn screencopy_frame_length_checks_stride_and_mapping() {
    assert_eq!(screencopy_frame_len(2, 3, 8, 24), Some(24));
    assert_eq!(screencopy_frame_len(2, 3, 7, 24), None);
    assert_eq!(screencopy_frame_len(2, 3, 8, 23), None);
    assert_eq!(screencopy_frame_len(u32::MAX, u32::MAX, u32::MAX, usize::MAX), None);
}

#[test]
fn capture_error_messages() {
    assert_eq!(CaptureError::X11Protocol(8).message(), "x11 protocol error code 8");
    assert_eq!(
        CaptureError::BackendUnavailable("x").message(),
        "capture backend unavailable: x"
    );
    assert_eq!(
        WlrScreencopyError::OutputNotFound("HDMI-A-1".to_string()).message(),
        "no output named \"HDMI-A-1\" was advertised by the compositor"
    );
}

#[test]
fn wayland_capture_error_displays_useful_message() {
    let err = WaylandCaptureError::PermissionDenied;
    assert!(err.message().to_lowercase().contains("denied"));
}

#[test]
fn wayland_capture_spec_constructs() {
    let spec = WaylandCaptureSpec {
        width: 1920,
        height: 1080,
    };
    assert_eq!(spec.width * spec.height, 1920 * 1080);
}

#[test]
fn repeated_frame_is_skipped() {
    let mut last = None;
    let a = fast_frame_hash(&[1, 2, 3, 4]);
    let b = fast_frame_hash(&[1, 2, 3, 5]);
    assert!(!frame_is_unchanged(&mut last, a));
    assert!(frame_is_unchanged(&mut last, a));
    assert!(!frame_is_unchanged(&mut last, b));
    assert!(frame_is_unchanged(&mut last, b));
}

#[test]
fn samples_must_hold_a_whole_frame() {
    assert_eq!(sample_frame_size(2, 2, 16), Some((2, 2)));
    assert_eq!(sample_frame_size(2, 2, 15), None);
    assert_eq!(sample_frame_size(0, 5, 0), Some((0, 5)));
    assert_eq!(sample_frame_size(1920, 1080, 1920 * 1080 * 4), Some((1920, 1080)));
}

#[test]
fn an_ended_session_refuses_its_next_frame() {
    let mut kwin = CaptureSession::opened(CaptureBackend::KwinVirtual, 640, 480);
    assert!(kwin.ended_error().is_none());
    kwin.mark_source_ended();
    assert_eq!(
        kwin.ended_error(),
        Some(CaptureError::Io("KWin virtual output stream was closed".to_string()))
    );
    kwin.mark_source_ended();
    assert!(kwin.is_ended());
    let mut x11 = CaptureSession::opened(CaptureBackend::X11, 640, 480);
    x11.mark_source_ended();
    assert!(x11.ended_error().is_none());
}

#[test]
fn assembly_keeps_rows_copied_before_a_short_one() {
    let src = [1u8, 2, 3, 4];
    let mut dst = vec![0xAAu8; 8];
    assert!(!assemble_frame_rows(&mut dst, &src, 1, 2, 4, true));
    assert_eq!(dst, vec![1, 2, 3, 0xFF, 0xAA, 0xAA, 0xAA, 0xAA]);
}
