use orbiscreen::display::card_index;
use orbiscreen::display::{
    blanking_base, build_edid, display_status, drm_connector_name, open_refusal,
    pick_highest_card, to_tight_bgra, uses_sample_config, DisplayError, DisplayStatus,
    EdidGeometry, KernelModuleState, OwnedFrame, VirtualDisplaySpec, FOURCC_ARGB8888,
    FOURCC_RGB565, FOURCC_XRGB8888,
};

/// The physical size and blanking of an EDID, worked out in floating point
/// as the daemon does before it builds one.
fn geometry(width: u32, height: u32) -> EdidGeometry {
    let cm_w = (width as f32 / 3.0).round() as u8;
    let cm_h = (height as f32 / 3.0).round() as u8;
    let h_blank = (blanking_base(width) as f32 * 0.18) as u16;
    let v_blank = (blanking_base(height) as f32 * 0.05) as u16;
    EdidGeometry { cm_w, cm_h, h_blank, v_blank }
}

fn edid(width: u32, height: u32) -> Vec<u8> {
    build_edid(width, height, geometry(width, height))
}

fn xrgb_frame(width: u32, height: u32, stride: usize) -> Vec<u8> {
    let mut bytes = vec![0u8; height as usize * stride];
    for row in 0..height as usize {
        for col in 0..width as usize {
            let off = row * stride + col * 4;
            bytes[off] = 10;
            bytes[off + 1] = 20;
            bytes[off + 2] = 30;
        }
    }
    bytes
}

#[test]
fn spec_full_hd_60_has_expected_dimensions() {
    let s = VirtualDisplaySpec::full_hd_60();
    assert_eq!(s.width, 1920);
    assert_eq!(s.height, 1080);
    assert_eq!(s.refresh_rate_hz, 60);
}

#[test]
fn edid_1080p_has_valid_checksum() {
    let edid = edid(1920, 1080);
    let sum: u8 = edid.iter().fold(0u8, |a, b| a.wrapping_add(*b));
    assert_eq!(sum, 0, "EDID checksum must be zero");
}

#[test]
fn edid_4k_has_valid_checksum() {
    let edid = edid(3840, 2160);
    let sum: u8 = edid.iter().fold(0u8, |a, b| a.wrapping_add(*b));
    assert_eq!(sum, 0, "EDID checksum must be zero");
}

#[test]
fn edid_header_magic_is_present() {
    let edid = edid(1280, 720);
    assert_eq!(&edid[..8], &[0x00, 0xFF, 0xFF, 0xFF, 0xFF, 0xFF, 0xFF, 0x00]);
}

#[test]
fn device_config_for_1080p_uses_sample() {
    assert!(uses_sample_config(VirtualDisplaySpec::full_hd_60()));
}

#[test]
fn device_config_for_other_resolution_synthesizes() {
    let spec = VirtualDisplaySpec { width: 2560, height: 1440, refresh_rate_hz: 60 };
    assert!(!uses_sample_config(spec));
    assert_eq!(edid(spec.width, spec.height).len(), 128);
}

#[test]
fn edid_encodes_size_and_name() {
    let e = edid(2560, 1440);
    assert_eq!(&e[8..10], b"OB");
    assert_eq!(e[64], (2560 & 0xFF) as u8);
    assert_eq!(e[65], ((2560 >> 8) & 0x0F) as u8);
    assert_eq!(e[66], (1440 & 0xFF) as u8);
    assert_eq!(e[67], ((1440 >> 8) & 0x0F) as u8);
    assert_eq!(&e[95..105], b"Orbiscreen");
    assert_eq!(e[21], 853u32.min(255) as u8);
    assert_eq!(blanking_base(7), 0);
    assert_eq!(blanking_base(1920), 239);
}

#[test]
fn edid_size_of_at_least_one_centimetre() {
    let g = EdidGeometry { cm_w: 0, cm_h: 0, h_blank: 0, v_blank: 0 };
    let e = build_edid(1, 1, g);
    assert_eq!((e[21], e[22]), (1, 1));
    let sum: u8 = e.iter().fold(0u8, |a, b| a.wrapping_add(*b));
    assert_eq!(sum, 0);
}

#[test]
fn to_tight_bgra_removes_stride_padding() {
    let bytes = xrgb_frame(2, 2, 12);
    let frame = to_tight_bgra(&bytes, 12, 2, 2, FOURCC_XRGB8888).expect("convert");
    assert_eq!(frame.width, 2);
    assert_eq!(frame.height, 2);
    assert_eq!(frame.data.len(), 16);
    assert_eq!(&frame.data[0..4], &[10, 20, 30, 0]);
}

#[test]
fn to_tight_bgra_tolerates_unpadded_stride() {
    let bytes = xrgb_frame(4, 3, 16);
    let frame = to_tight_bgra(&bytes, 16, 4, 3, FOURCC_XRGB8888).expect("convert");
    assert_eq!(frame.data.len(), OwnedFrame::size_in_bytes(4, 3));
}

#[test]
fn to_tight_bgra_rejects_truncated_buffer() {
    let bytes = vec![0u8; 8];
    let result = to_tight_bgra(&bytes, 8, 4, 2, FOURCC_XRGB8888);
    assert!(result.is_err());
}

#[test]
fn to_tight_bgra_converts_rgb565() {
    let bytes = [0xFF, 0xFF];
    let frame = to_tight_bgra(&bytes, 2, 1, 1, FOURCC_RGB565).expect("convert");
    assert_eq!(frame.data, vec![0xFF, 0xFF, 0xFF, 0xFF]);
}

#[test]
fn to_tight_bgra_keeps_argb_alpha_and_rejects_other_formats() {
    let bytes = [1, 2, 3, 4];
    let frame = to_tight_bgra(&bytes, 4, 1, 1, FOURCC_ARGB8888).expect("convert");
    assert_eq!(frame.data, vec![1, 2, 3, 4]);
    // NV12, a format that drm-fourcc knows.
    match to_tight_bgra(&bytes, 4, 1, 1, 842094158) {
        Err(DisplayError::UnsupportedFormat(name)) => assert_eq!(name, "NV12"),
        other => panic!("unexpected {other:?}"),
    }
    match to_tight_bgra(&bytes, 4, 1, 1, 0x1234_5678) {
        Err(DisplayError::UnsupportedFormat(name)) => assert!(name.starts_with("unknown fourcc: ")),
        other => panic!("unexpected {other:?}"),
    }
}

#[test]
fn evdi_status_and_devices() {
    assert_eq!(display_status(KernelModuleState::Compatible, false), DisplayStatus::NoDeviceNode);
    assert_eq!(display_status(KernelModuleState::Compatible, true), DisplayStatus::Compatible);
    assert!(matches!(
        open_refusal(DisplayStatus::KernelModuleMissing),
        Some(DisplayError::KernelModuleMissing)
    ));
    assert!(open_refusal(DisplayStatus::Compatible).is_none());
    assert_eq!(pick_highest_card(&[0, 3, 1]), Some(3));
    assert_eq!(pick_highest_card(&[]), None);
    assert_eq!(drm_connector_name(0), "DVI-I-1");
}

#[test]
fn card_nodes_are_numbered() {
    assert_eq!(card_index("card0"), Some(0));
    assert_eq!(card_index("card12"), Some(12));
    assert_eq!(card_index("card+3"), Some(3));
    assert_eq!(card_index("card-1"), Some(-1));
    assert_eq!(card_index("card-2147483648"), Some(i32::MIN));
    assert_eq!(card_index("card2147483648"), None);
    assert_eq!(card_index("card-+1"), None);
    assert_eq!(card_index("card"), None);
    assert_eq!(card_index("renderD128"), None);
    assert_eq!(card_index("card1x"), None);
}
