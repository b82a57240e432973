use orbiscreen::input::{
    button_code, check_button, check_uinput_key, detect_backend, injector_order,
    input_error_for, no_injector_error, portal_button, portal_keycode, resized_extent,
    stylus_route, uinput_wheel, wayland_keycode, x_button, xtest_keycode, xtest_wheel,
    InjectorKind, InputBackend, InputError, KeyEvent, StylusKind, StylusRoute, TouchSlots,
    WaylandInputError, MAX_X_KEYCODE,
};

#[test]
fn key_event_carries_code_and_pressed() {
    let key = KeyEvent { code: 30, pressed: true };
    assert_eq!(key.code, 30);
    assert!(key.pressed);
}

#[test]
fn button_codes_map_to_linux_buttons() {
    assert_eq!(button_code(1), 0x110);
    assert_eq!(button_code(2), 0x112);
    assert_eq!(button_code(3), 0x111);
    assert_eq!(button_code(4), 0x113);
    assert_eq!(button_code(5), 0x114);
    assert_eq!(button_code(6), 0x115);
    assert_eq!(button_code(7), 0x116);
    assert_eq!(button_code(8), 0x117);
}

#[test]
fn button_codes_stay_within_registered_keys() {
    for button in 1..=8 {
        let code = button_code(button);
        assert!(
            (0x110..=0x117).contains(&code),
            "button {button} maps to {code:#x}, outside registered key range"
        );
    }
}

#[test]
fn wayland_input_error_messages_are_clear() {
    let error = WaylandInputError::PermissionDenied;
    assert!(error.message().to_lowercase().contains("denied"));
    let converted: InputError = input_error_for(error);
    assert!(converted.message().contains("permission"));
}

#[test]
fn key_state_maps_correctly() {
    let pressed = KeyEvent { code: 30, pressed: true };
    let released = KeyEvent { code: 30, pressed: false };
    assert_ne!(pressed, released);
}

#[test]
fn wl_keycode_is_evdev_plus_8() {
    assert_eq!(wayland_keycode(30), Some(38));
    assert_eq!(button_code(1), 272);
}

#[test]
fn linux_button_codes_are_reused() {
    assert_eq!(button_code(1), 0x110);
    assert_eq!(button_code(3), 0x111);
}

#[test]
fn x_buttons_map_1_2_3_directly_and_rest_to_8_plus() {
    assert_eq!(x_button(1), 1);
    assert_eq!(x_button(2), 2);
    assert_eq!(x_button(3), 3);
    assert_eq!(x_button(4), 8);
    assert_eq!(x_button(8), 12);
}

#[test]
fn keycode_offset_is_8() {
    assert_eq!(xtest_keycode(30).unwrap(), 38);
    assert_eq!(xtest_keycode(MAX_X_KEYCODE).unwrap() as u32, 255);
}

#[test]
fn detect_prefers_wayland_when_present() {
    assert_eq!(detect_backend(true), InputBackend::Wayland);
    assert_eq!(detect_backend(false), InputBackend::X11);
}

#[test]
fn out_of_range_codes_are_errors() {
    assert!(check_button(0).is_err());
    assert!(check_button(9).is_err());
    assert!(check_button(8).is_ok());
    match check_uinput_key(249) {
        Err(e) => assert_eq!(e.message(), "uinput error: invalid key code: 249"),
        Ok(()) => panic!("249 must be refused"),
    }
    assert!(check_uinput_key(248).is_ok());
    match xtest_keycode(248) {
        Err(InputError::Uinput(m)) => {
            assert_eq!(m, "key code 248 cannot be mapped onto X11 (max 247)")
        },
        Ok(_) => panic!("248 must be refused"),
    }
    assert_eq!(wayland_keycode(0), None);
    assert_eq!(wayland_keycode(256), None);
    assert_eq!(portal_button(3).unwrap(), 3);
    assert!(portal_button(u32::MAX).is_err());
    assert_eq!(portal_keycode(30).unwrap(), 30);
    assert!(portal_keycode(1 << 31).is_err());
}

#[test]
fn wheel_steps_map_to_axis_and_buttons() {
    assert_eq!(uinput_wheel(3), (3, -1));
    assert_eq!(xtest_wheel(-2), (5, 2));
    assert_eq!(xtest_wheel(2), (4, 2));
}

#[test]
fn resize_ignores_empty_sizes() {
    assert_eq!(resized_extent(1920, 1080, 0, 720), (1920, 1080));
    assert_eq!(resized_extent(1920, 1080, 1280, 720), (1280, 720));
}

#[test]
fn injector_fallbacks_and_routes() {
    assert!(!injector_order(InputBackend::Wayland).is_empty());
    assert!(no_injector_error(true).message().len() > 0);
    assert_eq!(stylus_route(InjectorKind::Uinput, StylusKind::Proximity), StylusRoute::Tablet);
}

#[test]
fn touch_down_then_up_releases_btn_touch() {
    let mut slots = TouchSlots::new(10);
    let down = slots.apply(0, 5, true).expect("down");
    assert_eq!(down.btn_touch, Some(true));
    assert_eq!(down.start_tracking, Some(5));
    assert_eq!(slots.active_count(), 1);
    let second = slots.apply(1, -1, true).expect("second down");
    assert_eq!(second.btn_touch, None);
    assert_eq!(second.start_tracking, Some(1));
    assert_eq!(slots.active_count(), 2);
    let up = slots.apply(1, -1, false).expect("up");
    assert!(up.end_tracking);
    assert_eq!(up.btn_touch, None);
    let last = slots.apply(0, 5, false).expect("last up");
    assert_eq!(last.btn_touch, Some(false));
    assert_eq!(slots.active_count(), 0);
}
