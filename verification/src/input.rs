//! Input injection: which injector to open in a session, the checks and
//! code mappings that every injector applies to the client's buttons and
//! keys, and the bookkeeping of the touchscreen's contact slots.
use vstd::prelude::*;

use crate::text::{decimal_of, push_decimal, string_from};

verus! {

broadcast use vstd::string::group_string_axioms;

/// Wheel steps in one event are capped at this many.
pub const MAX_WHEEL_STEPS: i32 = 12;

/// The highest evdev key code that still maps onto an X11 key code.
pub const MAX_X_KEYCODE: u32 = 247;

/// The highest evdev key code that the uinput keyboard registers.
pub const MAX_UINPUT_KEYCODE: u32 = 248;

#[derive(Debug, Clone, Copy, PartialEq, Eq, Structural)]
pub struct KeyEvent {
    pub code: u32,
    pub pressed: bool,
}

#[derive(Debug, Clone, Copy, PartialEq, Eq, Structural)]
pub enum InputBackend {
    X11,
    Wayland,
}

/// The input backend: Wayland where `WAYLAND_DISPLAY` is set, else X11.
pub fn detect_backend(wayland_display_set: bool) -> (r: InputBackend)
    ensures
        r == (if wayland_display_set {
            InputBackend::Wayland
        } else {
            InputBackend::X11
        }),
{
    if wayland_display_set {
        InputBackend::Wayland
    } else {
        InputBackend::X11
    }
}

#[derive(Debug, Clone)]
pub enum InputError {
    Uinput(String),
}

impl InputError {
    pub open spec fn text(self) -> Seq<char> {
        match self {
            InputError::Uinput(m) => "uinput error: "@ + m@,
        }
    }

    /// The error's message.
    pub fn message(&self) -> (r: String)
        ensures
            r@ == self.text(),
    {
        match self {
            InputError::Uinput(m) => {
                let mut s = string_from("uinput error: ");
                s.append(m.as_str());
                s
            },
        }
    }
}

#[derive(Debug, Clone)]
pub struct VirtualTouchscreenSpec {
    pub width: u32,
    pub height: u32,
    pub output_name: Option<String>,
}

#[derive(Debug, Clone, Copy, PartialEq, Eq, Structural)]
pub enum InjectorKind {
    Uinput,
    Xtest,
    Portal,
    Wlroots,
}

/// The injectors to try, in order: on X11 XTEST (no root needed), then
/// uinput; on Wayland uinput, then the wlroots virtual-input protocols,
/// then the RemoteDesktop portal.
pub open spec fn spec_injector_order(backend: InputBackend) -> Seq<InjectorKind> {
    match backend {
        InputBackend::X11 => seq![InjectorKind::Xtest, InjectorKind::Uinput],
        InputBackend::Wayland => seq![
            InjectorKind::Uinput,
            InjectorKind::Wlroots,
            InjectorKind::Portal,
        ],
    }
}

pub fn injector_order(backend: InputBackend) -> (r: Vec<InjectorKind>)
    ensures
        r@ == spec_injector_order(backend),
{
    let v = match backend {
        InputBackend::X11 => vec![InjectorKind::Xtest, InjectorKind::Uinput],
        InputBackend::Wayland => vec![
            InjectorKind::Uinput,
            InjectorKind::Wlroots,
            InjectorKind::Portal,
        ],
    };
    assert(v@ =~= spec_injector_order(backend));
    v
}

/// The error when no Wayland injector could be opened: the portal was the
/// last one tried, and it either failed or did not answer in time.
pub fn no_injector_error(portal_timed_out: bool) -> (r: InputError)
    ensures
        r matches InputError::Uinput(m) && m@ == (if portal_timed_out {
            "portal RemoteDesktop timed out"@
        } else {
            "no usable input injector found (uinput and portal both failed)"@
        }),
{
    if portal_timed_out {
        InputError::Uinput(string_from("portal RemoteDesktop timed out"))
    } else {
        InputError::Uinput(string_from("no usable input injector found (uinput and portal both failed)"))
    }
}

/// The injector that was opened. The device itself stays with the caller.
#[derive(Debug, Clone, Copy)]
pub struct InputInjector {
    kind: InjectorKind,
}

impl InputInjector {
    pub closed spec fn spec_kind(self) -> InjectorKind {
        self.kind
    }

    pub fn opened(kind: InjectorKind) -> (r: Self)
        ensures
            r.spec_kind() == kind,
    {
        InputInjector { kind }
    }

    pub fn backend(&self) -> (r: InjectorKind)
        ensures
            r == self.spec_kind(),
    {
        self.kind
    }
}

/// The kind of a stylus event.
#[derive(Debug, Clone, Copy, PartialEq, Eq, Structural)]
pub enum StylusKind {
    Proximity,
    Pressure,
    Tilt,
}

/// Where a stylus event goes.
#[derive(Debug, Clone, Copy, PartialEq, Eq, Structural)]
pub enum StylusRoute {
    /// To the uinput tablet.
    Tablet,
    /// As a pointer move to its position.
    PointerMove,
    /// Nowhere.
    Ignore,
}

/// Only uinput has a tablet; elsewhere a stylus with a position moves the
/// pointer and a proximity event is dropped.
pub fn stylus_route(kind: InjectorKind, event: StylusKind) -> (r: StylusRoute)
    ensures
        r == (if kind == InjectorKind::Uinput {
            StylusRoute::Tablet
        } else if event == StylusKind::Proximity {
            StylusRoute::Ignore
        } else {
            StylusRoute::PointerMove
        }),
{
    if kind == InjectorKind::Uinput {
        StylusRoute::Tablet
    } else if event == StylusKind::Proximity {
        StylusRoute::Ignore
    } else {
        StylusRoute::PointerMove
    }
}

/// The Linux button code for client button `button` (1 left, 2 middle,
/// 3 right, then the side buttons from `BTN_SIDE` on).
pub open spec fn spec_button_code(button: u32) -> int {
    if button == 1 {
        0x110
    } else if button == 2 {
        0x112
    } else if button == 3 {
        0x111
    } else {
        button + 0x10F
    }
}

pub fn button_code(button: u32) -> (r: u32)
    requires
        button + 0x10F <= u32::MAX,
    ensures
        r == spec_button_code(button),
{
    if button == 1 {
        0x110
    } else if button == 2 {
        0x112
    } else if button == 3 {
        0x111
    } else {
        button + 0x10F
    }
}

/// The X11 core button for client button `button`: 1 to 3 as they are, the
/// rest from 8 on (4 to 7 are the scroll buttons).
pub open spec fn spec_x_button(button: u32) -> u8 {
    if button == 1 {
        1
    } else if button == 2 {
        2
    } else if button == 3 {
        3
    } else {
        ((button + 4) % 256) as u8
    }
}

pub fn x_button(button: u32) -> (r: u8)
    requires
        button + 4 <= u32::MAX,
    ensures
        r == spec_x_button(button),
{
    if button == 1 {
        1
    } else if button == 2 {
        2
    } else if button == 3 {
        3
    } else {
        ((button + 4) % 256) as u8
    }
}

/// Client buttons are numbered 1 to 8.
pub fn check_button(button: u32) -> (r: Result<(), InputError>)
    ensures
        (1 <= button <= 8) ==> r is Ok,
        !(1 <= button <= 8) ==> (r matches Err(InputError::Uinput(m)) && m@ == "invalid button: "@
            + decimal_of(button as nat)),
{
    if button == 0 || button > 8 {
        let mut m = string_from("invalid button: ");
        push_decimal(&mut m, button as u64);
        return Err(InputError::Uinput(m));
    }
    Ok(())
}

/// The uinput keyboard takes key codes 1 to 248.
pub fn check_uinput_key(code: u32) -> (r: Result<(), InputError>)
    ensures
        (1 <= code <= MAX_UINPUT_KEYCODE) ==> r is Ok,
        !(1 <= code <= MAX_UINPUT_KEYCODE) ==> (r matches Err(InputError::Uinput(m)) && m@
            == "invalid key code: "@ + decimal_of(code as nat)),
{
    if code == 0 || code > 248 {
        let mut m = string_from("invalid key code: ");
        push_decimal(&mut m, code as u64);
        return Err(InputError::Uinput(m));
    }
    Ok(())
}

/// The X11 key code for evdev key `code`: 8 higher, for codes 1 to 247.
pub fn xtest_keycode(code: u32) -> (r: Result<u8, InputError>)
    ensures
        (1 <= code <= MAX_X_KEYCODE) ==> r == Ok::<u8, InputError>((code + 8) as u8),
        !(1 <= code <= MAX_X_KEYCODE) ==> (r matches Err(InputError::Uinput(m)) && m@
            == "key code "@ + decimal_of(code as nat) + " cannot be mapped onto X11 (max 247)"@),
{
    if code == 0 || code > 247 {
        let mut m = string_from("key code ");
        push_decimal(&mut m, code as u64);
        m.append(" cannot be mapped onto X11 (max 247)");
        return Err(InputError::Uinput(m));
    }
    Ok((code + 8) as u8)
}

/// The Wayland key code for evdev key `code`: 8 higher, for codes 1 to 255;
/// others are dropped.
pub fn wayland_keycode(code: u32) -> (r: Option<u32>)
    ensures
        (1 <= code <= 0xFF) ==> r == Some((code + 8) as u32),
        !(1 <= code <= 0xFF) ==> r is None,
{
    if code == 0 || code > 0xFF {
        None
    } else {
        Some(code + 8)
    }
}

/// The portal takes buttons as `i32`.
pub fn portal_button(button: u32) -> (r: Result<i32, InputError>)
    ensures
        button <= i32::MAX ==> r == Ok::<i32, InputError>(button as i32),
        button > i32::MAX ==> (r matches Err(InputError::Uinput(m)) && m@ == "invalid button: "@
            + decimal_of(button as nat)),
{
    if button > 2147483647 {
        let mut m = string_from("invalid button: ");
        push_decimal(&mut m, button as u64);
        return Err(InputError::Uinput(m));
    }
    Ok(button as i32)
}

/// The portal takes key codes as `i32`.
pub fn portal_keycode(code: u32) -> (r: Result<i32, InputError>)
    ensures
        code <= i32::MAX ==> r == Ok::<i32, InputError>(code as i32),
        code > i32::MAX ==> (r matches Err(InputError::Uinput(m)) && m@ == "invalid key code: "@
            + decimal_of(code as nat)),
{
    if code > 2147483647 {
        let mut m = string_from("invalid key code: ");
        push_decimal(&mut m, code as u64);
        return Err(InputError::Uinput(m));
    }
    Ok(code as i32)
}

/// Wheel steps as uinput writes them: one `REL_WHEEL` event per step, each
/// of value -1 when scrolling down the page (positive steps), +1 up.
pub fn uinput_wheel(steps: i32) -> (r: (u32, i32))
    ensures
        r.0 == (if steps >= 0 {
            steps as int
        } else {
            -(steps as int)
        }),
        r.1 == (if steps > 0 {
            -1int
        } else if steps < 0 {
            1int
        } else {
            0int
        }),
{
    let count: u32 = if steps >= 0 {
        steps as u32
    } else {
        (-(steps as i64)) as u32
    };
    let value: i32 = if steps > 0 {
        -1
    } else if steps < 0 {
        1
    } else {
        0
    };
    (count, value)
}

/// Wheel steps as XTEST clicks: button 4 (up) for nonnegative steps, 5
/// (down) otherwise, one click per step.
pub fn xtest_wheel(steps: i32) -> (r: (u8, u32))
    ensures
        r.0 == (if steps >= 0 {
            4u8
        } else {
            5u8
        }),
        r.1 == (if steps >= 0 {
            steps as int
        } else {
            -(steps as int)
        }),
{
    if steps >= 0 {
        (4, steps as u32)
    } else {
        (5, (-(steps as i64)) as u32)
    }
}

/// The pointer area, which a resize changes only to a nonzero size.
pub fn resized_extent(width: u32, height: u32, new_width: u32, new_height: u32) -> (r: (u32, u32))
    ensures
        r == (if new_width > 0 && new_height > 0 {
            (new_width, new_height)
        } else {
            (width, height)
        }),
{
    if new_width > 0 && new_height > 0 {
        (new_width, new_height)
    } else {
        (width, height)
    }
}

#[derive(Debug, Clone)]
pub enum WaylandInputError {
    PortalUnavailable(String),
    Dbus(String),
    PermissionDenied,
}

impl WaylandInputError {
    pub open spec fn text(self) -> Seq<char> {
        match self {
            WaylandInputError::PortalUnavailable(m) => "remotedesktop portal not available: "@
                + m@,
            WaylandInputError::Dbus(m) => "portal D-Bus error: "@ + m@,
            WaylandInputError::PermissionDenied => "user denied the RemoteDesktop permission"@,
        }
    }

    /// The error's message.
    pub fn message(&self) -> (r: String)
        ensures
            r@ == self.text(),
    {
        match self {
            WaylandInputError::PortalUnavailable(m) => {
                let mut s = string_from("remotedesktop portal not available: ");
                s.append(m.as_str());
                s
            },
            WaylandInputError::Dbus(m) => {
                let mut s = string_from("portal D-Bus error: ");
                s.append(m.as_str());
                s
            },
            WaylandInputError::PermissionDenied => string_from(
                "user denied the RemoteDesktop permission",
            ),
        }
    }
}

pub open spec fn input_error_from_wayland(e: WaylandInputError) -> Seq<char> {
    match e {
        WaylandInputError::PermissionDenied => "permission denied"@,
        _ => e.text(),
    }
}

/// The injector error for a portal error: a denied grant reads
/// `permission denied`, others keep their message.
pub fn input_error_for(error: WaylandInputError) -> (r: InputError)
    ensures
        r matches InputError::Uinput(m) && m@ == input_error_from_wayland(error),
{
    match error {
        WaylandInputError::PermissionDenied => InputError::Uinput(string_from("permission denied")),
        other => InputError::Uinput(other.message()),
    }
}

/// The number of slots in `s` that hold a contact.
pub open spec fn count_active(s: Seq<bool>) -> nat
    decreases s.len(),
{
    if s.len() == 0 {
        0
    } else {
        count_active(s.drop_last()) + (if s.last() {
            1nat
        } else {
            0nat
        })
    }
}

proof fn lemma_count_bound(s: Seq<bool>)
    ensures
        count_active(s) <= s.len(),
    decreases s.len(),
{
    if s.len() > 0 {
        lemma_count_bound(s.drop_last());
    }
}

proof fn lemma_count_update(s: Seq<bool>, i: int, v: bool)
    requires
        0 <= i < s.len(),
    ensures
        count_active(s.update(i, v)) + (if s[i] {
            1int
        } else {
            0int
        }) == count_active(s) + (if v {
            1int
        } else {
            0int
        }),
    decreases s.len(),
{
    let t = s.update(i, v);
    if i == s.len() - 1 {
        assert(t.drop_last() =~= s.drop_last());
    } else {
        lemma_count_update(s.drop_last(), i, v);
        assert(t.drop_last() =~= s.drop_last().update(i, v));
    }
}

/// What one touch event changes on the touchscreen: the slot it goes to,
/// the tracking id a new contact starts with, whether its position is sent,
/// whether the contact ends, and the `BTN_TOUCH` change (the first contact
/// down presses it, the last one up releases it).
#[derive(Debug, Clone, Copy, PartialEq, Eq, Structural)]
pub struct TouchPlan {
    pub slot: u32,
    pub start_tracking: Option<i32>,
    pub send_position: bool,
    pub end_tracking: bool,
    pub btn_touch: Option<bool>,
}

/// The contact slots of the virtual touchscreen: which hold a contact, and
/// how many do.
#[derive(Debug, Clone)]
pub struct TouchSlots {
    active: Vec<bool>,
    count: u8,
}

impl View for TouchSlots {
    type V = (Seq<bool>, u8);

    closed spec fn view(&self) -> (Seq<bool>, u8) {
        (self.active@, self.count)
    }
}

/// The slot an event goes to: its own, or the last one when it names a
/// slot beyond.
pub open spec fn clamp_slot(slot: u32, slots: int) -> int {
    if slot < slots {
        slot as int
    } else {
        slots - 1
    }
}

/// The slots after one event, and the plan for it (none for the release of
/// a slot that holds no contact).
pub open spec fn spec_touch(st: (Seq<bool>, u8), slot: u32, id: i32, pressed: bool) -> (
    (Seq<bool>, u8),
    Option<TouchPlan>,
) {
    let k = clamp_slot(slot, st.0.len() as int);
    let was = st.0[k];
    let tracking = if id >= 0 {
        id
    } else {
        k as i32
    };
    if pressed && !was {
        let n = (st.1 + 1) as u8;
        (
            (st.0.update(k, true), n),
            Some(
                TouchPlan {
                    slot: k as u32,
                    start_tracking: Some(tracking),
                    send_position: true,
                    end_tracking: false,
                    btn_touch: if n == 1 {
                        Some(true)
                    } else {
                        None
                    },
                },
            ),
        )
    } else if !pressed && was {
        let n = (st.1 - 1) as u8;
        (
            (st.0.update(k, false), n),
            Some(
                TouchPlan {
                    slot: k as u32,
                    start_tracking: None,
                    send_position: false,
                    end_tracking: true,
                    btn_touch: if n == 0 {
                        Some(false)
                    } else {
                        None
                    },
                },
            ),
        )
    } else if !pressed {
        (st, None)
    } else {
        (
            st,
            Some(
                TouchPlan {
                    slot: k as u32,
                    start_tracking: None,
                    send_position: true,
                    end_tracking: false,
                    btn_touch: None,
                },
            ),
        )
    }
}

impl TouchSlots {
    /// Well formed: one to 255 slots, and the count is the number of slots
    /// that hold a contact.
    pub open spec fn wf(self) -> bool {
        &&& 1 <= self@.0.len() <= 255
        &&& self@.1 == count_active(self@.0)
    }

    /// `slots` empty slots.
    pub fn new(slots: usize) -> (r: Self)
        requires
            1 <= slots <= 255,
        ensures
            r.wf(),
            r@.0 == Seq::new(slots as nat, |i: int| false),
            r@.1 == 0,
    {
        let mut active: Vec<bool> = Vec::new();
        let mut i: usize = 0;
        while i < slots
            invariant
                i <= slots,
                active@ == Seq::new(i as nat, |j: int| false),
                count_active(active@) == 0,
            decreases slots - i,
        {
            let ghost before = active@;
            active.push(false);
            assert(active@.drop_last() =~= before);
            assert(active@ =~= Seq::new((i + 1) as nat, |j: int| false));
            i += 1;
        }
        TouchSlots { active, count: 0 }
    }

    /// Books one touch event (`id` below 0 means the slot's own number) and
    /// says what to send for it.
    pub fn apply(&mut self, slot: u32, id: i32, pressed: bool) -> (r: Option<TouchPlan>)
        requires
            old(self).wf(),
        ensures
            final(self).wf(),
            (final(self)@, r) == spec_touch(old(self)@, slot, id, pressed),
    {
        let n = self.active.len();
        let k: usize = if (slot as usize) < n {
            slot as usize
        } else {
            n - 1
        };
        let was = self.active[k];
        let tracking: i32 = if id >= 0 {
            id
        } else {
            k as i32
        };
        proof {
            lemma_count_bound(self.active@);
            lemma_count_update(self.active@, k as int, pressed);
        }
        if pressed && !was {
            assert(self.count < n) by {
                lemma_count_update(self.active@, k as int, true);
                lemma_count_bound(self.active@.update(k as int, true));
            }
            self.active.set(k, true);
            self.count = self.count + 1;
            let btn = if self.count == 1 {
                Some(true)
            } else {
                None
            };
            Some(
                TouchPlan {
                    slot: k as u32,
                    start_tracking: Some(tracking),
                    send_position: true,
                    end_tracking: false,
                    btn_touch: btn,
                },
            )
        } else if !pressed && was {
            self.active.set(k, false);
            self.count = self.count - 1;
            let btn = if self.count == 0 {
                Some(false)
            } else {
                None
            };
            Some(
                TouchPlan {
                    slot: k as u32,
                    start_tracking: None,
                    send_position: false,
                    end_tracking: true,
                    btn_touch: btn,
                },
            )
        } else if !pressed {
            None
        } else {
            Some(
                TouchPlan {
                    slot: k as u32,
                    start_tracking: None,
                    send_position: true,
                    end_tracking: false,
                    btn_touch: None,
                },
            )
        }
    }

    /// How many contacts are down.
    pub fn active_count(&self) -> (r: u8)
        ensures
            r == self@.1,
    {
        self.count
    }
}

/// Putting a finger down on a free slot and lifting it again leaves the
/// slots as they were, and the two events press and release `BTN_TOUCH`
/// together exactly when no other contact is down.
pub proof fn law_touch_down_then_up(st: (Seq<bool>, u8), slot: u32, id: i32)
    requires
        1 <= st.0.len() <= 255,
        st.1 == count_active(st.0),
        !st.0[clamp_slot(slot, st.0.len() as int)],
    ensures
        ({
            let (mid, down) = spec_touch(st, slot, id, true);
            let (end, up) = spec_touch(mid, slot, id, false);
            &&& end.0 == st.0
            &&& end.1 == st.1
            &&& down matches Some(d) && up matches Some(u) && (d.btn_touch == Some(true) <==> st.1
                == 0) && (u.btn_touch == Some(false) <==> st.1 == 0)
        }),
{
    let k = clamp_slot(slot, st.0.len() as int);
    lemma_count_bound(st.0);
    lemma_count_update(st.0, k, true);
    lemma_count_bound(st.0.update(k, true));
    let (mid, down) = spec_touch(st, slot, id, true);
    assert(mid.0.update(k, false) =~= st.0);
}

/// Every event keeps the count equal to the number of slots that hold a
/// contact.
pub proof fn law_touch_count_matches_slots(st: (Seq<bool>, u8), slot: u32, id: i32, pressed: bool)
    requires
        1 <= st.0.len() <= 255,
        st.1 == count_active(st.0),
    ensures
        spec_touch(st, slot, id, pressed).0.1 == count_active(spec_touch(st, slot, id, pressed).0.0),
        spec_touch(st, slot, id, pressed).0.0.len() == st.0.len(),
{
    let k = clamp_slot(slot, st.0.len() as int);
    lemma_count_bound(st.0);
    lemma_count_update(st.0, k, pressed);
    lemma_count_bound(st.0.update(k, pressed));
}

/// What one touch event does, for every event: it goes to its slot (the
/// last one for a slot beyond); a press always sends the position, and
/// starts tracking (with its id, or the slot's number for a negative id)
/// only where the slot held no contact, pressing `BTN_TOUCH` for the first
/// contact; a release ends a contact that is there, releasing `BTN_TOUCH`
/// for the last one, and gives no plan only where the slot was already
/// empty. No other slot changes.
pub proof fn law_touch_event_plan(st: (Seq<bool>, u8), slot: u32, id: i32, pressed: bool)
    requires
        1 <= st.0.len() <= 255,
        st.1 == count_active(st.0),
    ensures
        ({
            let k: int = if (slot as int) < st.0.len() {
                slot as int
            } else {
                st.0.len() - 1
            };
            let was = st.0[k];
            let (after, plan) = spec_touch(st, slot, id, pressed);
            &&& after.0.len() == st.0.len()
            &&& forall|j: int| 0 <= j < st.0.len() && j != k ==> after.0[j] == st.0[j]
            &&& after.0[k] == pressed
            &&& pressed ==> (plan matches Some(p) && p.slot == k && p.send_position
                && !p.end_tracking && p.start_tracking == (if was {
                None
            } else {
                Some(if id >= 0 {
                    id
                } else {
                    k as i32
                })
            }) && (p.btn_touch == Some(true) <==> !was && st.1 == 0) && p.btn_touch
                != Some(false))
            &&& !pressed ==> (plan is None <==> !was)
            &&& !pressed && was ==> (plan matches Some(p) && p.slot == k && !p.send_position
                && p.end_tracking && p.start_tracking is None && (p.btn_touch == Some(false)
                <==> st.1 == 1) && p.btn_touch != Some(true))
            &&& pressed && was ==> after == st
        }),
{
    let k: int = if (slot as int) < st.0.len() {
        slot as int
    } else {
        st.0.len() - 1
    };
    lemma_count_bound(st.0);
    lemma_count_update(st.0, k, pressed);
    lemma_count_bound(st.0.update(k, pressed));
    if !pressed && st.0[k] {
        assert(st.1 >= 1);
    }
}

} // verus!

