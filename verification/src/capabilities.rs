//! What kind of desktop session we run in, read from its environment, and the
//! order in which capture paths are tried there.
use vstd::prelude::*;

use crate::text::{
    ascii_lower, chars_eq, chars_eq_str, chars_of, split_chars, split_on, string_of, sub_chars,
    to_ascii_lower, trim, trim_chars,
};

verus! {

broadcast use vstd::string::group_string_axioms;

#[derive(Debug, Clone, Copy, PartialEq, Eq, Structural)]
pub enum SessionType {
    Wayland,
    X11,
    Unknown,
}

impl SessionType {
    pub open spec fn label(self) -> Seq<char> {
        match self {
            SessionType::Wayland => "wayland"@,
            SessionType::X11 => "x11"@,
            SessionType::Unknown => "unknown"@,
        }
    }

    /// The name that the session type is shown under.
    pub fn to_string(&self) -> (r: String)
        ensures
            r@ == self.label(),
    {
        match self {
            SessionType::Wayland => "wayland".to_string(),
            SessionType::X11 => "x11".to_string(),
            SessionType::Unknown => "unknown".to_string(),
        }
    }
}

#[derive(Debug, Clone, Copy, PartialEq, Eq, Structural)]
pub enum Compositor {
    Kde,
    Gnome,
    Cosmic,
    Hyprland,
    Sway,
    Wayfire,
    Labwc,
    River,
    Gamescope,
    OtherWayland,
    X11,
    Unknown,
}

impl Compositor {
    pub open spec fn label(self) -> Seq<char> {
        match self {
            Compositor::Kde => "KDE Plasma"@,
            Compositor::Gnome => "GNOME (Mutter)"@,
            Compositor::Cosmic => "COSMIC (cosmic-comp)"@,
            Compositor::Hyprland => "Hyprland"@,
            Compositor::Sway => "Sway"@,
            Compositor::Wayfire => "Wayfire"@,
            Compositor::Labwc => "Labwc"@,
            Compositor::River => "river"@,
            Compositor::Gamescope => "Gamescope"@,
            Compositor::OtherWayland => "other Wayland compositor"@,
            Compositor::X11 => "X11"@,
            Compositor::Unknown => "unknown"@,
        }
    }

    /// The name that the compositor is shown under.
    pub fn to_string(&self) -> (r: String)
        ensures
            r@ == self.label(),
    {
        match self {
            Compositor::Kde => "KDE Plasma".to_string(),
            Compositor::Gnome => "GNOME (Mutter)".to_string(),
            Compositor::Cosmic => "COSMIC (cosmic-comp)".to_string(),
            Compositor::Hyprland => "Hyprland".to_string(),
            Compositor::Sway => "Sway".to_string(),
            Compositor::Wayfire => "Wayfire".to_string(),
            Compositor::Labwc => "Labwc".to_string(),
            Compositor::River => "river".to_string(),
            Compositor::Gamescope => "Gamescope".to_string(),
            Compositor::OtherWayland => "other Wayland compositor".to_string(),
            Compositor::X11 => "X11".to_string(),
            Compositor::Unknown => "unknown".to_string(),
        }
    }

    /// Compositors built on wlroots (or speaking its protocols).
    pub open spec fn spec_is_wlroots(self) -> bool {
        matches!(
            self,
            Compositor::Sway | Compositor::Hyprland | Compositor::Wayfire | Compositor::Labwc
                | Compositor::River | Compositor::Gamescope
        )
    }
}

#[derive(Debug, Clone, Copy, PartialEq, Eq, Structural)]
pub enum CaptureStep {
    KwinVirtual,
    WlrootsVirtual,
    WlrScreencopy,
    Portal,
    Evdi,
    X11Root,
}

impl CaptureStep {
    pub open spec fn label(self) -> Seq<char> {
        match self {
            CaptureStep::KwinVirtual => "kwin-virtual"@,
            CaptureStep::WlrootsVirtual => "wlroots-virtual"@,
            CaptureStep::WlrScreencopy => "wlr-screencopy"@,
            CaptureStep::Portal => "portal"@,
            CaptureStep::Evdi => "evdi"@,
            CaptureStep::X11Root => "x11-root"@,
        }
    }

    /// The stable name of the step.
    pub fn to_string(&self) -> (r: String)
        ensures
            r@ == self.label(),
    {
        match self {
            CaptureStep::KwinVirtual => "kwin-virtual".to_string(),
            CaptureStep::WlrootsVirtual => "wlroots-virtual".to_string(),
            CaptureStep::WlrScreencopy => "wlr-screencopy".to_string(),
            CaptureStep::Portal => "portal".to_string(),
            CaptureStep::Evdi => "evdi".to_string(),
            CaptureStep::X11Root => "x11-root".to_string(),
        }
    }
}

/// The value of `key` in an environment given as `(name, value)` pairs: the
/// first pair with that name.
pub open spec fn env_get(vars: Seq<(String, String)>, key: Seq<char>) -> Option<Seq<char>>
    decreases vars.len(),
{
    if vars.len() == 0 {
        None
    } else if vars[0].0@ == key {
        Some(vars[0].1@)
    } else {
        env_get(vars.drop_first(), key)
    }
}

pub open spec fn opt_chars(o: Option<Vec<char>>) -> Option<Seq<char>> {
    match o {
        Some(v) => Some(v@),
        None => None,
    }
}

pub open spec fn opt_string(o: Option<String>) -> Option<Seq<char>> {
    match o {
        Some(v) => Some(v@),
        None => None,
    }
}

/// Set, and not only white space.
pub open spec fn is_set_nonblank(v: Option<Seq<char>>) -> bool {
    v is Some && trim(v->0).len() > 0
}

/// `s` holds `p` as a contiguous part.
pub open spec fn contains_seq(s: Seq<char>, p: Seq<char>) -> bool {
    exists|i: int| 0 <= i && i + p.len() <= s.len() && #[trigger] s.subrange(i, i + p.len()) == p
}

/// The entries of `XDG_CURRENT_DESKTOP`, trimmed and lowercased; the empty
/// entries stay in and count as absent.
pub open spec fn desktop_entries(desktop: Seq<char>) -> Seq<Seq<char>> {
    split_on(desktop, ':').map_values(|t: Seq<char>| ascii_lower(trim(t)))
}

pub open spec fn has_entry(ts: Seq<Seq<char>>, w: Seq<char>) -> bool {
    exists|j: int| 0 <= j < ts.len() && #[trigger] ts[j] == w
}

pub open spec fn no_entries(ts: Seq<Seq<char>>) -> bool {
    forall|j: int| 0 <= j < ts.len() ==> #[trigger] ts[j].len() == 0
}

pub open spec fn has_gnome_entry(ts: Seq<Seq<char>>) -> bool {
    exists|j: int|
        0 <= j < ts.len() && (#[trigger] ts[j] == "gnome"@ || contains_seq(ts[j], "unity"@))
}

/// The session type that the environment announces.
pub open spec fn session_from(vars: Seq<(String, String)>) -> SessionType {
    let t = match env_get(vars, "XDG_SESSION_TYPE"@) {
        Some(v) => ascii_lower(v),
        None => seq![],
    };
    if t == "wayland"@ || t == "mir"@ {
        SessionType::Wayland
    } else if t == "x11"@ || t == "tty"@ {
        SessionType::X11
    } else if env_get(vars, "WAYLAND_DISPLAY"@) is Some {
        SessionType::Wayland
    } else if env_get(vars, "DISPLAY"@) is Some {
        SessionType::X11
    } else {
        SessionType::Unknown
    }
}

/// `XDG_CURRENT_DESKTOP`, unless it is unset or blank.
pub open spec fn desktop_from(vars: Seq<(String, String)>) -> Option<Seq<char>> {
    match env_get(vars, "XDG_CURRENT_DESKTOP"@) {
        Some(v) => if trim(v).len() > 0 {
            Some(v)
        } else {
            None
        },
        None => None,
    }
}

/// The Wayland compositor that the environment points at, in the order of
/// precedence: the compositors' own sockets first, then the desktop entries.
pub open spec fn wayland_compositor_from(vars: Seq<(String, String)>) -> Compositor {
    let desktop = match desktop_from(vars) {
        Some(d) => d,
        None => seq![],
    };
    let ts = desktop_entries(desktop);
    if is_set_nonblank(env_get(vars, "HYPRLAND_INSTANCE_SIGNATURE"@)) {
        Compositor::Hyprland
    } else if is_set_nonblank(env_get(vars, "SWAYSOCK"@)) {
        Compositor::Sway
    } else if env_get(vars, "GAMESCOPE_WAYLAND_DISPLAY"@) is Some {
        Compositor::Gamescope
    } else if has_entry(ts, "kde"@) || (no_entries(ts) && env_get(vars, "KDE_FULL_SESSION"@)
        == Some("true"@)) {
        Compositor::Kde
    } else if has_gnome_entry(ts) {
        Compositor::Gnome
    } else if has_entry(ts, "cosmic"@) || env_get(vars, "XDG_SESSION_DESKTOP"@) == Some(
        "cosmic"@,
    ) || env_get(vars, "COSMIC_DATA_CONTROL"@) is Some {
        Compositor::Cosmic
    } else if has_entry(ts, "wayfire"@) {
        Compositor::Wayfire
    } else if has_entry(ts, "labwc"@) {
        Compositor::Labwc
    } else if has_entry(ts, "river"@) {
        Compositor::River
    } else {
        Compositor::OtherWayland
    }
}

pub open spec fn compositor_from(vars: Seq<(String, String)>) -> Compositor {
    match session_from(vars) {
        SessionType::Wayland => wayland_compositor_from(vars),
        SessionType::X11 => Compositor::X11,
        SessionType::Unknown => Compositor::Unknown,
    }
}

/// The capture paths to try, best first.
pub open spec fn chain_for(session: SessionType, compositor: Compositor, has_desktop: bool) -> Seq<
    CaptureStep,
> {
    match session {
        SessionType::Wayland => match compositor {
            Compositor::Kde => seq![CaptureStep::KwinVirtual, CaptureStep::Portal],
            Compositor::Cosmic => seq![CaptureStep::Evdi, CaptureStep::Portal],
            Compositor::Sway | Compositor::Hyprland | Compositor::Wayfire | Compositor::Labwc
            | Compositor::River | Compositor::Gamescope => seq![
                CaptureStep::WlrootsVirtual,
                CaptureStep::WlrScreencopy,
                CaptureStep::Portal,
                CaptureStep::Evdi,
            ],
            _ => seq![CaptureStep::Portal],
        },
        SessionType::X11 => seq![CaptureStep::Evdi, CaptureStep::X11Root],
        SessionType::Unknown => if has_desktop {
            seq![CaptureStep::Portal, CaptureStep::X11Root]
        } else {
            seq![CaptureStep::Evdi, CaptureStep::X11Root]
        },
    }
}

/// The value of `key` in `vars` (the first pair with that name).
pub fn env_lookup(vars: &[(String, String)], key: &str) -> (r: Option<Vec<char>>)
    ensures
        opt_chars(r) == env_get(vars@, key@),
{
    let k = chars_of(key);
    let mut i: usize = 0;
    assert(vars@.skip(0) =~= vars@);
    while i < vars.len()
        invariant
            i <= vars@.len(),
            k@ == key@,
            env_get(vars@, key@) == env_get(vars@.skip(i as int), key@),
        decreases vars@.len() - i,
    {
        assert(vars@.skip(i as int).drop_first() =~= vars@.skip(i + 1));
        assert(vars@.skip(i as int)[0] == vars@[i as int]);
        let name = chars_of(vars[i].0.as_str());
        if chars_eq(name.as_slice(), k.as_slice()) {
            return Some(chars_of(vars[i].1.as_str()));
        }
        i += 1;
    }
    assert(vars@.skip(i as int).len() == 0);
    None
}

fn lookup_nonblank(vars: &[(String, String)], key: &str) -> (r: bool)
    ensures
        r == is_set_nonblank(env_get(vars@, key@)),
{
    match env_lookup(vars, key) {
        Some(v) => trim_chars(v.as_slice()).len() > 0,
        None => false,
    }
}

fn lookup_is(vars: &[(String, String)], key: &str, want: &str) -> (r: bool)
    ensures
        r == (env_get(vars@, key@) == Some(want@)),
{
    match env_lookup(vars, key) {
        Some(v) => chars_eq_str(v.as_slice(), want),
        None => false,
    }
}

/// Whether `s` holds `p` as a contiguous part.
pub fn chars_contains(s: &[char], p: &[char]) -> (r: bool)
    ensures
        r == contains_seq(s@, p@),
{
    if p.len() > s.len() {
        return false;
    }
    let mut i: usize = 0;
    let plen = p.len();
    let slen = s.len();
    let last = slen - plen;
    loop
        invariant
            plen == p@.len(),
            slen == s@.len(),
            p@.len() <= s@.len(),
            last == s@.len() - p@.len(),
            i <= last,
            forall|k: int| 0 <= k < i ==> #[trigger] s@.subrange(k, k + p@.len()) != p@,
        decreases last - i,
    {
        assert(i + p@.len() <= s@.len());
        let piece = sub_chars(s, i, i + plen);
        if chars_eq(piece.as_slice(), p) {
            return true;
        }
        if i == last {
            assert forall|k: int| 0 <= k && k + p@.len() <= s@.len() implies #[trigger] s@.subrange(
                k,
                k + p@.len(),
            ) != p@ by {
                assert(k <= i);
            }
            return false;
        }
        i += 1;
    }
}

/// The trimmed, lowercased entries of a colon-separated desktop list.
pub fn desktop_entries_of(desktop: &[char]) -> (r: Vec<Vec<char>>)
    ensures
        r@.map_values(|v: Vec<char>| v@) == desktop_entries(desktop@),
{
    let pieces = split_chars(desktop, ':');
    let ghost ps = pieces@.map_values(|v: Vec<char>| v@);
    let mut out: Vec<Vec<char>> = Vec::new();
    let mut i: usize = 0;
    while i < pieces.len()
        invariant
            i <= pieces@.len(),
            ps == pieces@.map_values(|v: Vec<char>| v@),
            ps == split_on(desktop@, ':'),
            out@.map_values(|v: Vec<char>| v@) == ps.take(i as int).map_values(
                |t: Seq<char>| ascii_lower(trim(t)),
            ),
        decreases pieces@.len() - i,
    {
        let t = trim_chars(pieces[i].as_slice());
        let l = to_ascii_lower(t.as_slice());
        let ghost before = out@;
        out.push(l);
        assert(ps[i as int] == pieces@[i as int]@);
        assert(out@.map_values(|v: Vec<char>| v@) =~= before.map_values(|v: Vec<char>| v@).push(
            l@,
        ));
        assert(ps.take(i + 1).map_values(|t: Seq<char>| ascii_lower(trim(t))) =~= ps.take(
            i as int,
        ).map_values(|t: Seq<char>| ascii_lower(trim(t))).push(ascii_lower(trim(ps[i as int]))));
        i += 1;
    }
    assert(ps.take(pieces@.len() as int) =~= ps);
    out
}

fn entries_have(ts: &Vec<Vec<char>>, w: &str) -> (r: bool)
    ensures
        r == has_entry(ts@.map_values(|v: Vec<char>| v@), w@),
{
    let ghost tv = ts@.map_values(|v: Vec<char>| v@);
    let mut i: usize = 0;
    while i < ts.len()
        invariant
            i <= ts@.len(),
            tv == ts@.map_values(|v: Vec<char>| v@),
            forall|j: int| 0 <= j < i ==> tv[j] != w@,
        decreases ts@.len() - i,
    {
        if chars_eq_str(ts[i].as_slice(), w) {
            assert(tv[i as int] == w@);
            return true;
        }
        i += 1;
    }
    false
}

fn entries_empty(ts: &Vec<Vec<char>>) -> (r: bool)
    ensures
        r == no_entries(ts@.map_values(|v: Vec<char>| v@)),
{
    let ghost tv = ts@.map_values(|v: Vec<char>| v@);
    let mut i: usize = 0;
    while i < ts.len()
        invariant
            i <= ts@.len(),
            tv == ts@.map_values(|v: Vec<char>| v@),
            forall|j: int| 0 <= j < i ==> tv[j].len() == 0,
        decreases ts@.len() - i,
    {
        if ts[i].len() > 0 {
            assert(tv[i as int].len() > 0);
            return false;
        }
        i += 1;
    }
    true
}

fn entries_have_gnome(ts: &Vec<Vec<char>>) -> (r: bool)
    ensures
        r == has_gnome_entry(ts@.map_values(|v: Vec<char>| v@)),
{
    let ghost tv = ts@.map_values(|v: Vec<char>| v@);
    let unity = chars_of("unity");
    let mut i: usize = 0;
    while i < ts.len()
        invariant
            i <= ts@.len(),
            unity@ == "unity"@,
            tv == ts@.map_values(|v: Vec<char>| v@),
            forall|j: int| 0 <= j < i ==> !(tv[j] == "gnome"@ || contains_seq(tv[j], "unity"@)),
        decreases ts@.len() - i,
    {
        if chars_eq_str(ts[i].as_slice(), "gnome") || chars_contains(
            ts[i].as_slice(),
            unity.as_slice(),
        ) {
            assert(tv[i as int] == ts@[i as int]@);
            return true;
        }
        i += 1;
    }
    false
}

#[derive(Debug, Clone)]
pub struct Capabilities {
    pub session: SessionType,
    pub compositor: Compositor,
    pub current_desktop: Option<String>,
}

impl Capabilities {
    /// Reads the session from an environment given as `(name, value)` pairs.
    pub fn from_lookup(vars: &[(String, String)]) -> (r: Self)
        ensures
            r.session == session_from(vars@),
            r.compositor == compositor_from(vars@),
            opt_string(r.current_desktop) == desktop_from(vars@),
    {
        let xdg_session = match env_lookup(vars, "XDG_SESSION_TYPE") {
            Some(v) => to_ascii_lower(v.as_slice()),
            None => Vec::new(),
        };
        let wayland_display = env_lookup(vars, "WAYLAND_DISPLAY");
        let x_display = env_lookup(vars, "DISPLAY");
        let current_desktop: Option<Vec<char>> = match env_lookup(vars, "XDG_CURRENT_DESKTOP") {
            Some(v) => if trim_chars(v.as_slice()).len() > 0 {
                Some(v)
            } else {
                None
            },
            None => None,
        };
        let x = xdg_session.as_slice();
        let session = if chars_eq_str(x, "wayland") || chars_eq_str(x, "mir") {
            SessionType::Wayland
        } else if chars_eq_str(x, "x11") || chars_eq_str(x, "tty") {
            SessionType::X11
        } else if wayland_display.is_some() {
            SessionType::Wayland
        } else if x_display.is_some() {
            SessionType::X11
        } else {
            SessionType::Unknown
        };
        let compositor = match session {
            SessionType::Wayland => {
                let desktop: Vec<char> = match &current_desktop {
                    Some(d) => d.clone(),
                    None => Vec::new(),
                };
                let ts = desktop_entries_of(desktop.as_slice());
                if lookup_nonblank(vars, "HYPRLAND_INSTANCE_SIGNATURE") {
                    Compositor::Hyprland
                } else if lookup_nonblank(vars, "SWAYSOCK") {
                    Compositor::Sway
                } else if env_lookup(vars, "GAMESCOPE_WAYLAND_DISPLAY").is_some() {
                    Compositor::Gamescope
                } else if entries_have(&ts, "kde") || (entries_empty(&ts) && lookup_is(
                    vars,
                    "KDE_FULL_SESSION",
                    "true",
                )) {
                    Compositor::Kde
                } else if entries_have_gnome(&ts) {
                    Compositor::Gnome
                } else if entries_have(&ts, "cosmic") || lookup_is(
                    vars,
                    "XDG_SESSION_DESKTOP",
                    "cosmic",
                ) || env_lookup(vars, "COSMIC_DATA_CONTROL").is_some() {
                    Compositor::Cosmic
                } else if entries_have(&ts, "wayfire") {
                    Compositor::Wayfire
                } else if entries_have(&ts, "labwc") {
                    Compositor::Labwc
                } else if entries_have(&ts, "river") {
                    Compositor::River
                } else {
                    Compositor::OtherWayland
                }
            },
            SessionType::X11 => Compositor::X11,
            SessionType::Unknown => Compositor::Unknown,
        };
        let current_desktop = match current_desktop {
            Some(d) => Some(string_of(d.as_slice())),
            None => None,
        };
        Capabilities { session, compositor, current_desktop }
    }

    pub fn is_wlroots(&self) -> (r: bool)
        ensures
            r == self.compositor.spec_is_wlroots(),
    {
        match self.compositor {
            Compositor::Sway | Compositor::Hyprland | Compositor::Wayfire | Compositor::Labwc
            | Compositor::River | Compositor::Gamescope => true,
            _ => false,
        }
    }

    /// The capture paths to try in this session, best first.
    pub fn auto_chain(&self) -> (r: Vec<CaptureStep>)
        ensures
            r@ == chain_for(self.session, self.compositor, self.current_desktop is Some),
    {
        match self.session {
            SessionType::Wayland => match self.compositor {
                Compositor::Kde => vec![CaptureStep::KwinVirtual, CaptureStep::Portal],
                Compositor::Cosmic => vec![CaptureStep::Evdi, CaptureStep::Portal],
                Compositor::Sway | Compositor::Hyprland | Compositor::Wayfire
                | Compositor::Labwc | Compositor::River | Compositor::Gamescope => vec![
                    CaptureStep::WlrootsVirtual,
                    CaptureStep::WlrScreencopy,
                    CaptureStep::Portal,
                    CaptureStep::Evdi,
                ],
                _ => vec![CaptureStep::Portal],
            },
            SessionType::X11 => vec![CaptureStep::Evdi, CaptureStep::X11Root],
            SessionType::Unknown => match self.current_desktop {
                Some(_) => vec![CaptureStep::Portal, CaptureStep::X11Root],
                None => vec![CaptureStep::Evdi, CaptureStep::X11Root],
            },
        }
    }
}

/// The capture chain tried in a session: on Wayland, a wlroots compositor
/// (Sway, Hyprland, Wayfire, labwc, River, gamescope) starts with its own
/// virtual output and screencopy, then the portal and evdi; KDE starts with
/// the KWin virtual display, COSMIC with evdi, both then the portal, and any
/// other Wayland compositor has only the portal. X11 tries evdi, then root
/// capture; an unknown session the portal (with a desktop named) or evdi,
/// then root capture. Only KDE ever gets the KWin step, and only a wlroots
/// compositor the wlroots steps.
pub proof fn law_auto_chain_fits_the_session(
    session: SessionType,
    compositor: Compositor,
    has_desktop: bool,
)
    ensures
        ({
            let c = chain_for(session, compositor, has_desktop);
            let wlr = compositor == Compositor::Sway || compositor == Compositor::Hyprland
                || compositor == Compositor::Wayfire || compositor == Compositor::Labwc
                || compositor == Compositor::River || compositor == Compositor::Gamescope;
            &&& compositor.spec_is_wlroots() == wlr
            &&& session == SessionType::Wayland && wlr ==> c == seq![
                CaptureStep::WlrootsVirtual,
                CaptureStep::WlrScreencopy,
                CaptureStep::Portal,
                CaptureStep::Evdi,
            ]
            &&& session == SessionType::Wayland && compositor == Compositor::Kde ==> c == seq![
                CaptureStep::KwinVirtual,
                CaptureStep::Portal,
            ]
            &&& session == SessionType::Wayland && compositor == Compositor::Cosmic ==> c == seq![
                CaptureStep::Evdi,
                CaptureStep::Portal,
            ]
            &&& session == SessionType::Wayland && !wlr && compositor != Compositor::Kde
                && compositor != Compositor::Cosmic ==> c == seq![CaptureStep::Portal]
            &&& session == SessionType::X11 ==> c == seq![CaptureStep::Evdi, CaptureStep::X11Root]
            &&& session == SessionType::Unknown ==> c == seq![
                if has_desktop {
                    CaptureStep::Portal
                } else {
                    CaptureStep::Evdi
                },
                CaptureStep::X11Root,
            ]
            &&& c.contains(CaptureStep::KwinVirtual) ==> session == SessionType::Wayland
                && compositor == Compositor::Kde
            &&& c.contains(CaptureStep::WlrootsVirtual) ==> session == SessionType::Wayland && wlr
            &&& c.len() > 0
        }),
{
    let c = chain_for(session, compositor, has_desktop);
    if c.contains(CaptureStep::KwinVirtual) || c.contains(CaptureStep::WlrootsVirtual) {
        let i = choose|i: int| 0 <= i < c.len() && (c[i] == CaptureStep::KwinVirtual || c[i]
            == CaptureStep::WlrootsVirtual);
    }
}

} // verus!
