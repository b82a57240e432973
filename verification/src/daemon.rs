//! What the `orbiscreen` commands decide, apart from the I/O they do: how
//! `display set` reads a mode, what `display`, `devices` and `status` show,
//! which systemd commands the service actions run, what `uninstall`
//! removes, which capture steps `start` tries, and how the stream's
//! timestamps advance.
use vstd::prelude::*;

use crate::capabilities::{CaptureStep, Compositor};
use crate::capture::CaptureBackend;
use crate::encode::EncoderKind;
use crate::config::{opt_str_view, DisplayConfig};
use crate::display::DisplayStatus;
use crate::text::{
    chars_eq_str, chars_of, decimal_of, find_exec, find_from, lemma_find_from, lemma_scan,
    parse_u32, parse_u32_exec, push_decimal, scan, scan_exec, string_from, string_of, sub_chars,
    trim, trim_chars, CharClass,
};
use crate::ui::{badge_info, badge_ok, badge_warn, spec_badge};
use crate::wlroots::path_join;
use crate::json::{
    json_bool_at, json_bool_field, json_items, json_items_of, json_str_at, json_str_field,
    json_u64_at, json_u64_field, opt_text,
};
use vstd::string::StringSliceAdditionalSpecFns;

verus! {

broadcast use vstd::string::group_string_axioms;

/// `s.split_once(c)`: the text before and after the first `c`.
pub open spec fn split_once(s: Seq<char>, c: char) -> Option<(Seq<char>, Seq<char>)> {
    let j = scan(s, 0, CharClass::Is(c));
    if j < s.len() {
        Some((s.take(j), s.skip(j + 1)))
    } else {
        None
    }
}

fn split_once_exec(s: &[char], c: char) -> (r: Option<(Vec<char>, Vec<char>)>)
    ensures
        match r {
            Some(p) => split_once(s@, c) == Some((p.0@, p.1@)),
            None => split_once(s@, c) is None,
        },
{
    let j = scan_exec(s, 0, &CharClass::Is(c));
    proof {
        lemma_scan(s@, 0, CharClass::Is(c));
    }
    if j < s.len() {
        let a = sub_chars(s, 0, j);
        let b = sub_chars(s, j + 1, s.len());
        assert(a@ =~= s@.take(j as int));
        assert(b@ =~= s@.skip(j + 1));
        Some((a, b))
    } else {
        None
    }
}

/// `s.trim_end_matches(p)`: every trailing copy of `p` removed.
pub open spec fn strip_suffixes(s: Seq<char>, p: Seq<char>) -> Seq<char>
    decreases s.len(),
{
    if p.len() > 0 && p.len() <= s.len() && s.skip(s.len() - p.len()) == p {
        strip_suffixes(s.take(s.len() - p.len()), p)
    } else {
        s
    }
}

fn strip_suffixes_exec(s: &[char], p: &str) -> (r: Vec<char>)
    ensures
        r@ == strip_suffixes(s@, p@),
{
    let pc = chars_of(p);
    let mut end = s.len();
    let mut done = false;
    assert(s@.take(end as int) =~= s@);
    while !done && pc.len() > 0 && pc.len() <= end
        invariant
            end <= s@.len(),
            pc@ == p@,
            strip_suffixes(s@, p@) == strip_suffixes(s@.take(end as int), p@),
            done ==> strip_suffixes(s@.take(end as int), p@) == s@.take(end as int),
        decreases end, (if done { 0int } else { 1int }),
    {
        let tail = sub_chars(s, end - pc.len(), end);
        let mut k: usize = 0;
        let mut same = true;
        while k < pc.len()
            invariant
                k <= pc@.len(),
                tail@.len() == pc@.len(),
                same == forall|m: int| 0 <= m < k ==> tail@[m] == pc@[m],
            decreases pc@.len() - k,
        {
            if tail[k] != pc[k] {
                same = false;
            }
            k += 1;
        }
        let ghost t = s@.take(end as int);
        assert(tail@ =~= t.skip(t.len() - p@.len()));
        if !same {
            assert(t.skip(t.len() - p@.len()) != p@) by {
                let m = choose|m: int| 0 <= m < pc@.len() && tail@[m] != pc@[m];
                assert(t.skip(t.len() - p@.len())[m] != p@[m]);
            }
            done = true;
        } else {
            assert(t.skip(t.len() - p@.len()) =~= p@);
            assert(t.take(t.len() - p@.len()) =~= s@.take(end - pc.len()));
            end = end - pc.len();
        }
    }
    let r = sub_chars(s, 0, end);
    assert(r@ =~= s@.take(end as int));
    r
}

/// What `display set` reads from its arguments: the `WxH@R` spec (blanks
/// around it ignored, the rate with an optional `Hz`/`hz` suffix) and the
/// `--width`, `--height`, `--fps` options; a part of the spec that does not
/// parse leaves the option's value.
pub open spec fn spec_display_set(
    spec: Option<Seq<char>>,
    width: Option<u32>,
    height: Option<u32>,
    fps: Option<u32>,
) -> (Option<u32>, Option<u32>, Option<u32>) {
    match spec {
        None => (width, height, fps),
        Some(raw) => {
            let s = trim(raw);
            let (res, rate) = match split_once(s, '@') {
                Some(p) => (p.0, Some(p.1)),
                None => (s, None),
            };
            let (w, h) = match split_once(res, 'x') {
                Some(p) => (
                    if parse_u32(p.0) is Some {
                        parse_u32(p.0)
                    } else {
                        width
                    },
                    if parse_u32(p.1) is Some {
                        parse_u32(p.1)
                    } else {
                        height
                    },
                ),
                None => (width, height),
            };
            let f = match rate {
                Some(r) => {
                    let v = parse_u32(strip_suffixes(strip_suffixes(r, "Hz"@), "hz"@));
                    if v is Some {
                        v
                    } else {
                        fps
                    }
                },
                None => fps,
            };
            (w, h, f)
        },
    }
}

pub fn parse_display_set(
    spec: Option<&str>,
    width: Option<u32>,
    height: Option<u32>,
    fps: Option<u32>,
) -> (r: (Option<u32>, Option<u32>, Option<u32>))
    ensures
        r == spec_display_set(opt_str_view(spec), width, height, fps),
{
    let raw = match spec {
        None => {
            return (width, height, fps);
        },
        Some(s) => s,
    };
    let c = chars_of(raw);
    let s = trim_chars(c.as_slice());
    let (res, rate) = match split_once_exec(s.as_slice(), '@') {
        Some(p) => (p.0, Some(p.1)),
        None => (s, None),
    };
    let (w, h) = match split_once_exec(res.as_slice(), 'x') {
        Some(p) => {
            let pw = parse_u32_exec(p.0.as_slice());
            let ph = parse_u32_exec(p.1.as_slice());
            (
                if pw.is_some() {
                    pw
                } else {
                    width
                },
                if ph.is_some() {
                    ph
                } else {
                    height
                },
            )
        },
        None => (width, height),
    };
    let f = match rate {
        Some(r) => {
            let a = strip_suffixes_exec(r.as_slice(), "Hz");
            let b = strip_suffixes_exec(a.as_slice(), "hz");
            let v = parse_u32_exec(b.as_slice());
            if v.is_some() {
                v
            } else {
                fps
            }
        },
        None => fps,
    };
    (w, h, f)
}

/// The display section after `display set`: each value that was given
/// replaces the configured one.
pub fn apply_display_set(display: &mut DisplayConfig, set: (Option<u32>, Option<u32>, Option<u32>))
    ensures
        final(display).width == (match set.0 {
            Some(w) => w,
            None => old(display).width,
        }),
        final(display).height == (match set.1 {
            Some(h) => h,
            None => old(display).height,
        }),
        final(display).refresh_rate_hz == (match set.2 {
            Some(f) => f,
            None => old(display).refresh_rate_hz,
        }),
{
    if let Some(w) = set.0 {
        display.width = w;
    }
    if let Some(h) = set.1 {
        display.height = h;
    }
    if let Some(f) = set.2 {
        display.refresh_rate_hz = f;
    }
}

/// The name that `{:?}` gives a display status.
pub open spec fn status_name(status: DisplayStatus) -> Seq<char> {
    match status {
        DisplayStatus::Compatible => "Compatible"@,
        DisplayStatus::Outdated => "Outdated"@,
        DisplayStatus::KernelModuleMissing => "KernelModuleMissing"@,
        DisplayStatus::NoDeviceNode => "NoDeviceNode"@,
    }
}

/// The display backend that `display show` reports: KWin's or wlroots'
/// native virtual outputs, else the evdi status.
pub open spec fn spec_display_backend(
    compositor: Compositor,
    chain: Seq<CaptureStep>,
    wlroots_ipc_found: bool,
    status: DisplayStatus,
) -> Seq<char> {
    if compositor == Compositor::Kde || chain.contains(CaptureStep::KwinVirtual) {
        "KWin Virtual (Native)"@
    } else if wlroots_ipc_found {
        "wlroots (Native)"@
    } else {
        status_name(status)
    }
}

pub fn display_backend_text(
    compositor: Compositor,
    chain: &[CaptureStep],
    wlroots_ipc_found: bool,
    status: DisplayStatus,
) -> (r: String)
    ensures
        r@ == spec_display_backend(compositor, chain@, wlroots_ipc_found, status),
{
    let mut kwin = compositor == Compositor::Kde;
    let mut i: usize = 0;
    while i < chain.len()
        invariant
            i <= chain@.len(),
            kwin == (compositor == Compositor::Kde || exists|k: int|
                0 <= k < i && chain@[k] == CaptureStep::KwinVirtual),
        decreases chain@.len() - i,
    {
        if chain[i] == CaptureStep::KwinVirtual {
            kwin = true;
        }
        i += 1;
    }
    if kwin {
        return string_from("KWin Virtual (Native)");
    }
    if wlroots_ipc_found {
        return string_from("wlroots (Native)");
    }
    match status {
        DisplayStatus::Compatible => string_from("Compatible"),
        DisplayStatus::Outdated => string_from("Outdated"),
        DisplayStatus::KernelModuleMissing => string_from("KernelModuleMissing"),
        DisplayStatus::NoDeviceNode => string_from("NoDeviceNode"),
    }
}

pub open spec fn pair_view(p: (String, String)) -> (Seq<char>, Seq<char>) {
    (p.0@, p.1@)
}

/// The rows of `display show`.
pub open spec fn spec_display_rows(display: DisplayConfig, preferred: Seq<char>, backend: Seq<char>) -> Seq<
    (Seq<char>, Seq<char>),
> {
    seq![
        ("Resolution"@, decimal_of(display.width as nat) + "x"@ + decimal_of(display.height as nat)),
        ("Refresh Rate"@, decimal_of(display.refresh_rate_hz as nat) + " Hz"@),
        ("Auto-Orientation"@, "Supported (Swaps W/H dynamically)"@),
        ("Capture Preferred"@, preferred),
        ("Display Backend"@, backend),
    ]
}

pub fn display_rows(display: DisplayConfig, preferred: &str, backend: &str) -> (r: Vec<(String, String)>)
    ensures
        r@.map_values(|p: (String, String)| pair_view(p)) == spec_display_rows(
            display,
            preferred@,
            backend@,
        ),
{
    let mut res = String::new();
    push_decimal(&mut res, display.width as u64);
    res.append("x");
    push_decimal(&mut res, display.height as u64);
    let mut rate = String::new();
    push_decimal(&mut rate, display.refresh_rate_hz as u64);
    rate.append(" Hz");
    let mut v: Vec<(String, String)> = Vec::new();
    v.push((string_from("Resolution"), res));
    v.push((string_from("Refresh Rate"), rate));
    v.push((string_from("Auto-Orientation"), string_from("Supported (Swaps W/H dynamically)")));
    v.push((string_from("Capture Preferred"), string_from(preferred)));
    v.push((string_from("Display Backend"), string_from(backend)));
    assert(v@.map_values(|p: (String, String)| pair_view(p)) =~= spec_display_rows(
        display,
        preferred@,
        backend@,
    ));
    v
}

/// `names.join(", ")`.
pub open spec fn join_comma(names: Seq<Seq<char>>) -> Seq<char>
    decreases names.len(),
{
    if names.len() == 0 {
        seq![]
    } else if names.len() == 1 {
        names[0]
    } else {
        join_comma(names.drop_last()) + ", "@ + names.last()
    }
}

pub(crate) fn join_comma_exec(names: &[String]) -> (r: String)
    ensures
        r@ == join_comma(names@.map_values(|s: String| s@)),
{
    let ghost nv = names@.map_values(|s: String| s@);
    let mut out = String::new();
    let mut i: usize = 0;
    while i < names.len()
        invariant
            i <= names@.len(),
            nv == names@.map_values(|s: String| s@),
            out@ == join_comma(nv.take(i as int)),
        decreases names@.len() - i,
    {
        if i > 0 {
            out.append(", ");
        }
        out.append(names[i].as_str());
        proof {
            let t = nv.take(i + 1);
            assert(t.drop_last() =~= nv.take(i as int));
            assert(t.last() == names@[i as int]@);
            if i == 0 {
                assert(nv.take(0) =~= Seq::<Seq<char>>::empty());
                assert(out@ =~= names@[0]@);
            }
        }
        i += 1;
    }
    assert(nv.take(names@.len() as int) =~= nv);
    out
}

/// The rows of `devices`.
pub open spec fn spec_devices_rows(
    adb_installed: bool,
    devices: Seq<Seq<char>>,
    reverse_tunnels: usize,
    colors: bool,
) -> Seq<(Seq<char>, Seq<char>)> {
    let ok = spec_badge(colors, "\x1b[38;2;166;227;161m✔\x1b[0m"@, "[OK]"@);
    let warn = spec_badge(colors, "\x1b[38;2;249;226;175m⚠\x1b[0m"@, "[WARN]"@);
    let info = spec_badge(colors, "\x1b[38;2;137;180;250mℹ\x1b[0m"@, "[INFO]"@);
    let dev = if !adb_installed {
        warn + " ADB not installed (Wi-Fi streaming unaffected)"@
    } else if devices.len() == 0 {
        warn + " No devices connected (Hot-plug ready)"@
    } else {
        ok + " "@ + decimal_of(devices.len()) + " device(s) connected ("@ + join_comma(devices)
            + ")"@
    };
    let tunnel = if reverse_tunnels > 0 {
        ok + " Active (Port 8788 reversed)"@
    } else if devices.len() > 0 {
        ok + " Active on port 8788"@
    } else {
        info + " Waiting for device"@
    };
    seq![
        ("USB ADB Devices"@, dev),
        ("Reverse Tunnel"@, tunnel),
        ("Auto-Discovery"@, "Active via mDNS on local subnet"@),
        ("Connection Tip"@, "Enable USB Debugging on Android for zero-config wired streaming"@),
    ]
}

pub fn devices_rows(adb_installed: bool, devices: &[String], reverse_tunnels: usize, colors: bool) -> (r:
    Vec<(String, String)>)
    ensures
        r@.map_values(|p: (String, String)| pair_view(p)) == spec_devices_rows(
            adb_installed,
            devices@.map_values(|s: String| s@),
            reverse_tunnels,
            colors,
        ),
{
    let ok = badge_ok(colors);
    let warn = badge_warn(colors);
    let info = badge_info(colors);
    let mut dev = string_from(if !adb_installed || devices.len() == 0 {
        warn
    } else {
        ok
    });
    if !adb_installed {
        dev.append(" ADB not installed (Wi-Fi streaming unaffected)");
    } else if devices.len() == 0 {
        dev.append(" No devices connected (Hot-plug ready)");
    } else {
        dev.append(" ");
        push_decimal(&mut dev, devices.len() as u64);
        dev.append(" device(s) connected (");
        let j = join_comma_exec(devices);
        dev.append(j.as_str());
        dev.append(")");
    }
    let mut tunnel = string_from(if reverse_tunnels > 0 || devices.len() > 0 {
        ok
    } else {
        info
    });
    if reverse_tunnels > 0 {
        tunnel.append(" Active (Port 8788 reversed)");
    } else if devices.len() > 0 {
        tunnel.append(" Active on port 8788");
    } else {
        tunnel.append(" Waiting for device");
    }
    let mut v: Vec<(String, String)> = Vec::new();
    v.push((string_from("USB ADB Devices"), dev));
    v.push((string_from("Reverse Tunnel"), tunnel));
    v.push((string_from("Auto-Discovery"), string_from("Active via mDNS on local subnet")));
    v.push(
        (
            string_from("Connection Tip"),
            string_from("Enable USB Debugging on Android for zero-config wired streaming"),
        ),
    );
    assert(v@.map_values(|p: (String, String)| pair_view(p)) =~= spec_devices_rows(
        adb_installed,
        devices@.map_values(|s: String| s@),
        reverse_tunnels,
        colors,
    ));
    v
}

/// The capture steps that `start` tries for the configured preference, and
/// whether the preference was explicit (then the first failure ends the
/// attempt; `auto` moves on to the next step).
pub open spec fn spec_capture_chain(preferred: Seq<char>, auto_chain: Seq<CaptureStep>) -> (
    Seq<CaptureStep>,
    bool,
) {
    if preferred == "auto"@ {
        (auto_chain, false)
    } else if preferred == "evdi"@ {
        (seq![CaptureStep::Evdi], true)
    } else if preferred == "kwin-virtual"@ {
        (seq![CaptureStep::KwinVirtual], true)
    } else if preferred == "screencopy"@ {
        (seq![CaptureStep::WlrScreencopy], true)
    } else if preferred == "portal"@ || preferred == "mirror"@ {
        (seq![CaptureStep::Portal], true)
    } else {
        (seq![CaptureStep::X11Root], true)
    }
}

pub fn capture_chain(preferred: &str, auto_chain: Vec<CaptureStep>) -> (r: (Vec<CaptureStep>, bool))
    ensures
        (r.0@, r.1) == spec_capture_chain(preferred@, auto_chain@),
{
    let p = chars_of(preferred);
    let s = p.as_slice();
    if chars_eq_str(s, "auto") {
        (auto_chain, false)
    } else if chars_eq_str(s, "evdi") {
        (vec![CaptureStep::Evdi], true)
    } else if chars_eq_str(s, "kwin-virtual") {
        (vec![CaptureStep::KwinVirtual], true)
    } else if chars_eq_str(s, "screencopy") {
        (vec![CaptureStep::WlrScreencopy], true)
    } else if chars_eq_str(s, "portal") || chars_eq_str(s, "mirror") {
        (vec![CaptureStep::Portal], true)
    } else {
        (vec![CaptureStep::X11Root], true)
    }
}

/// After a capture step failed: try the next one only when the chain came
/// from `auto`.
pub fn continue_after_failure(explicit: bool) -> (r: bool)
    ensures
        r == !explicit,
{
    !explicit
}

/// The service actions.
#[derive(Debug, Clone, Copy, PartialEq, Eq, Structural)]
pub enum ServiceAction {
    Status,
    Start,
    Stop,
    Restart,
    Enable,
    Disable,
    Install,
    Uninstall,
    Logs { follow: bool, lines: usize },
}

/// The `systemctl --user` verb that an action runs on `orbiscreen`, where
/// it is one.
pub open spec fn spec_systemctl_verb(action: ServiceAction) -> Option<Seq<char>> {
    match action {
        ServiceAction::Status => Some("status"@),
        ServiceAction::Start => Some("start"@),
        ServiceAction::Stop => Some("stop"@),
        ServiceAction::Restart => Some("restart"@),
        ServiceAction::Enable => Some("enable"@),
        ServiceAction::Disable => Some("disable"@),
        _ => None,
    }
}

pub fn systemctl_verb(action: ServiceAction) -> (r: Option<&'static str>)
    ensures
        match r {
            Some(v) => spec_systemctl_verb(action) == Some(v@),
            None => spec_systemctl_verb(action) is None,
        },
{
    match action {
        ServiceAction::Status => Some("status"),
        ServiceAction::Start => Some("start"),
        ServiceAction::Stop => Some("stop"),
        ServiceAction::Restart => Some("restart"),
        ServiceAction::Enable => Some("enable"),
        ServiceAction::Disable => Some("disable"),
        _ => None,
    }
}

/// What a `systemctl` action prints on success (none for `status`, which
/// shows systemd's own output) and on failure.
pub open spec fn spec_service_messages(action: ServiceAction) -> (Option<Seq<char>>, Option<
    Seq<char>,
>) {
    match action {
        ServiceAction::Start => (
            Some("Orbiscreen background service started"@),
            Some("Failed to start orbiscreen.service via systemctl"@),
        ),
        ServiceAction::Stop => (
            Some("Orbiscreen background service stopped"@),
            Some("Failed to stop orbiscreen.service via systemctl"@),
        ),
        ServiceAction::Restart => (
            Some("Orbiscreen background service restarted"@),
            Some("Failed to restart orbiscreen.service via systemctl"@),
        ),
        ServiceAction::Enable => (
            Some("Orbiscreen background service enabled at login"@),
            Some("Failed to enable orbiscreen.service"@),
        ),
        ServiceAction::Disable => (
            Some("Orbiscreen background service disabled from login"@),
            Some("Failed to disable orbiscreen.service"@),
        ),
        _ => (None, None),
    }
}

pub fn service_messages(action: ServiceAction) -> (r: (Option<&'static str>, Option<&'static str>))
    ensures
        ({
            let (ok, err) = spec_service_messages(action);
            &&& match r.0 {
                Some(m) => ok == Some(m@),
                None => ok is None,
            }
            &&& match r.1 {
                Some(m) => err == Some(m@),
                None => err is None,
            }
        }),
{
    match action {
        ServiceAction::Start => (
            Some("Orbiscreen background service started"),
            Some("Failed to start orbiscreen.service via systemctl"),
        ),
        ServiceAction::Stop => (
            Some("Orbiscreen background service stopped"),
            Some("Failed to stop orbiscreen.service via systemctl"),
        ),
        ServiceAction::Restart => (
            Some("Orbiscreen background service restarted"),
            Some("Failed to restart orbiscreen.service via systemctl"),
        ),
        ServiceAction::Enable => (
            Some("Orbiscreen background service enabled at login"),
            Some("Failed to enable orbiscreen.service"),
        ),
        ServiceAction::Disable => (
            Some("Orbiscreen background service disabled from login"),
            Some("Failed to disable orbiscreen.service"),
        ),
        _ => (None, None),
    }
}

/// The systemd user unit that runs the daemon.
pub const UNIT_FILE: &'static str = "[Unit]\nDescription=Orbiscreen Virtual Display Daemon\nAfter=graphical-session.target\nPartOf=graphical-session.target\n\n[Service]\nExecStart=/usr/bin/orbiscreen start\nRestart=on-failure\nRestartSec=2s\n\n[Install]\nWantedBy=graphical-session.target\n";

/// Where `service install` puts the unit: `$XDG_CONFIG_HOME/systemd/user`
/// for an absolute `XDG_CONFIG_HOME`, else `$HOME/.config/systemd/user`,
/// else that path relative to the working directory.
pub open spec fn spec_unit_dir(xdg_config_home: Option<Seq<char>>, home: Option<Seq<char>>) -> Seq<
    char,
> {
    if xdg_config_home is Some && xdg_config_home->0.len() > 0 && xdg_config_home->0[0] == '/' {
        path_join(xdg_config_home->0, "systemd/user"@)
    } else if home is Some && home->0.len() > 0 {
        path_join(home->0, ".config/systemd/user"@)
    } else {
        ".config/systemd/user"@
    }
}

pub fn unit_dir(xdg_config_home: Option<&str>, home: Option<&str>) -> (r: String)
    ensures
        r@ == spec_unit_dir(opt_str_view(xdg_config_home), opt_str_view(home)),
{
    if let Some(x) = xdg_config_home {
        let c = chars_of(x);
        if c.len() > 0 && c[0] == '/' {
            return crate::kwin::join_path_strings(x, "systemd/user");
        }
    }
    if let Some(h) = home {
        let c = chars_of(h);
        if c.len() > 0 {
            return crate::kwin::join_path_strings(h, ".config/systemd/user");
        }
    }
    string_from(".config/systemd/user")
}

/// The `journalctl` arguments of `service logs`.
pub open spec fn spec_journal_args(follow: bool, lines: usize) -> Seq<Seq<char>> {
    seq!["--user"@, "-u"@, "orbiscreen"@, "-n"@, decimal_of(lines as nat)] + (if follow {
        seq!["-f"@]
    } else {
        seq![]
    })
}

pub fn journal_args(follow: bool, lines: usize) -> (r: Vec<String>)
    ensures
        r@.map_values(|s: String| s@) == spec_journal_args(follow, lines),
{
    let mut n = String::new();
    push_decimal(&mut n, lines as u64);
    let mut v: Vec<String> = Vec::new();
    v.push(string_from("--user"));
    v.push(string_from("-u"));
    v.push(string_from("orbiscreen"));
    v.push(string_from("-n"));
    v.push(n);
    if follow {
        v.push(string_from("-f"));
    }
    assert(v@.map_values(|s: String| s@) =~= spec_journal_args(follow, lines));
    v
}

/// What `uninstall` removes: files and directories, under an absolute
/// `HOME` first, then the system-wide copies.
pub open spec fn spec_uninstall_targets(home: Option<Seq<char>>) -> (Seq<Seq<char>>, Seq<Seq<char>>) {
    let sys_files = seq![
        "/usr/bin/orbiscreen"@,
        "/usr/share/applications/com.orbiscreen.OrbiscreenGtk.desktop"@,
        "/usr/share/icons/hicolor/scalable/apps/com.orbiscreen.OrbiscreenGtk.svg"@,
    ];
    let sys_dirs = seq!["/usr/share/orbiscreen"@];
    if home is Some && home->0.len() > 0 && home->0[0] == '/' {
        let h = home->0;
        (
            seq![
                path_join(h, ".local/bin/orbiscreen"@),
                path_join(h, ".config/systemd/user/orbiscreen.service"@),
                path_join(h, ".local/share/applications/com.orbiscreen.OrbiscreenGtk.desktop"@),
                path_join(
                    h,
                    ".local/share/icons/hicolor/scalable/apps/com.orbiscreen.OrbiscreenGtk.svg"@,
                ),
            ] + sys_files,
            seq![path_join(h, ".local/share/orbiscreen"@)] + sys_dirs,
        )
    } else {
        (sys_files, sys_dirs)
    }
}

pub fn uninstall_targets(home: Option<&str>) -> (r: (Vec<String>, Vec<String>))
    ensures
        (r.0@.map_values(|s: String| s@), r.1@.map_values(|s: String| s@)) == spec_uninstall_targets(
            opt_str_view(home),
        ),
{
    let mut files: Vec<String> = Vec::new();
    let mut dirs: Vec<String> = Vec::new();
    if let Some(h) = home {
        let c = chars_of(h);
        if c.len() > 0 && c[0] == '/' {
            files.push(crate::kwin::join_path_strings(h, ".local/bin/orbiscreen"));
            files.push(crate::kwin::join_path_strings(h, ".config/systemd/user/orbiscreen.service"));
            files.push(
                crate::kwin::join_path_strings(
                    h,
                    ".local/share/applications/com.orbiscreen.OrbiscreenGtk.desktop",
                ),
            );
            files.push(
                crate::kwin::join_path_strings(
                    h,
                    ".local/share/icons/hicolor/scalable/apps/com.orbiscreen.OrbiscreenGtk.svg",
                ),
            );
            dirs.push(crate::kwin::join_path_strings(h, ".local/share/orbiscreen"));
        }
    }
    files.push(string_from("/usr/bin/orbiscreen"));
    files.push(string_from("/usr/share/applications/com.orbiscreen.OrbiscreenGtk.desktop"));
    files.push(
        string_from("/usr/share/icons/hicolor/scalable/apps/com.orbiscreen.OrbiscreenGtk.svg"),
    );
    dirs.push(string_from("/usr/share/orbiscreen"));
    assert(files@.map_values(|s: String| s@) =~= spec_uninstall_targets(opt_str_view(home)).0);
    assert(dirs@.map_values(|s: String| s@) =~= spec_uninstall_targets(opt_str_view(home)).1);
    (files, dirs)
}

/// How `uninstall` ends: complete, or with the number of removals that
/// failed.
pub fn uninstall_summary(failures: u32) -> (r: (String, bool))
    ensures
        r.1 == (failures == 0),
        r.0@ == (if failures == 0 {
            "[Orbiscreen] Uninstallation complete."@
        } else {
            "[Orbiscreen] Uninstallation finished with "@ + decimal_of(failures as nat)
                + " error(s); see warnings above."@
        }),
{
    if failures == 0 {
        (string_from("[Orbiscreen] Uninstallation complete."), true)
    } else {
        let mut m = string_from("[Orbiscreen] Uninstallation finished with ");
        push_decimal(&mut m, failures as u64);
        m.append(" error(s); see warnings above.");
        (m, false)
    }
}

/// The verbosity filter that logging starts with: `INFO`, `DEBUG` (`-v`) or
/// `TRACE` (`-vv` and more), with the D-Bus crates kept to errors.
pub open spec fn spec_tracing_filter(verbose: u8) -> Seq<char> {
    (if verbose == 0 {
        "INFO"@
    } else if verbose == 1 {
        "DEBUG"@
    } else {
        "TRACE"@
    }) + ",zbus=error,ashpd=error"@
}

pub fn tracing_filter(verbose: u8) -> (r: String)
    ensures
        r@ == spec_tracing_filter(verbose),
{
    let mut s = string_from(if verbose == 0 {
        "INFO"
    } else if verbose == 1 {
        "DEBUG"
    } else {
        "TRACE"
    });
    s.append(",zbus=error,ashpd=error");
    s
}

/// The request that asks the local daemon for `path`.
pub fn http_get_request(path: &str, port: u16) -> (r: String)
    ensures
        r@ == "GET "@ + path@ + " HTTP/1.1\r\nHost: 127.0.0.1:"@ + decimal_of(port as nat)
            + "\r\nConnection: close\r\n\r\n"@,
{
    let mut s = string_from("GET ");
    s.append(path);
    s.append(" HTTP/1.1\r\nHost: 127.0.0.1:");
    push_decimal(&mut s, port as u64);
    s.append("\r\nConnection: close\r\n\r\n");
    s
}

pub open spec fn blank_line() -> Seq<char> {
    "\r\n\r\n"@
}

/// The body of an HTTP response: `resp.split("\r\n\r\n").nth(1)`, the
/// text after the first blank line up to the next one.
pub open spec fn spec_http_body(resp: Seq<char>) -> Option<Seq<char>> {
    let j = find_from(resp, blank_line(), 0);
    if j >= resp.len() {
        None
    } else {
        let rest = resp.skip(j + 4);
        Some(rest.take(find_from(rest, blank_line(), 0)))
    }
}

pub fn http_body(resp: &str) -> (r: Option<String>)
    ensures
        match r {
            Some(b) => spec_http_body(resp@) == Some(b@),
            None => spec_http_body(resp@) is None,
        },
{
    let c = chars_of(resp);
    let sep = chars_of("\r\n\r\n");
    proof {
        reveal_strlit("\r\n\r\n");
        lemma_find_from(c@, blank_line(), 0);
    }
    let j = find_exec(c.as_slice(), sep.as_slice(), 0);
    if j >= c.len() {
        return None;
    }
    let rest = sub_chars(c.as_slice(), j + 4, c.len());
    assert(rest@ =~= c@.skip(j + 4));
    proof {
        lemma_find_from(rest@, blank_line(), 0);
    }
    let k = find_exec(rest.as_slice(), sep.as_slice(), 0);
    let body = sub_chars(rest.as_slice(), 0, k);
    assert(body@ =~= rest@.take(k as int));
    Some(string_of(body.as_slice()))
}

/// Whether `text` holds `p` somewhere.
pub open spec fn contains_text(text: Seq<char>, p: Seq<char>) -> bool {
    find_from(text, p, 0) < text.len()
}

fn contains_str(text: &str, p: &str) -> (r: bool)
    ensures
        r == contains_text(text@, p@),
{
    let c = chars_of(text);
    let pc = chars_of(p);
    let j = find_exec(c.as_slice(), pc.as_slice(), 0);
    j < c.len()
}

/// A start that failed because the port is taken: another daemon runs.
pub fn is_address_in_use(error: &str) -> (r: bool)
    ensures
        r == contains_text(error@, "Address already in use"@),
{
    contains_str(error, "Address already in use")
}

/// A D-Bus error that says no daemon owns the bus name.
pub fn is_service_unknown(error_name: &str) -> (r: bool)
    ensures
        r == contains_text(error_name@, "ServiceUnknown"@),
{
    contains_str(error_name, "ServiceUnknown")
}

/// The state that `systemctl --user is-active` printed, trimmed; `fallback`
/// where it could not be run.
pub fn systemd_state(output: Option<&str>, fallback: &str) -> (r: String)
    ensures
        r@ == (match opt_str_view(output) {
            Some(o) => trim(o),
            None => fallback@,
        }),
{
    match output {
        Some(o) => {
            let c = chars_of(o);
            let t = trim_chars(c.as_slice());
            string_of(t.as_slice())
        },
        None => string_from(fallback),
    }
}

/// The fields of the daemon's JSON status (or of its `/health` and
/// `/api/info` answers) that the status command reads; each holds the
/// member of that name where it has the type shown.
#[derive(Debug, Clone, Default)]
pub struct StatusJson {
    pub running: Option<bool>,
    pub status: Option<String>,
    pub encoder: Option<String>,
    pub capture_backend: Option<String>,
    pub active_clients: Option<u64>,
    pub usb_devices: Option<u64>,
    pub display_width: Option<u64>,
    pub display_height: Option<u64>,
    pub display_fps: Option<u64>,
    pub refresh_hz: Option<u64>,
    pub signaling_port: Option<u64>,
}

/// Whether `s` holds what the JSON document `text` has under the names that
/// the status command reads.
pub open spec fn status_matches_json(s: StatusJson, text: Seq<char>) -> bool {
    &&& s.running == json_bool_field(text, "/running"@)
    &&& opt_text(s.status) == json_str_field(text, "/status"@)
    &&& opt_text(s.encoder) == json_str_field(text, "/encoder"@)
    &&& opt_text(s.capture_backend) == json_str_field(text, "/capture_backend"@)
    &&& s.active_clients == json_u64_field(text, "/active_clients"@)
    &&& s.usb_devices == json_u64_field(text, "/usb_devices"@)
    &&& s.display_width == json_u64_field(text, "/display_width"@)
    &&& s.display_height == json_u64_field(text, "/display_height"@)
    &&& s.display_fps == json_u64_field(text, "/display_fps"@)
    &&& s.refresh_hz == json_u64_field(text, "/refresh_hz"@)
    &&& s.signaling_port == json_u64_field(text, "/signaling_port"@)
}

/// Reads the daemon's JSON status; `None` where the text is not JSON.
pub fn status_json_from(text: &str) -> (r: Option<StatusJson>)
    ensures
        r is None <==> json_items_of(text@) is Err,
        r matches Some(s) ==> status_matches_json(s, text@),
{
    if json_items(text).is_err() {
        return None;
    }
    proof {
        reveal_strlit("/running");
        reveal_strlit("/status");
        reveal_strlit("/encoder");
        reveal_strlit("/capture_backend");
        reveal_strlit("/active_clients");
        reveal_strlit("/usb_devices");
        reveal_strlit("/display_width");
        reveal_strlit("/display_height");
        reveal_strlit("/display_fps");
        reveal_strlit("/refresh_hz");
        reveal_strlit("/signaling_port");
    }
    Some(
        StatusJson {
            running: json_bool_at(text, "/running"),
            status: json_str_at(text, "/status"),
            encoder: json_str_at(text, "/encoder"),
            capture_backend: json_str_at(text, "/capture_backend"),
            active_clients: json_u64_at(text, "/active_clients"),
            usb_devices: json_u64_at(text, "/usb_devices"),
            display_width: json_u64_at(text, "/display_width"),
            display_height: json_u64_at(text, "/display_height"),
            display_fps: json_u64_at(text, "/display_fps"),
            refresh_hz: json_u64_at(text, "/refresh_hz"),
            signaling_port: json_u64_at(text, "/signaling_port"),
        },
    )
}

/// What the status dashboard shows.
#[derive(Debug, Clone)]
pub struct StatusReport {
    pub running: bool,
    pub width: u64,
    pub height: u64,
    pub fps: u64,
    pub encoder: String,
    pub capture: String,
    pub port: u16,
    pub active_clients: u64,
    pub usb_devices: u64,
}

pub open spec fn or_u64(o: Option<u64>, d: u64) -> u64 {
    match o {
        Some(v) => v,
        None => d,
    }
}

pub open spec fn or_text(o: Option<String>, d: Seq<char>) -> Seq<char> {
    match o {
        Some(v) => v@,
        None => d,
    }
}

fn text_or(o: &Option<String>, d: &str) -> (r: String)
    ensures
        r@ == or_text(*o, d@),
{
    match o {
        Some(v) => v.clone(),
        None => string_from(d),
    }
}

fn u64_or(o: Option<u64>, d: u64) -> (r: u64)
    ensures
        r == or_u64(o, d),
{
    match o {
        Some(v) => v,
        None => d,
    }
}

/// The dashboard from the daemon's D-Bus status: missing fields take the
/// defaults (stopped, `auto`, `Unknown`, 1920x1080 at 60, the configured
/// port).
pub fn report_from_bus(v: &StatusJson, port: u16) -> (r: StatusReport)
    ensures
        r.running == (v.running == Some(true)),
        r.encoder@ == or_text(v.encoder, "auto"@),
        r.capture@ == or_text(v.capture_backend, "Unknown"@),
        r.active_clients == or_u64(v.active_clients, 0),
        r.usb_devices == or_u64(v.usb_devices, 0),
        r.width == or_u64(v.display_width, 1920),
        r.height == or_u64(v.display_height, 1080),
        r.fps == or_u64(v.display_fps, 60),
        r.port == (or_u64(v.signaling_port, port as u64) % 65536) as u16,
{
    let p = u64_or(v.signaling_port, port as u64);
    StatusReport {
        running: match v.running {
            Some(b) => b,
            None => false,
        },
        width: u64_or(v.display_width, 1920),
        height: u64_or(v.display_height, 1080),
        fps: u64_or(v.display_fps, 60),
        encoder: text_or(&v.encoder, "auto"),
        capture: text_or(&v.capture_backend, "Unknown"),
        port: (p % 65536) as u16,
        active_clients: u64_or(v.active_clients, 0),
        usb_devices: u64_or(v.usb_devices, 0),
    }
}

/// The dashboard from the local HTTP endpoints, when D-Bus does not answer:
/// `/health` says whether it streams and its counts, `/api/info` the mode.
pub fn report_from_http(health: &StatusJson, info: &StatusJson, port: u16) -> (r: StatusReport)
    ensures
        r.running == (match health.status {
            Some(s) => s@ == "ok"@,
            None => false,
        }),
        r.encoder@ == (match health.encoder {
            Some(e) => e@,
            None => or_text(info.encoder, "auto"@),
        }),
        r.capture@ == "Virtual"@,
        r.active_clients == or_u64(health.active_clients, 0),
        r.usb_devices == or_u64(health.usb_devices, 0),
        r.width == or_u64(info.display_width, 1920),
        r.height == or_u64(info.display_height, 1080),
        r.fps == or_u64(info.refresh_hz, 60),
        r.port == port,
{
    let running = match &health.status {
        Some(s) => {
            let c = chars_of(s.as_str());
            chars_eq_str(c.as_slice(), "ok")
        },
        None => false,
    };
    let encoder = match &health.encoder {
        Some(e) => e.clone(),
        None => text_or(&info.encoder, "auto"),
    };
    StatusReport {
        running,
        width: u64_or(info.display_width, 1920),
        height: u64_or(info.display_height, 1080),
        fps: u64_or(info.refresh_hz, 60),
        encoder,
        capture: string_from("Virtual"),
        port,
        active_clients: u64_or(health.active_clients, 0),
        usb_devices: u64_or(health.usb_devices, 0),
    }
}

/// The token shown on the dashboard: the saved one, trimmed, else a
/// placeholder.
pub fn status_token(saved: Option<&str>) -> (r: String)
    ensures
        r@ == trim(match opt_str_view(saved) {
            Some(t) => t,
            None => "token-active"@,
        }),
{
    let raw = match saved {
        Some(t) => chars_of(t),
        None => chars_of("token-active"),
    };
    let t = trim_chars(raw.as_slice());
    string_of(t.as_slice())
}

/// The rows shown when no daemon answers.
pub open spec fn spec_stopped_rows(systemd: Seq<char>) -> Seq<(Seq<char>, Seq<char>)> {
    seq![
        ("Daemon Process"@, "Not running (No com.orbiscreen.Daemon on D-Bus)"@),
        ("Systemd Service"@, "orbiscreen.service ("@ + systemd + ")"@),
        ("Start Foreground"@, "orbiscreen start (or: orbiscreen up)"@),
        ("Start Background"@, "orbiscreen start -d (or: orbiscreen service start)"@),
        ("Health Check"@, "orbiscreen doctor"@),
    ]
}

pub fn stopped_rows(systemd: &str) -> (r: Vec<(String, String)>)
    ensures
        r@.map_values(|p: (String, String)| pair_view(p)) == spec_stopped_rows(systemd@),
{
    let mut svc = string_from("orbiscreen.service (");
    svc.append(systemd);
    svc.append(")");
    let mut v: Vec<(String, String)> = Vec::new();
    v.push((string_from("Daemon Process"), string_from("Not running (No com.orbiscreen.Daemon on D-Bus)")));
    v.push((string_from("Systemd Service"), svc));
    v.push((string_from("Start Foreground"), string_from("orbiscreen start (or: orbiscreen up)")));
    v.push(
        (
            string_from("Start Background"),
            string_from("orbiscreen start -d (or: orbiscreen service start)"),
        ),
    );
    v.push((string_from("Health Check"), string_from("orbiscreen doctor")));
    assert(v@.map_values(|p: (String, String)| pair_view(p)) =~= spec_stopped_rows(systemd@));
    v
}

/// Where the stream's frames come from.
#[derive(Debug, Clone)]
pub enum FrameSourceKind {
    Evdi,
    Capture(CaptureBackend),
    WlrVirtual(String),
}

/// The name a source is reported under.
pub fn backend_name(source: &FrameSourceKind) -> (r: &'static str)
    ensures
        r@ == (match *source {
            FrameSourceKind::Evdi => "evdi"@,
            FrameSourceKind::WlrVirtual(_) => "wlr-virtual"@,
            FrameSourceKind::Capture(CaptureBackend::X11) => "x11"@,
            FrameSourceKind::Capture(CaptureBackend::Wayland) => "wayland-portal"@,
            FrameSourceKind::Capture(CaptureBackend::KwinVirtual) => "kwin-virtual"@,
        }),
{
    match source {
        FrameSourceKind::Evdi => "evdi",
        FrameSourceKind::WlrVirtual(_) => "wlr-virtual",
        FrameSourceKind::Capture(CaptureBackend::X11) => "x11",
        FrameSourceKind::Capture(CaptureBackend::Wayland) => "wayland-portal",
        FrameSourceKind::Capture(CaptureBackend::KwinVirtual) => "kwin-virtual",
    }
}

/// The output that the tablet's input is bound to: the wlroots output, or
/// KWin's virtual output; none for other sources.
pub fn captured_output_name(source: &FrameSourceKind) -> (r: Option<String>)
    ensures
        match *source {
            FrameSourceKind::WlrVirtual(n) => r matches Some(m) && m@ == n@,
            FrameSourceKind::Capture(CaptureBackend::KwinVirtual) => r matches Some(m) && m@
                == "Virtual-ORBISCREEN"@,
            _ => r is None,
        },
{
    match source {
        FrameSourceKind::WlrVirtual(n) => Some(n.clone()),
        FrameSourceKind::Capture(CaptureBackend::KwinVirtual) => Some(string_from("Virtual-ORBISCREEN")),
        _ => None,
    }
}

/// The encoder's name as the status reports it.
pub fn encoder_name(kind: EncoderKind) -> (r: &'static str)
    ensures
        r@ == (match kind {
            EncoderKind::Vaapi => "vaapi"@,
            EncoderKind::Nvenc => "nvenc"@,
            EncoderKind::X264 => "x264"@,
        }),
{
    match kind {
        EncoderKind::Vaapi => "vaapi",
        EncoderKind::Nvenc => "nvenc",
        EncoderKind::X264 => "x264",
    }
}

/// How long the last captured frame is kept for resending while the source
/// is quiet, in milliseconds.
pub const KEEPALIVE_MS: u64 = 100;

/// The timestamps handed to the encoder: each frame is stamped with the
/// time since the start, but never less than a frame after the previous
/// one (saturating at the top of the range).
#[derive(Debug, Clone, Copy)]
pub struct PtsClock {
    last: u64,
    frame_dur: u64,
}

impl View for PtsClock {
    type V = (u64, u64);

    closed spec fn view(&self) -> (u64, u64) {
        (self.last, self.frame_dur)
    }
}

pub open spec fn sat_add(a: u64, b: u64) -> u64 {
    if a + b <= u64::MAX {
        (a + b) as u64
    } else {
        u64::MAX
    }
}

pub open spec fn spec_next_pts(last: u64, frame_dur: u64, now_ns: u64) -> u64 {
    let step = sat_add(last, frame_dur);
    if now_ns >= step {
        now_ns
    } else {
        step
    }
}

impl PtsClock {
    /// A clock for frames `frame_dur` apart; the first stamp is at least
    /// two frames in.
    pub fn new(frame_dur: u64) -> (r: Self)
        ensures
            r@ == (frame_dur, frame_dur),
    {
        PtsClock { last: frame_dur, frame_dur }
    }

    /// The stamp for a frame taken `now_ns` after the start.
    pub fn next(&mut self, now_ns: u64) -> (r: u64)
        ensures
            r == spec_next_pts(old(self)@.0, old(self)@.1, now_ns),
            final(self)@ == (r, old(self)@.1),
    {
        let step = self.last.saturating_add(self.frame_dur);
        let pts = if now_ns >= step {
            now_ns
        } else {
            step
        };
        self.last = pts;
        pts
    }
}

/// Stamps never go back, and below the top of the range each is at least a
/// frame after the one before it and no earlier than the capture time.
pub proof fn law_pts_advance(last: u64, frame_dur: u64, now_ns: u64)
    ensures
        spec_next_pts(last, frame_dur, now_ns) >= last,
        spec_next_pts(last, frame_dur, now_ns) >= now_ns,
        last + frame_dur <= u64::MAX ==> spec_next_pts(last, frame_dur, now_ns) >= last
            + frame_dur,
{
}

/// Encoded chunks are re-stamped relative to the first one.
#[derive(Debug, Clone, Copy)]
pub struct PtsRebase {
    base: Option<u64>,
}

impl View for PtsRebase {
    type V = Option<u64>;

    closed spec fn view(&self) -> Option<u64> {
        self.base
    }
}

impl PtsRebase {
    pub fn new() -> (r: Self)
        ensures
            r@ is None,
    {
        PtsRebase { base: None }
    }

    /// The chunk's stamp less the first chunk's (saturating at 0).
    pub fn rebase(&mut self, pts_ns: u64) -> (r: u64)
        ensures
            final(self)@ == Some(match old(self)@ {
                Some(b) => b,
                None => pts_ns,
            }),
            r == (if pts_ns >= final(self)@->0 {
                (pts_ns - final(self)@->0) as u64
            } else {
                0
            }),
    {
        let base = match self.base {
            Some(b) => b,
            None => pts_ns,
        };
        self.base = Some(base);
        pts_ns.saturating_sub(base)
    }
}

/// Whether to keep the frame just captured for keepalive resends: when
/// none was kept yet, or the last was kept at least [`KEEPALIVE_MS`] ago.
pub fn snapshot_due(since_last_snapshot_ms: Option<u64>) -> (r: bool)
    ensures
        r == (match since_last_snapshot_ms {
            Some(t) => t >= KEEPALIVE_MS,
            None => true,
        }),
{
    match since_last_snapshot_ms {
        Some(t) => t >= 100,
        None => true,
    }
}

/// What the capture pump does after a failed read.
#[derive(Debug, Clone, Copy, PartialEq, Eq, Structural)]
pub enum PumpStep {
    /// Wait a little and read again.
    Retry,
    Stop,
}

/// A read error is retried unless the source has ended for good; a source
/// that reports its end stops the pump.
pub fn after_read_error(source_ended: bool) -> (r: PumpStep)
    ensures
        r == (if source_ended {
            PumpStep::Stop
        } else {
            PumpStep::Retry
        }),
{
    if source_ended {
        PumpStep::Stop
    } else {
        PumpStep::Retry
    }
}

/// Where the web client is looked for, in order: `clients/web` under the
/// working directory, the user's share directory (where `HOME` is set), and
/// the system-wide installs.
pub open spec fn spec_client_dir_candidates(cwd: Seq<char>, home: Option<Seq<char>>) -> Seq<Seq<char>> {
    let local = path_join(path_join(cwd, "clients"@), "web"@);
    let system = seq!["/usr/share/orbiscreen/client"@, "/app/share/orbiscreen/client"@];
    match home {
        Some(h) => seq![local, path_join(h, ".local/share/orbiscreen/client"@)] + system,
        None => seq![local] + system,
    }
}

pub fn client_dir_candidates(cwd: &str, home: Option<&str>) -> (r: Vec<String>)
    ensures
        r@.map_values(|s: String| s@) == spec_client_dir_candidates(cwd@, opt_str_view(home)),
{
    let c = crate::kwin::join_path_strings(cwd, "clients");
    let local = crate::kwin::join_path_strings(c.as_str(), "web");
    let mut v: Vec<String> = Vec::new();
    v.push(local);
    if let Some(h) = home {
        v.push(crate::kwin::join_path_strings(h, ".local/share/orbiscreen/client"));
    }
    v.push(string_from("/usr/share/orbiscreen/client"));
    v.push(string_from("/app/share/orbiscreen/client"));
    assert(v@.map_values(|s: String| s@) =~= spec_client_dir_candidates(cwd@, opt_str_view(home)));
    v
}

/// The index of the first candidate that exists, or the count.
pub open spec fn first_existing(exists: Seq<bool>, i: int) -> int
    decreases exists.len() - i,
{
    if i < 0 || i >= exists.len() {
        exists.len() as int
    } else if exists[i] {
        i
    } else {
        first_existing(exists, i + 1)
    }
}

/// The web client directory: `ORBISCREEN_CLIENT_DIR` where it exists, else
/// the first candidate that exists, else `clients/web`.
pub fn choose_client_dir(env_dir: Option<&str>, env_dir_exists: bool, candidates: &[String], exists: &[bool]) -> (r:
    String)
    requires
        candidates@.len() == exists@.len(),
    ensures
        r@ == (if env_dir is Some && env_dir_exists {
            env_dir->0@
        } else if first_existing(exists@, 0) < exists@.len() {
            candidates@[first_existing(exists@, 0)]@
        } else {
            "clients/web"@
        }),
{
    if let Some(d) = env_dir {
        if env_dir_exists {
            return string_from(d);
        }
    }
    let mut i: usize = 0;
    while i < exists.len()
        invariant
            i <= exists@.len(),
            candidates@.len() == exists@.len(),
            first_existing(exists@, 0) == first_existing(exists@, i as int),
            !(env_dir is Some && env_dir_exists),
        decreases exists@.len() - i,
    {
        if exists[i] {
            return candidates[i].clone();
        }
        i += 1;
    }
    string_from("clients/web")
}

/// A saved pairing token is reused when, trimmed, it is at least 32 bytes.
pub fn usable_saved_token(saved: Option<&str>) -> (r: Option<String>)
    ensures
        match opt_str_view(saved) {
            Some(t) => if vstd::utf8::encode_utf8(trim(t)).len() >= 32 {
                r matches Some(k) && k@ == trim(t)
            } else {
                r is None
            },
            None => r is None,
        },
{
    match saved {
        None => None,
        Some(t) => {
            let c = chars_of(t);
            let tc = trim_chars(c.as_slice());
            let s = string_of(tc.as_slice());
            let bytes = s.as_str().as_bytes();
            if bytes.len() >= 32 {
                Some(s)
            } else {
                None
            }
        },
    }
}

/// mDNS advertising runs unless `--no-mdns` is given or the configuration
/// turns it off.
pub fn should_advertise(no_mdns: bool, mdns_advertise: bool) -> (r: bool)
    ensures
        r == (!no_mdns && mdns_advertise),
{
    !no_mdns && mdns_advertise
}

/// The mDNS instance name: the host name, or `orbiscreen-host`.
pub fn instance_name(hostname: Option<String>) -> (r: String)
    ensures
        r@ == (match hostname {
            Some(h) => h@,
            None => "orbiscreen-host"@,
        }),
{
    match hostname {
        Some(h) => h,
        None => string_from("orbiscreen-host"),
    }
}

/// `{w}x{h} @ {hz}Hz`.
pub fn display_info(width: u32, height: u32, hz: u32) -> (r: String)
    ensures
        r@ == decimal_of(width as nat) + "x"@ + decimal_of(height as nat) + " @ "@ + decimal_of(
            hz as nat,
        ) + "Hz"@,
{
    let mut s = String::new();
    push_decimal(&mut s, width as u64);
    s.append("x");
    push_decimal(&mut s, height as u64);
    s.append(" @ ");
    push_decimal(&mut s, hz as u64);
    s.append("Hz");
    s
}

/// The answer to a D-Bus `Stop`: a running daemon shuts down (and is told
/// to), a stopped one says so.
pub fn stop_reply(was_running: bool) -> (r: (&'static str, bool))
    ensures
        r.1 == was_running,
        r.0@ == (if was_running {
            "Orbiscreen daemon shutting down"@
        } else {
            "Orbiscreen is not running"@
        }),
{
    if was_running {
        ("Orbiscreen daemon shutting down", true)
    } else {
        ("Orbiscreen is not running", false)
    }
}

/// The answer to a D-Bus `ListClients`.
pub fn clients_summary(active: u64, total: u64) -> (r: String)
    ensures
        r@ == "HTTP MPEG-TS /stream: "@ + decimal_of(active as nat) + " active client(s), "@
            + decimal_of(total as nat) + " total connection(s)"@,
{
    let mut s = string_from("HTTP MPEG-TS /stream: ");
    push_decimal(&mut s, active);
    s.append(" active client(s), ");
    push_decimal(&mut s, total);
    s.append(" total connection(s)");
    s
}

/// The answer to a D-Bus `GetConfig` when the configuration cannot be
/// written out.
pub fn config_error_reply(error: &str) -> (r: String)
    ensures
        r@ == "config serialize error: "@ + error@,
{
    let mut s = string_from("config serialize error: ");
    s.append(error);
    s
}

} // verus!
