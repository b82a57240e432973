//! `orbiscreen doctor`: what the diagnostics decide. Which package manager
//! installs the evdi kernel module on this distribution, what `--fix` does
//! for the state the system is in, and the texts it reports.
use vstd::prelude::*;

use crate::capabilities::{CaptureStep, Compositor, SessionType};
use crate::daemon::{join_comma, join_comma_exec};
use crate::ui::{badge_info, badge_ok, badge_warn, spec_badge};
use crate::wlroots::WlrootsIpcKind;
use crate::config::TransportConfig;
use crate::display::DisplayStatus;
use crate::text::{
    ascii_lower, ascii_words, ascii_words_of, chars_eq_str, chars_of, chars_starts_with, lines,
    lines_of, starts_with, string_from, sub_chars, to_ascii_lower, trim, trim_chars,
};

verus! {

broadcast use vstd::string::group_string_axioms;

/// The package manager of a supported distribution family.
#[derive(Debug, Clone, Copy, PartialEq, Eq, Structural)]
pub enum PackageFamily {
    Dnf,
    Zypper,
    Pacman,
    Apt,
}

impl PackageFamily {
    pub open spec fn name(self) -> Seq<char> {
        match self {
            PackageFamily::Dnf => "dnf"@,
            PackageFamily::Zypper => "zypper"@,
            PackageFamily::Pacman => "pacman"@,
            PackageFamily::Apt => "apt"@,
        }
    }

    /// The command that installs evdi with this package manager.
    pub open spec fn install_cmd(self) -> Seq<Seq<char>> {
        match self {
            PackageFamily::Dnf => seq!["sudo"@, "dnf"@, "install"@, "-y"@, "evdi"@],
            PackageFamily::Zypper => seq!["sudo"@, "zypper"@, "install"@, "-y"@, "evdi"@],
            PackageFamily::Pacman => seq!["sudo"@, "pacman"@, "-S"@, "--noconfirm"@, "evdi"@],
            PackageFamily::Apt => seq![
                "sudo"@,
                "apt-get"@,
                "install"@,
                "-y"@,
                "evdi-dkms"@,
                "dkms"@,
                "linux-headers-generic"@,
            ],
        }
    }
}

/// How `doctor --fix` installs the evdi module.
#[derive(Debug, Clone)]
pub struct EvdiFixPlan {
    pub package_manager: &'static str,
    pub install_cmd: Vec<String>,
}

/// The value of the first `key` line (`key` included the `=`), or empty.
pub open spec fn field_value(ls: Seq<Seq<char>>, key: Seq<char>, i: int) -> Seq<char>
    decreases ls.len() - i,
{
    if i < 0 || i >= ls.len() {
        seq![]
    } else if starts_with(ls[i], key) {
        ls[i].skip(key.len() as int)
    } else {
        field_value(ls, key, i + 1)
    }
}

pub open spec fn strip_leading_quotes(s: Seq<char>) -> Seq<char>
    decreases s.len(),
{
    if s.len() > 0 && s[0] == '"' {
        strip_leading_quotes(s.skip(1))
    } else {
        s
    }
}

pub open spec fn strip_trailing_quotes(s: Seq<char>) -> Seq<char>
    decreases s.len(),
{
    if s.len() > 0 && s.last() == '"' {
        strip_trailing_quotes(s.drop_last())
    } else {
        s
    }
}

/// `str::trim_matches('"')`.
pub open spec fn trim_quotes(s: Seq<char>) -> Seq<char> {
    strip_trailing_quotes(strip_leading_quotes(s))
}

/// The distribution tokens of an os-release file, read without regard to
/// ASCII case: its `ID`, then each word of its `ID_LIKE`.
pub open spec fn os_tokens(os_release: Seq<char>) -> Seq<Seq<char>> {
    let ls = lines(ascii_lower(os_release));
    seq![trim_quotes(field_value(ls, "id="@, 0))] + ascii_words(
        trim_quotes(field_value(ls, "id_like="@, 0)),
    )
}

pub open spec fn dnf_token(t: Seq<char>) -> bool {
    t == "fedora"@ || t == "rhel"@ || t == "centos"@
}

pub open spec fn zypper_token(t: Seq<char>) -> bool {
    t == "opensuse"@ || t == "suse"@
}

pub open spec fn pacman_token(t: Seq<char>) -> bool {
    t == "arch"@ || t == "endeavouros"@ || t == "manjaro"@
}

pub open spec fn apt_token(t: Seq<char>) -> bool {
    t == "debian"@ || t == "ubuntu"@ || t == "linuxmint"@ || t == "pop"@ || t == "elementary"@
        || t == "zorin"@ || t == "cosmic"@
}

pub open spec fn family_token(f: PackageFamily, t: Seq<char>) -> bool {
    match f {
        PackageFamily::Dnf => dnf_token(t),
        PackageFamily::Zypper => zypper_token(t),
        PackageFamily::Pacman => pacman_token(t),
        PackageFamily::Apt => apt_token(t),
    }
}

pub open spec fn any_token(ts: Seq<Seq<char>>, f: PackageFamily) -> bool {
    exists|i: int| 0 <= i < ts.len() && family_token(f, #[trigger] ts[i])
}

/// The family whose package manager installs evdi, tried in this order:
/// the Fedora family, SUSE, Arch, then Debian and its derivatives.
pub open spec fn spec_fix_family(os_release: Seq<char>) -> Option<PackageFamily> {
    let ts = os_tokens(os_release);
    if any_token(ts, PackageFamily::Dnf) {
        Some(PackageFamily::Dnf)
    } else if any_token(ts, PackageFamily::Zypper) {
        Some(PackageFamily::Zypper)
    } else if any_token(ts, PackageFamily::Pacman) {
        Some(PackageFamily::Pacman)
    } else if any_token(ts, PackageFamily::Apt) {
        Some(PackageFamily::Apt)
    } else {
        None
    }
}

fn family_token_exec(f: PackageFamily, t: &[char]) -> (r: bool)
    ensures
        r == family_token(f, t@),
{
    match f {
        PackageFamily::Dnf => chars_eq_str(t, "fedora") || chars_eq_str(t, "rhel") || chars_eq_str(
            t,
            "centos",
        ),
        PackageFamily::Zypper => chars_eq_str(t, "opensuse") || chars_eq_str(t, "suse"),
        PackageFamily::Pacman => chars_eq_str(t, "arch") || chars_eq_str(t, "endeavouros")
            || chars_eq_str(t, "manjaro"),
        PackageFamily::Apt => chars_eq_str(t, "debian") || chars_eq_str(t, "ubuntu")
            || chars_eq_str(t, "linuxmint") || chars_eq_str(t, "pop") || chars_eq_str(
            t,
            "elementary",
        ) || chars_eq_str(t, "zorin") || chars_eq_str(t, "cosmic"),
    }
}

fn any_token_exec(ts: &Vec<Vec<char>>, f: PackageFamily) -> (r: bool)
    ensures
        r == any_token(ts@.map_values(|v: Vec<char>| v@), f),
{
    let ghost tv = ts@.map_values(|v: Vec<char>| v@);
    let mut i: usize = 0;
    while i < ts.len()
        invariant
            i <= ts@.len(),
            tv == ts@.map_values(|v: Vec<char>| v@),
            forall|k: int| 0 <= k < i ==> !family_token(f, #[trigger] tv[k]),
        decreases ts@.len() - i,
    {
        assert(ts@[i as int]@ == tv[i as int]);
        if family_token_exec(f, ts[i].as_slice()) {
            return true;
        }
        i += 1;
    }
    false
}

fn field_value_exec(ls: &Vec<Vec<char>>, key: &str) -> (r: Vec<char>)
    ensures
        r@ == field_value(ls@.map_values(|v: Vec<char>| v@), key@, 0),
{
    let ghost lv = ls@.map_values(|v: Vec<char>| v@);
    let k = chars_of(key);
    let mut i: usize = 0;
    while i < ls.len()
        invariant
            i <= ls@.len(),
            lv == ls@.map_values(|v: Vec<char>| v@),
            k@ == key@,
            field_value(lv, key@, 0) == field_value(lv, key@, i as int),
        decreases ls@.len() - i,
    {
        assert(ls@[i as int]@ == lv[i as int]);
        if chars_starts_with(ls[i].as_slice(), k.as_slice()) {
            let rest = sub_chars(ls[i].as_slice(), k.len(), ls[i].len());
            assert(rest@ =~= lv[i as int].skip(key@.len() as int));
            return rest;
        }
        i += 1;
    }
    Vec::new()
}

fn trim_quotes_exec(s: &Vec<char>) -> (r: Vec<char>)
    ensures
        r@ == trim_quotes(s@),
{
    let mut a: usize = 0;
    assert(s@.skip(0) =~= s@);
    while a < s.len() && s[a] == '"'
        invariant
            a <= s@.len(),
            strip_leading_quotes(s@) == strip_leading_quotes(s@.skip(a as int)),
        decreases s@.len() - a,
    {
        assert(s@.skip(a as int).skip(1) =~= s@.skip(a + 1));
        a += 1;
    }
    let mut b: usize = s.len();
    assert(s@.skip(a as int) =~= s@.subrange(a as int, b as int));
    while b > a && s[b - 1] == '"'
        invariant
            a <= b <= s@.len(),
            strip_leading_quotes(s@) == s@.subrange(a as int, s@.len() as int),
            trim_quotes(s@) == strip_trailing_quotes(s@.subrange(a as int, b as int)),
        decreases b,
    {
        assert(s@.subrange(a as int, b as int).drop_last() =~= s@.subrange(a as int, b - 1));
        b -= 1;
    }
    sub_chars(s.as_slice(), a, b)
}

/// How `doctor --fix` installs evdi on the distribution that an
/// os-release file describes; `None` for one it does not know.
pub fn evdi_fix_plan_for_os_release(os_release: &str) -> (r: Option<EvdiFixPlan>)
    ensures
        match spec_fix_family(os_release@) {
            Some(f) => r matches Some(p) && p.package_manager@ == f.name()
                && p.install_cmd@.map_values(|c: String| c@) == f.install_cmd(),
            None => r is None,
        },
{
    let c = chars_of(os_release);
    let lower = to_ascii_lower(c.as_slice());
    let ls = lines_of(lower.as_slice());
    let id = trim_quotes_exec(&field_value_exec(&ls, "id="));
    let id_like = trim_quotes_exec(&field_value_exec(&ls, "id_like="));
    let like_words = ascii_words_of(id_like.as_slice());
    let mut tokens: Vec<Vec<char>> = Vec::new();
    tokens.push(id);
    let mut i: usize = 0;
    while i < like_words.len()
        invariant
            i <= like_words@.len(),
            tokens@.map_values(|v: Vec<char>| v@) == seq![trim_quotes(
                field_value(lines(ascii_lower(os_release@)), "id="@, 0),
            )] + like_words@.map_values(|v: Vec<char>| v@).take(i as int),
        decreases like_words@.len() - i,
    {
        let ghost before = tokens@.map_values(|v: Vec<char>| v@);
        tokens.push(like_words[i].clone());
        assert(tokens@.map_values(|v: Vec<char>| v@) =~= before.push(like_words@[i as int]@));
        assert(like_words@.map_values(|v: Vec<char>| v@).take(i as int).push(
            like_words@[i as int]@,
        ) =~= like_words@.map_values(|v: Vec<char>| v@).take(i + 1));
        i += 1;
    }
    assert(like_words@.map_values(|v: Vec<char>| v@).take(like_words@.len() as int)
        =~= like_words@.map_values(|v: Vec<char>| v@));
    assert(tokens@.map_values(|v: Vec<char>| v@) =~= os_tokens(os_release@));
    let family = if any_token_exec(&tokens, PackageFamily::Dnf) {
        PackageFamily::Dnf
    } else if any_token_exec(&tokens, PackageFamily::Zypper) {
        PackageFamily::Zypper
    } else if any_token_exec(&tokens, PackageFamily::Pacman) {
        PackageFamily::Pacman
    } else if any_token_exec(&tokens, PackageFamily::Apt) {
        PackageFamily::Apt
    } else {
        return None;
    };
    Some(fix_plan_for(family))
}

fn fix_plan_for(f: PackageFamily) -> (r: EvdiFixPlan)
    ensures
        r.package_manager@ == f.name(),
        r.install_cmd@.map_values(|c: String| c@) == f.install_cmd(),
{
    let mut cmd: Vec<String> = Vec::new();
    cmd.push(string_from("sudo"));
    let pm = match f {
        PackageFamily::Dnf => {
            cmd.push(string_from("dnf"));
            cmd.push(string_from("install"));
            cmd.push(string_from("-y"));
            cmd.push(string_from("evdi"));
            "dnf"
        },
        PackageFamily::Zypper => {
            cmd.push(string_from("zypper"));
            cmd.push(string_from("install"));
            cmd.push(string_from("-y"));
            cmd.push(string_from("evdi"));
            "zypper"
        },
        PackageFamily::Pacman => {
            cmd.push(string_from("pacman"));
            cmd.push(string_from("-S"));
            cmd.push(string_from("--noconfirm"));
            cmd.push(string_from("evdi"));
            "pacman"
        },
        PackageFamily::Apt => {
            cmd.push(string_from("apt-get"));
            cmd.push(string_from("install"));
            cmd.push(string_from("-y"));
            cmd.push(string_from("evdi-dkms"));
            cmd.push(string_from("dkms"));
            cmd.push(string_from("linux-headers-generic"));
            "apt"
        },
    };
    assert(cmd@.map_values(|c: String| c@) =~= f.install_cmd());
    EvdiFixPlan { package_manager: pm, install_cmd: cmd }
}

/// The signaling port that a default configuration listens on.
pub fn cfg_default_signaling_port() -> (r: u16)
    ensures
        r == TransportConfig::spec_default().signaling_port,
{
    let t = TransportConfig::default();
    t.signaling_port
}

/// A yes to `proceed? [y/N]`: `y` or `yes` in any ASCII case, give or take
/// white space.
pub open spec fn spec_is_yes(answer: Seq<char>) -> bool {
    ascii_lower(trim(answer)) == "y"@ || ascii_lower(trim(answer)) == "yes"@
}

pub fn is_yes(answer: &str) -> (r: bool)
    ensures
        r == spec_is_yes(answer@),
{
    let c = chars_of(answer);
    let t = trim_chars(c.as_slice());
    let l = to_ascii_lower(t.as_slice());
    chars_eq_str(l.as_slice(), "y") || chars_eq_str(l.as_slice(), "yes")
}

pub open spec fn spec_status_text(status: DisplayStatus) -> Seq<char> {
    match status {
        DisplayStatus::Compatible => "Compatible (kernel + libevdi OK)"@,
        DisplayStatus::Outdated => "Outdated (kernel evdi older than libevdi requires)"@,
        DisplayStatus::KernelModuleMissing => "kernel module missing"@,
        DisplayStatus::NoDeviceNode => "kernel OK, no evdi device node yet (added by `orbiscreen start` or evdi_ctl)"@,
    }
}

/// How the evdi status is reported.
pub fn display_status_text(status: DisplayStatus) -> (r: &'static str)
    ensures
        r@ == spec_status_text(status),
{
    match status {
        DisplayStatus::Compatible => "Compatible (kernel + libevdi OK)",
        DisplayStatus::Outdated => "Outdated (kernel evdi older than libevdi requires)",
        DisplayStatus::KernelModuleMissing => "kernel module missing",
        DisplayStatus::NoDeviceNode => "kernel OK, no evdi device node yet (added by `orbiscreen start` or evdi_ctl)",
    }
}

/// What `doctor --fix` finds before it installs anything.
#[derive(Debug, Clone, Copy, PartialEq, Eq, Structural)]
pub enum FixPrecheck {
    /// KWin makes virtual displays itself: no kernel module needed.
    NativeKwin,
    /// The wlroots compositor makes virtual outputs itself.
    NativeWlroots,
    /// evdi is ready.
    AlreadyAvailable,
    /// evdi is ready; its device node comes once the daemon starts.
    WaitingForNode,
    /// The loaded module is too old for libevdi: rebuild it.
    Outdated,
    /// The module is missing: install it.
    NeedsModule,
}

impl FixPrecheck {
    /// Whether `doctor --fix` ends here successfully.
    pub open spec fn spec_done_ok(self) -> bool {
        self == FixPrecheck::NativeKwin || self == FixPrecheck::NativeWlroots || self
            == FixPrecheck::AlreadyAvailable || self == FixPrecheck::WaitingForNode
    }

    pub fn done_ok(&self) -> (r: bool)
        ensures
            r == self.spec_done_ok(),
    {
        match self {
            FixPrecheck::NativeKwin | FixPrecheck::NativeWlroots | FixPrecheck::AlreadyAvailable
            | FixPrecheck::WaitingForNode => true,
            _ => false,
        }
    }
}

pub open spec fn spec_fix_precheck(
    compositor: Compositor,
    chain: Seq<CaptureStep>,
    wlroots_ipc_found: bool,
    status: DisplayStatus,
) -> FixPrecheck {
    if compositor == Compositor::Kde || chain.contains(CaptureStep::KwinVirtual) {
        FixPrecheck::NativeKwin
    } else if wlroots_ipc_found || chain.contains(CaptureStep::WlrootsVirtual) {
        FixPrecheck::NativeWlroots
    } else {
        match status {
            DisplayStatus::Compatible => FixPrecheck::AlreadyAvailable,
            DisplayStatus::NoDeviceNode => FixPrecheck::WaitingForNode,
            DisplayStatus::Outdated => FixPrecheck::Outdated,
            DisplayStatus::KernelModuleMissing => FixPrecheck::NeedsModule,
        }
    }
}

fn chain_has(chain: &[CaptureStep], step: CaptureStep) -> (r: bool)
    ensures
        r == chain@.contains(step),
{
    let mut i: usize = 0;
    while i < chain.len()
        invariant
            i <= chain@.len(),
            forall|k: int| 0 <= k < i ==> chain@[k] != step,
        decreases chain@.len() - i,
    {
        if chain[i] == step {
            assert(chain@[i as int] == step);
            return true;
        }
        i += 1;
    }
    false
}

/// What `doctor --fix` does first: nothing where the session makes virtual
/// displays natively (KDE, a wlroots compositor with its IPC), else by the
/// evdi status.
pub fn doctor_fix_precheck(
    compositor: Compositor,
    chain: &[CaptureStep],
    wlroots_ipc_found: bool,
    status: DisplayStatus,
) -> (r: FixPrecheck)
    ensures
        r == spec_fix_precheck(compositor, chain@, wlroots_ipc_found, status),
{
    if compositor == Compositor::Kde || chain_has(chain, CaptureStep::KwinVirtual) {
        return FixPrecheck::NativeKwin;
    }
    if wlroots_ipc_found || chain_has(chain, CaptureStep::WlrootsVirtual) {
        return FixPrecheck::NativeWlroots;
    }
    match status {
        DisplayStatus::Compatible => FixPrecheck::AlreadyAvailable,
        DisplayStatus::NoDeviceNode => FixPrecheck::WaitingForNode,
        DisplayStatus::Outdated => FixPrecheck::Outdated,
        DisplayStatus::KernelModuleMissing => FixPrecheck::NeedsModule,
    }
}

/// After the install and `modprobe`, the module is loaded when evdi reports
/// a usable state.
pub fn module_ready_after_fix(status: DisplayStatus) -> (r: bool)
    ensures
        r == (status == DisplayStatus::Compatible || status == DisplayStatus::NoDeviceNode),
{
    match status {
        DisplayStatus::Compatible | DisplayStatus::NoDeviceNode => true,
        _ => false,
    }
}

/// What `doctor` found on this system.
#[derive(Debug, Clone)]
pub struct DoctorFacts {
    pub session: SessionType,
    pub current_desktop: Option<String>,
    pub compositor: Compositor,
    pub chain: Vec<CaptureStep>,
    pub display_status: DisplayStatus,
    pub uinput_writable: bool,
    /// Whether the desktop portal is on the session bus; `None` where that
    /// was not checked.
    pub portal: Option<bool>,
    pub screencast_saved: bool,
    pub input_saved: bool,
    pub swaymsg: bool,
    pub hyprctl: bool,
    pub cosmic_comp: bool,
    pub cosmic_randr: bool,
    pub wlr_ipc: Option<WlrootsIpcKind>,
    pub adb_installed: bool,
    pub devices: Vec<String>,
}

pub open spec fn ok_mark(colors: bool) -> Seq<char> {
    spec_badge(colors, "\x1b[38;2;166;227;161m✔\x1b[0m"@, "[OK]"@)
}

pub open spec fn warn_mark(colors: bool) -> Seq<char> {
    spec_badge(colors, "\x1b[38;2;249;226;175m⚠\x1b[0m"@, "[WARN]"@)
}

pub open spec fn info_mark(colors: bool) -> Seq<char> {
    spec_badge(colors, "\x1b[38;2;137;180;250mℹ\x1b[0m"@, "[INFO]"@)
}

pub open spec fn session_title(s: SessionType) -> Seq<char> {
    match s {
        SessionType::Wayland => "Wayland"@,
        SessionType::X11 => "X11"@,
        SessionType::Unknown => "Unknown"@,
    }
}

pub open spec fn step_title(s: CaptureStep) -> Seq<char> {
    match s {
        CaptureStep::KwinVirtual => "KWin Virtual"@,
        CaptureStep::WlrootsVirtual => "wlroots Virtual"@,
        CaptureStep::WlrScreencopy => "wlroots Screencopy"@,
        CaptureStep::Portal => "Portal"@,
        CaptureStep::Evdi => "EVDI"@,
        CaptureStep::X11Root => "X11 Root"@,
    }
}

/// The capture plan, its steps joined by arrows.
pub open spec fn plan_text(chain: Seq<CaptureStep>) -> Seq<char>
    decreases chain.len(),
{
    if chain.len() == 0 {
        seq![]
    } else if chain.len() == 1 {
        step_title(chain[0])
    } else {
        plan_text(chain.drop_last()) + " ➔ "@ + step_title(chain.last())
    }
}

pub open spec fn found(b: bool) -> Seq<char> {
    if b {
        "Found"@
    } else {
        "No"@
    }
}

pub open spec fn grant_text(saved: bool) -> Seq<char> {
    if saved {
        "Saved (Reused)"@
    } else {
        "Prompt on start"@
    }
}

/// KWin makes the virtual display itself.
pub open spec fn kwin_native(f: DoctorFacts) -> bool {
    f.compositor == Compositor::Kde || f.chain@.contains(CaptureStep::KwinVirtual)
}

/// A wlroots compositor makes the virtual output itself.
pub open spec fn wlr_native(f: DoctorFacts) -> bool {
    f.wlr_ipc is Some || f.chain@.contains(CaptureStep::WlrootsVirtual)
}

/// The display backend that the JSON report names.
pub open spec fn spec_doctor_backend(f: DoctorFacts) -> Seq<char> {
    if kwin_native(f) {
        "Native (KWin Virtual)"@
    } else if wlr_native(f) {
        "Native (wlroots)"@
    } else {
        spec_status_text(f.display_status)
    }
}

/// The rows of the diagnostics card.
pub open spec fn spec_doctor_rows(f: DoctorFacts, colors: bool) -> Seq<(Seq<char>, Seq<char>)> {
    let session = session_title(f.session) + match f.current_desktop {
        Some(d) => " (XDG_CURRENT_DESKTOP="@ + d@ + ")"@,
        None => seq![],
    };
    let display = if kwin_native(f) {
        ok_mark(colors) + " Native (KWin Virtual)"@
    } else if wlr_native(f) {
        ok_mark(colors) + " Native ("@ + match f.wlr_ipc {
            Some(k) => k.label(),
            None => "wlroots"@,
        } + ")"@
    } else {
        match f.display_status {
            DisplayStatus::Compatible => ok_mark(colors) + " Compatible (Kernel + libevdi)"@,
            DisplayStatus::Outdated => warn_mark(colors)
                + " Outdated (Kernel evdi older than libevdi)"@,
            DisplayStatus::KernelModuleMissing => warn_mark(colors) + " Kernel module missing"@,
            DisplayStatus::NoDeviceNode => info_mark(colors)
                + " Kernel OK, no evdi device node yet"@,
        }
    };
    let uinput = if f.uinput_writable {
        ok_mark(colors) + " Writable (/dev/uinput)"@
    } else {
        warn_mark(colors) + " Needs root or uinput group"@
    };
    let portal = match f.portal {
        Some(true) => ok_mark(colors) + " Active (org.freedesktop.portal.Desktop)"@,
        Some(false) => warn_mark(colors) + " Missing (Install xdg-desktop-portal)"@,
        None => if f.session == SessionType::Wayland {
            info_mark(colors) + " Unchecked (Session bus not connected)"@
        } else {
            info_mark(colors) + " Not applicable (X11)"@
        },
    };
    let grants = "Screencast: "@ + grant_text(f.screencast_saved) + " · Remote Input: "@
        + grant_text(f.input_saved);
    let tools = match f.compositor {
        Compositor::Kde => "KWin D-Bus (Native)"@,
        Compositor::Gnome => "Mutter Portal (Native)"@,
        Compositor::Cosmic => "cosmic-comp: "@ + found(f.cosmic_comp) + " · cosmic-randr: "@
            + found(f.cosmic_randr),
        _ => "swaymsg: "@ + found(f.swaymsg) + " · hyprctl: "@ + found(f.hyprctl),
    };
    let devs = f.devices@.map_values(|d: String| d@);
    let usb = if f.adb_installed {
        if devs.len() == 0 {
            ok_mark(colors) + " Ready (No devices connected)"@
        } else if devs.len() == 1 {
            ok_mark(colors) + " Device connected ("@ + devs[0] + ")"@
        } else {
            ok_mark(colors) + " Devices connected ("@ + join_comma(devs) + ")"@
        }
    } else {
        warn_mark(colors) + " ADB not installed (Wi-Fi streaming unaffected)"@
    };
    seq![
        ("Session / Desktop"@, session),
        ("Compositor"@, f.compositor.label()),
        ("Capture Pipeline"@, plan_text(f.chain@)),
        ("Virtual Display"@, display),
        ("Input Injection"@, uinput),
        ("Desktop Portal"@, portal),
        ("Saved Grants"@, grants),
        ("Compositor Tools"@, tools),
        ("USB ADB Tunnel"@, usb),
    ]
}

fn step_title_exec(s: CaptureStep) -> (r: &'static str)
    ensures
        r@ == step_title(s),
{
    match s {
        CaptureStep::KwinVirtual => "KWin Virtual",
        CaptureStep::WlrootsVirtual => "wlroots Virtual",
        CaptureStep::WlrScreencopy => "wlroots Screencopy",
        CaptureStep::Portal => "Portal",
        CaptureStep::Evdi => "EVDI",
        CaptureStep::X11Root => "X11 Root",
    }
}

/// The capture plan as the diagnostics show it.
pub fn plan_line(chain: &[CaptureStep]) -> (r: String)
    ensures
        r@ == plan_text(chain@),
{
    let mut out = String::new();
    let mut i: usize = 0;
    while i < chain.len()
        invariant
            i <= chain@.len(),
            out@ == plan_text(chain@.take(i as int)),
        decreases chain@.len() - i,
    {
        if i > 0 {
            out.append(" ➔ ");
        }
        out.append(step_title_exec(chain[i]));
        proof {
            let t = chain@.take(i + 1);
            assert(t.drop_last() =~= chain@.take(i as int));
            assert(t.last() == chain@[i as int]);
        }
        i += 1;
    }
    assert(chain@.take(chain@.len() as int) =~= chain@);
    out
}

fn found_exec(b: bool) -> (r: &'static str)
    ensures
        r@ == found(b),
{
    if b {
        "Found"
    } else {
        "No"
    }
}

fn grant_exec(saved: bool) -> (r: &'static str)
    ensures
        r@ == grant_text(saved),
{
    if saved {
        "Saved (Reused)"
    } else {
        "Prompt on start"
    }
}

/// The display backend that the JSON report names.
pub fn doctor_backend(f: &DoctorFacts) -> (r: &'static str)
    ensures
        r@ == spec_doctor_backend(*f),
{
    if f.compositor == Compositor::Kde || chain_has(f.chain.as_slice(), CaptureStep::KwinVirtual) {
        "Native (KWin Virtual)"
    } else if f.wlr_ipc.is_some() || chain_has(f.chain.as_slice(), CaptureStep::WlrootsVirtual) {
        "Native (wlroots)"
    } else {
        display_status_text(f.display_status)
    }
}

fn with_badge(badge: &str, text: &str) -> (r: String)
    ensures
        r@ == badge@ + text@,
{
    let mut s = string_from(badge);
    s.append(text);
    s
}

fn display_row(f: &DoctorFacts, colors: bool) -> (r: String)
    ensures
        r@ == spec_doctor_rows(*f, colors)[3].1,
{
    if f.compositor == Compositor::Kde || chain_has(f.chain.as_slice(), CaptureStep::KwinVirtual) {
        with_badge(badge_ok(colors), " Native (KWin Virtual)")
    } else if f.wlr_ipc.is_some() || chain_has(f.chain.as_slice(), CaptureStep::WlrootsVirtual) {
        let mut s = with_badge(badge_ok(colors), " Native (");
        match f.wlr_ipc {
            Some(k) => {
                let l = k.to_string();
                s.append(l.as_str());
            },
            None => s.append("wlroots"),
        }
        s.append(")");
        s
    } else {
        match f.display_status {
            DisplayStatus::Compatible => with_badge(badge_ok(colors), " Compatible (Kernel + libevdi)"),
            DisplayStatus::Outdated => with_badge(
                badge_warn(colors),
                " Outdated (Kernel evdi older than libevdi)",
            ),
            DisplayStatus::KernelModuleMissing => with_badge(badge_warn(colors), " Kernel module missing"),
            DisplayStatus::NoDeviceNode => with_badge(
                badge_info(colors),
                " Kernel OK, no evdi device node yet",
            ),
        }
    }
}

fn usb_row(f: &DoctorFacts, colors: bool) -> (r: String)
    ensures
        r@ == spec_doctor_rows(*f, colors)[8].1,
{
    let ghost devs = f.devices@.map_values(|d: String| d@);
    if !f.adb_installed {
        return with_badge(badge_warn(colors), " ADB not installed (Wi-Fi streaming unaffected)");
    }
    if f.devices.len() == 0 {
        with_badge(badge_ok(colors), " Ready (No devices connected)")
    } else if f.devices.len() == 1 {
        let mut s = with_badge(badge_ok(colors), " Device connected (");
        s.append(f.devices[0].as_str());
        s.append(")");
        assert(devs[0] == f.devices@[0]@);
        s
    } else {
        let mut s = with_badge(badge_ok(colors), " Devices connected (");
        let j = join_comma_exec(f.devices.as_slice());
        s.append(j.as_str());
        s.append(")");
        s
    }
}

/// The rows of the diagnostics card, from what was found.
pub fn doctor_rows(f: &DoctorFacts, colors: bool) -> (r: Vec<(String, String)>)
    ensures
        r@.map_values(|p: (String, String)| (p.0@, p.1@)) == spec_doctor_rows(*f, colors),
{
    let mut session = string_from(match f.session {
        SessionType::Wayland => "Wayland",
        SessionType::X11 => "X11",
        SessionType::Unknown => "Unknown",
    });
    if let Some(d) = &f.current_desktop {
        session.append(" (XDG_CURRENT_DESKTOP=");
        session.append(d.as_str());
        session.append(")");
    }
    let uinput = if f.uinput_writable {
        with_badge(badge_ok(colors), " Writable (/dev/uinput)")
    } else {
        with_badge(badge_warn(colors), " Needs root or uinput group")
    };
    let portal = match f.portal {
        Some(true) => with_badge(badge_ok(colors), " Active (org.freedesktop.portal.Desktop)"),
        Some(false) => with_badge(badge_warn(colors), " Missing (Install xdg-desktop-portal)"),
        None => if f.session == SessionType::Wayland {
            with_badge(badge_info(colors), " Unchecked (Session bus not connected)")
        } else {
            with_badge(badge_info(colors), " Not applicable (X11)")
        },
    };
    let mut grants = string_from("Screencast: ");
    grants.append(grant_exec(f.screencast_saved));
    grants.append(" · Remote Input: ");
    grants.append(grant_exec(f.input_saved));
    let tools = match f.compositor {
        Compositor::Kde => string_from("KWin D-Bus (Native)"),
        Compositor::Gnome => string_from("Mutter Portal (Native)"),
        Compositor::Cosmic => {
            let mut t = string_from("cosmic-comp: ");
            t.append(found_exec(f.cosmic_comp));
            t.append(" · cosmic-randr: ");
            t.append(found_exec(f.cosmic_randr));
            t
        },
        _ => {
            let mut t = string_from("swaymsg: ");
            t.append(found_exec(f.swaymsg));
            t.append(" · hyprctl: ");
            t.append(found_exec(f.hyprctl));
            t
        },
    };
    let mut v: Vec<(String, String)> = Vec::new();
    v.push((string_from("Session / Desktop"), session));
    v.push((string_from("Compositor"), f.compositor.to_string()));
    v.push((string_from("Capture Pipeline"), plan_line(f.chain.as_slice())));
    v.push((string_from("Virtual Display"), display_row(f, colors)));
    v.push((string_from("Input Injection"), uinput));
    v.push((string_from("Desktop Portal"), portal));
    v.push((string_from("Saved Grants"), grants));
    v.push((string_from("Compositor Tools"), tools));
    v.push((string_from("USB ADB Tunnel"), usb_row(f, colors)));
    proof {
        let rows = spec_doctor_rows(*f, colors);
        let got = v@.map_values(|p: (String, String)| (p.0@, p.1@));
        reveal_strlit("Session / Desktop");
        reveal_strlit("Compositor");
        reveal_strlit("Capture Pipeline");
        reveal_strlit("Virtual Display");
        reveal_strlit("Input Injection");
        reveal_strlit("Desktop Portal");
        reveal_strlit("Saved Grants");
        reveal_strlit("Compositor Tools");
        reveal_strlit("USB ADB Tunnel");
        assert(got[0] == rows[0]);
        assert(got[1] == rows[1]);
        assert(got[2] == rows[2]);
        assert(got[3] == rows[3]);
        assert(got[4] == rows[4]);
        assert(got[5] == rows[5]);
        assert(got[6] == rows[6]);
        assert(got[7] == rows[7]);
        assert(got[8] == rows[8]);
        assert(got =~= rows);
    }
    v
}

} // verus!
