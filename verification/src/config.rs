//! The daemon's configuration, its defaults, the bounds that `sanitize`
//! enforces, and where its files live.
use vstd::prelude::*;

use crate::text::{ascii_lower, chars_eq_str, chars_of, lower_char, to_ascii_lower};

verus! {

broadcast use vstd::string::group_string_axioms;

#[derive(Debug, Clone)]
pub struct Config {
    pub display: DisplayConfig,
    pub capture: CaptureConfig,
    pub encode: EncodeConfig,
    pub transport: TransportConfig,
}

impl Default for Config {
    fn default() -> (r: Self)
        ensures
            r.display == DisplayConfig::spec_default(),
            r.capture.preferred@ == "auto"@,
            r.encode.bitrate_kbps == 8000,
            r.encode.preferred_encoder@ == "auto"@,
            r.transport == TransportConfig::spec_default(),
    {
        Config {
            display: DisplayConfig::default(),
            capture: CaptureConfig::default(),
            encode: EncodeConfig::default(),
            transport: TransportConfig::default(),
        }
    }
}

impl Config {
    /// Each section brought within its bounds.
    pub fn sanitize(&mut self)
        ensures
            final(self).display == old(self).display.sanitized(),
            final(self).capture.preferred@ == sanitized_preference(old(self).capture.preferred@),
            final(self).encode.bitrate_kbps == clamp(
                old(self).encode.bitrate_kbps as int,
                EncodeConfig::MIN_BITRATE_KBPS as int,
                EncodeConfig::MAX_BITRATE_KBPS as int,
            ),
            final(self).encode.preferred_encoder@ == sanitized_encoder(
                old(self).encode.preferred_encoder@,
            ),
            final(self).transport == old(self).transport.sanitized(),
    {
        self.display.sanitize();
        self.capture.sanitize();
        self.encode.sanitize();
        self.transport.sanitize();
    }
}

/// `v` brought into `[lo, hi]` (`Ord::clamp`).
pub open spec fn clamp(v: int, lo: int, hi: int) -> int {
    if v < lo {
        lo
    } else if v > hi {
        hi
    } else {
        v
    }
}

pub fn clamp_u32(v: u32, lo: u32, hi: u32) -> (r: u32)
    requires
        lo <= hi,
    ensures
        r == clamp(v as int, lo as int, hi as int),
{
    if v < lo {
        lo
    } else if v > hi {
        hi
    } else {
        v
    }
}

#[derive(Debug, Clone)]
pub struct CaptureConfig {
    pub preferred: String,
}

/// The capture preferences that the configuration accepts.
pub open spec fn known_preference(p: Seq<char>) -> bool {
    p == "auto"@ || p == "kwin-virtual"@ || p == "screencopy"@ || p == "portal"@ || p == "evdi"@
        || p == "mirror"@
}

pub open spec fn sanitized_preference(p: Seq<char>) -> Seq<char> {
    if known_preference(p) {
        p
    } else {
        "auto"@
    }
}

impl Default for CaptureConfig {
    fn default() -> (r: Self)
        ensures
            r.preferred@ == "auto"@,
    {
        CaptureConfig { preferred: "auto".to_string() }
    }
}

impl CaptureConfig {
    /// The accepted preferences, in their documented order.
    pub fn preferences() -> (r: Vec<&'static str>)
        ensures
            r@.len() == 6,
            r@[0]@ == "auto"@,
            r@[1]@ == "kwin-virtual"@,
            r@[2]@ == "screencopy"@,
            r@[3]@ == "portal"@,
            r@[4]@ == "evdi"@,
            r@[5]@ == "mirror"@,
    {
        vec!["auto", "kwin-virtual", "screencopy", "portal", "evdi", "mirror"]
    }

    /// An unknown preference falls back to `auto`.
    pub fn sanitize(&mut self)
        ensures
            final(self).preferred@ == sanitized_preference(old(self).preferred@),
    {
        let p = chars_of(self.preferred.as_str());
        let s = p.as_slice();
        let known = chars_eq_str(s, "auto") || chars_eq_str(s, "kwin-virtual") || chars_eq_str(
            s,
            "screencopy",
        ) || chars_eq_str(s, "portal") || chars_eq_str(s, "evdi") || chars_eq_str(s, "mirror");
        if !known {
            self.preferred = "auto".to_string();
        }
    }
}

#[derive(Debug, Clone, Copy, PartialEq, Eq, Structural)]
pub struct DisplayConfig {
    pub width: u32,
    pub height: u32,
    pub refresh_rate_hz: u32,
}

impl Default for DisplayConfig {
    fn default() -> (r: Self)
        ensures
            r == DisplayConfig::spec_default(),
    {
        DisplayConfig { width: 1920, height: 1080, refresh_rate_hz: 60 }
    }
}

impl DisplayConfig {
    pub const MIN_WIDTH: u32 = 320;

    pub const MIN_HEIGHT: u32 = 240;

    pub const MAX_WIDTH: u32 = 7680;

    pub const MAX_HEIGHT: u32 = 4320;

    pub const MIN_REFRESH_RATE_HZ: u32 = 1;

    pub const MAX_REFRESH_RATE_HZ: u32 = 480;

    pub open spec fn spec_default() -> DisplayConfig {
        DisplayConfig { width: 1920, height: 1080, refresh_rate_hz: 60 }
    }

    pub open spec fn sanitized(self) -> DisplayConfig {
        DisplayConfig {
            width: clamp(self.width as int, 320, 7680) as u32,
            height: clamp(self.height as int, 240, 4320) as u32,
            refresh_rate_hz: clamp(self.refresh_rate_hz as int, 1, 480) as u32,
        }
    }

    /// A display within these bounds is left as it is.
    pub open spec fn in_bounds(self) -> bool {
        320 <= self.width <= 7680 && 240 <= self.height <= 4320 && 1 <= self.refresh_rate_hz
            <= 480
    }

    /// Width, height and refresh rate clamped to their bounds.
    pub fn sanitize(&mut self)
        ensures
            *final(self) == old(self).sanitized(),
    {
        self.width = clamp_u32(self.width, Self::MIN_WIDTH, Self::MAX_WIDTH);
        self.height = clamp_u32(self.height, Self::MIN_HEIGHT, Self::MAX_HEIGHT);
        self.refresh_rate_hz = clamp_u32(
            self.refresh_rate_hz,
            Self::MIN_REFRESH_RATE_HZ,
            Self::MAX_REFRESH_RATE_HZ,
        );
    }
}

#[derive(Debug, Clone)]
pub struct EncodeConfig {
    pub bitrate_kbps: u32,
    pub preferred_encoder: String,
}

/// The encoder names that the configuration accepts, in any ASCII case.
pub open spec fn known_encoder(e: Seq<char>) -> bool {
    let l = ascii_lower(e);
    l == "auto"@ || l == "nvenc"@ || l == "vaapi"@ || l == "x264"@
}

pub open spec fn sanitized_encoder(e: Seq<char>) -> Seq<char> {
    if known_encoder(e) {
        e
    } else {
        "auto"@
    }
}

impl Default for EncodeConfig {
    fn default() -> (r: Self)
        ensures
            r.bitrate_kbps == 8000,
            r.preferred_encoder@ == "auto"@,
    {
        EncodeConfig { bitrate_kbps: 8000, preferred_encoder: "auto".to_string() }
    }
}

impl EncodeConfig {
    pub const MIN_BITRATE_KBPS: u32 = 100;

    pub const MAX_BITRATE_KBPS: u32 = 100_000;

    /// The bitrate clamped to its bounds; an unknown encoder falls back to
    /// `auto`, a known one keeps its spelling.
    pub fn sanitize(&mut self)
        ensures
            final(self).bitrate_kbps == clamp(
                old(self).bitrate_kbps as int,
                EncodeConfig::MIN_BITRATE_KBPS as int,
                EncodeConfig::MAX_BITRATE_KBPS as int,
            ),
            final(self).preferred_encoder@ == sanitized_encoder(old(self).preferred_encoder@),
    {
        self.bitrate_kbps = clamp_u32(
            self.bitrate_kbps,
            Self::MIN_BITRATE_KBPS,
            Self::MAX_BITRATE_KBPS,
        );
        let e = chars_of(self.preferred_encoder.as_str());
        let l = to_ascii_lower(e.as_slice());
        let s = l.as_slice();
        let known = chars_eq_str(s, "auto") || chars_eq_str(s, "nvenc") || chars_eq_str(s, "vaapi")
            || chars_eq_str(s, "x264");
        if !known {
            self.preferred_encoder = "auto".to_string();
        }
    }
}

#[derive(Debug, Clone, Copy, PartialEq, Eq, Structural)]
pub struct TransportConfig {
    pub signaling_port: u16,
    pub mdns_advertise: bool,
}

impl Default for TransportConfig {
    fn default() -> (r: Self)
        ensures
            r == TransportConfig::spec_default(),
    {
        TransportConfig { signaling_port: 8788, mdns_advertise: true }
    }
}

impl TransportConfig {
    pub const DEFAULT_SIGNALING_PORT: u16 = 8788;

    pub open spec fn spec_default() -> TransportConfig {
        TransportConfig { signaling_port: 8788, mdns_advertise: true }
    }

    pub open spec fn sanitized(self) -> TransportConfig {
        if self.signaling_port < 1024 {
            TransportConfig { signaling_port: 8788, ..self }
        } else {
            self
        }
    }

    /// A privileged port (below 1024) falls back to the default port.
    pub fn sanitize(&mut self)
        ensures
            *final(self) == old(self).sanitized(),
    {
        if self.signaling_port < 1024 {
            self.signaling_port = Self::DEFAULT_SIGNALING_PORT;
        }
    }
}

/// `base` joined with the relative path `rel` (`Path::join`): a separator is
/// added unless `base` already ends with one.
pub open spec fn join_path(base: Seq<char>, rel: Seq<char>) -> Seq<char> {
    if base.len() > 0 && base.last() == '/' {
        base + rel
    } else {
        base + seq!['/'] + rel
    }
}

/// A usable base directory from the environment: set, not empty and, where
/// `absolute` is asked for, starting at the root.
pub open spec fn usable_dir(v: Option<Seq<char>>, absolute: bool) -> bool {
    v is Some && v->0.len() > 0 && (!absolute || v->0[0] == '/')
}

/// Where a file under the configuration directory lives, given
/// `XDG_CONFIG_HOME` and `HOME`.
pub open spec fn config_file_path(
    xdg_config_home: Option<Seq<char>>,
    home: Option<Seq<char>>,
    file: Seq<char>,
) -> Seq<char> {
    if usable_dir(xdg_config_home, true) {
        join_path(xdg_config_home->0, "orbiscreen/"@ + file)
    } else if usable_dir(home, false) {
        join_path(home->0, ".config/orbiscreen/"@ + file)
    } else {
        file
    }
}

pub open spec fn opt_str_view(o: Option<&str>) -> Option<Seq<char>> {
    match o {
        Some(s) => Some(s@),
        None => None,
    }
}

/// `base` joined with `rel`.
pub fn join_path_exec(base: &str, rel: &str) -> (r: String)
    ensures
        r@ == join_path(base@, rel@),
{
    let b = chars_of(base);
    let mut out = base.to_string();
    if b.len() > 0 && b[b.len() - 1] == '/' {
        out.append(rel);
    } else {
        out.append("/");
        proof {
            reveal_strlit("/");
        }
        out.append(rel);
    }
    out
}

fn usable_dir_exec(v: Option<&str>, absolute: bool) -> (r: bool)
    ensures
        r == usable_dir(opt_str_view(v), absolute),
{
    match v {
        Some(s) => {
            let c = chars_of(s);
            c.len() > 0 && (!absolute || c[0] == '/')
        },
        None => false,
    }
}

fn config_file_path_exec(xdg_config_home: Option<&str>, home: Option<&str>, file: &str) -> (r:
    String)
    ensures
        r@ == config_file_path(opt_str_view(xdg_config_home), opt_str_view(home), file@),
{
    if usable_dir_exec(xdg_config_home, true) {
        let mut rel = "orbiscreen/".to_string();
        rel.append(file);
        join_path_exec(xdg_config_home.unwrap(), rel.as_str())
    } else if usable_dir_exec(home, false) {
        let mut rel = ".config/orbiscreen/".to_string();
        rel.append(file);
        join_path_exec(home.unwrap(), rel.as_str())
    } else {
        file.to_string()
    }
}

/// The configuration file, given `XDG_CONFIG_HOME` and `HOME`: under an
/// absolute `XDG_CONFIG_HOME`, else under `~/.config`, else in the working
/// directory.
pub fn default_config_path(xdg_config_home: Option<&str>, home: Option<&str>) -> (r: String)
    ensures
        r@ == config_file_path(
            opt_str_view(xdg_config_home),
            opt_str_view(home),
            "orbiscreen.toml"@,
        ),
{
    config_file_path_exec(xdg_config_home, home, "orbiscreen.toml")
}

/// The pairing token file: the configuration file's sibling named `token`.
pub fn default_token_path(xdg_config_home: Option<&str>, home: Option<&str>) -> (r: String)
    ensures
        r@ == config_file_path(opt_str_view(xdg_config_home), opt_str_view(home), "token"@),
{
    config_file_path_exec(xdg_config_home, home, "token")
}

/// Sanitizing brings every setting within its bounds (a known capture
/// preference and encoder, a bitrate and display mode in range, an
/// unprivileged port), and a sanitized configuration is left as it is by a
/// second pass.
pub proof fn law_sanitize_settles(
    d: DisplayConfig,
    preferred: Seq<char>,
    bitrate_kbps: u32,
    encoder: Seq<char>,
    t: TransportConfig,
)
    ensures
        d.sanitized().in_bounds(),
        d.sanitized().sanitized() == d.sanitized(),
        known_preference(sanitized_preference(preferred)),
        sanitized_preference(sanitized_preference(preferred)) == sanitized_preference(preferred),
        EncodeConfig::MIN_BITRATE_KBPS <= clamp(
            bitrate_kbps as int,
            EncodeConfig::MIN_BITRATE_KBPS as int,
            EncodeConfig::MAX_BITRATE_KBPS as int,
        ) <= EncodeConfig::MAX_BITRATE_KBPS,
        known_encoder(sanitized_encoder(encoder)),
        sanitized_encoder(sanitized_encoder(encoder)) == sanitized_encoder(encoder),
        t.sanitized().signaling_port >= 1024,
        t.sanitized().sanitized() == t.sanitized(),
{
    reveal_strlit("auto");
    assert(ascii_lower("auto"@) =~= "auto"@) by {
        assert(lower_char('a') == 'a' && lower_char('u') == 'u' && lower_char('t') == 't'
            && lower_char('o') == 'o');
    }
}

} // verus!
