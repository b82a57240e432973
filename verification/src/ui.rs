//! The terminal look of the command-line tool: whether to colour, the
//! status badges, the display names of encoders and capture backends, and
//! the layout of the framed cards that the commands print.
use vstd::prelude::*;

use crate::capabilities::{Compositor, SessionType};
use crate::config::opt_str_view;
use crate::text::{chars_eq_str, chars_of, decimal_of, push_chars, push_decimal, string_from};

verus! {

broadcast use vstd::string::group_string_axioms;

pub const RESET: &'static str = "\x1b[0m";

pub const BOLD: &'static str = "\x1b[1m";

pub const DIM: &'static str = "\x1b[2m";

pub const UNDERLINE: &'static str = "\x1b[4m";

pub const BLUE: &'static str = "\x1b[38;2;137;180;250m";

pub const SAPPHIRE: &'static str = "\x1b[38;2;116;199;236m";

pub const LAVENDER: &'static str = "\x1b[38;2;180;190;254m";

pub const GREEN: &'static str = "\x1b[38;2;166;227;161m";

pub const YELLOW: &'static str = "\x1b[38;2;249;226;175m";

pub const PEACH: &'static str = "\x1b[38;2;250;179;135m";

pub const RED: &'static str = "\x1b[38;2;243;139;168m";

pub const TEXT: &'static str = "\x1b[38;2;205;214;244m";

pub const SUBTEXT: &'static str = "\x1b[38;2;166;173;200m";

/// Colour is off when `NO_COLOR` is set or `TERM` is `dumb`; otherwise it
/// follows whether standard output is a terminal.
pub fn colors_enabled(no_color_set: bool, term: Option<&str>, stdout_is_terminal: bool) -> (r: bool)
    ensures
        r == (!no_color_set && opt_str_view(term) != Some("dumb"@) && stdout_is_terminal),
{
    if no_color_set {
        return false;
    }
    if let Some(t) = term {
        let c = chars_of(t);
        if chars_eq_str(c.as_slice(), "dumb") {
            return false;
        }
    }
    stdout_is_terminal
}

pub open spec fn spec_badge(colors: bool, colored: Seq<char>, plain: Seq<char>) -> Seq<char> {
    if colors {
        colored
    } else {
        plain
    }
}

pub fn badge_ok(colors: bool) -> (r: &'static str)
    ensures
        r@ == spec_badge(colors, "\x1b[38;2;166;227;161m✔\x1b[0m"@, "[OK]"@),
{
    if colors {
        "\x1b[38;2;166;227;161m✔\x1b[0m"
    } else {
        "[OK]"
    }
}

pub fn badge_warn(colors: bool) -> (r: &'static str)
    ensures
        r@ == spec_badge(colors, "\x1b[38;2;249;226;175m⚠\x1b[0m"@, "[WARN]"@),
{
    if colors {
        "\x1b[38;2;249;226;175m⚠\x1b[0m"
    } else {
        "[WARN]"
    }
}

pub fn badge_err(colors: bool) -> (r: &'static str)
    ensures
        r@ == spec_badge(colors, "\x1b[38;2;243;139;168m✖\x1b[0m"@, "[FAIL]"@),
{
    if colors {
        "\x1b[38;2;243;139;168m✖\x1b[0m"
    } else {
        "[FAIL]"
    }
}

pub fn badge_info(colors: bool) -> (r: &'static str)
    ensures
        r@ == spec_badge(colors, "\x1b[38;2;137;180;250mℹ\x1b[0m"@, "[INFO]"@),
{
    if colors {
        "\x1b[38;2;137;180;250mℹ\x1b[0m"
    } else {
        "[INFO]"
    }
}

/// `str::to_lowercase`: the Unicode lowercase mapping of the text (a final
/// capital sigma is mapped by its context).
pub uninterp spec fn unicode_lower(s: Seq<char>) -> Seq<char>;

/// Calls `str::to_lowercase`. Its result is named, not stated.
#[verifier::external_body]
fn to_lowercase(s: &str) -> (r: String)
    ensures
        r@ == unicode_lower(s@),
{
    s.to_lowercase()
}

pub open spec fn spec_encoder_label(lowered: Seq<char>) -> Seq<char> {
    if lowered == "nvenc"@ {
        "NVENC"@
    } else if lowered == "vaapi"@ {
        "VA-API"@
    } else if lowered == "software"@ || lowered == "x264"@ {
        "Software"@
    } else {
        "Hardware"@
    }
}

/// The display name of an encoder already in lowercase.
pub fn encoder_label(lowered: &str) -> (r: &'static str)
    ensures
        r@ == spec_encoder_label(lowered@),
{
    let c = chars_of(lowered);
    if chars_eq_str(c.as_slice(), "nvenc") {
        "NVENC"
    } else if chars_eq_str(c.as_slice(), "vaapi") {
        "VA-API"
    } else if chars_eq_str(c.as_slice(), "software") || chars_eq_str(c.as_slice(), "x264") {
        "Software"
    } else {
        "Hardware"
    }
}

/// The display name of an encoder, whatever its case.
pub fn format_encoder_name(encoder: &str) -> (r: &'static str)
    ensures
        r@ == spec_encoder_label(unicode_lower(encoder@)),
{
    let lowered = to_lowercase(encoder);
    encoder_label(lowered.as_str())
}

pub open spec fn spec_backend_label(lowered: Seq<char>) -> Seq<char> {
    if lowered == "kwin-virtual"@ || lowered == "kwin"@ {
        "KWin Virtual"@
    } else if lowered == "wlr-virtual"@ || lowered == "wlroots"@ {
        "wlroots"@
    } else if lowered == "x11"@ {
        "X11"@
    } else if lowered == "portal"@ {
        "XDG Portal"@
    } else {
        "Virtual"@
    }
}

/// The display name of a capture backend already in lowercase.
pub fn backend_label(lowered: &str) -> (r: &'static str)
    ensures
        r@ == spec_backend_label(lowered@),
{
    let c = chars_of(lowered);
    if chars_eq_str(c.as_slice(), "kwin-virtual") || chars_eq_str(c.as_slice(), "kwin") {
        "KWin Virtual"
    } else if chars_eq_str(c.as_slice(), "wlr-virtual") || chars_eq_str(c.as_slice(), "wlroots") {
        "wlroots"
    } else if chars_eq_str(c.as_slice(), "x11") {
        "X11"
    } else if chars_eq_str(c.as_slice(), "portal") {
        "XDG Portal"
    } else {
        "Virtual"
    }
}

/// The display name of a capture backend, whatever its case.
pub fn format_backend_name(backend: &str) -> (r: &'static str)
    ensures
        r@ == spec_backend_label(unicode_lower(backend@)),
{
    let lowered = to_lowercase(backend);
    backend_label(lowered.as_str())
}

/// The address a client opens: the LAN address (or `localhost`), the port
/// and the pairing token.
pub open spec fn spec_stream_url(lan_ip: Option<Seq<char>>, port: u16, token: Seq<char>) -> Seq<
    char,
> {
    "http://"@ + (match lan_ip {
        Some(ip) => ip,
        None => "localhost"@,
    }) + ":"@ + decimal_of(port as nat) + "/?token="@ + token
}

pub fn stream_url(lan_ip: Option<&str>, port: u16, token: &str) -> (r: String)
    ensures
        r@ == spec_stream_url(opt_str_view(lan_ip), port, token@),
{
    let mut s = string_from("http://");
    match lan_ip {
        Some(ip) => s.append(ip),
        None => s.append("localhost"),
    }
    s.append(":");
    push_decimal(&mut s, port as u64);
    s.append("/?token=");
    s.append(token);
    s
}

/// How the session is described: `Linux Session` when neither the
/// compositor nor the session type is known, else `<compositor> (<session>)`.
pub open spec fn spec_environment_text(c: Compositor, s: SessionType) -> Seq<char> {
    if c == Compositor::Unknown && s == SessionType::Unknown {
        "Linux Session"@
    } else {
        c.label() + " ("@ + s.label() + ")"@
    }
}

pub fn environment_text(c: Compositor, s: SessionType) -> (r: String)
    ensures
        r@ == spec_environment_text(c, s),
{
    if c == Compositor::Unknown && s == SessionType::Unknown {
        return string_from("Linux Session");
    }
    let mut t = c.to_string();
    t.append(" (");
    let st = s.to_string();
    t.append(st.as_str());
    t.append(")");
    t
}

/// What the status dashboard says of connected devices.
#[derive(Debug, Clone, Copy, PartialEq, Eq, Structural)]
pub enum DevicesLine {
    /// Android devices on USB.
    Usb(u64),
    /// Clients streaming over the network.
    Clients(u64),
    Waiting,
}

pub fn devices_line(usb_count: u64, active_clients: u64) -> (r: DevicesLine)
    ensures
        r == (if usb_count > 0 {
            DevicesLine::Usb(usb_count)
        } else if active_clients > 0 {
            DevicesLine::Clients(active_clients)
        } else {
            DevicesLine::Waiting
        }),
{
    if usb_count > 0 {
        DevicesLine::Usb(usb_count)
    } else if active_clients > 0 {
        DevicesLine::Clients(active_clients)
    } else {
        DevicesLine::Waiting
    }
}

/// `n` copies of `c`.
pub open spec fn repeat(c: char, n: nat) -> Seq<char> {
    Seq::new(n, |i: int| c)
}

/// `format!("{k:<18}")`: `k` padded with spaces to 18 characters.
pub open spec fn pad18(k: Seq<char>) -> Seq<char> {
    if k.len() < 18 {
        k + repeat(' ', (18 - k.len()) as nat)
    } else {
        k
    }
}

/// The dashes after a card's title: enough for a 72-column rule.
pub open spec fn dash_count(title: Seq<char>) -> nat {
    if 5 + title.len() < 72 {
        (72 - (5 + title.len())) as nat
    } else {
        0
    }
}

pub open spec fn card_bottom_plain() -> Seq<char> {
    "+-----------------------------------------------------------------------"@
}

pub open spec fn card_bottom_colored() -> Seq<char> {
    SAPPHIRE@ + "╰───────────────────────────────────────────────────────────────────────"@
        + RESET@
}

/// The first line of a card: the title set in the top rule.
pub open spec fn head_line(title: Seq<char>, colors: bool) -> Seq<char> {
    if colors {
        SAPPHIRE@ + "╭── "@ + BOLD@ + BLUE@ + title + RESET@ + " "@ + SAPPHIRE@ + repeat(
            '─',
            dash_count(title),
        ) + RESET@
    } else {
        "+-- "@ + title + " "@ + repeat('-', dash_count(title))
    }
}

/// A row of a card: the key padded to 18 columns, then the value.
pub open spec fn row_line(r: (Seq<char>, Seq<char>), colors: bool) -> Seq<char> {
    if colors {
        SAPPHIRE@ + "│"@ + RESET@ + "  "@ + BOLD@ + LAVENDER@ + pad18(r.0) + RESET@ + " "@ + TEXT@
            + r.1 + RESET@
    } else {
        "|  "@ + pad18(r.0) + " "@ + r.1
    }
}

pub open spec fn bottom_line(colors: bool) -> Seq<char> {
    if colors {
        card_bottom_colored()
    } else {
        card_bottom_plain()
    }
}

/// The lines of a framed card with a title and `key  value` rows.
pub open spec fn spec_card_lines(title: Seq<char>, rows: Seq<(Seq<char>, Seq<char>)>, colors: bool) -> Seq<
    Seq<char>,
> {
    seq![head_line(title, colors)] + rows.map_values(
        |r: (Seq<char>, Seq<char>)| row_line(r, colors),
    ) + seq![bottom_line(colors)]
}

fn push_repeat(out: &mut String, c: char, n: usize)
    ensures
        final(out)@ == old(out)@ + repeat(c, n as nat),
{
    let mut v: Vec<char> = Vec::new();
    let mut i: usize = 0;
    while i < n
        invariant
            i <= n,
            v@ == repeat(c, i as nat),
        decreases n - i,
    {
        v.push(c);
        assert(v@ =~= repeat(c, (i + 1) as nat));
        i += 1;
    }
    push_chars(out, v.as_slice());
}

fn push_pad18(out: &mut String, k: &str)
    ensures
        final(out)@ == old(out)@ + pad18(k@),
{
    let kc = chars_of(k);
    out.append(k);
    if kc.len() < 18 {
        push_repeat(out, ' ', 18 - kc.len());
    }
    assert(out@ =~= old(out)@ + pad18(k@));
}

pub open spec fn rows_view(rows: Seq<(String, String)>) -> Seq<(Seq<char>, Seq<char>)> {
    rows.map_values(|r: (String, String)| (r.0@, r.1@))
}

/// The lines that print a card.
pub fn card_lines(title: &str, rows: &[(String, String)], colors: bool) -> (r: Vec<String>)
    ensures
        r@.map_values(|l: String| l@) == spec_card_lines(title@, rows_view(rows@), colors),
{
    let tc = chars_of(title);
    let dashes: usize = if tc.len() < 67 {
        67 - tc.len()
    } else {
        0
    };
    let mut out: Vec<String> = Vec::new();
    let mut head = String::new();
    if colors {
        head.append(SAPPHIRE);
        head.append("╭── ");
        head.append(BOLD);
        head.append(BLUE);
        head.append(title);
        head.append(RESET);
        head.append(" ");
        head.append(SAPPHIRE);
        push_repeat(&mut head, '─', dashes);
        head.append(RESET);
    } else {
        head.append("+-- ");
        head.append(title);
        head.append(" ");
        push_repeat(&mut head, '-', dashes);
    }
    assert(head@ =~= head_line(title@, colors));
    out.push(head);
    let ghost rv = rows_view(rows@);
    let mut i: usize = 0;
    assert(out@.map_values(|l: String| l@) =~= seq![head_line(title@, colors)] + rv.take(0).map_values(
        |r: (Seq<char>, Seq<char>)| row_line(r, colors),
    ));
    while i < rows.len()
        invariant
            i <= rows@.len(),
            rv == rows_view(rows@),
            out@.map_values(|l: String| l@) == seq![head_line(title@, colors)] + rv.take(
                i as int,
            ).map_values(|r: (Seq<char>, Seq<char>)| row_line(r, colors)),
        decreases rows@.len() - i,
    {
        let (k, v) = &rows[i];
        let mut line = String::new();
        if colors {
            line.append(SAPPHIRE);
            line.append("│");
            line.append(RESET);
            line.append("  ");
            line.append(BOLD);
            line.append(LAVENDER);
            push_pad18(&mut line, k.as_str());
            line.append(RESET);
            line.append(" ");
            line.append(TEXT);
            line.append(v.as_str());
            line.append(RESET);
        } else {
            line.append("|  ");
            push_pad18(&mut line, k.as_str());
            line.append(" ");
            line.append(v.as_str());
        }
        assert(rv[i as int] == (k@, v@));
        assert(line@ =~= row_line(rv[i as int], colors));
        let ghost before = out@.map_values(|l: String| l@);
        out.push(line);
        proof {
            assert(rv.take(i + 1).map_values(|r: (Seq<char>, Seq<char>)| row_line(r, colors))
                =~= rv.take(i as int).map_values(|r: (Seq<char>, Seq<char>)| row_line(r, colors)).push(
                row_line(rv[i as int], colors),
            ));
            assert(out@.map_values(|l: String| l@) =~= before.push(row_line(rv[i as int], colors)));
        }
        i += 1;
    }
    let ghost before = out@.map_values(|l: String| l@);
    let mut bottom = String::new();
    if colors {
        bottom.append(SAPPHIRE);
        bottom.append("╰───────────────────────────────────────────────────────────────────────");
        bottom.append(RESET);
    } else {
        bottom.append("+-----------------------------------------------------------------------");
    }
    assert(bottom@ =~= bottom_line(colors));
    out.push(bottom);
    proof {
        assert(rv.take(rows@.len() as int) =~= rv);
        assert(out@.map_values(|l: String| l@) =~= before.push(bottom_line(colors)));
        assert(out@.map_values(|l: String| l@) =~= spec_card_lines(title@, rv, colors));
    }
    out
}

/// The top and bottom rules of the status box.
pub open spec fn status_top_colored() -> Seq<char> {
    SAPPHIRE@ + "╭── Status ─────────────────────────────────────────────────────────────"@ + RESET@
}

pub open spec fn status_bottom_colored() -> Seq<char> {
    SAPPHIRE@ + "╰───────────────────────────────────────────────────────────────────────"@ + RESET@
}

/// A labelled line of the coloured status box.
pub open spec fn status_row(label: Seq<char>, value: Seq<char>) -> Seq<char> {
    SAPPHIRE@ + "│"@ + RESET@ + "  "@ + BOLD@ + LAVENDER@ + label + RESET@ + value
}

/// What the coloured dashboard says of devices.
pub open spec fn devices_text(usb_count: u64, active_clients: u64) -> Seq<char> {
    if usb_count > 0 {
        GREEN@ + "✔ "@ + decimal_of(usb_count as nat) + " Android device connected"@ + RESET@ + "  "@
            + DIM@ + "(USB ADB)"@ + RESET@
    } else if active_clients > 0 {
        GREEN@ + "✔ "@ + decimal_of(active_clients as nat) + " client(s) streaming"@ + RESET@
    } else {
        YELLOW@ + "Waiting for device"@ + RESET@ + "  "@ + DIM@
            + "(Connect Android via USB or Wi-Fi)"@ + RESET@
    }
}

/// The lines of the status dashboard, blank lines included. `enc` and
/// `back` are the display names of the encoder and capture backend.
pub open spec fn spec_dashboard(
    running: bool,
    mode: Seq<char>,
    enc: Seq<char>,
    back: Seq<char>,
    usb_count: u64,
    active_clients: u64,
    url: Seq<char>,
    colors: bool,
) -> Seq<Seq<char>> {
    if colors {
        seq![
            seq![],
            if running {
                GREEN@ + "●"@ + RESET@ + " "@ + BOLD@ + GREEN@ + "Daemon is active & streaming"@ + RESET@
            } else {
                RED@ + "●"@ + RESET@ + " "@ + BOLD@ + RED@ + "Daemon is stopped"@ + RESET@
            },
            seq![],
            status_top_colored(),
            status_row("Display"@, "   "@ + TEXT@ + mode + RESET@ + "  "@ + DIM@ + "· "@ + enc + " · "@
                + back + RESET@),
            status_row("Devices"@, "   "@ + devices_text(usb_count, active_clients)),
            status_row("Stream"@, "    "@ + UNDERLINE@ + PEACH@ + url + RESET@),
            status_bottom_colored(),
            seq![],
        ]
    } else {
        seq![
            seq![],
            "[Daemon is "@ + (if running {
                "active & streaming"@
            } else {
                "stopped"@
            }) + "]"@,
            seq![],
            "+-- Status -------------------------------------------------------------"@,
            "|  Display   "@ + mode + "  · "@ + enc + " · "@ + back,
            "|  Devices   "@ + decimal_of((usb_count + active_clients) as nat) + " device(s) connected"@,
            "|  Stream    "@ + url,
            "+-----------------------------------------------------------------------"@,
            seq![],
        ]
    }
}

/// The status dashboard of a daemon, as lines to print: whether it runs,
/// the display mode with the encoder and capture names, the devices, and
/// the address a client opens.
pub fn dashboard_lines(
    running: bool,
    width: u64,
    height: u64,
    fps: u64,
    encoder: &str,
    capture: &str,
    port: u16,
    active_clients: u64,
    usb_count: u64,
    token: &str,
    lan_ip: Option<&str>,
    colors: bool,
) -> (r: Vec<String>)
    requires
        usb_count + active_clients <= u64::MAX,
    ensures
        r@.map_values(|l: String| l@) == spec_dashboard(
            running,
            decimal_of(width as nat) + "x"@ + decimal_of(height as nat) + " @ "@ + decimal_of(
                fps as nat,
            ) + "Hz"@,
            spec_encoder_label(unicode_lower(encoder@)),
            spec_backend_label(unicode_lower(capture@)),
            usb_count,
            active_clients,
            spec_stream_url(opt_str_view(lan_ip), port, token@),
            colors,
        ),
{
    let mut mode = String::new();
    push_decimal(&mut mode, width);
    mode.append("x");
    push_decimal(&mut mode, height);
    mode.append(" @ ");
    push_decimal(&mut mode, fps);
    mode.append("Hz");
    let enc = format_encoder_name(encoder);
    let back = format_backend_name(capture);
    let url = stream_url(lan_ip, port, token);
    let mut out: Vec<String> = Vec::new();
    if colors {
        out.push(String::new());
        if running {
            let mut l = string_from(GREEN);
        l.append("●");
        l.append(RESET);
        l.append(" ");
        l.append(BOLD);
        l.append(GREEN);
        l.append("Daemon is active & streaming");
        l.append(RESET);
        out.push(l);
        } else {
            let mut l = string_from(RED);
        l.append("●");
        l.append(RESET);
        l.append(" ");
        l.append(BOLD);
        l.append(RED);
        l.append("Daemon is stopped");
        l.append(RESET);
        out.push(l);
        }
        out.push(String::new());
        let mut l = string_from(SAPPHIRE);
        l.append("╭── Status ─────────────────────────────────────────────────────────────");
        l.append(RESET);
        out.push(l);
        let mut l = string_from(SAPPHIRE);
        l.append("│");
        l.append(RESET);
        l.append("  ");
        l.append(BOLD);
        l.append(LAVENDER);
        l.append("Display");
        l.append(RESET);
        l.append("   ");
        l.append(TEXT);
        l.append(mode.as_str());
        l.append(RESET);
        l.append("  ");
        l.append(DIM);
        l.append("· ");
        l.append(enc);
        l.append(" · ");
        l.append(back);
        l.append(RESET);
        out.push(l);
        let mut dev = String::new();
        if usb_count > 0 {
            dev.append(GREEN);
            dev.append("✔ ");
            push_decimal(&mut dev, usb_count);
            dev.append(" Android device connected");
            dev.append(RESET);
            dev.append("  ");
            dev.append(DIM);
            dev.append("(USB ADB)");
            dev.append(RESET);
        } else if active_clients > 0 {
            dev.append(GREEN);
            dev.append("✔ ");
            push_decimal(&mut dev, active_clients);
            dev.append(" client(s) streaming");
            dev.append(RESET);
        } else {
            dev.append(YELLOW);
            dev.append("Waiting for device");
            dev.append(RESET);
            dev.append("  ");
            dev.append(DIM);
            dev.append("(Connect Android via USB or Wi-Fi)");
            dev.append(RESET);
        }
        let mut l = string_from(SAPPHIRE);
        l.append("│");
        l.append(RESET);
        l.append("  ");
        l.append(BOLD);
        l.append(LAVENDER);
        l.append("Devices");
        l.append(RESET);
        l.append("   ");
        l.append(dev.as_str());
        out.push(l);
        let mut l = string_from(SAPPHIRE);
        l.append("│");
        l.append(RESET);
        l.append("  ");
        l.append(BOLD);
        l.append(LAVENDER);
        l.append("Stream");
        l.append(RESET);
        l.append("    ");
        l.append(UNDERLINE);
        l.append(PEACH);
        l.append(url.as_str());
        l.append(RESET);
        out.push(l);
        let mut l = string_from(SAPPHIRE);
        l.append("╰───────────────────────────────────────────────────────────────────────");
        l.append(RESET);
        out.push(l);
        out.push(String::new());
    } else {
        out.push(String::new());
        let mut l = string_from("[Daemon is ");
        l.append(if running { "active & streaming" } else { "stopped" });
        l.append("]");
        out.push(l);
        out.push(String::new());
        let mut l = string_from("+-- Status -------------------------------------------------------------");
        out.push(l);
        let mut l = string_from("|  Display   ");
        l.append(mode.as_str());
        l.append("  · ");
        l.append(enc);
        l.append(" · ");
        l.append(back);
        out.push(l);
        let mut dev = string_from("|  Devices   ");
        push_decimal(&mut dev, usb_count + active_clients);
        dev.append(" device(s) connected");
        out.push(dev);
        let mut l = string_from("|  Stream    ");
        l.append(url.as_str());
        out.push(l);
        let mut l = string_from("+-----------------------------------------------------------------------");
        out.push(l);
        out.push(String::new());
    }
    proof {
        let rows = spec_dashboard(running, mode@, enc@, back@, usb_count, active_clients, url@, colors);
        let got = out@.map_values(|l: String| l@);
        assert(got.len() == rows.len());
        assert(got[0] == rows[0]);
        assert(got[1] == rows[1]);
        assert(got[2] == rows[2]);
        assert(got[3] == rows[3]);
        assert(got[4] == rows[4]);
        assert(got[5] == rows[5]);
        assert(got[6] == rows[6]);
        assert(got[7] == rows[7]);
        assert(got[8] == rows[8]);
    }
    assert(out@.map_values(|l: String| l@) =~= spec_dashboard(
        running,
        mode@,
        enc@,
        back@,
        usb_count,
        active_clients,
        url@,
        colors,
    ));
    out
}

/// The lines printed once streaming starts, blank lines included: the
/// display mode with the encoder and capture names, whether USB forwarding
/// is active, and the address a client opens.
pub open spec fn spec_startup(
    display_info: Seq<char>,
    enc: Seq<char>,
    back: Seq<char>,
    port: u16,
    usb_active: bool,
    url: Seq<char>,
    colors: bool,
) -> Seq<Seq<char>> {
    if colors {
        seq![
            seq![],
            GREEN@ + "●"@ + RESET@ + " "@ + BOLD@ + GREEN@ + "Orbiscreen is streaming"@ + RESET@,
            seq![],
            SAPPHIRE@ + "╭── Stream Details ─────────────────────────────────────────────────────"@ + RESET@,
            status_row("Display"@, "   "@ + TEXT@ + display_info + RESET@ + "  "@ + DIM@ + "· "@ + enc
                + " · "@ + back + RESET@),
            status_row("USB ADB"@, "   "@ + TEXT@ + (if usb_active {
                GREEN@ + "✔ Active on port "@ + decimal_of(port as nat) + RESET@
            } else {
                YELLOW@ + "Hot-plug ready"@ + RESET@ + "  "@ + DIM@
                    + "(Plug in Android with USB Debugging)"@ + RESET@
            }) + RESET@),
            status_row("Stream"@, "    "@ + UNDERLINE@ + PEACH@ + url + RESET@),
            status_bottom_colored(),
            DIM@ + "Press "@ + BOLD@ + "Ctrl+C"@ + RESET@ + DIM@ + " to stop, or run "@ + BOLD@
                + "orbiscreen stop"@ + RESET@ + DIM@ + " from another terminal."@ + RESET@,
            seq![],
        ]
    } else {
        seq![
            seq![],
            "[Orbiscreen is streaming]"@,
            seq![],
            "+-- Stream Details -----------------------------------------------------"@,
            "|  Display   "@ + display_info + " · "@ + enc + " · "@ + back,
            "|  USB ADB   "@ + (if usb_active {
                "Active"@
            } else {
                "Hot-plug ready"@
            }),
            "|  Stream    "@ + url,
            "+-----------------------------------------------------------------------"@,
            "Press Ctrl+C to stop, or run 'orbiscreen stop'."@,
            seq![],
        ]
    }
}

fn push_status_row(out: &mut Vec<String>, label: &str, value: &str)
    ensures
        final(out)@ == old(out)@.push(final(out)@.last()),
        final(out)@.last()@ == status_row(label@, value@),
{
    let mut l = string_from(SAPPHIRE);
    l.append("│");
    l.append(RESET);
    l.append("  ");
    l.append(BOLD);
    l.append(LAVENDER);
    l.append(label);
    l.append(RESET);
    l.append(value);
    out.push(l);
}

/// The lines printed once streaming starts.
pub fn startup_lines(
    display_info: &str,
    encoder: &str,
    capture: &str,
    port: u16,
    token: &str,
    usb_active: bool,
    lan_ip: Option<&str>,
    colors: bool,
) -> (r: Vec<String>)
    ensures
        r@.map_values(|l: String| l@) == spec_startup(
            display_info@,
            spec_encoder_label(unicode_lower(encoder@)),
            spec_backend_label(unicode_lower(capture@)),
            port,
            usb_active,
            spec_stream_url(opt_str_view(lan_ip), port, token@),
            colors,
        ),
{
    let enc = format_encoder_name(encoder);
    let back = format_backend_name(capture);
    let url = stream_url(lan_ip, port, token);
    let mut out: Vec<String> = Vec::new();
    if colors {
        out.push(String::new());
        let mut l = string_from(GREEN);
        l.append("●");
        l.append(RESET);
        l.append(" ");
        l.append(BOLD);
        l.append(GREEN);
        l.append("Orbiscreen is streaming");
        l.append(RESET);
        out.push(l);
        out.push(String::new());
        let mut l = string_from(SAPPHIRE);
        l.append("╭── Stream Details ─────────────────────────────────────────────────────");
        l.append(RESET);
        out.push(l);
        let mut v = string_from("   ");
        v.append(TEXT);
        v.append(display_info);
        v.append(RESET);
        v.append("  ");
        v.append(DIM);
        v.append("· ");
        v.append(enc);
        v.append(" · ");
        v.append(back);
        v.append(RESET);
        push_status_row(&mut out, "Display", v.as_str());
        let mut v = string_from("   ");
        v.append(TEXT);
        if usb_active {
            v.append(GREEN);
            v.append("✔ Active on port ");
            push_decimal(&mut v, port as u64);
            v.append(RESET);
        } else {
            v.append(YELLOW);
            v.append("Hot-plug ready");
            v.append(RESET);
            v.append("  ");
            v.append(DIM);
            v.append("(Plug in Android with USB Debugging)");
            v.append(RESET);
        }
        v.append(RESET);
        push_status_row(&mut out, "USB ADB", v.as_str());
        let mut v = string_from("    ");
        v.append(UNDERLINE);
        v.append(PEACH);
        v.append(url.as_str());
        v.append(RESET);
        push_status_row(&mut out, "Stream", v.as_str());
        let mut l = string_from(SAPPHIRE);
        l.append("╰───────────────────────────────────────────────────────────────────────");
        l.append(RESET);
        out.push(l);
        let mut l = string_from(DIM);
        l.append("Press ");
        l.append(BOLD);
        l.append("Ctrl+C");
        l.append(RESET);
        l.append(DIM);
        l.append(" to stop, or run ");
        l.append(BOLD);
        l.append("orbiscreen stop");
        l.append(RESET);
        l.append(DIM);
        l.append(" from another terminal.");
        l.append(RESET);
        out.push(l);
        out.push(String::new());
    } else {
        out.push(String::new());
        out.push(string_from("[Orbiscreen is streaming]"));
        out.push(String::new());
        out.push(string_from("+-- Stream Details -----------------------------------------------------"));
        let mut l = string_from("|  Display   ");
        l.append(display_info);
        l.append(" · ");
        l.append(enc);
        l.append(" · ");
        l.append(back);
        out.push(l);
        let mut l = string_from("|  USB ADB   ");
        l.append(if usb_active { "Active" } else { "Hot-plug ready" });
        out.push(l);
        let mut l = string_from("|  Stream    ");
        l.append(url.as_str());
        out.push(l);
        out.push(string_from("+-----------------------------------------------------------------------"));
        out.push(string_from("Press Ctrl+C to stop, or run 'orbiscreen stop'."));
        out.push(String::new());
    }
    proof {
        let rows = spec_startup(display_info@, enc@, back@, port, usb_active, url@, colors);
        let got = out@.map_values(|l: String| l@);
        assert(got.len() == rows.len());
        assert(got[0] == rows[0]);
        assert(got[1] == rows[1]);
        assert(got[2] == rows[2]);
        assert(got[3] == rows[3]);
        assert(got[4] == rows[4]);
        assert(got[5] == rows[5]);
        assert(got[6] == rows[6]);
        assert(got[7] == rows[7]);
        assert(got[8] == rows[8]);
        assert(got[9] == rows[9]);
        assert(got =~= rows);
    }
    out
}

} // verus!
