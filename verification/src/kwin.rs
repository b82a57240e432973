//! KDE: the virtual output that KWin streams through `zkde_screencast`, the
//! permission file that lets the daemon use that protocol, and the outputs
//! that `kscreen-doctor -o` lists.
use vstd::prelude::*;

use crate::capabilities::opt_string;
use crate::capture::CaptureError;
use crate::config::opt_str_view;
use crate::json::{
    array_text, json_array_text, json_node, json_node_of, object_text, json_object_text,
    json_pretty, json_pretty_of, json_str_at, json_str_field, members_view, opt_text,
    texts_view, JsonNode, NodeView,
};
use crate::text::{
    ascii_lower, chars_eq, chars_eq_str, chars_of, chars_starts_with, chars_starts_with_str, contains_char,
    decimal_of, lines, lines_of, push_chars, push_decimal, scan, scan_exec, split_chars, split_on,
    starts_with, string_from, string_of, sub_chars, to_ascii_lower, trim, trim_chars, words,
    words_of, lemma_scan, CharClass,
};
use crate::wlroots::path_join;

verus! {

broadcast use vstd::string::group_string_axioms;

/// The connector name of the virtual output.
pub const VIRTUAL_OUTPUT_CONNECTOR: &'static str = "Virtual-ORBISCREEN";

/// The line of a desktop file that grants the screencast protocol.
pub const KWIN_INTERFACES_KEY: &'static str = "X-KDE-Wayland-Interfaces=zkde_screencast_unstable_v1";

/// The desktop file that holds the grant.
pub const PERMISSION_FILE_NAME: &'static str = "orbiscreen.kwin.desktop";

/// The pointer mode asked for: the cursor drawn into the frames.
pub const POINTER_EMBEDDED: u32 = 2;

/// How long KWin has to create the stream.
pub const HANDSHAKE_DEADLINE_MS: u64 = 5000;

#[derive(Debug, Clone)]
pub struct KwinVirtualSpec {
    pub width: u32,
    pub height: u32,
    pub output_name: Option<String>,
}

#[derive(Debug, Clone)]
pub enum KwinVirtualError {
    ProtocolUnavailable,
    ProtocolTooOld,
    UnsupportedSize(u32, u32),
    StreamFailed(String),
    Timeout,
    Wayland(String),
}

pub open spec fn kwin_error_text(e: KwinVirtualError) -> Seq<char> {
    match e {
        KwinVirtualError::ProtocolUnavailable => "KWin screencast protocol (zkde_screencast_unstable_v1) is not available on this compositor"@,
        KwinVirtualError::ProtocolTooOld => "compositor is too old: virtual output streaming needs protocol version >= 2"@,
        KwinVirtualError::UnsupportedSize(w, h) => "requested size "@ + decimal_of(w as nat) + "x"@
            + decimal_of(h as nat) + " exceeds the protocol's i32 dimensions"@,
        KwinVirtualError::StreamFailed(m) => "KWin rejected the virtual output stream: "@ + m@,
        KwinVirtualError::Timeout => "timed out waiting for KWin to create the virtual output stream"@,
        KwinVirtualError::Wayland(m) => "wayland error: "@ + m@,
    }
}

impl KwinVirtualError {
    /// The error's message.
    pub fn message(&self) -> (r: String)
        ensures
            r@ == kwin_error_text(*self),
    {
        match self {
            KwinVirtualError::ProtocolUnavailable => string_from(
                "KWin screencast protocol (zkde_screencast_unstable_v1) is not available on this compositor",
            ),
            KwinVirtualError::ProtocolTooOld => string_from(
                "compositor is too old: virtual output streaming needs protocol version >= 2",
            ),
            KwinVirtualError::UnsupportedSize(w, h) => {
                let mut m = string_from("requested size ");
                push_decimal(&mut m, *w as u64);
                m.append("x");
                push_decimal(&mut m, *h as u64);
                m.append(" exceeds the protocol's i32 dimensions");
                m
            },
            KwinVirtualError::StreamFailed(s) => {
                let mut m = string_from("KWin rejected the virtual output stream: ");
                m.append(s.as_str());
                m
            },
            KwinVirtualError::Timeout => string_from(
                "timed out waiting for KWin to create the virtual output stream",
            ),
            KwinVirtualError::Wayland(s) => {
                let mut m = string_from("wayland error: ");
                m.append(s.as_str());
                m
            },
        }
    }

    /// The capture error that this error becomes: an I/O error with its
    /// message.
    pub fn into_capture_error(&self) -> (r: CaptureError)
        ensures
            r matches CaptureError::Io(m) && m@ == kwin_error_text(*self),
    {
        CaptureError::Io(self.message())
    }
}

/// Whether `XDG_CURRENT_DESKTOP` names KDE: one of its `:`-separated
/// entries is `kde`, in any ASCII case.
pub open spec fn spec_desktop_is_kde(desktop: Option<Seq<char>>) -> bool {
    desktop is Some && split_on(ascii_lower(desktop->0), ':').contains("kde"@)
}

pub fn desktop_is_kde(desktop: Option<&str>) -> (r: bool)
    ensures
        r == spec_desktop_is_kde(opt_str_view(desktop)),
{
    match desktop {
        None => false,
        Some(d) => {
            let c = chars_of(d);
            let lower = to_ascii_lower(c.as_slice());
            let parts = split_chars(lower.as_slice(), ':');
            let ghost ps = parts@.map_values(|v: Vec<char>| v@);
            let mut i: usize = 0;
            while i < parts.len()
                invariant
                    i <= parts@.len(),
                    ps == parts@.map_values(|v: Vec<char>| v@),
                    ps == split_on(ascii_lower(d@), ':'),
                    opt_str_view(desktop) == Some(d@),
                    forall|k: int| 0 <= k < i ==> ps[k] != "kde"@,
                decreases parts@.len() - i,
            {
                if chars_eq_str(parts[i].as_slice(), "kde") {
                    assert(ps[i as int] == "kde"@);
                    assert(ps.contains("kde"@));
                    return true;
                }
                i += 1;
            }
            proof {
                if ps.contains("kde"@) {
                    let k = choose|k: int| 0 <= k < ps.len() && ps[k] == "kde"@;
                    assert(ps[k] != "kde"@);
                }
            }
            false
        },
    }
}

/// Where per-user desktop files go: `$XDG_DATA_HOME/applications` for an
/// absolute `XDG_DATA_HOME`, else `$HOME/.local/share/applications`.
pub open spec fn spec_applications_dir(xdg_data_home: Option<Seq<char>>, home: Option<Seq<char>>) -> Option<
    Seq<char>,
> {
    if xdg_data_home is Some && xdg_data_home->0.len() > 0 && xdg_data_home->0[0] == '/' {
        Some(path_join(xdg_data_home->0, "applications"@))
    } else if home is Some {
        Some(path_join(home->0, ".local/share/applications"@))
    } else {
        None
    }
}

pub(crate) fn join_path_strings(base: &str, rel: &str) -> (r: String)
    ensures
        r@ == path_join(base@, rel@),
{
    let b = chars_of(base);
    let r = chars_of(rel);
    if r.len() > 0 && r[0] == '/' {
        return string_from(rel);
    }
    let mut out = string_from(base);
    if b.len() > 0 && b[b.len() - 1] != '/' {
        out.append("/");
        proof {
            reveal_strlit("/");
        }
    }
    out.append(rel);
    out
}

pub fn user_applications_dir(xdg_data_home: Option<&str>, home: Option<&str>) -> (r: Option<String>)
    ensures
        opt_string(r) == spec_applications_dir(opt_str_view(xdg_data_home), opt_str_view(home)),
{
    if let Some(x) = xdg_data_home {
        let c = chars_of(x);
        if c.len() > 0 && c[0] == '/' {
            return Some(join_path_strings(x, "applications"));
        }
    }
    match home {
        Some(h) => Some(join_path_strings(h, ".local/share/applications")),
        None => None,
    }
}

/// KWin's saved output configuration: `$HOME/.config/kwinoutputconfig.json`.
pub fn kwin_output_config_path(home: Option<&str>) -> (r: Option<String>)
    ensures
        opt_string(r) == (match opt_str_view(home) {
            Some(h) => Some(path_join(h, ".config/kwinoutputconfig.json"@)),
            None => None,
        }),
{
    match home {
        Some(h) => Some(join_path_strings(h, ".config/kwinoutputconfig.json")),
        None => None,
    }
}

/// The desktop file that grants the daemon (`exe`) the screencast protocol.
pub open spec fn spec_permission_file(exe: Seq<char>) -> Seq<char> {
    "[Desktop Entry]\nExec="@ + exe + "\n"@ + KWIN_INTERFACES_KEY@
        + "\nType=Application\nName=Orbiscreen KWin screencast permission\nComment=Allows the Orbiscreen daemon to create virtual displays\nNoDisplay=true\n"@
}

pub fn permission_file_contents(exe: &str) -> (r: String)
    ensures
        r@ == spec_permission_file(exe@),
{
    let mut s = string_from("[Desktop Entry]\nExec=");
    s.append(exe);
    s.append("\n");
    s.append(KWIN_INTERFACES_KEY);
    s.append(
        "\nType=Application\nName=Orbiscreen KWin screencast permission\nComment=Allows the Orbiscreen daemon to create virtual displays\nNoDisplay=true\n",
    );
    s
}

/// A line that runs `exe`: `Exec=` and then `exe`, give or take white space.
pub open spec fn exec_line_is(line: Seq<char>, exe: Seq<char>) -> bool {
    starts_with(line, "Exec="@) && trim(line.skip(5)) == exe
}

/// Whether a desktop file already grants the protocol to `exe`: one line is
/// the interfaces key and one line runs `exe`.
pub open spec fn spec_permission_matches(content: Seq<char>, exe: Seq<char>) -> bool {
    (exists|i: int| 0 <= i < lines(content).len() && trim(#[trigger] lines(content)[i])
        == KWIN_INTERFACES_KEY@) && (exists|i: int|
        0 <= i < lines(content).len() && exec_line_is(#[trigger] lines(content)[i], exe))
}

pub fn permission_content_matches(content: &str, exe: &str) -> (r: bool)
    ensures
        r == spec_permission_matches(content@, exe@),
{
    let c = chars_of(content);
    let e = chars_of(exe);
    let ls = lines_of(c.as_slice());
    let ghost lv = ls@.map_values(|v: Vec<char>| v@);
    assert(lv == lines(content@));
    let mut has_key = false;
    let mut has_exec = false;
    let mut i: usize = 0;
    while i < ls.len()
        invariant
            i <= ls@.len(),
            lv == ls@.map_values(|v: Vec<char>| v@),
            lv == lines(content@),
            e@ == exe@,
            has_key == exists|k: int| 0 <= k < i && trim(#[trigger] lv[k]) == KWIN_INTERFACES_KEY@,
            has_exec == exists|k: int| 0 <= k < i && exec_line_is(#[trigger] lv[k], exe@),
        decreases ls@.len() - i,
    {
        let line = &ls[i];
        assert(line@ == lv[i as int]);
        let t = trim_chars(line.as_slice());
        if chars_eq_str(t.as_slice(), KWIN_INTERFACES_KEY) {
            has_key = true;
        }
        if chars_starts_with_str(line.as_slice(), "Exec=") {
            proof {
                reveal_strlit("Exec=");
            }
            let rest = sub_chars(line.as_slice(), 5, line.len());
            assert(rest@ =~= line@.skip(5));
            let rt = trim_chars(rest.as_slice());
            if chars_eq(rt.as_slice(), e.as_slice()) {
                has_exec = true;
            }
        }
        proof {
            assert(has_key == exists|k: int| 0 <= k < i + 1 && trim(#[trigger] lv[k])
                == KWIN_INTERFACES_KEY@) by {
                if trim(lv[i as int]) == KWIN_INTERFACES_KEY@ {
                    assert(0 <= i < i + 1);
                }
            }
            assert(has_exec == exists|k: int| 0 <= k < i + 1 && exec_line_is(#[trigger] lv[k], exe@))
                by {
                if exec_line_is(lv[i as int], exe@) {
                    assert(0 <= i < i + 1);
                }
            }
        }
        i += 1;
    }
    has_key && has_exec
}

/// The two connector names that a stale configuration may hold for this
/// output: `Virtual-<base>` and `Virtual-<base>-<pid>`, where the base is
/// the configured output name or `ORBISCREEN`.
pub open spec fn spec_base_name(spec: KwinVirtualSpec) -> Seq<char> {
    match spec.output_name {
        Some(n) => n@,
        None => "ORBISCREEN"@,
    }
}

pub open spec fn spec_connectors(spec: KwinVirtualSpec, pid: u32) -> (Seq<char>, Seq<char>) {
    (
        "Virtual-"@ + spec_base_name(spec),
        "Virtual-"@ + spec_base_name(spec) + "-"@ + decimal_of(pid as nat),
    )
}

fn base_name(spec: &KwinVirtualSpec) -> (r: String)
    ensures
        r@ == spec_base_name(*spec),
{
    match &spec.output_name {
        Some(n) => n.clone(),
        None => string_from("ORBISCREEN"),
    }
}

pub fn kwin_connectors(spec: &KwinVirtualSpec, pid: u32) -> (r: (String, String))
    ensures
        (r.0@, r.1@) == spec_connectors(*spec, pid),
{
    let base = base_name(spec);
    let mut default_conn = string_from("Virtual-");
    default_conn.append(base.as_str());
    let mut pid_conn = string_from("Virtual-");
    pid_conn.append(base.as_str());
    pid_conn.append("-");
    push_decimal(&mut pid_conn, pid as u64);
    (default_conn, pid_conn)
}

/// The output names asked of KWin, in order: the base name, then the base
/// name with the process id (for when the first is still taken).
pub open spec fn spec_stream_names(spec: KwinVirtualSpec, pid: u32) -> Seq<Seq<char>> {
    seq![spec_base_name(spec), spec_base_name(spec) + "-"@ + decimal_of(pid as nat)]
}

pub fn kwin_stream_names(spec: &KwinVirtualSpec, pid: u32) -> (r: Vec<String>)
    ensures
        r@.map_values(|s: String| s@) == spec_stream_names(*spec, pid),
{
    let base = base_name(spec);
    let mut with_pid = base.clone();
    with_pid.append("-");
    push_decimal(&mut with_pid, pid as u64);
    let mut v: Vec<String> = Vec::new();
    v.push(base);
    v.push(with_pid);
    assert(v@.map_values(|s: String| s@) =~= spec_stream_names(*spec, pid));
    v
}

/// The connector of the output that KWin created for stream `name`.
pub fn accepted_connector(name: &str) -> (r: String)
    ensures
        r@ == "Virtual-"@ + name@,
{
    let mut c = string_from("Virtual-");
    c.append(name);
    c
}

/// The size in the protocol's `i32`s; refused where either side does not
/// fit.
pub fn kwin_stream_size(spec: &KwinVirtualSpec) -> (r: Result<(i32, i32), KwinVirtualError>)
    ensures
        spec.width <= i32::MAX && spec.height <= i32::MAX ==> r == Ok::<(i32, i32), KwinVirtualError>(
            (spec.width as i32, spec.height as i32),
        ),
        !(spec.width <= i32::MAX && spec.height <= i32::MAX) ==> (r matches Err(
            KwinVirtualError::UnsupportedSize(w, h),
        ) && w == spec.width && h == spec.height),
{
    if spec.width > 2147483647 || spec.height > 2147483647 {
        return Err(KwinVirtualError::UnsupportedSize(spec.width, spec.height));
    }
    Ok((spec.width as i32, spec.height as i32))
}

/// The protocol version to bind: the lower of what KWin advertises and what
/// the client knows; below 2 it cannot stream a virtual output.
pub fn kwin_protocol_version(advertised: u32, client_max: u32) -> (r: Result<u32, KwinVirtualError>)
    ensures
        ({
            let v = if advertised < client_max { advertised } else { client_max };
            &&& v >= 2 ==> r == Ok::<u32, KwinVirtualError>(v)
            &&& v < 2 ==> r matches Err(KwinVirtualError::ProtocolTooOld)
        }),
{
    let v = if advertised < client_max { advertised } else { client_max };
    if v < 2 {
        Err(KwinVirtualError::ProtocolTooOld)
    } else {
        Ok(v)
    }
}

/// From version 4 on, the stream request carries a description.
pub fn kwin_uses_description(version: u32) -> (r: bool)
    ensures
        r == (version >= 4),
{
    version >= 4
}

/// Where the stream handshake stands after a roundtrip.
#[derive(Debug, Clone)]
pub enum HandshakeStatus {
    /// Nothing yet: roundtrip again.
    Waiting,
    /// The stream carries PipeWire node `node`.
    Ready(u32),
    Failed(KwinVirtualError),
}

/// The handshake's state after a roundtrip: a failure KWin reported comes
/// first, then a stream closed during setup, then the node id; past the
/// deadline the wait ends.
pub fn handshake_status(failed: Option<&str>, closed: bool, node: Option<u32>, timed_out: bool) -> (r:
    HandshakeStatus)
    ensures
        match failed {
            Some(m) => r matches HandshakeStatus::Failed(KwinVirtualError::StreamFailed(e)) && e@
                == m@,
            None => if closed {
                r matches HandshakeStatus::Failed(KwinVirtualError::StreamFailed(e)) && e@
                    == "compositor closed the stream during setup"@
            } else if node is Some {
                r matches HandshakeStatus::Ready(n) && n == node->0
            } else if timed_out {
                r matches HandshakeStatus::Failed(KwinVirtualError::Timeout)
            } else {
                r is Waiting
            },
        },
{
    if let Some(m) = failed {
        return HandshakeStatus::Failed(KwinVirtualError::StreamFailed(string_from(m)));
    }
    if closed {
        return HandshakeStatus::Failed(
            KwinVirtualError::StreamFailed(string_from("compositor closed the stream during setup")),
        );
    }
    if let Some(n) = node {
        return HandshakeStatus::Ready(n);
    }
    if timed_out {
        HandshakeStatus::Failed(KwinVirtualError::Timeout)
    } else {
        HandshakeStatus::Waiting
    }
}

/// The error when no name gave a stream: the last failure, if any.
pub fn no_stream_error(last: Option<KwinVirtualError>) -> (r: KwinVirtualError)
    ensures
        match last {
            Some(e) => r == e,
            None => r matches KwinVirtualError::StreamFailed(m) && m@ == "no virtual output"@,
        },
{
    match last {
        Some(e) => e,
        None => KwinVirtualError::StreamFailed(string_from("no virtual output")),
    }
}

/// The GStreamer pipeline that reads PipeWire node `node` as packed BGRA
/// frames of the output's size.
pub open spec fn spec_pipewire_pipeline(node: u32, width: u32, height: u32) -> Seq<char> {
    "pipewiresrc path="@ + decimal_of(node as nat)
        + " do-timestamp=true ! video/x-raw ! videoconvert ! videoscale ! video/x-raw,format=BGRA,width="@
        + decimal_of(width as nat) + ",height="@ + decimal_of(height as nat)
        + " ! appsink name=sink drop=true sync=false max-buffers=1 emit-signals=false"@
}

pub fn pipewire_pipeline(node: u32, width: u32, height: u32) -> (r: String)
    ensures
        r@ == spec_pipewire_pipeline(node, width, height),
{
    let mut s = string_from("pipewiresrc path=");
    push_decimal(&mut s, node as u64);
    s.append(
        " do-timestamp=true ! video/x-raw ! videoconvert ! videoscale ! video/x-raw,format=BGRA,width=",
    );
    push_decimal(&mut s, width as u64);
    s.append(",height=");
    push_decimal(&mut s, height as u64);
    s.append(" ! appsink name=sink drop=true sync=false max-buffers=1 emit-signals=false");
    s
}

/// How many levels of a saved output configuration are searched: more than
/// serde_json parses (it refuses 128 arrays and objects nested in each
/// other), so every array that a readable configuration holds is reached.
pub const CONFIG_SEARCH_DEPTH: u32 = 129;

/// Whether a saved output entry belongs to `connector`: its `connectorName`
/// is the connector, or the connector followed by `-` and more.
pub open spec fn names_connector(entry: Seq<char>, connector: Seq<char>) -> bool {
    match json_str_field(entry, "/connectorName"@) {
        Some(name) => name == connector || starts_with(name, connector.push('-')),
        None => false,
    }
}

/// The document `text` with every array entry that belongs to `connector`
/// taken out, in arrays up to `fuel` levels deep, and whether any was.
pub open spec fn spec_strip_text(text: Seq<char>, connector: Seq<char>, fuel: nat) -> (
    Seq<char>,
    bool,
)
    decreases fuel, 0nat,
{
    if fuel == 0 {
        (text, false)
    } else {
        match json_node_of(text) {
            Some(NodeView::Array(items)) => {
                let (kept, changed) = strip_items(items, connector, (fuel - 1) as nat);
                (array_text(kept), changed)
            },
            Some(NodeView::Object(members)) => {
                let (kept, changed) = strip_members(members, connector, (fuel - 1) as nat);
                (object_text(kept), changed)
            },
            _ => (text, false),
        }
    }
}

/// The entries of an array that do not belong to `connector`, each
/// stripped in turn, and whether anything was taken out.
pub open spec fn strip_items(items: Seq<Seq<char>>, connector: Seq<char>, fuel: nat) -> (
    Seq<Seq<char>>,
    bool,
)
    decreases fuel, items.len() + 1,
{
    if items.len() == 0 {
        (Seq::empty(), false)
    } else {
        let (kept, changed) = strip_items(items.drop_last(), connector, fuel);
        if names_connector(items.last(), connector) {
            (kept, true)
        } else {
            let (t, c) = spec_strip_text(items.last(), connector, fuel);
            (kept.push(t), changed || c)
        }
    }
}

/// The members of an object with each value stripped, and whether anything
/// was taken out.
pub open spec fn strip_members(
    members: Seq<(Seq<char>, Seq<char>)>,
    connector: Seq<char>,
    fuel: nat,
) -> (Seq<(Seq<char>, Seq<char>)>, bool)
    decreases fuel, members.len() + 1,
{
    if members.len() == 0 {
        (Seq::empty(), false)
    } else {
        let (kept, changed) = strip_members(members.drop_last(), connector, fuel);
        let (t, c) = spec_strip_text(members.last().1, connector, fuel);
        (kept.push((members.last().0, t)), changed || c)
    }
}

fn entry_names_connector(entry: &str, connector: &str) -> (r: bool)
    ensures
        r == names_connector(entry@, connector@),
{
    match json_str_at(entry, "/connectorName") {
        Some(name) => {
            let n = chars_of(name.as_str());
            let mut c = chars_of(connector);
            if chars_eq(n.as_slice(), c.as_slice()) {
                return true;
            }
            c.push('-');
            chars_starts_with(n.as_slice(), c.as_slice())
        },
        None => false,
    }
}

/// Takes every array entry that belongs to `connector` out of the JSON
/// document `text`, searching `fuel` levels deep; gives the document written
/// back and whether anything was taken out.
pub fn strip_connector_text(text: &str, connector: &str, fuel: u32) -> (r: (String, bool))
    ensures
        (r.0@, r.1) == spec_strip_text(text@, connector@, fuel as nat),
    decreases fuel,
{
    if fuel == 0 {
        return (string_from(text), false);
    }
    match json_node(text) {
        Some(JsonNode::Array(items)) => {
            let ghost all = texts_view(items@);
            let mut kept: Vec<String> = Vec::new();
            let mut changed = false;
            let mut i: usize = 0;
            while i < items.len()
                invariant
                    fuel > 0,
                    i <= items.len(),
                    all == texts_view(items@),
                    (texts_view(kept@), changed) == strip_items(
                        all.take(i as int),
                        connector@,
                        (fuel - 1) as nat,
                    ),
                decreases items.len() - i,
            {
                assert(all.take(i + 1).drop_last() =~= all.take(i as int));
                assert(all.take(i + 1).last() == items@[i as int]@);
                if entry_names_connector(items[i].as_str(), connector) {
                    changed = true;
                } else {
                    let (t, c) = strip_connector_text(items[i].as_str(), connector, fuel - 1);
                    let ghost before = texts_view(kept@);
                    kept.push(t);
                    assert(texts_view(kept@) =~= before.push(t@));
                    changed = changed || c;
                }
                i += 1;
            }
            assert(all.take(items.len() as int) =~= all);
            (json_array_text(&kept), changed)
        },
        Some(JsonNode::Object(members)) => {
            let ghost all = members_view(members@);
            let mut kept: Vec<(String, String)> = Vec::new();
            let mut changed = false;
            let mut i: usize = 0;
            while i < members.len()
                invariant
                    fuel > 0,
                    i <= members.len(),
                    all == members_view(members@),
                    (members_view(kept@), changed) == strip_members(
                        all.take(i as int),
                        connector@,
                        (fuel - 1) as nat,
                    ),
                decreases members.len() - i,
            {
                assert(all.take(i + 1).drop_last() =~= all.take(i as int));
                assert(all.take(i + 1).last() == (members@[i as int].0@, members@[i as int].1@));
                let (t, c) = strip_connector_text(members[i].1.as_str(), connector, fuel - 1);
                let key = members[i].0.clone();
                let ghost before = members_view(kept@);
                kept.push((key, t));
                assert(members_view(kept@) =~= before.push((members@[i as int].0@, t@)));
                changed = changed || c;
                i += 1;
            }
            assert(all.take(members.len() as int) =~= all);
            (json_object_text(&kept), changed)
        },
        _ => (string_from(text), false),
    }
}

/// KWin's saved output configuration `raw` with every entry that belongs to
/// `connector` taken out, pretty-printed; `None` where nothing was taken
/// out (or `raw` is not JSON), so the file is left as it is.
pub fn forget_connector_in_config(raw: &str, connector: &str) -> (r: Option<String>)
    ensures
        opt_text(r) == (if spec_strip_text(raw@, connector@, CONFIG_SEARCH_DEPTH as nat).1 {
            json_pretty_of(spec_strip_text(raw@, connector@, CONFIG_SEARCH_DEPTH as nat).0)
        } else {
            None
        }),
{
    let (stripped, changed) = strip_connector_text(raw, connector, CONFIG_SEARCH_DEPTH);
    if !changed {
        return None;
    }
    json_pretty(stripped.as_str())
}

} // verus!
