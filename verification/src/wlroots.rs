//! Virtual outputs on wlroots compositors, made through the compositor's own
//! IPC: sway's i3-ipc socket or Hyprland's request socket.
//!
//! The socket traffic is done by the caller; this module decides which IPC to
//! use, frames and checks the messages, builds the commands, reads the
//! replies, and watches the output list until the new output shows up.
use vstd::prelude::*;

use vstd::string::StringSliceAdditionalSpecFns;

use crate::capabilities::opt_string;
use crate::config::opt_str_view;
use crate::json::{
    json_bool_at, json_bool_field, json_items, json_items_of, json_str_at, json_str_field,
    json_u64_at, json_u64_field, opt_text,
};
use crate::text::{
    chars_eq_str, chars_of, decimal_digit, decimal_digit_exec, is_ascii_alnum, push_char,
    push_chars, push_decimal, decimal_of, string_from, string_of, trim, trim_chars,
};

verus! {

broadcast use vstd::string::group_string_axioms;

/// i3-ipc message type: run a command.
pub const SWAY_MSG_RUN_COMMAND: u32 = 0;

/// i3-ipc message type: list the outputs.
pub const SWAY_MSG_GET_OUTPUTS: u32 = 3;

/// Replies longer than this are refused.
pub const MAX_RESPONSE_BYTES: usize = 8388608;

/// How long to wait for a created output to show up.
pub const APPEAR_DEADLINE_MS: u64 = 5000;

/// How often to look for it meanwhile.
pub const APPEAR_POLL_MS: u64 = 50;

/// Read and write timeout on the IPC sockets.
pub const IPC_TIMEOUT_MS: u64 = 3000;

#[derive(Debug, Clone, Copy, PartialEq, Eq, Structural)]
pub enum WlrootsIpcKind {
    Sway,
    Hyprland,
}

impl WlrootsIpcKind {
    pub open spec fn label(self) -> Seq<char> {
        match self {
            WlrootsIpcKind::Sway => "sway"@,
            WlrootsIpcKind::Hyprland => "hyprland"@,
        }
    }

    /// The display name: `sway` or `hyprland`.
    pub fn to_string(&self) -> (r: String)
        ensures
            r@ == self.label(),
    {
        match self {
            WlrootsIpcKind::Sway => string_from("sway"),
            WlrootsIpcKind::Hyprland => string_from("hyprland"),
        }
    }
}

#[derive(Debug, Clone, Copy)]
pub struct VirtualOutputSpec {
    pub width: u32,
    pub height: u32,
    pub refresh_rate_hz: u32,
}

impl Default for VirtualOutputSpec {
    fn default() -> (r: Self)
        ensures
            r.width == 0 && r.height == 0 && r.refresh_rate_hz == 0,
    {
        VirtualOutputSpec { width: 0, height: 0, refresh_rate_hz: 0 }
    }
}

#[derive(Debug, Clone)]
pub struct OutputSnapshot {
    pub name: String,
    pub width: u32,
    pub height: u32,
}

pub open spec fn snapshot_view(o: OutputSnapshot) -> (Seq<char>, u32, u32) {
    (o.name@, o.width, o.height)
}

#[derive(Debug, Clone)]
pub enum WlrootsVirtualOutputError {
    /// Neither a sway socket (`$SWAYSOCK`) nor a Hyprland socket is there.
    IpcUnavailable,
    Sway(String),
    Hyprland(String),
    /// The compositor refused the command.
    Rejected(String),
    /// The output did not appear within this many milliseconds.
    Timeout(u64),
}

/// The view of an error: its variant and message.
pub enum ErrorView {
    IpcUnavailable,
    Sway(Seq<char>),
    Hyprland(Seq<char>),
    Rejected(Seq<char>),
    Timeout(u64),
}

pub open spec fn error_view(e: WlrootsVirtualOutputError) -> ErrorView {
    match e {
        WlrootsVirtualOutputError::IpcUnavailable => ErrorView::IpcUnavailable,
        WlrootsVirtualOutputError::Sway(m) => ErrorView::Sway(m@),
        WlrootsVirtualOutputError::Hyprland(m) => ErrorView::Hyprland(m@),
        WlrootsVirtualOutputError::Rejected(m) => ErrorView::Rejected(m@),
        WlrootsVirtualOutputError::Timeout(ms) => ErrorView::Timeout(ms),
    }
}

/// What an error says.
pub open spec fn wlr_error_text(e: WlrootsVirtualOutputError) -> Seq<char> {
    match e {
        WlrootsVirtualOutputError::IpcUnavailable =>
            "no wlroots compositor IPC found — neither a sway socket ($SWAYSOCK) nor a Hyprland socket is available"@,
        WlrootsVirtualOutputError::Sway(m) => "sway IPC error: "@ + m@,
        WlrootsVirtualOutputError::Hyprland(m) => "hyprland IPC error: "@ + m@,
        WlrootsVirtualOutputError::Rejected(m) => "the compositor rejected the command: "@ + m@,
        WlrootsVirtualOutputError::Timeout(ms) => "the virtual output did not appear within "@
            + decimal_of((ms / 1000) as nat) + "."@ + seq![decimal_digit(((ms % 1000) / 100) as int)]
            + "s"@,
    }
}

impl WlrootsVirtualOutputError {
    /// The error's message; a timeout is given in seconds to the tenth.
    pub fn message(&self) -> (r: String)
        ensures
            r@ == wlr_error_text(*self),
    {
        match self {
            WlrootsVirtualOutputError::IpcUnavailable => string_from(
                "no wlroots compositor IPC found — neither a sway socket ($SWAYSOCK) nor a Hyprland socket is available",
            ),
            WlrootsVirtualOutputError::Sway(m) => {
                let mut s = string_from("sway IPC error: ");
                s.append(m.as_str());
                s
            },
            WlrootsVirtualOutputError::Hyprland(m) => {
                let mut s = string_from("hyprland IPC error: ");
                s.append(m.as_str());
                s
            },
            WlrootsVirtualOutputError::Rejected(m) => {
                let mut s = string_from("the compositor rejected the command: ");
                s.append(m.as_str());
                s
            },
            WlrootsVirtualOutputError::Timeout(ms) => {
                let mut s = string_from("the virtual output did not appear within ");
                push_decimal(&mut s, *ms / 1000);
                s.append(".");
                let d = decimal_digit_exec((*ms % 1000) / 100);
                push_char(&mut s, d);
                s.append("s");
                proof {
                    reveal_strlit(".");
                }
                assert(s@ =~= wlr_error_text(*self));
                s
            },
        }
    }
}

pub open spec fn unit_result_view(r: Result<(), WlrootsVirtualOutputError>) -> Result<(), ErrorView> {
    match r {
        Ok(()) => Ok(()),
        Err(e) => Err(error_view(e)),
    }
}

/// The compositor IPC in use, with its socket path.
#[derive(Debug, Clone)]
pub enum Ipc {
    Sway(String),
    Hyprland(String),
}

pub open spec fn ipc_view(ipc: Ipc) -> (WlrootsIpcKind, Seq<char>) {
    match ipc {
        Ipc::Sway(p) => (WlrootsIpcKind::Sway, p@),
        Ipc::Hyprland(p) => (WlrootsIpcKind::Hyprland, p@),
    }
}

impl Ipc {
    pub fn kind(&self) -> (r: WlrootsIpcKind)
        ensures
            r == ipc_view(*self).0,
    {
        match self {
            Ipc::Sway(_) => WlrootsIpcKind::Sway,
            Ipc::Hyprland(_) => WlrootsIpcKind::Hyprland,
        }
    }

    /// The socket to connect to.
    pub fn socket_path(&self) -> (r: &str)
        ensures
            r@ == ipc_view(*self).1,
    {
        match self {
            Ipc::Sway(p) => p.as_str(),
            Ipc::Hyprland(p) => p.as_str(),
        }
    }
}

/// `Path::join` on Unix: an absolute `rel` replaces `base`; otherwise a `/`
/// goes between them unless `base` is empty or already ends in one.
pub open spec fn path_join(base: Seq<char>, rel: Seq<char>) -> Seq<char> {
    if rel.len() > 0 && rel[0] == '/' {
        rel
    } else if base.len() == 0 || base.last() == '/' {
        base + rel
    } else {
        base + seq!['/'] + rel
    }
}

fn path_join_chars(base: Vec<char>, rel: &[char]) -> (r: Vec<char>)
    ensures
        r@ == path_join(base@, rel@),
{
    if rel.len() > 0 && rel[0] == '/' {
        return vstd::slice::slice_to_vec(rel);
    }
    let mut out = base;
    if out.len() > 0 && out[out.len() - 1] != '/' {
        out.push('/');
    }
    let ghost mid = out@;
    let mut i: usize = 0;
    while i < rel.len()
        invariant
            i <= rel@.len(),
            out@ == mid + rel@.take(i as int),
        decreases rel@.len() - i,
    {
        out.push(rel[i]);
        assert(rel@.take(i as int).push(rel@[i as int]) =~= rel@.take(i + 1));
        i += 1;
    }
    assert(rel@.take(rel@.len() as int) =~= rel@);
    out
}

/// Hyprland's request socket: `$XDG_RUNTIME_DIR/hypr/<signature>/.socket.sock`.
pub open spec fn hyprland_socket(runtime_dir: Seq<char>, signature: Seq<char>) -> Seq<char> {
    path_join(path_join(path_join(runtime_dir, "hypr"@), signature), ".socket.sock"@)
}

pub fn hyprland_socket_path(runtime_dir: &str, signature: &str) -> (r: String)
    ensures
        r@ == hyprland_socket(runtime_dir@, signature@),
{
    let hypr = chars_of("hypr");
    let sock = chars_of(".socket.sock");
    let sig = chars_of(signature);
    let p = path_join_chars(chars_of(runtime_dir), hypr.as_slice());
    let p = path_join_chars(p, sig.as_slice());
    let p = path_join_chars(p, sock.as_slice());
    string_of(p.as_slice())
}

/// Set and not blank once trimmed.
pub open spec fn nonblank(v: Option<Seq<char>>) -> bool {
    v is Some && trim(v->0).len() > 0
}

fn nonblank_exec(v: Option<&str>) -> (r: bool)
    ensures
        r == nonblank(opt_str_view(v)),
{
    match v {
        Some(s) => {
            let c = chars_of(s);
            trim_chars(c.as_slice()).len() > 0
        },
        None => false,
    }
}

/// Which IPC to use: sway when `$SWAYSOCK` names a socket that exists, else
/// Hyprland when `$HYPRLAND_INSTANCE_SIGNATURE` is set, `$XDG_RUNTIME_DIR`
/// is set and the socket under it exists.
pub open spec fn spec_detect_ipc(
    swaysock: Option<Seq<char>>,
    sway_socket_exists: bool,
    hyprland_signature: Option<Seq<char>>,
    runtime_dir: Option<Seq<char>>,
    hyprland_socket_exists: bool,
) -> Option<(WlrootsIpcKind, Seq<char>)> {
    if nonblank(swaysock) && sway_socket_exists {
        Some((WlrootsIpcKind::Sway, swaysock->0))
    } else if nonblank(hyprland_signature) && runtime_dir is Some && hyprland_socket_exists {
        Some((WlrootsIpcKind::Hyprland, hyprland_socket(runtime_dir->0, hyprland_signature->0)))
    } else {
        None
    }
}

pub open spec fn opt_ipc_view(o: Option<Ipc>) -> Option<(WlrootsIpcKind, Seq<char>)> {
    match o {
        Some(ipc) => Some(ipc_view(ipc)),
        None => None,
    }
}

/// The IPC to use. `sway_socket_exists` tells whether the path in
/// `swaysock` exists, `hyprland_socket_exists` whether the path that
/// [`hyprland_socket_path`] gives for the other two exists.
pub fn detect_ipc(
    swaysock: Option<&str>,
    sway_socket_exists: bool,
    hyprland_signature: Option<&str>,
    runtime_dir: Option<&str>,
    hyprland_socket_exists: bool,
) -> (r: Option<Ipc>)
    ensures
        opt_ipc_view(r) == spec_detect_ipc(
            opt_str_view(swaysock),
            sway_socket_exists,
            opt_str_view(hyprland_signature),
            opt_str_view(runtime_dir),
            hyprland_socket_exists,
        ),
{
    if nonblank_exec(swaysock) && sway_socket_exists {
        return Some(Ipc::Sway(string_from(swaysock.unwrap())));
    }
    if nonblank_exec(hyprland_signature) && hyprland_socket_exists {
        if let Some(runtime) = runtime_dir {
            let path = hyprland_socket_path(runtime, hyprland_signature.unwrap());
            return Some(Ipc::Hyprland(path));
        }
    }
    None
}

/// The kind of IPC that [`detect_ipc`] picks.
pub fn detect_ipc_kind(
    swaysock: Option<&str>,
    sway_socket_exists: bool,
    hyprland_signature: Option<&str>,
    runtime_dir: Option<&str>,
    hyprland_socket_exists: bool,
) -> (r: Option<WlrootsIpcKind>)
    ensures
        r == (match spec_detect_ipc(
            opt_str_view(swaysock),
            sway_socket_exists,
            opt_str_view(hyprland_signature),
            opt_str_view(runtime_dir),
            hyprland_socket_exists,
        ) {
            Some(found) => Some(found.0),
            None => None,
        }),
{
    match detect_ipc(
        swaysock,
        sway_socket_exists,
        hyprland_signature,
        runtime_dir,
        hyprland_socket_exists,
    ) {
        Some(ipc) => Some(ipc.kind()),
        None => None,
    }
}

/// A character allowed in an output name that goes into a command.
pub open spec fn name_char_ok(c: char) -> bool {
    is_ascii_alnum(c) || c == '_' || c == '-' || c == '.'
}

/// An output name that is safe to splice into a compositor command: one to
/// 64 characters, each an ASCII letter or digit, `_`, `-` or `.`. (Such a
/// name is ASCII, so its length in characters is its length in bytes.)
pub open spec fn spec_output_name_is_safe(name: Seq<char>) -> bool {
    0 < name.len() <= 64 && forall|i: int| 0 <= i < name.len() ==> name_char_ok(#[trigger] name[i])
}

pub fn output_name_is_safe(name: &str) -> (r: bool)
    ensures
        r == spec_output_name_is_safe(name@),
{
    let c = chars_of(name);
    if c.len() == 0 || c.len() > 64 {
        return false;
    }
    let mut i: usize = 0;
    while i < c.len()
        invariant
            i <= c@.len(),
            c@ == name@,
            forall|j: int| 0 <= j < i ==> name_char_ok(#[trigger] c@[j]),
        decreases c@.len() - i,
    {
        let ch = c[i];
        let ok = ('a' <= ch && ch <= 'z') || ('A' <= ch && ch <= 'Z') || ('0' <= ch && ch <= '9')
            || ch == '_' || ch == '-' || ch == '.';
        if !ok {
            return false;
        }
        i += 1;
    }
    true
}

/// The bytes of "i3-ipc".
pub open spec fn sway_magic() -> Seq<u8> {
    seq![105u8, 51u8, 45u8, 105u8, 112u8, 99u8]
}

/// `v.to_le_bytes()`.
pub open spec fn le32(v: u32) -> Seq<u8> {
    seq![
        (v % 256) as u8,
        ((v / 256) % 256) as u8,
        ((v / 65536) % 256) as u8,
        (v / 16777216) as u8,
    ]
}

/// The little-endian `u32` in four bytes from `off`.
pub open spec fn read_le32(b: Seq<u8>, off: int) -> int {
    b[off] + 256 * b[off + 1] + 65536 * b[off + 2] + 16777216 * b[off + 3]
}

/// An i3-ipc message: the magic, the payload length and the message type
/// (both little-endian `u32`), then the payload's UTF-8 bytes.
pub open spec fn sway_message(msg_type: u32, payload: Seq<u8>) -> Seq<u8> {
    sway_magic() + le32(payload.len() as u32) + le32(msg_type) + payload
}

fn push_le32(buf: &mut Vec<u8>, v: u32)
    ensures
        final(buf)@ == old(buf)@ + le32(v),
{
    buf.push((v % 256) as u8);
    buf.push(((v / 256) % 256) as u8);
    buf.push(((v / 65536) % 256) as u8);
    buf.push((v / 16777216) as u8);
    assert(buf@ =~= old(buf)@ + le32(v));
}

pub fn encode_sway_message(msg_type: u32, payload: &str) -> (r: Vec<u8>)
    ensures
        r@ == sway_message(msg_type, payload.spec_bytes()),
{
    let bytes = payload.as_bytes();
    let mut buf: Vec<u8> = Vec::new();
    buf.push(105u8);
    buf.push(51u8);
    buf.push(45u8);
    buf.push(105u8);
    buf.push(112u8);
    buf.push(99u8);
    push_le32(&mut buf, bytes.len() as u32);
    push_le32(&mut buf, msg_type);
    let ghost head = buf@;
    let mut i: usize = 0;
    while i < bytes.len()
        invariant
            i <= bytes@.len(),
            buf@ == head + bytes@.take(i as int),
        decreases bytes@.len() - i,
    {
        buf.push(bytes[i]);
        assert(bytes@.take(i as int).push(bytes@[i as int]) =~= bytes@.take(i + 1));
        i += 1;
    }
    assert(bytes@.take(bytes@.len() as int) =~= bytes@);
    assert(buf@ =~= sway_message(msg_type, payload.spec_bytes()));
    buf
}

/// What the 14-byte header of a sway reply says: the body's length, or why
/// the reply is refused.
pub open spec fn spec_sway_header(h: Seq<u8>) -> Result<int, ErrorView> {
    if h.take(6) != sway_magic() {
        Err(ErrorView::Sway("response is missing the i3-ipc magic"@))
    } else if read_le32(h, 6) > MAX_RESPONSE_BYTES {
        Err(
            ErrorView::Sway(
                "oversized IPC response ("@ + decimal_of(read_le32(h, 6) as nat) + " bytes)"@,
            ),
        )
    } else {
        Ok(read_le32(h, 6))
    }
}

/// Checks the header of a sway reply and gives the length of its body.
pub fn decode_sway_header(header: &[u8; 14]) -> (r: Result<usize, WlrootsVirtualOutputError>)
    ensures
        match r {
            Ok(n) => spec_sway_header(header@) == Ok::<int, ErrorView>(n as int),
            Err(e) => spec_sway_header(header@) == Err::<int, ErrorView>(error_view(e)),
        },
{
    let magic_ok = header[0] == 105u8 && header[1] == 51u8 && header[2] == 45u8 && header[3]
        == 105u8 && header[4] == 112u8 && header[5] == 99u8;
    if !magic_ok {
        proof {
            if header@.take(6) == sway_magic() {
                assert(header@.take(6)[0] == header@[0]);
                assert(header@.take(6)[1] == header@[1]);
                assert(header@.take(6)[2] == header@[2]);
                assert(header@.take(6)[3] == header@[3]);
                assert(header@.take(6)[4] == header@[4]);
                assert(header@.take(6)[5] == header@[5]);
            }
        }
        return Err(WlrootsVirtualOutputError::Sway(
            string_from("response is missing the i3-ipc magic"),
        ));
    }
    assert(header@.take(6) =~= sway_magic());
    let len: u64 = header[6] as u64 + 256 * (header[7] as u64) + 65536 * (header[8] as u64)
        + 16777216 * (header[9] as u64);
    if len > 8388608 {
        let mut m = string_from("oversized IPC response (");
        push_decimal(&mut m, len);
        m.append(" bytes)");
        return Err(WlrootsVirtualOutputError::Sway(m));
    }
    Ok(len as usize)
}

/// One entry of a compositor's JSON reply, as far as the replies are read:
/// each field holds the entry's member of that name where it has the type
/// shown, and `None` otherwise.
#[derive(Debug, Clone)]
pub struct ReplyEntry {
    /// `"name"`, a string.
    pub name: Option<String>,
    /// `"success"`, a boolean.
    pub success: Option<bool>,
    /// `"error"`, a string.
    pub error: Option<String>,
    /// `"width"`, an unsigned integer.
    pub width: Option<u64>,
    /// `"height"`, an unsigned integer.
    pub height: Option<u64>,
    /// `"rect"."width"`, an unsigned integer.
    pub rect_width: Option<u64>,
    /// `"rect"."height"`, an unsigned integer.
    pub rect_height: Option<u64>,
}

/// A reply entry as the contracts see it.
pub struct EntryView {
    pub name: Option<Seq<char>>,
    pub success: Option<bool>,
    pub error: Option<Seq<char>>,
    pub width: Option<u64>,
    pub height: Option<u64>,
    pub rect_width: Option<u64>,
    pub rect_height: Option<u64>,
}

impl View for ReplyEntry {
    type V = EntryView;

    open spec fn view(&self) -> EntryView {
        EntryView {
            name: opt_text(self.name),
            success: self.success,
            error: opt_text(self.error),
            width: self.width,
            height: self.height,
            rect_width: self.rect_width,
            rect_height: self.rect_height,
        }
    }
}

/// A compositor's reply read as JSON.
#[derive(Debug, Clone)]
pub enum ReplyJson {
    /// Not JSON at all; the parser's message.
    Invalid(String),
    /// JSON, but not a list.
    NotList,
    /// A list of entries.
    List(Vec<ReplyEntry>),
}

/// A reply as the contracts see it.
pub enum ReplyView {
    Invalid(Seq<char>),
    NotList,
    List(Seq<EntryView>),
}

impl View for ReplyJson {
    type V = ReplyView;

    open spec fn view(&self) -> ReplyView {
        match self {
            ReplyJson::Invalid(m) => ReplyView::Invalid(m@),
            ReplyJson::NotList => ReplyView::NotList,
            ReplyJson::List(v) => ReplyView::List(v@.map_values(|e: ReplyEntry| e@)),
        }
    }
}

/// What the JSON element `item` holds in the members that replies are read by.
pub open spec fn entry_of_json(item: Seq<char>) -> EntryView {
    EntryView {
        name: json_str_field(item, "/name"@),
        success: json_bool_field(item, "/success"@),
        error: json_str_field(item, "/error"@),
        width: json_u64_field(item, "/width"@),
        height: json_u64_field(item, "/height"@),
        rect_width: json_u64_field(item, "/rect/width"@),
        rect_height: json_u64_field(item, "/rect/height"@),
    }
}

/// The reply that the text `text` is, read as JSON.
pub open spec fn reply_of_json(text: Seq<char>) -> ReplyView {
    match json_items_of(text) {
        Err(m) => ReplyView::Invalid(m),
        Ok(None) => ReplyView::NotList,
        Ok(Some(items)) => ReplyView::List(items.map_values(|i: Seq<char>| entry_of_json(i))),
    }
}

/// Reads one element of a reply.
pub fn decode_entry(item: &str) -> (r: ReplyEntry)
    ensures
        r@ == entry_of_json(item@),
{
    proof {
        reveal_strlit("/name");
        reveal_strlit("/success");
        reveal_strlit("/error");
        reveal_strlit("/width");
        reveal_strlit("/height");
        reveal_strlit("/rect/width");
        reveal_strlit("/rect/height");
    }
    ReplyEntry {
        name: json_str_at(item, "/name"),
        success: json_bool_at(item, "/success"),
        error: json_str_at(item, "/error"),
        width: json_u64_at(item, "/width"),
        height: json_u64_at(item, "/height"),
        rect_width: json_u64_at(item, "/rect/width"),
        rect_height: json_u64_at(item, "/rect/height"),
    }
}

/// Reads a compositor's reply as JSON.
pub fn decode_reply(text: &str) -> (r: ReplyJson)
    ensures
        r@ == reply_of_json(text@),
{
    match json_items(text) {
        Err(m) => ReplyJson::Invalid(m),
        Ok(None) => ReplyJson::NotList,
        Ok(Some(items)) => {
            let mut out: Vec<ReplyEntry> = Vec::new();
            let mut i: usize = 0;
            while i < items.len()
                invariant
                    i <= items@.len(),
                    out@.len() == i,
                    forall|j: int| 0 <= j < i ==> #[trigger] out@[j]@ == entry_of_json(items@[j]@),
                decreases items@.len() - i,
            {
                let e = decode_entry(items[i].as_str());
                out.push(e);
                i += 1;
            }
            let ghost src = items@.map_values(|s: String| s@);
            assert(out@.map_values(|e: ReplyEntry| e@) =~= src.map_values(
                |i: Seq<char>| entry_of_json(i),
            ));
            ReplyJson::List(out)
        },
    }
}

/// The index of the first entry from `i` on that did not report success.
pub open spec fn first_failure(items: Seq<EntryView>, i: int) -> int
    decreases items.len() - i,
{
    if i >= items.len() {
        items.len() as int
    } else if items[i].success != Some(true) {
        i
    } else {
        first_failure(items, i + 1)
    }
}

proof fn lemma_first_failure(items: Seq<EntryView>, i: int)
    requires
        0 <= i <= items.len(),
    ensures
        i <= first_failure(items, i) <= items.len(),
        first_failure(items, i) < items.len() ==> items[first_failure(items, i)].success != Some(
            true,
        ),
        forall|j: int| i <= j < first_failure(items, i) ==> items[j].success == Some(true),
    decreases items.len() - i,
{
    if i < items.len() && items[i].success == Some(true) {
        lemma_first_failure(items, i + 1);
    }
}

pub open spec fn error_text(e: EntryView) -> Seq<char> {
    match e.error {
        Some(m) => m,
        None => "unknown error"@,
    }
}

/// The outcome of a sway command reply: every entry must report success;
/// the first that does not gives its error; an empty list is an error too.
pub open spec fn spec_command_success(reply: ReplyView) -> Result<(), ErrorView> {
    match reply {
        ReplyView::Invalid(m) => Err(ErrorView::Sway("bad command reply: "@ + m)),
        ReplyView::NotList => Err(ErrorView::Sway("command reply is not a list"@)),
        ReplyView::List(items) => {
            let k = first_failure(items, 0);
            if k < items.len() {
                Err(ErrorView::Rejected(error_text(items[k])))
            } else if items.len() == 0 {
                Err(ErrorView::Sway("empty command reply"@))
            } else {
                Ok(())
            }
        },
    }
}

/// Whether a sway command reply reports success.
pub fn sway_command_outcome(reply: &ReplyJson) -> (r: Result<(), WlrootsVirtualOutputError>)
    ensures
        unit_result_view(r) == spec_command_success(reply@),
{
    match reply {
        ReplyJson::Invalid(m) => {
            let mut s = string_from("bad command reply: ");
            s.append(m.as_str());
            Err(WlrootsVirtualOutputError::Sway(s))
        },
        ReplyJson::NotList => Err(
            WlrootsVirtualOutputError::Sway(string_from("command reply is not a list")),
        ),
        ReplyJson::List(items) => {
            let ghost vs = items@.map_values(|e: ReplyEntry| e@);
            proof {
                lemma_first_failure(vs, 0);
            }
            let mut i: usize = 0;
            while i < items.len()
                invariant
                    i <= items@.len(),
                    vs == items@.map_values(|e: ReplyEntry| e@),
                    first_failure(vs, 0) >= i,
                    forall|j: int| 0 <= j < i ==> vs[j].success == Some(true),
                    reply@ == ReplyView::List(vs),
                decreases items@.len() - i,
            {
                proof {
                    lemma_first_failure(vs, 0);
                }
                assert(vs[i as int] == items@[i as int]@);
                let ok = match items[i].success {
                    Some(b) => b,
                    None => false,
                };
                if !ok {
                    let msg = match &items[i].error {
                        Some(m) => m.clone(),
                        None => string_from("unknown error"),
                    };
                    return Err(WlrootsVirtualOutputError::Rejected(msg));
                }
                i += 1;
            }
            if items.len() == 0 {
                return Err(WlrootsVirtualOutputError::Sway(string_from("empty command reply")));
            }
            Ok(())
        },
    }
}

/// Reads the reply to a sway `RUN_COMMAND` message.
pub fn parse_sway_command_success(json: &str) -> (r: Result<(), WlrootsVirtualOutputError>)
    ensures
        unit_result_view(r) == spec_command_success(reply_of_json(json@)),
{
    let reply = decode_reply(json);
    sway_command_outcome(&reply)
}

/// `n as u32` for a width or height read from a reply.
pub open spec fn low32(n: u64) -> u32 {
    (n % 4294967296) as u32
}

pub open spec fn or_zero(o: Option<u64>) -> u64 {
    match o {
        Some(n) => n,
        None => 0,
    }
}

/// The output that entry `e` lists, if it has a name: its size is under
/// `rect` in a sway reply and at the top in a Hyprland one.
pub open spec fn entry_output(e: EntryView, in_rect: bool) -> Seq<(Seq<char>, u32, u32)> {
    match e.name {
        Some(n) => {
            let w = if in_rect { e.rect_width } else { e.width };
            let h = if in_rect { e.rect_height } else { e.height };
            seq![(n, low32(or_zero(w)), low32(or_zero(h)))]
        },
        None => seq![],
    }
}

/// The outputs that the first `n` entries list, in order.
pub open spec fn outputs_upto(items: Seq<EntryView>, n: int, in_rect: bool) -> Seq<
    (Seq<char>, u32, u32),
>
    decreases n,
{
    if n <= 0 {
        seq![]
    } else {
        outputs_upto(items, n - 1, in_rect) + entry_output(items[n - 1], in_rect)
    }
}

pub open spec fn outputs_result_view(r: Result<Vec<OutputSnapshot>, WlrootsVirtualOutputError>) -> Result<
    Seq<(Seq<char>, u32, u32)>,
    ErrorView,
> {
    match r {
        Ok(v) => Ok(v@.map_values(|o: OutputSnapshot| snapshot_view(o))),
        Err(e) => Err(error_view(e)),
    }
}

/// The outputs in a sway `GET_OUTPUTS` reply.
pub open spec fn spec_sway_outputs(reply: ReplyView) -> Result<Seq<(Seq<char>, u32, u32)>, ErrorView> {
    match reply {
        ReplyView::Invalid(m) => Err(ErrorView::Sway("bad outputs reply: "@ + m)),
        ReplyView::NotList => Err(ErrorView::Sway("outputs reply is not a list"@)),
        ReplyView::List(items) => Ok(outputs_upto(items, items.len() as int, true)),
    }
}

/// The monitors in a Hyprland `j/monitors` reply.
pub open spec fn spec_hyprland_monitors(reply: ReplyView) -> Result<
    Seq<(Seq<char>, u32, u32)>,
    ErrorView,
> {
    match reply {
        ReplyView::Invalid(m) => Err(ErrorView::Hyprland("bad monitors reply: "@ + m)),
        ReplyView::NotList => Err(ErrorView::Hyprland("monitors reply is not a list"@)),
        ReplyView::List(items) => Ok(outputs_upto(items, items.len() as int, false)),
    }
}

fn low32_exec(n: u64) -> (r: u32)
    ensures
        r == low32(n),
{
    (n % 4294967296) as u32
}

fn collect_outputs(items: &Vec<ReplyEntry>, in_rect: bool) -> (r: Vec<OutputSnapshot>)
    ensures
        r@.map_values(|o: OutputSnapshot| snapshot_view(o)) == outputs_upto(
            items@.map_values(|e: ReplyEntry| e@),
            items@.len() as int,
            in_rect,
        ),
{
    let ghost vs = items@.map_values(|e: ReplyEntry| e@);
    let mut out: Vec<OutputSnapshot> = Vec::new();
    let mut i: usize = 0;
    while i < items.len()
        invariant
            i <= items@.len(),
            vs == items@.map_values(|e: ReplyEntry| e@),
            out@.map_values(|o: OutputSnapshot| snapshot_view(o)) == outputs_upto(
                vs,
                i as int,
                in_rect,
            ),
        decreases items@.len() - i,
    {
        let e = &items[i];
        assert(vs[i as int] == items@[i as int]@);
        let ghost before = out@.map_values(|o: OutputSnapshot| snapshot_view(o));
        if let Some(n) = &e.name {
            let w = if in_rect { e.rect_width } else { e.width };
            let h = if in_rect { e.rect_height } else { e.height };
            let w = match w { Some(v) => v, None => 0 };
            let h = match h { Some(v) => v, None => 0 };
            let name = n.clone();
            out.push(OutputSnapshot { name, width: low32_exec(w), height: low32_exec(h) });
        }
        proof {
            let after = out@.map_values(|o: OutputSnapshot| snapshot_view(o));
            assert(after =~= before + entry_output(vs[i as int], in_rect));
        }
        i += 1;
    }
    out
}

/// The outputs listed in a sway `GET_OUTPUTS` reply.
pub fn sway_outputs_from(reply: &ReplyJson) -> (r: Result<
    Vec<OutputSnapshot>,
    WlrootsVirtualOutputError,
>)
    ensures
        outputs_result_view(r) == spec_sway_outputs(reply@),
{
    match reply {
        ReplyJson::Invalid(m) => {
            let mut s = string_from("bad outputs reply: ");
            s.append(m.as_str());
            Err(WlrootsVirtualOutputError::Sway(s))
        },
        ReplyJson::NotList => Err(
            WlrootsVirtualOutputError::Sway(string_from("outputs reply is not a list")),
        ),
        ReplyJson::List(items) => Ok(collect_outputs(items, true)),
    }
}

/// The monitors listed in a Hyprland `j/monitors` reply.
pub fn hyprland_monitors_from(reply: &ReplyJson) -> (r: Result<
    Vec<OutputSnapshot>,
    WlrootsVirtualOutputError,
>)
    ensures
        outputs_result_view(r) == spec_hyprland_monitors(reply@),
{
    match reply {
        ReplyJson::Invalid(m) => {
            let mut s = string_from("bad monitors reply: ");
            s.append(m.as_str());
            Err(WlrootsVirtualOutputError::Hyprland(s))
        },
        ReplyJson::NotList => Err(
            WlrootsVirtualOutputError::Hyprland(string_from("monitors reply is not a list")),
        ),
        ReplyJson::List(items) => Ok(collect_outputs(items, false)),
    }
}

/// Reads the reply to a sway `GET_OUTPUTS` message.
pub fn parse_sway_outputs(json: &str) -> (r: Result<Vec<OutputSnapshot>, WlrootsVirtualOutputError>)
    ensures
        outputs_result_view(r) == spec_sway_outputs(reply_of_json(json@)),
{
    let reply = decode_reply(json);
    sway_outputs_from(&reply)
}

/// Reads the reply to Hyprland's `j/monitors` request.
pub fn parse_hyprland_monitors(json: &str) -> (r: Result<
    Vec<OutputSnapshot>,
    WlrootsVirtualOutputError,
>)
    ensures
        outputs_result_view(r) == spec_hyprland_monitors(reply_of_json(json@)),
{
    let reply = decode_reply(json);
    hyprland_monitors_from(&reply)
}

/// The head of every Hyprland create command.
pub open spec fn headless_create() -> Seq<char> {
    "output create headless"@
}

/// `{w}x{h}`.
pub open spec fn size_text(w: u32, h: u32) -> Seq<char> {
    decimal_of(w as nat) + "x"@ + decimal_of(h as nat)
}

/// The commands that create an output, in the order they are tried: sway
/// has one; Hyprland is asked with the full mode, then with the size alone,
/// then bare (older releases refuse the longer forms).
pub open spec fn spec_create_payloads(kind: WlrootsIpcKind, spec: VirtualOutputSpec) -> Seq<
    Seq<char>,
> {
    match kind {
        WlrootsIpcKind::Sway => seq!["create output"@],
        WlrootsIpcKind::Hyprland => seq![
            headless_create() + " "@ + size_text(spec.width, spec.height) + "@"@ + decimal_of(
                spec.refresh_rate_hz as nat,
            ),
            headless_create() + " "@ + size_text(spec.width, spec.height),
            headless_create(),
        ],
    }
}

fn push_size(out: &mut String, w: u32, h: u32)
    ensures
        final(out)@ == old(out)@ + size_text(w, h),
{
    push_decimal(out, w as u64);
    out.append("x");
    push_decimal(out, h as u64);
    assert(out@ =~= old(out)@ + size_text(w, h));
}

pub fn create_payloads(kind: WlrootsIpcKind, spec: VirtualOutputSpec) -> (r: Vec<String>)
    ensures
        r@.map_values(|c: String| c@) == spec_create_payloads(kind, spec),
{
    let mut out: Vec<String> = Vec::new();
    match kind {
        WlrootsIpcKind::Sway => {
            out.push(string_from("create output"));
        },
        WlrootsIpcKind::Hyprland => {
            let mut full = string_from("output create headless");
            full.append(" ");
            push_size(&mut full, spec.width, spec.height);
            full.append("@");
            push_decimal(&mut full, spec.refresh_rate_hz as u64);
            let mut sized = string_from("output create headless");
            sized.append(" ");
            push_size(&mut sized, spec.width, spec.height);
            out.push(full);
            out.push(sized);
            out.push(string_from("output create headless"));
        },
    }
    assert(out@.map_values(|c: String| c@) =~= spec_create_payloads(kind, spec));
    out
}

/// Hyprland answers a request it carried out with `ok`.
pub open spec fn spec_hyprland_ok(response: Seq<char>) -> bool {
    trim(response) == "ok"@
}

pub fn hyprland_reply_ok(response: &str) -> (r: bool)
    ensures
        r == spec_hyprland_ok(response@),
{
    let c = chars_of(response);
    let t = trim_chars(c.as_slice());
    chars_eq_str(t.as_slice(), "ok")
}

pub open spec fn create_rejected_text() -> Seq<char> {
    "output create headless was rejected by hyprland (hyprland >= 0.44 required)"@
}

/// The error when Hyprland refused every create command.
pub fn hyprland_create_rejected() -> (r: WlrootsVirtualOutputError)
    ensures
        error_view(r) == ErrorView::Rejected(create_rejected_text()),
{
    WlrootsVirtualOutputError::Rejected(
        string_from("output create headless was rejected by hyprland (hyprland >= 0.44 required)"),
    )
}

/// The command that sets the new output's mode: sway only, and only for a
/// safe name (the mode is best effort; Hyprland is given it at creation).
pub open spec fn spec_mode_command(kind: WlrootsIpcKind, name: Seq<char>, spec: VirtualOutputSpec) -> Option<
    Seq<char>,
> {
    if kind == WlrootsIpcKind::Sway && spec_output_name_is_safe(name) {
        Some(
            "output "@ + name + " mode "@ + size_text(spec.width, spec.height) + "@"@
                + decimal_of(spec.refresh_rate_hz as nat),
        )
    } else {
        None
    }
}

pub fn mode_command(kind: WlrootsIpcKind, name: &str, spec: VirtualOutputSpec) -> (r: Option<String>)
    ensures
        opt_string(r) == spec_mode_command(kind, name@, spec),
{
    if kind != WlrootsIpcKind::Sway || !output_name_is_safe(name) {
        return None;
    }
    let mut cmd = string_from("output ");
    cmd.append(name);
    cmd.append(" mode ");
    push_size(&mut cmd, spec.width, spec.height);
    cmd.append("@");
    push_decimal(&mut cmd, spec.refresh_rate_hz as u64);
    assert(cmd@ =~= "output "@ + name@ + " mode "@ + size_text(spec.width, spec.height) + "@"@
        + decimal_of(spec.refresh_rate_hz as nat));
    Some(cmd)
}

/// `format!("{s:?}")`: the `Debug` form of a string, quoted and escaped.
pub uninterp spec fn str_debug(s: Seq<char>) -> Seq<char>;

/// Formats `s` with `str`'s `Debug` impl. Its result is named, not stated.
#[verifier::external_body]
pub(crate) fn str_debug_quoted(s: &str) -> (r: String)
    ensures
        r@ == str_debug(s@),
{
    format!("{s:?}")
}

pub open spec fn string_result_view(r: Result<String, WlrootsVirtualOutputError>) -> Result<
    Seq<char>,
    ErrorView,
> {
    match r {
        Ok(s) => Ok(s@),
        Err(e) => Err(error_view(e)),
    }
}

/// The command that removes output `name`, refused for an unsafe name.
pub open spec fn spec_remove_request(kind: WlrootsIpcKind, name: Seq<char>) -> Result<
    Seq<char>,
    ErrorView,
> {
    if !spec_output_name_is_safe(name) {
        Err(ErrorView::Rejected("refusing unsafe output name "@ + str_debug(name)))
    } else {
        match kind {
            WlrootsIpcKind::Sway => Ok("output "@ + name + " remove"@),
            WlrootsIpcKind::Hyprland => Ok("output destroy "@ + name),
        }
    }
}

pub fn remove_request(kind: WlrootsIpcKind, name: &str) -> (r: Result<
    String,
    WlrootsVirtualOutputError,
>)
    ensures
        string_result_view(r) == spec_remove_request(kind, name@),
{
    if !output_name_is_safe(name) {
        let mut m = string_from("refusing unsafe output name ");
        let q = str_debug_quoted(name);
        m.append(q.as_str());
        return Err(WlrootsVirtualOutputError::Rejected(m));
    }
    match kind {
        WlrootsIpcKind::Sway => {
            let mut c = string_from("output ");
            c.append(name);
            c.append(" remove");
            Ok(c)
        },
        WlrootsIpcKind::Hyprland => {
            let mut c = string_from("output destroy ");
            c.append(name);
            Ok(c)
        },
    }
}

/// Hyprland's answer to a remove: `ok`, or the trimmed reply as the error.
pub open spec fn spec_hyprland_remove_outcome(response: Seq<char>) -> Result<(), ErrorView> {
    if spec_hyprland_ok(response) {
        Ok(())
    } else {
        Err(ErrorView::Hyprland(trim(response)))
    }
}

pub fn hyprland_remove_outcome(response: &str) -> (r: Result<(), WlrootsVirtualOutputError>)
    ensures
        unit_result_view(r) == spec_hyprland_remove_outcome(response@),
{
    let c = chars_of(response);
    let t = trim_chars(c.as_slice());
    if chars_eq_str(t.as_slice(), "ok") {
        Ok(())
    } else {
        Err(WlrootsVirtualOutputError::Hyprland(string_of(t.as_slice())))
    }
}

/// The outcome of one look at the output list after a create.
#[derive(Debug, Clone)]
pub enum AppearOutcome {
    /// Keep waiting: look again after [`APPEAR_POLL_MS`].
    Pending,
    /// The new output is there with a size.
    Appeared(OutputSnapshot),
    /// The deadline passed.
    TimedOut,
}

/// What to do after one look: maybe set the new output's mode (best effort,
/// before anything else), and how the wait stands.
#[derive(Debug, Clone)]
pub struct AppearStep {
    pub set_mode: Option<String>,
    pub outcome: AppearOutcome,
}

/// Waits for the output that a create adds: any output whose name was not
/// in the list taken before the create. The first new output seen gets its
/// mode set; from then on a new output with a nonzero size is the result.
#[derive(Debug, Clone)]
pub struct AppearWatch {
    before: Vec<String>,
    mode_attempted: bool,
}

impl View for AppearWatch {
    type V = (Seq<Seq<char>>, bool);

    closed spec fn view(&self) -> (Seq<Seq<char>>, bool) {
        (self.before@.map_values(|n: String| n@), self.mode_attempted)
    }
}

pub open spec fn names_of(outs: Seq<OutputSnapshot>) -> Seq<Seq<char>> {
    outs.map_values(|o: OutputSnapshot| o.name@)
}

/// One pass over `outs` from `i` on, with the mode command chosen so far in
/// `mode`: gives the name to set the mode of, the index of the output that
/// ends the wait, and whether a mode has been attempted.
pub open spec fn scan_new(
    before: Seq<Seq<char>>,
    attempted: bool,
    mode: Option<Seq<char>>,
    outs: Seq<(Seq<char>, u32, u32)>,
    i: int,
) -> (Option<Seq<char>>, Option<int>, bool)
    decreases outs.len() - i,
{
    if i >= outs.len() || i < 0 {
        (mode, None, attempted)
    } else if before.contains(outs[i].0) {
        scan_new(before, attempted, mode, outs, i + 1)
    } else if !attempted {
        scan_new(before, true, Some(outs[i].0), outs, i + 1)
    } else if outs[i].1 > 0 && outs[i].2 > 0 {
        (mode, Some(i), attempted)
    } else {
        scan_new(before, attempted, mode, outs, i + 1)
    }
}

proof fn lemma_scan_new(
    before: Seq<Seq<char>>,
    attempted: bool,
    mode: Option<Seq<char>>,
    outs: Seq<(Seq<char>, u32, u32)>,
    i: int,
)
    requires
        0 <= i,
    ensures
        scan_new(before, attempted, mode, outs, i).1 matches Some(k) ==> i <= k < outs.len(),
    decreases outs.len() - i,
{
    if i < outs.len() {
        if before.contains(outs[i].0) {
            lemma_scan_new(before, attempted, mode, outs, i + 1);
        } else if !attempted {
            lemma_scan_new(before, true, Some(outs[i].0), outs, i + 1);
        } else if !(outs[i].1 > 0 && outs[i].2 > 0) {
            lemma_scan_new(before, attempted, mode, outs, i + 1);
        }
    }
}

fn names_contain(names: &Vec<String>, name: &String) -> (r: bool)
    ensures
        r == names@.map_values(|n: String| n@).contains(name@),
{
    let ghost v = names@.map_values(|n: String| n@);
    let mut j: usize = 0;
    while j < names.len()
        invariant
            j <= names@.len(),
            v == names@.map_values(|n: String| n@),
            forall|k: int| 0 <= k < j ==> v[k] != name@,
        decreases names@.len() - j,
    {
        if names[j] == *name {
            assert(v[j as int] == name@);
            return true;
        }
        j += 1;
    }
    proof {
        if v.contains(name@) {
            let k = choose|k: int| 0 <= k < v.len() && v[k] == name@;
            assert(v[k] != name@);
        }
    }
    false
}

impl AppearWatch {
    /// Starts the wait with the outputs listed before the create.
    pub fn new(before: &[OutputSnapshot]) -> (r: Self)
        ensures
            r@ == (names_of(before@), false),
    {
        let mut names: Vec<String> = Vec::new();
        let mut i: usize = 0;
        while i < before.len()
            invariant
                i <= before@.len(),
                names@.map_values(|n: String| n@) == names_of(before@).take(i as int),
            decreases before@.len() - i,
        {
            let n = before[i].name.clone();
            assert(n@ == before@[i as int].name@);
            let ghost prev = names@;
            assert(prev.map_values(|x: String| x@).len() == i);
            names.push(n);
            assert(names@.len() == prev.len() + 1);
            assert(names@[i as int] == n);
            assert(names@.map_values(|x: String| x@) =~= names_of(before@).take(i + 1));
            i += 1;
        }
        assert(names_of(before@).take(before@.len() as int) =~= names_of(before@));
        AppearWatch { before: names, mode_attempted: false }
    }

    /// One look at the output list, `elapsed_ms` after the create.
    pub fn observe(&mut self, outputs: &[OutputSnapshot], elapsed_ms: u64) -> (r: AppearStep)
        ensures
            ({
                let outs = outputs@.map_values(|o: OutputSnapshot| snapshot_view(o));
                let res = scan_new(old(self)@.0, old(self)@.1, None, outs, 0);
                &&& final(self)@ == (old(self)@.0, res.2)
                &&& opt_string(r.set_mode) == res.0
                &&& match res.1 {
                    Some(k) => r.outcome matches AppearOutcome::Appeared(o) && snapshot_view(o)
                        == outs[k],
                    None => if elapsed_ms >= APPEAR_DEADLINE_MS {
                        r.outcome is TimedOut
                    } else {
                        r.outcome is Pending
                    },
                }
            }),
    {
        let ghost outs = outputs@.map_values(|o: OutputSnapshot| snapshot_view(o));
        let ghost before = self@.0;
        let ghost start = self@.1;
        let mut attempted = self.mode_attempted;
        let mut mode: Option<String> = None;
        let mut i: usize = 0;
        let mut found: Option<usize> = None;
        while i < outputs.len()
            invariant_except_break
                found is None,
                scan_new(before, start, None, outs, 0) == scan_new(
                    before,
                    attempted,
                    opt_string(mode),
                    outs,
                    i as int,
                ),
            invariant
                i <= outputs@.len(),
                outs == outputs@.map_values(|o: OutputSnapshot| snapshot_view(o)),
                before == self.before@.map_values(|n: String| n@),
            ensures
                found matches Some(k) ==> k < outputs@.len() && scan_new(before, start, None, outs, 0)
                    == (opt_string(mode), Some(k as int), attempted),
                found is None ==> scan_new(before, start, None, outs, 0) == (
                    opt_string(mode),
                    None::<int>,
                    attempted,
                ),
            decreases outputs@.len() - i,
        {
            let o = &outputs[i];
            assert(outs[i as int] == snapshot_view(outputs@[i as int]));
            if names_contain(&self.before, &o.name) {
                i += 1;
            } else if !attempted {
                attempted = true;
                mode = Some(o.name.clone());
                i += 1;
            } else if o.width > 0 && o.height > 0 {
                found = Some(i);
                break;
            } else {
                i += 1;
            }
        }
        proof {
            lemma_scan_new(before, start, None, outs, 0);
        }
        self.mode_attempted = attempted;
        let outcome = match found {
            Some(k) => {
                let o = &outputs[k];
                let copy = OutputSnapshot { name: o.name.clone(), width: o.width, height: o.height };
                assert(snapshot_view(copy) == outs[k as int]);
                AppearOutcome::Appeared(copy)
            },
            None => if elapsed_ms >= 5000 {
                AppearOutcome::TimedOut
            } else {
                AppearOutcome::Pending
            },
        };
        AppearStep { set_mode: mode, outcome }
    }
}

/// A virtual output created through the compositor's IPC. The caller
/// removes it with [`WlrootsVirtualOutput::remove_request`] when done.
#[derive(Debug, Clone)]
pub struct WlrootsVirtualOutput {
    ipc: Ipc,
    name: String,
    width: u32,
    height: u32,
}

impl WlrootsVirtualOutput {
    pub closed spec fn spec_ipc(self) -> Ipc {
        self.ipc
    }

    pub closed spec fn spec_output(self) -> (Seq<char>, u32, u32) {
        (self.name@, self.width, self.height)
    }

    /// The output that the wait ended with, on the IPC that created it.
    pub fn adopt(ipc: Ipc, output: OutputSnapshot) -> (r: Self)
        ensures
            r.spec_ipc() == ipc,
            r.spec_output() == snapshot_view(output),
    {
        WlrootsVirtualOutput { ipc, name: output.name, width: output.width, height: output.height }
    }

    pub fn name(&self) -> (r: &str)
        ensures
            r@ == self.spec_output().0,
    {
        self.name.as_str()
    }

    pub fn dimensions(&self) -> (r: (u32, u32))
        ensures
            r == (self.spec_output().1, self.spec_output().2),
    {
        (self.width, self.height)
    }

    pub fn ipc(&self) -> (r: &Ipc)
        ensures
            *r == self.spec_ipc(),
    {
        &self.ipc
    }

    /// The command that removes this output.
    pub fn remove_request(&self) -> (r: Result<String, WlrootsVirtualOutputError>)
        ensures
            string_result_view(r) == spec_remove_request(
                ipc_view(self.spec_ipc()).0,
                self.spec_output().0,
            ),
    {
        remove_request(self.ipc.kind(), self.name.as_str())
    }
}

} // verus!
