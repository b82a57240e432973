//! Screen capture: the backends, the user's preference among them, the
//! choice of the path to open, and the frame arithmetic that the backends
//! share (packing rows out of a padded buffer, a cheap change-detection hash).
use vstd::prelude::*;

use crate::text::chars_eq_str;
use crate::text::chars_of;
use crate::text::{decimal_of, push_decimal, string_from};
use crate::wlroots::str_debug_quoted;

verus! {

broadcast use vstd::string::group_string_axioms;

#[derive(Debug, Clone, Copy, PartialEq, Eq, Structural)]
pub enum CaptureBackend {
    X11,
    Wayland,
    KwinVirtual,
}

/// User preference for the capture path (config `[capture] preferred`).
#[derive(Debug, Clone, Copy, PartialEq, Eq, Structural)]
pub enum CapturePreference {
    /// KDE Wayland: KWin virtual display, then the portal; X11: root capture.
    Auto,
    /// Always create a KWin virtual monitor (fails on non-KDE compositors).
    KwinVirtual,
    /// Always ask through the xdg-desktop-portal share dialog.
    Portal,
    /// Show the real desktop instead of a virtual monitor: the portal share
    /// dialog picks the screen to mirror.
    Mirror,
}

pub open spec fn spec_parse_preference(value: Seq<char>) -> CapturePreference {
    if value == "kwin-virtual"@ {
        CapturePreference::KwinVirtual
    } else if value == "portal"@ {
        CapturePreference::Portal
    } else if value == "mirror"@ {
        CapturePreference::Mirror
    } else {
        CapturePreference::Auto
    }
}

impl CapturePreference {
    /// The preference a configuration value names; anything unknown is
    /// `Auto`.
    pub fn parse(value: &str) -> (r: Self)
        ensures
            r == spec_parse_preference(value@),
    {
        let v = chars_of(value);
        if chars_eq_str(v.as_slice(), "kwin-virtual") {
            CapturePreference::KwinVirtual
        } else if chars_eq_str(v.as_slice(), "portal") {
            CapturePreference::Portal
        } else if chars_eq_str(v.as_slice(), "mirror") {
            CapturePreference::Mirror
        } else {
            CapturePreference::Auto
        }
    }
}

#[derive(Debug, Clone, PartialEq, Eq)]
pub enum CaptureError {
    BackendUnavailable(&'static str),
    X11Connect(String),
    X11Protocol(u8),
    Io(String),
}

#[derive(Debug, Clone)]
pub struct CapturedFrame {
    pub width: u32,
    pub height: u32,
    pub data: Vec<u8>,
}

pub open spec fn frame_bytes(width: u32, height: u32) -> int {
    width as int * height as int * 4
}

impl CapturedFrame {
    /// The size of a tightly packed BGRA frame.
    pub fn size_in_bytes(width: u32, height: u32) -> (r: usize)
        requires
            frame_bytes(width, height) <= usize::MAX,
        ensures
            r == frame_bytes(width, height),
    {
        assert(width as int * height as int <= frame_bytes(width, height)) by (nonlinear_arith);
        (width as usize) * (height as usize) * 4
    }
}

/// An open capture session: which backend delivers it and at what size.
#[derive(Debug, Clone, Copy)]
pub struct CaptureSession {
    backend_kind: CaptureBackend,
    width: u32,
    height: u32,
    source_ended: bool,
}

impl CaptureSession {
    pub closed spec fn spec_backend(self) -> CaptureBackend {
        self.backend_kind
    }

    pub closed spec fn spec_width(self) -> u32 {
        self.width
    }

    pub closed spec fn spec_height(self) -> u32 {
        self.height
    }

    pub closed spec fn spec_source_ended(self) -> bool {
        self.source_ended
    }

    /// A session opened on `backend` at the size that the backend reported.
    pub fn opened(backend: CaptureBackend, width: u32, height: u32) -> (r: Self)
        ensures
            r.spec_backend() == backend,
            r.spec_width() == width,
            r.spec_height() == height,
            !r.spec_source_ended(),
    {
        CaptureSession { backend_kind: backend, width, height, source_ended: false }
    }

    /// Records that the capture source stopped for good (a KWin virtual
    /// output closed by the compositor).
    pub fn mark_source_ended(&mut self)
        ensures
            final(self).spec_source_ended(),
            final(self).spec_backend() == old(self).spec_backend(),
            final(self).spec_width() == old(self).spec_width(),
            final(self).spec_height() == old(self).spec_height(),
    {
        self.source_ended = true;
    }

    pub fn backend(&self) -> (r: CaptureBackend)
        ensures
            r == self.spec_backend(),
    {
        self.backend_kind
    }

    /// True when the capture source reached a terminal state and will not
    /// produce further frames; only a KWin virtual output can end.
    pub fn is_ended(&self) -> (r: bool)
        ensures
            r == (self.spec_backend() == CaptureBackend::KwinVirtual && self.spec_source_ended()),
    {
        match self.backend_kind {
            CaptureBackend::KwinVirtual => self.source_ended,
            CaptureBackend::X11 | CaptureBackend::Wayland => false,
        }
    }

    /// What asking an ended session for its next frame gives before any
    /// wait: the error that the stream was closed; `None` while the source
    /// still runs.
    pub fn ended_error(&self) -> (r: Option<CaptureError>)
        ensures
            match r {
                Some(CaptureError::Io(m)) => session_ended(*self) && m@
                    == "KWin virtual output stream was closed"@,
                Some(_) => false,
                None => !session_ended(*self),
            },
    {
        if self.is_ended() {
            Some(CaptureError::Io(string_from("KWin virtual output stream was closed")))
        } else {
            None
        }
    }

    pub fn width(&self) -> (r: u32)
        ensures
            r == self.spec_width(),
    {
        self.width
    }

    pub fn height(&self) -> (r: u32)
        ensures
            r == self.spec_height(),
    {
        self.height
    }
}

/// Whether the session's source reached its terminal state.
pub open spec fn session_ended(s: CaptureSession) -> bool {
    s.spec_backend() == CaptureBackend::KwinVirtual && s.spec_source_ended()
}

/// An ended session stays ended: `mark_source_ended`, the one call that
/// changes a session, leaves it ended, and its next frame is refused with the
/// closed-stream error. Only a KWin virtual output ever ends.
pub proof fn law_ended_session_is_terminal(before: CaptureSession, after: CaptureSession)
    requires
        after.spec_source_ended(),
        after.spec_backend() == before.spec_backend(),
    ensures
        session_ended(before) ==> session_ended(after),
        session_ended(after) <==> after.spec_backend() == CaptureBackend::KwinVirtual,
        before.spec_backend() != CaptureBackend::KwinVirtual ==> !session_ended(before),
{
}

/// The capture path that `open_with_preference` takes.
#[derive(Debug, Clone, Copy, PartialEq, Eq, Structural)]
pub enum OpenPlan {
    /// Capture the X11 root window.
    X11Root,
    /// Create a KWin virtual display; on failure use the portal.
    KwinThenPortal,
    /// Create a KWin virtual display, nothing else.
    KwinOnly,
    /// Ask the screencast portal (for a virtual monitor or a real screen).
    Portal,
    /// Refuse: the preference needs a Wayland session.
    Unavailable(CaptureUnavailable),
}

#[derive(Debug, Clone, Copy, PartialEq, Eq, Structural)]
pub enum CaptureUnavailable {
    KwinNeedsWayland,
    PortalNeedsWayland,
}

impl CaptureUnavailable {
    /// The message that the refusal carries.
    pub fn message(self) -> (r: &'static str)
        ensures
            r@ == (match self {
                CaptureUnavailable::KwinNeedsWayland => "kwin-virtual capture requires a Wayland session"@,
                CaptureUnavailable::PortalNeedsWayland => "portal capture requires a Wayland session"@,
            }),
    {
        match self {
            CaptureUnavailable::KwinNeedsWayland => "kwin-virtual capture requires a Wayland session",
            CaptureUnavailable::PortalNeedsWayland => "portal capture requires a Wayland session",
        }
    }
}

pub open spec fn spec_open_plan(on_wayland: bool, preference: CapturePreference) -> OpenPlan {
    if !on_wayland {
        match preference {
            CapturePreference::Auto => OpenPlan::X11Root,
            CapturePreference::KwinVirtual => OpenPlan::Unavailable(
                CaptureUnavailable::KwinNeedsWayland,
            ),
            _ => OpenPlan::Unavailable(CaptureUnavailable::PortalNeedsWayland),
        }
    } else {
        match preference {
            CapturePreference::Auto => OpenPlan::KwinThenPortal,
            CapturePreference::KwinVirtual => OpenPlan::KwinOnly,
            _ => OpenPlan::Portal,
        }
    }
}

/// The capture path for a preference, in a Wayland session or not.
pub fn open_plan(on_wayland: bool, preference: CapturePreference) -> (r: OpenPlan)
    ensures
        r == spec_open_plan(on_wayland, preference),
{
    if !on_wayland {
        match preference {
            CapturePreference::Auto => OpenPlan::X11Root,
            CapturePreference::KwinVirtual => OpenPlan::Unavailable(
                CaptureUnavailable::KwinNeedsWayland,
            ),
            CapturePreference::Portal | CapturePreference::Mirror => OpenPlan::Unavailable(
                CaptureUnavailable::PortalNeedsWayland,
            ),
        }
    } else {
        match preference {
            CapturePreference::Auto => OpenPlan::KwinThenPortal,
            CapturePreference::KwinVirtual => OpenPlan::KwinOnly,
            CapturePreference::Portal | CapturePreference::Mirror => OpenPlan::Portal,
        }
    }
}

/// The backend to expect: Wayland where `WAYLAND_DISPLAY` is set, else X11.
pub fn detect_backend(wayland_display_set: bool) -> (r: CaptureBackend)
    ensures
        r == (if wayland_display_set {
            CaptureBackend::Wayland
        } else {
            CaptureBackend::X11
        }),
{
    if wayland_display_set {
        CaptureBackend::Wayland
    } else {
        CaptureBackend::X11
    }
}

/// Row `row` of a tightly packed frame assembled from `src`: the first
/// `width * 4` bytes of the source row that starts at `row * stride`, with
/// the alpha byte of each pixel forced opaque for a premultiplied (XRGB)
/// source.
pub open spec fn assembled_byte(
    src: Seq<u8>,
    width: int,
    stride: int,
    premultiplied: bool,
    k: int,
) -> u8 {
    let row = k / (width * 4);
    let col = k % (width * 4);
    if premultiplied && col % 4 == 3 {
        0xFF
    } else {
        src[row * stride + col]
    }
}

/// Whether every row of the frame lies inside `src`.
pub open spec fn rows_fit(src_len: int, width: int, height: int, stride: int) -> bool {
    height == 0 || (height - 1) * stride + width * 4 <= src_len
}

/// Copies the rows of a `width`x`height` frame out of a buffer whose rows are
/// `stride` bytes apart. Fails (`false`) when `dst` is not exactly the frame's
/// size or when `src` is too short for the rows; on success `dst` holds the
/// packed frame.
pub fn assemble_frame_rows(
    dst: &mut [u8],
    src: &[u8],
    width: u32,
    height: u32,
    stride: u32,
    premultiplied: bool,
) -> (r: bool)
    requires
        frame_bytes(width, height) <= usize::MAX,
        height as int * stride as int + width as int * 4 <= usize::MAX,
    ensures
        r == (old(dst)@.len() == frame_bytes(width, height) && rows_fit(
            src@.len() as int,
            width as int,
            height as int,
            stride as int,
        )),
        final(dst)@.len() == old(dst)@.len(),
        old(dst)@.len() != frame_bytes(width, height) ==> final(dst)@ == old(dst)@,
        old(dst)@.len() == frame_bytes(width, height) ==> forall|k: int|
            0 <= k < final(dst)@.len() ==> #[trigger] final(dst)@[k] == if row_written(
                src@.len() as int,
                width as int,
                stride as int,
                k,
            ) {
                assembled_byte(src@, width as int, stride as int, premultiplied, k)
            } else {
                old(dst)@[k]
            },
        r ==> forall|k: int|
            0 <= k < final(dst)@.len() ==> #[trigger] final(dst)@[k] == assembled_byte(
                src@,
                width as int,
                stride as int,
                premultiplied,
                k,
            ),
{
    let row_bytes = (width as usize) * 4;
    assert((width as int * 4) * height as int == frame_bytes(width, height)) by (nonlinear_arith);
    let expected = row_bytes * (height as usize);
    if dst.len() != expected {
        return false;
    }
    let step = stride as usize;
    let mut row: usize = 0;
    while row < height as usize
        invariant
            row <= height,
            row_bytes == width as int * 4,
            expected == row_bytes * height as int,
            dst@.len() == expected,
            height as int * step as int + row_bytes <= usize::MAX,
            old(dst)@.len() == expected,
            step == stride,
            expected == frame_bytes(width, height),
            row > 0 ==> (row - 1) * step + row_bytes <= src@.len(),
            forall|k: int| row * row_bytes <= k < expected ==> #[trigger] dst@[k] == old(dst)@[k],
            forall|k: int|
                0 <= k < row * row_bytes ==> #[trigger] dst@[k] == assembled_byte(
                    src@,
                    width as int,
                    stride as int,
                    premultiplied,
                    k,
                ),
        decreases height - row,
    {
        assert(row * step <= height * step) by (nonlinear_arith)
            requires
                row <= height,
        ;
        let start = row * step;
        let end = start + row_bytes;
        if end > src.len() {
            proof {
                assert(row * step <= (height - 1) * step) by (nonlinear_arith)
                    requires
                        row <= height - 1,
                ;
                assert(start + row_bytes > src@.len());
                assert(!rows_fit(src@.len() as int, width as int, height as int, stride as int));
                assert forall|k: int| 0 <= k < dst@.len() implies #[trigger] dst@[k] == if row_written(
                    src@.len() as int,
                    width as int,
                    stride as int,
                    k,
                ) {
                    assembled_byte(src@, width as int, stride as int, premultiplied, k)
                } else {
                    old(dst)@[k]
                } by {
                    if k < row * row_bytes {
                        lemma_rows_before(src@.len() as int, row_bytes as int, step as int, row as int, k);
                    } else {
                        lemma_rows_after(src@.len() as int, row_bytes as int, step as int, row as int, k);
                    }
                }
            }
            return false;
        }
        assert(row * row_bytes + row_bytes <= expected) by (nonlinear_arith)
            requires
                row + 1 <= height,
                expected == row_bytes * height,
        ;
        let base = row * row_bytes;
        assert(base == row * row_bytes);
        let mut c: usize = 0;
        while c < row_bytes
            invariant
                c <= row_bytes,
                base == row * row_bytes,
                base + row_bytes <= expected,
                dst@.len() == expected,
                start == row * step,
                step == stride,
                start + row_bytes <= src@.len(),
                start + row_bytes <= usize::MAX,
                row_bytes == width as int * 4,
                forall|k: int| base + c <= k < expected ==> #[trigger] dst@[k] == old(dst)@[k],
                forall|k: int|
                    0 <= k < base + c ==> #[trigger] dst@[k] == assembled_byte(
                        src@,
                        width as int,
                        stride as int,
                        premultiplied,
                        k,
                    ),
            decreases row_bytes - c,
        {
            let v = if premultiplied && c % 4 == 3 {
                0xFFu8
            } else {
                src[start + c]
            };
            proof {
                let k = base + c;
                assert(k / (row_bytes as int) == row && k % (row_bytes as int) == c) by (nonlinear_arith)
                    requires
                        k == row * row_bytes + c,
                        0 <= c < row_bytes,
                ;
            }
            dst[base + c] = v;
            c += 1;
        }
        row += 1;
        assert(row * row_bytes == base + row_bytes) by (nonlinear_arith)
            requires
                base == (row - 1) * row_bytes,
        ;
    }
    proof {
        if height > 0 {
            assert((height - 1) * step + row_bytes <= src@.len());
        }
        assert(row * row_bytes == expected) by (nonlinear_arith)
            requires
                row == height,
                expected == row_bytes * height,
        ;
        assert forall|k: int| 0 <= k < dst@.len() implies row_written(
            src@.len() as int,
            width as int,
            stride as int,
            k,
        ) by {
            lemma_rows_before(src@.len() as int, row_bytes as int, step as int, row as int, k);
        }
    }
    true
}

/// Whether byte `k` of a packed frame lies in a row that `src` holds in full,
/// with every row before it: the rows that are copied before a short one.
pub open spec fn row_written(src_len: int, width: int, stride: int, k: int) -> bool {
    rows_fit(src_len, width, k / (width * 4) + 1, stride)
}

proof fn lemma_rows_before(len: int, rb: int, stride: int, row: int, k: int)
    requires
        rb > 0,
        stride >= 0,
        0 <= k < row * rb,
        (row - 1) * stride + rb <= len,
    ensures
        (k / rb) * stride + rb <= len,
{
    assert(k / rb <= row - 1) by (nonlinear_arith)
        requires
            0 <= k < row * rb,
            rb > 0,
    ;
    assert((k / rb) * stride <= (row - 1) * stride) by (nonlinear_arith)
        requires
            k / rb <= row - 1,
            stride >= 0,
    ;
}

proof fn lemma_rows_after(len: int, rb: int, stride: int, row: int, k: int)
    requires
        rb > 0,
        stride >= 0,
        k >= row * rb,
        row * stride + rb > len,
    ensures
        (k / rb) * stride + rb > len,
{
    assert(k / rb >= row) by (nonlinear_arith)
        requires
            k >= row * rb,
            rb > 0,
    ;
    assert((k / rb) * stride >= row * stride) by (nonlinear_arith)
        requires
            k / rb >= row,
            stride >= 0,
    ;
}

/// The little-endian value of the eight bytes of `data` from `off` on.
pub open spec fn le_u64(data: Seq<u8>, off: int, k: int) -> int
    decreases 8 - k,
{
    if k >= 8 {
        0
    } else {
        data[off + k] + 256 * le_u64(data, off, k + 1)
    }
}

pub open spec fn wmul(x: u64, y: u64) -> u64 {
    vstd::wrapping::u64_specs::wrapping_mul(x, y)
}

pub open spec fn fnv_prime() -> u64 {
    0x0000_0100_0000_01b3
}

pub open spec fn second_prime() -> u64 {
    0x8da0_b8e1_8098_b5d5
}

/// The two lanes after the first `n` whole 16-byte blocks.
pub open spec fn hash_blocks(data: Seq<u8>, n: nat) -> (u64, u64)
    decreases n,
{
    if n == 0 {
        (0xcbf2_9ce4_8422_2325u64, 0x9e37_79b9_7f4a_7c15u64)
    } else {
        let (a, b) = hash_blocks(data, (n - 1) as nat);
        let off = 16 * (n - 1);
        (
            wmul(a ^ (le_u64(data, off, 0) as u64), fnv_prime()),
            wmul(b ^ (le_u64(data, off + 8, 0) as u64), second_prime()),
        )
    }
}

/// The two lanes after the tail bytes from `start` up to `i`.
pub open spec fn hash_tail(data: Seq<u8>, start: int, i: int) -> (u64, u64)
    decreases i - start,
{
    if i <= start {
        hash_blocks(data, (start / 16) as nat)
    } else {
        let (a, b) = hash_tail(data, start, i - 1);
        (wmul(a ^ (data[i - 1] as u64), fnv_prime()), wmul(b ^ (data[i - 1] as u64), fnv_prime()))
    }
}

/// The frame hash: two lanes over the 16-byte blocks, then over the tail
/// bytes one at a time, each lane finally mixed with the length.
pub open spec fn frame_hash(data: Seq<u8>) -> Seq<u64> {
    let start = (data.len() / 16) * 16;
    let (a, b) = hash_tail(data, start as int, data.len() as int);
    seq![a ^ (data.len() as u64), b ^ (data.len() as u64)]
}

fn read_le_u64(data: &[u8], off: usize) -> (r: u64)
    requires
        off + 8 <= data@.len(),
    ensures
        r == le_u64(data@, off as int, 0),
{
    let mut acc: u64 = 0;
    let mut k: usize = 8;
    while k > 0
        invariant
            k <= 8,
            off + 8 <= data.len(),
            acc == le_u64(data@, off as int, k as int),
            acc < pow256(8 - k),
        decreases k,
    {
        k -= 1;
        proof {
            lemma_pow256_pos(8 - (k + 1));
            lemma_pow256_mono(8 - k);
            lemma_pow256_eight();
        }
        assert(acc * 256 + data@[off + k] < pow256(8 - k)) by (nonlinear_arith)
            requires
                acc < pow256(8 - (k + 1)),
                data@[off + k] < 256,
                pow256(8 - k) == 256 * pow256(8 - (k + 1)),
        ;
        acc = acc * 256 + data[off + k] as u64;
    }
    acc
}

proof fn lemma_pow256_pos(n: int)
    requires
        0 <= n,
    ensures
        1 <= pow256(n),
    decreases n,
{
    if n > 0 {
        lemma_pow256_pos(n - 1);
    }
}

proof fn lemma_pow256_mono(n: int)
    requires
        0 <= n <= 8,
    ensures
        pow256(n) <= pow256(8),
    decreases 8 - n,
{
    if n < 8 {
        lemma_pow256_mono(n + 1);
        lemma_pow256_pos(n);
    }
}

proof fn lemma_pow256_eight()
    ensures
        pow256(8) == 18446744073709551616,
{
    reveal_with_fuel(pow256, 9);
}

pub open spec fn pow256(n: int) -> int
    decreases n,
{
    if n <= 0 {
        1
    } else {
        256 * pow256(n - 1)
    }
}

/// A cheap 128-bit hash of a frame, used to skip frames that did not change.
pub fn fast_frame_hash(data: &[u8]) -> (r: [u64; 2])
    ensures
        r@ == frame_hash(data@),
{
    let mut a: u64 = 0xcbf2_9ce4_8422_2325;
    let mut b: u64 = 0x9e37_79b9_7f4a_7c15;
    let n = data.len();
    let blocks = n / 16;
    let mut i: usize = 0;
    while i < blocks
        invariant
            n == data@.len(),
            blocks == n / 16,
            i <= blocks,
            (a, b) == hash_blocks(data@, i as nat),
        decreases blocks - i,
    {
        let off = i * 16;
        let lo = read_le_u64(data, off);
        let hi = read_le_u64(data, off + 8);
        a = (a ^ lo).wrapping_mul(0x0000_0100_0000_01b3);
        b = (b ^ hi).wrapping_mul(0x8da0_b8e1_8098_b5d5);
        i += 1;
    }
    let start = blocks * 16;
    let mut j = start;
    assert(start as int / 16 == i);
    while j < n
        invariant
            n == data@.len(),
            start == (n / 16) * 16,
            start <= j <= n,
            (a, b) == hash_tail(data@, start as int, j as int),
        decreases n - j,
    {
        let byte = data[j] as u64;
        a = (a ^ byte).wrapping_mul(0x0000_0100_0000_01b3);
        b = (b ^ byte).wrapping_mul(0x0000_0100_0000_01b3);
        j += 1;
    }
    a = a ^ (n as u64);
    b = b ^ (n as u64);
    let r = [a, b];
    assert(r@ =~= frame_hash(data@));
    r
}

pub open spec fn capture_error_text(e: CaptureError) -> Seq<char> {
    match e {
        CaptureError::BackendUnavailable(m) => "capture backend unavailable: "@ + m@,
        CaptureError::X11Connect(m) => "x11 connection error: "@ + m@,
        CaptureError::X11Protocol(code) => "x11 protocol error code "@ + decimal_of(code as nat),
        CaptureError::Io(m) => "capture I/O error: "@ + m@,
    }
}

impl CaptureError {
    /// The error's message.
    pub fn message(&self) -> (r: String)
        ensures
            r@ == capture_error_text(*self),
    {
        match self {
            CaptureError::BackendUnavailable(m) => {
                let mut s = string_from("capture backend unavailable: ");
                s.append(m);
                s
            },
            CaptureError::X11Connect(m) => {
                let mut s = string_from("x11 connection error: ");
                s.append(m.as_str());
                s
            },
            CaptureError::X11Protocol(code) => {
                let mut s = string_from("x11 protocol error code ");
                push_decimal(&mut s, *code as u64);
                s
            },
            CaptureError::Io(m) => {
                let mut s = string_from("capture I/O error: ");
                s.append(m.as_str());
                s
            },
        }
    }
}

/// Whether a frame repeats the last one, by hash; the hash is kept for the
/// next frame either way.
pub open spec fn spec_unchanged(last_hash: Option<[u64; 2]>, hash: [u64; 2]) -> bool {
    match last_hash {
        Some(h) => h@ == hash@,
        None => false,
    }
}

/// Booking a frame: whether it repeats the last one, and the hash kept.
pub open spec fn spec_book(last_hash: Option<[u64; 2]>, hash: [u64; 2]) -> (bool, Option<[u64; 2]>) {
    (spec_unchanged(last_hash, hash), Some(hash))
}

pub fn frame_is_unchanged(last_hash: &mut Option<[u64; 2]>, hash: [u64; 2]) -> (r: bool)
    ensures
        (r, *final(last_hash)) == spec_book(*old(last_hash), hash),
{
    let unchanged = match last_hash {
        Some(h) => h[0] == hash[0] && h[1] == hash[1],
        None => false,
    };
    proof {
        if let Some(h) = *old(last_hash) {
            if h[0] == hash[0] && h[1] == hash[1] {
                assert(h@ =~= hash@);
            }
        }
    }
    *last_hash = Some(hash);
    unchanged
}

/// An X11 image must hold at least the frame's bytes: checked for the
/// MIT-SHM segment (`shm`) and for a plain `GetImage` reply.
pub fn check_image_size(got: usize, expected: usize, shm: bool) -> (r: Result<(), CaptureError>)
    ensures
        got >= expected ==> r is Ok,
        got < expected ==> (r matches Err(CaptureError::Io(m)) && m@ == (if shm {
            "shm GetImage wrote "@ + decimal_of(got as nat) + " B, expected "@ + decimal_of(
                expected as nat,
            ) + " B"@
        } else {
            "GetImage reply truncated: need "@ + decimal_of(expected as nat) + " B, have "@
                + decimal_of(got as nat)
        })),
{
    if got >= expected {
        return Ok(());
    }
    let mut m = String::new();
    if shm {
        m.append("shm GetImage wrote ");
        push_decimal(&mut m, got as u64);
        m.append(" B, expected ");
        push_decimal(&mut m, expected as u64);
        m.append(" B");
    } else {
        m.append("GetImage reply truncated: need ");
        push_decimal(&mut m, expected as u64);
        m.append(" B, have ");
        push_decimal(&mut m, got as u64);
    }
    Err(CaptureError::Io(m))
}

/// The size of a screencopy frame, where its buffer can hold it: rows of
/// `width * 4` bytes no wider than the stride, and `height` of them within
/// the mapping.
pub fn screencopy_frame_len(width: u32, height: u32, stride: u32, mapping_len: usize) -> (r: Option<
    usize,
>)
    ensures
        ({
            let row = width as int * 4;
            let len = row * height as int;
            &&& (len <= usize::MAX && row <= stride && len <= mapping_len) ==> r == Some(len as usize)
            &&& !(len <= usize::MAX && row <= stride && len <= mapping_len) ==> r is None
        }),
{
    let row: u64 = (width as u64) * 4;
    let len: u64 = match row.checked_mul(height as u64) {
        Some(l) => l,
        None => {
            return None;
        },
    };
    if len > usize::MAX as u64 {
        return None;
    }
    if row > stride as u64 || len as usize > mapping_len {
        return None;
    }
    Some(len as usize)
}

#[derive(Debug, Clone, Default)]
pub struct WlrScreencopySpec {
    pub output_name: Option<String>,
}

#[derive(Debug, Clone)]
pub enum WlrScreencopyError {
    ProtocolUnavailable,
    ShmUnavailable,
    NoOutputs,
    OutputNotFound(String),
    UnsupportedFormat,
    Timeout,
    FrameFailed,
    Wayland(String),
}

pub open spec fn screencopy_error_text(e: WlrScreencopyError) -> Seq<char> {
    match e {
        WlrScreencopyError::ProtocolUnavailable => "zwlr_screencopy_manager_v1 is not available: this compositor is not wlroots-based (or the protocol is disabled)"@,
        WlrScreencopyError::ShmUnavailable => "no wl_shm global: cannot allocate shared buffers"@,
        WlrScreencopyError::NoOutputs => "no wl_output global is available to capture"@,
        WlrScreencopyError::OutputNotFound(n) => "no output named "@ + crate::wlroots::str_debug(n@)
            + " was advertised by the compositor"@,
        WlrScreencopyError::UnsupportedFormat => "the compositor does not offer an XRGB8888/ARGB8888 shm format"@,
        WlrScreencopyError::Timeout => "timed out waiting for output metadata"@,
        WlrScreencopyError::FrameFailed => "compositor aborted the screencopy frame"@,
        WlrScreencopyError::Wayland(m) => "wayland error: "@ + m@,
    }
}

impl WlrScreencopyError {
    /// The error's message.
    pub fn message(&self) -> (r: String)
        ensures
            r@ == screencopy_error_text(*self),
    {
        match self {
            WlrScreencopyError::ProtocolUnavailable => string_from(
                "zwlr_screencopy_manager_v1 is not available: this compositor is not wlroots-based (or the protocol is disabled)",
            ),
            WlrScreencopyError::ShmUnavailable => string_from(
                "no wl_shm global: cannot allocate shared buffers",
            ),
            WlrScreencopyError::NoOutputs => string_from("no wl_output global is available to capture"),
            WlrScreencopyError::OutputNotFound(n) => {
                let mut s = string_from("no output named ");
                let q = str_debug_quoted(n.as_str());
                s.append(q.as_str());
                s.append(" was advertised by the compositor");
                s
            },
            WlrScreencopyError::UnsupportedFormat => string_from(
                "the compositor does not offer an XRGB8888/ARGB8888 shm format",
            ),
            WlrScreencopyError::Timeout => string_from("timed out waiting for output metadata"),
            WlrScreencopyError::FrameFailed => string_from("compositor aborted the screencopy frame"),
            WlrScreencopyError::Wayland(m) => {
                let mut s = string_from("wayland error: ");
                s.append(m.as_str());
                s
            },
        }
    }
}

#[derive(Debug, Clone)]
pub struct WaylandCaptureSpec {
    pub width: u32,
    pub height: u32,
}

#[derive(Debug, Clone)]
pub enum WaylandCaptureError {
    PortalUnavailable(String),
    Dbus(String),
    PermissionDenied,
    NoStreams,
}

pub open spec fn portal_error_text(e: WaylandCaptureError) -> Seq<char> {
    match e {
        WaylandCaptureError::PortalUnavailable(m) => "screencast portal not available: "@ + m@,
        WaylandCaptureError::Dbus(m) => "portal D-Bus error: "@ + m@,
        WaylandCaptureError::PermissionDenied => "user denied the ScreenCast permission"@,
        WaylandCaptureError::NoStreams => "portal returned no streams"@,
    }
}

impl WaylandCaptureError {
    /// The error's message.
    pub fn message(&self) -> (r: String)
        ensures
            r@ == portal_error_text(*self),
    {
        match self {
            WaylandCaptureError::PortalUnavailable(m) => {
                let mut s = string_from("screencast portal not available: ");
                s.append(m.as_str());
                s
            },
            WaylandCaptureError::Dbus(m) => {
                let mut s = string_from("portal D-Bus error: ");
                s.append(m.as_str());
                s
            },
            WaylandCaptureError::PermissionDenied => string_from("user denied the ScreenCast permission"),
            WaylandCaptureError::NoStreams => string_from("portal returned no streams"),
        }
    }
}

/// A frame that repeats the one before it is found unchanged, whatever
/// came before that; a frame with another hash is not.
pub proof fn law_repeated_frame_is_skipped(last_hash: Option<[u64; 2]>, hash: [u64; 2], next: [u64; 2])
    ensures
        spec_book(spec_book(last_hash, hash).1, hash).0,
        next@ != hash@ ==> !spec_book(spec_book(last_hash, hash).1, next).0,
{
}

/// The size of a frame from a media sample whose caps give `width` and
/// `height`: kept only where the buffer holds exactly `width * height * 4`
/// bytes (the dimensions taken as `usize`).
pub fn sample_frame_size(width: i32, height: i32, size: usize) -> (r: Option<(u32, u32)>)
    requires
        (width as usize) as int * (height as usize) as int * 4 <= usize::MAX,
    ensures
        r == (if size as int == (width as usize) as int * (height as usize) as int * 4 {
            Some((width as u32, height as u32))
        } else {
            None
        }),
{
    let w = width as usize;
    let h = height as usize;
    assert(w as int * h as int <= w as int * h as int * 4) by (nonlinear_arith)
        requires
            w as int * h as int >= 0,
    ;
    let expected = w * h * 4;
    if size != expected {
        return None;
    }
    Some((width as u32, height as u32))
}

/// In a Wayland session an explicit portal or mirror preference asks the
/// portal, an explicit KWin preference creates the KWin display with no
/// fallback, and only `Auto` tries KWin first and falls back to the portal.
/// Outside Wayland only `Auto` captures (the X11 root window); the others
/// are refused with the reason.
pub proof fn law_open_plan_follows_preference(on_wayland: bool, preference: CapturePreference)
    ensures
        ({
            let p = spec_open_plan(on_wayland, preference);
            &&& on_wayland && (preference == CapturePreference::Portal || preference
                == CapturePreference::Mirror) ==> p == OpenPlan::Portal
            &&& on_wayland && preference == CapturePreference::KwinVirtual ==> p
                == OpenPlan::KwinOnly
            &&& (p == OpenPlan::KwinThenPortal) <==> (on_wayland && preference
                == CapturePreference::Auto)
            &&& (p == OpenPlan::X11Root) <==> (!on_wayland && preference == CapturePreference::Auto)
            &&& !on_wayland && preference == CapturePreference::KwinVirtual ==> p
                == OpenPlan::Unavailable(CaptureUnavailable::KwinNeedsWayland)
            &&& !on_wayland && (preference == CapturePreference::Portal || preference
                == CapturePreference::Mirror) ==> p == OpenPlan::Unavailable(
                CaptureUnavailable::PortalNeedsWayland,
            )
            &&& (p is Unavailable) <==> (!on_wayland && preference != CapturePreference::Auto)
        }),
{
}

} // verus!
