//! The evdi virtual display: the state of the kernel side, the frames that
//! come out of its framebuffer (packed into BGRA), and the EDID that
//! describes a display of a given size.
use vstd::prelude::*;

use crate::text::{
    all_digits, chars_of, chars_starts_with_str, dec_value, decimal_of, is_ascii_digit, lemma_dec_value_nonneg,
    parse_u32, parse_u32_exec,
    push_decimal, starts_with, string_from, sub_chars,
};

verus! {

broadcast use vstd::string::group_string_axioms;

/// How long opening waits for the compositor to set a mode.
pub const OPEN_MODE_TIMEOUT_MS: u64 = 3000;

/// How long one framebuffer update may take.
pub const UPDATE_BUFFER_TIMEOUT_MS: u64 = 50;

/// DRM fourcc codes of the pixel formats that frames are read in.
pub const FOURCC_XRGB8888: u32 = 875713112;

pub const FOURCC_ARGB8888: u32 = 875713089;

pub const FOURCC_RGB565: u32 = 909199186;

#[derive(Debug, Clone)]
pub enum DisplayError {
    KernelModuleMissing,
    KernelModuleOutdated,
    NoDeviceNode,
    OpenDevice(String),
    ModeTimeout,
    ChannelClosed,
    NoBuffer(String),
    UnsupportedFormat(String),
}

/// An error as plain values: its variant and message.
pub enum DisplayErrorView {
    KernelModuleMissing,
    KernelModuleOutdated,
    NoDeviceNode,
    OpenDevice(Seq<char>),
    ModeTimeout,
    ChannelClosed,
    NoBuffer(Seq<char>),
    UnsupportedFormat(Seq<char>),
}

pub open spec fn display_error_view(e: DisplayError) -> DisplayErrorView {
    match e {
        DisplayError::KernelModuleMissing => DisplayErrorView::KernelModuleMissing,
        DisplayError::KernelModuleOutdated => DisplayErrorView::KernelModuleOutdated,
        DisplayError::NoDeviceNode => DisplayErrorView::NoDeviceNode,
        DisplayError::OpenDevice(m) => DisplayErrorView::OpenDevice(m@),
        DisplayError::ModeTimeout => DisplayErrorView::ModeTimeout,
        DisplayError::ChannelClosed => DisplayErrorView::ChannelClosed,
        DisplayError::NoBuffer(m) => DisplayErrorView::NoBuffer(m@),
        DisplayError::UnsupportedFormat(m) => DisplayErrorView::UnsupportedFormat(m@),
    }
}

pub open spec fn display_error_text(e: DisplayError) -> Seq<char> {
    match e {
        DisplayError::KernelModuleMissing => "evdi kernel module is not installed"@,
        DisplayError::KernelModuleOutdated => "evdi kernel module is older than the linked libevdi requires"@,
        DisplayError::NoDeviceNode => "no evdi device node is available (try running with root to call evdi_device_add)"@,
        DisplayError::OpenDevice(m) => "failed to open evdi device node: "@ + m@,
        DisplayError::ModeTimeout => "timed out waiting for the compositor to publish a mode"@,
        DisplayError::ChannelClosed => "evdi event channel closed"@,
        DisplayError::NoBuffer(m) => "no evdi buffer registered: "@ + m@,
        DisplayError::UnsupportedFormat(m) => "unsupported evdi pixel format: "@ + m@,
    }
}

impl DisplayError {
    /// The error's message.
    pub fn message(&self) -> (r: String)
        ensures
            r@ == display_error_text(*self),
    {
        match self {
            DisplayError::KernelModuleMissing => string_from("evdi kernel module is not installed"),
            DisplayError::KernelModuleOutdated => string_from(
                "evdi kernel module is older than the linked libevdi requires",
            ),
            DisplayError::NoDeviceNode => string_from(
                "no evdi device node is available (try running with root to call evdi_device_add)",
            ),
            DisplayError::OpenDevice(m) => {
                let mut s = string_from("failed to open evdi device node: ");
                s.append(m.as_str());
                s
            },
            DisplayError::ModeTimeout => string_from(
                "timed out waiting for the compositor to publish a mode",
            ),
            DisplayError::ChannelClosed => string_from("evdi event channel closed"),
            DisplayError::NoBuffer(m) => {
                let mut s = string_from("no evdi buffer registered: ");
                s.append(m.as_str());
                s
            },
            DisplayError::UnsupportedFormat(m) => {
                let mut s = string_from("unsupported evdi pixel format: ");
                s.append(m.as_str());
                s
            },
        }
    }
}

#[derive(Debug, Clone, Copy, PartialEq, Eq, Structural)]
pub struct VirtualDisplaySpec {
    pub width: u32,
    pub height: u32,
    pub refresh_rate_hz: u32,
}

impl VirtualDisplaySpec {
    pub open spec fn spec_full_hd_60() -> VirtualDisplaySpec {
        VirtualDisplaySpec { width: 1920, height: 1080, refresh_rate_hz: 60 }
    }

    /// 1920x1080 at 60 Hz.
    pub fn full_hd_60() -> (r: VirtualDisplaySpec)
        ensures
            r == VirtualDisplaySpec::spec_full_hd_60(),
    {
        VirtualDisplaySpec { width: 1920, height: 1080, refresh_rate_hz: 60 }
    }
}

/// Whether the device is set up from evdi's bundled sample configuration
/// (1920x1080 at 60 Hz) rather than from an EDID made for the size.
pub fn uses_sample_config(spec: VirtualDisplaySpec) -> (r: bool)
    ensures
        r == (spec == VirtualDisplaySpec::spec_full_hd_60()),
{
    spec.width == 1920 && spec.height == 1080 && spec.refresh_rate_hz == 60
}

#[derive(Debug, Clone, Copy, PartialEq, Eq, Structural)]
pub enum DisplayStatus {
    Compatible,
    Outdated,
    KernelModuleMissing,
    NoDeviceNode,
}

/// What evdi reports of its kernel module.
#[derive(Debug, Clone, Copy, PartialEq, Eq, Structural)]
pub enum KernelModuleState {
    Compatible,
    Outdated,
    NotInstalled,
}

/// The display status: a compatible module with at least one free device
/// node is ready; without a node it waits for one.
pub fn display_status(kernel: KernelModuleState, nodes_available: bool) -> (r: DisplayStatus)
    ensures
        r == (match kernel {
            KernelModuleState::Compatible => if nodes_available {
                DisplayStatus::Compatible
            } else {
                DisplayStatus::NoDeviceNode
            },
            KernelModuleState::Outdated => DisplayStatus::Outdated,
            KernelModuleState::NotInstalled => DisplayStatus::KernelModuleMissing,
        }),
{
    match kernel {
        KernelModuleState::Compatible => if nodes_available {
            DisplayStatus::Compatible
        } else {
            DisplayStatus::NoDeviceNode
        },
        KernelModuleState::Outdated => DisplayStatus::Outdated,
        KernelModuleState::NotInstalled => DisplayStatus::KernelModuleMissing,
    }
}

/// The error that opening a display ends with for a status, if any.
pub fn open_refusal(status: DisplayStatus) -> (r: Option<DisplayError>)
    ensures
        match status {
            DisplayStatus::KernelModuleMissing => r matches Some(DisplayError::KernelModuleMissing),
            DisplayStatus::Outdated => r matches Some(DisplayError::KernelModuleOutdated),
            _ => r is None,
        },
{
    match status {
        DisplayStatus::KernelModuleMissing => Some(DisplayError::KernelModuleMissing),
        DisplayStatus::Outdated => Some(DisplayError::KernelModuleOutdated),
        _ => None,
    }
}

/// The card to open when none is named: the highest free one.
pub fn pick_highest_card(ids: &[i32]) -> (r: Option<i32>)
    ensures
        ids@.len() == 0 ==> r is None,
        ids@.len() > 0 ==> (r matches Some(m) && ids@.contains(m) && forall|i: int|
            0 <= i < ids@.len() ==> ids@[i] <= m),
{
    if ids.len() == 0 {
        return None;
    }
    let mut best = ids[0];
    let mut i: usize = 1;
    while i < ids.len()
        invariant
            1 <= i <= ids@.len(),
            ids@.contains(best),
            forall|k: int| 0 <= k < i ==> ids@[k] <= best,
        decreases ids@.len() - i,
    {
        if ids[i] > best {
            best = ids[i];
        }
        i += 1;
    }
    Some(best)
}

/// The DRM connector that card `device_index` shows up as.
pub fn drm_connector_name(device_index: u32) -> (r: String)
    requires
        device_index < u32::MAX,
    ensures
        r@ == "DVI-I-"@ + decimal_of((device_index + 1) as nat),
{
    let mut s = string_from("DVI-I-");
    push_decimal(&mut s, (device_index + 1) as u64);
    s
}

#[derive(Debug, Clone)]
pub struct OwnedFrame {
    pub width: u32,
    pub height: u32,
    pub data: Vec<u8>,
}

pub open spec fn frame_len(width: u32, height: u32) -> int {
    width as int * height as int * 4
}

impl OwnedFrame {
    /// The size of a packed BGRA frame.
    pub fn size_in_bytes(width: u32, height: u32) -> (r: usize)
        requires
            frame_len(width, height) <= usize::MAX,
        ensures
            r == frame_len(width, height),
    {
        assert(width as int * height as int <= frame_len(width, height)) by (nonlinear_arith);
        (width as usize) * (height as usize) * 4
    }
}

#[derive(Debug, Clone)]
pub struct EvdiPumpInfo {
    pub width: u32,
    pub height: u32,
    pub connector: Option<String>,
    pub device_index: u32,
}

/// What drm-fourcc makes of `code`: the format's fourcc text where it knows
/// the format, else the `Debug` form of the unrecognized code.
pub uninterp spec fn fourcc_text(code: u32) -> Result<Seq<char>, Seq<char>>;

/// A framebuffer's pixel format, as drm-fourcc reads its fourcc code.
#[derive(Debug, Clone)]
pub enum PixelFormat {
    Xrgb8888,
    Argb8888,
    Rgb565,
    /// Another format that drm-fourcc knows, by its fourcc text.
    Other(String),
    /// A code that drm-fourcc does not know, in `Debug` form.
    Unrecognized(String),
}

/// Whether the four little-endian bytes of `code` form one 4-byte UTF-8
/// sequence: drm-fourcc's text form of such a code reads one character
/// where it expects at least two, and panics.
pub open spec fn fourcc_is_one_wide_char(code: u32) -> bool {
    let b0 = code % 256;
    let b1 = (code / 256) % 256;
    let b2 = (code / 65536) % 256;
    let b3 = code / 16777216;
    &&& 0xF0 <= b0 <= 0xF4
    &&& 0x80 <= b1 <= 0xBF
    &&& 0x80 <= b2 <= 0xBF
    &&& 0x80 <= b3 <= 0xBF
    &&& b0 == 0xF0 ==> b1 >= 0x90
    &&& b0 == 0xF4 ==> b1 <= 0x8F
}

/// The formats that frames are read in.
pub open spec fn three_formats(code: u32) -> bool {
    code == FOURCC_XRGB8888 || code == FOURCC_ARGB8888 || code == FOURCC_RGB565
}

/// Calls `DrmFourcc::try_from(code)`. The three formats that frames are
/// read in are told apart by their codes (drm-fourcc's `DRM_FOURCC_*`
/// constants, which are the enum's discriminants); of any other code only
/// its text is named: `to_string` of the format, or `{:?}` of
/// `UnrecognizedFourcc`. That `Debug` form decodes the code's bytes as
/// UTF-8 and unwraps a second character, so a code that is one 4-byte
/// character is left out.
#[verifier::external_body]
fn pixel_format(code: u32) -> (r: PixelFormat)
    requires
        !fourcc_is_one_wide_char(code),
    ensures
        match r {
            PixelFormat::Xrgb8888 => code == FOURCC_XRGB8888,
            PixelFormat::Argb8888 => code == FOURCC_ARGB8888,
            PixelFormat::Rgb565 => code == FOURCC_RGB565,
            PixelFormat::Other(s) => !three_formats(code) && fourcc_text(code) == Ok::<
                Seq<char>,
                Seq<char>,
            >(s@),
            PixelFormat::Unrecognized(s) => !three_formats(code) && fourcc_text(code) == Err::<
                Seq<char>,
                Seq<char>,
            >(s@),
        },
{
    match drm_fourcc::DrmFourcc::try_from(code) {
        Ok(drm_fourcc::DrmFourcc::Xrgb8888) => PixelFormat::Xrgb8888,
        Ok(drm_fourcc::DrmFourcc::Argb8888) => PixelFormat::Argb8888,
        Ok(drm_fourcc::DrmFourcc::Rgb565) => PixelFormat::Rgb565,
        Ok(f) => PixelFormat::Other(f.to_string()),
        Err(e) => PixelFormat::Unrecognized(format!("{e:?}")),
    }
}

/// Byte `k` of a packed frame read from 32-bit pixels `stride` bytes apart.
pub open spec fn xrgb_byte(src: Seq<u8>, width: int, stride: int, k: int) -> u8 {
    src[(k / (width * 4)) * stride + k % (width * 4)]
}

/// The 8-bit BGRA pixel of a little-endian RGB565 pixel: each channel
/// widened by repeating its top bits (`(c << 3) | (c >> 2)` and the like),
/// alpha opaque.
pub open spec fn rgb565_pixel(lo: u8, hi: u8) -> Seq<u8> {
    let p = lo as int + 256 * hi as int;
    let r = p / 2048;
    let g = (p / 32) % 64;
    let b = p % 32;
    seq![(b * 8 + b / 4) as u8, (g * 4 + g / 16) as u8, (r * 8 + r / 4) as u8, 0xFFu8]
}

/// Byte `k` of a packed frame read from RGB565 pixels, rows `stride` bytes
/// apart.
pub open spec fn rgb565_byte(src: Seq<u8>, width: int, stride: int, k: int) -> u8 {
    let px = k / 4;
    let off = (px / width) * stride + (px % width) * 2;
    rgb565_pixel(src[off], src[off + 1])[k % 4]
}

/// The first row from `r` on that runs past `len` bytes, or `height`.
pub open spec fn first_short_row(len: int, row_bytes: int, stride: int, height: int, r: int) -> int
    decreases height - r,
{
    if r >= height {
        height
    } else if r * stride + row_bytes > len {
        r
    } else {
        first_short_row(len, row_bytes, stride, height, r + 1)
    }
}

/// What `to_tight_bgra` gives: the packed frame's bytes, or the error.
pub open spec fn spec_tight_bgra(
    src: Seq<u8>,
    stride: u32,
    width: u32,
    height: u32,
    fourcc: u32,
) -> Result<Seq<u8>, DisplayErrorView> {
    let n = frame_len(width, height);
    if fourcc == FOURCC_XRGB8888 || fourcc == FOURCC_ARGB8888 {
        let rb = width * 4;
        let r0 = first_short_row(src.len() as int, rb, stride as int, height as int, 0);
        if r0 < height {
            Err(
                DisplayErrorView::NoBuffer(
                    "framebuffer truncated: need "@ + decimal_of((r0 * stride + rb) as nat)
                        + " B, have "@ + decimal_of(src.len()),
                ),
            )
        } else {
            Ok(Seq::new(n as nat, |k: int| xrgb_byte(src, width as int, stride as int, k)))
        }
    } else if fourcc == FOURCC_RGB565 {
        if width > 0 && height > 0 && (height - 1) * stride + width * 2 > src.len() {
            Err(DisplayErrorView::NoBuffer("framebuffer truncated"@))
        } else {
            Ok(Seq::new(n as nat, |k: int| rgb565_byte(src, width as int, stride as int, k)))
        }
    } else {
        match fourcc_text(fourcc) {
            Ok(name) => Err(DisplayErrorView::UnsupportedFormat(name)),
            Err(debug) => Err(DisplayErrorView::UnsupportedFormat("unknown fourcc: "@ + debug)),
        }
    }
}

pub open spec fn frame_result_view(r: Result<OwnedFrame, DisplayError>) -> Result<
    Seq<u8>,
    DisplayErrorView,
> {
    match r {
        Ok(f) => Ok(f.data@),
        Err(e) => Err(display_error_view(e)),
    }
}

fn copy_rows(src: &[u8], stride: u32, width: u32, height: u32) -> (r: Result<
    Vec<u8>,
    DisplayError,
>)
    requires
        width as int * 4 <= u32::MAX,
        height as int * stride as int + width as int * 4 <= usize::MAX,
        frame_len(width, height) <= usize::MAX,
    ensures
        ({
            let rb = width * 4;
            let r0 = first_short_row(src@.len() as int, rb, stride as int, height as int, 0);
            match r {
                Ok(data) => r0 >= height && data@ == Seq::new(
                    frame_len(width, height) as nat,
                    |k: int| xrgb_byte(src@, width as int, stride as int, k),
                ),
                Err(e) => r0 < height && display_error_view(e) == DisplayErrorView::NoBuffer(
                    "framebuffer truncated: need "@ + decimal_of((r0 * stride + rb) as nat)
                        + " B, have "@ + decimal_of(src@.len()),
                ),
            }
        }),
{
    let row_bytes = (width * 4) as usize;
    let step = stride as usize;
    let mut data: Vec<u8> = Vec::new();
    let mut row: usize = 0;
    let ghost len = src@.len() as int;
    assert(first_short_row(len, row_bytes as int, step as int, height as int, 0) == first_short_row(
        len,
        row_bytes as int,
        step as int,
        height as int,
        0,
    ));
    while row < height as usize
        invariant
            row <= height,
            row_bytes == width * 4,
            step == stride,
            len == src@.len(),
            height as int * step as int + row_bytes <= usize::MAX,
            frame_len(width, height) <= usize::MAX,
            first_short_row(len, row_bytes as int, step as int, height as int, 0) == first_short_row(
                len,
                row_bytes as int,
                step as int,
                height as int,
                row as int,
            ),
            data@.len() == row * row_bytes,
            forall|k: int|
                0 <= k < row * row_bytes ==> #[trigger] data@[k] == xrgb_byte(
                    src@,
                    width as int,
                    stride as int,
                    k,
                ),
        decreases height - row,
    {
        assert(row * step <= height * step) by (nonlinear_arith)
            requires
                row <= height,
        ;
        let start = row * step;
        if start + row_bytes > src.len() {
            let mut m = string_from("framebuffer truncated: need ");
            push_decimal(&mut m, (start + row_bytes) as u64);
            m.append(" B, have ");
            push_decimal(&mut m, src.len() as u64);
            return Err(DisplayError::NoBuffer(m));
        }
        assert(row * row_bytes + row_bytes <= frame_len(width, height)) by (nonlinear_arith)
            requires
                row + 1 <= height,
                row_bytes == width * 4,
        ;
        let base = row * row_bytes;
        let mut c: usize = 0;
        while c < row_bytes
            invariant
                c <= row_bytes,
                row_bytes == width * 4,
                step == stride,
                base == row * row_bytes,
                start == row * step,
                start + row_bytes <= src@.len(),
                start + row_bytes <= usize::MAX,
                data@.len() == base + c,
                forall|k: int|
                    0 <= k < base + c ==> #[trigger] data@[k] == xrgb_byte(
                        src@,
                        width as int,
                        stride as int,
                        k,
                    ),
            decreases row_bytes - c,
        {
            proof {
                let k = base + c;
                assert(k / (row_bytes as int) == row && k % (row_bytes as int) == c)
                    by (nonlinear_arith)
                    requires
                        k == row * row_bytes + c,
                        0 <= c < row_bytes,
                ;
            }
            data.push(src[start + c]);
            c += 1;
        }
        row += 1;
        assert(row * row_bytes == base + row_bytes) by (nonlinear_arith)
            requires
                base == (row - 1) * row_bytes,
        ;
    }
    proof {
        assert(row * row_bytes == frame_len(width, height)) by (nonlinear_arith)
            requires
                row == height,
                row_bytes == width * 4,
        ;
        assert(data@ =~= Seq::new(
            frame_len(width, height) as nat,
            |k: int| xrgb_byte(src@, width as int, stride as int, k),
        ));
    }
    Ok(data)
}

fn widen5(c: u32) -> (r: u8)
    requires
        c < 32,
    ensures
        r == c * 8 + c / 4,
{
    (c * 8 + c / 4) as u8
}

fn widen6(c: u32) -> (r: u8)
    requires
        c < 64,
    ensures
        r == c * 4 + c / 16,
{
    (c * 4 + c / 16) as u8
}

fn convert_rgb565(src: &[u8], stride: u32, width: u32, height: u32) -> (r: Vec<u8>)
    requires
        width > 0 && height > 0 ==> (height - 1) * stride + width * 2 <= src@.len(),
        height as int * stride as int + width as int * 4 <= usize::MAX,
        frame_len(width, height) <= usize::MAX,
    ensures
        r@ == Seq::new(
            frame_len(width, height) as nat,
            |k: int| rgb565_byte(src@, width as int, stride as int, k),
        ),
{
    let w = width as usize;
    let step = stride as usize;
    let mut data: Vec<u8> = Vec::new();
    let mut row: usize = 0;
    while row < height as usize
        invariant
            row <= height,
            w == width,
            step == stride,
            width > 0 && height > 0 ==> (height - 1) * stride + width * 2 <= src@.len(),
            height as int * step as int + width as int * 4 <= usize::MAX,
            frame_len(width, height) <= usize::MAX,
            data@.len() == row * w * 4,
            forall|k: int|
                0 <= k < row * w * 4 ==> #[trigger] data@[k] == rgb565_byte(
                    src@,
                    width as int,
                    stride as int,
                    k,
                ),
        decreases height - row,
    {
        assert(row * step <= (height - 1) * step) by (nonlinear_arith)
            requires
                row <= height - 1,
        ;
        assert((height - 1) * step <= height * step) by (nonlinear_arith);
        let start = row * step;
        let mut col: usize = 0;
        while col < w
            invariant
                row < height,
                col <= w,
                w == width,
                step == stride,
                start == row * step,
                start <= (height - 1) * step,
                width > 0 && height > 0 ==> (height - 1) * stride + width * 2 <= src@.len(),
                height as int * step as int + width as int * 4 <= usize::MAX,
                frame_len(width, height) <= usize::MAX,
                data@.len() == (row * w + col) * 4,
                forall|k: int|
                    0 <= k < (row * w + col) * 4 ==> #[trigger] data@[k] == rgb565_byte(
                        src@,
                        width as int,
                        stride as int,
                        k,
                    ),
            decreases w - col,
        {
            assert(start + col * 2 + 2 <= src.len());
            let off = start + col * 2;
            let lo = src[off];
            let hi = src[off + 1];
            let p: u32 = lo as u32 + 256 * (hi as u32);
            let r5 = p / 2048;
            let g6 = (p / 32) % 64;
            let b5 = p % 32;
            let b8 = widen5(b5);
            let g8 = widen6(g6);
            let r8 = widen5(r5);
            assert((row * w + col + 1) * 4 <= frame_len(width, height)) by (nonlinear_arith)
                requires
                    row < height,
                    col < w,
                    w == width,
            ;
            let ghost before = data@;
            let ghost px = row * w + col;
            data.push(b8);
            data.push(g8);
            data.push(r8);
            data.push(0xFFu8);
            proof {
                assert(px / (w as int) == row && px % (w as int) == col) by (nonlinear_arith)
                    requires
                        px == row * w + col,
                        0 <= col < w,
                ;
                assert forall|k: int| 0 <= k < (px + 1) * 4 implies #[trigger] data@[k]
                    == rgb565_byte(src@, width as int, stride as int, k) by {
                    if k >= px * 4 {
                        assert(k / 4 == px);
                        assert(rgb565_pixel(lo, hi)[k % 4] == data@[k]);
                    } else {
                        assert(data@[k] == before[k]);
                    }
                }
            }
            col += 1;
        }
        row += 1;
        assert((row - 1) * w + w == row * w) by (nonlinear_arith);
    }
    proof {
        assert(row * w * 4 == frame_len(width, height)) by (nonlinear_arith)
            requires
                row == height,
                w == width,
        ;
        assert(data@ =~= Seq::new(
            frame_len(width, height) as nat,
            |k: int| rgb565_byte(src@, width as int, stride as int, k),
        ));
    }
    data
}

/// Packs a framebuffer whose rows are `stride` bytes apart into a BGRA
/// frame of `width`x`height`: 32-bit formats are copied row by row, RGB565
/// is widened to 8 bits a channel; other formats are refused by name.
pub fn to_tight_bgra(bytes: &[u8], stride: u32, width: u32, height: u32, fourcc: u32) -> (r: Result<
    OwnedFrame,
    DisplayError,
>)
    requires
        width as int * 4 <= u32::MAX,
        height as int * stride as int + width as int * 4 <= usize::MAX,
        frame_len(width, height) <= usize::MAX,
        !fourcc_is_one_wide_char(fourcc),
    ensures
        frame_result_view(r) == spec_tight_bgra(bytes@, stride, width, height, fourcc),
        r matches Ok(f) ==> f.width == width && f.height == height,
{
    match pixel_format(fourcc) {
        PixelFormat::Xrgb8888 | PixelFormat::Argb8888 => match copy_rows(bytes, stride, width, height) {
            Ok(data) => Ok(OwnedFrame { width, height, data }),
            Err(e) => Err(e),
        },
        PixelFormat::Rgb565 => {
            let short = if width > 0 && height > 0 {
                assert((height - 1) * stride <= height * stride) by (nonlinear_arith);
                (height as usize - 1) * (stride as usize) + (width as usize) * 2 > bytes.len()
            } else {
                false
            };
            if short {
                return Err(DisplayError::NoBuffer(string_from("framebuffer truncated")));
            }
            let data = convert_rgb565(bytes, stride, width, height);
            Ok(OwnedFrame { width, height, data })
        },
        PixelFormat::Other(name) => Err(DisplayError::UnsupportedFormat(name)),
        PixelFormat::Unrecognized(debug) => {
            let mut m = string_from("unknown fourcc: ");
            m.append(debug.as_str());
            Err(DisplayError::UnsupportedFormat(m))
        },
    }
}

/// The values of an EDID that the display's physical size and blanking
/// give: worked out by the caller in floating point (a size in centimetres
/// of a third of the pixel count, blanking of 18% and 5%).
#[derive(Debug, Clone, Copy)]
pub struct EdidGeometry {
    pub cm_w: u8,
    pub cm_h: u8,
    pub h_blank: u16,
    pub v_blank: u16,
}

/// `(dim / 8).saturating_sub(1) as u16`: the active size in character cells
/// less one, as the detailed timing stores it.
pub open spec fn blank_base(dim: u32) -> u16 {
    ((if dim / 8 >= 1 {
        dim / 8 - 1
    } else {
        0
    }) % 65536) as u16
}

pub fn blanking_base(dim: u32) -> (r: u16)
    ensures
        r == blank_base(dim),
{
    let cells = dim / 8;
    let less = if cells >= 1 {
        cells - 1
    } else {
        0
    };
    (less % 65536) as u16
}

pub open spec fn at_least_one(v: u8) -> u8 {
    if v >= 1 {
        v
    } else {
        1
    }
}

/// The characters of the monitor name, `Orbiscreen`.
pub open spec fn monitor_name() -> Seq<u8> {
    seq![79u8, 114u8, 98u8, 105u8, 115u8, 99u8, 114u8, 101u8, 101u8, 110u8]
}

/// Byte `i` (below 127) of the EDID for a `width`x`height` display: the
/// header, the vendor `OB` block, EDID 1.4, a digital input of the given
/// size, one detailed timing, a range-limits descriptor and the name.
pub open spec fn edid_at(width: u32, height: u32, g: EdidGeometry, i: int) -> u8 {
    let ph = blank_base(width);
    let pv = blank_base(height);
    if i == 0 || i == 7 {
        0x00
    } else if 1 <= i <= 6 {
        0xFF
    } else if i == 8 {
        0x4F
    } else if i == 9 {
        0x42
    } else if i == 10 {
        0x53
    } else if i == 11 {
        0x01
    } else if 12 <= i <= 15 {
        (i - 11) as u8
    } else if i == 16 {
        1
    } else if i == 17 {
        36
    } else if i == 18 {
        1
    } else if i == 19 {
        4
    } else if i == 20 {
        0x80
    } else if i == 21 {
        at_least_one(g.cm_w)
    } else if i == 22 {
        at_least_one(g.cm_h)
    } else if i == 23 {
        0x78
    } else if i == 24 {
        0x0A
    } else if i == 54 {
        (ph % 256) as u8
    } else if i == 55 {
        ((ph / 256) % 4) as u8
    } else if i == 56 {
        (pv % 256) as u8
    } else if i == 57 {
        ((pv / 256) % 4) as u8
    } else if i == 58 {
        (g.h_blank % 256) as u8
    } else if i == 59 {
        ((g.h_blank / 256) % 4) as u8
    } else if i == 60 {
        (g.v_blank % 256) as u8
    } else if i == 61 {
        ((g.v_blank / 256) % 4) as u8
    } else if i == 62 {
        0x1A
    } else if i == 64 {
        (width % 256) as u8
    } else if i == 65 {
        ((width / 256) % 16) as u8
    } else if i == 66 {
        (height % 256) as u8
    } else if i == 67 {
        ((height / 256) % 16) as u8
    } else if i == 70 {
        0x1E
    } else if i == 72 {
        0xFD
    } else if i == 77 {
        30
    } else if i == 78 {
        75
    } else if i == 79 {
        30
    } else if i == 80 {
        110
    } else if i == 81 {
        0x10
    } else if i == 82 {
        0x0A
    } else if i == 93 {
        0xFC
    } else if 95 <= i < 105 {
        monitor_name()[i - 95]
    } else {
        0x00
    }
}

/// The sum of the first `n` bytes.
pub open spec fn byte_sum(s: Seq<u8>, n: int) -> int
    decreases n,
{
    if n <= 0 {
        0
    } else {
        byte_sum(s, n - 1) + s[n - 1]
    }
}

/// The EDID: 127 bytes and the checksum that makes all 128 sum to a
/// multiple of 256.
pub open spec fn spec_edid(width: u32, height: u32, g: EdidGeometry) -> Seq<u8> {
    let body = Seq::new(127, |i: int| edid_at(width, height, g, i));
    body.push(((256 - byte_sum(body, 127) % 256) % 256) as u8)
}

fn edid_byte(width: u32, height: u32, g: EdidGeometry, i: usize) -> (r: u8)
    requires
        i < 127,
    ensures
        r == edid_at(width, height, g, i as int),
{
    let ph = blanking_base(width);
    let pv = blanking_base(height);
    if i == 0 || i == 7 {
        0x00
    } else if 1 <= i && i <= 6 {
        0xFF
    } else if i == 8 {
        0x4F
    } else if i == 9 {
        0x42
    } else if i == 10 {
        0x53
    } else if i == 11 {
        0x01
    } else if 12 <= i && i <= 15 {
        (i - 11) as u8
    } else if i == 16 {
        1
    } else if i == 17 {
        36
    } else if i == 18 {
        1
    } else if i == 19 {
        4
    } else if i == 20 {
        0x80
    } else if i == 21 {
        if g.cm_w >= 1 { g.cm_w } else { 1 }
    } else if i == 22 {
        if g.cm_h >= 1 { g.cm_h } else { 1 }
    } else if i == 23 {
        0x78
    } else if i == 24 {
        0x0A
    } else if i == 54 {
        (ph % 256) as u8
    } else if i == 55 {
        ((ph / 256) % 4) as u8
    } else if i == 56 {
        (pv % 256) as u8
    } else if i == 57 {
        ((pv / 256) % 4) as u8
    } else if i == 58 {
        (g.h_blank % 256) as u8
    } else if i == 59 {
        ((g.h_blank / 256) % 4) as u8
    } else if i == 60 {
        (g.v_blank % 256) as u8
    } else if i == 61 {
        ((g.v_blank / 256) % 4) as u8
    } else if i == 62 {
        0x1A
    } else if i == 64 {
        (width % 256) as u8
    } else if i == 65 {
        ((width / 256) % 16) as u8
    } else if i == 66 {
        (height % 256) as u8
    } else if i == 67 {
        ((height / 256) % 16) as u8
    } else if i == 70 {
        0x1E
    } else if i == 72 {
        0xFD
    } else if i == 77 {
        30
    } else if i == 78 {
        75
    } else if i == 79 {
        30
    } else if i == 80 {
        110
    } else if i == 81 {
        0x10
    } else if i == 82 {
        0x0A
    } else if i == 93 {
        0xFC
    } else if 95 <= i && i < 105 {
        let k = i - 95;
        if k == 0 { 79 } else if k == 1 { 114 } else if k == 2 { 98 } else if k == 3 { 105 }
        else if k == 4 { 115 } else if k == 5 { 99 } else if k == 6 { 114 } else if k == 7 { 101 }
        else if k == 8 { 101 } else { 110 }
    } else {
        0x00
    }
}

/// The 128-byte EDID for a `width`x`height` display.
pub fn build_edid(width: u32, height: u32, g: EdidGeometry) -> (r: Vec<u8>)
    ensures
        r@ == spec_edid(width, height, g),
{
    let ghost body = Seq::new(127, |i: int| edid_at(width, height, g, i));
    let mut v: Vec<u8> = Vec::new();
    let mut sum: u8 = 0;
    let mut i: usize = 0;
    while i < 127
        invariant
            i <= 127,
            body == Seq::new(127, |i: int| edid_at(width, height, g, i)),
            v@ == body.take(i as int),
            sum as int == byte_sum(body, i as int) % 256,
        decreases 127 - i,
    {
        let b = edid_byte(width, height, g, i);
        v.push(b);
        assert(v@ =~= body.take(i + 1));
        proof {
            assert(byte_sum(body, i + 1) == byte_sum(body, i as int) + b);
            assert(((sum as int + b as int) % 256) == (byte_sum(body, i as int) + b) % 256)
                by (nonlinear_arith)
                requires
                    sum as int == byte_sum(body, i as int) % 256,
            ;
        }
        sum = ((sum as u16 + b as u16) % 256) as u8;
        i += 1;
    }
    assert(v@ =~= body);
    let check = ((256u16 - sum as u16) % 256) as u8;
    v.push(check);
    assert(v@ =~= spec_edid(width, height, g));
    v
}

proof fn lemma_byte_sum_prefix(s: Seq<u8>, t: Seq<u8>, n: int)
    requires
        0 <= n <= s.len(),
        n <= t.len(),
        forall|i: int| 0 <= i < n ==> s[i] == t[i],
    ensures
        byte_sum(s, n) == byte_sum(t, n),
    decreases n,
{
    if n > 0 {
        lemma_byte_sum_prefix(s, t, n - 1);
    }
}

/// Every EDID built here carries a valid checksum: its 128 bytes sum to a
/// multiple of 256.
pub proof fn law_edid_checksum(width: u32, height: u32, g: EdidGeometry)
    ensures
        spec_edid(width, height, g).len() == 128,
        byte_sum(spec_edid(width, height, g), 128) % 256 == 0,
{
    let body = Seq::new(127, |i: int| edid_at(width, height, g, i));
    let e = spec_edid(width, height, g);
    lemma_byte_sum_prefix(e, body, 127);
    let s = byte_sum(body, 127);
    assert(byte_sum(e, 128) == s + e[127]);
    assert((s + (256 - s % 256) % 256) % 256 == 0) by (nonlinear_arith);
}

/// `s.parse::<i32>()`: an optional sign, then at least one decimal digit,
/// and a value that fits in 32 bits.
pub open spec fn parse_i32(s: Seq<char>) -> Option<i32> {
    if s.len() > 0 && s[0] == '-' {
        let d = s.drop_first();
        if d.len() == 0 || !all_digits(d) || dec_value(d) > 2147483648 {
            None
        } else {
            Some((-dec_value(d)) as i32)
        }
    } else {
        match parse_u32(s) {
            Some(v) => if v <= i32::MAX {
                Some(v as i32)
            } else {
                None
            },
            None => None,
        }
    }
}

/// The number of a DRM card node named `card{n}`.
pub open spec fn spec_card_index(name: Seq<char>) -> Option<i32> {
    if starts_with(name, "card"@) {
        parse_i32(name.skip(4))
    } else {
        None
    }
}

pub fn card_index(name: &str) -> (r: Option<i32>)
    ensures
        r == spec_card_index(name@),
{
    let c = chars_of(name);
    proof {
        reveal_strlit("card");
    }
    if !chars_starts_with_str(c.as_slice(), "card") {
        return None;
    }
    let rest = sub_chars(c.as_slice(), 4, c.len());
    assert(rest@ =~= name@.skip(4));
    if rest.len() > 0 && rest[0] == '-' {
        let digits = sub_chars(rest.as_slice(), 1, rest.len());
        assert(digits@ =~= rest@.drop_first());
        if digits.len() == 0 || digits[0] == '+' {
            proof {
                if digits@.len() > 0 {
                    assert(!is_ascii_digit(digits@[0]));
                }
            }
            return None;
        }
        let parsed = parse_u32_exec(digits.as_slice());
        proof {
            if all_digits(digits@) {
                lemma_dec_value_nonneg(digits@);
            }
        }
        assert(parsed == (if !all_digits(digits@) || dec_value(digits@) > u32::MAX {
            None::<u32>
        } else {
            Some(dec_value(digits@) as u32)
        }));
        match parsed {
            Some(v) => {
                if v <= 2147483648 {
                    let n: i64 = -(v as i64);
                    let k: i32 = n as i32;
                    Some(k)
                } else {
                    None
                }
            },
            None => {
                None
            },
        }
    } else {
        match parse_u32_exec(rest.as_slice()) {
            Some(v) => if v <= 2147483647 {
                Some(v as i32)
            } else {
                None
            },
            None => None,
        }
    }
}

} // verus!
