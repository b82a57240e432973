//! The H.264 encoders that the daemon can drive, and the timing that follows
//! from a frame rate.
use vstd::prelude::*;

use crate::text::{
    ascii_lower, chars_eq_str, chars_of, decimal_of, push_decimal, string_from, to_ascii_lower,
};

verus! {

broadcast use vstd::string::group_string_axioms;

#[derive(Debug, Clone, Copy, PartialEq, Eq, Structural)]
pub enum EncoderKind {
    Vaapi,
    Nvenc,
    X264,
}

pub open spec fn spec_parse_encoder(s: Seq<char>) -> Option<EncoderKind> {
    let l = ascii_lower(s);
    if l == "vaapi"@ {
        Some(EncoderKind::Vaapi)
    } else if l == "nvenc"@ {
        Some(EncoderKind::Nvenc)
    } else if l == "x264"@ {
        Some(EncoderKind::X264)
    } else {
        None
    }
}

impl EncoderKind {
    /// An encoder named in any ASCII case; `None` for an unknown name.
    pub fn parse(s: &str) -> (r: Option<Self>)
        ensures
            r == spec_parse_encoder(s@),
    {
        let c = chars_of(s);
        let l = to_ascii_lower(c.as_slice());
        if chars_eq_str(l.as_slice(), "vaapi") {
            Some(EncoderKind::Vaapi)
        } else if chars_eq_str(l.as_slice(), "nvenc") {
            Some(EncoderKind::Nvenc)
        } else if chars_eq_str(l.as_slice(), "x264") {
            Some(EncoderKind::X264)
        } else {
            None
        }
    }

    pub open spec fn spec_gst_element(self) -> &'static str {
        match self {
            EncoderKind::Vaapi => "vaapih264enc",
            EncoderKind::Nvenc => "nvh264enc",
            EncoderKind::X264 => "x264enc",
        }
    }

    /// The GStreamer element that implements the encoder.
    pub fn gst_element(self) -> (r: &'static str)
        ensures
            r == self.spec_gst_element(),
    {
        match self {
            EncoderKind::Vaapi => "vaapih264enc",
            EncoderKind::Nvenc => "nvh264enc",
            EncoderKind::X264 => "x264enc",
        }
    }
}

#[derive(Debug, Clone, Copy)]
pub struct EncodeParams {
    pub kind: EncoderKind,
    pub bitrate_kbps: u32,
    pub width: u32,
    pub height: u32,
    pub framerate: u32,
}

impl Default for EncodeParams {
    fn default() -> (r: Self)
        ensures
            r.kind == EncoderKind::X264,
            r.bitrate_kbps == 8000,
            r.width == 1920,
            r.height == 1080,
            r.framerate == 60,
    {
        EncodeParams {
            kind: EncoderKind::X264,
            bitrate_kbps: 8000,
            width: 1920,
            height: 1080,
            framerate: 60,
        }
    }
}

/// The length of one frame at `framerate` frames per second, in whole
/// nanoseconds; a rate of 0 counts as 1.
pub fn frame_duration_ns(framerate: u32) -> (r: u64)
    ensures
        r == 1_000_000_000int / (if framerate == 0 {
            1
        } else {
            framerate as int
        }),
{
    let rate: u64 = if framerate == 0 {
        1
    } else {
        framerate as u64
    };
    1_000_000_000 / rate
}

#[derive(Debug, Clone)]
pub enum EncodeError {
    EncoderUnavailable(&'static str),
    Pipeline(String),
    Init(String),
    FrameSizeMismatch { got: usize, expected: usize, width: u32, height: u32 },
}

pub open spec fn encode_error_text(e: EncodeError) -> Seq<char> {
    match e {
        EncodeError::EncoderUnavailable(m) => "encoder not available: "@ + m@,
        EncodeError::Pipeline(m) => "gstreamer pipeline error: "@ + m@,
        EncodeError::Init(m) => "failed to initialize gstreamer: "@ + m@,
        EncodeError::FrameSizeMismatch { got, expected, width, height } => "frame size "@
            + decimal_of(got as nat) + " B does not match encoder config "@ + decimal_of(
            expected as nat,
        ) + " B ("@ + decimal_of(width as nat) + "x"@ + decimal_of(height as nat) + "x4)"@,
    }
}

impl EncodeError {
    /// The error's message.
    pub fn message(&self) -> (r: String)
        ensures
            r@ == encode_error_text(*self),
    {
        match self {
            EncodeError::EncoderUnavailable(m) => {
                let mut s = string_from("encoder not available: ");
                s.append(m);
                s
            },
            EncodeError::Pipeline(m) => {
                let mut s = string_from("gstreamer pipeline error: ");
                s.append(m.as_str());
                s
            },
            EncodeError::Init(m) => {
                let mut s = string_from("failed to initialize gstreamer: ");
                s.append(m.as_str());
                s
            },
            EncodeError::FrameSizeMismatch { got, expected, width, height } => {
                let mut s = string_from("frame size ");
                push_decimal(&mut s, *got as u64);
                s.append(" B does not match encoder config ");
                push_decimal(&mut s, *expected as u64);
                s.append(" B (");
                push_decimal(&mut s, *width as u64);
                s.append("x");
                push_decimal(&mut s, *height as u64);
                s.append("x4)");
                s
            },
        }
    }
}

#[derive(Debug, Clone)]
pub struct EncodedChunk {
    pub bytes: Vec<u8>,
    pub is_keyframe: bool,
    pub pts_ns: u64,
}

/// The encoders to probe, in order: the preferred one, then x264, VA-API
/// and NVENC.
pub open spec fn spec_encoder_candidates(preferred: EncoderKind) -> Seq<EncoderKind> {
    seq![preferred, EncoderKind::X264, EncoderKind::Vaapi, EncoderKind::Nvenc]
}

pub fn encoder_candidates(preferred: EncoderKind) -> (r: Vec<EncoderKind>)
    ensures
        r@ == spec_encoder_candidates(preferred),
{
    let v = vec![preferred, EncoderKind::X264, EncoderKind::Vaapi, EncoderKind::Nvenc];
    assert(v@ =~= spec_encoder_candidates(preferred));
    v
}

pub open spec fn available(kind: EncoderKind, vaapi: bool, nvenc: bool, x264: bool) -> bool {
    match kind {
        EncoderKind::Vaapi => vaapi,
        EncoderKind::Nvenc => nvenc,
        EncoderKind::X264 => x264,
    }
}

/// The encoder to use: the first candidate whose element GStreamer can
/// make; x264 when none can (the pipeline then fails to build).
pub open spec fn spec_pick_encoder(preferred: EncoderKind, vaapi: bool, nvenc: bool, x264: bool) -> EncoderKind {
    if available(preferred, vaapi, nvenc, x264) {
        preferred
    } else if x264 {
        EncoderKind::X264
    } else if vaapi {
        EncoderKind::Vaapi
    } else if nvenc {
        EncoderKind::Nvenc
    } else {
        EncoderKind::X264
    }
}

pub fn pick_encoder(preferred: EncoderKind, vaapi: bool, nvenc: bool, x264: bool) -> (r: EncoderKind)
    ensures
        r == spec_pick_encoder(preferred, vaapi, nvenc, x264),
{
    let ok = match preferred {
        EncoderKind::Vaapi => vaapi,
        EncoderKind::Nvenc => nvenc,
        EncoderKind::X264 => x264,
    };
    if ok {
        preferred
    } else if x264 {
        EncoderKind::X264
    } else if vaapi {
        EncoderKind::Vaapi
    } else if nvenc {
        EncoderKind::Nvenc
    } else {
        EncoderKind::X264
    }
}

/// The element properties set on the encoder, in order: the bitrate where
/// the element has one; for x264 low-latency tuning, and repeated headers
/// and a keyframe every 6 frames (100 ms at 60 frames a second) where the
/// element still has those.
pub open spec fn spec_encoder_properties(
    kind: EncoderKind,
    bitrate_kbps: u32,
    has_bitrate: bool,
    has_repeat_headers: bool,
    has_key_int_max: bool,
) -> Seq<(Seq<char>, Seq<char>)> {
    let b: Seq<(Seq<char>, Seq<char>)> = if has_bitrate {
        seq![("bitrate"@, decimal_of(bitrate_kbps as nat))]
    } else {
        seq![]
    };
    if kind == EncoderKind::X264 {
        b + seq![("tune"@, "zerolatency"@), ("speed-preset"@, "ultrafast"@)] + (if has_repeat_headers {
            seq![("repeat-headers"@, "true"@)]
        } else {
            seq![]
        }) + (if has_key_int_max {
            seq![("key-int-max"@, "6"@)]
        } else {
            seq![]
        })
    } else {
        b
    }
}

pub fn encoder_properties(
    kind: EncoderKind,
    bitrate_kbps: u32,
    has_bitrate: bool,
    has_repeat_headers: bool,
    has_key_int_max: bool,
) -> (r: Vec<(String, String)>)
    ensures
        r@.map_values(|p: (String, String)| (p.0@, p.1@)) == spec_encoder_properties(
            kind,
            bitrate_kbps,
            has_bitrate,
            has_repeat_headers,
            has_key_int_max,
        ),
{
    let mut v: Vec<(String, String)> = Vec::new();
    if has_bitrate {
        let mut b = String::new();
        push_decimal(&mut b, bitrate_kbps as u64);
        v.push((string_from("bitrate"), b));
    }
    if kind == EncoderKind::X264 {
        v.push((string_from("tune"), string_from("zerolatency")));
        v.push((string_from("speed-preset"), string_from("ultrafast")));
        if has_repeat_headers {
            v.push((string_from("repeat-headers"), string_from("true")));
        }
        if has_key_int_max {
            v.push((string_from("key-int-max"), string_from("6")));
        }
    }
    assert(v@.map_values(|p: (String, String)| (p.0@, p.1@)) =~= spec_encoder_properties(
        kind,
        bitrate_kbps,
        has_bitrate,
        has_repeat_headers,
        has_key_int_max,
    ));
    v
}

/// The input queue holds up to a second of frames at 60 per second.
pub fn appsrc_max_bytes(width: u32, height: u32) -> (r: u64)
    requires
        width as int * height as int * 4 * 60 <= u64::MAX,
    ensures
        r == width as int * height as int * 4 * 60,
{
    (width as u64) * (height as u64) * 4 * 60
}

/// A frame is accepted only at the encoder's size: exactly
/// `width * height * 4` bytes, with the same width and height.
pub fn check_frame(frame_len: usize, width: u32, height: u32, enc_width: u32, enc_height: u32) -> (r:
    Result<(), EncodeError>)
    requires
        enc_width as int * enc_height as int * 4 <= usize::MAX,
    ensures
        ({
            let expected = enc_width as int * enc_height as int * 4;
            &&& (frame_len == expected && width == enc_width && height == enc_height) ==> r is Ok
            &&& !(frame_len == expected && width == enc_width && height == enc_height) ==> (r matches Err(
                EncodeError::FrameSizeMismatch { got, expected: e, width: w, height: h },
            ) && got == frame_len && e == expected && w == enc_width && h == enc_height)
        }),
{
    assert(enc_width as int * enc_height as int <= enc_width as int * enc_height as int * 4)
        by (nonlinear_arith);
    let expected = (enc_width as usize) * (enc_height as usize) * 4;
    if frame_len != expected || width != enc_width || height != enc_height {
        return Err(
            EncodeError::FrameSizeMismatch {
                got: frame_len,
                expected,
                width: enc_width,
                height: enc_height,
            },
        );
    }
    Ok(())
}

/// The preferred encoder is used whenever its element exists. Otherwise an
/// encoder that exists is used, x264 before VA-API before NVENC; with none
/// at all the choice is x264 (and the pipeline then fails to build).
pub proof fn law_pick_encoder_prefers_then_falls_back(
    preferred: EncoderKind,
    vaapi: bool,
    nvenc: bool,
    x264: bool,
)
    ensures
        ({
            let r = spec_pick_encoder(preferred, vaapi, nvenc, x264);
            let preferred_exists = (preferred == EncoderKind::Vaapi && vaapi) || (preferred
                == EncoderKind::Nvenc && nvenc) || (preferred == EncoderKind::X264 && x264);
            &&& preferred_exists ==> r == preferred
            &&& (vaapi || nvenc || x264) ==> ((r == EncoderKind::Vaapi && vaapi) || (r
                == EncoderKind::Nvenc && nvenc) || (r == EncoderKind::X264 && x264))
            &&& !preferred_exists && x264 ==> r == EncoderKind::X264
            &&& !preferred_exists && !x264 && vaapi ==> r == EncoderKind::Vaapi
            &&& !(vaapi || nvenc || x264) ==> r == EncoderKind::X264
        }),
{
}

} // verus!
