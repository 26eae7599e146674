//! Screen frames: pixel conversion, the capture retry budget, encoding to
//! JPEG or PNG, and the frame message sent to a controller.

use base64::Engine;
use vstd::prelude::*;
use crate::commands::ScreenCaptureResult;

verus! {

/// Reads of the display a stream frame may take before it is given up.
pub const STREAM_CAPTURE_RETRIES: u32 = 30;

/// Pause between two reads of the display for a stream frame.
pub const STREAM_CAPTURE_WAIT_MS: u64 = 10;

/// Reads of the display a one-shot capture may take before it is given up.
pub const SNAPSHOT_CAPTURE_RETRIES: u32 = 50;

/// Pause between two reads of the display for a one-shot capture.
pub const SNAPSHOT_CAPTURE_WAIT_MS: u64 = 20;

/// JPEG quality of stream frames.
pub const STREAM_QUALITY: u8 = 40;

/// JPEG quality of a one-shot capture when the caller gives none.
pub const DEFAULT_SNAPSHOT_QUALITY: u8 = 50;

/// Packed RGB of a BGRA frame: each pixel's red, green and blue, alpha dropped.
pub open spec fn bgra_to_rgb_spec(f: Seq<u8>) -> Seq<u8> {
    Seq::new((f.len() / 4 * 3) as nat, |i: int| f[4 * (i / 3) + 2 - i % 3])
}

/// RGBA of a BGRA frame: each pixel's red, green, blue and alpha.
pub open spec fn bgra_to_rgba_spec(f: Seq<u8>) -> Seq<u8> {
    Seq::new(
        f.len(),
        |i: int|
            if i % 4 == 3 {
                f[i]
            } else {
                f[4 * (i / 4) + 2 - i % 4]
            },
    )
}

/// Converts a BGRA frame to packed RGB.
pub fn bgra_to_rgb(frame: &[u8]) -> (r: Vec<u8>)
    requires
        frame@.len() % 4 == 0,
    ensures
        r@ == bgra_to_rgb_spec(frame@),
        r@.len() == frame@.len() / 4 * 3,
{
    let n = frame.len();
    let pixels = n / 4;
    let mut out: Vec<u8> = Vec::with_capacity(pixels * 3);
    let mut p: usize = 0;
    while p < pixels
        invariant
            p <= pixels,
            pixels == n / 4,
            n == frame@.len(),
            n % 4 == 0,
            out@.len() == 3 * p,
            forall|i: int| 0 <= i < 3 * p ==> #[trigger] out@[i] == frame@[4 * (i / 3) + 2 - i % 3],
        decreases pixels - p,
    {
        let base = 4 * p;
        let ghost before = out@;
        out.push(frame[base + 2]);
        out.push(frame[base + 1]);
        out.push(frame[base]);
        assert forall|i: int| 0 <= i < 3 * (p + 1) implies #[trigger] out@[i] == frame@[4 * (i / 3) + 2
            - i % 3] by {
            if i >= 3 * p {
                assert(i / 3 == p);
                assert(i % 3 == i - 3 * p);
            } else {
                assert(out@[i] == before[i]);
            }
        }
        p = p + 1;
    }
    assert(out@ =~= bgra_to_rgb_spec(frame@));
    out
}

/// Converts a BGRA frame to RGBA.
pub fn bgra_to_rgba(frame: &[u8]) -> (r: Vec<u8>)
    requires
        frame@.len() % 4 == 0,
    ensures
        r@ == bgra_to_rgba_spec(frame@),
{
    let n = frame.len();
    let pixels = n / 4;
    let mut out: Vec<u8> = Vec::with_capacity(n);
    let mut p: usize = 0;
    while p < pixels
        invariant
            p <= pixels,
            pixels == n / 4,
            n == frame@.len(),
            n % 4 == 0,
            out@.len() == 4 * p,
            forall|i: int|
                0 <= i < 4 * p ==> #[trigger] out@[i] == (if i % 4 == 3 {
                    frame@[i]
                } else {
                    frame@[4 * (i / 4) + 2 - i % 4]
                }),
        decreases pixels - p,
    {
        let base = 4 * p;
        let ghost before = out@;
        out.push(frame[base + 2]);
        out.push(frame[base + 1]);
        out.push(frame[base]);
        out.push(frame[base + 3]);
        assert forall|i: int| 0 <= i < 4 * (p + 1) implies #[trigger] out@[i] == (if i % 4 == 3 {
            frame@[i]
        } else {
            frame@[4 * (i / 4) + 2 - i % 4]
        }) by {
            if i >= 4 * p {
                assert(i / 4 == p);
                assert(i % 4 == i - 4 * p);
            } else {
                assert(out@[i] == before[i]);
            }
        }
        p = p + 1;
    }
    assert(out@ =~= bgra_to_rgba_spec(frame@));
    out
}

/// What one read of the display gave.
#[derive(Clone, Copy, Debug, PartialEq, Eq, Structural)]
pub enum FrameOutcome {
    /// A frame is ready.
    Ready,
    /// No new frame yet; reading again may give one.
    WouldBlock,
    /// The display failed.
    Failed,
}

/// What to do after a read of the display.
#[derive(Clone, Copy, Debug, PartialEq, Eq, Structural)]
pub enum CaptureStep {
    /// Encode the frame just read.
    Use,
    /// Pause, then read again.
    Wait,
    /// The retry budget is spent: report a timeout.
    GiveUp,
    /// Report the display's failure.
    Fail,
}

/// The retry budget of one capture: how many reads found no frame yet, out
/// of how many allowed.
#[derive(Clone, Copy, Debug)]
pub struct CaptureRetry {
    pub attempts: u32,
    pub limit: u32,
}

impl CaptureRetry {
    pub open spec fn wf(&self) -> bool {
        self.attempts <= self.limit
    }

    /// A fresh budget of `limit` retries.
    pub fn new(limit: u32) -> (r: CaptureRetry)
        ensures
            r.attempts == 0,
            r.limit == limit,
            r.wf(),
    {
        CaptureRetry { attempts: 0, limit }
    }

    /// Decides what follows a read: a ready frame is used, a failure is
    /// reported, and a read with no frame yet is retried until more than
    /// `limit` such reads have been made.
    pub fn on_outcome(&mut self, outcome: FrameOutcome) -> (r: CaptureStep)
        requires
            old(self).wf(),
        ensures
            final(self).limit == old(self).limit,
            match outcome {
                FrameOutcome::Ready => r == CaptureStep::Use && final(self).attempts == old(
                    self,
                ).attempts,
                FrameOutcome::Failed => r == CaptureStep::Fail && final(self).attempts == old(
                    self,
                ).attempts,
                FrameOutcome::WouldBlock => if old(self).attempts + 1 > old(self).limit {
                    r == CaptureStep::GiveUp && final(self).attempts == old(self).attempts
                } else {
                    r == CaptureStep::Wait && final(self).attempts == old(self).attempts + 1
                },
            },
            final(self).wf(),
    {
        match outcome {
            FrameOutcome::Ready => CaptureStep::Use,
            FrameOutcome::Failed => CaptureStep::Fail,
            FrameOutcome::WouldBlock => {
                if self.attempts >= self.limit {
                    CaptureStep::GiveUp
                } else {
                    self.attempts = self.attempts + 1;
                    CaptureStep::Wait
                }
            },
        }
    }
}

/// The JPEG stream that image's encoder writes for packed RGB pixels of the
/// given size at the given quality, or `None` when it refuses them.
pub uninterp spec fn jpeg_of(rgb: Seq<u8>, width: u32, height: u32, quality: u8) -> Option<Seq<u8>>;

/// The PNG stream that image's encoder writes for RGBA pixels of the given
/// size, or `None` when it refuses them.
pub uninterp spec fn png_of(rgba: Seq<u8>, width: u32, height: u32) -> Option<Seq<u8>>;

/// The character of a 6-bit value in the standard base64 alphabet.
pub open spec fn base64_char(v: nat) -> char {
    if v < 26 {
        (65 + v) as u8 as char
    } else if v < 52 {
        (71 + v) as u8 as char
    } else if v < 62 {
        (v - 4) as u8 as char
    } else if v == 62 {
        '+'
    } else {
        '/'
    }
}

/// The four characters of three bytes.
pub open spec fn base64_group(b0: u8, b1: u8, b2: u8) -> Seq<char> {
    let n = b0 as nat * 65536 + b1 as nat * 256 + b2 as nat;
    seq![base64_char(n / 262144), base64_char(n / 4096 % 64), base64_char(n / 64 % 64), base64_char(n % 64)]
}

/// Standard base64 text of bytes: four characters for each group of three
/// bytes, the last group padded with '='.
pub open spec fn base64_of(b: Seq<u8>) -> Seq<char>
    decreases b.len(),
{
    if b.len() == 0 {
        Seq::empty()
    } else if b.len() == 1 {
        let g = base64_group(b[0], 0, 0);
        seq![g[0], g[1], '=', '=']
    } else if b.len() == 2 {
        let g = base64_group(b[0], b[1], 0);
        seq![g[0], g[1], g[2], '=']
    } else {
        base64_group(b[0], b[1], b[2]) + base64_of(b.subrange(3, b.len() as int))
    }
}

/// A character of base64 text: a letter, a digit, '+', '/' or '='.
pub open spec fn is_base64_text_char(c: char) -> bool {
    ('A' <= c && c <= 'Z') || ('a' <= c && c <= 'z') || ('0' <= c && c <= '9') || c == '+' || c
        == '/' || c == '='
}

proof fn lemma_base64_char(v: nat)
    requires
        v < 64,
    ensures
        is_base64_text_char(base64_char(v)),
{
}

/// Base64 text holds only base64 characters, so it needs no escaping in a
/// JSON string.
pub proof fn lemma_base64_text(b: Seq<u8>)
    ensures
        forall|i: int| 0 <= i < base64_of(b).len() ==> is_base64_text_char(#[trigger] base64_of(b)[i]),
    decreases b.len(),
{
    if b.len() == 0 {
        return;
    }
    let b1: u8 = if b.len() >= 2 { b[1] } else { 0 };
    let b2: u8 = if b.len() >= 3 { b[2] } else { 0 };
    let n = b[0] as nat * 65536 + b1 as nat * 256 + b2 as nat;
    lemma_base64_char(n / 262144);
    lemma_base64_char(n / 4096 % 64);
    lemma_base64_char(n / 64 % 64);
    lemma_base64_char(n % 64);
    if b.len() >= 3 {
        let rest = b.subrange(3, b.len() as int);
        lemma_base64_text(rest);
        let t = base64_of(b);
        assert(t == base64_group(b[0], b[1], b[2]) + base64_of(rest));
        assert forall|i: int| 0 <= i < t.len() implies is_base64_text_char(#[trigger] t[i]) by {
            if i >= 4 {
                assert(t[i] == base64_of(rest)[i - 4]);
            }
        }
    }
}

/// Relies on image's `JpegEncoder::new_with_quality` and `JpegEncoder::encode`
/// with `ColorType::Rgb8`: the output depends on the arguments alone. The
/// encoder asserts that the buffer holds exactly `width * height * 3` bytes.
#[verifier::external_body]
fn jpeg_encode(rgb: &[u8], width: u32, height: u32, quality: u8) -> (r: Result<Vec<u8>, String>)
    requires
        rgb@.len() == width * height * 3,
    ensures
        match r {
            Ok(b) => jpeg_of(rgb@, width, height, quality) == Some(b@),
            Err(_) => jpeg_of(rgb@, width, height, quality) is None,
        },
{
    let mut out = Vec::new();
    let res = image::codecs::jpeg::JpegEncoder::new_with_quality(&mut out, quality).encode(
        rgb,
        width,
        height,
        image::ColorType::Rgb8,
    );
    res.map(|_| out).map_err(|e| e.to_string())
}

/// Relies on image's `PngEncoder::new` and `PngEncoder::encode` with
/// `ColorType::Rgba8`: the output depends on the arguments alone. The png
/// writer computes the image's byte size from the dimensions, which must
/// match the buffer (a size that overflows would panic).
#[verifier::external_body]
fn png_encode(rgba: &[u8], width: u32, height: u32) -> (r: Result<Vec<u8>, String>)
    requires
        rgba@.len() == width * height * 4,
    ensures
        match r {
            Ok(b) => png_of(rgba@, width, height) == Some(b@),
            Err(_) => png_of(rgba@, width, height) is None,
        },
{
    let mut out = Vec::new();
    let res = image::codecs::png::PngEncoder::new(&mut out).encode(
        rgba,
        width,
        height,
        image::ColorType::Rgba8,
    );
    res.map(|_| out).map_err(|e| e.to_string())
}

/// Relies on base64's `STANDARD` engine `encode`: standard alphabet with
/// '=' padding; it panics only when the output length overflows.
#[verifier::external_body]
fn base64_encode(b: &[u8]) -> (r: String)
    requires
        base64_fits(b@.len()),
    ensures
        r@ == base64_of(b@),
{
    base64::engine::general_purpose::STANDARD.encode(b)
}

/// Whether the base64 length of `n` bytes can be computed without overflow.
pub open spec fn base64_fits(n: nat) -> bool {
    n / 3 * 4 + 4 <= usize::MAX
}

/// Standard base64 text of `b`, or `None` when `b` is too long for its text
/// length to be computed.
pub fn base64_text(b: &[u8]) -> (r: Option<String>)
    ensures
        match r {
            Some(t) => base64_fits(b@.len()) && t@ == base64_of(b@),
            None => !base64_fits(b@.len()),
        },
{
    if b.len() / 3 > (usize::MAX - 4) / 4 {
        None
    } else {
        Some(base64_encode(b))
    }
}

/// Whether a buffer holds exactly the bytes of a `width` by `height` image
/// with `channels` bytes per pixel.
pub open spec fn fits_exactly(len: nat, width: u32, height: u32, channels: nat) -> bool {
    len == width * height * channels
}

fn fits(len: usize, width: u32, height: u32, channels: u8) -> (r: bool)
    ensures
        r == fits_exactly(len as nat, width, height, channels as nat),
{
    let w = width as u128;
    let h = height as u128;
    let c = channels as u128;
    assert(w * h <= 0xFFFF_FFFF * 0xFFFF_FFFF) by (nonlinear_arith)
        requires
            w <= 0xFFFF_FFFF,
            h <= 0xFFFF_FFFF,
    ;
    let wh = w * h;
    assert(wh * c <= 0xFFFF_FFFF * 0xFFFF_FFFF * 255) by (nonlinear_arith)
        requires
            wh <= 0xFFFF_FFFF * 0xFFFF_FFFF,
            c <= 255,
    ;
    let need = wh * c;
    (len as u128) == need
}

/// A stream frame: the BGRA capture as JPEG at `quality`, or `None` when the
/// pixels do not make a `width` by `height` image or the encoder refuses them.
pub fn encode_stream_frame(bgra: &[u8], width: u32, height: u32, quality: u8) -> (r: Option<
    Vec<u8>,
>)
    requires
        bgra@.len() % 4 == 0,
    ensures
        match r {
            Some(b) => fits_exactly(bgra_to_rgb_spec(bgra@).len(), width, height, 3) && jpeg_of(
                bgra_to_rgb_spec(bgra@),
                width,
                height,
                quality,
            ) == Some(b@),
            None => !fits_exactly(bgra_to_rgb_spec(bgra@).len(), width, height, 3) || jpeg_of(
                bgra_to_rgb_spec(bgra@),
                width,
                height,
                quality,
            ) is None,
        },
{
    let rgb = bgra_to_rgb(bgra);
    if !fits(rgb.len(), width, height, 3) {
        return None;
    }
    match jpeg_encode(rgb.as_slice(), width, height, quality) {
        Ok(b) => Some(b),
        Err(_) => None,
    }
}

/// The message text that carries one frame, given its base64 text.
pub open spec fn frame_message_chars(data: Seq<char>) -> Seq<char> {
    "{\"type\":\"frame\",\"data\":\""@ + data + "\"}"@
}

/// The message text that carries one frame whose base64 text is `data`.
pub fn frame_text(data: &str) -> (r: String)
    ensures
        r@ == frame_message_chars(data@),
{
    let mut s = String::from_str("{\"type\":\"frame\",\"data\":\"");
    s.append(data);
    s.append("\"}");
    s
}

/// The message that carries the JPEG bytes `jpeg` to a controller, or `None`
/// when `jpeg` is too long for base64.
pub fn frame_message(jpeg: &[u8]) -> (r: Option<String>)
    ensures
        match r {
            Some(m) => base64_fits(jpeg@.len()) && m@ == frame_message_chars(base64_of(jpeg@)),
            None => !base64_fits(jpeg@.len()),
        },
        forall|i: int|
            0 <= i < base64_of(jpeg@).len() ==> is_base64_text_char(#[trigger] base64_of(jpeg@)[i]),
{
    proof {
        lemma_base64_text(jpeg@);
    }
    match base64_text(jpeg) {
        Some(data) => Some(frame_text(data.as_str())),
        None => None,
    }
}

/// A one-shot capture whose display gave no frame within the retry budget.
pub fn capture_timeout_result(message: &str) -> (r: ScreenCaptureResult)
    ensures
        !r.success,
        r.image_base64 is None,
        r.width == 0,
        r.height == 0,
        r.message@ == message@,
{
    ScreenCaptureResult {
        success: false,
        image_base64: None,
        width: 0,
        height: 0,
        message: String::from_str(message),
    }
}

/// A successful one-shot capture whose image has the base64 text `data`.
pub fn capture_success(data: String, width: u32, height: u32) -> (r: ScreenCaptureResult)
    ensures
        r.success,
        r.image_base64 matches Some(d) && d@ == data@,
        r.width == width,
        r.height == height,
        r.message@ == "Screen captured"@,
{
    ScreenCaptureResult {
        success: true,
        image_base64: Some(data),
        width,
        height,
        message: String::from_str("Screen captured"),
    }
}

/// A one-shot capture as JPEG at `quality` (50 when none is given). It fails
/// when the pixels do not make a `width` by `height` image, or with the
/// encoder's message when the encoder refuses them.
pub fn jpeg_capture_result(bgra: &[u8], width: u32, height: u32, quality: Option<u8>) -> (r: Result<
    ScreenCaptureResult,
    String,
>)
    requires
        bgra@.len() % 4 == 0,
    ensures
        ({
            let q = match quality {
                Some(q) => q,
                None => DEFAULT_SNAPSHOT_QUALITY,
            };
            let rgb = bgra_to_rgb_spec(bgra@);
            match r {
                Ok(c) => {
                    &&& fits_exactly(rgb.len(), width, height, 3)
                    &&& jpeg_of(rgb, width, height, q) is Some
                    &&& c.success
                    &&& c.image_base64 matches Some(d) && d@ == base64_of(
                        jpeg_of(rgb, width, height, q).unwrap(),
                    )
                    &&& c.width == width
                    &&& c.height == height
                    &&& c.message@ == "Screen captured"@
                },
                Err(e) => {
                    ||| !fits_exactly(rgb.len(), width, height, 3) && e@ == "Failed to create image"@
                    ||| fits_exactly(rgb.len(), width, height, 3) && jpeg_of(rgb, width, height, q) is None
                    ||| fits_exactly(rgb.len(), width, height, 3) && jpeg_of(rgb, width, height, q) is Some
                        && !base64_fits(jpeg_of(rgb, width, height, q).unwrap().len())
                        && e@ == "Image too large to encode"@
                },
            }
        }),
{
    let q = match quality {
        Some(q) => q,
        None => DEFAULT_SNAPSHOT_QUALITY,
    };
    let rgb = bgra_to_rgb(bgra);
    if !fits(rgb.len(), width, height, 3) {
        return Err(String::from_str("Failed to create image"));
    }
    match jpeg_encode(rgb.as_slice(), width, height, q) {
        Ok(b) => match base64_text(b.as_slice()) {
            Some(data) => Ok(capture_success(data, width, height)),
            None => Err(String::from_str("Image too large to encode")),
        },
        Err(e) => Err(String::from_str("JPEG encode error: ").concat(e.as_str())),
    }
}

/// A one-shot capture as PNG with alpha kept. It fails when the pixels do
/// not make a `width` by `height` image, or with the encoder's message when
/// the encoder refuses them.
pub fn png_capture_result(bgra: &[u8], width: u32, height: u32) -> (r: Result<
    ScreenCaptureResult,
    String,
>)
    requires
        bgra@.len() % 4 == 0,
    ensures
        ({
            let rgba = bgra_to_rgba_spec(bgra@);
            match r {
                Ok(c) => {
                    &&& fits_exactly(rgba.len(), width, height, 4)
                    &&& png_of(rgba, width, height) is Some
                    &&& c.success
                    &&& c.image_base64 matches Some(d) && d@ == base64_of(
                        png_of(rgba, width, height).unwrap(),
                    )
                    &&& c.width == width
                    &&& c.height == height
                    &&& c.message@ == "Screen captured"@
                },
                Err(e) => {
                    ||| !fits_exactly(rgba.len(), width, height, 4) && e@ == "Failed to create image"@
                    ||| fits_exactly(rgba.len(), width, height, 4) && png_of(rgba, width, height) is None
                    ||| fits_exactly(rgba.len(), width, height, 4) && png_of(rgba, width, height) is Some
                        && !base64_fits(png_of(rgba, width, height).unwrap().len())
                        && e@ == "Image too large to encode"@
                },
            }
        }),
{
    let rgba = bgra_to_rgba(bgra);
    if !fits(rgba.len(), width, height, 4) {
        return Err(String::from_str("Failed to create image"));
    }
    match png_encode(rgba.as_slice(), width, height) {
        Ok(b) => match base64_text(b.as_slice()) {
            Some(data) => Ok(capture_success(data, width, height)),
            None => Err(String::from_str("Image too large to encode")),
        },
        Err(e) => Err(String::from_str("PNG encode error: ").concat(e.as_str())),
    }
}

} // verus!
