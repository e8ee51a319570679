//! Frames: a raw capture (width, height, packed RGBA bytes) is turned into
//! an encoded frame (a JPEG byte buffer) for the wire. The alpha channel is
//! capture-only metadata with no meaning on the wire, so it is dropped
//! before encoding. Frames are not retained: each is produced, sent, and
//! discarded.
use vstd::prelude::*;

use crate::errors::ConnectionError;

verus! {

/// JPEG quality used for every frame of a session: a fixed bandwidth /
/// fidelity tradeoff, chosen once and not renegotiated.
pub const JPEG_QUALITY: u8 = 60;

/// Largest width or height that a JPEG image can carry.
pub const JPEG_MAX_DIMENSION: u32 = 65535;

/// A raw capture of one display: `rgba` holds one four-byte RGBA quadruple
/// per pixel, row by row.
pub struct RawFrame {
    /// Width of the capture in pixels.
    pub width: u32,
    /// Height of the capture in pixels.
    pub height: u32,
    /// Packed RGBA bytes, `4 * width * height` of them.
    pub rgba: Vec<u8>,
}

impl RawFrame {
    /// The buffer holds exactly one RGBA quadruple per pixel.
    pub open spec fn wf(self) -> bool {
        self.rgba@.len() == 4 * ((self.width as int) * (self.height as int))
    }
}

/// One encoded frame, ready to be sent as a single binary WebSocket
/// message: a complete JPEG image of the captured display.
pub struct EncodedFrame {
    /// Width of the encoded image in pixels.
    pub width: u32,
    /// Height of the encoded image in pixels.
    pub height: u32,
    /// The JPEG bytes.
    pub data: Vec<u8>,
}

/// The RGB bytes kept when the alpha channel is dropped: of each four-byte
/// RGBA quadruple, the first three bytes survive, in order; a trailing
/// fragment of fewer than four bytes is dropped.
pub open spec fn rgb_of(rgba: Seq<u8>) -> Seq<u8>
    decreases rgba.len(),
{
    if rgba.len() < 4 {
        Seq::empty()
    } else {
        seq![rgba[0], rgba[1], rgba[2]] + rgb_of(rgba.skip(4))
    }
}

/// Dropping the alpha channel keeps three bytes of every four.
pub proof fn lemma_rgb_of_len(rgba: Seq<u8>)
    requires
        rgba.len() % 4 == 0,
    ensures
        4 * rgb_of(rgba).len() == 3 * rgba.len(),
    decreases rgba.len(),
{
    if rgba.len() >= 4 {
        assert(rgba.skip(4).len() % 4 == 0);
        lemma_rgb_of_len(rgba.skip(4));
    }
}

/// Extending a whole number of quadruples by one more quadruple extends
/// the kept bytes by that quadruple's first three bytes.
proof fn lemma_rgb_of_step(s: Seq<u8>, n: int)
    requires
        0 <= n,
        n % 4 == 0,
        n + 4 <= s.len(),
    ensures
        rgb_of(s.take(n + 4)) == rgb_of(s.take(n)) + seq![s[n], s[n + 1], s[n + 2]],
    decreases n,
{
    if n == 0 {
        assert(s.take(4).skip(4) =~= Seq::<u8>::empty());
        assert(s.take(0) =~= Seq::<u8>::empty());
        assert(rgb_of(s.take(4)) =~= rgb_of(s.take(0)) + seq![s[0], s[1], s[2]]);
    } else {
        let t = s.skip(4);
        assert(s.take(n + 4).skip(4) =~= t.take(n));
        assert(s.take(n).skip(4) =~= t.take(n - 4));
        lemma_rgb_of_step(t, n - 4);
        assert(t[n - 4] == s[n] && t[n - 3] == s[n + 1] && t[n - 2] == s[n + 2]);
        assert(rgb_of(s.take(n + 4)) == seq![s[0], s[1], s[2]] + rgb_of(t.take(n)));
        assert(rgb_of(s.take(n)) == seq![s[0], s[1], s[2]] + rgb_of(t.take(n - 4)));
        assert(rgb_of(s.take(n + 4)) =~= rgb_of(s.take(n)) + seq![s[n], s[n + 1], s[n + 2]]);
    }
}

/// Drop the alpha channel of a packed RGBA buffer: keep the first three
/// bytes of every four-byte quadruple.
pub fn rgba_to_rgb(rgba: &[u8]) -> (rgb: Vec<u8>)
    requires
        rgba@.len() % 4 == 0,
    ensures
        rgb@ == rgb_of(rgba@),
{
    let n = rgba.len();
    let pixels = n / 4;
    let mut rgb: Vec<u8> = Vec::new();
    proof {
        assert(rgba@.take(0) =~= Seq::<u8>::empty());
    }
    let mut i: usize = 0;
    while i < pixels
        invariant
            n == rgba@.len(),
            n % 4 == 0,
            pixels == n / 4,
            0 <= i <= pixels,
            rgb@ == rgb_of(rgba@.take(4 * i)),
        decreases pixels - i,
    {
        proof {
            lemma_rgb_of_step(rgba@, 4 * i);
        }
        rgb.push(rgba[4 * i]);
        rgb.push(rgba[4 * i + 1]);
        rgb.push(rgba[4 * i + 2]);
        i += 1;
    }
    proof {
        assert(rgba@.take(4 * (n / 4) as int) =~= rgba@);
    }
    rgb
}

/// Check the shape of a capture and accept it as a raw frame: accepted
/// exactly when both dimensions fit a JPEG image and the buffer holds one
/// four-byte RGBA quadruple per pixel. A dimension outside the JPEG range
/// is an encode failure — the encoder would reject it — and a buffer of
/// the wrong length is a capture failure; both end only the connection.
pub fn validate_capture(width: u32, height: u32, rgba: Vec<u8>) -> (r: Result<
    RawFrame,
    ConnectionError,
>)
    ensures
        r is Ok <==> (1 <= width <= JPEG_MAX_DIMENSION && 1 <= height <= JPEG_MAX_DIMENSION
            && rgba@.len() == 4 * ((width as int) * (height as int))),
        r matches Ok(f) ==> f.width == width && f.height == height && f.rgba@ == rgba@ && f.wf(),
        r == Err::<RawFrame, ConnectionError>(ConnectionError::EncodeFailed) <==> !(1 <= width
            <= JPEG_MAX_DIMENSION && 1 <= height <= JPEG_MAX_DIMENSION),
        r == Err::<RawFrame, ConnectionError>(ConnectionError::CaptureFailed) <==> (1 <= width
            <= JPEG_MAX_DIMENSION && 1 <= height <= JPEG_MAX_DIMENSION && rgba@.len() != 4 * ((
        width as int) * (height as int))),
{
    if width == 0 || width > JPEG_MAX_DIMENSION || height == 0 || height > JPEG_MAX_DIMENSION {
        return Err(ConnectionError::EncodeFailed);
    }
    proof {
        assert((width as int) * (height as int) <= 65535 * 65535) by (nonlinear_arith)
            requires
                1 <= width <= 65535,
                1 <= height <= 65535,
        ;
    }
    let pixels: u64 = (width as u64) * (height as u64);
    let expected: u64 = 4 * pixels;
    if rgba.len() as u64 != expected {
        return Err(ConnectionError::CaptureFailed);
    }
    Ok(RawFrame { width, height, rgba })
}

/// What the JPEG encoder produces from an RGB buffer of the given
/// dimensions at the given quality. The encoding is a function of these
/// arguments alone.
pub uninterp spec fn jpeg_encoding(rgb: Seq<u8>, width: u32, height: u32, quality: u8) -> Seq<u8>;

/// Relies on image's `JpegEncoder::new_with_quality` and its
/// `ImageEncoder::write_image`: encoding is deterministic in the buffer,
/// the dimensions and the quality; it succeeds exactly when both dimensions
/// are between 1 and 65535, since writes to a `Vec` sink cannot fail; and a
/// produced image starts with the two-byte JPEG start-of-image marker. The
/// buffer length precondition keeps `write_image` from panicking.
#[verifier::external_body]
fn encode_jpeg_rgb(rgb: &[u8], width: u32, height: u32, quality: u8) -> (r: Result<
    Vec<u8>,
    ConnectionError,
>)
    requires
        rgb@.len() == 3 * ((width as int) * (height as int)),
    ensures
        r is Ok <==> (1 <= width <= JPEG_MAX_DIMENSION && 1 <= height <= JPEG_MAX_DIMENSION),
        r matches Ok(v) ==> v@ == jpeg_encoding(rgb@, width, height, quality) && v@.len() >= 2
            && v@[0] == 0xff && v@[1] == 0xd8,
        r matches Err(e) ==> e == ConnectionError::EncodeFailed,
{
    let mut out: Vec<u8> = Vec::new();
    let encoder = image::codecs::jpeg::JpegEncoder::new_with_quality(&mut out, quality);
    match image::ImageEncoder::write_image(
        encoder,
        rgb,
        width,
        height,
        image::ExtendedColorType::Rgb8,
    ) {
        Ok(()) => Ok(out),
        Err(_) => Err(ConnectionError::EncodeFailed),
    }
}

/// Encode one raw capture as a JPEG frame: drop the alpha channel, then
/// compress at the given quality. Succeeds exactly when the capture's
/// dimensions fit a JPEG image; the encoded frame keeps the capture's
/// pixel dimensions.
pub fn encode_frame(frame: &RawFrame, quality: u8) -> (r: Result<EncodedFrame, ConnectionError>)
    requires
        frame.wf(),
    ensures
        r is Ok <==> (1 <= frame.width <= JPEG_MAX_DIMENSION && 1 <= frame.height
            <= JPEG_MAX_DIMENSION),
        r matches Ok(e) ==> e.width == frame.width && e.height == frame.height && e.data@
            == jpeg_encoding(rgb_of(frame.rgba@), frame.width, frame.height, quality)
            && e.data@.len() >= 2 && e.data@[0] == 0xff && e.data@[1] == 0xd8,
        r matches Err(e) ==> e == ConnectionError::EncodeFailed,
{
    proof {
        let p = (frame.width as int) * (frame.height as int);
        vstd::arithmetic::div_mod::lemma_mod_multiples_basic(p, 4);
        lemma_rgb_of_len(frame.rgba@);
    }
    let rgb = rgba_to_rgb(frame.rgba.as_slice());
    match encode_jpeg_rgb(rgb.as_slice(), frame.width, frame.height, quality) {
        Ok(data) => Ok(EncodedFrame { width: frame.width, height: frame.height, data }),
        Err(e) => Err(e),
    }
}

} // verus!
