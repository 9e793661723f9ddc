//! The image-encoding boundary: a raster (an RGBA pixel buffer with its
//! dimensions) is compressed to a PNG byte stream and then put into a
//! text-safe base64 form for embedding in a response line. The two codecs are
//! outside crates; what they return is named here and everything around the
//! calls is verified.
use vstd::prelude::*;
use vstd::string::StringExecFns;
use crate::protocol::DaemonError;
use base64::Engine;

verus! {

/// The PNG byte stream that the image codec produces for an RGBA raster of
/// the given dimensions. A function of its arguments alone.
pub uninterp spec fn png_of(pixels: Seq<u8>, width: u32, height: u32) -> Seq<u8>;

/// The standard base64 form (with padding) of a byte stream. A function of
/// its argument alone.
pub uninterp spec fn b64_of(bytes: Seq<u8>) -> Seq<char>;

/// No character of `s` is the batch payload separator.
pub open spec fn comma_free(s: Seq<char>) -> bool {
    forall|i: int| 0 <= i < s.len() ==> s[i] != ','
}

/// An in-memory pixel buffer produced by a render call, prior to compression:
/// RGBA, row-major, four bytes per pixel.
#[derive(Debug)]
pub struct Raster {
    pub width: u32,
    pub height: u32,
    pub pixels: Vec<u8>,
}

impl Raster {
    /// The buffer holds exactly one RGBA quadruple per pixel.
    pub open spec fn wf(self) -> bool {
        self.pixels@.len() == 4 * (self.width as nat) * (self.height as nat)
    }
}

/// Relies on `image::RgbaImage::from_raw` (`Some` whenever the buffer holds
/// at least `4 * width * height` bytes) and `ImageBuffer::write_to` with
/// `ImageFormat::Png`, whose output is a function of the pixel data and
/// dimensions alone. Writing to an in-memory cursor, the PNG encoder's only
/// failure paths are a zero width or height and a buffer-length mismatch;
/// the `requires` rules the mismatch out, so with nonzero dimensions the
/// call succeeds.
#[verifier::external_body]
fn png_encode_rgba(pixels: &Vec<u8>, width: u32, height: u32) -> (r: Result<Vec<u8>, String>)
    requires
        pixels@.len() == 4 * (width as nat) * (height as nat),
    ensures
        r matches Ok(b) ==> b@ == png_of(pixels@, width, height),
        width > 0 && height > 0 ==> r is Ok,
{
    let img = image::RgbaImage::from_raw(width, height, pixels.clone()).unwrap();
    let mut out: Vec<u8> = Vec::new();
    match img.write_to(&mut std::io::Cursor::new(&mut out), image::ImageFormat::Png) {
        Ok(()) => Ok(out),
        Err(e) => Err(format!("{e}")),
    }
}

/// Relies on base64's `STANDARD` engine `encode`: the standard alphabet
/// (`A`-`Z`, `a`-`z`, `0`-`9`, `+`, `/`, padding `=`) never contains a comma,
/// and the result is a function of the input bytes alone.
#[verifier::external_body]
fn b64_encode(bytes: &Vec<u8>) -> (r: String)
    ensures
        r@ == b64_of(bytes@),
        comma_free(r@),
{
    base64::engine::general_purpose::STANDARD.encode(bytes)
}

/// Relies on base64's `STANDARD` engine `decode`, the inverse of `encode`: it
/// succeeds exactly on canonical encodings (the engine rejects non-canonical
/// padding and trailing bits), and hands back the bytes that encode to the
/// input.
#[verifier::external_body]
fn b64_decode(s: &str) -> (r: Result<Vec<u8>, String>)
    ensures
        r matches Ok(v) ==> s@ == b64_of(v@),
        r is Err ==> (forall|b: Seq<u8>| s@ != b64_of(b)),
        r matches Ok(v) ==> (forall|b: Seq<u8>| s@ == b64_of(b) ==> v@ == b),
{
    match base64::engine::general_purpose::STANDARD.decode(s) {
        Ok(v) => Ok(v),
        Err(e) => Err(format!("{e}")),
    }
}

/// Converts a raster into its transport form: PNG-compressed, then base64.
/// It succeeds on every well-formed raster with nonzero dimensions; a buffer
/// that does not match its dimensions surfaces as the encode error, and no
/// input aborts the daemon.
pub fn encode_png(raster: &Raster) -> (r: Result<String, DaemonError>)
    ensures
        r matches Ok(s) ==> raster.wf() && s@ == b64_of(
            png_of(raster.pixels@, raster.width, raster.height),
        ) && comma_free(s@),
        r matches Err(e) ==> (e matches DaemonError::Encode { .. }),
        !raster.wf() ==> r is Err,
        raster.wf() && raster.width > 0 && raster.height > 0 ==> r is Ok,
{
    let w = raster.width as u64;
    let h = raster.height as u64;
    let len: usize = raster.pixels.len();
    assert(w * h <= 0xFFFF_FFFFu64 * 0xFFFF_FFFFu64) by (nonlinear_arith)
        requires
            w <= 0xFFFF_FFFFu64,
            h <= 0xFFFF_FFFFu64,
    ;
    let wh = w * h;
    proof {
        assert(wh == (raster.width as nat) * (raster.height as nat)) by (nonlinear_arith)
            requires
                w == raster.width as u64,
                h == raster.height as u64,
                wh == w * h,
        ;
        if raster.wf() {
            assert(raster.pixels@.len() == 4 * wh) by (nonlinear_arith)
                requires
                    raster.pixels@.len() == 4 * (raster.width as nat) * (raster.height as nat),
                    wh == (raster.width as nat) * (raster.height as nat),
            ;
        }
    }
    if wh > u64::MAX / 4 {
        // a well-formed buffer of 4 * wh bytes cannot exist on this machine
        proof {
            if raster.wf() {
                assert(len == raster.pixels@.len());
                assert(false);
            }
        }
        return Err(DaemonError::Encode {
            detail: String::from_str("raster buffer does not match its dimensions"),
        });
    }
    let expected = 4 * wh;
    if len as u64 != expected {
        proof {
            if raster.wf() {
                assert(false);
            }
        }
        return Err(DaemonError::Encode {
            detail: String::from_str("raster buffer does not match its dimensions"),
        });
    }
    proof {
        assert(raster.pixels@.len() == 4 * wh);
        assert(raster.pixels@.len() == 4 * (raster.width as nat) * (raster.height as nat))
            by (nonlinear_arith)
            requires
                raster.pixels@.len() == 4 * wh,
                wh == (raster.width as nat) * (raster.height as nat),
        ;
    }
    match png_encode_rgba(&raster.pixels, raster.width, raster.height) {
        Ok(bytes) => Ok(b64_encode(&bytes)),
        Err(detail) => Err(DaemonError::Encode { detail }),
    }
}

/// Putting a byte stream through the text-safe encoding and back reproduces
/// it exactly.
pub fn b64_round_trip(bytes: &Vec<u8>) -> (r: Vec<u8>)
    ensures
        r@ == bytes@,
{
    let enc = b64_encode(bytes);
    let dec = b64_decode(enc.as_str());
    assert(enc@ == b64_of(bytes@));
    match dec {
        Ok(v) => v,
        Err(_) => {
            proof {
                assert(false);
            }
            Vec::new()
        },
    }
}

} // verus!
