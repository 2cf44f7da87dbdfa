//! Decoded camera frames and the colour statistics taken from them.

use vstd::prelude::*;

verus! {

/// One pixel: its red, green and blue channel.
#[derive(Clone, Copy, Debug, PartialEq, Eq, Structural)]
pub struct Rgb {
    pub r: u8,
    pub g: u8,
    pub b: u8,
}

/// Distance between two channel values.
pub open spec fn channel_gap(a: u8, b: u8) -> int {
    if a >= b {
        a - b
    } else {
        b - a
    }
}

/// Sum of the three pairwise channel distances of a pixel: zero exactly for
/// a pixel without colour, at most 510.
pub open spec fn pixel_divergence(p: Rgb) -> int {
    channel_gap(p.r, p.g) + channel_gap(p.r, p.b) + channel_gap(p.g, p.b)
}

/// Sum of `pixel_divergence` over a run of pixels.
pub open spec fn total_divergence(pixels: Seq<Rgb>) -> int
    decreases pixels.len(),
{
    if pixels.len() == 0 {
        0
    } else {
        total_divergence(pixels.drop_last()) + pixel_divergence(pixels.last())
    }
}

/// What a `Raster` stands for: its dimensions and its pixels, row by row.
pub struct RasterView {
    pub width: nat,
    pub height: nat,
    pub pixels: Seq<Rgb>,
}

/// The pixels held by a byte buffer of interleaved channels; bytes beyond the
/// last whole pixel are not part of any.
pub open spec fn pixels_of(data: Seq<u8>) -> Seq<Rgb> {
    Seq::new(
        (data.len() / 3) as nat,
        |i: int| (Rgb { r: data[3 * i], g: data[3 * i + 1], b: data[3 * i + 2] }),
    )
}

/// Whether a buffer holds exactly `width * height` pixels of three bytes.
pub open spec fn fits(width: u32, height: u32, len: nat) -> bool {
    len == width * height * 3
}

/// The error type of the `image` crate's decoders.
#[verifier::external_type_specification]
#[verifier::external_body]
pub struct ExImageError(image::ImageError);

/// What the `image` crate's built-in decoders make of an encoded picture,
/// seen as RGB with eight bits per channel: width, height and the
/// interleaved channel bytes; `None` where the bytes begin like no format it
/// knows, or are no picture of the format they begin like. The format is the
/// one that `image::guess_format` tells from the first bytes, and the
/// picture the one that `image::load_from_memory_with_format` reads in that
/// format; neither looks at anything but the bytes.
pub uninterp spec fn decoded_rgb8(bytes: Seq<u8>) -> Option<(u32, u32, Seq<u8>)>;

/// Why a camera frame could not be used.
#[derive(Debug)]
pub enum DecodeError {
    /// The bytes are no picture that the decoder reads; with its message.
    Undecodable(String),
    /// The decoder's buffer does not hold `width * height` pixels.
    Misshapen,
}

/// An RGB image with eight bits per channel, rows from top to bottom,
/// channels interleaved.
#[derive(Debug)]
pub struct Raster {
    width: u32,
    height: u32,
    data: Vec<u8>,
}

impl View for Raster {
    type V = RasterView;

    closed spec fn view(&self) -> RasterView {
        RasterView {
            width: self.width as nat,
            height: self.height as nat,
            pixels: pixels_of(self.data@),
        }
    }
}

impl Raster {
    #[verifier::type_invariant]
    closed spec fn shaped(&self) -> bool {
        fits(self.width, self.height, self.data@.len())
    }

    /// Takes a buffer of interleaved channels as an image of the given
    /// dimensions, if it holds exactly that many pixels.
    pub fn from_raw(width: u32, height: u32, data: Vec<u8>) -> (raster: Option<Raster>)
        ensures
            raster is Some <==> fits(width, height, data@.len()),
            raster matches Some(r) ==> r@ == (RasterView {
                width: width as nat,
                height: height as nat,
                pixels: pixels_of(data@),
            }),
    {
        assert(0 <= width * height <= 0xffff_ffff * 0xffff_ffff) by (nonlinear_arith)
            requires
                0 <= width <= 0xffff_ffff,
                0 <= height <= 0xffff_ffff,
        ;
        let area: u64 = (width as u64) * (height as u64);
        let len: u128 = data.len() as u128;
        if len == (area as u128) * 3 {
            Some(Raster { width, height, data })
        } else {
            None
        }
    }

    /// Decodes an encoded camera frame (its format is told from its first
    /// bytes) into RGB.
    ///
    /// Succeeds exactly when the decoder reads the bytes and hands back a
    /// buffer of the size its dimensions call for.
    pub fn decode(bytes: &[u8]) -> (result: Result<Raster, DecodeError>)
        ensures
            match decoded_rgb8(bytes@) {
                Some((w, h, data)) => {
                    if fits(w, h, data.len()) {
                        result matches Ok(r) && r@ == (RasterView {
                            width: w as nat,
                            height: h as nat,
                            pixels: pixels_of(data),
                        })
                    } else {
                        result matches Err(DecodeError::Misshapen)
                    }
                },
                None => result matches Err(DecodeError::Undecodable(_)),
            },
    {
        match load_rgb8(bytes) {
            Ok((width, height, data)) => match Raster::from_raw(width, height, data) {
                Some(raster) => Ok(raster),
                None => Err(DecodeError::Misshapen),
            },
            Err(error) => Err(DecodeError::Undecodable(error_text(&error))),
        }
    }

    pub fn width(&self) -> (w: u32)
        ensures
            w == self@.width,
    {
        self.width
    }

    pub fn height(&self) -> (h: u32)
        ensures
            h == self@.height,
    {
        self.height
    }

    /// Number of pixels.
    pub fn pixel_count(&self) -> (n: usize)
        ensures
            n == self@.pixels.len(),
            n == self@.width * self@.height,
    {
        proof {
            use_type_invariant(self);
        }
        self.data.len() / 3
    }

    /// The pixel at position `index`, counted row by row.
    pub fn pixel(&self, index: usize) -> (p: Rgb)
        requires
            index < self@.pixels.len(),
        ensures
            p == self@.pixels[index as int],
    {
        let len: usize = self.data.len();
        assert(self@.pixels.len() == len / 3);
        let at: usize = index * 3;
        Rgb { r: self.data[at], g: self.data[at + 1], b: self.data[at + 2] }
    }

    /// Sum over all pixels of the three pairwise channel distances.
    pub fn divergence(&self) -> (d: u128)
        ensures
            d == total_divergence(self@.pixels),
            d <= 510 * self@.pixels.len(),
    {
        let n: usize = self.pixel_count();
        let mut sum: u128 = 0;
        let mut i: usize = 0;
        while i < n
            invariant
                n == self@.pixels.len(),
                i <= n,
                sum == total_divergence(self@.pixels.take(i as int)),
                sum <= 510 * i,
            decreases n - i,
        {
            let p = self.pixel(i);
            let d: u16 = gap(p.r, p.g) + gap(p.r, p.b) + gap(p.g, p.b);
            proof {
                let next = self@.pixels.take(i + 1);
                assert(next.drop_last() =~= self@.pixels.take(i as int));
                assert(next.last() == p);
            }
            sum = sum + (d as u128);
            i = i + 1;
        }
        proof {
            assert(self@.pixels.take(n as int) =~= self@.pixels);
        }
        sum
    }
}

/// Calls `image::guess_format` and, with the format it found,
/// `image::load_from_memory_with_format`; turns the picture into RGB with
/// `DynamicImage::to_rgb8` and takes it apart with `width`, `height` and
/// `into_raw`. Decoders and format detectors that were registered with the
/// `image` crate at run time are not asked this way. Trusted: the outcome is
/// the one that `decoded_rgb8` names for these bytes, and an error exactly
/// where that is `None`.
#[verifier::external_body]
fn load_rgb8(bytes: &[u8]) -> (result: Result<(u32, u32, Vec<u8>), image::ImageError>)
    ensures
        match result {
            Ok(parts) => decoded_rgb8(bytes@) == Some((parts.0, parts.1, parts.2@)),
            Err(_) => decoded_rgb8(bytes@) is None,
        },
{
    let format = image::guess_format(bytes)?;
    let picture = image::load_from_memory_with_format(bytes, format)?.to_rgb8();
    Ok((picture.width(), picture.height(), picture.into_raw()))
}

/// Calls `ImageError`'s `to_string`. Nothing is claimed of the text.
#[verifier::external_body]
fn error_text(error: &image::ImageError) -> String {
    error.to_string()
}

/// Distance between two channel values.
fn gap(a: u8, b: u8) -> (d: u16)
    ensures
        d == channel_gap(a, b),
        d <= 255,
{
    if a >= b {
        (a - b) as u16
    } else {
        (b - a) as u16
    }
}

} // verus!
