//! The camera whose picture confirms a light transition, and the heuristic
//! that tells from one frame whether its night vision is on.

use vstd::prelude::*;
use crate::raster::{pixel_divergence, total_divergence, Raster, Rgb};

verus! {

/// A fraction `numerator / denominator`.
pub struct Ratio {
    pub numerator: nat,
    pub denominator: nat,
}

/// The score below which a frame counts as taken with night vision, as a
/// fraction with a positive denominator.
#[derive(Clone, Copy, Debug)]
pub struct Threshold {
    numerator: u32,
    denominator: u32,
}

impl View for Threshold {
    type V = Ratio;

    closed spec fn view(&self) -> Ratio {
        Ratio { numerator: self.numerator as nat, denominator: self.denominator as nat }
    }
}

impl Threshold {
    #[verifier::type_invariant]
    closed spec fn positive_denominator(&self) -> bool {
        self.denominator > 0
    }

    /// The threshold `numerator / denominator`; none for a zero denominator.
    pub fn new(numerator: u32, denominator: u32) -> (threshold: Option<Threshold>)
        ensures
            threshold is Some <==> denominator != 0,
            threshold matches Some(t) ==> t@ == (Ratio {
                numerator: numerator as nat,
                denominator: denominator as nat,
            }),
    {
        if denominator == 0 {
            None
        } else {
            Some(Threshold { numerator, denominator })
        }
    }

    pub fn numerator(&self) -> (n: u32)
        ensures
            n == self@.numerator,
    {
        self.numerator
    }

    pub fn denominator(&self) -> (d: u32)
        ensures
            d == self@.denominator,
            d > 0,
    {
        proof {
            use_type_invariant(self);
        }
        self.denominator
    }
}

impl Default for Threshold {
    /// Five thousandths.
    fn default() -> (threshold: Threshold)
        ensures
            threshold@ == (Ratio { numerator: 5, denominator: 1000 }),
    {
        Threshold { numerator: 5, denominator: 1000 }
    }
}

/// Whether a frame of these pixels counts as taken with night vision.
///
/// The score of a frame is its total divergence, divided by the number of
/// pixels and by 765 (three channels of 255); the frame counts when the score
/// is below the threshold. Both sides are multiplied out here, so that the
/// comparison is one of whole numbers. A frame without pixels never counts.
pub open spec fn is_night_vision(pixels: Seq<Rgb>, threshold: Ratio) -> bool {
    total_divergence(pixels) * threshold.denominator < threshold.numerator * 765 * pixels.len()
}

/// Tells from one frame whether the camera's night vision is on: whether its
/// mean colour divergence per pixel, scaled to the unit interval, is below
/// the threshold.
pub fn classify(image: &Raster, threshold: &Threshold) -> (night_vision: bool)
    ensures
        night_vision == is_night_vision(image@.pixels, threshold@),
{
    let count: usize = image.pixel_count();
    let divergence: u128 = image.divergence();
    let numerator: u32 = threshold.numerator();
    let denominator: u32 = threshold.denominator();
    assert(divergence * denominator <= 510 * 0xffff_ffff_ffff_ffff * 0xffff_ffff) by (nonlinear_arith)
        requires
            0 <= divergence <= 510 * count,
            0 <= count <= 0xffff_ffff_ffff_ffff,
            0 <= denominator <= 0xffff_ffff,
    ;
    assert(numerator * 765 * count <= 0xffff_ffff * 765 * 0xffff_ffff_ffff_ffff) by (nonlinear_arith)
        requires
            0 <= count <= 0xffff_ffff_ffff_ffff,
            0 <= numerator <= 0xffff_ffff,
    ;
    assert(numerator * 765 <= 0xffff_ffff * 765) by (nonlinear_arith)
        requires
            0 <= numerator <= 0xffff_ffff,
    ;
    let left: u128 = divergence * (denominator as u128);
    let right: u128 = (numerator as u128) * 765 * (count as u128);
    left < right
}

/// The score of a frame in millionths, rounded down: its total divergence
/// over the number of its pixels and over 765.
pub open spec fn score_millionths(pixels: Seq<Rgb>) -> int
    recommends
        pixels.len() > 0,
{
    total_divergence(pixels) * 1_000_000 / (765 * pixels.len()) as int
}

/// The score of a frame in millionths, rounded down; none for a frame
/// without pixels. It never exceeds two thirds.
pub fn score(image: &Raster) -> (millionths: Option<u32>)
    ensures
        millionths is Some <==> image@.pixels.len() > 0,
        millionths matches Some(m) ==> m == score_millionths(image@.pixels) && m <= 666_666,
{
    let count: usize = image.pixel_count();
    if count == 0 {
        return None;
    }
    let divergence: u128 = image.divergence();
    assert(divergence * 1_000_000 <= 510 * 0xffff_ffff_ffff_ffff * 1_000_000) by (nonlinear_arith)
        requires
            0 <= divergence <= 510 * count,
            0 <= count <= 0xffff_ffff_ffff_ffff,
    ;
    let scaled: u128 = divergence * 1_000_000;
    let weight: u128 = 765 * (count as u128);
    let quotient: u128 = scaled / weight;
    assert(quotient <= 666_666) by (nonlinear_arith)
        requires
            quotient == scaled / weight,
            weight == 765 * count,
            count > 0,
            0 <= scaled <= 510 * count * 1_000_000,
    ;
    Some(quotient as u32)
}

/// With a threshold given in millionths, a frame with pixels counts as night
/// vision exactly when its score in millionths, rounded down, is below it.
pub proof fn lemma_score_decides(pixels: Seq<Rgb>, millionths: nat)
    requires
        pixels.len() > 0,
    ensures
        is_night_vision(pixels, Ratio { numerator: millionths, denominator: 1_000_000 })
            <==> score_millionths(pixels) < millionths,
{
    let scaled = total_divergence(pixels) * 1_000_000;
    let weight = (765 * pixels.len()) as int;
    assert(millionths * 765 * pixels.len() == millionths * weight) by (nonlinear_arith)
        requires
            weight == 765 * pixels.len(),
    ;
    assert((scaled / weight < millionths) <==> (scaled < millionths * weight))
        by (nonlinear_arith)
        requires
            weight > 0,
    ;
}

/// Whether a pixel has no colour: its three channels are equal.
pub open spec fn is_gray(p: Rgb) -> bool {
    p.r == p.g && p.g == p.b
}

/// Whether a pixel alone would score above the threshold.
pub open spec fn is_colourful(p: Rgb, threshold: Ratio) -> bool {
    pixel_divergence(p) * threshold.denominator > threshold.numerator * 765
}

/// The total divergence of pixels without colour is zero.
pub proof fn lemma_gray_divergence(pixels: Seq<Rgb>)
    requires
        forall|i: int| 0 <= i < pixels.len() ==> is_gray(#[trigger] pixels[i]),
    ensures
        total_divergence(pixels) == 0,
    decreases pixels.len(),
{
    if pixels.len() > 0 {
        lemma_gray_divergence(pixels.drop_last());
    }
}

/// Where every pixel alone scores above the threshold, the total divergence,
/// times the denominator, is at least 765 numerators per pixel.
pub proof fn lemma_colourful_divergence(pixels: Seq<Rgb>, threshold: Ratio)
    requires
        forall|i: int| 0 <= i < pixels.len() ==> is_colourful(#[trigger] pixels[i], threshold),
    ensures
        total_divergence(pixels) * threshold.denominator >= threshold.numerator * 765
            * pixels.len(),
    decreases pixels.len(),
{
    if pixels.len() > 0 {
        let rest = pixels.drop_last();
        lemma_colourful_divergence(rest, threshold);
        assert(is_colourful(pixels[pixels.len() - 1], threshold));
        let d = threshold.denominator as int;
        let k = threshold.numerator * 765;
        assert(total_divergence(pixels) * d == total_divergence(rest) * d + pixel_divergence(
            pixels.last(),
        ) * d) by (nonlinear_arith)
            requires
                total_divergence(pixels) == total_divergence(rest) + pixel_divergence(
                    pixels.last(),
                ),
        ;
        assert(k * pixels.len() == k * rest.len() + k) by (nonlinear_arith)
            requires
                pixels.len() == rest.len() + 1,
        ;
    } else {
        assert(threshold.numerator * 765 * pixels.len() == 0) by (nonlinear_arith)
            requires
                pixels.len() == 0,
        ;
    }
}

/// A frame of pixels without colour counts as night vision, however bright
/// or dark it is, as soon as it has a pixel and the threshold is above zero.
pub proof fn lemma_grayscale_is_night_vision(pixels: Seq<Rgb>, threshold: Ratio)
    requires
        forall|i: int| 0 <= i < pixels.len() ==> is_gray(#[trigger] pixels[i]),
        pixels.len() > 0,
        threshold.numerator > 0,
    ensures
        is_night_vision(pixels, threshold),
{
    lemma_gray_divergence(pixels);
    assert(threshold.numerator * 765 * pixels.len() > 0) by (nonlinear_arith)
        requires
            pixels.len() > 0,
            threshold.numerator > 0,
    ;
}

/// A frame in which every pixel alone scores above the threshold does not
/// count as night vision.
pub proof fn lemma_colourful_is_daylight(pixels: Seq<Rgb>, threshold: Ratio)
    requires
        forall|i: int| 0 <= i < pixels.len() ==> is_colourful(#[trigger] pixels[i], threshold),
    ensures
        !is_night_vision(pixels, threshold),
{
    lemma_colourful_divergence(pixels, threshold);
}

/// The answer depends on the pixels and the threshold alone: two frames with
/// the same pixels get the same answer, whatever else differs.
pub proof fn lemma_same_pixels_same_answer(first: Raster, second: Raster, threshold: Threshold)
    requires
        first@.pixels == second@.pixels,
    ensures
        is_night_vision(first@.pixels, threshold@) == is_night_vision(
            second@.pixels,
            threshold@,
        ),
{
}

/// Where the name of the camera comes from.
#[derive(Clone, Debug)]
pub enum Source {
    /// The camera's own name.
    Camera(String),
    /// The name of a selection entity of the hub, whose state names the
    /// camera.
    Select(String),
}

impl Source {
    /// The name in it, of the camera or of the selection.
    pub open spec fn spec_name(&self) -> Seq<char> {
        match self {
            Source::Camera(name) => name@,
            Source::Select(name) => name@,
        }
    }

    /// The name in it, as it is shown.
    pub fn name(&self) -> (name: String)
        ensures
            name@ == self.spec_name(),
    {
        match self {
            Source::Camera(name) => name.clone(),
            Source::Select(name) => name.clone(),
        }
    }
}

/// What `str::to_lowercase` returns for a string.
pub uninterp spec fn lowercase(text: Seq<char>) -> Seq<char>;

/// Calls `str::to_lowercase`. Trusted: the result is the one that `lowercase`
/// names for the text.
#[verifier::external_body]
fn to_lowercase(text: &str) -> (lower: String)
    ensures
        lower@ == lowercase(text@),
{
    text.to_lowercase()
}

/// A camera of the hub, and the threshold that its frames are held to.
#[derive(Debug)]
pub struct Camera {
    source: Source,
    threshold: Threshold,
}

impl Camera {
    pub closed spec fn source(&self) -> Source {
        self.source
    }

    pub closed spec fn threshold(&self) -> Threshold {
        self.threshold
    }

    /// A camera with the default threshold.
    pub fn new(source: Source) -> (camera: Camera)
        ensures
            camera.source() == source,
            camera.threshold()@ == (Ratio { numerator: 5, denominator: 1000 }),
    {
        Camera { source, threshold: Threshold::default() }
    }

    /// A camera with a threshold of the caller's choice.
    pub fn with_threshold(source: Source, threshold: Threshold) -> (camera: Camera)
        ensures
            camera.source() == source,
            camera.threshold() == threshold,
    {
        Camera { source, threshold }
    }

    /// The name of the source, as it is shown.
    pub fn name(&self) -> (name: String)
        ensures
            name@ == self.source().spec_name(),
    {
        self.source.name()
    }

    /// The hub entity to ask for the camera's name: `input_select.` and the
    /// selection's name, or none where the camera is named directly.
    pub fn select_entity(&self) -> (entity: Option<String>)
        ensures
            match self.source() {
                Source::Select(select) => entity matches Some(e) && e@ == "input_select."@
                    + select@,
                Source::Camera(_) => entity is None,
            },
    {
        match &self.source {
            Source::Select(select) => {
                let mut entity = String::from_str("input_select.");
                entity.append(select.as_str());
                Some(entity)
            },
            Source::Camera(_) => None,
        }
    }

    /// The camera that a selection entity names: its state in lower case.
    pub fn selected_camera(state: &str) -> (camera: String)
        ensures
            camera@ == lowercase(state@),
    {
        to_lowercase(state)
    }

    /// Whether this frame shows the camera's night vision to be on.
    pub fn night_vision(&self, image: &Raster) -> (night_vision: bool)
        ensures
            night_vision == is_night_vision(image@.pixels, self.threshold()@),
    {
        classify(image, &self.threshold)
    }
}

} // verus!
