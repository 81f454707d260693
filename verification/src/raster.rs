//! Luminance rasters and QR grid detection.
//!
//! A `RasterSample` is one sampling tick's single-channel pixel buffer. Grid
//! detection and payload decoding are done by the `rqrr` crate behind a
//! trusted wrapper; classifying what it found into a `ScanOutcome` is
//! verified code.

use vstd::prelude::*;

use crate::state::{Scan, ScanOutcome};

verus! {

/// Mathematical model of a `RasterSample`: its dimensions and its pixels in
/// row-major order.
pub ghost struct RasterView {
    pub width: nat,
    pub height: nat,
    pub pixels: Seq<u8>,
}

/// An immutable luminance-only pixel buffer for one sampling tick.
pub struct RasterSample {
    width: u32,
    height: u32,
    pixels: Vec<u8>,
}

impl View for RasterSample {
    type V = RasterView;

    closed spec fn view(&self) -> RasterView {
        RasterView {
            width: self.width as nat,
            height: self.height as nat,
            pixels: self.pixels@,
        }
    }
}

impl RasterSample {
    /// A well-formed raster holds exactly one byte per pixel.
    pub open spec fn wf(self) -> bool {
        self@.pixels.len() == self@.width * self@.height
    }

    /// Build a raster from row-major luminance bytes; refused when the byte
    /// count does not match the dimensions.
    pub fn new(width: u32, height: u32, pixels: Vec<u8>) -> (r: Option<RasterSample>)
        ensures
            pixels@.len() == width as nat * height as nat <==> r is Some,
            r matches Some(raster) ==> raster.wf() && raster@ == (RasterView {
                width: width as nat,
                height: height as nat,
                pixels: pixels@,
            }),
    {
        let w64 = width as u64;
        let h64 = height as u64;
        proof {
            assert(w64 * h64 <= 0xffff_ffff * 0xffff_ffffu64) by (nonlinear_arith)
                requires
                    w64 <= 0xffff_ffff,
                    h64 <= 0xffff_ffff,
            ;
        }
        if pixels.len() as u64 == w64 * h64 {
            Some(RasterSample { width, height, pixels })
        } else {
            None
        }
    }

    pub fn width(&self) -> (w: u32)
        ensures
            w as nat == self@.width,
    {
        self.width
    }

    pub fn height(&self) -> (h: u32)
        ensures
            h as nat == self@.height,
    {
        self.height
    }

    pub fn pixels(&self) -> (p: &Vec<u8>)
        ensures
            p@ == self@.pixels,
    {
        &self.pixels
    }

    /// The luminance at column `x` of row `y`.
    pub fn pixel_at(&self, x: usize, y: usize) -> (v: u8)
        requires
            self.wf(),
            x < self@.width,
            y < self@.height,
        ensures
            v == self@.pixels[y * self@.width + x],
    {
        let w = self.width as usize;
        let n = self.pixels.len();
        assert(y * w + x < n) by (nonlinear_arith)
            requires
                x < w,
                y < self@.height,
                w == self@.width,
                n == self@.width * self@.height,
        ;
        self.pixels[y * w + x]
    }
}

/// What decoding a PNG and converting it to 8-bit luminance yield: `None`
/// exactly where the bytes are not a well-formed PNG. Both the success and
/// the resulting raster depend on the input bytes alone, so the whole result
/// carries a name.
pub uninterp spec fn png_luma_of(bytes: Seq<u8>) -> Option<RasterView>;

/// Relies on image 0.25: `load_from_memory_with_format` with
/// `ImageFormat::Png` decodes a PNG exactly when the bytes are a well-formed
/// PNG, and `DynamicImage::to_luma8` converts it to an 8-bit luminance buffer
/// of exactly width * height bytes. Both depend on the input bytes alone.
#[verifier::external_body]
pub(crate) fn decode_png_luma(bytes: &[u8]) -> (r: Option<RasterSample>)
    ensures
        r is Some <==> png_luma_of(bytes@) is Some,
        r matches Some(raster) ==> raster.wf() && png_luma_of(bytes@) == Some(raster@),
{
    match image::load_from_memory_with_format(bytes, image::ImageFormat::Png) {
        Ok(img) => {
            let img = img.to_luma8();
            let (width, height) = (img.width(), img.height());
            Some(RasterSample { width, height, pixels: img.into_raw() })
        },
        Err(_) => None,
    }
}

/// What QR grid detection and decoding yield on a raster: one entry per
/// detected grid, in detection order, holding the decoded text where the
/// grid decoded. Detection is a pure function of the pixels, so its result
/// carries a name rather than a transcription of the algorithm.
pub uninterp spec fn grid_scan_of(raster: RasterView) -> Seq<Option<Seq<char>>>;

/// Relies on rqrr 0.11: `PreparedImage::prepare_from_greyscale` builds a
/// searchable image from luminance bytes (and panics only when the pixel
/// count overflows, ruled out by `wf`), `detect_grids` returns the detected
/// QR grids, and `Grid::decode` returns the decoded text exactly when the
/// grid's payload is readable. All of it depends on the pixels alone.
#[verifier::external_body]
fn detect_and_decode(raster: &RasterSample) -> (grids: Vec<Option<String>>)
    requires
        raster.wf(),
    ensures
        grids.deep_view() == grid_scan_of(raster@),
{
    let mut prepared = rqrr::PreparedImage::prepare_from_greyscale(
        raster.width() as usize,
        raster.height() as usize,
        |x, y| raster.pixel_at(x, y),
    );
    prepared.detect_grids().iter().map(|g| g.decode().ok().map(|p| p.1)).collect()
}

/// How the per-grid decode results of one sample are classified:
/// zero grids is a quiet no-op frame, a single grid either yields its payload
/// or a decode failure, and two or more grids are ambiguous.
pub open spec fn classify(grids: Seq<Option<Seq<char>>>) -> Scan {
    if grids.len() == 0 {
        Scan::NoGrids
    } else if grids.len() == 1 {
        match grids[0] {
            Some(content) => Scan::Decoded(content),
            None => Scan::Undecodable,
        }
    } else {
        Scan::Ambiguous
    }
}

/// Classify the per-grid decode results of one sample.
pub fn classify_scan(grids: Vec<Option<String>>) -> (o: ScanOutcome)
    ensures
        o@ == classify(grids.deep_view()),
{
    let mut grids = grids;
    if grids.len() == 0 {
        ScanOutcome::NoGrids
    } else if grids.len() == 1 {
        let only = grids.pop().unwrap();
        match only {
            Some(content) => ScanOutcome::Decoded(content),
            None => ScanOutcome::Undecodable,
        }
    } else {
        ScanOutcome::Ambiguous
    }
}

/// Search a raster for QR grids and classify what they decoded to.
pub fn scan_raster(raster: &RasterSample) -> (o: ScanOutcome)
    requires
        raster.wf(),
    ensures
        o@ == classify(grid_scan_of(raster@)),
{
    let grids = detect_and_decode(raster);
    classify_scan(grids)
}

} // verus!
