//! One sampling tick: from the pixel surface's data-URL export to a session
//! update.
//!
//! The host exports the surface as a base64-encoded, data-URL-wrapped PNG.
//! The fixed data-URL prefix (`data:image/png;base64,`, 22 bytes) is stripped,
//! the remainder is base64-decoded, the PNG is decoded to a luminance raster,
//! and the raster's scan outcome is fed to the session. A frame that fails
//! anywhere along the way leaves the session exactly as it was: per-tick
//! failures never escalate.

use vstd::prelude::*;

use crate::raster::{classify, decode_png_luma, png_luma_of, RasterSample};
use crate::raster::{grid_scan_of, scan_raster};
use crate::state::{scan_step, Session};

verus! {

/// Length in bytes of the fixed `data:image/png;base64,` prefix the host's
/// surface export puts in front of the PNG payload.
pub const DATA_URL_PREFIX_LEN: usize = 22;

/// Whether one sampling tick should proceed to draw, export and decode. The
/// camera stream and the pixel surface mount asynchronously after the loop
/// starts, so a missing handle only skips the tick; so does a surface that
/// still has a zero pixel dimension. A skipped tick is a quiet no-op, not an
/// error.
pub fn tick_ready(
    video_mounted: bool,
    surface_mounted: bool,
    surface_width: u32,
    surface_height: u32,
) -> (ready: bool)
    ensures
        ready == (video_mounted && surface_mounted && surface_width > 0 && surface_height > 0),
{
    video_mounted && surface_mounted && surface_width > 0 && surface_height > 0
}

/// What base64 decoding yields: `None` exactly where the input is not
/// well-formed base64. Both the success and the decoded bytes depend on the
/// input bytes alone, so the whole result carries a name.
pub uninterp spec fn base64_decoding_of(text: Seq<u8>) -> Option<Seq<u8>>;

/// Relies on base64 0.23, `Engine::decode` with the
/// `engine::general_purpose::STANDARD` engine: the standard alphabet with
/// padding; it returns the decoded bytes exactly for well-formed base64
/// input, and both the success and the bytes depend on the input alone.
#[verifier::external_body]
fn base64_decode(text: &[u8]) -> (r: Option<Vec<u8>>)
    ensures
        r.deep_view() == base64_decoding_of(text@),
{
    base64::Engine::decode(&base64::engine::general_purpose::STANDARD, text).ok()
}

/// The raster a data-URL export decodes to, as far as the outside decoders
/// are concerned: the prefix stripped, the rest base64-decoded, the PNG
/// decoded to luminance. `None` where the export is shorter than its fixed
/// prefix or either decoder refuses its input.
pub open spec fn raster_of_data_url(data_url: Seq<u8>) -> Option<crate::raster::RasterView> {
    if data_url.len() < DATA_URL_PREFIX_LEN {
        None
    } else {
        match base64_decoding_of(data_url.skip(DATA_URL_PREFIX_LEN as int)) {
            Some(png) => png_luma_of(png),
            None => None,
        }
    }
}

/// Decode one surface export into a luminance raster. `None` exactly when the
/// export is shorter than its fixed prefix, or the base64 body or the PNG it
/// holds is malformed.
pub fn raster_from_data_url(data_url: &[u8]) -> (r: Option<RasterSample>)
    ensures
        r is Some <==> raster_of_data_url(data_url@) is Some,
        r matches Some(raster) ==> raster.wf() && raster_of_data_url(data_url@) == Some(
            raster@,
        ),
{
    if data_url.len() < DATA_URL_PREFIX_LEN {
        return None;
    }
    let body = vstd::slice::slice_subrange(data_url, DATA_URL_PREFIX_LEN, data_url.len());
    assert(body@ == data_url@.skip(DATA_URL_PREFIX_LEN as int));
    match base64_decode(body) {
        Some(png) => {
            assert(png.deep_view() =~= png@);
            decode_png_luma(png.as_slice())
        },
        None => None,
    }
}

/// Feed one raster sample to the session.
pub fn process_raster(session: &mut Session, raster: &RasterSample)
    requires
        raster.wf(),
    ensures
        final(session)@ == scan_step(old(session)@, classify(grid_scan_of(raster@))),
{
    let outcome = scan_raster(raster);
    session.apply_scan(outcome);
}

/// One full sampling tick: decode the surface export and feed the session
/// whatever it yielded. A frame that does not decode to a raster — too short,
/// malformed base64, malformed PNG — leaves the session exactly as it was:
/// per-tick failures are absorbed locally and never escalate.
pub fn process_data_url(session: &mut Session, data_url: &[u8])
    ensures
        final(session)@ == match raster_of_data_url(data_url@) {
            Some(raster) => scan_step(old(session)@, classify(grid_scan_of(raster))),
            None => old(session)@,
        },
{
    match raster_from_data_url(data_url) {
        Some(raster) => process_raster(session, &raster),
        None => {},
    }
}

} // verus!
