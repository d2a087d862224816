//! Frame upscaling: exact bilinear resampling of RGB rasters, PNG frame
//! processing, frame selection in a directory listing, failure aggregation
//! for a batch, and the argument lists handed to the encoder tool.

pub mod batch;
pub mod codec;
pub mod ffmpeg;
pub mod laws;
pub mod raster;
pub mod scan;

use vstd::prelude::*;

verus! {

/// The character sequences of a list of strings.
pub open spec fn string_views(s: Seq<String>) -> Seq<Seq<char>> {
    s.map_values(|x: String| x@)
}

} // verus!
