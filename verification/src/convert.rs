//! The conversion as a whole: base64 text of an image in, GeoJSON text out.

use crate::codec::{base64_decoding, decode_base64, load_gray_image};
use crate::contour::{find_contours, traced_borders};
use crate::error::ConversionError;
use crate::geometry::{collect_features, geojson_text, FeatureCollection};
use crate::raster::{
    binarize, binarized, lemma_binarized_splits_at_threshold, GrayRaster, RasterView,
};
use vstd::prelude::*;

verus! {

/// The outlines of a raster: the borders traced in its binarized form.
pub open spec fn outlines(img: RasterView) -> Seq<Seq<(int, int)>> {
    let binary = binarized(img);
    traced_borders(binary.width, binary.height, binary.pixels)
}

/// The GeoJSON text that reports the outlines of a raster.
pub open spec fn outline_text(img: RasterView) -> Seq<char> {
    geojson_text(outlines(img))
}

/// Every position of every line lies on a pixel of the raster that is at or
/// above the threshold.
pub open spec fn lie_on_bright(lines: Seq<Seq<(int, int)>>, img: RasterView) -> bool {
    forall|c: int, k: int|
        0 <= c < lines.len() && 0 <= k < lines[c].len() ==> img.bright_at(#[trigger] lines[c][k])
}

/// Binarizes a raster, traces the border of every foreground region and
/// reports each border as one line-string feature, in the order traced.
///
/// Every coordinate reported is the position of a pixel at or above the
/// threshold, and a raster without such a pixel has no feature.
pub fn trace_raster(img: &GrayRaster) -> (collection: FeatureCollection)
    ensures
        collection@ == outlines(img@),
        lie_on_bright(collection@, img@),
        img@.all_background() ==> collection@.len() == 0,
{
    proof {
        use_type_invariant(img);
    }
    let binary = binarize(img);
    let contours = find_contours(&binary);
    let collection = collect_features(&contours);
    proof {
        assert forall|c: int, k: int|
            0 <= c < collection@.len() && 0 <= k < collection@[c].len() implies img@.bright_at(
            #[trigger] collection@[c][k],
        ) by {
            let p = collection@[c][k];
            assert(binary@.non_zero_at(p));
            lemma_binarized_splits_at_threshold(img@, p);
        }
    }
    collection
}

/// The GeoJSON text for the outlines of a raster.
pub fn vectorize_raster(img: &GrayRaster) -> (text: String)
    ensures
        text@ == outline_text(img@),
        img@.all_background() ==> text@ == geojson_text(Seq::empty()),
{
    let collection = trace_raster(img);
    assert(img@.all_background() ==> collection@ =~= Seq::empty());
    collection.to_geojson()
}

/// What the conversion answers once the image has been loaded, or has failed
/// to load: the GeoJSON text of the outlines, or the failure's message.
pub fn report(loaded: Result<GrayRaster, ConversionError>) -> (text: String)
    ensures
        match loaded {
            Ok(img) => text@ == outline_text(img@),
            Err(e) => text@ == e.spec_message(),
        },
{
    match loaded {
        Ok(img) => vectorize_raster(&img),
        Err(e) => e.message(),
    }
}

/// Converts the base64 text of an image file into the GeoJSON text of the
/// outlines of its bright regions.
///
/// Text that is not base64 is answered with the base64 failure's message, and
/// bytes that are not a loadable image with the image failure's message.
pub fn vetorizar_imagem(base64_img: &str) -> (text: String)
    ensures
        base64_decoding(base64_img@) is None ==> text@ == ConversionError::Base64.spec_message(),
        base64_decoding(base64_img@) is Some ==> {
            ||| text@ == ConversionError::Image.spec_message()
            ||| exists|img: RasterView| img.well_formed() && text@ == outline_text(img)
        },
{
    match decode_base64(base64_img) {
        Ok(bytes) => {
            let loaded = load_gray_image(&bytes);
            report(loaded)
        },
        Err(e) => e.message(),
    }
}

/// The text reported for a raster depends on the raster alone: equal rasters
/// are reported with equal text.
pub proof fn lemma_equal_rasters_equal_text(a: RasterView, b: RasterView)
    requires
        a.width == b.width,
        a.height == b.height,
        a.pixels.len() == b.pixels.len(),
        forall|i: int| 0 <= i < a.pixels.len() ==> a.pixels[i] == b.pixels[i],
    ensures
        outlines(a) == outlines(b),
        outline_text(a) == outline_text(b),
{
    assert(a.pixels =~= b.pixels);
}

} // verus!
