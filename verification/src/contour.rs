//! Outlines of the foreground regions of a raster.

use crate::raster::{GrayRaster, RasterView};
use vstd::prelude::*;

verus! {

/// A pixel position: column `x`, row `y`, counted from the top left.
#[derive(Debug, Clone, Copy, PartialEq, Eq, Structural)]
pub struct Point {
    pub x: u32,
    pub y: u32,
}

impl View for Point {
    type V = (int, int);

    open spec fn view(&self) -> (int, int) {
        (self.x as int, self.y as int)
    }
}

/// The positions along one outline, in the order in which it was walked.
pub open spec fn path_view(points: Seq<Point>) -> Seq<(int, int)> {
    Seq::new(points.len(), |i: int| points[i]@)
}

/// The border of one foreground region, as the pixels met while walking it.
#[derive(Debug, Clone, PartialEq, Eq)]
pub struct Contour {
    pub points: Vec<Point>,
}

impl View for Contour {
    type V = Seq<(int, int)>;

    open spec fn view(&self) -> Seq<(int, int)> {
        path_view(self.points@)
    }
}

/// The outlines held by a list of contours, in the list's order.
pub open spec fn contours_view(contours: Seq<Contour>) -> Seq<Seq<(int, int)>> {
    Seq::new(contours.len(), |i: int| contours[i]@)
}

/// Every position of every border is a non-zero pixel of the raster.
pub open spec fn lie_on_foreground(borders: Seq<Seq<(int, int)>>, img: RasterView) -> bool {
    forall|c: int, k: int|
        0 <= c < borders.len() && 0 <= k < borders[c].len() ==> img.non_zero_at(
            #[trigger] borders[c][k],
        )
}

/// The borders that Suzuki and Abe's border following finds in a raster whose
/// non-zero pixels are foreground, in the order in which a scan from the top
/// left meets them.
pub uninterp spec fn traced_borders(width: nat, height: nat, pixels: Seq<u8>) -> Seq<Seq<(int, int)>>;

/// Calls `imageproc::contours::find_contours` on a copy of the raster.
///
/// Trusted: the borders returned are a function of the raster alone; every
/// position of a border lies within the foreground; and a raster without a
/// non-zero pixel has no border. The tracer numbers borders and positions
/// with `i32`, which the raster's size limit keeps in range.
#[verifier::external_body]
fn imageproc_find_contours(img: &GrayRaster) -> (found: Vec<Contour>)
    requires
        img@.well_formed(),
    ensures
        contours_view(found@) == traced_borders(img@.width, img@.height, img@.pixels),
        lie_on_foreground(contours_view(found@), img@),
        (forall|i: int| 0 <= i < img@.pixels.len() ==> img@.pixels[i] == 0) ==> found@.len() == 0,
{
    let gray = image::GrayImage::from_raw(img.width(), img.height(), img.pixels().clone()).unwrap();
    imageproc::contours::find_contours::<u32>(&gray)
        .into_iter()
        .map(|c| Contour { points: c.points.into_iter().map(|p| Point { x: p.x, y: p.y }).collect() })
        .collect()
}

/// Traces the border of every foreground region of a raster; every non-zero
/// pixel counts as foreground. Outer borders and the borders of holes are
/// reported alike, in the order in which a scan from the top left meets them.
pub fn find_contours(img: &GrayRaster) -> (found: Vec<Contour>)
    ensures
        contours_view(found@) == traced_borders(img@.width, img@.height, img@.pixels),
        lie_on_foreground(contours_view(found@), img@),
        (forall|i: int| 0 <= i < img@.pixels.len() ==> img@.pixels[i] == 0) ==> found@.len() == 0,
{
    proof {
        use_type_invariant(img);
    }
    imageproc_find_contours(img)
}

} // verus!
