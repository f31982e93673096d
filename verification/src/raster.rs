//! Grayscale rasters and their reduction to two levels.

use vstd::prelude::*;

verus! {

/// Intensity at or above which a pixel counts as foreground.
pub const THRESHOLD: u8 = 128;

/// Level given to every foreground pixel of a binarized raster.
pub const FOREGROUND: u8 = 255;

/// Level given to every background pixel of a binarized raster.
pub const BACKGROUND: u8 = 0;

/// The largest number of pixels a raster may hold: borders and positions are
/// numbered with 32-bit signed integers while they are traced.
pub const MAX_PIXELS: u64 = 0x7fff_ffff;

/// What a raster is: its dimensions and its intensities, row by row from the
/// top, each row from the left.
pub struct RasterView {
    pub width: nat,
    pub height: nat,
    pub pixels: Seq<u8>,
}

impl RasterView {
    /// One intensity for every position of the grid, and no more positions
    /// than [`MAX_PIXELS`].
    pub open spec fn well_formed(self) -> bool {
        &&& self.pixels.len() == self.width * self.height
        &&& self.pixels.len() <= MAX_PIXELS
    }

    /// Whether column `p.0` of row `p.1` is a position of the grid.
    pub open spec fn contains(self, p: (int, int)) -> bool {
        0 <= p.0 < self.width && 0 <= p.1 < self.height
    }

    /// The intensity in column `p.0` of row `p.1`.
    pub open spec fn pixel(self, p: (int, int)) -> u8
        recommends
            self.contains(p),
    {
        self.pixels[p.1 * self.width + p.0]
    }

    /// The position holds a pixel at or above the threshold.
    pub open spec fn bright_at(self, p: (int, int)) -> bool {
        self.contains(p) && self.pixel(p) >= THRESHOLD
    }

    /// The position holds a pixel other than zero.
    pub open spec fn non_zero_at(self, p: (int, int)) -> bool {
        self.contains(p) && self.pixel(p) != 0
    }

    /// No pixel reaches the threshold.
    pub open spec fn all_background(self) -> bool {
        forall|i: int| 0 <= i < self.pixels.len() ==> self.pixels[i] < THRESHOLD
    }
}

/// The level a pixel of intensity `p` takes when the raster is binarized.
pub open spec fn binary_level(p: u8) -> u8 {
    if p >= THRESHOLD {
        FOREGROUND
    } else {
        BACKGROUND
    }
}

/// The binarized form of a raster: same grid, every pixel at its binary level.
pub open spec fn binarized(img: RasterView) -> RasterView {
    RasterView {
        width: img.width,
        height: img.height,
        pixels: Seq::new(img.pixels.len(), |i: int| binary_level(img.pixels[i])),
    }
}

/// A position of a well-formed grid has its intensity within the row-major
/// sequence.
pub proof fn lemma_position_is_indexed(img: RasterView, p: (int, int))
    requires
        img.well_formed(),
        img.contains(p),
    ensures
        0 <= p.1 * img.width + p.0 < img.pixels.len(),
{
    let w = img.width as int;
    let h = img.height as int;
    assert(0 <= p.1 * w && p.1 * w + w <= h * w) by (nonlinear_arith)
        requires
            0 <= p.1 < h,
            0 <= w,
    ;
    assert(h * w == w * h) by (nonlinear_arith);
}

/// Every intensity falls on one side of the threshold, always the same one:
/// from 128 up it is foreground, below 128 it is background.
pub proof fn lemma_binary_level_splits(p: u8)
    ensures
        binary_level(p) == FOREGROUND <==> p >= 128,
        binary_level(p) == BACKGROUND <==> p < 128,
{
}

/// Binarizing keeps the grid and splits the intensities at the threshold: a
/// pixel is non-zero afterwards exactly if it was at or above the threshold
/// before.
pub proof fn lemma_binarized_splits_at_threshold(img: RasterView, p: (int, int))
    requires
        img.well_formed(),
        img.contains(p),
    ensures
        binarized(img).well_formed(),
        binarized(img).contains(p),
        binarized(img).pixel(p) == binary_level(img.pixel(p)),
        binarized(img).non_zero_at(p) <==> img.bright_at(p),
{
    lemma_position_is_indexed(img, p);
}

/// An 8-bit grayscale image holding exactly `width * height` intensities, at
/// most [`MAX_PIXELS`] of them.
pub struct GrayRaster {
    width: u32,
    height: u32,
    pixels: Vec<u8>,
}

impl View for GrayRaster {
    type V = RasterView;

    closed spec fn view(&self) -> RasterView {
        RasterView {
            width: self.width as nat,
            height: self.height as nat,
            pixels: self.pixels@,
        }
    }
}

impl GrayRaster {
    /// Holds of every raster: its view is well formed.
    #[verifier::type_invariant]
    pub open spec fn grid_is_full(self) -> bool {
        self@.well_formed()
    }

    /// Builds a raster from its dimensions and row-major intensities, or
    /// nothing if the number of intensities is not `width * height` or
    /// exceeds [`MAX_PIXELS`].
    pub fn new(width: u32, height: u32, pixels: Vec<u8>) -> (r: Option<GrayRaster>)
        ensures
            r is Some <==> (RasterView {
                width: width as nat,
                height: height as nat,
                pixels: pixels@,
            }).well_formed(),
            r matches Some(img) ==> img@ == (RasterView {
                width: width as nat,
                height: height as nat,
                pixels: pixels@,
            }),
    {
        assert(width as nat * height as nat <= 0xffff_ffff * 0xffff_ffff) by (nonlinear_arith)
            requires
                width <= 0xffff_ffff,
                height <= 0xffff_ffff,
        ;
        let cells: u64 = (width as u64) * (height as u64);
        if pixels.len() as u64 == cells && cells <= MAX_PIXELS {
            Some(GrayRaster { width, height, pixels })
        } else {
            None
        }
    }

    /// Number of columns.
    pub fn width(&self) -> (w: u32)
        ensures
            w == self@.width,
    {
        self.width
    }

    /// Number of rows.
    pub fn height(&self) -> (h: u32)
        ensures
            h == self@.height,
    {
        self.height
    }

    /// The intensities, row by row: one for every position of the grid.
    pub fn pixels(&self) -> (p: &Vec<u8>)
        ensures
            p@ == self@.pixels,
            self@.well_formed(),
    {
        proof {
            use_type_invariant(self);
        }
        &self.pixels
    }
}

/// Reduces a raster to two levels: a pixel at or above [`THRESHOLD`] becomes
/// [`FOREGROUND`], every other pixel becomes [`BACKGROUND`].
pub fn binarize(img: &GrayRaster) -> (out: GrayRaster)
    ensures
        out@ == binarized(img@),
{
    proof {
        use_type_invariant(img);
    }
    let n: usize = img.pixels.len();
    let mut levels: Vec<u8> = Vec::with_capacity(n);
    let mut i: usize = 0;
    while i < n
        invariant
            n == img.pixels@.len(),
            i <= n,
            levels@.len() == i,
            forall|k: int| 0 <= k < i ==> levels@[k] == binary_level(#[trigger] img.pixels@[k]),
        decreases n - i,
    {
        let p: u8 = img.pixels[i];
        levels.push(if p >= THRESHOLD { FOREGROUND } else { BACKGROUND });
        i += 1;
    }
    assert(levels@ =~= binarized(img@).pixels);
    GrayRaster { width: img.width, height: img.height, pixels: levels }
}

} // verus!
