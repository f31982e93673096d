//! The GeoJSON shapes that outlines are reported as: a feature collection of
//! line strings, written out as text.

use crate::contour::{contours_view, path_view, Contour, Point};
use vstd::prelude::*;

verus! {

/// A line through pixel positions, in order. Written out, `x` and `y` become
/// the two numbers of a GeoJSON position, unscaled.
#[derive(Debug, Clone, PartialEq, Eq)]
pub struct LineString {
    pub coordinates: Vec<Point>,
}

impl View for LineString {
    type V = Seq<(int, int)>;

    open spec fn view(&self) -> Seq<(int, int)> {
        path_view(self.coordinates@)
    }
}

/// A feature whose geometry is a line string. It has no identifier, no
/// bounding box and no properties.
#[derive(Debug, Clone, PartialEq, Eq)]
pub struct Feature {
    pub geometry: LineString,
}

impl View for Feature {
    type V = Seq<(int, int)>;

    open spec fn view(&self) -> Seq<(int, int)> {
        self.geometry@
    }
}

/// A list of features, without a bounding box.
#[derive(Debug, Clone, PartialEq, Eq)]
pub struct FeatureCollection {
    pub features: Vec<Feature>,
}

impl View for FeatureCollection {
    type V = Seq<Seq<(int, int)>>;

    open spec fn view(&self) -> Seq<Seq<(int, int)>> {
        Seq::new(self.features@.len(), |i: int| self.features@[i]@)
    }
}

/// The GeoJSON text of a feature collection that holds one line-string
/// feature for each of `lines`, in order.
pub uninterp spec fn geojson_text(lines: Seq<Seq<(int, int)>>) -> Seq<char>;

/// The feature for one contour: a line string through the same positions in
/// the same order.
pub fn line_string_feature(contour: &Contour) -> (feature: Feature)
    ensures
        feature@ == contour@,
{
    let n: usize = contour.points.len();
    let mut coordinates: Vec<Point> = Vec::with_capacity(n);
    let mut i: usize = 0;
    while i < n
        invariant
            n == contour.points@.len(),
            i <= n,
            coordinates@ == contour.points@.take(i as int),
        decreases n - i,
    {
        coordinates.push(contour.points[i]);
        i += 1;
        assert(coordinates@ =~= contour.points@.take(i as int));
    }
    assert(coordinates@ =~= contour.points@);
    Feature { geometry: LineString { coordinates } }
}

/// The feature collection for a list of contours: one feature for each
/// contour, in the list's order.
pub fn collect_features(contours: &Vec<Contour>) -> (collection: FeatureCollection)
    ensures
        collection@ == contours_view(contours@),
{
    let n: usize = contours.len();
    let mut features: Vec<Feature> = Vec::with_capacity(n);
    let mut i: usize = 0;
    while i < n
        invariant
            n == contours@.len(),
            i <= n,
            features@.len() == i,
            forall|k: int| 0 <= k < i ==> (#[trigger] features@[k])@ == contours@[k]@,
        decreases n - i,
    {
        features.push(line_string_feature(&contours[i]));
        i += 1;
    }
    let collection = FeatureCollection { features };
    assert(collection@ =~= contours_view(contours@));
    collection
}

/// Builds the `geojson` crate's feature collection for `collection`, each
/// feature with a `LineString` geometry and nothing else, and writes it out
/// with `GeoJson`'s `to_string`.
///
/// Trusted: the text is a function of the positions alone. Every coordinate
/// is a whole number below 2^32, which a double holds exactly.
#[verifier::external_body]
fn geojson_to_string(collection: &FeatureCollection) -> (text: String)
    ensures
        text@ == geojson_text(collection@),
{
    let features = collection.features.iter().map(|f| geojson::Feature {
        bbox: None,
        geometry: Some(geojson::Geometry::new(geojson::Value::LineString(
            f.geometry.coordinates.iter().map(|p| vec![p.x.into(), p.y.into()]).collect(),
        ))),
        id: None,
        properties: None,
        foreign_members: None,
    }).collect();
    geojson::GeoJson::from(geojson::FeatureCollection { bbox: None, features, foreign_members: None })
        .to_string()
}

impl FeatureCollection {
    /// The collection as GeoJSON text.
    pub fn to_geojson(&self) -> (text: String)
        ensures
            text@ == geojson_text(self@),
    {
        geojson_to_string(self)
    }
}

} // verus!
