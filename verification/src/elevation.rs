//! Heights along a line: what is asked of the service, and what it answers.

use crate::number::{Double, Float};
use crate::shapes::{Precision, ShapePoint};
use vstd::prelude::*;

verus! {

/// A request for the heights along a line. The line is given either as
/// points or as encoded text, not as both.
#[derive(Clone, Debug, PartialEq)]
pub struct Manifest {
    /// Name of the request, which the answer repeats.
    pub id: Option<String>,
    /// Number of decimal places of the heights.
    pub height_precision: Option<HeightPrecision>,
    /// Whether the answer gives, with each height, the distance along the
    /// line.
    pub range: Option<bool>,
    /// Distance in metres between the points at which the line is sampled.
    pub resample_distance: Option<Double>,
    /// The line as points.
    pub shape: Option<Vec<ShapePoint>>,
    /// The line as encoded text.
    pub encoded_polyline: Option<String>,
    /// Precision of the encoded text.
    pub shape_format: Option<ShapeFormat>,
}

impl Manifest {
    /// A request with nothing set.
    pub open spec fn unset() -> Self {
        Manifest {
            id: None,
            height_precision: None,
            range: None,
            resample_distance: None,
            shape: None,
            encoded_polyline: None,
            shape_format: None,
        }
    }

    /// Whether the line is given in one way at most: where it is given as
    /// points, neither encoded text nor a precision of it is set.
    pub open spec fn spec_is_consistent(&self) -> bool {
        self.shape is Some ==> self.encoded_polyline is None && self.shape_format is None
    }

    /// The precision at which the encoded text is read: the one that is
    /// set, or six digits.
    pub open spec fn spec_precision(&self) -> Precision {
        match self.shape_format {
            Some(format) => format.spec_precision(),
            None => Precision::Six,
        }
    }

    /// A request with nothing set, to be filled in by the methods below.
    pub fn builder() -> (r: Self)
        ensures
            r == Self::unset(),
    {
        Manifest {
            id: None,
            height_precision: None,
            range: None,
            resample_distance: None,
            shape: None,
            encoded_polyline: None,
            shape_format: None,
        }
    }

    /// Sets the name of the request, which the answer repeats.
    pub fn id(self, id: &str) -> (r: Self)
        ensures
            r.id matches Some(text) && text@ == id@,
            r == (Manifest { id: r.id, ..self }),
    {
        Manifest { id: Some(id.to_owned()), ..self }
    }

    /// Asks for the distance along the line with each height, from which
    /// the line can be drawn in profile.
    pub fn include_range(self) -> (r: Self)
        ensures
            r == (Manifest { range: Some(true), ..self }),
    {
        Manifest { range: Some(true), ..self }
    }

    /// Sets the distance in metres between the points at which the line is
    /// sampled.
    pub fn resample_distance(self, resample_distance_meters: Double) -> (r: Self)
        ensures
            r == (Manifest { resample_distance: Some(resample_distance_meters), ..self }),
    {
        Manifest { resample_distance: Some(resample_distance_meters), ..self }
    }

    /// Sets the number of decimal places of the heights.
    pub fn height_precision(self, height_precision: HeightPrecision) -> (r: Self)
        ensures
            r == (Manifest { height_precision: Some(height_precision), ..self }),
    {
        Manifest { height_precision: Some(height_precision), ..self }
    }

    /// Sets the precision of the encoded text.
    pub fn shape_format(self, shape_format: ShapeFormat) -> (r: Self)
        ensures
            r == (Manifest { shape_format: Some(shape_format), ..self }),
    {
        Manifest { shape_format: Some(shape_format), ..self }
    }

    /// Sets the line as points, which are visited in their order.
    pub fn shape(self, shape: Vec<ShapePoint>) -> (r: Self)
        ensures
            r == (Manifest { shape: Some(shape), ..self }),
    {
        Manifest { shape: Some(shape), ..self }
    }

    /// Sets the line as encoded text.
    pub fn encoded_polyline(self, encoded_polyline: &str) -> (r: Self)
        ensures
            r.encoded_polyline matches Some(text) && text@ == encoded_polyline@,
            r == (Manifest { encoded_polyline: r.encoded_polyline, ..self }),
    {
        Manifest { encoded_polyline: Some(encoded_polyline.to_owned()), ..self }
    }

    /// Whether the line is given in one way at most.
    #[verifier::when_used_as_spec(spec_is_consistent)]
    pub fn is_consistent(&self) -> (b: bool)
        ensures
            b == self.spec_is_consistent(),
    {
        self.shape.is_none() || (self.encoded_polyline.is_none() && self.shape_format.is_none())
    }

    /// The precision at which the encoded text is read.
    #[verifier::when_used_as_spec(spec_precision)]
    pub fn precision(&self) -> (p: Precision)
        ensures
            p == self.spec_precision(),
    {
        match self.shape_format {
            Some(format) => format.precision(),
            None => Precision::Six,
        }
    }
}

impl Default for Manifest {
    /// The request with nothing set.
    fn default() -> (r: Self)
        ensures
            r == Self::unset(),
    {
        Self::builder()
    }
}

/// Number of decimal places of the heights in an answer. The service names
/// each by its place in this list, counted from zero.
#[derive(Clone, Copy, Debug, PartialEq, Eq, Structural)]
pub enum HeightPrecision {
    /// Whole metres, such as `123`.
    ZeroDecimalPlaces,
    /// Tenths of a metre, such as `123.3`.
    OneDecimalPlace,
    /// Hundredths of a metre, such as `123.34`.
    TwoDecimalPlaces,
}

impl Default for HeightPrecision {
    fn default() -> (r: Self)
        ensures
            r == HeightPrecision::ZeroDecimalPlaces,
    {
        HeightPrecision::ZeroDecimalPlaces
    }
}

/// Precision of the encoded text of a line.
#[derive(Clone, Copy, Debug, PartialEq, Eq, Structural)]
pub enum ShapeFormat {
    /// Six digits.
    Polyline6,
    /// Five digits.
    Polyline5,
}

impl ShapeFormat {
    /// The precision as the codec knows it.
    pub open spec fn spec_precision(self) -> Precision {
        match self {
            ShapeFormat::Polyline6 => Precision::Six,
            ShapeFormat::Polyline5 => Precision::Five,
        }
    }

    /// The precision as the codec knows it.
    #[verifier::when_used_as_spec(spec_precision)]
    pub fn precision(self) -> (p: Precision)
        ensures
            p == self.spec_precision(),
    {
        match self {
            ShapeFormat::Polyline6 => Precision::Six,
            ShapeFormat::Polyline5 => Precision::Five,
        }
    }
}

impl Default for ShapeFormat {
    fn default() -> (r: Self)
        ensures
            r == ShapeFormat::Polyline6,
    {
        ShapeFormat::Polyline6
    }
}

/// The heights along a line.
#[derive(Clone, Debug)]
pub struct Response {
    /// Name of the request, where it was given one.
    pub id: Option<String>,
    /// The line as points, where the request gave it so.
    pub shape: Option<Vec<ShapePoint>>,
    /// The line as encoded text, where the request gave it so.
    pub encoded_polyline: Option<String>,
    /// For each point, its distance along the line and its height, where
    /// the request asked for the distance. The height is missing where the
    /// service has none for the point.
    pub range_height: Vec<Option<(Double, Option<Double>)>>,
    /// Distance along the line up to the point.
    pub x_coordinate: Option<Double>,
    /// Height of the point.
    pub y_coordinate: Option<Double>,
    /// The height of each point.
    pub height: Vec<Float>,
    /// Warnings, such as of an option that is no longer in use or of a
    /// value that was cut to its limit.
    pub warnings: Vec<serde_json::Value>,
}

} // verus!
