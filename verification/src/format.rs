//! Named bounding-box formats, their command-line aliases, and the
//! configuration rule tying the normalized format to image dimensions.

use vstd::prelude::*;

verus! {

/// The four bounding-box representations a record can be read or written as.
#[derive(Clone, Copy, Debug, PartialEq, Eq, Structural)]
pub enum BoundingBoxen {
    BoundingBox,
    TopLeftBoundingBox,
    CenterBoundingBox,
    NormalizedCenterBoundingBox,
}

/// Error for a format name that matches no alias.
#[derive(Clone, Copy, Debug, PartialEq, Eq, Structural)]
pub struct UnknownFormatError;

/// Error for a configuration that selects the normalized format without
/// supplying both image dimensions.
#[derive(Clone, Copy, Debug, PartialEq, Eq, Structural)]
pub struct MissingImageSizeError;

/// The format each alias resolves to; `None` for an unrecognized name.
/// Alias resolution is a case-sensitive exact match.
pub open spec fn format_of_alias(s: Seq<char>) -> Option<BoundingBoxen> {
    if s == "bb"@ || s == "bbox"@ || s == "xyxy"@ {
        Some(BoundingBoxen::BoundingBox)
    } else if s == "tlbb"@ || s == "tlbbox"@ || s == "top-left-bounding-box"@ {
        Some(BoundingBoxen::TopLeftBoundingBox)
    } else if s == "cbb"@ || s == "cbbox"@ || s == "center-bounding-box"@ {
        Some(BoundingBoxen::CenterBoundingBox)
    } else if s == "ncbb"@ || s == "ncbbox"@ || s == "normalized-center-bounding-box"@
        || s == "yolo"@ {
        Some(BoundingBoxen::NormalizedCenterBoundingBox)
    } else {
        None
    }
}

/// Relies on `str`'s `PartialEq`: two string slices are equal exactly when
/// their character sequences are equal.
#[verifier::external_body]
fn str_eq(a: &str, b: &str) -> (r: bool)
    ensures
        r == (a@ == b@),
{
    a == b
}

impl BoundingBoxen {
    /// Resolves a format alias; every format has one or more short and
    /// long aliases, matched case-sensitively.
    pub fn from_str(s: &str) -> (r: Result<Self, UnknownFormatError>)
        ensures
            match format_of_alias(s@) {
                Some(f) => r == Ok::<Self, UnknownFormatError>(f),
                None => r == Err::<Self, UnknownFormatError>(UnknownFormatError),
            },
    {
        if str_eq(s, "bb") || str_eq(s, "bbox") || str_eq(s, "xyxy") {
            Ok(BoundingBoxen::BoundingBox)
        } else if str_eq(s, "tlbb") || str_eq(s, "tlbbox") || str_eq(s, "top-left-bounding-box") {
            Ok(BoundingBoxen::TopLeftBoundingBox)
        } else if str_eq(s, "cbb") || str_eq(s, "cbbox") || str_eq(s, "center-bounding-box") {
            Ok(BoundingBoxen::CenterBoundingBox)
        } else if str_eq(s, "ncbb") || str_eq(s, "ncbbox")
            || str_eq(s, "normalized-center-bounding-box") || str_eq(s, "yolo") {
            Ok(BoundingBoxen::NormalizedCenterBoundingBox)
        } else {
            Err(UnknownFormatError)
        }
    }

    /// True for the normalized center format, the only representation
    /// that needs external image dimensions.
    pub fn is_normalized(self) -> (r: bool)
        ensures
            r == (self is NormalizedCenterBoundingBox),
    {
        match self {
            BoundingBoxen::NormalizedCenterBoundingBox => true,
            _ => false,
        }
    }
}

/// True when converting between these two formats needs the image
/// dimensions: exactly when either endpoint is the normalized format.
pub fn image_size_required(input: BoundingBoxen, output: BoundingBoxen) -> (r: bool)
    ensures
        r == (input is NormalizedCenterBoundingBox || output is NormalizedCenterBoundingBox),
{
    input.is_normalized() || output.is_normalized()
}

/// Checks the configuration rule: the image width and height are both
/// required if and only if either endpoint format is normalized; their
/// absence in that case is a configuration error, to be reported before
/// any record is converted.
pub fn check_image_size(
    input: BoundingBoxen,
    output: BoundingBoxen,
    width: Option<i32>,
    height: Option<i32>,
) -> (r: Result<(), MissingImageSizeError>)
    ensures
        r is Ok <==> ((input is NormalizedCenterBoundingBox
            || output is NormalizedCenterBoundingBox) ==> (width is Some && height is Some)),
        r is Err ==> r == Err::<(), MissingImageSizeError>(MissingImageSizeError),
{
    if image_size_required(input, output) && (width.is_none() || height.is_none()) {
        Err(MissingImageSizeError)
    } else {
        Ok(())
    }
}

} // verus!
