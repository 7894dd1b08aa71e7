//! Record-level dispatch over the conversion graph: a record's four raw
//! fields are read as the input format, routed through the corner
//! representation as the hub, and emitted as the output format. The
//! normalized format needs floating-point image arithmetic and is handled
//! by the caller; this module covers the three pixel-space formats.

use vstd::prelude::*;

use crate::bounding_box::BoundingBox;
use crate::bounding_box::CenterBoundingBox;
use crate::bounding_box::IVec2;
use crate::bounding_box::TopLeftBoundingBox;
use crate::bounding_box::in_i32;
use crate::bounding_box::trunc_div;
use crate::format::BoundingBoxen;

verus! {

/// The corner box whose fields `(i, j, k, l)` describe when read as the
/// pixel format `fmt`, as `(min.x, min.y, max.x, max.y)`.
pub open spec fn corner_of_fields(fmt: BoundingBoxen, i: int, j: int, k: int, l: int) -> (
    int,
    int,
    int,
    int,
)
    recommends
        !(fmt is NormalizedCenterBoundingBox),
{
    match fmt {
        BoundingBoxen::TopLeftBoundingBox => (i, j, i + k, j + l),
        BoundingBoxen::CenterBoundingBox => {
            let mx = i - trunc_div(k, 2);
            let my = j - trunc_div(l, 2);
            (mx, my, k + mx, l + my)
        },
        _ => (i, j, k, l),
    }
}

/// The four fields that write the corner box `(mnx, mny, mxx, mxy)` in the
/// pixel format `fmt`.
pub open spec fn fields_of_corner(fmt: BoundingBoxen, mnx: int, mny: int, mxx: int, mxy: int) -> (
    int,
    int,
    int,
    int,
)
    recommends
        !(fmt is NormalizedCenterBoundingBox),
{
    match fmt {
        BoundingBoxen::TopLeftBoundingBox => (mnx, mny, mxx - mnx, mxy - mny),
        BoundingBoxen::CenterBoundingBox => {
            let sx = mxx - mnx;
            let sy = mxy - mny;
            (trunc_div(sx, 2) + mnx, trunc_div(sy, 2) + mny, sx, sy)
        },
        _ => (mnx, mny, mxx, mxy),
    }
}

/// The converted record: identical formats pass the fields through
/// unchanged; otherwise the record is read as the input format, taken to
/// the corner hub, and written as the output format.
pub open spec fn converted_fields(
    input: BoundingBoxen,
    output: BoundingBoxen,
    i: int,
    j: int,
    k: int,
    l: int,
) -> (int, int, int, int) {
    if input == output {
        (i, j, k, l)
    } else {
        let (mnx, mny, mxx, mxy) = corner_of_fields(input, i, j, k, l);
        fields_of_corner(output, mnx, mny, mxx, mxy)
    }
}

/// Holds when every coordinate computed on the way from the input fields
/// to the output fields stays within the signed 32-bit range, so the
/// conversion is free of overflow.
pub open spec fn conversion_fits(
    input: BoundingBoxen,
    output: BoundingBoxen,
    i: int,
    j: int,
    k: int,
    l: int,
) -> bool {
    if input == output {
        true
    } else {
        let (mnx, mny, mxx, mxy) = corner_of_fields(input, i, j, k, l);
        let (a, b, c, d) = fields_of_corner(output, mnx, mny, mxx, mxy);
        in_i32(mnx) && in_i32(mny) && in_i32(mxx) && in_i32(mxy) && in_i32(a) && in_i32(b)
            && in_i32(c) && in_i32(d)
    }
}

/// Law: converting a record from any format to the same format returns
/// the input fields unchanged, and such a conversion always fits.
pub proof fn lemma_identity_conversion(fmt: BoundingBoxen, i: int, j: int, k: int, l: int)
    ensures
        converted_fields(fmt, fmt, i, j, k, l) == (i, j, k, l),
        conversion_fits(fmt, fmt, i, j, k, l),
{
}

/// Reads four pixel fields as the pixel format `fmt` and converts them to
/// the corner hub; `None` exactly when a computed corner overflows `i32`.
fn try_to_corner(fmt: BoundingBoxen, i: i32, j: i32, k: i32, l: i32) -> (r: Option<BoundingBox>)
    requires
        !(fmt is NormalizedCenterBoundingBox),
    ensures
        ({
            let (mnx, mny, mxx, mxy) = corner_of_fields(fmt, i as int, j as int, k as int, l as int);
            &&& r is Some <==> (in_i32(mnx) && in_i32(mny) && in_i32(mxx) && in_i32(mxy))
            &&& r matches Some(b) ==> b.min.0 == mnx && b.min.1 == mny && b.max.0 == mxx
                && b.max.1 == mxy
        }),
{
    match fmt {
        BoundingBoxen::TopLeftBoundingBox => {
            let tl = TopLeftBoundingBox { top_left: IVec2(i, j), size: IVec2(k, l) };
            match (i.checked_add(k), j.checked_add(l)) {
                (Some(_), Some(_)) => Some(BoundingBox::from_top_left(tl)),
                _ => None,
            }
        },
        BoundingBoxen::CenterBoundingBox => {
            let cb = CenterBoundingBox { center: IVec2(i, j), size: IVec2(k, l) };
            let half = cb.size.div(2);
            match (i.checked_sub(half.0), j.checked_sub(half.1)) {
                (Some(mnx), Some(mny)) => match (k.checked_add(mnx), l.checked_add(mny)) {
                    (Some(_), Some(_)) => Some(BoundingBox::from_center(cb)),
                    _ => None,
                },
                _ => None,
            }
        },
        _ => Some(BoundingBox { min: IVec2(i, j), max: IVec2(k, l) }),
    }
}

/// Writes a corner box as the pixel format `fmt`; `None` exactly when a
/// computed field overflows `i32`.
fn try_from_corner(fmt: BoundingBoxen, bbox: BoundingBox) -> (r: Option<(i32, i32, i32, i32)>)
    requires
        !(fmt is NormalizedCenterBoundingBox),
    ensures
        ({
            let (a, b, c, d) = fields_of_corner(
                fmt,
                bbox.min.0 as int,
                bbox.min.1 as int,
                bbox.max.0 as int,
                bbox.max.1 as int,
            );
            &&& r is Some <==> (in_i32(a) && in_i32(b) && in_i32(c) && in_i32(d))
            &&& r matches Some(f) ==> f.0 == a && f.1 == b && f.2 == c && f.3 == d
        }),
{
    match fmt {
        BoundingBoxen::TopLeftBoundingBox => {
            match (bbox.max.0.checked_sub(bbox.min.0), bbox.max.1.checked_sub(bbox.min.1)) {
                (Some(_), Some(_)) => {
                    let t = TopLeftBoundingBox::from_corner(bbox);
                    Some((t.top_left.0, t.top_left.1, t.size.0, t.size.1))
                },
                _ => None,
            }
        },
        BoundingBoxen::CenterBoundingBox => {
            match (bbox.max.0.checked_sub(bbox.min.0), bbox.max.1.checked_sub(bbox.min.1)) {
                (Some(sx), Some(sy)) => {
                    let half = IVec2(sx, sy).div(2);
                    match (half.0.checked_add(bbox.min.0), half.1.checked_add(bbox.min.1)) {
                        (Some(_), Some(_)) => {
                            let c = CenterBoundingBox::from_corner(bbox);
                            Some((c.center.0, c.center.1, c.size.0, c.size.1))
                        },
                        _ => None,
                    }
                },
                _ => None,
            }
        },
        _ => Some((bbox.min.0, bbox.min.1, bbox.max.0, bbox.max.1)),
    }
}

/// Converts one record between two pixel-space formats. The result is
/// `None` when either format is the normalized one, whose fields are
/// fractions of the image dimensions rather than pixel integers, or when
/// a coordinate computed along the way overflows `i32`; otherwise it is
/// exactly the converted record.
pub fn convert_record(
    input: BoundingBoxen,
    output: BoundingBoxen,
    i: i32,
    j: i32,
    k: i32,
    l: i32,
) -> (r: Option<(i32, i32, i32, i32)>)
    ensures
        r is Some <==> (!(input is NormalizedCenterBoundingBox)
            && !(output is NormalizedCenterBoundingBox) && conversion_fits(
            input,
            output,
            i as int,
            j as int,
            k as int,
            l as int,
        )),
        r matches Some(f) ==> ({
            let (a, b, c, d) = converted_fields(input, output, i as int, j as int, k as int, l as int);
            f.0 == a && f.1 == b && f.2 == c && f.3 == d
        }),
{
    if input.is_normalized() || output.is_normalized() {
        return None;
    }
    if input == output {
        return Some((i, j, k, l));
    }
    match try_to_corner(input, i, j, k, l) {
        Some(bbox) => try_from_corner(output, bbox),
        None => None,
    }
}

} // verus!
