use bboxconvert::BoundingBox;
use bboxconvert::CenterBoundingBox;
use bboxconvert::IVec2;
use bboxconvert::TopLeftBoundingBox;

#[test]
fn corner_to_top_left_example() {
    let b = BoundingBox { min: IVec2(10, 20), max: IVec2(30, 60) };
    let t = TopLeftBoundingBox::from_corner(b);
    assert_eq!(t.top_left, IVec2(10, 20));
    assert_eq!(t.size, IVec2(20, 40));
}

#[test]
fn center_to_corner_example() {
    let c = CenterBoundingBox { center: IVec2(20, 40), size: IVec2(20, 40) };
    let b = BoundingBox::from_center(c);
    assert_eq!(b.min, IVec2(10, 20));
    assert_eq!(b.max, IVec2(30, 60));
}

#[test]
fn corner_top_left_round_trip_exact() {
    let cases = [
        (10, 20, 30, 60),
        (0, 0, 0, 0),
        (-15, -7, 4, 3),
        (5, 5, 4, 2),
    ];
    for (a, b, c, d) in cases {
        let orig = BoundingBox { min: IVec2(a, b), max: IVec2(c, d) };
        let t = TopLeftBoundingBox::from_corner(orig);
        let back = BoundingBox::from_top_left(t);
        assert_eq!(back, orig);
    }
}

#[test]
fn corner_center_round_trip_size_exact_corners_within_one() {
    let cases = [
        (10, 20, 30, 60),
        (10, 20, 31, 59),
        (0, 0, 5, 7),
        (-9, -3, 4, 2),
        (-8, -6, -1, -1),
    ];
    for (a, b, c, d) in cases {
        let orig = BoundingBox { min: IVec2(a, b), max: IVec2(c, d) };
        let cb = CenterBoundingBox::from_corner(orig);
        let back = BoundingBox::from_center(cb);
        // the size always comes back exactly
        assert_eq!(back.max.0 - back.min.0, orig.max.0 - orig.min.0);
        assert_eq!(back.max.1 - back.min.1, orig.max.1 - orig.min.1);
        // the corners stay within one unit of the originals, even for
        // odd sizes where truncating division rounds the half-size
        assert!((back.min.0 - orig.min.0).abs() <= 1);
        assert!((back.min.1 - orig.min.1).abs() <= 1);
        assert!((back.max.0 - orig.max.0).abs() <= 1);
        assert!((back.max.1 - orig.max.1).abs() <= 1);
        // even-sized boxes come back exactly
        if (orig.max.0 - orig.min.0) % 2 == 0 && (orig.max.1 - orig.min.1) % 2 == 0 {
            assert_eq!(back, orig);
        }
    }
}

#[test]
fn center_computation_truncates_toward_zero() {
    // size (5, 7) halves to (2, 3), truncated toward zero
    let b = BoundingBox { min: IVec2(0, 0), max: IVec2(5, 7) };
    let c = CenterBoundingBox::from_corner(b);
    assert_eq!(c.center, IVec2(2, 3));
    assert_eq!(c.size, IVec2(5, 7));
    // a negative size halves toward zero as well: -5 / 2 == -2
    let neg = CenterBoundingBox { center: IVec2(0, 0), size: IVec2(-5, -7) };
    let back = BoundingBox::from_center(neg);
    assert_eq!(back.min, IVec2(2, 3));
    assert_eq!(back.max, IVec2(-3, -4));
}

#[test]
fn ivec2_arithmetic() {
    assert_eq!(IVec2(3, -4).add(IVec2(10, 6)), IVec2(13, 2));
    assert_eq!(IVec2(3, -4).sub(IVec2(10, 6)), IVec2(-7, -10));
    assert_eq!(IVec2(3, -4).mul(IVec2(10, 6)), IVec2(30, -24));
    assert_eq!(IVec2(7, -7).div(2), IVec2(3, -3));
    assert_eq!(IVec2(7, -7).div(-2), IVec2(-3, 3));
}

#[test]
fn box_lines() {
    let b = BoundingBox { min: IVec2(10, 20), max: IVec2(30, 60) };
    assert_eq!(b.to_line(), "10,20,30,60");
    let t = TopLeftBoundingBox { top_left: IVec2(-1, 0), size: IVec2(2, 3) };
    assert_eq!(t.to_line(), "-1,0,2,3");
    let c = CenterBoundingBox { center: IVec2(20, 40), size: IVec2(20, 40) };
    assert_eq!(c.to_line(), "20,40,20,40");
}
