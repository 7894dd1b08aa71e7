use bboxconvert::BoundingBoxen;
use bboxconvert::MissingImageSizeError;
use bboxconvert::UnknownFormatError;
use bboxconvert::convert::convert_record;
use bboxconvert::decimal::i32_to_decimal;
use bboxconvert::decimal::record_line;
use bboxconvert::format::check_image_size;
use bboxconvert::format::image_size_required;

#[test]
fn aliases_resolve() {
    for s in ["bb", "bbox", "xyxy"] {
        assert_eq!(BoundingBoxen::from_str(s), Ok(BoundingBoxen::BoundingBox));
    }
    for s in ["tlbb", "tlbbox", "top-left-bounding-box"] {
        assert_eq!(BoundingBoxen::from_str(s), Ok(BoundingBoxen::TopLeftBoundingBox));
    }
    for s in ["cbb", "cbbox", "center-bounding-box"] {
        assert_eq!(BoundingBoxen::from_str(s), Ok(BoundingBoxen::CenterBoundingBox));
    }
    for s in ["ncbb", "ncbbox", "normalized-center-bounding-box", "yolo"] {
        assert_eq!(BoundingBoxen::from_str(s), Ok(BoundingBoxen::NormalizedCenterBoundingBox));
    }
}

#[test]
fn aliases_are_case_sensitive_and_exact() {
    for s in ["BB", "Bbox", "XYXY", "bboxx", "", " bb", "bb ", "yolov5"] {
        assert_eq!(BoundingBoxen::from_str(s), Err(UnknownFormatError));
    }
}

#[test]
fn normalized_endpoint_needs_image_size() {
    // selecting the normalized format as input or output without both
    // dimensions is a configuration error, caught before any record
    let n = BoundingBoxen::NormalizedCenterBoundingBox;
    let p = BoundingBoxen::BoundingBox;
    assert_eq!(check_image_size(n, p, None, None), Err(MissingImageSizeError));
    assert_eq!(check_image_size(p, n, None, None), Err(MissingImageSizeError));
    assert_eq!(check_image_size(p, n, Some(200), None), Err(MissingImageSizeError));
    assert_eq!(check_image_size(p, n, None, Some(200)), Err(MissingImageSizeError));
    assert_eq!(check_image_size(n, n, Some(200), Some(100)), Ok(()));
    assert_eq!(check_image_size(p, p, None, None), Ok(()));
    assert!(image_size_required(n, p));
    assert!(image_size_required(p, n));
    assert!(!image_size_required(p, BoundingBoxen::CenterBoundingBox));
}

#[test]
fn identity_conversion_passes_fields_through() {
    for fmt in [
        BoundingBoxen::BoundingBox,
        BoundingBoxen::TopLeftBoundingBox,
        BoundingBoxen::CenterBoundingBox,
    ] {
        assert_eq!(convert_record(fmt, fmt, 7, -3, 21, 9), Some((7, -3, 21, 9)));
    }
}

#[test]
fn one_record_bbox_to_tlbbox() {
    // the record "10,20,30,60" converted bbox -> tlbbox prints "10,20,20,40"
    let out = convert_record(
        BoundingBoxen::BoundingBox,
        BoundingBoxen::TopLeftBoundingBox,
        10,
        20,
        30,
        60,
    )
    .unwrap();
    assert_eq!(out, (10, 20, 20, 40));
    assert_eq!(record_line(out.0, out.1, out.2, out.3), "10,20,20,40");
}

#[test]
fn conversion_graph_through_hub() {
    // tlbbox -> cbbox routes through the corner hub
    let out = convert_record(
        BoundingBoxen::TopLeftBoundingBox,
        BoundingBoxen::CenterBoundingBox,
        10,
        20,
        20,
        40,
    );
    assert_eq!(out, Some((20, 40, 20, 40)));
    // cbbox -> bbox
    let out = convert_record(
        BoundingBoxen::CenterBoundingBox,
        BoundingBoxen::BoundingBox,
        20,
        40,
        20,
        40,
    );
    assert_eq!(out, Some((10, 20, 30, 60)));
    // bbox -> cbbox with an odd size truncates the half-size toward zero
    let out = convert_record(
        BoundingBoxen::BoundingBox,
        BoundingBoxen::CenterBoundingBox,
        0,
        0,
        5,
        7,
    );
    assert_eq!(out, Some((2, 3, 5, 7)));
}

#[test]
fn normalized_endpoints_are_not_pixel_conversions() {
    let n = BoundingBoxen::NormalizedCenterBoundingBox;
    assert_eq!(convert_record(n, BoundingBoxen::BoundingBox, 0, 0, 1, 1), None);
    assert_eq!(convert_record(BoundingBoxen::BoundingBox, n, 0, 0, 1, 1), None);
    assert_eq!(convert_record(n, n, 0, 0, 1, 1), None);
}

#[test]
fn conversion_overflow_yields_none() {
    // top_left + size overflows i32 on the way to the corner hub
    let out = convert_record(
        BoundingBoxen::TopLeftBoundingBox,
        BoundingBoxen::BoundingBox,
        i32::MAX,
        0,
        1,
        0,
    );
    assert_eq!(out, None);
    // the same fields pass through unchanged when no conversion happens
    let out = convert_record(
        BoundingBoxen::TopLeftBoundingBox,
        BoundingBoxen::TopLeftBoundingBox,
        i32::MAX,
        0,
        1,
        0,
    );
    assert_eq!(out, Some((i32::MAX, 0, 1, 0)));
}

#[test]
fn decimal_rendering() {
    assert_eq!(i32_to_decimal(0), "0");
    assert_eq!(i32_to_decimal(7), "7");
    assert_eq!(i32_to_decimal(-1), "-1");
    assert_eq!(i32_to_decimal(1234567890), "1234567890");
    assert_eq!(i32_to_decimal(i32::MAX), "2147483647");
    assert_eq!(i32_to_decimal(i32::MIN), "-2147483648");
    assert_eq!(record_line(10, 20, 20, 40), "10,20,20,40");
    assert_eq!(record_line(-1, 0, 1, -2147483648), "-1,0,1,-2147483648");
}
