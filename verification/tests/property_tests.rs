use image_index::gray::GrayView;
use image_index::index::FloatAxisValue;
use image_index::raster::Raster;
use image_index::{clamp_pixel, get_pixel, in_bounds, ExtendedImageView, ImageCoordinate};

#[test]
fn raster_from_vec_rejects_wrong_length() {
    // Three pixels cannot fill a 2x2 extent.
    assert!(Raster::from_vec(2, 2, vec![1u8, 2, 3]).is_none());
    // Four can.
    assert!(Raster::from_vec(2, 2, vec![1u8, 2, 3, 4]).is_some());
    // An empty extent takes exactly the empty storage.
    assert!(Raster::<u8>::from_vec(0, 0, vec![]).is_some());
    assert!(Raster::from_vec(0, 0, vec![1u8]).is_none());
}

#[test]
fn raster_scenario_two_by_two() {
    // The 2x2 row-major raster [32, 64, 128, 255], addressed through the
    // verified storage of this crate.
    let raster = Raster::from_vec(2, 2, vec![32u8, 64, 128, 255]).unwrap();

    assert_eq!(raster.get_pixel_clamped((-1, -1)), 32);
    assert_eq!(raster.get_pixel_clamped((2, 0)), 64);
    assert_eq!(raster.get_pixel_clamped((-1, 1)), 128);
    assert_eq!(raster.get_pixel_clamped((5, 5)), 255);
    assert_eq!(raster.get_pixel_at((0, 0)), Some(32));
    assert_eq!(raster.get_pixel_at((2, 2)), None);

    // The raw signed-integer forms agree with the generic path.
    assert_eq!(clamp_pixel(&raster, -1, -1), 32);
    assert_eq!(clamp_pixel(&raster, 2, 0), 64);
    assert_eq!(clamp_pixel(&raster, -1, 1), 128);
    assert_eq!(clamp_pixel(&raster, 5, 5), 255);
    assert_eq!(get_pixel(&raster, 0, 0), Some(32));
    assert_eq!(get_pixel(&raster, 2, 2), None);
}

#[test]
fn raster_scenario_empty() {
    // A 0x0 raster admits no coordinate, not even (0, 0).
    let raster = Raster::<u8>::from_vec(0, 0, vec![]).unwrap();
    for (x, y) in [(0, 0), (-1, -1), (1, 1), (1, 0), (0, 1), (-1, 0), (0, -1)] {
        assert!(!raster.within_bounds((x, y)));
        assert!(raster.get_pixel_at((x, y)).is_none());
        assert!(!in_bounds(&raster, x, y));
        assert!(get_pixel(&raster, x, y).is_none());
    }
}

#[test]
fn raster_checked_lookup_matches_storage() {
    // Inside the extent, the checked lookup returns exactly the stored
    // row-major pixel.
    let raster = Raster::from_vec(3, 2, vec![10u8, 11, 12, 20, 21, 22]).unwrap();
    for y in 0..2i32 {
        for x in 0..3i32 {
            let expected = (10 * (y + 1) + x) as u8;
            assert_eq!(raster.get_pixel_at((x, y)), Some(expected));
            assert_eq!(get_pixel(&raster, x, y), Some(expected));
            assert!(raster.within_bounds((x, y)));
        }
    }
}

#[test]
fn float_coordinates_clamp_and_lookup() {
    let raster = Raster::from_vec(2, 2, vec![32u8, 64, 128, 255]).unwrap();

    let nan = FloatAxisValue::NotANumber;
    let pos_inf = FloatAxisValue::PositiveInfinity;
    let neg_inf = FloatAxisValue::NegativeInfinity;
    let neg = FloatAxisValue::NegativeFinite;
    let half = FloatAxisValue::NonNegativeFinite(0);
    let big = FloatAxisValue::NonNegativeFinite(7);

    // Not-a-number clamps to 0 on its axis; positive infinity to the axis's
    // top edge; negative infinity to 0.
    assert_eq!(raster.get_pixel_clamped((nan, nan)), 32);
    assert_eq!(raster.get_pixel_clamped((pos_inf, pos_inf)), 255);
    assert_eq!(raster.get_pixel_clamped((neg_inf, neg_inf)), 32);
    assert_eq!(raster.get_pixel_clamped((pos_inf, nan)), 64);
    assert_eq!(raster.get_pixel_clamped((nan, pos_inf)), 128);
    assert_eq!(raster.get_pixel_clamped((neg, big)), 128);

    // None of the non-finite values converts exactly.
    assert!(raster.get_pixel_at((nan, half)).is_none());
    assert!(raster.get_pixel_at((pos_inf, half)).is_none());
    assert!(raster.get_pixel_at((neg_inf, half)).is_none());
    assert!(raster.get_pixel_at((neg, half)).is_none());
    assert_eq!(raster.get_pixel_at((half, half)), Some(32));
}

#[test]
fn coordinate_conversion_is_all_or_nothing() {
    // One invalid component rejects the whole pair.
    assert_eq!((5i32, -1i32).image_coordinate(), None);
    assert_eq!((-1i32, 5i32).image_coordinate(), None);
    assert_eq!((5i32, 7i32).image_coordinate(), Some((5, 7)));
    assert_eq!([5i64, u32::MAX as i64 + 1].image_coordinate(), None);
    assert_eq!([5u8, 7u8].image_coordinate(), Some((5, 7)));
}

#[test]
fn clamped_coordinate_stays_within_bounds() {
    // The clamped pair lands in [0, right] x [0, bottom].
    assert_eq!((-10i32, 500i32).image_coordinate_clamped(3, 4), (0, 4));
    assert_eq!((500i32, -10i32).image_coordinate_clamped(3, 4), (3, 0));
    assert_eq!((2i32, 2i32).image_coordinate_clamped(3, 4), (2, 2));
    assert_eq!((3i32, 4i32).image_coordinate_clamped(3, 4), (3, 4));
}

#[test]
fn reference_array_coordinates_work() {
    let raster = Raster::from_vec(2, 2, vec![32u8, 64, 128, 255]).unwrap();
    let coord = [1i32, 1i32];
    assert!(raster.within_bounds(&coord));
    assert_eq!(raster.get_pixel_at(&coord), Some(255));
    assert_eq!(raster.get_pixel_clamped(&[9i32, 0i32]), 64);
}

#[test]
fn edges_of_non_empty_raster() {
    let raster = Raster::from_vec(3, 2, vec![0u8; 6]).unwrap();
    assert_eq!(raster.edges(), (2, 1));
}

#[test]
fn gray_from_vec_length_behaviour() {
    // Too few samples for the extent: rejected.
    assert!(GrayView::from_vec(2, 2, vec![1u8, 2, 3]).is_none());
    // More samples than the extent: accepted, the surplus never addressed.
    let oversized = GrayView::from_vec(2, 2, vec![32u8, 64, 128, 255, 9]).unwrap();
    assert_eq!(get_pixel(&oversized, 0, 0), Some(32));
    assert_eq!(get_pixel(&oversized, 1, 1), Some(255));
    assert_eq!(clamp_pixel(&oversized, 9, 9), 255);
    // An exact fit is accepted.
    assert!(GrayView::from_vec(2, 2, vec![0u8; 4]).is_some());
}
