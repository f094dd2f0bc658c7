use image_index::gray::GrayView;
use image_index::{clamp_pixel, clamp_pixel_unchecked, get_pixel, in_bounds, ExtendedImageView};

#[test]
fn lib_in_bounds_for_empty_image() {
    let image = GrayView::new(0, 0);
    for (x, y) in [(0, 0), (-1, -1), (1, 1), (1, 0), (0, 1), (-1, 0), (0, -1)] {
        assert!(!in_bounds(&image, x, y));
    }
}

#[test]
fn lib_in_bounds_for_non_empty_image() {
    let image = GrayView::new(1, 1);

    assert!(in_bounds(&image, 0, 0));
    for (x, y) in [(-1, -1), (1, 1), (1, 0), (0, 1), (-1, 0), (0, -1)] {
        assert!(!in_bounds(&image, x, y));
    }
}

#[test]
fn lib_lookup_pixel_for_empty_image() {
    let image = GrayView::new(0, 0);
    for (x, y) in [(0, 0), (-1, -1), (1, 1), (1, 0), (0, 1), (-1, 0), (0, -1)] {
        assert!(get_pixel(&image, x, y).is_none());
    }
}

#[test]
fn lib_lookup_pixel_for_non_empty_image() {
    let image = GrayView::from_pixel(1, 1, 255);

    assert!(get_pixel(&image, -1, -1).is_none());
    assert!(get_pixel(&image, 1, 1).is_none());
    assert!(get_pixel(&image, 0, 0).is_some());
    let reference = image::GrayImage::from_pixel(1, 1, image::Luma([255u8]));
    assert_eq!(
        get_pixel(&image, 0, 0),
        reference.get_pixel_checked(0, 0).map(|p| p.0[0])
    );
}

#[test]
fn lib_clamp_pixel_for_non_empty_image() {
    let image = GrayView::from_vec(2, 2, vec![32, 64, 128, 255]).unwrap();
    let (w, h) = (image.width() as i32, image.height() as i32);
    let (b, r) = (h - 1, w - 1);

    // near top-left corner
    assert_eq!(clamp_pixel(&image, -1, -1), 32);
    assert_eq!(clamp_pixel(&image, 0, -1), 32);
    assert_eq!(clamp_pixel(&image, -1, 0), 32);

    // near bottom-right corner
    assert_eq!(clamp_pixel(&image, w, b), 255);
    assert_eq!(clamp_pixel(&image, w, b), 255);
    assert_eq!(clamp_pixel(&image, r, h), 255);

    // near top-right corner
    assert_eq!(clamp_pixel(&image, w, 0), 64);
    assert_eq!(clamp_pixel(&image, r, -1), 64);
    assert_eq!(clamp_pixel(&image, w, -1), 64);

    // near bottom-left corner
    assert_eq!(clamp_pixel(&image, -1, b), 128);
    assert_eq!(clamp_pixel(&image, -1, h), 128);
    assert_eq!(clamp_pixel(&image, 0, h), 128);

    // corners of the image
    assert_eq!(clamp_pixel(&image, 0, 0), 32);
    assert_eq!(clamp_pixel(&image, r, 0), 64);
    assert_eq!(clamp_pixel(&image, 0, b), 128);
    assert_eq!(clamp_pixel(&image, r, b), 255);
}

#[test]
fn clamp_pixel_for_non_empty_image_unsafe() {
    let image = GrayView::from_vec(2, 2, vec![32, 64, 128, 255]).unwrap();
    let (w, h) = (image.width() as i32, image.height() as i32);
    let (b, r) = (h - 1, w - 1);

    // near top-left corner
    assert_eq!(clamp_pixel_unchecked(&image, -1, -1), 32);
    assert_eq!(clamp_pixel_unchecked(&image, 0, -1), 32);
    assert_eq!(clamp_pixel_unchecked(&image, -1, 0), 32);

    // near bottom-right corner
    assert_eq!(clamp_pixel_unchecked(&image, w, b), 255);
    assert_eq!(clamp_pixel_unchecked(&image, w, b), 255);
    assert_eq!(clamp_pixel_unchecked(&image, r, h), 255);

    // near top-right corner
    assert_eq!(clamp_pixel_unchecked(&image, w, 0), 64);
    assert_eq!(clamp_pixel_unchecked(&image, r, -1), 64);
    assert_eq!(clamp_pixel_unchecked(&image, w, -1), 64);

    // near bottom-left corner
    assert_eq!(clamp_pixel_unchecked(&image, -1, b), 128);
    assert_eq!(clamp_pixel_unchecked(&image, -1, h), 128);
    assert_eq!(clamp_pixel_unchecked(&image, 0, h), 128);

    // corners of the image
    assert_eq!(clamp_pixel_unchecked(&image, 0, 0), 32);
    assert_eq!(clamp_pixel_unchecked(&image, r, 0), 64);
    assert_eq!(clamp_pixel_unchecked(&image, 0, b), 128);
    assert_eq!(clamp_pixel_unchecked(&image, r, b), 255);
}

#[test]
#[should_panic]
fn lib_clamp_pixel_for_empty_image() {
    let image = GrayView::new(0, 0);
    clamp_pixel(&image, 0, 0);
}
