use webp_converter::raster::{resize_image, resized_dimensions, Raster};

#[test]
fn dimensions_that_fit_are_kept() {
    assert_eq!(resized_dimensions(700, 700), (700, 700));
    assert_eq!(resized_dimensions(10, 700), (10, 700));
    assert_eq!(resized_dimensions(0, 0), (0, 0));
}

#[test]
fn longer_side_becomes_700() {
    assert_eq!(resized_dimensions(1400, 700), (700, 350));
    assert_eq!(resized_dimensions(700, 1400), (350, 700));
    assert_eq!(resized_dimensions(1000, 333), (700, 233));
    assert_eq!(resized_dimensions(333, 1000), (233, 700));
    assert_eq!(resized_dimensions(1001, 1001), (700, 700));
    assert_eq!(resized_dimensions(701, 3), (700, 3));
    assert_eq!(resized_dimensions(2000, 1), (700, 0));
    assert_eq!(resized_dimensions(u32::MAX, u32::MAX - 1), (700, 700));
}

#[test]
fn rounding_takes_halves_up() {
    assert_eq!(resized_dimensions(1400, 1), (700, 1));
    assert_eq!(resized_dimensions(1400, 3), (700, 2));
    assert_eq!(resized_dimensions(3000, 1000), (700, 233));
}

#[test]
fn raster_needs_four_bytes_per_pixel() {
    assert!(Raster::from_rgba(2, 3, vec![0; 24]).is_some());
    assert!(Raster::from_rgba(2, 3, vec![0; 23]).is_none());
    assert!(Raster::from_rgba(2, 3, vec![0; 25]).is_none());
    assert!(Raster::from_rgba(0, 5, vec![]).is_some());
}

#[test]
fn small_image_is_returned_unchanged() {
    let pixels: Vec<u8> = (0..(4 * 3 * 2)).map(|i| i as u8).collect();
    let img = Raster::from_rgba(3, 2, pixels.clone()).unwrap();
    let out = resize_image(img);
    assert_eq!(out.width(), 3);
    assert_eq!(out.height(), 2);
    assert_eq!(out.pixels(), &pixels);
}

#[test]
fn large_image_is_scaled_down() {
    let img = Raster::from_rgba(1400, 10, vec![200; 4 * 1400 * 10]).unwrap();
    let out = resize_image(img);
    assert_eq!(out.width(), 700);
    assert_eq!(out.height(), 5);
    assert_eq!(out.pixels().len(), 4 * 700 * 5);
}

#[test]
fn tall_image_is_scaled_down() {
    let img = Raster::from_rgba(3, 1050, vec![7; 4 * 3 * 1050]).unwrap();
    let out = resize_image(img);
    assert_eq!((out.width(), out.height()), (2, 700));
    assert_eq!(out.into_pixels().len(), 4 * 2 * 700);
}
