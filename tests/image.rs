use raytracer::image::{image_height, print_image, PpmImage, MAX_DEPTH, SAMPLES_PER_PIXEL};
use raytracer::ppm::Rgb;

#[test]
fn it_works() {
    print_image(800);
}

#[test]
fn demo_job_settings() {
    let job = print_image(800);
    assert_eq!(job.samples_per_pixel, 100);
    assert_eq!(job.max_depth, 50);
    assert_eq!(SAMPLES_PER_PIXEL, 100);
    assert_eq!(MAX_DEPTH, 50);
    assert_eq!(job.image.width(), 800);
    assert_eq!(job.image.height(), 450);
    assert_eq!(job.image.as_bytes().as_slice(), b"P3\n800 450\n255\n");
    assert_eq!(job.image.pixel_count(), 360000);
    assert_eq!(job.image.next_pixel(), Some((0, 0)));
    assert!(!job.image.is_complete());
}

#[test]
fn height_rounds_down_and_keeps_one_row() {
    assert_eq!(image_height(800, 16, 9), 450);
    assert_eq!(image_height(400, 16, 9), 225);
    assert_eq!(image_height(17, 16, 9), 9);
    assert_eq!(image_height(16, 16, 9), 9);
    assert_eq!(image_height(1, 16, 9), 1);
    assert_eq!(image_height(0, 16, 9), 1);
    assert_eq!(image_height(-40, 16, 9), 1);
    assert_eq!(image_height(200, 2, 1), 100);
}

#[test]
fn height_saturates_at_the_largest_row_count() {
    assert_eq!(image_height(i32::MAX, 1, 2), i32::MAX);
    assert_eq!(image_height(i32::MAX, 1, 1), i32::MAX);
}

#[test]
fn pixels_come_in_row_major_order() {
    let mut img = PpmImage::new(3, 2);
    let mut order = Vec::new();
    while let Some((i, j)) = img.next_pixel() {
        order.push((i, j));
        img.push_pixel(Rgb { r: 0, g: 0, b: 0 });
    }
    assert_eq!(order, vec![(0, 0), (1, 0), (2, 0), (0, 1), (1, 1), (2, 1)]);
    assert!(img.is_complete());
    assert_eq!(img.next_pixel(), None);
}

#[test]
fn image_text_holds_every_pixel_line() {
    let mut img = PpmImage::new(2, 1);
    img.push_pixel(Rgb { r: 255, g: 0, b: 7 });
    img.push_pixel(Rgb { r: 10, g: 128, b: 99 });
    assert!(img.is_complete());
    assert_eq!(
        String::from_utf8(img.as_bytes().clone()).unwrap(),
        "P3\n2 1\n255\n255 0 7\n10 128 99\n"
    );
}

#[test]
fn empty_image_has_only_a_header() {
    let img = PpmImage::new(0, 1);
    assert_eq!(img.pixel_count(), 0);
    assert!(img.is_complete());
    assert_eq!(img.next_pixel(), None);
    assert_eq!(img.as_bytes().as_slice(), b"P3\n0 1\n255\n");
    let neg = PpmImage::new(-5, 1);
    assert_eq!(neg.pixel_count(), 0);
    assert_eq!(neg.as_bytes().as_slice(), b"P3\n-5 1\n255\n");
}
