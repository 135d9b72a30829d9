use termpic::raster::brightness_img;
use termpic::raster::grayscale_img;
use termpic::raster::hue_rotate_img;
use termpic::raster::invert_img;
use termpic::raster::remove_bg_color;
use termpic::Image;
use termpic::Pixel;
use termpic::Rgb;

fn px(r: u8, g: u8, b: u8, a: u8) -> Pixel {
    Pixel { r, g, b, a }
}

#[test]
fn image_new_checks_dimensions() {
    let img = Image::new(2, 2, vec![px(0, 0, 0, 255); 4]);
    assert!(img.is_some());
    let bad = Image::new(2, 2, vec![px(0, 0, 0, 255); 3]);
    assert!(bad.is_none());
}

#[test]
fn get_pixel_reads_row_major() {
    let img = Image::new(
        2,
        2,
        vec![
            px(1, 0, 0, 255),
            px(2, 0, 0, 255),
            px(3, 0, 0, 255),
            px(4, 0, 0, 255),
        ],
    )
    .unwrap();
    assert_eq!(img.get_pixel(0, 0).r, 1);
    assert_eq!(img.get_pixel(1, 0).r, 2);
    assert_eq!(img.get_pixel(0, 1).r, 3);
    assert_eq!(img.get_pixel(1, 1).r, 4);
}

#[test]
fn invert_img_inverts_every_pixel() {
    let mut img = Image::new(2, 1, vec![px(0, 10, 20, 5), px(255, 0, 0, 0)]).unwrap();
    invert_img(&mut img);
    assert_eq!(img.get_pixel(0, 0), px(255, 245, 235, 5));
    assert_eq!(img.get_pixel(1, 0), px(0, 255, 255, 0));
}

#[test]
fn grayscale_img_grays_every_pixel() {
    let mut img = Image::new(1, 2, vec![px(255, 0, 0, 9), px(0, 0, 0, 1)]).unwrap();
    grayscale_img(&mut img);
    assert_eq!(img.get_pixel(0, 0), px(54, 54, 54, 9));
    assert_eq!(img.get_pixel(0, 1), px(0, 0, 0, 1));
}

#[test]
fn remove_background_keys_out_near_colors() {
    // distance of the premultiplied pixel (10,10,10) to (0,0,0) is
    // sqrt(300), about 17.3, under the tolerance of 80
    let mut img = Image::new(1, 1, vec![px(10, 10, 10, 255)]).unwrap();
    remove_bg_color(&mut img, Rgb { r: 0, g: 0, b: 0 }, 80);
    assert_eq!(img.get_pixel(0, 0), px(0, 0, 0, 0));
}

#[test]
fn remove_background_leaves_far_colors() {
    let mut img = Image::new(1, 1, vec![px(200, 200, 200, 255)]).unwrap();
    remove_bg_color(&mut img, Rgb { r: 0, g: 0, b: 0 }, 80);
    assert_eq!(img.get_pixel(0, 0), px(200, 200, 200, 255));
}

#[test]
fn remove_background_tolerance_is_strict() {
    // distance is exactly 80: not strictly within the tolerance, kept
    let mut img = Image::new(1, 1, vec![px(80, 0, 0, 255)]).unwrap();
    remove_bg_color(&mut img, Rgb { r: 0, g: 0, b: 0 }, 80);
    assert_eq!(img.get_pixel(0, 0), px(80, 0, 0, 255));
}

#[test]
fn remove_background_uses_premultiplied_color() {
    // the raw channels are far from the key, but alpha 10 premultiplies
    // them down to (7,7,7), within tolerance
    let mut img = Image::new(1, 1, vec![px(200, 200, 200, 10)]).unwrap();
    remove_bg_color(&mut img, Rgb { r: 0, g: 0, b: 0 }, 80);
    assert_eq!(img.get_pixel(0, 0), px(0, 0, 0, 0));
}

#[test]
fn brightness_adds_with_saturation() {
    let mut img = Image::new(
        3,
        1,
        vec![px(100, 100, 100, 42), px(250, 10, 0, 255), px(5, 200, 255, 7)],
    )
    .unwrap();
    brightness_img(&mut img, 50);
    assert_eq!(img.get_pixel(0, 0), px(150, 150, 150, 42));
    assert_eq!(img.get_pixel(1, 0), px(255, 60, 50, 255));
    assert_eq!(img.get_pixel(2, 0), px(55, 250, 255, 7));
}

#[test]
fn brightness_largest_allowed_offset_saturates() {
    // the largest offset the contract admits still leaves room for a
    // channel of 255 in 32-bit arithmetic and whitens every channel
    let mut img = Image::new(1, 1, vec![px(0, 128, 255, 3)]).unwrap();
    brightness_img(&mut img, i32::MAX - 255);
    assert_eq!(img.get_pixel(0, 0), px(255, 255, 255, 3));
}

#[test]
fn brightness_negative_saturates_at_zero() {
    let mut img = Image::new(1, 1, vec![px(30, 130, 255, 200)]).unwrap();
    brightness_img(&mut img, -100);
    assert_eq!(img.get_pixel(0, 0), px(0, 30, 155, 200));
}

#[test]
fn hue_rotation_keeps_dimensions_and_alpha() {
    let mut img = Image::new(2, 1, vec![px(255, 0, 0, 77), px(0, 255, 0, 0)]).unwrap();
    hue_rotate_img(&mut img, 90);
    assert_eq!(img.width, 2);
    assert_eq!(img.height, 1);
    assert_eq!(img.get_pixel(0, 0).a, 77);
    assert_eq!(img.get_pixel(1, 0).a, 0);
}
