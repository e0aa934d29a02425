use raytrace::color::ScaledColor;
use raytrace::framebuffer::Framebuffer;
use raytrace::render::{render, render_stripe, ConfigError, RenderConfig};

fn gradient(x: u32, y: u32) -> ScaledColor {
    ScaledColor { r: x as i64 * 40, g: y as i64 * 60 - 30, b: 300 }
}

fn all_pixels(fb: &Framebuffer) -> Vec<[u8; 4]> {
    let mut out = Vec::new();
    for y in 0..fb.height() {
        for x in 0..fb.width() {
            out.push(fb.pixel(x, y).unwrap());
        }
    }
    out
}

#[test]
fn config_refuses_zero_workers() {
    assert_eq!(RenderConfig::new(4, 4, 0).err(), Some(ConfigError::NoWorkers));
}

#[test]
fn config_refuses_an_image_too_large_for_memory() {
    assert_eq!(RenderConfig::new(u32::MAX, u32::MAX, 4).err(), Some(ConfigError::TooLarge));
}

#[test]
fn config_keeps_its_values() {
    let c = RenderConfig::new(1024, 768, 4).unwrap();
    assert_eq!((c.width(), c.height(), c.workers()), (1024, 768, 4));
}

#[test]
fn new_framebuffer_is_blank() {
    let fb = Framebuffer::new(3, 2);
    assert_eq!((fb.width(), fb.height()), (3, 2));
    assert_eq!(fb.pixel(2, 1), Some([0, 0, 0, 0]));
    assert_eq!(fb.pixel(3, 0), None);
    assert_eq!(fb.pixel(0, 2), None);
}

#[test]
fn set_pixel_changes_one_pixel() {
    let mut fb = Framebuffer::new(3, 2);
    fb.set_pixel(1, 1, [9, 8, 7, 255]);
    assert_eq!(fb.pixel(1, 1), Some([9, 8, 7, 255]));
    assert_eq!(fb.pixel(0, 1), Some([0, 0, 0, 0]));
    assert_eq!(fb.pixel(1, 0), Some([0, 0, 0, 0]));
}

#[test]
fn raw_bytes_are_row_major_rgba() {
    let mut fb = Framebuffer::new(2, 2);
    fb.set_pixel(1, 0, [1, 2, 3, 4]);
    fb.set_pixel(0, 1, [5, 6, 7, 8]);
    let raw = fb.into_raw();
    assert_eq!(raw, vec![0, 0, 0, 0, 1, 2, 3, 4, 5, 6, 7, 8, 0, 0, 0, 0]);
}

#[test]
fn render_shades_every_pixel_with_clamping() {
    let c = RenderConfig::new(8, 5, 4).unwrap();
    let fb = render(&c, &gradient);
    assert_eq!((fb.width(), fb.height()), (8, 5));
    assert_eq!(fb.pixel(0, 0), Some([0, 0, 255, 255]));
    assert_eq!(fb.pixel(3, 2), Some([120, 90, 255, 255]));
    assert_eq!(fb.pixel(7, 4), Some([255, 210, 255, 255]));
}

#[test]
fn render_is_the_same_for_any_worker_count() {
    let one = render(&RenderConfig::new(7, 9, 1).unwrap(), &gradient);
    let expected = all_pixels(&one);
    for workers in [2u32, 3, 4, 5, 9, 16] {
        let fb = render(&RenderConfig::new(7, 9, workers).unwrap(), &gradient);
        assert_eq!(all_pixels(&fb), expected);
    }
}

#[test]
fn stripe_writes_only_its_own_rows() {
    let mut fb = Framebuffer::new(2, 7);
    render_stripe(&mut fb, 1, 3, &|_x: u32, _y: u32| ScaledColor { r: 255, g: 255, b: 255 });
    for y in 0..7u32 {
        let expected = if y % 3 == 1 { [255, 255, 255, 255] } else { [0, 0, 0, 0] };
        assert_eq!(fb.pixel(0, y), Some(expected));
        assert_eq!(fb.pixel(1, y), Some(expected));
    }
}

#[test]
fn stripes_together_cover_the_image() {
    let mut fb = Framebuffer::new(3, 5);
    for w in 0..2u32 {
        render_stripe(&mut fb, w, 2, &gradient);
    }
    let whole = render(&RenderConfig::new(3, 5, 1).unwrap(), &gradient);
    assert_eq!(all_pixels(&fb), all_pixels(&whole));
}

#[test]
fn empty_image_renders() {
    let fb = render(&RenderConfig::new(0, 0, 4).unwrap(), &gradient);
    assert_eq!((fb.width(), fb.height()), (0, 0));
    assert_eq!(fb.pixel(0, 0), None);
    assert!(fb.into_raw().is_empty());
}
