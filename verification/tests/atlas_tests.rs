use pageview::atlas::GlyphAtlas;
use pageview::atlas::RgbaPixel;

fn pixel(r: u8, g: u8, b: u8, a: u8) -> RgbaPixel {
    RgbaPixel { color: [r, g, b, a] }
}

#[test]
fn rgba_pixel_from_channels() {
    assert_eq!(RgbaPixel::from([1, 2, 3, 4]), pixel(1, 2, 3, 4));
    assert_eq!(RgbaPixel::from([1, 2, 3, 4]).color, [1, 2, 3, 4]);
}

#[test]
fn new_atlas_is_transparent_black() {
    let atlas = GlyphAtlas::new(5, 3).unwrap();
    assert_eq!(atlas.get_width(), 5);
    assert_eq!(atlas.get_height(), 3);
    assert_eq!(atlas.to_pixels(), vec![pixel(0, 0, 0, 0); 15]);
    for y in 0..3 {
        for x in 0..5 {
            assert_eq!(atlas.get_pixel(x, y), Some(pixel(0, 0, 0, 0)));
        }
    }
}

#[test]
fn empty_atlas() {
    let atlas = GlyphAtlas::new(0, 7).unwrap();
    assert_eq!(atlas.to_pixels(), Vec::new());
    assert_eq!(atlas.get_pixel(0, 0), None);
}

#[test]
fn atlas_that_cannot_be_addressed() {
    assert!(GlyphAtlas::new(u32::MAX, u32::MAX).is_none());
}

#[test]
fn get_pixel_outside_is_none() {
    let atlas = GlyphAtlas::new(5, 3).unwrap();
    assert_eq!(atlas.get_pixel(5, 0), None);
    assert_eq!(atlas.get_pixel(0, 3), None);
    assert_eq!(atlas.get_pixel(u32::MAX, u32::MAX), None);
}

#[test]
fn coverage_turns_the_pixel_white() {
    let mut atlas = GlyphAtlas::new(4, 4).unwrap();
    assert!(atlas.accumulate(1, 2, 100));
    assert_eq!(atlas.get_pixel(1, 2), Some(pixel(255, 255, 255, 100)));
    // Row-major: the pixel is at 2 * 4 + 1, and the pixel at 1 * 4 + 2 is untouched.
    let pixels = atlas.to_pixels();
    assert_eq!(pixels[9], pixel(255, 255, 255, 100));
    assert_eq!(pixels[6], pixel(0, 0, 0, 0));
    assert_eq!(pixels.iter().filter(|p| **p != pixel(0, 0, 0, 0)).count(), 1);
}

#[test]
fn coverage_accumulates_and_saturates() {
    let mut atlas = GlyphAtlas::new(2, 2).unwrap();
    atlas.accumulate(0, 0, 100);
    atlas.accumulate(0, 0, 100);
    assert_eq!(atlas.get_pixel(0, 0), Some(pixel(255, 255, 255, 200)));
    atlas.accumulate(0, 0, 100);
    assert_eq!(atlas.get_pixel(0, 0), Some(pixel(255, 255, 255, 255)));
    atlas.accumulate(0, 0, 255);
    assert_eq!(atlas.get_pixel(0, 0), Some(pixel(255, 255, 255, 255)));
}

#[test]
fn zero_coverage_still_whitens() {
    let mut atlas = GlyphAtlas::new(2, 2).unwrap();
    assert!(atlas.accumulate(1, 1, 0));
    assert_eq!(atlas.get_pixel(1, 1), Some(pixel(255, 255, 255, 0)));
}

#[test]
fn coverage_outside_changes_nothing() {
    let mut atlas = GlyphAtlas::new(3, 2).unwrap();
    assert!(!atlas.accumulate(3, 0, 9));
    assert!(!atlas.accumulate(0, 2, 9));
    assert_eq!(atlas.to_pixels(), vec![pixel(0, 0, 0, 0); 6]);
}

#[test]
fn last_pixel_of_the_atlas() {
    let mut atlas = GlyphAtlas::new(3, 2).unwrap();
    assert!(atlas.accumulate(2, 1, 7));
    assert_eq!(atlas.to_pixels()[5], pixel(255, 255, 255, 7));
}
