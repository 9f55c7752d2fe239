use vstd::prelude::*;

verus! {

/// One pixel of an RGBA image with eight bits per channel.
#[derive(Clone, Copy, Debug, PartialEq, Eq)]
pub struct RgbaPixel {
    pub color: [u8; 4],
}

impl From<[u8; 4]> for RgbaPixel {
    fn from(value: [u8; 4]) -> (pixel: Self) {
        Self { color: value }
    }
}

impl vstd::std_specs::convert::FromSpecImpl<[u8; 4]> for RgbaPixel {
    open spec fn obeys_from_spec() -> bool {
        true
    }

    open spec fn from_spec(value: [u8; 4]) -> Self {
        RgbaPixel { color: value }
    }
}

/// An RGBA image with eight bits per channel, held by the `image` crate.
#[verifier::external_body]
pub struct AtlasImage {
    image: image::RgbaImage,
}

/// The pixels of an image, row after row from the top and from left to right
/// within a row.
pub uninterp spec fn image_pixels(image: AtlasImage) -> Seq<RgbaPixel>;

/// The width of an image in pixels.
pub uninterp spec fn image_width(image: AtlasImage) -> nat;

/// The height of an image in pixels.
pub uninterp spec fn image_height(image: AtlasImage) -> nat;

/// `ImageBuffer::new`: an image of the given size whose every channel is zero.
/// The outside function panics when the number of channels of a row, or of the
/// image, overflows `usize`, which the precondition leaves out.
#[verifier::external_body]
fn new_image(width: u32, height: u32) -> (image: AtlasImage)
    requires
        4 * width <= usize::MAX,
        4 * width * height <= usize::MAX,
    ensures
        image_width(image) == width,
        image_height(image) == height,
        image_pixels(image) == Seq::new((width * height) as nat, |i: int| RgbaPixel { color: [0u8, 0u8, 0u8, 0u8] }),
{
    AtlasImage { image: image::ImageBuffer::new(width, height) }
}

/// `ImageBuffer::get_pixel`: the pixel in column `x` of row `y`. The outside
/// function panics on a position outside the image, which the precondition leaves
/// out.
#[verifier::external_body]
fn get_pixel(image: &AtlasImage, x: u32, y: u32) -> (pixel: RgbaPixel)
    requires
        x < image_width(*image),
        y < image_height(*image),
    ensures
        pixel == image_pixels(*image)[y * image_width(*image) + x],
{
    RgbaPixel { color: image.image.get_pixel(x, y).0 }
}

/// `ImageBuffer::put_pixel`: replaces the pixel in column `x` of row `y` and
/// nothing else. The outside function panics on a position outside the image,
/// which the precondition leaves out.
#[verifier::external_body]
fn put_pixel(image: &mut AtlasImage, x: u32, y: u32, pixel: RgbaPixel)
    requires
        x < image_width(*old(image)),
        y < image_height(*old(image)),
    ensures
        image_width(*final(image)) == image_width(*old(image)),
        image_height(*final(image)) == image_height(*old(image)),
        image_pixels(*final(image)) == image_pixels(*old(image)).update(y * image_width(*old(image)) + x, pixel),
{
    image.image.put_pixel(x, y, image::Rgba(pixel.color));
}

/// `ImageBuffer::pixels`: all pixels in the order of `image_pixels`.
#[verifier::external_body]
fn collect_pixels(image: &AtlasImage) -> (pixels: Vec<RgbaPixel>)
    ensures
        pixels@ == image_pixels(*image),
{
    image.image.pixels().map(|pixel| RgbaPixel { color: pixel.0 }).collect()
}

/// Tells whether an image of the given size can be addressed: the channels of a
/// row, and those of the whole image, can be counted in a `usize`.
pub open spec fn addressable(width: u32, height: u32) -> bool {
    4 * width <= usize::MAX && 4 * width * height <= usize::MAX
}

/// The alpha channel after more coverage fell on a pixel: the sum, at most 255.
pub open spec fn accumulated(alpha: u8, coverage: u8) -> u8 {
    if alpha + coverage > 255 {
        255u8
    } else {
        (alpha + coverage) as u8
    }
}

/// A white pixel with the given alpha.
pub open spec fn white(alpha: u8) -> RgbaPixel {
    RgbaPixel { color: [255u8, 255u8, 255u8, alpha] }
}

/// The image into which glyphs are rasterised: white everywhere that coverage
/// fell, with the accumulated coverage as alpha.
pub struct GlyphAtlas {
    image: AtlasImage,
    width: u32,
    height: u32,
}

impl GlyphAtlas {
    /// The width of the atlas in pixels.
    pub closed spec fn width(&self) -> u32 {
        self.width
    }

    /// The height of the atlas in pixels.
    pub closed spec fn height(&self) -> u32 {
        self.height
    }

    /// The pixels of the atlas, row after row.
    pub closed spec fn pixels(&self) -> Seq<RgbaPixel> {
        image_pixels(self.image)
    }

    /// The recorded size is that of the image, and the image holds one pixel per
    /// position.
    pub closed spec fn wf(&self) -> bool {
        &&& image_width(self.image) == self.width
        &&& image_height(self.image) == self.height
        &&& image_pixels(self.image).len() == self.width * self.height
    }

    /// The position of pixel `(x, y)` among the pixels.
    pub open spec fn offset(&self, x: u32, y: u32) -> int {
        y * self.width() + x
    }

    /// Every position inside the atlas has its place among the pixels.
    pub proof fn lemma_offset_in_range(&self, x: u32, y: u32)
        requires
            self.wf(),
            x < self.width(),
            y < self.height(),
        ensures
            0 <= self.offset(x, y) < self.pixels().len(),
    {
        let w = self.width() as int;
        let h = self.height() as int;
        assert(0 <= y * w + x < w * h) by (nonlinear_arith)
            requires
                0 <= x < w,
                0 <= y < h,
        ;
    }

    /// A transparent black atlas of the given size, or `None` when a row or the
    /// whole of an image of that size cannot be addressed.
    pub fn new(width: u32, height: u32) -> (atlas: Option<Self>)
        ensures
            atlas is Some <==> addressable(width, height),
            match atlas {
                Some(atlas) => {
                    &&& atlas.wf()
                    &&& atlas.width() == width
                    &&& atlas.height() == height
                    &&& atlas.pixels() == Seq::new(
                        (width * height) as nat,
                        |i: int| RgbaPixel { color: [0u8, 0u8, 0u8, 0u8] },
                    )
                },
                None => true,
            },
    {
        assert(4 * width * height <= 4 * 0xffff_ffff * 0xffff_ffff) by (nonlinear_arith)
            requires
                0 <= width <= 0xffff_ffff,
                0 <= height <= 0xffff_ffff,
        ;
        let row: u128 = 4 * (width as u128);
        let channels: u128 = row * (height as u128);
        if row > usize::MAX as u128 || channels > usize::MAX as u128 {
            return None;
        }
        Some(GlyphAtlas { image: new_image(width, height), width, height })
    }

    /// The width of the atlas in pixels.
    pub fn get_width(&self) -> (width: u32)
        ensures
            width == self.width(),
    {
        self.width
    }

    /// The height of the atlas in pixels.
    pub fn get_height(&self) -> (height: u32)
        ensures
            height == self.height(),
    {
        self.height
    }

    /// The pixel in column `x` of row `y`, or `None` outside the atlas.
    pub fn get_pixel(&self, x: u32, y: u32) -> (pixel: Option<RgbaPixel>)
        requires
            self.wf(),
        ensures
            pixel == if x < self.width() && y < self.height() {
                Some(self.pixels()[self.offset(x, y)])
            } else {
                None
            },
    {
        if x < self.width && y < self.height {
            proof {
                self.lemma_offset_in_range(x, y);
            }
            Some(get_pixel(&self.image, x, y))
        } else {
            None
        }
    }

    /// Lets `coverage` fall on the pixel in column `x` of row `y`: the pixel turns
    /// white and its alpha grows by the coverage, up to 255. Outside the atlas
    /// nothing changes. Returns whether the position lies in the atlas.
    pub fn accumulate(&mut self, x: u32, y: u32, coverage: u8) -> (inside: bool)
        requires
            old(self).wf(),
        ensures
            final(self).wf(),
            final(self).width() == old(self).width(),
            final(self).height() == old(self).height(),
            inside == (x < old(self).width() && y < old(self).height()),
            final(self).pixels() == if inside {
                old(self).pixels().update(
                    old(self).offset(x, y),
                    white(accumulated(old(self).pixels()[old(self).offset(x, y)].color[3], coverage)),
                )
            } else {
                old(self).pixels()
            },
    {
        if x >= self.width || y >= self.height {
            return false;
        }
        proof {
            self.lemma_offset_in_range(x, y);
        }
        let before = get_pixel(&self.image, x, y);
        let alpha = before.color[3].saturating_add(coverage);
        put_pixel(&mut self.image, x, y, RgbaPixel { color: [255, 255, 255, alpha] });
        true
    }

    /// All pixels, row after row, as they are uploaded to the GPU.
    pub fn to_pixels(&self) -> (pixels: Vec<RgbaPixel>)
        ensures
            pixels@ == self.pixels(),
    {
        collect_pixels(&self.image)
    }
}

} // verus!
