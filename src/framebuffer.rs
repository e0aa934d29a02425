//! The RGBA8 raster that rendering fills, held in an `image` buffer.
use vstd::prelude::*;

verus! {

/// An `image` RGBA8 buffer. Verus cannot be given the buffer's type itself (its pixel
/// type's bounds name a trait that the `image` crate keeps private), so the buffer is
/// held here, and what the logic reads of it is named below.
#[verifier::external_body]
pub struct RasterBuf {
    img: image::RgbaImage,
}

/// The width and height that an image buffer was made with.
pub uninterp spec fn image_size(img: RasterBuf) -> (u32, u32);

/// The pixels of an image buffer, by `(x, y)`, as their four channels.
pub uninterp spec fn image_pixels(img: RasterBuf) -> Map<(u32, u32), [u8; 4]>;

/// The coordinates of a `width` by `height` raster.
pub open spec fn grid(width: u32, height: u32) -> Set<(u32, u32)> {
    Set::new(|p: (u32, u32)| p.0 < width && p.1 < height)
}

/// The pixel that a new framebuffer holds everywhere: black and fully transparent.
pub const BLANK_PIXEL: [u8; 4] = [0, 0, 0, 0];

/// The pixels of a new `width` by `height` framebuffer.
pub open spec fn blank(width: u32, height: u32) -> Map<(u32, u32), [u8; 4]> {
    Map::new(|p: (u32, u32)| grid(width, height).contains(p), |p: (u32, u32)| BLANK_PIXEL)
}

/// Relies on image::ImageBuffer::new: a buffer of the given size whose pixels are all zero.
/// It panics where four bytes per pixel overflow a vector's size, which `requires` leaves out.
#[verifier::external_body]
fn new_image(width: u32, height: u32) -> (r: RasterBuf)
    requires
        4 * (width as int) * (height as int) <= isize::MAX as int,
    ensures
        image_size(r) == (width, height),
        image_pixels(r) == blank(width, height),
{
    RasterBuf { img: image::RgbaImage::new(width, height) }
}

/// Relies on image::ImageBuffer::put_pixel: it replaces the one pixel at `(x, y)`.
/// It panics outside the buffer, which `requires` leaves out.
#[verifier::external_body]
fn put_pixel(img: &mut RasterBuf, x: u32, y: u32, px: [u8; 4])
    requires
        x < image_size(*old(img)).0,
        y < image_size(*old(img)).1,
    ensures
        image_size(*final(img)) == image_size(*old(img)),
        image_pixels(*final(img)) == image_pixels(*old(img)).insert((x, y), px),
{
    img.img.put_pixel(x, y, image::Rgba(px))
}

/// Relies on image::ImageBuffer::get_pixel: the pixel stored at `(x, y)`.
/// It panics outside the buffer, which `requires` leaves out.
#[verifier::external_body]
fn get_pixel(img: &RasterBuf, x: u32, y: u32) -> (r: [u8; 4])
    requires
        x < image_size(*img).0,
        y < image_size(*img).1,
    ensures
        r == image_pixels(*img)[(x, y)],
{
    img.img.get_pixel(x, y).0
}

/// An RGBA8 raster of fixed size, in which every coordinate of the grid holds a pixel.
pub struct Framebuffer {
    img: RasterBuf,
}

impl Framebuffer {
    /// The width in pixels.
    pub closed spec fn spec_width(&self) -> u32 {
        image_size(self.img).0
    }

    /// The height in pixels.
    pub closed spec fn spec_height(&self) -> u32 {
        image_size(self.img).1
    }

    /// The pixels, by `(x, y)`.
    pub closed spec fn pixels(&self) -> Map<(u32, u32), [u8; 4]> {
        Map::new(
            |p: (u32, u32)| grid(self.spec_width(), self.spec_height()).contains(p),
            |p: (u32, u32)| image_pixels(self.img)[p],
        )
    }

    /// A framebuffer holds a pixel at each coordinate of its grid, and nowhere else.
    pub broadcast proof fn lemma_pixels_cover_grid(fb: Framebuffer)
        ensures
            (#[trigger] fb.pixels()).dom() == grid(fb.spec_width(), fb.spec_height()),
    {
        assert(fb.pixels().dom() =~= grid(fb.spec_width(), fb.spec_height()));
    }

    /// A black, fully transparent framebuffer of the given size.
    pub fn new(width: u32, height: u32) -> (r: Framebuffer)
        requires
            4 * (width as int) * (height as int) <= isize::MAX as int,
        ensures
            r.spec_width() == width,
            r.spec_height() == height,
            r.pixels() == blank(width, height),
    {
        let img = new_image(width, height);
        let fb = Framebuffer { img };
        proof {
            assert(fb.pixels() =~= blank(width, height));
        }
        fb
    }

    /// The width in pixels.
    pub fn width(&self) -> (r: u32)
        ensures
            r == self.spec_width(),
    {
        image_width(&self.img)
    }

    /// The height in pixels.
    pub fn height(&self) -> (r: u32)
        ensures
            r == self.spec_height(),
    {
        image_height(&self.img)
    }

    /// The pixel at `(x, y)`, or `None` outside the framebuffer.
    pub fn pixel(&self, x: u32, y: u32) -> (r: Option<[u8; 4]>)
        ensures
            r == (if x < self.spec_width() && y < self.spec_height() {
                Some(self.pixels()[(x, y)])
            } else {
                None
            }),
    {
        if x < self.width() && y < self.height() {
            Some(get_pixel(&self.img, x, y))
        } else {
            None
        }
    }

    /// Writes the pixel at `(x, y)`, leaving every other pixel as it was.
    pub fn set_pixel(&mut self, x: u32, y: u32, px: [u8; 4])
        requires
            x < old(self).spec_width(),
            y < old(self).spec_height(),
        ensures
            final(self).spec_width() == old(self).spec_width(),
            final(self).spec_height() == old(self).spec_height(),
            final(self).pixels() == old(self).pixels().insert((x, y), px),
    {
        let ghost before = self.pixels();
        put_pixel(&mut self.img, x, y, px);
        proof {
            assert(self.pixels() =~= before.insert((x, y), px));
        }
    }

    /// The pixels as bytes, row after row from the top, four channels per pixel
    /// (red, green, blue, alpha), ready for encoding.
    pub fn into_raw(self) -> (r: Vec<u8>)
        ensures
            r@.len() == 4 * self.spec_width() * self.spec_height(),
            forall|x: u32, y: u32, c: int|
                x < self.spec_width() && y < self.spec_height() && 0 <= c < 4 ==> #[trigger] r@[raw_index(
                    self.spec_width(),
                    x,
                    y,
                    c,
                )] == self.pixels()[(x, y)][c],
    {
        image_into_raw(self.img)
    }
}

/// Relies on image::ImageBuffer::width: the width the buffer was made with.
#[verifier::external_body]
fn image_width(img: &RasterBuf) -> (r: u32)
    ensures
        r == image_size(*img).0,
{
    img.img.width()
}

/// Relies on image::ImageBuffer::height: the height the buffer was made with.
#[verifier::external_body]
fn image_height(img: &RasterBuf) -> (r: u32)
    ensures
        r == image_size(*img).1,
{
    img.img.height()
}

/// Where channel `c` of pixel `(x, y)` stands in the bytes of a `width`-wide raster.
pub open spec fn raw_index(width: u32, x: u32, y: u32, c: int) -> int {
    4 * (y * width + x) + c
}

/// Relies on image::ImageBuffer::into_raw: the buffer's bytes, laid out row-major with
/// four channels per pixel, as `pixel_indices_unchecked` addresses them.
#[verifier::external_body]
fn image_into_raw(img: RasterBuf) -> (r: Vec<u8>)
    ensures
        r@.len() == 4 * image_size(img).0 * image_size(img).1,
        forall|x: u32, y: u32, c: int|
            x < image_size(img).0 && y < image_size(img).1 && 0 <= c < 4 ==> #[trigger] r@[raw_index(
                image_size(img).0,
                x,
                y,
                c,
            )] == image_pixels(img)[(x, y)][c],
{
    img.img.into_raw()
}

} // verus!
