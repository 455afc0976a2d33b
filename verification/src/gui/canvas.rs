use vstd::prelude::*;

verus! {

/// An image of four bytes per pixel: red, green, blue and alpha. It is an
/// `image::RgbaImage`, which keeps its pixels row by row in one buffer.
#[verifier::external_body]
pub struct Canvas {
    image: image::RgbaImage,
}

/// The bytes of a canvas, row by row, four for each pixel.
pub uninterp spec fn canvas_bytes(canvas: Canvas) -> Seq<u8>;

/// The width and the height of a canvas, in pixels.
pub uninterp spec fn canvas_size(canvas: Canvas) -> (u32, u32);

/// What `image::Pixel::blend` makes of the pixel `below` when the pixel
/// `above` is laid over it; each pixel is its four bytes.
pub uninterp spec fn rgba_blend(below: Seq<u8>, above: Seq<u8>) -> Seq<u8>;

/// The place in the buffer of the first byte of the pixel (`x`, `y`) of an
/// image that is `width` pixels wide.
pub open spec fn pixel_offset(x: int, y: int, width: int) -> int {
    (y * width + x) * 4
}

/// Calls `image::ImageBuffer::from_raw`, which makes an image of `width`
/// by `height` pixels over `buffer` where the buffer holds at least four
/// bytes for each pixel, and gives `None` where it does not.
#[verifier::external_body]
fn image_from_raw(width: u32, height: u32, buffer: Vec<u8>) -> (r: Option<Canvas>)
    ensures
        r is Some <==> 4 * width * height <= buffer@.len(),
        r matches Some(canvas) ==> canvas_bytes(canvas) == buffer@ && canvas_size(canvas) == (
            width,
            height,
        ),
{
    match image::RgbaImage::from_raw(width, height, buffer) {
        Some(image) => Some(Canvas { image }),
        None => None,
    }
}

/// Calls `image::ImageBuffer::put_pixel`, which writes the four bytes of
/// `pixel` at the place of the pixel (`x`, `y`) and panics outside the image.
#[verifier::external_body]
fn image_put_pixel(canvas: &mut Canvas, x: u32, y: u32, pixel: [u8; 4])
    requires
        x < canvas_size(*old(canvas)).0,
        y < canvas_size(*old(canvas)).1,
    ensures
        canvas_size(*final(canvas)) == canvas_size(*old(canvas)),
        canvas_bytes(*final(canvas)) == canvas_bytes(*old(canvas)).update(
            pixel_offset(x as int, y as int, canvas_size(*old(canvas)).0 as int),
            pixel@[0],
        ).update(
            pixel_offset(x as int, y as int, canvas_size(*old(canvas)).0 as int) + 1,
            pixel@[1],
        ).update(
            pixel_offset(x as int, y as int, canvas_size(*old(canvas)).0 as int) + 2,
            pixel@[2],
        ).update(
            pixel_offset(x as int, y as int, canvas_size(*old(canvas)).0 as int) + 3,
            pixel@[3],
        ),
{
    canvas.image.put_pixel(x, y, image::Rgba(pixel));
}

/// Calls `image::ImageBuffer::get_pixel`, which reads the four bytes at the
/// place of the pixel (`x`, `y`) and panics outside the image.
#[verifier::external_body]
fn image_get_pixel(canvas: &Canvas, x: u32, y: u32) -> (pixel: [u8; 4])
    requires
        x < canvas_size(*canvas).0,
        y < canvas_size(*canvas).1,
    ensures
        pixel@ == canvas_bytes(*canvas).subrange(
            pixel_offset(x as int, y as int, canvas_size(*canvas).0 as int),
            pixel_offset(x as int, y as int, canvas_size(*canvas).0 as int) + 4,
        ),
{
    canvas.image.get_pixel(x, y).0
}

/// Calls `image::ImageBuffer::into_raw`, which gives the buffer back.
#[verifier::external_body]
fn image_into_raw(canvas: Canvas) -> (buffer: Vec<u8>)
    ensures
        buffer@ == canvas_bytes(canvas),
{
    canvas.image.into_raw()
}

/// Asks `image::ImageBuffer::dimensions` for the width and the height.
#[verifier::external_body]
fn image_dimensions(canvas: &Canvas) -> (size: (u32, u32))
    ensures
        size == canvas_size(*canvas),
{
    canvas.image.dimensions()
}

/// Calls `image::Pixel::blend` on `image::Rgba<u8>`, which lays `above`
/// over `below` by the alpha of both.
#[verifier::external_body]
fn pixel_blend(below: [u8; 4], above: [u8; 4]) -> (r: [u8; 4])
    ensures
        r@ == rgba_blend(below@, above@),
{
    let mut pixel = image::Rgba(below);
    image::Pixel::blend(&mut pixel, &image::Rgba(above));
    pixel.0
}

/// Whether the pixel (`x`, `y`) of a canvas of `width` by `height` pixels
/// lies within `border_width` pixels of an edge.
pub open spec fn on_border(x: int, y: int, width: int, height: int, border_width: int) -> bool {
    x < border_width || x + border_width >= width || y < border_width || y + border_width
        >= height
}

/// The color of the border at the pixel (`x`, `y`), where the canvas has a
/// border and the pixel lies on it.
pub open spec fn spec_is_border(
    x: u32,
    y: u32,
    width: u32,
    height: u32,
    maybe_border: Option<(u16, [u8; 4])>,
) -> Option<[u8; 4]> {
    match maybe_border {
        Some((border_width, border_color)) => if on_border(
            x as int,
            y as int,
            width as int,
            height as int,
            border_width as int,
        ) {
            Some(border_color)
        } else {
            None
        },
        None => None,
    }
}

/// The color of the border at the pixel (`x`, `y`) of a canvas of `width`
/// by `height` pixels: `None` where the canvas has no border or the pixel
/// lies inside of it.
pub fn is_border(x: u32, y: u32, width: u32, height: u32, maybe_border: Option<(u16, [u8; 4])>) -> (r:
    Option<[u8; 4]>)
    ensures
        r == spec_is_border(x, y, width, height, maybe_border),
{
    if let Some((border_width, border_color)) = maybe_border {
        let border_width: u64 = border_width as u64;
        if (x as u64) < border_width || x as u64 + border_width >= width as u64 || (y as u64)
            < border_width || y as u64 + border_width >= height as u64 {
            return Some(border_color);
        }
    }
    None
}

/// The color that a fresh canvas has at the pixel (`x`, `y`): that of the
/// border on the border, the background elsewhere.
pub open spec fn fresh_color(
    x: u32,
    y: u32,
    width: u32,
    height: u32,
    background: [u8; 4],
    maybe_border: Option<(u16, [u8; 4])>,
) -> [u8; 4] {
    match spec_is_border(x, y, width, height, maybe_border) {
        Some(border_color) => border_color,
        None => background,
    }
}

/// The places of two different pixels of an image do not overlap, and
/// every pixel lies within the buffer.
pub proof fn lemma_pixel_offsets(x: int, y: int, x2: int, y2: int, width: int, height: int)
    requires
        0 <= x < width,
        0 <= y < height,
        0 <= x2 < width,
        0 <= y2 < height,
    ensures
        0 <= pixel_offset(x, y, width),
        pixel_offset(x, y, width) + 4 <= 4 * width * height,
        (x != x2 || y != y2) ==> pixel_offset(x, y, width) + 4 <= pixel_offset(x2, y2, width)
            || pixel_offset(x2, y2, width) + 4 <= pixel_offset(x, y, width),
{
    assert(0 <= y * width && y * width + x < height * width) by (nonlinear_arith)
        requires
            0 <= x < width,
            0 <= y < height,
    ;
    assert(4 * width * height == 4 * (height * width)) by (nonlinear_arith);
    if y < y2 {
        assert(y * width + x < y2 * width + x2) by (nonlinear_arith)
            requires
                0 <= x < width,
                0 <= x2,
                0 <= y < y2,
        ;
    } else if y2 < y {
        assert(y2 * width + x2 < y * width + x) by (nonlinear_arith)
            requires
                0 <= x2 < width,
                0 <= x,
                0 <= y2 < y,
        ;
    }
}

impl Canvas {
    /// The width of the canvas, in pixels.
    pub open spec fn spec_width(&self) -> u32 {
        canvas_size(*self).0
    }

    /// The height of the canvas, in pixels.
    pub open spec fn spec_height(&self) -> u32 {
        canvas_size(*self).1
    }

    /// Whether the canvas is in order: its buffer holds four bytes for
    /// each of its pixels, and nothing else.
    pub open spec fn wf(self) -> bool {
        canvas_bytes(self).len() == 4 * self.spec_width() * self.spec_height()
    }

    /// The four bytes of the pixel (`x`, `y`).
    pub open spec fn pixel(self, x: int, y: int) -> Seq<u8> {
        canvas_bytes(self).subrange(
            pixel_offset(x, y, self.spec_width() as int),
            pixel_offset(x, y, self.spec_width() as int) + 4,
        )
    }

    /// The width of the canvas, in pixels.
    #[verifier::when_used_as_spec(spec_width)]
    pub fn width(&self) -> (r: u32)
        ensures
            r == self.spec_width(),
    {
        image_dimensions(self).0
    }

    /// The height of the canvas, in pixels.
    #[verifier::when_used_as_spec(spec_height)]
    pub fn height(&self) -> (r: u32)
        ensures
            r == self.spec_height(),
    {
        image_dimensions(self).1
    }

    /// Writes `color` to the pixel (`x`, `y`) and leaves every other pixel as it is.
    pub fn put_pixel(&mut self, x: u32, y: u32, color: [u8; 4])
        requires
            old(self).wf(),
            x < old(self).spec_width(),
            y < old(self).spec_height(),
        ensures
            final(self).wf(),
            canvas_size(*final(self)) == canvas_size(*old(self)),
            final(self).pixel(x as int, y as int) == color@,
            forall|x2: int, y2: int|
                0 <= x2 < old(self).spec_width() && 0 <= y2 < old(self).spec_height() && (x2 != x
                    || y2 != y) ==> #[trigger] final(self).pixel(x2, y2) == old(self).pixel(x2, y2),
    {
        let ghost width = self.spec_width() as int;
        let ghost height = self.spec_height() as int;
        proof {
            lemma_pixel_offsets(x as int, y as int, x as int, y as int, width, height);
        }
        image_put_pixel(self, x, y, color);
        proof {
            assert(self.pixel(x as int, y as int) =~= color@);
            assert forall|x2: int, y2: int|
                0 <= x2 < width && 0 <= y2 < height && (x2 != x || y2 != y) implies #[trigger] self.pixel(
                x2,
                y2,
            ) == old(self).pixel(x2, y2) by {
                lemma_pixel_offsets(x as int, y as int, x2, y2, width, height);
                lemma_pixel_offsets(x2, y2, x as int, y as int, width, height);
                assert(self.pixel(x2, y2) =~= old(self).pixel(x2, y2));
            }
        }
    }

    /// The four bytes of the pixel (`x`, `y`).
    pub fn get_pixel(&self, x: u32, y: u32) -> (color: [u8; 4])
        requires
            self.wf(),
            x < self.spec_width(),
            y < self.spec_height(),
        ensures
            color@ == self.pixel(x as int, y as int),
    {
        image_get_pixel(self, x, y)
    }

    /// A canvas of `width` by `height` pixels with the color of the border
    /// on the border, if it has one, and the background color elsewhere.
    ///
    /// It is `None` where the canvas would need more bytes than can be counted.
    pub fn new(
        width: u32,
        height: u32,
        background: [u8; 4],
        maybe_border: Option<(u16, [u8; 4])>,
    ) -> (r: Option<Canvas>)
        ensures
            r is Some <==> 4 * width * height <= usize::MAX,
            r matches Some(canvas) ==> {
                &&& canvas.wf()
                &&& canvas_size(canvas) == (width, height)
                &&& forall|x: int, y: int|
                    0 <= x < width && 0 <= y < height ==> #[trigger] canvas.pixel(x, y)
                        == fresh_color(x as u32, y as u32, width, height, background, maybe_border)@
            },
    {
        let pixels = match (width as usize).checked_mul(height as usize) {
            Some(pixels) => pixels,
            None => {
                assert(4 * width * height > usize::MAX) by (nonlinear_arith)
                    requires
                        width * height > usize::MAX,
                ;
                return None;
            },
        };
        let bytes = match pixels.checked_mul(4) {
            Some(bytes) => bytes,
            None => {
                assert(4 * width * height == (width * height) * 4) by (nonlinear_arith);
                return None;
            },
        };
        assert(4 * width * height == (width * height) * 4) by (nonlinear_arith);
        let buffer = zeroed(bytes);
        let mut canvas = image_from_raw(width, height, buffer).unwrap();
        let mut x: u32 = 0;
        while x < width
            invariant
                x <= width,
                canvas.wf(),
                canvas_size(canvas) == (width, height),
                forall|x2: int, y2: int|
                    0 <= x2 < x && 0 <= y2 < height ==> #[trigger] canvas.pixel(x2, y2)
                        == fresh_color(x2 as u32, y2 as u32, width, height, background, maybe_border)@,
            decreases width - x,
        {
            let mut y: u32 = 0;
            while y < height
                invariant
                    x < width,
                    y <= height,
                    canvas.wf(),
                    canvas_size(canvas) == (width, height),
                    forall|x2: int, y2: int|
                        0 <= x2 < x && 0 <= y2 < height ==> #[trigger] canvas.pixel(x2, y2)
                            == fresh_color(
                            x2 as u32,
                            y2 as u32,
                            width,
                            height,
                            background,
                            maybe_border,
                        )@,
                    forall|y2: int|
                        0 <= y2 < y ==> #[trigger] canvas.pixel(x as int, y2) == fresh_color(
                            x,
                            y2 as u32,
                            width,
                            height,
                            background,
                            maybe_border,
                        )@,
                decreases height - y,
            {
                let ps = if let Some(border_color) = is_border(x, y, width, height, maybe_border) {
                    border_color
                } else {
                    background
                };
                canvas.put_pixel(x, y, ps);
                y += 1;
            }
            x += 1;
        }
        Some(canvas)
    }

    /// Lays the pixel `above` over the pixel (`x`, `y`), as
    /// `image::Pixel::blend` does it. A place outside the canvas is left
    /// out: the canvas stays as it is.
    pub fn blend_pixel(&mut self, x: i64, y: i64, above: [u8; 4])
        requires
            old(self).wf(),
        ensures
            final(self).wf(),
            canvas_size(*final(self)) == canvas_size(*old(self)),
            !(0 <= x < old(self).spec_width() && 0 <= y < old(self).spec_height())
                ==> canvas_bytes(*final(self)) == canvas_bytes(*old(self)),
            0 <= x < old(self).spec_width() && 0 <= y < old(self).spec_height() ==> {
                &&& final(self).pixel(x as int, y as int) == rgba_blend(
                    old(self).pixel(x as int, y as int),
                    above@,
                )
                &&& forall|x2: int, y2: int|
                    0 <= x2 < old(self).spec_width() && 0 <= y2 < old(self).spec_height() && (x2
                        != x || y2 != y) ==> #[trigger] final(self).pixel(x2, y2) == old(
                        self,
                    ).pixel(x2, y2)
            },
    {
        if x < 0 || y < 0 || x >= self.width() as i64 || y >= self.height() as i64 {
            return ;
        }
        let below = self.get_pixel(x as u32, y as u32);
        let blended = pixel_blend(below, above);
        self.put_pixel(x as u32, y as u32, blended);
    }

    /// The bytes of the canvas, row by row, four for each pixel.
    pub fn into_raw(self) -> (buffer: Vec<u8>)
        ensures
            buffer@ == canvas_bytes(self),
    {
        image_into_raw(self)
    }
}

/// `len` bytes that are all zero.
fn zeroed(len: usize) -> (buffer: Vec<u8>)
    ensures
        buffer@.len() == len,
        forall|i: int| 0 <= i < len ==> buffer@[i] == 0,
{
    let mut buffer: Vec<u8> = Vec::new();
    let mut i: usize = 0;
    while i < len
        invariant
            i <= len,
            buffer@.len() == i,
            forall|k: int| 0 <= k < i ==> buffer@[k] == 0,
        decreases len - i,
    {
        buffer.push(0);
        i += 1;
    }
    buffer
}

} // verus!
