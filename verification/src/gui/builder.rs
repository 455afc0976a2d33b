use super::canvas::{canvas_bytes, canvas_size, fresh_color, rgba_blend, Canvas};
use super::element::{CanvasConfig, GuiElement, TextRequest};
use crate::error::GuiError;
use crate::game_state::GameState;
use crate::gpu::{GpuFuture, GpuTexture};
use std::sync::Arc;
use vstd::prelude::*;

verus! {

/// A point of a pixel grid.
#[derive(Clone, Copy, Debug, PartialEq, Eq, Structural)]
pub struct Point {
    pub x: i32,
    pub y: i32,
}

/// A rectangle of a pixel grid, by its two corners.
#[derive(Clone, Copy, Debug, PartialEq, Eq, Structural)]
pub struct Rect {
    pub min: Point,
    pub max: Point,
}

/// The smaller of two numbers.
pub open spec fn spec_min(a: i32, b: i32) -> i32 {
    if a <= b {
        a
    } else {
        b
    }
}

/// The larger of two numbers.
pub open spec fn spec_max(a: i32, b: i32) -> i32 {
    if a >= b {
        a
    } else {
        b
    }
}

/// The box of no glyph at all: it reaches from the largest number down to
/// the smallest, so that the first glyph replaces it.
pub open spec fn empty_box() -> Rect {
    Rect { min: Point { x: i32::MAX, y: i32::MAX }, max: Point { x: i32::MIN, y: i32::MIN } }
}

/// The box `total`, grown to take in the box `glyph`. The left, upper and
/// right edge move out as far as `glyph` reaches. The lower edge is the
/// lower edge of `glyph`, or the upper edge of the grown box if that lies
/// lower still.
pub open spec fn grown_box(total: Rect, glyph: Rect) -> Rect {
    let min = Point { x: spec_min(total.min.x, glyph.min.x), y: spec_min(total.min.y, glyph.min.y) };
    Rect { min, max: Point { x: spec_max(total.max.x, glyph.max.x), y: spec_max(min.y, glyph.max.y) } }
}

/// The box that takes in the glyphs of a text, from the first glyph to the
/// last. A glyph without pixels, such as a space, has no box and adds nothing.
pub open spec fn text_box(glyphs: Seq<Option<Rect>>) -> Rect
    decreases glyphs.len(),
{
    if glyphs.len() == 0 {
        empty_box()
    } else {
        match glyphs.last() {
            Some(glyph) => grown_box(text_box(glyphs.drop_last()), glyph),
            None => text_box(glyphs.drop_last()),
        }
    }
}

/// The box that takes in the glyphs of a text, given the box of each glyph
/// that has pixels.
pub fn calc_text_bounding_box(glyphs: &Vec<Option<Rect>>) -> (total: Rect)
    ensures
        total == text_box(glyphs@),
{
    let mut total = Rect {
        min: Point { x: i32::MAX, y: i32::MAX },
        max: Point { x: i32::MIN, y: i32::MIN },
    };
    let n: usize = glyphs.len();
    let mut i: usize = 0;
    while i < n
        invariant
            n == glyphs@.len(),
            i <= n,
            total == text_box(glyphs@.subrange(0, i as int)),
        decreases n - i,
    {
        proof {
            assert(glyphs@.subrange(0, i + 1).drop_last() =~= glyphs@.subrange(0, i as int));
        }
        if let Some(bounding_box) = glyphs[i] {
            if bounding_box.min.x < total.min.x {
                total.min.x = bounding_box.min.x;
            }
            if bounding_box.min.y < total.min.y {
                total.min.y = bounding_box.min.y;
            }
            if bounding_box.max.x > total.max.x {
                total.max.x = bounding_box.max.x;
            }
            total.max.y = if total.min.y >= bounding_box.max.y {
                total.min.y
            } else {
                bounding_box.max.y
            };
        }
        i += 1;
    }
    proof {
        assert(glyphs@.subrange(0, n as int) =~= glyphs@);
    }
    total
}

/// Half of `v`, rounded towards zero.
pub open spec fn half(v: int) -> int {
    if v >= 0 {
        v / 2
    } else {
        -((-v) / 2)
    }
}

/// Where the upper left corner of a text goes, so that the text sits in
/// the middle of a canvas of `width` by `height` pixels.
pub open spec fn spec_text_position(width: u32, height: u32, bounding_box: Rect) -> (i64, i64) {
    (
        half(width - (bounding_box.max.x - bounding_box.min.x)) as i64,
        half(height - (bounding_box.max.y - bounding_box.min.y)) as i64,
    )
}

/// Half of `v`, rounded towards zero.
fn halved(v: i64) -> (r: i64)
    requires
        v > i64::MIN,
    ensures
        r == half(v as int),
{
    if v >= 0 {
        v / 2
    } else {
        -((-v) / 2)
    }
}

/// Where the upper left corner of a text goes, so that the text sits in
/// the middle of a canvas of `width` by `height` pixels: half of what the
/// canvas is wider and higher than the box of the text.
pub fn text_position(width: u32, height: u32, bounding_box: Rect) -> (r: (i64, i64))
    ensures
        r == spec_text_position(width, height, bounding_box),
{
    let text_width: i64 = bounding_box.max.x as i64 - bounding_box.min.x as i64;
    let text_height: i64 = bounding_box.max.y as i64 - bounding_box.min.y as i64;
    (halved(width as i64 - text_width), halved(height as i64 - text_height))
}

impl Canvas {
    /// Draws one pixel of a glyph: the pixel (`x`, `y`) of the box of the
    /// glyph, whose upper left corner `glyph_min` is counted from
    /// `position`. The pixel gets `color` with `coverage` as its alpha,
    /// laid over what the canvas holds there. A pixel that falls outside
    /// the canvas is left out.
    pub fn draw_text_pixel(
        &mut self,
        position: (i64, i64),
        glyph_min: Point,
        x: u32,
        y: u32,
        color: [u8; 4],
        coverage: u8,
    )
        requires
            old(self).wf(),
        ensures
            final(self).wf(),
            canvas_size(*final(self)) == canvas_size(*old(self)),
            ({
                let px = position.0 + x + glyph_min.x;
                let py = position.1 + y + glyph_min.y;
                let above = seq![color@[0], color@[1], color@[2], coverage];
                if 0 <= px < old(self).spec_width() && 0 <= py < old(self).spec_height() {
                    &&& final(self).pixel(px, py) == rgba_blend(old(self).pixel(px, py), above)
                    &&& forall|x2: int, y2: int|
                        0 <= x2 < old(self).spec_width() && 0 <= y2 < old(self).spec_height() && (
                        x2 != px || y2 != py) ==> #[trigger] final(self).pixel(x2, y2) == old(
                            self,
                        ).pixel(x2, y2)
                } else {
                    canvas_bytes(*final(self)) == canvas_bytes(*old(self))
                }
            }),
    {
        let px: i128 = position.0 as i128 + x as i128 + glyph_min.x as i128;
        let py: i128 = position.1 as i128 + y as i128 + glyph_min.y as i128;
        if px < 0 || py < 0 || px >= self.width() as i128 || py >= self.height() as i128 {
            return ;
        }
        let above: [u8; 4] = [color[0], color[1], color[2], coverage];
        assert(above@ =~= seq![color@[0], color@[1], color@[2], coverage]);
        self.blend_pixel(px as i64, py as i64, above);
    }
}

/// A builder of a GUI element, made by [`GameState::new_gui_element`].
///
/// The element either shows a texture, with [`GuiElementBuilder::with_texture`],
/// or a canvas that the engine paints, with [`GuiElementBuilder::with_canvas`].
#[derive(Debug)]
pub struct GuiElementBuilder {
    pub dimensions: (i32, i32, u32, u32),
}

impl GuiElementBuilder {
    pub fn new(dimensions: (i32, i32, u32, u32)) -> (r: GuiElementBuilder)
        ensures
            r.dimensions == dimensions,
    {
        GuiElementBuilder { dimensions }
    }

    /// Create a gui element with a texture
    pub fn with_texture(self, texture_path: String) -> (r: GuiElementTextureBuilder)
        ensures
            r.dimensions == self.dimensions,
            r.texture_path == texture_path,
    {
        GuiElementTextureBuilder { dimensions: self.dimensions, texture_path }
    }

    /// Create a gui element with a custom color. The returned builder can
    /// be further changed to include text and borders.
    pub fn with_canvas(self, background_color: [u8; 4]) -> (r: GuiElementCanvasBuilder)
        ensures
            r.dimensions == self.dimensions,
            r.color == background_color,
            r.text is None,
            r.border is None,
    {
        GuiElementCanvasBuilder {
            dimensions: self.dimensions,
            color: background_color,
            text: None,
            border: None,
        }
    }
}

/// A builder of a GUI element that shows a texture.
#[derive(Debug)]
pub struct GuiElementTextureBuilder {
    pub dimensions: (i32, i32, u32, u32),
    pub texture_path: String,
}

impl GuiElementTextureBuilder {
    /// Finish building the element and return it. `uploaded` is what came
    /// of loading the texture and handing it to the graphics device.
    ///
    /// Where that failed, the failure is handed on and the state stays as
    /// it is. Else the element is entered into the registry at once, and
    /// is rendered from the next frame on until its handle is dropped.
    pub fn build(self, state: &mut GameState, uploaded: Result<(GpuTexture, GpuFuture), GuiError>) -> (r:
        Result<GuiElement, GuiError>)
        requires
            old(state).wf(),
            old(state)@.next_gui_id < u64::MAX,
            old(state)@.next_z_index < u32::MAX,
        ensures
            final(state).wf(),
            match uploaded {
                Ok((texture, future)) => {
                    &&& r matches Ok(element)
                    &&& final(state)@ == old(state)@.with_new_gui_element(
                        self.dimensions,
                        texture,
                        future,
                    )
                    &&& element.spec_id() == old(state)@.next_gui_id
                    &&& element.spec_canvas_config() is None
                    &&& element.is_live(final(state))
                },
                Err(error) => r == Err::<GuiElement, GuiError>(error) && final(state)@ == old(
                    state,
                )@,
            },
    {
        match uploaded {
            Ok((texture, future)) => Ok(
                state.add_gui_element(self.dimensions, texture, future, None),
            ),
            Err(error) => Err(error),
        }
    }
}

/// A builder of a GUI element that shows a canvas: a rectangle of one
/// color, which can get a border and a text.
#[derive(Debug)]
pub struct GuiElementCanvasBuilder {
    pub dimensions: (i32, i32, u32, u32),
    pub color: [u8; 4],
    pub text: Option<TextRequest>,
    pub border: Option<(u16, [u8; 4])>,
}

impl GuiElementCanvasBuilder {
    /// Adds a border to the element. It is taken from the size of the
    /// element: an element of 100 pixels with a border of 10 pixels is
    /// still 100 pixels wide, and 80 pixels of it lie inside the border.
    pub fn with_border(self, border_width: u16, border_color: [u8; 4]) -> (r: GuiElementCanvasBuilder)
        ensures
            r.border == Some((border_width, border_color)),
            r.dimensions == self.dimensions,
            r.color == self.color,
            r.text == self.text,
    {
        let mut r = self;
        r.border = Some((border_width, border_color));
        r
    }

    /// Add a text to the GUI element. This text will be rendered in the
    /// center of the element, and does not respect newlines.
    pub fn with_text(
        self,
        font: Arc<rusttype::Font<'static>>,
        font_size: u16,
        text: String,
        color: [u8; 4],
    ) -> (r: GuiElementCanvasBuilder)
        ensures
            r.text == Some(TextRequest { font, font_size, text, color }),
            r.dimensions == self.dimensions,
            r.color == self.color,
            r.border == self.border,
    {
        let mut r = self;
        r.text = Some(TextRequest { font, font_size, text, color });
        r
    }

    /// Update the text of an element that has a text already: this has to
    /// be called after `with_text`.
    pub fn with_text_content(self, text: String) -> (r: GuiElementCanvasBuilder)
        requires
            self.text is Some,
        ensures
            r.text == Some(TextRequest { text, ..self.text->0 }),
            r.dimensions == self.dimensions,
            r.color == self.color,
            r.border == self.border,
    {
        let GuiElementCanvasBuilder { dimensions, color, text: request, border } = self;
        let request = request.unwrap();
        GuiElementCanvasBuilder {
            dimensions,
            color,
            text: Some(
                TextRequest {
                    font: request.font,
                    font_size: request.font_size,
                    text,
                    color: request.color,
                },
            ),
            border,
        }
    }

    /// Paints the canvas of the element before any text is drawn on it: as
    /// wide and as high as the element, with the color of the border on
    /// the border and the background color elsewhere.
    ///
    /// It is `None` where the canvas would need more bytes than can be counted.
    pub fn paint(&self) -> (r: Option<Canvas>)
        ensures
            r is Some <==> 4 * self.dimensions.2 * self.dimensions.3 <= usize::MAX,
            r matches Some(canvas) ==> {
                &&& canvas.wf()
                &&& canvas_size(canvas) == (self.dimensions.2, self.dimensions.3)
                &&& forall|x: int, y: int|
                    0 <= x < self.dimensions.2 && 0 <= y < self.dimensions.3
                        ==> #[trigger] canvas.pixel(x, y) == fresh_color(
                        x as u32,
                        y as u32,
                        self.dimensions.2,
                        self.dimensions.3,
                        self.color,
                        self.border,
                    )@
            },
    {
        Canvas::new(self.dimensions.2, self.dimensions.3, self.color, self.border)
    }

    /// What this builder paints a canvas from, to be kept with the element.
    pub open spec fn config(self) -> CanvasConfig {
        CanvasConfig { background: self.color, border: self.border, text: self.text }
    }

    /// Finish building the element and return it. `uploaded` is what came
    /// of handing the painted canvas to the graphics device.
    ///
    /// Where that failed, the failure is handed on and the state stays as
    /// it is. Else the element is entered into the registry at once, and
    /// is rendered from the next frame on until its handle is dropped. It
    /// keeps what the canvas was painted from.
    pub fn build(self, state: &mut GameState, uploaded: Result<(GpuTexture, GpuFuture), GuiError>) -> (r:
        Result<GuiElement, GuiError>)
        requires
            old(state).wf(),
            old(state)@.next_gui_id < u64::MAX,
            old(state)@.next_z_index < u32::MAX,
        ensures
            final(state).wf(),
            match uploaded {
                Ok((texture, future)) => {
                    &&& r matches Ok(element)
                    &&& final(state)@ == old(state)@.with_new_gui_element(
                        self.dimensions,
                        texture,
                        future,
                    )
                    &&& element.spec_id() == old(state)@.next_gui_id
                    &&& element.spec_canvas_config() == Some(self.config())
                    &&& element.is_live(final(state))
                    &&& final(state)@.live_gui_elements() == old(state)@.live_gui_elements().insert(
                        element.spec_id(),
                    )
                },
                Err(error) => r == Err::<GuiElement, GuiError>(error) && final(state)@ == old(
                    state,
                )@,
            },
    {
        match uploaded {
            Ok((texture, future)) => {
                let config = CanvasConfig {
                    background: self.color,
                    border: self.border,
                    text: self.text,
                };
                Ok(state.add_gui_element(self.dimensions, texture, future, Some(config)))
            },
            Err(error) => Err(error),
        }
    }
}

} // verus!
