use crystal_engine::error::GuiError;
use crystal_engine::game_state::GameState;
use crystal_engine::gpu::{GpuFuture, GpuTexture};
use crystal_engine::gui::builder::{calc_text_bounding_box, text_position};
use crystal_engine::gui::canvas::is_border;
use crystal_engine::gui::{Canvas, GuiElementBuilder, Point, Rect};

const RED: [u8; 4] = [255, 0, 0, 255];
const BLUE: [u8; 4] = [0, 0, 255, 255];

fn rect(min: (i32, i32), max: (i32, i32)) -> Rect {
    Rect { min: Point { x: min.0, y: min.1 }, max: Point { x: max.0, y: max.1 } }
}

#[test]
fn border_of_a_canvas() {
    let border = Some((2u16, RED));
    assert_eq!(is_border(0, 5, 10, 10, border), Some(RED));
    assert_eq!(is_border(1, 5, 10, 10, border), Some(RED));
    assert_eq!(is_border(2, 5, 10, 10, border), None);
    assert_eq!(is_border(7, 5, 10, 10, border), None);
    assert_eq!(is_border(8, 5, 10, 10, border), Some(RED));
    assert_eq!(is_border(5, 1, 10, 10, border), Some(RED));
    assert_eq!(is_border(5, 2, 10, 10, border), None);
    assert_eq!(is_border(5, 8, 10, 10, border), Some(RED));
    assert_eq!(is_border(5, 5, 10, 10, None), None);
    assert_eq!(is_border(0, 0, 10, 10, None), None);
    // a border of no width takes no pixel
    assert_eq!(is_border(9, 0, 10, 10, Some((0, RED))), None);
    assert_eq!(is_border(0, 9, 10, 10, Some((0, RED))), None);
    // a border as wide as half the canvas takes every pixel
    assert_eq!(is_border(5, 5, 10, 10, Some((5, RED))), Some(RED));
    assert_eq!(is_border(4, 4, 10, 10, Some((5, RED))), Some(RED));
    // the sum of place and width is not cut off
    assert_eq!(is_border(u32::MAX, 0, u32::MAX, 10, Some((u16::MAX, RED))), Some(RED));
}

#[test]
fn fresh_canvas_is_painted() {
    let canvas = Canvas::new(4, 3, BLUE, Some((1, RED))).unwrap();
    assert_eq!((canvas.width(), canvas.height()), (4, 3));
    for x in 0..4 {
        for y in 0..3 {
            let expected = if x == 0 || x == 3 || y == 0 || y == 2 { RED } else { BLUE };
            assert_eq!(canvas.get_pixel(x, y), expected);
        }
    }
    let raw = canvas.into_raw();
    assert_eq!(raw.len(), 4 * 4 * 3);
    // the pixel (1, 1) lies behind one row of four pixels and one more pixel
    assert_eq!(&raw[(1 * 4 + 1) * 4..(1 * 4 + 1) * 4 + 4], &BLUE);
    assert_eq!(&raw[0..4], &RED);
}

#[test]
fn canvas_without_pixels() {
    let canvas = Canvas::new(0, 7, BLUE, None).unwrap();
    assert_eq!(canvas.into_raw().len(), 0);
}

#[test]
fn canvas_too_large_to_count() {
    assert!(Canvas::new(u32::MAX, u32::MAX, BLUE, None).is_none());
}

#[test]
fn put_pixel_changes_one_pixel() {
    let mut canvas = Canvas::new(3, 3, BLUE, None).unwrap();
    canvas.put_pixel(2, 1, RED);
    for x in 0..3 {
        for y in 0..3 {
            let expected = if (x, y) == (2, 1) { RED } else { BLUE };
            assert_eq!(canvas.get_pixel(x, y), expected);
        }
    }
}

#[test]
fn blending_lays_one_pixel_over_another() {
    let mut canvas = Canvas::new(2, 2, [0, 0, 0, 255], None).unwrap();
    // an opaque pixel covers what lies below
    canvas.blend_pixel(1, 0, RED);
    assert_eq!(canvas.get_pixel(1, 0), RED);
    // a transparent pixel changes nothing
    canvas.blend_pixel(0, 1, [255, 255, 255, 0]);
    assert_eq!(canvas.get_pixel(0, 1), [0, 0, 0, 255]);
    // in between, the canvas holds what the image crate computes
    let above = [200, 100, 50, 128];
    let mut expected = image::Rgba([0u8, 0, 0, 255]);
    image::Pixel::blend(&mut expected, &image::Rgba(above));
    canvas.blend_pixel(0, 0, above);
    assert_eq!(canvas.get_pixel(0, 0), expected.0);
    assert_ne!(canvas.get_pixel(0, 0), [0, 0, 0, 255]);
    assert_ne!(canvas.get_pixel(0, 0), above);
    // outside of the canvas nothing is drawn
    let before = [
        canvas.get_pixel(0, 0),
        canvas.get_pixel(1, 0),
        canvas.get_pixel(0, 1),
        canvas.get_pixel(1, 1),
    ];
    canvas.blend_pixel(-1, 0, RED);
    canvas.blend_pixel(0, -1, RED);
    canvas.blend_pixel(2, 0, RED);
    canvas.blend_pixel(0, 2, RED);
    let after = [
        canvas.get_pixel(0, 0),
        canvas.get_pixel(1, 0),
        canvas.get_pixel(0, 1),
        canvas.get_pixel(1, 1),
    ];
    assert_eq!(before, after);
}

#[test]
fn text_pixels_are_placed_from_the_position() {
    let mut canvas = Canvas::new(10, 10, [0, 0, 0, 255], None).unwrap();
    // position (3, 4), glyph box at (1, -2), pixel (2, 3) of the glyph
    canvas.draw_text_pixel((3, 4), Point { x: 1, y: -2 }, 2, 3, [9, 8, 7, 0], 255);
    assert_eq!(canvas.get_pixel(6, 5), [9, 8, 7, 255]);
    // a pixel that falls outside is left out
    canvas.draw_text_pixel((-5, 0), Point { x: 0, y: 0 }, 2, 0, [9, 8, 7, 0], 255);
    canvas.draw_text_pixel((i64::MAX, i64::MAX), Point { x: i32::MAX, y: 0 }, u32::MAX, 0, RED, 255);
    assert_eq!(canvas.get_pixel(0, 0), [0, 0, 0, 255]);
    // no coverage, no change
    canvas.draw_text_pixel((0, 0), Point { x: 0, y: 0 }, 1, 1, RED, 0);
    assert_eq!(canvas.get_pixel(1, 1), [0, 0, 0, 255]);
}

#[test]
fn text_sits_in_the_middle() {
    assert_eq!(text_position(100, 50, rect((0, 0), (40, 10))), (30, 20));
    assert_eq!(text_position(100, 50, rect((5, 5), (45, 15))), (30, 20));
    // a text that is wider than the canvas starts to the left of it
    assert_eq!(text_position(10, 10, rect((0, 0), (15, 13))), (-2, -1));
    assert_eq!(text_position(0, 0, rect((0, 0), (1, 1))), (0, 0));
    assert_eq!(
        text_position(u32::MAX, 0, rect((i32::MAX, 0), (i32::MIN, 0))),
        ((u32::MAX as i64 + u32::MAX as i64) / 2, 0)
    );
}

#[test]
fn box_of_a_text() {
    let boxes = vec![Some(rect((1, 2), (5, 8))), None, Some(rect((0, 3), (7, 6)))];
    assert_eq!(calc_text_bounding_box(&boxes), rect((0, 2), (7, 6)));
    assert_eq!(
        calc_text_bounding_box(&Vec::new()),
        rect((i32::MAX, i32::MAX), (i32::MIN, i32::MIN))
    );
    assert_eq!(
        calc_text_bounding_box(&vec![None, None]),
        rect((i32::MAX, i32::MAX), (i32::MIN, i32::MIN))
    );
    assert_eq!(calc_text_bounding_box(&vec![Some(rect((3, 4), (5, 6)))]), rect((3, 4), (5, 6)));
    // the lower edge follows the last glyph
    let lower_first = vec![Some(rect((0, 0), (1, 9))), Some(rect((0, 0), (1, 4)))];
    assert_eq!(calc_text_bounding_box(&lower_first), rect((0, 0), (1, 4)));
}

#[test]
fn canvas_builder_builds_an_element() {
    let mut state = GameState::new();
    let builder = state.new_gui_element((1, 2, 6, 4)).with_canvas(BLUE).with_border(1, RED);
    assert_eq!(builder.border, Some((1, RED)));
    assert_eq!(builder.color, BLUE);
    assert!(builder.text.is_none());
    let canvas = builder.paint().unwrap();
    assert_eq!((canvas.width(), canvas.height()), (6, 4));
    assert_eq!(canvas.get_pixel(0, 0), RED);
    assert_eq!(canvas.get_pixel(1, 1), BLUE);
    let element = builder.build(&mut state, Ok((GpuTexture { id: 5 }, GpuFuture { id: 6 }))).unwrap();
    assert_eq!(state.gui_element_count(), 1);
    let entry = state.gui_element_entry(element.id()).unwrap();
    assert_eq!(entry.texture, GpuTexture { id: 5 });
    assert_eq!(entry.texture_future, Some(GpuFuture { id: 6 }));
    assert_eq!(element.read(&state).dimensions, (1, 2, 6, 4));
    let config = element.canvas_config().as_ref().unwrap();
    assert_eq!(config.background, BLUE);
    assert_eq!(config.border, Some((1, RED)));
}

#[test]
fn failed_upload_registers_nothing() {
    let mut state = GameState::new();
    let builder = GuiElementBuilder::new((0, 0, 2, 2)).with_canvas(BLUE);
    let result = builder.build(&mut state, Err(GuiError::CouldNotCreateTexture));
    assert_eq!(result.err(), Some(GuiError::CouldNotCreateTexture));
    assert_eq!(state.gui_element_count(), 0);
    let builder = GuiElementBuilder::new((0, 0, 2, 2)).with_texture("missing.png".to_string());
    assert_eq!(builder.texture_path, "missing.png");
    let error = GuiError::CouldNotLoadTexture { path: "missing.png".to_string() };
    let result = builder.build(&mut state, Err(error));
    assert_eq!(
        result.err(),
        Some(GuiError::CouldNotLoadTexture { path: "missing.png".to_string() })
    );
    assert_eq!(state.gui_element_count(), 0);
    let first = GuiElementBuilder::new((0, 0, 2, 2))
        .with_texture("a.png".to_string())
        .build(&mut state, Ok((GpuTexture { id: 1 }, GpuFuture { id: 1 })))
        .unwrap();
    assert!(first.canvas_config().is_none());
    assert_eq!(first.id(), 0);
}

#[test]
fn updated_canvas_takes_the_place_of_the_old() {
    let mut state = GameState::new();
    let mut element = GuiElementBuilder::new((0, 0, 8, 8))
        .with_canvas(BLUE)
        .build(&mut state, Ok((GpuTexture { id: 1 }, GpuFuture { id: 1 })))
        .unwrap();
    let old_id = element.id();
    element.modify(&mut state, |d| d.dimensions = (3, 3, 8, 8));
    let builder = element.canvas_builder(&state).with_border(2, RED);
    assert_eq!(builder.dimensions, (3, 3, 8, 8));
    assert_eq!(builder.color, BLUE);
    // a failed upload leaves everything as it was
    let same = element.canvas_builder(&state);
    let failed = element.update_canvas(&mut state, same, Err(GuiError::CouldNotCreateTexture));
    assert_eq!(failed, Err(GuiError::CouldNotCreateTexture));
    assert_eq!(element.id(), old_id);
    assert_eq!(state.pending_updates(), 0);

    element
        .update_canvas(&mut state, builder, Ok((GpuTexture { id: 2 }, GpuFuture { id: 2 })))
        .unwrap();
    assert_ne!(element.id(), old_id);
    assert_eq!(element.canvas_config().as_ref().unwrap().border, Some((2, RED)));
    state.apply_updates();
    assert_eq!(state.gui_element_count(), 1);
    assert!(state.gui_element_entry(old_id).is_none());
    assert_eq!(state.gui_element_entry(element.id()).unwrap().texture, GpuTexture { id: 2 });
    assert_eq!(element.read(&state).dimensions, (3, 3, 8, 8));
    assert!(state.has_live_gui_element(element.id()));
    assert!(!state.has_live_gui_element(old_id));
}
