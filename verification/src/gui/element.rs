use super::builder::GuiElementCanvasBuilder;
use crate::error::GuiError;
use crate::game_state::{
    lemma_cloned_gui_element, lemma_dropped_gui_element, lemma_modified_gui_element, GameState,
    GameStateView,
};
use crate::gpu::{GpuFuture, GpuTexture};
use crate::internal::UpdateMessage;
use crate::model::DataRef;
use std::sync::Arc;
use vstd::prelude::*;

verus! {

/// `rusttype::Font`, carried through as it is: nothing is known of what a
/// font holds.
#[verifier::external_type_specification]
#[verifier::external_body]
pub struct ExFont<'a>(rusttype::Font<'a>);

/// The data of a [`GuiElement`]. This can be used to manipulate an existing element.
#[derive(Clone, Copy, Debug)]
pub struct GuiElementData {
    /// The z-index of the element on the screen.
    /// Elements with a higher z-index are rendered on top of elements with a lower z-index.
    ///
    /// Elements are given a higher z-index than the last element created, so
    /// initially newer elements are rendered on top.
    pub z_index: u32,
    /// The dimensions of the element, as `(x, y, width, height)`.
    pub dimensions: (i32, i32, u32, u32),
}

/// An entry of the registry of GUI elements: the texture to draw, together
/// with the data record of one handle.
#[derive(Debug)]
pub struct GuiElementRef {
    pub data: DataRef,
    pub texture: GpuTexture,
    /// The upload of the texture, until the renderer has taken it.
    pub texture_future: Option<GpuFuture>,
}

impl GuiElementRef {
    /// An entry for the same texture with another data record. The upload
    /// stays with the entry that it was made for.
    pub fn with_new_data(&self, new_data: DataRef) -> (r: GuiElementRef)
        ensures
            r.data == new_data,
            r.texture == self.texture,
            r.texture_future is None,
    {
        GuiElementRef { data: new_data, texture: self.texture, texture_future: None }
    }
}

/// A text to draw in the middle of a canvas.
#[derive(Debug)]
pub struct TextRequest {
    /// The font to draw with. The bookkeeping of the engine carries it
    /// along with the text and never looks inside.
    pub font: Arc<rusttype::Font<'static>>,
    pub font_size: u16,
    pub text: String,
    pub color: [u8; 4],
}

impl TextRequest {
    /// Whether two requests ask for the same text in the same font, size and color.
    pub open spec fn same(&self, other: &TextRequest) -> bool {
        &&& self.font == other.font
        &&& self.font_size == other.font_size
        &&& self.text@ == other.text@
        &&& self.color == other.color
    }

    /// A second request for the same text.
    pub fn duplicate(&self) -> (r: TextRequest)
        ensures
            r.same(self),
    {
        TextRequest {
            font: self.font.clone(),
            font_size: self.font_size,
            text: self.text.clone(),
            color: self.color,
        }
    }
}

/// What a canvas was painted from, kept so that it can be painted again.
#[derive(Debug)]
pub struct CanvasConfig {
    pub background: [u8; 4],
    pub border: Option<(u16, [u8; 4])>,
    pub text: Option<TextRequest>,
}

impl CanvasConfig {
    /// Whether two configurations describe the same canvas.
    pub open spec fn same(&self, other: &CanvasConfig) -> bool {
        &&& self.background == other.background
        &&& self.border == other.border
        &&& match (self.text, other.text) {
            (Some(a), Some(b)) => a.same(&b),
            (None, None) => true,
            _ => false,
        }
    }

    /// A second configuration for the same canvas.
    pub fn duplicate(&self) -> (r: CanvasConfig)
        ensures
            r.same(self),
    {
        let text = match &self.text {
            Some(request) => Some(request.duplicate()),
            None => None,
        };
        CanvasConfig { background: self.background, border: self.border, text }
    }
}

/// A reference to a GUI element on the screen.
///
/// Cloning it creates a second element on the screen with the same
/// parameters that were used to create this one.
#[derive(Debug)]
pub struct GuiElement {
    pub(crate) id: u64,
    pub(crate) canvas_config: Option<CanvasConfig>,
}

impl GuiElement {
    /// The identity of the element that this handle stands for.
    pub closed spec fn spec_id(&self) -> u64 {
        self.id
    }

    /// The identity of the element that this handle stands for.
    #[verifier::when_used_as_spec(spec_id)]
    pub fn id(&self) -> (r: u64)
        ensures
            r == self.spec_id(),
    {
        self.id
    }

    /// What the canvas of this element was painted from; `None` for an
    /// element that shows a texture.
    pub closed spec fn spec_canvas_config(&self) -> Option<CanvasConfig> {
        self.canvas_config
    }

    /// What the canvas of this element was painted from; `None` for an
    /// element that shows a texture.
    pub fn canvas_config(&self) -> (r: &Option<CanvasConfig>)
        ensures
            *r == self.spec_canvas_config(),
    {
        &self.canvas_config
    }

    /// Whether this handle is alive in `state`: it was handed out by
    /// `state` and has not been dropped.
    pub open spec fn is_live(&self, state: &GameState) -> bool {
        state@.live_gui_elements().contains(self.spec_id())
    }

    /// What the data record of this handle holds.
    pub open spec fn data(&self, state: &GameState) -> GuiElementData {
        state@.gui_data[self.spec_id()]
    }

    /// Makes what a new element is known by under the identity `id`: its
    /// registry entry with the texture and its upload, its handle, and its
    /// data record with `dimensions` and `z_index`.
    pub fn new(
        id: u64,
        z_index: u32,
        dimensions: (i32, i32, u32, u32),
        texture: GpuTexture,
        texture_future: GpuFuture,
        canvas_config: Option<CanvasConfig>,
    ) -> (r: (u64, GuiElementRef, GuiElement, GuiElementData))
        ensures
            r.0 == id,
            r.1 == (GuiElementRef {
                data: DataRef { key: id },
                texture,
                texture_future: Some(texture_future),
            }),
            r.2.spec_id() == id,
            r.2.spec_canvas_config() == canvas_config,
            r.3 == (GuiElementData { z_index, dimensions }),
    {
        (
            id,
            GuiElementRef { data: DataRef { key: id }, texture, texture_future: Some(texture_future) },
            GuiElement { id, canvas_config },
            GuiElementData { z_index, dimensions },
        )
    }

    /// Read the data of the element.
    pub fn read(&self, state: &GameState) -> (r: GuiElementData)
        requires
            self.is_live(state),
        ensures
            r == self.data(state),
    {
        state.gui_element_data(self.id).unwrap()
    }

    /// Modify the current element. What is written is what the renderer
    /// reads from then on; no message is needed for it.
    pub fn modify<F: FnOnce(&mut GuiElementData)>(&self, state: &mut GameState, cb: F)
        requires
            old(state).wf(),
            self.is_live(old(state)),
            forall|a: (&mut GuiElementData,)| *a.0 == self.data(old(state)) ==> #[trigger] cb.requires(a),
        ensures
            exists|a: (&mut GuiElementData,)|
                {
                    &&& #[trigger] cb.ensures(a, ())
                    &&& *a.0 == self.data(old(state))
                    &&& final(state)@ == (GameStateView {
                        gui_data: old(state)@.gui_data.insert(self.spec_id(), *final(a.0)),
                        ..old(state)@
                    })
                },
            final(state).wf(),
            final(state)@.live_models() == old(state)@.live_models(),
            final(state)@.live_gui_elements() == old(state)@.live_gui_elements(),
    {
        let mut data = state.gui_element_data(self.id).unwrap();
        cb(&mut data);
        proof {
            lemma_modified_gui_element(old(state)@, self.id, data);
        }
        state.put_gui_element_data(self.id, data);
    }

    /// Makes a second element appear on the screen, with the dimensions and
    /// the z-index that this one has now and with the same canvas. Both can
    /// be changed independently from then on.
    pub fn clone(&self, state: &mut GameState) -> (r: GuiElement)
        requires
            old(state).wf(),
            self.is_live(old(state)),
            old(state)@.next_gui_id < u64::MAX,
        ensures
            final(state)@ == old(state)@.with_cloned_gui_element(self.spec_id()),
            final(state).wf(),
            r.spec_id() == old(state)@.next_gui_id,
            r.spec_id() != self.spec_id(),
            r.is_live(final(state)),
            self.is_live(final(state)),
            r.data(final(state)) == self.data(old(state)),
            self.data(final(state)) == self.data(old(state)),
            match (r.spec_canvas_config(), self.spec_canvas_config()) {
                (Some(a), Some(b)) => a.same(&b),
                (None, None) => true,
                _ => false,
            },
            final(state)@.live_gui_elements() == old(state)@.live_gui_elements().insert(
                r.spec_id(),
            ),
            final(state)@.live_models() == old(state)@.live_models(),
    {
        proof {
            lemma_cloned_gui_element(state@, self.id);
        }
        let old_id = self.id;
        let new_id = state.take_gui_id();
        let data = state.gui_element_data(old_id).unwrap();
        state.put_gui_element_data(new_id, data);
        state.send(UpdateMessage::NewGuiElement { old_id, new_id, data: DataRef { key: new_id } });
        let canvas_config = match &self.canvas_config {
            Some(config) => Some(config.duplicate()),
            None => None,
        };
        GuiElement { id: new_id, canvas_config }
    }

    /// The builder that paints the canvas of this element again: with the
    /// dimensions that the element has now, and with the background, the
    /// border and the text that it was painted from. The builder can be
    /// changed before the canvas is painted.
    ///
    /// The element must show a canvas, not a texture.
    pub fn canvas_builder(&self, state: &GameState) -> (r: GuiElementCanvasBuilder)
        requires
            self.is_live(state),
            self.spec_canvas_config() is Some,
        ensures
            r.dimensions == self.data(state).dimensions,
            r.config().same(&self.spec_canvas_config()->0),
    {
        let dimensions = state.gui_element_data(self.id).unwrap().dimensions;
        let config = self.canvas_config.as_ref().unwrap().duplicate();
        GuiElementCanvasBuilder {
            dimensions,
            color: config.background,
            text: config.text,
            border: config.border,
        }
    }

    /// Puts a newly painted canvas in the place of this element. `builder`
    /// is what the canvas was painted from, and `uploaded` what came of
    /// handing it to the graphics device.
    ///
    /// The element must show a canvas, not a texture, and the canvas is
    /// painted for the dimensions that the element has: it is the same
    /// element that gets a new picture.
    ///
    /// Where that failed, the failure is handed on, and the element and
    /// the state stay as they are. Else a new element is built and entered
    /// into the registry, this handle stands for it from now on, and the
    /// element that it stood for is dropped: once the messages are
    /// applied, the registry holds the new element in its place.
    pub fn update_canvas(
        &mut self,
        state: &mut GameState,
        builder: GuiElementCanvasBuilder,
        uploaded: Result<(GpuTexture, GpuFuture), GuiError>,
    ) -> (r: Result<(), GuiError>)
        requires
            old(state).wf(),
            old(self).is_live(old(state)),
            old(self).spec_canvas_config() is Some,
            builder.dimensions == old(self).data(old(state)).dimensions,
            old(state)@.next_gui_id < u64::MAX,
            old(state)@.next_z_index < u32::MAX,
        ensures
            final(state).wf(),
            match uploaded {
                Ok((texture, future)) => {
                    &&& r is Ok
                    &&& final(state)@ == old(state)@.with_new_gui_element(
                        old(self).data(old(state)).dimensions,
                        texture,
                        future,
                    ).with_dropped_gui_element(old(self).spec_id())
                    &&& final(self).spec_id() == old(state)@.next_gui_id
                    &&& final(self).spec_canvas_config() == Some(builder.config())
                    &&& final(self).is_live(final(state))
                    &&& final(self).data(final(state)).dimensions == old(self).data(
                        old(state),
                    ).dimensions
                    &&& final(state)@.live_gui_elements() == old(state)@.live_gui_elements().remove(
                        old(self).spec_id(),
                    ).insert(final(self).spec_id())
                },
                Err(error) => {
                    &&& r == Err::<(), GuiError>(error)
                    &&& final(state)@ == old(state)@
                    &&& *final(self) == *old(self)
                },
            },
    {
        match builder.build(state, uploaded) {
            Ok(element) => {
                let mut previous = element;
                core::mem::swap(self, &mut previous);
                previous.drop(state);
                proof {
                    assert(final(state)@.live_gui_elements() =~= old(state)@.live_gui_elements().remove(
                        old(self).spec_id(),
                    ).insert(self.spec_id()));
                }
                Ok(())
            },
            Err(error) => Err(error),
        }
    }

    /// Gives the handle up. The element disappears from the screen when the
    /// messages are applied next.
    pub fn drop(self, state: &mut GameState)
        requires
            old(state).wf(),
            self.is_live(old(state)),
        ensures
            final(state)@ == old(state)@.with_dropped_gui_element(self.spec_id()),
            final(state).wf(),
            final(state)@.live_gui_elements() == old(state)@.live_gui_elements().remove(
                self.spec_id(),
            ),
            final(state)@.live_models() == old(state)@.live_models(),
    {
        proof {
            lemma_dropped_gui_element(state@, self.id);
        }
        state.send(UpdateMessage::GuiElementDropped(self.id));
    }
}

} // verus!
