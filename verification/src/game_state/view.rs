use crate::gpu::{GpuFuture, GpuTexture};
use crate::gui::{GuiElementData, GuiElementRef};
use crate::internal::{effects, UpdateMessage};
use crate::lifecycle::{consistent, live, Family};
use crate::lights::LightState;
use crate::math::Matrix4;
use crate::model::{DataRef, Model, ModelDataView, ModelRef};
use crate::time::TimeState;
use std::sync::Arc;
use vstd::prelude::*;

verus! {

/// What a [`GameState`] holds, as mathematical maps and sequences.
pub struct GameStateView {
    /// The registry of models: what the renderer draws, by identity.
    pub model_handles: Map<u64, ModelRef>,
    /// The data record of each model, by the key that handles and registry
    /// entries refer to it with.
    pub model_data: Map<u64, ModelDataView>,
    /// The registry of GUI elements.
    pub gui_elements: Map<u64, GuiElementRef>,
    /// The data record of each GUI element.
    pub gui_data: Map<u64, GuiElementData>,
    /// The lifecycle messages that were sent and not applied yet, oldest first.
    pub updates: Seq<UpdateMessage>,
    /// The identity that the next model gets.
    pub next_model_id: u64,
    /// The identity that the next GUI element gets.
    pub next_gui_id: u64,
    /// The z-index that the next GUI element gets.
    pub next_z_index: u32,
    /// Whether the game goes on.
    pub is_running: bool,
    /// The matrix of the camera currently in use.
    pub camera: Matrix4,
    /// The keys that are held down, by their code.
    pub keyboard: Set<u32>,
    /// The state of the lights currently in the world.
    pub light: LightState,
    /// The state of the time in the game.
    pub time: TimeState,
}

impl GameStateView {
    /// Whether the registries and the data records agree with the messages
    /// `queue` that are still to be applied.
    pub open spec fn consistent_with(self, queue: Seq<UpdateMessage>) -> bool {
        &&& consistent(
            effects(queue, Family::Model),
            self.model_handles.dom(),
            self.model_data.dom(),
            self.next_model_id as int,
        )
        &&& consistent(
            effects(queue, Family::Gui),
            self.gui_elements.dom(),
            self.gui_data.dom(),
            self.next_gui_id as int,
        )
        &&& forall|id: u64| #[trigger]
            self.model_handles.contains_key(id) ==> {
                &&& self.model_handles[id].data.key == id
                &&& self.model_data[id].groups.len() == self.model_handles[id].model.groups@.len()
            }
        &&& forall|id: u64| #[trigger]
            self.gui_elements.contains_key(id) ==> self.gui_elements[id].data.key == id
        &&& forall|i: int|
            0 <= i < queue.len() ==> (#[trigger] queue[i] matches UpdateMessage::NewModel {
                old_id,
                new_id,
                data,
            } ==> {
                &&& data.key == new_id
                &&& self.model_data[new_id].groups.len() == self.model_data[old_id].groups.len()
            })
        &&& forall|i: int|
            0 <= i < queue.len() ==> (#[trigger] queue[i] matches UpdateMessage::NewGuiElement {
                new_id,
                data,
                ..
            } ==> data.key == new_id)
    }

    /// Whether the state is in order: the registries and the data records
    /// agree with the messages that wait in the queue, and the time and
    /// the lights are in order.
    pub open spec fn wf(self) -> bool {
        &&& self.consistent_with(self.updates)
        &&& self.time.wf()
        &&& self.light.directional.wf()
        &&& self.light.point.wf()
    }

    /// The identities of the models whose handle is alive.
    pub open spec fn live_models(self) -> Set<u64> {
        live(effects(self.updates, Family::Model), self.model_data.dom())
    }

    /// The identities of the GUI elements whose handle is alive.
    pub open spec fn live_gui_elements(self) -> Set<u64> {
        live(effects(self.updates, Family::Gui), self.gui_data.dom())
    }

    /// The state after a model was built from `model` and `data`: it gets
    /// the next identity, its data record and its registry entry at once.
    pub open spec fn with_new_model(self, model: Arc<Model>, data: ModelDataView) -> GameStateView {
        let id = self.next_model_id;
        GameStateView {
            model_handles: self.model_handles.insert(
                id,
                ModelRef { model, data: DataRef { key: id } },
            ),
            model_data: self.model_data.insert(id, ModelRef::initial_data(*model, data)),
            next_model_id: (id + 1) as u64,
            ..self
        }
    }

    /// The state after the handle of the model `id` was cloned: the clone
    /// gets the next identity and a data record with the values of `id`, and
    /// the message that asks for its registration joins the queue.
    pub open spec fn with_cloned_model(self, id: u64) -> GameStateView {
        let new_id = self.next_model_id;
        GameStateView {
            model_data: self.model_data.insert(new_id, self.model_data[id]),
            updates: self.updates.push(
                UpdateMessage::NewModel { old_id: id, new_id, data: DataRef { key: new_id } },
            ),
            next_model_id: (new_id + 1) as u64,
            ..self
        }
    }

    /// The state after the handle of the model `id` was dropped.
    pub open spec fn with_dropped_model(self, id: u64) -> GameStateView {
        GameStateView { updates: self.updates.push(UpdateMessage::ModelDropped(id)), ..self }
    }

    /// The state after a GUI element was built: it gets the next identity
    /// and the next z-index, and its registry entry at once.
    pub open spec fn with_new_gui_element(
        self,
        dimensions: (i32, i32, u32, u32),
        texture: GpuTexture,
        future: GpuFuture,
    ) -> GameStateView {
        let id = self.next_gui_id;
        GameStateView {
            gui_elements: self.gui_elements.insert(
                id,
                GuiElementRef { data: DataRef { key: id }, texture, texture_future: Some(future) },
            ),
            gui_data: self.gui_data.insert(
                id,
                GuiElementData { z_index: self.next_z_index, dimensions },
            ),
            next_gui_id: (id + 1) as u64,
            next_z_index: (self.next_z_index + 1) as u32,
            ..self
        }
    }

    /// The state after the handle of the GUI element `id` was cloned. The
    /// clone keeps the dimensions and the z-index of `id`.
    pub open spec fn with_cloned_gui_element(self, id: u64) -> GameStateView {
        let new_id = self.next_gui_id;
        GameStateView {
            gui_data: self.gui_data.insert(new_id, self.gui_data[id]),
            updates: self.updates.push(
                UpdateMessage::NewGuiElement { old_id: id, new_id, data: DataRef { key: new_id } },
            ),
            next_gui_id: (new_id + 1) as u64,
            ..self
        }
    }

    /// The state after the handle of the GUI element `id` was dropped.
    pub open spec fn with_dropped_gui_element(self, id: u64) -> GameStateView {
        GameStateView { updates: self.updates.push(UpdateMessage::GuiElementDropped(id)), ..self }
    }

    /// The state after `message` was applied to the registries. A clone is
    /// registered with the model or texture of its source; a dropped entity
    /// leaves the registry, and its data record is released.
    pub open spec fn applied(self, message: UpdateMessage) -> GameStateView {
        match message {
            UpdateMessage::NewModel { old_id, new_id, data } => GameStateView {
                model_handles: self.model_handles.insert(
                    new_id,
                    ModelRef { model: self.model_handles[old_id].model, data },
                ),
                ..self
            },
            UpdateMessage::ModelDropped(id) => GameStateView {
                model_handles: self.model_handles.remove(id),
                model_data: self.model_data.remove(id),
                ..self
            },
            UpdateMessage::NewGuiElement { old_id, new_id, data } => GameStateView {
                gui_elements: self.gui_elements.insert(
                    new_id,
                    GuiElementRef {
                        data,
                        texture: self.gui_elements[old_id].texture,
                        texture_future: None,
                    },
                ),
                ..self
            },
            UpdateMessage::GuiElementDropped(id) => GameStateView {
                gui_elements: self.gui_elements.remove(id),
                gui_data: self.gui_data.remove(id),
                ..self
            },
        }
    }

    /// Whether `message` finds in the registry the entry that it copies from.
    pub open spec fn can_apply(self, message: UpdateMessage) -> bool {
        match message {
            UpdateMessage::NewModel { old_id, .. } => self.model_handles.contains_key(old_id),
            UpdateMessage::NewGuiElement { old_id, .. } => self.gui_elements.contains_key(old_id),
            _ => true,
        }
    }

    /// The state after the messages of `queue` were applied in order.
    pub open spec fn applied_all(self, queue: Seq<UpdateMessage>) -> GameStateView
        decreases queue.len(),
    {
        if queue.len() == 0 {
            self
        } else {
            self.applied(queue[0]).applied_all(queue.skip(1))
        }
    }

    /// The state after every waiting message was applied, oldest first, and
    /// the queue is empty.
    pub open spec fn drained(self) -> GameStateView {
        GameStateView { updates: Seq::empty(), ..self.applied_all(self.updates) }
    }
}

impl GameStateView {
    /// Whether the GUI element `a` is drawn before the GUI element `b`: the
    /// one with the lower z-index first, and of two with the same z-index
    /// the one with the lower identity.
    pub open spec fn drawn_before(self, a: u64, b: u64) -> bool {
        self.gui_data[a].z_index < self.gui_data[b].z_index || (self.gui_data[a].z_index
            == self.gui_data[b].z_index && a < b)
    }

    /// Whether `order` lists the GUI elements of the registry in the order
    /// in which they are drawn, each once.
    pub open spec fn is_draw_order(self, order: Seq<u64>) -> bool {
        &&& forall|id: u64| order.contains(id) <==> self.gui_elements.contains_key(id)
        &&& forall|i: int, j: int|
            0 <= i < j < order.len() ==> self.drawn_before(#[trigger] order[i], #[trigger] order[j])
    }
}

} // verus!
