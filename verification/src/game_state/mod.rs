pub mod lemmas;
pub mod view;

pub use self::lemmas::{
    lemma_applied, lemma_applied_all, lemma_applied_all_keeps, lemma_applied_all_push,
    lemma_applied_all_queue, lemma_cloned_gui_element, lemma_cloned_model, lemma_drained_state,
    lemma_dropped_gui_element, lemma_dropped_model, lemma_modified_gui_element,
    lemma_modified_model, lemma_new_gui_element, lemma_new_model,
};
pub use self::view::GameStateView;

use crate::gpu::{GpuFuture, GpuTexture};
use crate::gui::{CanvasConfig, GuiElement, GuiElementBuilder, GuiElementData, GuiElementRef};
use crate::internal::{effects, UpdateMessage};
use crate::lifecycle::Family;
use crate::lights::LightState;
use crate::math::Matrix4;
use crate::model::loader::ParsedModel;
use crate::model::{
    ModelBuilder, Model, ModelData, ModelDataView, ModelHandle, ModelRef, SourceOrShape,
};
use crate::time::TimeState;
use std::collections::{HashMap, HashSet};
use std::sync::Arc;
use vstd::prelude::*;
use vstd::std_specs::iter::IteratorSpec;

verus! {

/// The game state: the registries that the renderer draws from, the data
/// records that handles write to, and the lifecycle messages of handles
/// that wait to be applied.
///
/// The registries change in two ways only. Building an entity enters it at
/// once. Cloning and dropping a handle send a message, and
/// [`GameState::apply_updates`] applies all of them, oldest first, once per
/// frame before anything is drawn.
pub struct GameState {
    pub(crate) model_handles: HashMap<u64, ModelRef>,
    pub(crate) model_data: HashMap<u64, ModelData>,
    pub(crate) gui_elements: HashMap<u64, GuiElementRef>,
    pub(crate) gui_data: HashMap<u64, GuiElementData>,
    pub(crate) updates: Vec<UpdateMessage>,
    pub(crate) next_model_id: u64,
    pub(crate) next_gui_id: u64,
    pub(crate) next_z_index: u32,
    pub(crate) is_running: bool,
    pub(crate) camera: Matrix4,
    pub(crate) keyboard: KeyboardState,
    pub(crate) light: LightState,
    pub(crate) time: TimeState,
}

/// The state of the keyboard: which keys are held down during the current
/// frame. A key is known by the code that the window system gives it.
pub struct KeyboardState {
    pub(crate) pressed: HashSet<u32>,
}

impl View for KeyboardState {
    type V = Set<u32>;

    closed spec fn view(&self) -> Set<u32> {
        self.pressed@
    }
}

impl KeyboardState {
    /// A keyboard with no key held down.
    pub fn new() -> (r: KeyboardState)
        ensures
            r@ == Set::<u32>::empty(),
    {
        KeyboardState { pressed: HashSet::new() }
    }

    /// Check if the given key is pressed.
    pub fn is_pressed(&self, key: u32) -> (r: bool)
        ensures
            r == self@.contains(key),
    {
        self.pressed.contains(&key)
    }

    /// Takes note that `key` went down or came up.
    pub fn set_pressed(&mut self, key: u32, pressed: bool)
        ensures
            final(self)@ == (if pressed {
                old(self)@.insert(key)
            } else {
                old(self)@.remove(key)
            }),
    {
        if pressed {
            self.pressed.insert(key);
        } else {
            self.pressed.remove(&key);
        }
    }
}

impl View for GameState {
    type V = GameStateView;

    closed spec fn view(&self) -> GameStateView {
        GameStateView {
            model_handles: self.model_handles@,
            model_data: self.model_data@.map_values(|d: ModelData| d@),
            gui_elements: self.gui_elements@,
            gui_data: self.gui_data@,
            updates: self.updates@,
            next_model_id: self.next_model_id,
            next_gui_id: self.next_gui_id,
            next_z_index: self.next_z_index,
            is_running: self.is_running,
            camera: self.camera,
            keyboard: self.keyboard@,
            light: self.light,
            time: self.time,
        }
    }
}

impl GameState {
    /// Whether the state is in order. Every function of the engine that
    /// changes a state keeps it in order.
    pub open spec fn wf(&self) -> bool {
        self@.wf()
    }

    /// A state without entities and without messages. Models are numbered
    /// from 1, GUI elements from 0, and z-indices from 1.
    pub fn new() -> (state: GameState)
        ensures
            state.wf(),
            state@.model_handles == Map::<u64, ModelRef>::empty(),
            state@.model_data == Map::<u64, ModelDataView>::empty(),
            state@.gui_elements == Map::<u64, GuiElementRef>::empty(),
            state@.gui_data == Map::<u64, GuiElementData>::empty(),
            state@.updates == Seq::<UpdateMessage>::empty(),
            state@.next_model_id == 1,
            state@.next_gui_id == 0,
            state@.next_z_index == 1,
            state@.is_running,
            state@.camera == Matrix4::spec_identity(),
            state@.keyboard == Set::<u32>::empty(),
            state@.light.directional@ == Seq::<crate::lights::DirectionalLight>::empty(),
            state@.light.point@ == Seq::<crate::lights::PointLight>::empty(),
            state@.light.directional.wf(),
            state@.light.point.wf(),
            state@.time.wf(),
            state@.time.frames() == Seq::<std::time::Duration>::empty(),
    {
        let state = GameState {
            model_handles: HashMap::new(),
            model_data: HashMap::new(),
            gui_elements: HashMap::new(),
            gui_data: HashMap::new(),
            updates: Vec::new(),
            next_model_id: 1,
            next_gui_id: 0,
            next_z_index: 1,
            is_running: true,
            camera: Matrix4::identity(),
            keyboard: KeyboardState::new(),
            light: LightState::new(),
            time: TimeState::default(),
        };
        proof {
            assert(state@.model_data =~= Map::<u64, ModelDataView>::empty());
            assert(effects(state@.updates, Family::Model) =~= Seq::empty());
            assert(effects(state@.updates, Family::Gui) =~= Seq::empty());
        }
        state
    }

    /// The matrix of the camera currently in use.
    pub fn camera(&self) -> (r: Matrix4)
        ensures
            r == self@.camera,
    {
        self.camera
    }

    /// Puts another camera in use.
    pub fn set_camera(&mut self, camera: Matrix4)
        ensures
            final(self)@ == (GameStateView { camera, ..old(self)@ }),
    {
        self.camera = camera;
    }

    /// The state of the keyboard: which keys are held down.
    pub fn keyboard(&self) -> (r: &KeyboardState)
        ensures
            r@ == self@.keyboard,
    {
        &self.keyboard
    }

    /// Takes note that `key` went down or came up. The window loop calls
    /// this before it tells the game of the key.
    pub fn key_event(&mut self, key: u32, pressed: bool)
        ensures
            final(self)@ == (GameStateView {
                keyboard: if pressed {
                    old(self)@.keyboard.insert(key)
                } else {
                    old(self)@.keyboard.remove(key)
                },
                ..old(self)@
            }),
    {
        self.keyboard.set_pressed(key, pressed);
    }

    /// The state of the lights currently in the world.
    pub fn light(&self) -> (r: &LightState)
        ensures
            *r == self@.light,
    {
        &self.light
    }

    /// The state of the lights, to add lights to or take lights from.
    pub fn light_mut(&mut self) -> (r: &mut LightState)
        ensures
            *r == old(self)@.light,
            final(self)@ == (GameStateView { light: *final(r), ..old(self)@ }),
    {
        &mut self.light
    }

    /// The state of the time in the game: the time since the last frame
    /// and since the start of the game.
    pub fn time(&self) -> (r: &TimeState)
        ensures
            *r == self@.time,
    {
        &self.time
    }

    /// Begins a new frame: the clock is read and the duration of the frame
    /// is remembered. Nothing but the time changes.
    pub fn update(&mut self)
        requires
            old(self).wf(),
        ensures
            final(self).wf(),
            final(self)@.time.start() == old(self)@.time.start(),
            final(self)@.time.last_frame() == old(self)@.time.next_frame(),
            final(self)@.time.frames().len() == TimeState::kept(old(self)@.time.frames()).len() + 1,
            final(self)@.time.frames().drop_last() == TimeState::kept(old(self)@.time.frames()),
            final(self)@.time.frames().last() == final(self)@.time.spec_delta(),
            final(self)@ == (GameStateView { time: final(self)@.time, ..old(self)@ }),
    {
        self.time.update();
    }

    /// Exit the game. Once this function is called, it cannot be cancelled.
    pub fn terminate_game(&mut self)
        ensures
            final(self)@ == (GameStateView { is_running: false, ..old(self)@ }),
    {
        self.is_running = false;
    }

    /// Whether the game goes on.
    pub fn is_running(&self) -> (r: bool)
        ensures
            r == self@.is_running,
    {
        self.is_running
    }

    /// The number of models in the registry.
    pub fn model_count(&self) -> (r: usize)
        ensures
            r == self@.model_handles.dom().len(),
    {
        self.model_handles.len()
    }

    /// The number of GUI elements in the registry.
    pub fn gui_element_count(&self) -> (r: usize)
        ensures
            r == self@.gui_elements.dom().len(),
    {
        self.gui_elements.len()
    }

    /// The number of messages that wait to be applied.
    pub fn pending_updates(&self) -> (r: usize)
        ensures
            r == self@.updates.len(),
    {
        self.updates.len()
    }

    /// The registry entry of the model `id`, if it has one.
    pub fn model_entry(&self, id: u64) -> (r: Option<&ModelRef>)
        ensures
            r == (if self@.model_handles.contains_key(id) {
                Some(&self@.model_handles[id])
            } else {
                None
            }),
    {
        self.model_handles.get(&id)
    }

    /// The data record that is kept under `key`, if there is one: what a
    /// handle wrote last is what the renderer reads here.
    pub fn model_data(&self, key: u64) -> (r: Option<&ModelData>)
        ensures
            r is Some <==> self@.model_data.contains_key(key),
            r matches Some(data) ==> data@ == self@.model_data[key],
    {
        self.model_data.get(&key)
    }

    /// The registry entry of the GUI element `id`, if it has one.
    pub fn gui_element_entry(&self, id: u64) -> (r: Option<&GuiElementRef>)
        ensures
            r == (if self@.gui_elements.contains_key(id) {
                Some(&self@.gui_elements[id])
            } else {
                None
            }),
    {
        self.gui_elements.get(&id)
    }

    /// The data record of a GUI element that is kept under `key`, if there is one.
    pub fn gui_element_data(&self, key: u64) -> (r: Option<GuiElementData>)
        ensures
            r == (if self@.gui_data.contains_key(key) {
                Some(self@.gui_data[key])
            } else {
                None
            }),
    {
        match self.gui_data.get(&key) {
            Some(data) => Some(*data),
            None => None,
        }
    }

    /// Applies every message that waits in the queue, oldest first, and
    /// leaves the queue empty. This is done once per frame, before anything
    /// is drawn.
    ///
    /// Afterwards the registries hold exactly the entities whose handle is
    /// alive: none that was dropped, and every one that was built or cloned.
    pub fn apply_updates(&mut self)
        requires
            old(self).wf(),
        ensures
            final(self)@ == old(self)@.drained(),
            final(self).wf(),
            final(self)@.model_handles.dom() == old(self)@.live_models(),
            final(self)@.gui_elements.dom() == old(self)@.live_gui_elements(),
            final(self)@.live_models() == old(self)@.live_models(),
            final(self)@.live_gui_elements() == old(self)@.live_gui_elements(),
    {
        let updates = self.take_updates();
        let ghost start = self@;
        let n: usize = updates.len();
        let mut i: usize = 0;
        proof {
            assert(updates@.skip(0) =~= updates@);
        }
        while i < n
            invariant
                n == updates@.len(),
                i <= n,
                self@.updates == Seq::<UpdateMessage>::empty(),
                self@.consistent_with(updates@.skip(i as int)),
                self@.applied_all(updates@.skip(i as int)) == start.applied_all(updates@),
            decreases n - i,
        {
            let message = updates[i];
            proof {
                lemma_applied(self@, updates@.skip(i as int));
                assert(updates@.skip(i as int).skip(1) =~= updates@.skip(i + 1));
                assert(updates@.skip(i as int)[0] == updates@[i as int]);
            }
            message.apply(self);
            i += 1;
        }
        proof {
            assert(updates@.skip(n as int) =~= Seq::<UpdateMessage>::empty());
            lemma_applied_all_queue(old(self)@, updates@, Seq::empty());
            lemma_drained_state(old(self)@);
        }
    }

    /// Create a new GUI element. The element is placed at `dimensions.0`,
    /// `dimensions.1` and is `dimensions.2` wide and `dimensions.3` high.
    /// The builder that is returned becomes an element with a texture or
    /// with a canvas.
    pub fn new_gui_element(&self, dimensions: (i32, i32, u32, u32)) -> (r: GuiElementBuilder)
        ensures
            r.dimensions == dimensions,
    {
        GuiElementBuilder::new(dimensions)
    }

    /// Create a new triangle at the origin of the world.
    pub fn new_triangle_model(&self) -> (r: ModelBuilder)
        ensures
            r.source_or_shape is Triangle,
            r.position == crate::math::Vector3::spec_zero(),
            r.rotation == crate::math::Euler::spec_zero(),
            r.scale == crate::math::Float::spec_one(),
            r.texture is None,
            r.fallback_color is None,
    {
        ModelBuilder::new(SourceOrShape::Triangle)
    }

    /// Create a new rectangle at the origin of the world. This can be
    /// useful to render simple textures in the world.
    pub fn new_rectangle_model(&self) -> (r: ModelBuilder)
        ensures
            r.source_or_shape is Rectangle,
            r.position == crate::math::Vector3::spec_zero(),
            r.rotation == crate::math::Euler::spec_zero(),
            r.scale == crate::math::Float::spec_one(),
            r.texture is None,
            r.fallback_color is None,
    {
        ModelBuilder::new(SourceOrShape::Rectangle)
    }

    /// Load a model that was parsed elsewhere.
    pub fn new_model(&self, parsed_model: ParsedModel) -> (r: ModelBuilder)
        ensures
            r.source_or_shape == SourceOrShape::Custom(parsed_model),
            r.position == crate::math::Vector3::spec_zero(),
            r.rotation == crate::math::Euler::spec_zero(),
            r.scale == crate::math::Float::spec_one(),
            r.texture is None,
            r.fallback_color is None,
    {
        ModelBuilder::new(SourceOrShape::Custom(parsed_model))
    }

    /// Load a model from the .obj file at the given path and place it at
    /// the origin of the world.
    pub fn new_obj_model(&self, path: String) -> (r: ModelBuilder)
        ensures
            r.source_or_shape == SourceOrShape::Obj(path),
            r.position == crate::math::Vector3::spec_zero(),
            r.rotation == crate::math::Euler::spec_zero(),
            r.scale == crate::math::Float::spec_one(),
            r.texture is None,
            r.fallback_color is None,
    {
        ModelBuilder::new(SourceOrShape::Obj(path))
    }

    /// Load a model from the .fbx file at the given path and place it at
    /// the origin of the world.
    pub fn new_fbx_model(&self, path: String) -> (r: ModelBuilder)
        ensures
            r.source_or_shape == SourceOrShape::Fbx(path),
            r.position == crate::math::Vector3::spec_zero(),
            r.rotation == crate::math::Euler::spec_zero(),
            r.scale == crate::math::Float::spec_one(),
            r.texture is None,
            r.fallback_color is None,
    {
        ModelBuilder::new(SourceOrShape::Fbx(path))
    }

    /// Enters a model into the world: it gets the next identity, a data
    /// record with the position, rotation and scale of `data` and one group
    /// at rest for each group of `model`, and its registry entry at once,
    /// without a message.
    pub fn add_model(&mut self, model: Arc<Model>, data: ModelData) -> (handle: ModelHandle)
        requires
            old(self).wf(),
            old(self)@.next_model_id < u64::MAX,
        ensures
            final(self)@ == old(self)@.with_new_model(model, data@),
            final(self).wf(),
            handle.spec_id() == old(self)@.next_model_id,
            handle.is_live(final(self)),
            final(self)@.live_models() == old(self)@.live_models().insert(handle.spec_id()),
            final(self)@.live_gui_elements() == old(self)@.live_gui_elements(),
            !old(self)@.live_models().contains(handle.spec_id()),
    {
        proof {
            lemma_new_model(self@, model, data@);
        }
        let id = self.take_model_id();
        let (id, model_ref, model_handle, data) = ModelRef::new(model, id, data);
        self.put_model_data(id, data);
        self.put_model_entry(id, model_ref);
        model_handle
    }

    /// Enters a GUI element into the world: it gets the next identity, a
    /// data record with `dimensions` and the next z-index, and its registry
    /// entry at once, without a message.
    pub fn add_gui_element(
        &mut self,
        dimensions: (i32, i32, u32, u32),
        texture: GpuTexture,
        future: GpuFuture,
        canvas_config: Option<CanvasConfig>,
    ) -> (element: GuiElement)
        requires
            old(self).wf(),
            old(self)@.next_gui_id < u64::MAX,
            old(self)@.next_z_index < u32::MAX,
        ensures
            final(self)@ == old(self)@.with_new_gui_element(dimensions, texture, future),
            final(self).wf(),
            element.spec_id() == old(self)@.next_gui_id,
            element.spec_canvas_config() == canvas_config,
            element.is_live(final(self)),
            final(self)@.live_gui_elements() == old(self)@.live_gui_elements().insert(
                element.spec_id(),
            ),
            final(self)@.live_models() == old(self)@.live_models(),
            !old(self)@.live_gui_elements().contains(element.spec_id()),
    {
        proof {
            lemma_new_gui_element(self@, dimensions, texture, future);
        }
        let id = self.take_gui_id();
        let z_index = self.take_z_index();
        let (id, element_ref, element, data) = GuiElement::new(
            id,
            z_index,
            dimensions,
            texture,
            future,
            canvas_config,
        );
        self.put_gui_element_data(id, data);
        self.put_gui_element_entry(id, element_ref);
        element
    }

    /// Whether the handle of the model `id` is alive: the model has a data
    /// record, and no message that its handle was dropped waits in the queue.
    pub fn has_live_model(&self, id: u64) -> (r: bool)
        ensures
            r == self@.live_models().contains(id),
    {
        if self.model_data.get(&id).is_none() {
            return false;
        }
        let n: usize = self.updates.len();
        let mut i: usize = 0;
        let ghost e = effects(self@.updates, Family::Model);
        while i < n
            invariant
                n == self.updates@.len(),
                i <= n,
                e == effects(self.updates@, Family::Model),
                forall|k: int| 0 <= k < i ==> !(#[trigger] e[k]).retires(id),
            decreases n - i,
        {
            match self.updates[i] {
                UpdateMessage::ModelDropped(dropped) => {
                    if dropped == id {
                        assert(e[i as int].retires(id));
                        return false;
                    }
                },
                _ => {},
            }
            i += 1;
        }
        true
    }

    /// Whether the handle of the GUI element `id` is alive: the element has
    /// a data record, and no message that its handle was dropped waits in
    /// the queue.
    pub fn has_live_gui_element(&self, id: u64) -> (r: bool)
        ensures
            r == self@.live_gui_elements().contains(id),
    {
        if self.gui_data.get(&id).is_none() {
            return false;
        }
        let n: usize = self.updates.len();
        let mut i: usize = 0;
        let ghost e = effects(self@.updates, Family::Gui);
        while i < n
            invariant
                n == self.updates@.len(),
                i <= n,
                e == effects(self.updates@, Family::Gui),
                forall|k: int| 0 <= k < i ==> !(#[trigger] e[k]).retires(id),
            decreases n - i,
        {
            match self.updates[i] {
                UpdateMessage::GuiElementDropped(dropped) => {
                    if dropped == id {
                        assert(e[i as int].retires(id));
                        return false;
                    }
                },
                _ => {},
            }
            i += 1;
        }
        true
    }

    /// Whether another model can be numbered.
    pub fn can_number_model(&self) -> (r: bool)
        ensures
            r == (self@.next_model_id < u64::MAX),
    {
        self.next_model_id < u64::MAX
    }

    /// Whether another GUI element can be numbered, with a z-index of its own.
    pub fn can_number_gui_element(&self) -> (r: bool)
        ensures
            r == (self@.next_gui_id < u64::MAX && self@.next_z_index < u32::MAX),
    {
        self.next_gui_id < u64::MAX && self.next_z_index < u32::MAX
    }

    /// The identities of the models of the registry, each once, in no
    /// order that can be relied on: models are drawn in any order.
    pub fn model_ids(&self) -> (ids: Vec<u64>)
        ensures
            ids@.no_duplicates(),
            forall|id: u64| ids@.contains(id) <==> self@.model_handles.contains_key(id),
    {
        let mut ids: Vec<u64> = Vec::new();
        for key in iter: self.model_handles.keys()
            invariant
                ids@.len() == iter.index(),
                forall|k: int| 0 <= k < ids@.len() ==> ids@[k] == *iter.seq()[k],
        {
            ids.push(*key);
        }
        proof {
            let all = vstd::std_specs::hash::spec_keys_iter(&self.model_handles).remaining();
            assert(ids@ =~= all.unref());
            assert(ids@.to_set() == self@.model_handles.dom());
            assert forall|id: u64| ids@.contains(id) <==> self@.model_handles.contains_key(
                id,
            ) by {
                assert(ids@.to_set().contains(id) == ids@.contains(id));
            }
        }
        ids
    }

    /// The GUI elements of the registry in the order in which they are to
    /// be drawn: by rising z-index, so that an element with a higher
    /// z-index lies on top of one with a lower. The registry itself has no
    /// order; the renderer asks for this one right before it draws.
    pub fn gui_draw_order(&self) -> (order: Vec<u64>)
        requires
            self.wf(),
        ensures
            self@.is_draw_order(order@),
    {
        let mut ids: Vec<u64> = Vec::new();
        for key in iter: self.gui_elements.keys()
            invariant
                ids@.len() == iter.index(),
                forall|k: int| 0 <= k < ids@.len() ==> ids@[k] == *iter.seq()[k],
        {
            ids.push(*key);
        }
        proof {
            let all = vstd::std_specs::hash::spec_keys_iter(&self.gui_elements).remaining();
            assert(ids@ =~= all.unref());
            assert(ids@.no_duplicates());
            assert(ids@.to_set() == self@.gui_elements.dom());
            assert forall|k: int| 0 <= k < ids@.len() implies self@.gui_elements.contains_key(
                #[trigger] ids@[k],
            ) by {
                assert(ids@.to_set().contains(ids@[k]));
            }
            assert forall|id: u64| self@.gui_elements.contains_key(id) implies ids@.contains(
                id,
            ) by {
                assert(ids@.to_set().contains(id));
            }
        }
        let n: usize = ids.len();
        let mut order: Vec<u64> = Vec::new();
        let mut k: usize = 0;
        while k < n
            invariant
                n == ids@.len(),
                k <= n,
                self.wf(),
                ids@.no_duplicates(),
                forall|i: int| 0 <= i < n ==> self@.gui_elements.contains_key(#[trigger] ids@[i]),
                forall|id: u64| self@.gui_elements.contains_key(id) ==> ids@.contains(id),
                order@.len() == k,
                forall|id: u64|
                    order@.contains(id) <==> exists|i: int| 0 <= i < k && #[trigger] ids@[i] == id,
                forall|i: int, j: int|
                    0 <= i < j < order@.len() ==> self@.drawn_before(
                        #[trigger] order@[i],
                        #[trigger] order@[j],
                    ),
            decreases n - k,
        {
            let id: u64 = ids[k];
            assert(self@.gui_elements.contains_key(id));
            let z_index: u32 = self.gui_element_data(id).unwrap().z_index;
            let ghost before = order@;
            assert(!before.contains(id)) by {
                if before.contains(id) {
                    let i = choose|i: int| 0 <= i < k && #[trigger] ids@[i] == id;
                    assert(ids@[i] == ids@[k as int]);
                }
            }
            assert forall|i: int| 0 <= i < before.len() implies self@.gui_elements.contains_key(
                #[trigger] before[i],
            ) by {
                assert(before.contains(before[i]));
                let w = choose|w: int| 0 <= w < k && #[trigger] ids@[w] == before[i];
                assert(self@.gui_elements.contains_key(ids@[w]));
            }
            let mut at: usize = 0;
            while at < order.len()
                invariant
                    at <= order@.len(),
                    order@ == before,
                    self.wf(),
                    self@.gui_elements.contains_key(id),
                    z_index == self@.gui_data[id].z_index,
                    !before.contains(id),
                    forall|i: int| 0 <= i < before.len() ==> self@.gui_elements.contains_key(#[trigger] before[i]),
                    forall|i: int| 0 <= i < at ==> self@.drawn_before(#[trigger] before[i], id),
                    forall|i: int, j: int|
                        0 <= i < j < before.len() ==> self@.drawn_before(
                            #[trigger] before[i],
                            #[trigger] before[j],
                        ),
                ensures
                    at <= order@.len(),
                    order@ == before,
                    forall|i: int| 0 <= i < at ==> self@.drawn_before(#[trigger] before[i], id),
                    forall|i: int| at <= i < before.len() ==> self@.drawn_before(id, #[trigger] before[i]),
                decreases order@.len() - at,
            {
                let other: u64 = order[at];
                assert(before.contains(other));
                assert(self@.gui_elements.contains_key(other));
                let other_z: u32 = self.gui_element_data(other).unwrap().z_index;
                if other_z > z_index || (other_z == z_index && other > id) {
                    assert forall|i: int| at <= i < before.len() implies self@.drawn_before(
                        id,
                        #[trigger] before[i],
                    ) by {
                        if i > at {
                            assert(self@.drawn_before(before[at as int], before[i]));
                        }
                    }
                    break ;
                }
                assert(other != id);
                at += 1;
            }
            order.insert(at, id);
            k += 1;
            proof {
                assert forall|x: u64| order@.contains(x) <==> exists|i: int|
                    0 <= i < k && #[trigger] ids@[i] == x by {
                    if order@.contains(x) {
                        let p = choose|p: int| 0 <= p < order@.len() && order@[p] == x;
                        if p < at {
                            assert(before[p] == x);
                            assert(before.contains(x));
                        } else if p > at {
                            assert(before[p - 1] == x);
                            assert(before.contains(x));
                        } else {
                            assert(ids@[k - 1] == x);
                        }
                    }
                    if exists|i: int| 0 <= i < k && #[trigger] ids@[i] == x {
                        let i = choose|i: int| 0 <= i < k && #[trigger] ids@[i] == x;
                        if i == k - 1 {
                            assert(order@[at as int] == x);
                        } else {
                            assert(before.contains(x));
                            let p = choose|p: int| 0 <= p < before.len() && before[p] == x;
                            if p < at {
                                assert(order@[p] == x);
                            } else {
                                assert(order@[p + 1] == x);
                            }
                        }
                    }
                }
                assert forall|i: int, j: int| 0 <= i < j < order@.len() implies self@.drawn_before(
                    #[trigger] order@[i],
                    #[trigger] order@[j],
                ) by {
                    let a = if i < at { i } else { i - 1 };
                    let b = if j < at { j } else { j - 1 };
                    if i != at && j != at {
                        assert(order@[i] == before[a]);
                        assert(order@[j] == before[b]);
                    } else if i == at {
                        assert(order@[j] == before[b]);
                    } else {
                        assert(order@[i] == before[a]);
                    }
                }
            }
        }
        proof {
            assert forall|id: u64| order@.contains(id) <==> self@.gui_elements.contains_key(
                id,
            ) by {
                if self@.gui_elements.contains_key(id) {
                    assert(ids@.contains(id));
                    let i = choose|i: int| 0 <= i < ids@.len() && ids@[i] == id;
                    assert(ids@[i] == id);
                }
            }
        }
        order
    }

    /// Takes the upload of the texture of the GUI element `id` out of its
    /// registry entry, for the renderer to wait for it before it draws the
    /// element for the first time. It is handed out once.
    pub fn take_gui_element_future(&mut self, id: u64) -> (r: Option<GpuFuture>)
        requires
            old(self).wf(),
        ensures
            final(self).wf(),
            final(self)@.live_models() == old(self)@.live_models(),
            final(self)@.live_gui_elements() == old(self)@.live_gui_elements(),
            r == (if old(self)@.gui_elements.contains_key(id) {
                old(self)@.gui_elements[id].texture_future
            } else {
                None
            }),
            final(self)@ == (if old(self)@.gui_elements.contains_key(id) {
                GameStateView {
                    gui_elements: old(self)@.gui_elements.insert(
                        id,
                        GuiElementRef { texture_future: None, ..old(self)@.gui_elements[id] },
                    ),
                    ..old(self)@
                }
            } else {
                old(self)@
            }),
    {
        let (data, texture, future) = match self.gui_elements.get(&id) {
            Some(entry) => (entry.data, entry.texture, entry.texture_future),
            None => {
                return None;
            },
        };
        self.gui_elements.insert(id, GuiElementRef { data, texture, texture_future: None });
        proof {
            assert(self@.gui_elements.dom() =~= old(self)@.gui_elements.dom());
        }
        future
    }

    pub(crate) fn put_model_entry(&mut self, id: u64, entry: ModelRef)
        ensures
            final(self)@ == (GameStateView {
                model_handles: old(self)@.model_handles.insert(id, entry),
                ..old(self)@
            }),
    {
        self.model_handles.insert(id, entry);
    }

    pub(crate) fn remove_model_entry(&mut self, id: u64)
        ensures
            final(self)@ == (GameStateView {
                model_handles: old(self)@.model_handles.remove(id),
                ..old(self)@
            }),
    {
        self.model_handles.remove(&id);
    }

    pub(crate) fn put_model_data(&mut self, key: u64, data: ModelData)
        ensures
            final(self)@ == (GameStateView {
                model_data: old(self)@.model_data.insert(key, data@),
                ..old(self)@
            }),
    {
        self.model_data.insert(key, data);
        assert(self@.model_data =~= old(self)@.model_data.insert(key, data@));
    }

    pub(crate) fn take_model_data(&mut self, key: u64) -> (r: Option<ModelData>)
        ensures
            final(self)@ == (GameStateView {
                model_data: old(self)@.model_data.remove(key),
                ..old(self)@
            }),
            r is Some <==> old(self)@.model_data.contains_key(key),
            r matches Some(data) ==> data@ == old(self)@.model_data[key],
    {
        let r = self.model_data.remove(&key);
        assert(self@.model_data =~= old(self)@.model_data.remove(key));
        r
    }

    pub(crate) fn put_gui_element_entry(&mut self, id: u64, entry: GuiElementRef)
        ensures
            final(self)@ == (GameStateView {
                gui_elements: old(self)@.gui_elements.insert(id, entry),
                ..old(self)@
            }),
    {
        self.gui_elements.insert(id, entry);
    }

    pub(crate) fn remove_gui_element_entry(&mut self, id: u64)
        ensures
            final(self)@ == (GameStateView {
                gui_elements: old(self)@.gui_elements.remove(id),
                ..old(self)@
            }),
    {
        self.gui_elements.remove(&id);
    }

    pub(crate) fn put_gui_element_data(&mut self, key: u64, data: GuiElementData)
        ensures
            final(self)@ == (GameStateView {
                gui_data: old(self)@.gui_data.insert(key, data),
                ..old(self)@
            }),
    {
        self.gui_data.insert(key, data);
    }

    pub(crate) fn remove_gui_element_data(&mut self, key: u64)
        ensures
            final(self)@ == (GameStateView {
                gui_data: old(self)@.gui_data.remove(key),
                ..old(self)@
            }),
    {
        self.gui_data.remove(&key);
    }

    pub(crate) fn send(&mut self, message: UpdateMessage)
        ensures
            final(self)@ == (GameStateView {
                updates: old(self)@.updates.push(message),
                ..old(self)@
            }),
    {
        self.updates.push(message);
    }

    pub(crate) fn take_updates(&mut self) -> (r: Vec<UpdateMessage>)
        ensures
            r@ == old(self)@.updates,
            final(self)@ == (GameStateView { updates: Seq::empty(), ..old(self)@ }),
    {
        let mut taken: Vec<UpdateMessage> = Vec::new();
        core::mem::swap(&mut self.updates, &mut taken);
        taken
    }

    pub(crate) fn take_model_id(&mut self) -> (r: u64)
        requires
            old(self)@.next_model_id < u64::MAX,
        ensures
            r == old(self)@.next_model_id,
            final(self)@ == (GameStateView { next_model_id: (r + 1) as u64, ..old(self)@ }),
    {
        let id: u64 = self.next_model_id;
        self.next_model_id = id + 1;
        id
    }

    pub(crate) fn take_gui_id(&mut self) -> (r: u64)
        requires
            old(self)@.next_gui_id < u64::MAX,
        ensures
            r == old(self)@.next_gui_id,
            final(self)@ == (GameStateView { next_gui_id: (r + 1) as u64, ..old(self)@ }),
    {
        let id: u64 = self.next_gui_id;
        self.next_gui_id = id + 1;
        id
    }

    pub(crate) fn take_z_index(&mut self) -> (r: u32)
        requires
            old(self)@.next_z_index < u32::MAX,
        ensures
            r == old(self)@.next_z_index,
            final(self)@ == (GameStateView { next_z_index: (r + 1) as u32, ..old(self)@ }),
    {
        let z: u32 = self.next_z_index;
        self.next_z_index = z + 1;
        z
    }
}

} // verus!
