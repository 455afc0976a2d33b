use super::{Model, ModelData, ModelDataView};
use crate::game_state::{
    lemma_cloned_model, lemma_dropped_model, lemma_modified_model, GameState, GameStateView,
};
use crate::internal::UpdateMessage;
use crate::math::{Euler, Float, Vector3};
use std::sync::Arc;
use vstd::prelude::*;

verus! {

/// A reference to a data record: the key under which the game state keeps it.
///
/// A handle and the registry entry of its entity hold the same reference, so
/// that what is written through the handle is what the renderer reads.
#[derive(Clone, Copy, Debug, PartialEq, Eq, Structural)]
pub struct DataRef {
    pub key: u64,
}

/// A handle to a model in the world. With it the model can be moved around.
///
/// Dropping the handle makes the model disappear from the world when the
/// next frame begins. Cloning it makes a second model appear, and both can
/// be controlled independently.
#[derive(Debug)]
pub struct ModelHandle {
    pub(crate) id: u64,
}

impl ModelHandle {
    /// The identity of the model that this handle stands for.
    pub closed spec fn spec_id(&self) -> u64 {
        self.id
    }

    /// The identity of the model that this handle stands for.
    #[verifier::when_used_as_spec(spec_id)]
    pub fn id(&self) -> (r: u64)
        ensures
            r == self.spec_id(),
    {
        self.id
    }

    /// Whether this handle is alive in `state`: it was handed out by
    /// `state` and has not been dropped.
    pub open spec fn is_live(&self, state: &GameState) -> bool {
        state@.live_models().contains(self.spec_id())
    }

    /// What the data record of this handle holds.
    pub open spec fn data(&self, state: &GameState) -> ModelDataView {
        state@.model_data[self.spec_id()]
    }

    /// Get the current position of the handle. This is short for `self.read(state, |d| d.position)`
    pub fn position(&self, state: &GameState) -> (r: Vector3)
        requires
            self.is_live(state),
        ensures
            r == self.data(state).position,
    {
        state.model_data(self.id).unwrap().position
    }

    /// Get the current rotation of the handle. This is short for `self.read(state, |d| d.rotation)`
    pub fn rotation(&self, state: &GameState) -> (r: Euler)
        requires
            self.is_live(state),
        ensures
            r == self.data(state).rotation,
    {
        state.model_data(self.id).unwrap().rotation
    }

    /// Get the current scale of the handle. This is short for `self.read(state, |d| d.scale)`
    pub fn scale(&self, state: &GameState) -> (r: Float)
        requires
            self.is_live(state),
        ensures
            r == self.data(state).scale,
    {
        state.model_data(self.id).unwrap().scale
    }

    /// Read the data of the model, and return what `cb` makes of it.
    pub fn read<T, F: FnOnce(&ModelData) -> T>(&self, state: &GameState, cb: F) -> (r: T)
        requires
            self.is_live(state),
            forall|d: &ModelData| d@ == self.data(state) ==> #[trigger] cb.requires((d,)),
        ensures
            exists|d: &ModelData| #[trigger] cb.ensures((d,), r) && d@ == self.data(state),
    {
        let data = state.model_data(self.id).unwrap();
        cb(data)
    }

    /// Update the data of the model, and return what `cb` returns. What is
    /// written is what the renderer reads from then on; no message is
    /// needed for it.
    ///
    /// The callback may write any value, but it leaves the number of groups
    /// as it is: a record has one group for each group of its model.
    pub fn modify<T, F: FnOnce(&mut ModelData) -> T>(&self, state: &mut GameState, cb: F) -> (r: T)
        requires
            old(state).wf(),
            self.is_live(old(state)),
            forall|a: (&mut ModelData,)| (*a.0)@ == self.data(old(state)) ==> #[trigger] cb.requires(a),
            forall|a: (&mut ModelData,), out: T|
                (*a.0)@ == self.data(old(state)) && #[trigger] cb.ensures(a, out) ==> (*final(a.0)).groups@.len()
                    == (*a.0).groups@.len(),
        ensures
            exists|a: (&mut ModelData,)|
                {
                    &&& #[trigger] cb.ensures(a, r)
                    &&& (*a.0)@ == self.data(old(state))
                    &&& final(state)@ == (GameStateView {
                        model_data: old(state)@.model_data.insert(self.spec_id(), (*final(a.0))@),
                        ..old(state)@
                    })
                },
            final(state).wf(),
            final(state)@.live_models() == old(state)@.live_models(),
            final(state)@.live_gui_elements() == old(state)@.live_gui_elements(),
            self.data(final(state)).groups.len() == self.data(old(state)).groups.len(),
    {
        let mut data = state.take_model_data(self.id).unwrap();
        let ghost before = data@;
        let r = cb(&mut data);
        proof {
            lemma_modified_model(old(state)@, self.id, data@);
            assert(old(state)@.model_data.remove(self.id).insert(self.id, data@)
                =~= old(state)@.model_data.insert(self.id, data@));
        }
        state.put_model_data(self.id, data);
        r
    }

    /// Makes a second model appear in the world, with the values that this
    /// one has now. Both can be controlled independently from then on.
    ///
    /// The clone has a data record of its own from the start. It shares the
    /// model of this handle, and is entered in the registry when the
    /// messages are applied next.
    pub fn clone(&self, state: &mut GameState) -> (r: ModelHandle)
        requires
            old(state).wf(),
            self.is_live(old(state)),
            old(state)@.next_model_id < u64::MAX,
        ensures
            final(state)@ == old(state)@.with_cloned_model(self.spec_id()),
            final(state).wf(),
            r.spec_id() == old(state)@.next_model_id,
            r.spec_id() != self.spec_id(),
            r.is_live(final(state)),
            self.is_live(final(state)),
            r.data(final(state)) == self.data(old(state)),
            self.data(final(state)) == self.data(old(state)),
            final(state)@.live_models() == old(state)@.live_models().insert(r.spec_id()),
            final(state)@.live_gui_elements() == old(state)@.live_gui_elements(),
    {
        proof {
            lemma_cloned_model(state@, self.id);
        }
        let new_id = state.take_model_id();
        let data = state.model_data(self.id).unwrap().snapshot();
        state.put_model_data(new_id, data);
        // Nothing can go wrong with the message: it waits in the state
        // itself until the registry applies it.
        state.send(UpdateMessage::NewModel { old_id: self.id, new_id, data: DataRef { key: new_id } });
        ModelHandle { id: new_id }
    }

    /// Gives the handle up. The model disappears from the world when the
    /// messages are applied next.
    pub fn drop(self, state: &mut GameState)
        requires
            old(state).wf(),
            self.is_live(old(state)),
        ensures
            final(state)@ == old(state)@.with_dropped_model(self.spec_id()),
            final(state).wf(),
            final(state)@.live_models() == old(state)@.live_models().remove(self.spec_id()),
            final(state)@.live_gui_elements() == old(state)@.live_gui_elements(),
    {
        proof {
            lemma_dropped_model(state@, self.id);
        }
        state.send(UpdateMessage::ModelDropped(self.id));
    }
}

/// An entry of the registry of models: the shared model together with the
/// data record of one handle.
#[derive(Debug)]
pub struct ModelRef {
    pub model: Arc<Model>,
    pub data: DataRef,
}

impl ModelRef {
    /// The data record that a new handle of `model` starts with: `data`,
    /// with one group at rest for each group of the model.
    pub open spec fn initial_data(model: Model, data: ModelDataView) -> ModelDataView {
        ModelDataView {
            groups: ModelData::spec_rest_groups(model.groups@.len()),
            ..data
        }
    }

    /// Makes what a new model is known by under the identity `id`: its
    /// registry entry, its handle and its data record, which gets one group
    /// for each group of `model`.
    pub fn new(model: Arc<Model>, id: u64, data: ModelData) -> (r: (
        u64,
        ModelRef,
        ModelHandle,
        ModelData,
    ))
        ensures
            r.0 == id,
            r.1.model == model,
            r.1.data == (DataRef { key: id }),
            r.2.spec_id() == id,
            r.3@ == ModelRef::initial_data(*model, data@),
    {
        let mut data = data;
        data.groups = ModelData::rest_groups(model.groups.len());
        (id, ModelRef { model, data: DataRef { key: id } }, ModelHandle { id }, data)
    }

    /// An entry for the same model with another data record.
    pub fn with_new_data(&self, data: DataRef) -> (r: ModelRef)
        ensures
            r.model == self.model,
            r.data == data,
    {
        ModelRef { model: self.model.clone(), data }
    }
}

} // verus!
