use crate::game_state::{
    lemma_applied_all, lemma_applied_all_keeps, lemma_applied_all_push, lemma_applied_all_queue,
    lemma_cloned_gui_element, lemma_cloned_model, lemma_drained_state, lemma_dropped_gui_element,
    lemma_dropped_model, lemma_modified_gui_element, lemma_modified_model, lemma_new_gui_element,
    lemma_new_model, GameStateView,
};
use crate::gpu::{GpuFuture, GpuTexture};
use crate::gui::GuiElementData;
use crate::internal::UpdateMessage;
use crate::model::{DataRef, Model, ModelDataView};
use std::sync::Arc;
use vstd::prelude::*;

verus! {

/// One thing that user code or the frame loop does to a game state.
pub enum Operation {
    /// [`crate::game_state::GameState::add_model`]
    BuildModel { model: Arc<Model>, data: ModelDataView },
    /// [`crate::model::ModelHandle::clone`]
    CloneModel { id: u64 },
    /// [`crate::model::ModelHandle::drop`]
    DropModel { id: u64 },
    /// [`crate::game_state::GameState::add_gui_element`]
    BuildGuiElement { dimensions: (i32, i32, u32, u32), texture: GpuTexture, future: GpuFuture },
    /// [`crate::gui::GuiElement::clone`]
    CloneGuiElement { id: u64 },
    /// [`crate::gui::GuiElement::drop`]
    DropGuiElement { id: u64 },
    /// [`crate::model::ModelHandle::modify`]
    WriteModel { id: u64, written: ModelDataView },
    /// [`crate::gui::GuiElement::modify`]
    WriteGuiElement { id: u64, written: GuiElementData },
    /// [`crate::game_state::GameState::apply_updates`]
    ApplyUpdates,
}

/// The handles that user code holds, by the identity of each. User code
/// gets a handle when it builds or clones an entity, and gives one up when
/// it drops it.
pub struct Held {
    pub models: Set<u64>,
    pub gui_elements: Set<u64>,
}

impl Operation {
    /// Whether user code that holds `held` can do this to the state `s`:
    /// it clones and drops only handles that it holds, and an entity can
    /// still be numbered.
    pub open spec fn allowed(self, s: GameStateView, held: Held) -> bool {
        match self {
            Operation::BuildModel { .. } => s.next_model_id < u64::MAX,
            Operation::CloneModel { id } => held.models.contains(id) && s.next_model_id < u64::MAX,
            Operation::DropModel { id } => held.models.contains(id),
            Operation::BuildGuiElement { .. } => s.next_gui_id < u64::MAX && s.next_z_index
                < u32::MAX,
            Operation::CloneGuiElement { id } => held.gui_elements.contains(id) && s.next_gui_id
                < u64::MAX,
            Operation::DropGuiElement { id } => held.gui_elements.contains(id),
            Operation::WriteModel { id, written } => held.models.contains(id)
                && written.groups.len() == s.model_data[id].groups.len(),
            Operation::WriteGuiElement { id, .. } => held.gui_elements.contains(id),
            Operation::ApplyUpdates => true,
        }
    }

    /// The state after this was done to `s`.
    pub open spec fn state_after(self, s: GameStateView) -> GameStateView {
        match self {
            Operation::BuildModel { model, data } => s.with_new_model(model, data),
            Operation::CloneModel { id } => s.with_cloned_model(id),
            Operation::DropModel { id } => s.with_dropped_model(id),
            Operation::BuildGuiElement { dimensions, texture, future } => s.with_new_gui_element(
                dimensions,
                texture,
                future,
            ),
            Operation::CloneGuiElement { id } => s.with_cloned_gui_element(id),
            Operation::DropGuiElement { id } => s.with_dropped_gui_element(id),
            Operation::WriteModel { id, written } => GameStateView {
                model_data: s.model_data.insert(id, written),
                ..s
            },
            Operation::WriteGuiElement { id, written } => GameStateView {
                gui_data: s.gui_data.insert(id, written),
                ..s
            },
            Operation::ApplyUpdates => s.drained(),
        }
    }

    /// The handles that user code holds after it did this to `s`.
    pub open spec fn held_after(self, s: GameStateView, held: Held) -> Held {
        match self {
            Operation::BuildModel { .. } | Operation::CloneModel { .. } => Held {
                models: held.models.insert(s.next_model_id),
                ..held
            },
            Operation::DropModel { id } => Held { models: held.models.remove(id), ..held },
            Operation::BuildGuiElement { .. } | Operation::CloneGuiElement { .. } => Held {
                gui_elements: held.gui_elements.insert(s.next_gui_id),
                ..held
            },
            Operation::DropGuiElement { id } => Held {
                gui_elements: held.gui_elements.remove(id),
                ..held
            },
            Operation::WriteModel { .. } | Operation::WriteGuiElement { .. }
            | Operation::ApplyUpdates => held,
        }
    }
}

/// Whether user code that holds `held` can do `operations` to `s`, one after another.
pub open spec fn allowed_all(operations: Seq<Operation>, s: GameStateView, held: Held) -> bool
    decreases operations.len(),
{
    operations.len() > 0 ==> operations[0].allowed(s, held) && allowed_all(
        operations.skip(1),
        operations[0].state_after(s),
        operations[0].held_after(s, held),
    )
}

/// The state after `operations` were done to `s`, one after another.
pub open spec fn state_after_all(operations: Seq<Operation>, s: GameStateView) -> GameStateView
    decreases operations.len(),
{
    if operations.len() == 0 {
        s
    } else {
        state_after_all(operations.skip(1), operations[0].state_after(s))
    }
}

/// The handles that user code holds after it did `operations` to `s`, one
/// after another.
pub open spec fn held_after_all(operations: Seq<Operation>, s: GameStateView, held: Held) -> Held
    decreases operations.len(),
{
    if operations.len() == 0 {
        held
    } else {
        held_after_all(
            operations.skip(1),
            operations[0].state_after(s),
            operations[0].held_after(s, held),
        )
    }
}

/// Whatever is allowed keeps a state in order, and keeps the handles that
/// user code holds the handles that the state takes to be alive.
pub proof fn lemma_operation(operation: Operation, s: GameStateView, held: Held)
    requires
        s.wf(),
        held.models == s.live_models(),
        held.gui_elements == s.live_gui_elements(),
        operation.allowed(s, held),
    ensures
        operation.state_after(s).wf(),
        operation.held_after(s, held).models == operation.state_after(s).live_models(),
        operation.held_after(s, held).gui_elements == operation.state_after(
            s,
        ).live_gui_elements(),
{
    match operation {
        Operation::BuildModel { model, data } => {
            lemma_new_model(s, model, data);
        },
        Operation::CloneModel { id } => {
            lemma_cloned_model(s, id);
        },
        Operation::DropModel { id } => {
            lemma_dropped_model(s, id);
        },
        Operation::BuildGuiElement { dimensions, texture, future } => {
            lemma_new_gui_element(s, dimensions, texture, future);
        },
        Operation::CloneGuiElement { id } => {
            lemma_cloned_gui_element(s, id);
        },
        Operation::DropGuiElement { id } => {
            lemma_dropped_gui_element(s, id);
        },
        Operation::WriteModel { id, written } => {
            lemma_modified_model(s, id, written);
        },
        Operation::WriteGuiElement { id, written } => {
            lemma_modified_gui_element(s, id, written);
        },
        Operation::ApplyUpdates => {
            lemma_drained_state(s);
        },
    }
}

/// The registry is complete: after any sequence of building, cloning,
/// writing and dropping, with the messages applied at any points in
/// between, applying the messages leaves in each registry exactly the
/// identities of the handles that user code still holds, no more and no
/// fewer.
///
/// The state that [`crate::game_state::GameState::new`] returns is in
/// order and nothing is alive in it, so the law holds of every sequence
/// that starts there with no handle held.
pub proof fn law_registry_complete(operations: Seq<Operation>, s: GameStateView, held: Held)
    requires
        s.wf(),
        held.models == s.live_models(),
        held.gui_elements == s.live_gui_elements(),
        allowed_all(operations, s, held),
    ensures
        state_after_all(operations, s).wf(),
        state_after_all(operations, s).drained().model_handles.dom() == held_after_all(
            operations,
            s,
            held,
        ).models,
        state_after_all(operations, s).drained().gui_elements.dom() == held_after_all(
            operations,
            s,
            held,
        ).gui_elements,
    decreases operations.len(),
{
    if operations.len() == 0 {
        lemma_drained_state(s);
    } else {
        lemma_operation(operations[0], s, held);
        law_registry_complete(
            operations.skip(1),
            operations[0].state_after(s),
            operations[0].held_after(s, held),
        );
    }
}

/// The group count is kept: the data record of a live handle, built or
/// cloned, has as many groups as the model that the registry pairs it with
/// once the messages are applied, and applying them leaves the record as
/// the handle wrote it.
pub proof fn law_group_count(s: GameStateView, id: u64)
    requires
        s.wf(),
        s.live_models().contains(id),
    ensures
        s.drained().model_handles.contains_key(id),
        s.drained().model_handles[id].data == (DataRef { key: id }),
        s.drained().model_data.contains_key(id),
        s.drained().model_data[id] == s.model_data[id],
        s.model_data[id].groups.len() == s.drained().model_handles[id].model.groups@.len(),
        s.model_handles.contains_key(id) ==> s.model_data[id].groups.len()
            == s.model_handles[id].model.groups@.len(),
{
    lemma_drained_state(s);
    lemma_applied_all_keeps(s, s.updates);
    assert(s.drained().model_handles.dom().contains(id));
    assert(s.drained().model_data.dom().contains(id));
    assert(s.applied_all(s.updates).model_data.dom().contains(id));
}

/// The state after the handle of the model `id` was cloned and then
/// `written` was written through one of the two handles: through the clone
/// if `to_clone`, else through `id`.
pub open spec fn cloned_and_written(
    s: GameStateView,
    id: u64,
    written: ModelDataView,
    to_clone: bool,
) -> GameStateView {
    let c = s.with_cloned_model(id);
    let target = if to_clone {
        s.next_model_id
    } else {
        id
    };
    GameStateView { model_data: c.model_data.insert(target, written), ..c }
}

/// Clones are independent: after a handle is cloned, what is written
/// through one of the two handles does not change what the other reads,
/// and once the messages are applied the registry pairs both with the same
/// model and with the values that each handle has.
pub proof fn law_independent_clones(s: GameStateView, id: u64, written: ModelDataView, to_clone: bool)
    requires
        s.wf(),
        s.live_models().contains(id),
        s.next_model_id < u64::MAX,
        written.groups.len() == s.model_data[id].groups.len(),
    ensures
        s.next_model_id != id,
        s.with_cloned_model(id).model_data[s.next_model_id] == s.model_data[id],
        s.with_cloned_model(id).model_data[id] == s.model_data[id],
        cloned_and_written(s, id, written, to_clone).wf(),
        cloned_and_written(s, id, written, to_clone).model_data[if to_clone {
            s.next_model_id
        } else {
            id
        }] == written,
        cloned_and_written(s, id, written, to_clone).model_data[if to_clone {
            id
        } else {
            s.next_model_id
        }] == s.model_data[id],
        cloned_and_written(s, id, written, to_clone).drained().model_handles.contains_key(id),
        cloned_and_written(s, id, written, to_clone).drained().model_handles.contains_key(
            s.next_model_id,
        ),
        cloned_and_written(s, id, written, to_clone).drained().model_handles[s.next_model_id].model
            == cloned_and_written(s, id, written, to_clone).drained().model_handles[id].model,
        cloned_and_written(s, id, written, to_clone).drained().model_data[id] == cloned_and_written(
            s,
            id,
            written,
            to_clone,
        ).model_data[id],
        cloned_and_written(s, id, written, to_clone).drained().model_data[s.next_model_id]
            == cloned_and_written(s, id, written, to_clone).model_data[s.next_model_id],
{
    let new_id = s.next_model_id;
    let c = s.with_cloned_model(id);
    let w = cloned_and_written(s, id, written, to_clone);
    let target = if to_clone {
        new_id
    } else {
        id
    };
    lemma_cloned_model(s, id);
    assert(c.model_data.dom().contains(target));
    lemma_modified_model(c, target, written);
    assert(w.live_models().contains(id));
    assert(w.live_models().contains(new_id));
    lemma_drained_state(w);
    lemma_applied_all_keeps(w, w.updates);
    assert(w.drained().model_handles.dom().contains(id));
    assert(w.drained().model_handles.dom().contains(new_id));
    assert(w.drained().model_data.dom().contains(id));
    assert(w.drained().model_data.dom().contains(new_id));
    assert(w.applied_all(w.updates).model_data.dom().contains(id));
    assert(w.applied_all(w.updates).model_data.dom().contains(new_id));
    lemma_clone_shares_model(s, id, w);
}

/// After the handle of `id` was cloned, applying the messages registers
/// the clone with the model of `id`, whatever the data records hold.
proof fn lemma_clone_shares_model(s: GameStateView, id: u64, w: GameStateView)
    requires
        s.wf(),
        s.live_models().contains(id),
        s.next_model_id < u64::MAX,
        w.model_handles == s.model_handles,
        w.updates == s.with_cloned_model(id).updates,
    ensures
        w.applied_all(w.updates).model_handles.contains_key(id),
        w.applied_all(w.updates).model_handles.contains_key(s.next_model_id),
        w.applied_all(w.updates).model_handles[s.next_model_id].model == w.applied_all(
            w.updates,
        ).model_handles[id].model,
{
    let new_id = s.next_model_id;
    let message = UpdateMessage::NewModel { old_id: id, new_id, data: DataRef { key: new_id } };
    let queue = s.updates;
    lemma_cloned_model(s, id);
    lemma_applied_all_push(w, queue, message);
    lemma_registry_only(w, s, queue);
    lemma_applied_all(s, queue);
    assert(s.applied_all(queue).model_handles.dom().contains(id));
}

/// What messages do to the registry of models depends on that registry alone.
proof fn lemma_registry_only(a: GameStateView, b: GameStateView, queue: Seq<UpdateMessage>)
    requires
        a.model_handles == b.model_handles,
    ensures
        a.applied_all(queue).model_handles == b.applied_all(queue).model_handles,
    decreases queue.len(),
{
    if queue.len() > 0 {
        lemma_registry_only(a.applied(queue[0]), b.applied(queue[0]), queue.skip(1));
    }
}

/// Dropping touches nothing else: when the handle of `dropped` is dropped
/// while another handle `other` is alive, applying the messages removes
/// the entry of `dropped` from the registry and no other, and leaves the
/// entry and the data record of `other` as they would have been.
pub proof fn law_drop_keeps_others(s: GameStateView, dropped: u64, other: u64)
    requires
        s.wf(),
        s.live_models().contains(dropped),
        s.live_models().contains(other),
        dropped != other,
    ensures
        s.with_dropped_model(dropped).wf(),
        s.with_dropped_model(dropped).drained().model_handles.dom() == s.drained().model_handles.dom().remove(
            dropped,
        ),
        !s.with_dropped_model(dropped).drained().model_handles.contains_key(dropped),
        s.with_dropped_model(dropped).drained().model_handles.contains_key(other),
        s.with_dropped_model(dropped).drained().model_handles[other] == s.drained().model_handles[other],
        s.with_dropped_model(dropped).drained().model_data[other] == s.model_data[other],
{
    let t = s.with_dropped_model(dropped);
    let message = UpdateMessage::ModelDropped(dropped);
    lemma_dropped_model(s, dropped);
    lemma_drained_state(s);
    lemma_drained_state(t);
    lemma_applied_all_push(t, s.updates, message);
    lemma_applied_all_queue(s, s.updates, t.updates);
    assert(t == (GameStateView { updates: t.updates, ..s }));
    lemma_applied_all_keeps(t, t.updates);
    assert(t.drained().model_data.dom().contains(other));
    assert(t.applied_all(t.updates).model_data.dom().contains(other));
}

/// Messages are applied in the order in which they were sent: when a
/// handle is cloned and the clone is dropped before the messages are
/// applied, applying them leaves the clone out of the registry and the
/// handle that was cloned in it, and the registry holds the identities
/// that it would have held without the two.
pub proof fn law_clone_then_drop(s: GameStateView, id: u64)
    requires
        s.wf(),
        s.live_models().contains(id),
        s.next_model_id < u64::MAX,
    ensures
        s.with_cloned_model(id).with_dropped_model(s.next_model_id).wf(),
        !s.with_cloned_model(id).with_dropped_model(
            s.next_model_id,
        ).drained().model_handles.contains_key(s.next_model_id),
        s.with_cloned_model(id).with_dropped_model(
            s.next_model_id,
        ).drained().model_handles.contains_key(id),
        s.with_cloned_model(id).with_dropped_model(s.next_model_id).drained().model_handles.dom()
            == s.drained().model_handles.dom(),
{
    let c = s.with_cloned_model(id);
    let t = c.with_dropped_model(s.next_model_id);
    lemma_cloned_model(s, id);
    assert(c.live_models().contains(s.next_model_id));
    lemma_dropped_model(c, s.next_model_id);
    lemma_drained_state(s);
    lemma_drained_state(t);
    assert(t.live_models() =~= s.live_models());
}

/// The same of GUI elements: when the handle of `dropped` is dropped while
/// another handle `other` is alive, applying the messages removes the
/// entry of `dropped` from the registry and no other, and leaves the entry
/// and the data record of `other` as they would have been.
pub proof fn law_drop_keeps_other_gui_elements(s: GameStateView, dropped: u64, other: u64)
    requires
        s.wf(),
        s.live_gui_elements().contains(dropped),
        s.live_gui_elements().contains(other),
        dropped != other,
    ensures
        s.with_dropped_gui_element(dropped).wf(),
        s.with_dropped_gui_element(dropped).drained().gui_elements.dom()
            == s.drained().gui_elements.dom().remove(dropped),
        s.with_dropped_gui_element(dropped).drained().gui_elements.contains_key(other),
        s.with_dropped_gui_element(dropped).drained().gui_elements[other]
            == s.drained().gui_elements[other],
        s.with_dropped_gui_element(dropped).drained().gui_data[other] == s.gui_data[other],
{
    let t = s.with_dropped_gui_element(dropped);
    let message = UpdateMessage::GuiElementDropped(dropped);
    lemma_dropped_gui_element(s, dropped);
    lemma_drained_state(s);
    lemma_drained_state(t);
    lemma_applied_all_push(t, s.updates, message);
    lemma_applied_all_queue(s, s.updates, t.updates);
    assert(t == (GameStateView { updates: t.updates, ..s }));
    lemma_applied_all_keeps(t, t.updates);
    assert(t.drained().gui_data.dom().contains(other));
    assert(t.applied_all(t.updates).gui_data.dom().contains(other));
}

/// The same of GUI elements: when a handle is cloned and the clone is
/// dropped before the messages are applied, applying them leaves the clone
/// out of the registry and the handle that was cloned in it.
pub proof fn law_clone_then_drop_gui_element(s: GameStateView, id: u64)
    requires
        s.wf(),
        s.live_gui_elements().contains(id),
        s.next_gui_id < u64::MAX,
    ensures
        s.with_cloned_gui_element(id).with_dropped_gui_element(s.next_gui_id).wf(),
        !s.with_cloned_gui_element(id).with_dropped_gui_element(
            s.next_gui_id,
        ).drained().gui_elements.contains_key(s.next_gui_id),
        s.with_cloned_gui_element(id).with_dropped_gui_element(
            s.next_gui_id,
        ).drained().gui_elements.contains_key(id),
        s.with_cloned_gui_element(id).with_dropped_gui_element(
            s.next_gui_id,
        ).drained().gui_elements.dom() == s.drained().gui_elements.dom(),
{
    let c = s.with_cloned_gui_element(id);
    let t = c.with_dropped_gui_element(s.next_gui_id);
    lemma_cloned_gui_element(s, id);
    assert(c.live_gui_elements().contains(s.next_gui_id));
    lemma_dropped_gui_element(c, s.next_gui_id);
    lemma_drained_state(s);
    lemma_drained_state(t);
    assert(t.live_gui_elements() =~= s.live_gui_elements());
}

/// A built model is in the registry at once: building enters exactly the
/// new identity, with the model that was handed in and a data record of as
/// many groups as the model has, which the entry refers to by the key of
/// the handle. No message is sent for it.
pub proof fn law_model_enters_at_once(s: GameStateView, model: Arc<Model>, data: ModelDataView)
    requires
        s.wf(),
        s.next_model_id < u64::MAX,
    ensures
        s.with_new_model(model, data).wf(),
        !s.model_handles.contains_key(s.next_model_id),
        s.with_new_model(model, data).model_handles.dom() == s.model_handles.dom().insert(
            s.next_model_id,
        ),
        s.with_new_model(model, data).model_handles[s.next_model_id].model == model,
        s.with_new_model(model, data).model_handles[s.next_model_id].data == (DataRef {
            key: s.next_model_id,
        }),
        s.with_new_model(model, data).model_data[s.next_model_id].groups.len()
            == model.groups@.len(),
        s.with_new_model(model, data).model_data[s.next_model_id].position == data.position,
        s.with_new_model(model, data).model_data[s.next_model_id].rotation == data.rotation,
        s.with_new_model(model, data).model_data[s.next_model_id].scale == data.scale,
        s.with_new_model(model, data).updates == s.updates,
        s.with_new_model(model, data).live_models() == s.live_models().insert(s.next_model_id),
{
    lemma_new_model(s, model, data);
    assert(s.with_new_model(model, data).model_handles.dom() =~= s.model_handles.dom().insert(
        s.next_model_id,
    ));
}

/// A built GUI element is in the registry at once: building enters exactly
/// the new identity, with a data record of the dimensions that were asked
/// for, which the entry refers to by the key of the handle. No message is
/// sent for it.
pub proof fn law_gui_element_enters_at_once(
    s: GameStateView,
    dimensions: (i32, i32, u32, u32),
    texture: GpuTexture,
    future: GpuFuture,
)
    requires
        s.wf(),
        s.next_gui_id < u64::MAX,
    ensures
        s.with_new_gui_element(dimensions, texture, future).wf(),
        !s.gui_elements.contains_key(s.next_gui_id),
        s.with_new_gui_element(dimensions, texture, future).gui_elements.dom()
            == s.gui_elements.dom().insert(s.next_gui_id),
        s.with_new_gui_element(dimensions, texture, future).gui_elements[s.next_gui_id].data == (
        DataRef { key: s.next_gui_id }),
        s.with_new_gui_element(dimensions, texture, future).gui_elements[s.next_gui_id].texture
            == texture,
        s.with_new_gui_element(dimensions, texture, future).gui_data[s.next_gui_id].dimensions
            == dimensions,
        s.with_new_gui_element(dimensions, texture, future).gui_data[s.next_gui_id].z_index
            == s.next_z_index,
        s.with_new_gui_element(dimensions, texture, future).updates == s.updates,
        s.with_new_gui_element(dimensions, texture, future).live_gui_elements()
            == s.live_gui_elements().insert(s.next_gui_id),
{
    lemma_new_gui_element(s, dimensions, texture, future);
    assert(s.with_new_gui_element(dimensions, texture, future).gui_elements.dom()
        =~= s.gui_elements.dom().insert(s.next_gui_id));
}

/// A clone has a record of its own with the groups of its source: cloning
/// makes a data record under a key that held none, with the group matrices
/// that the source has at that time, and sends the message that carries
/// the key. Once the messages are applied, the clone and its source are
/// registered with different records, and the record of the clone has as
/// many groups as its model.
pub proof fn law_clone_has_own_record(s: GameStateView, id: u64)
    requires
        s.wf(),
        s.live_models().contains(id),
        s.next_model_id < u64::MAX,
    ensures
        s.with_cloned_model(id).wf(),
        !s.model_data.contains_key(s.next_model_id),
        s.with_cloned_model(id).model_data.contains_key(s.next_model_id),
        s.with_cloned_model(id).model_data[s.next_model_id].groups == s.model_data[id].groups,
        s.with_cloned_model(id).updates == s.updates.push(
            UpdateMessage::NewModel {
                old_id: id,
                new_id: s.next_model_id,
                data: DataRef { key: s.next_model_id },
            },
        ),
        s.with_cloned_model(id).drained().model_handles.contains_key(id),
        s.with_cloned_model(id).drained().model_handles.contains_key(s.next_model_id),
        s.with_cloned_model(id).drained().model_handles[id].data == (DataRef { key: id }),
        s.with_cloned_model(id).drained().model_handles[s.next_model_id].data == (DataRef {
            key: s.next_model_id,
        }),
        s.with_cloned_model(id).drained().model_handles[id].data != s.with_cloned_model(
            id,
        ).drained().model_handles[s.next_model_id].data,
        s.with_cloned_model(id).drained().model_data[s.next_model_id].groups
            == s.model_data[id].groups,
        s.model_data[id].groups.len() == s.with_cloned_model(
            id,
        ).drained().model_handles[s.next_model_id].model.groups@.len(),
{
    let c = s.with_cloned_model(id);
    lemma_cloned_model(s, id);
    assert(s.model_data.dom().contains(id));
    assert(!s.model_data.dom().contains(s.next_model_id));
    assert(c.live_models().contains(id));
    assert(c.live_models().contains(s.next_model_id));
    law_group_count(c, id);
    law_group_count(c, s.next_model_id);
}

} // verus!
