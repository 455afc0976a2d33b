use super::view::GameStateView;
use crate::gpu::{GpuFuture, GpuTexture};
use crate::gui::GuiElementData;
use crate::internal::{effects, lemma_effects_push, lemma_effects_skip, UpdateMessage};
use crate::lifecycle::{
    lemma_apply_first, lemma_construct, lemma_drained, lemma_push_create, lemma_push_nothing,
    lemma_push_retire, live, Family,
};
use crate::model::{DataRef, Model, ModelDataView};
use std::sync::Arc;
use vstd::prelude::*;

verus! {

/// Applying the first of the messages that are still to be applied: it
/// finds the entry it copies from, the rest stays consistent, and no handle
/// comes alive or dies by it.
pub proof fn lemma_applied(s: GameStateView, queue: Seq<UpdateMessage>)
    requires
        s.consistent_with(queue),
        queue.len() > 0,
    ensures
        s.can_apply(queue[0]),
        s.applied(queue[0]).consistent_with(queue.skip(1)),
        live(effects(queue.skip(1), Family::Model), s.applied(queue[0]).model_data.dom()) == live(
            effects(queue, Family::Model),
            s.model_data.dom(),
        ),
        live(effects(queue.skip(1), Family::Gui), s.applied(queue[0]).gui_data.dom()) == live(
            effects(queue, Family::Gui),
            s.gui_data.dom(),
        ),
{
    let first = queue[0];
    let rest = queue.skip(1);
    let t = s.applied(first);
    lemma_effects_skip(queue, Family::Model);
    lemma_effects_skip(queue, Family::Gui);
    lemma_apply_first(
        effects(queue, Family::Model),
        s.model_handles.dom(),
        s.model_data.dom(),
        s.next_model_id as int,
    );
    lemma_apply_first(
        effects(queue, Family::Gui),
        s.gui_elements.dom(),
        s.gui_data.dom(),
        s.next_gui_id as int,
    );
    assert(t.model_handles.dom() =~= crate::lifecycle::step(
        s.model_handles.dom(),
        first.effect(Family::Model),
    ));
    assert(t.model_data.dom() =~= crate::lifecycle::step_cells(
        s.model_data.dom(),
        first.effect(Family::Model),
    ));
    assert(t.gui_elements.dom() =~= crate::lifecycle::step(
        s.gui_elements.dom(),
        first.effect(Family::Gui),
    ));
    assert(t.gui_data.dom() =~= crate::lifecycle::step_cells(
        s.gui_data.dom(),
        first.effect(Family::Gui),
    ));
    assert forall|i: int| 0 <= i < rest.len() implies #[trigger] rest[i] == queue[i + 1] by {}
    assert forall|i: int| 0 <= i < rest.len() implies (#[trigger] rest[i] matches UpdateMessage::NewModel {
        old_id,
        new_id,
        data,
    } ==> {
        &&& data.key == new_id
        &&& t.model_data[new_id].groups.len() == t.model_data[old_id].groups.len()
    }) by {
        if let UpdateMessage::NewModel { old_id, new_id, data } = rest[i] {
            assert(queue[i + 1] == rest[i]);
            let e = effects(queue, Family::Model);
            assert(e[i + 1] == queue[i + 1].effect(Family::Model));
            assert(e[0] == first.effect(Family::Model));
            if let UpdateMessage::ModelDropped(id) = first {
                assert(!e[i + 1].reads(id));
                assert(s.model_handles.dom().contains(id));
                assert(!s.model_handles.dom().contains(new_id));
            }
        }
    }
    assert forall|i: int| 0 <= i < rest.len() implies (#[trigger] rest[i] matches UpdateMessage::NewGuiElement {
        new_id,
        data,
        ..
    } ==> data.key == new_id) by {
        assert(queue[i + 1] == rest[i]);
    }
    assert forall|id: u64| #[trigger] t.model_handles.contains_key(id) implies {
        &&& t.model_handles[id].data.key == id
        &&& t.model_data[id].groups.len() == t.model_handles[id].model.groups@.len()
    } by {
        if let UpdateMessage::NewModel { old_id, new_id, data } = first {
            assert(s.model_handles.contains_key(old_id));
        }
    }
    assert forall|id: u64| #[trigger] t.gui_elements.contains_key(id) implies t.gui_elements[id].data.key
        == id by {}
}

/// Applying every message that is still to be applied leaves the registries
/// with exactly the entities whose handle is alive.
pub proof fn lemma_applied_all(s: GameStateView, queue: Seq<UpdateMessage>)
    requires
        s.consistent_with(queue),
    ensures
        s.applied_all(queue).consistent_with(Seq::empty()),
        s.applied_all(queue).model_handles.dom() == live(
            effects(queue, Family::Model),
            s.model_data.dom(),
        ),
        s.applied_all(queue).gui_elements.dom() == live(
            effects(queue, Family::Gui),
            s.gui_data.dom(),
        ),
        s.applied_all(queue).model_data.dom() == s.applied_all(queue).model_handles.dom(),
        s.applied_all(queue).gui_data.dom() == s.applied_all(queue).gui_elements.dom(),
        s.applied_all(queue).updates == s.updates,
        s.applied_all(queue).next_model_id == s.next_model_id,
        s.applied_all(queue).next_gui_id == s.next_gui_id,
        s.applied_all(queue).next_z_index == s.next_z_index,
        s.applied_all(queue).is_running == s.is_running,
        s.applied_all(queue).camera == s.camera,
        s.applied_all(queue).keyboard == s.keyboard,
        s.applied_all(queue).light == s.light,
        s.applied_all(queue).time == s.time,
    decreases queue.len(),
{
    if queue.len() == 0 {
        assert(queue =~= Seq::<UpdateMessage>::empty());
        assert(effects(queue, Family::Model) =~= Seq::empty());
        assert(effects(queue, Family::Gui) =~= Seq::empty());
        lemma_drained(s.model_handles.dom(), s.model_data.dom(), s.next_model_id as int);
        lemma_drained(s.gui_elements.dom(), s.gui_data.dom(), s.next_gui_id as int);
    } else {
        lemma_applied(s, queue);
        lemma_applied_all(s.applied(queue[0]), queue.skip(1));
    }
}

/// What messages do to the registries does not depend on the messages that
/// wait in the queue.
pub proof fn lemma_applied_all_queue(s: GameStateView, queue: Seq<UpdateMessage>, waiting: Seq<UpdateMessage>)
    ensures
        (GameStateView { updates: waiting, ..s }).applied_all(queue) == (GameStateView {
            updates: waiting,
            ..s.applied_all(queue)
        }),
    decreases queue.len(),
{
    if queue.len() > 0 {
        let t = GameStateView { updates: waiting, ..s };
        assert(t.applied(queue[0]) == (GameStateView { updates: waiting, ..s.applied(queue[0]) }));
        lemma_applied_all_queue(s.applied(queue[0]), queue.skip(1), waiting);
    }
}

/// Draining a state that is in order leaves it in order, with exactly the
/// live entities registered, each with its data record.
pub proof fn lemma_drained_state(s: GameStateView)
    requires
        s.wf(),
    ensures
        s.drained().wf(),
        s.drained().model_handles.dom() == s.live_models(),
        s.drained().gui_elements.dom() == s.live_gui_elements(),
        s.drained().live_models() == s.live_models(),
        s.drained().live_gui_elements() == s.live_gui_elements(),
        s.drained().model_data.dom() == s.live_models(),
        s.drained().gui_data.dom() == s.live_gui_elements(),
{
    lemma_applied_all(s, s.updates);
    let d = s.drained();
    assert(effects(d.updates, Family::Model) =~= Seq::empty());
    assert(effects(d.updates, Family::Gui) =~= Seq::empty());
    lemma_drained(d.model_handles.dom(), d.model_data.dom(), d.next_model_id as int);
    lemma_drained(d.gui_elements.dom(), d.gui_data.dom(), d.next_gui_id as int);
}

/// Building a model keeps the state in order and makes the new model live.
pub proof fn lemma_new_model(s: GameStateView, model: Arc<Model>, data: ModelDataView)
    requires
        s.wf(),
        s.next_model_id < u64::MAX,
    ensures
        s.with_new_model(model, data).wf(),
        s.with_new_model(model, data).live_models() == s.live_models().insert(s.next_model_id),
        s.with_new_model(model, data).live_gui_elements() == s.live_gui_elements(),
        !s.live_models().contains(s.next_model_id),
        !s.model_handles.contains_key(s.next_model_id),
{
    let t = s.with_new_model(model, data);
    let id = s.next_model_id;
    lemma_construct(
        effects(s.updates, Family::Model),
        s.model_handles.dom(),
        s.model_data.dom(),
        s.next_model_id as int,
        id,
    );
    assert(t.model_handles.dom() =~= s.model_handles.dom().insert(id));
    assert(t.model_data.dom() =~= s.model_data.dom().insert(id));
    assert(!s.model_data.dom().contains(id));
    assert forall|i: int| 0 <= i < s.updates.len() implies (#[trigger] s.updates[i] matches UpdateMessage::NewModel {
        old_id,
        new_id,
        data,
    } ==> {
        &&& data.key == new_id
        &&& t.model_data[new_id].groups.len() == t.model_data[old_id].groups.len()
    }) by {
        if let UpdateMessage::NewModel { old_id, new_id, data } = s.updates[i] {
            let e = effects(s.updates, Family::Model);
            assert(e[i] == s.updates[i].effect(Family::Model));
            assert(s.model_data.dom().contains(old_id));
            assert(s.model_data.dom().contains(new_id));
        }
    }
}

/// Cloning the handle of a live model keeps the state in order and makes
/// the clone live.
pub proof fn lemma_cloned_model(s: GameStateView, id: u64)
    requires
        s.wf(),
        s.live_models().contains(id),
        s.next_model_id < u64::MAX,
    ensures
        s.with_cloned_model(id).wf(),
        s.with_cloned_model(id).live_models() == s.live_models().insert(s.next_model_id),
        s.with_cloned_model(id).live_gui_elements() == s.live_gui_elements(),
        !s.live_models().contains(s.next_model_id),
        s.next_model_id != id,
{
    let t = s.with_cloned_model(id);
    let new_id = s.next_model_id;
    let message = UpdateMessage::NewModel { old_id: id, new_id, data: DataRef { key: new_id } };
    lemma_effects_push(s.updates, message, Family::Model);
    lemma_effects_push(s.updates, message, Family::Gui);
    lemma_push_create(
        effects(s.updates, Family::Model),
        s.model_handles.dom(),
        s.model_data.dom(),
        s.next_model_id as int,
        id,
        new_id,
    );
    lemma_push_nothing(
        effects(s.updates, Family::Gui),
        s.gui_elements.dom(),
        s.gui_data.dom(),
        s.next_gui_id as int,
    );
    assert(t.model_data.dom() =~= s.model_data.dom().insert(new_id));
    assert(!s.model_data.dom().contains(new_id));
    assert(s.model_data.dom().contains(id));
    assert forall|i: int| 0 <= i < t.updates.len() implies (#[trigger] t.updates[i] matches UpdateMessage::NewModel {
        old_id,
        new_id: n,
        data,
    } ==> {
        &&& data.key == n
        &&& t.model_data[n].groups.len() == t.model_data[old_id].groups.len()
    }) by {
        if i < s.updates.len() {
            assert(t.updates[i] == s.updates[i]);
            if let UpdateMessage::NewModel { old_id, new_id: n, data } = s.updates[i] {
                let e = effects(s.updates, Family::Model);
                assert(e[i] == s.updates[i].effect(Family::Model));
                assert(s.model_data.dom().contains(old_id));
                assert(s.model_data.dom().contains(n));
            }
        }
    }
    assert forall|i: int| 0 <= i < t.updates.len() implies (#[trigger] t.updates[i] matches UpdateMessage::NewGuiElement {
        new_id: n,
        data,
        ..
    } ==> data.key == n) by {
        if i < s.updates.len() {
            assert(t.updates[i] == s.updates[i]);
        }
    }
    assert forall|x: u64| #[trigger] t.model_handles.contains_key(x) implies {
        &&& t.model_handles[x].data.key == x
        &&& t.model_data[x].groups.len() == t.model_handles[x].model.groups@.len()
    } by {
        assert(s.model_data.dom().contains(x));
    }
}

/// Dropping the handle of a live model keeps the state in order; the model
/// is no longer live, and every other one is as before.
pub proof fn lemma_dropped_model(s: GameStateView, id: u64)
    requires
        s.wf(),
        s.live_models().contains(id),
    ensures
        s.with_dropped_model(id).wf(),
        s.with_dropped_model(id).live_models() == s.live_models().remove(id),
        s.with_dropped_model(id).live_gui_elements() == s.live_gui_elements(),
{
    let t = s.with_dropped_model(id);
    let message = UpdateMessage::ModelDropped(id);
    lemma_effects_push(s.updates, message, Family::Model);
    lemma_effects_push(s.updates, message, Family::Gui);
    lemma_push_retire(
        effects(s.updates, Family::Model),
        s.model_handles.dom(),
        s.model_data.dom(),
        s.next_model_id as int,
        id,
    );
    lemma_push_nothing(
        effects(s.updates, Family::Gui),
        s.gui_elements.dom(),
        s.gui_data.dom(),
        s.next_gui_id as int,
    );
    lemma_pushed_quiet(s, t, message);
}

/// A message that registers nothing keeps what the state knows of the
/// messages that register something.
proof fn lemma_pushed_quiet(s: GameStateView, t: GameStateView, message: UpdateMessage)
    requires
        s.wf(),
        t == (GameStateView { updates: s.updates.push(message), ..s }),
        message is ModelDropped || message is GuiElementDropped,
    ensures
        forall|i: int|
            0 <= i < t.updates.len() ==> (#[trigger] t.updates[i] matches UpdateMessage::NewModel {
                old_id,
                new_id,
                data,
            } ==> {
                &&& data.key == new_id
                &&& t.model_data[new_id].groups.len() == t.model_data[old_id].groups.len()
            }),
        forall|i: int|
            0 <= i < t.updates.len() ==> (#[trigger] t.updates[i] matches UpdateMessage::NewGuiElement {
                new_id,
                data,
                ..
            } ==> data.key == new_id),
{
    assert forall|i: int| 0 <= i < t.updates.len() implies (#[trigger] t.updates[i] matches UpdateMessage::NewModel {
        old_id,
        new_id,
        data,
    } ==> {
        &&& data.key == new_id
        &&& t.model_data[new_id].groups.len() == t.model_data[old_id].groups.len()
    }) by {
        if i < s.updates.len() {
            assert(t.updates[i] == s.updates[i]);
        }
    }
    assert forall|i: int| 0 <= i < t.updates.len() implies (#[trigger] t.updates[i] matches UpdateMessage::NewGuiElement {
        new_id,
        data,
        ..
    } ==> data.key == new_id) by {
        if i < s.updates.len() {
            assert(t.updates[i] == s.updates[i]);
        }
    }
}

/// Writing new values into the data record of a model keeps the state in
/// order, as long as the record keeps its number of groups; which handles
/// are alive does not change.
pub proof fn lemma_modified_model(s: GameStateView, key: u64, data: ModelDataView)
    requires
        s.wf(),
        s.model_data.contains_key(key),
        data.groups.len() == s.model_data[key].groups.len(),
    ensures
        (GameStateView { model_data: s.model_data.insert(key, data), ..s }).wf(),
        (GameStateView { model_data: s.model_data.insert(key, data), ..s }).live_models()
            == s.live_models(),
        (GameStateView { model_data: s.model_data.insert(key, data), ..s }).live_gui_elements()
            == s.live_gui_elements(),
{
    let t = GameStateView { model_data: s.model_data.insert(key, data), ..s };
    assert(t.model_data.dom() =~= s.model_data.dom());
}

/// Writing new values into the data record of a GUI element keeps the
/// state in order; which handles are alive does not change.
pub proof fn lemma_modified_gui_element(s: GameStateView, key: u64, data: GuiElementData)
    requires
        s.wf(),
        s.gui_data.contains_key(key),
    ensures
        (GameStateView { gui_data: s.gui_data.insert(key, data), ..s }).wf(),
        (GameStateView { gui_data: s.gui_data.insert(key, data), ..s }).live_models()
            == s.live_models(),
        (GameStateView { gui_data: s.gui_data.insert(key, data), ..s }).live_gui_elements()
            == s.live_gui_elements(),
{
    let t = GameStateView { gui_data: s.gui_data.insert(key, data), ..s };
    assert(t.gui_data.dom() =~= s.gui_data.dom());
}

/// Building a GUI element keeps the state in order and makes the new
/// element live.
pub proof fn lemma_new_gui_element(
    s: GameStateView,
    dimensions: (i32, i32, u32, u32),
    texture: GpuTexture,
    future: GpuFuture,
)
    requires
        s.wf(),
        s.next_gui_id < u64::MAX,
    ensures
        s.with_new_gui_element(dimensions, texture, future).wf(),
        s.with_new_gui_element(dimensions, texture, future).live_gui_elements()
            == s.live_gui_elements().insert(s.next_gui_id),
        s.with_new_gui_element(dimensions, texture, future).live_models() == s.live_models(),
        !s.live_gui_elements().contains(s.next_gui_id),
        !s.gui_elements.contains_key(s.next_gui_id),
{
    let t = s.with_new_gui_element(dimensions, texture, future);
    let id = s.next_gui_id;
    lemma_construct(
        effects(s.updates, Family::Gui),
        s.gui_elements.dom(),
        s.gui_data.dom(),
        s.next_gui_id as int,
        id,
    );
    assert(t.gui_elements.dom() =~= s.gui_elements.dom().insert(id));
    assert(t.gui_data.dom() =~= s.gui_data.dom().insert(id));
    assert(!s.gui_data.dom().contains(id));
}

/// Cloning the handle of a live GUI element keeps the state in order and
/// makes the clone live.
pub proof fn lemma_cloned_gui_element(s: GameStateView, id: u64)
    requires
        s.wf(),
        s.live_gui_elements().contains(id),
        s.next_gui_id < u64::MAX,
    ensures
        s.with_cloned_gui_element(id).wf(),
        s.with_cloned_gui_element(id).live_gui_elements() == s.live_gui_elements().insert(
            s.next_gui_id,
        ),
        s.with_cloned_gui_element(id).live_models() == s.live_models(),
        !s.live_gui_elements().contains(s.next_gui_id),
        s.next_gui_id != id,
{
    let t = s.with_cloned_gui_element(id);
    let new_id = s.next_gui_id;
    let message = UpdateMessage::NewGuiElement { old_id: id, new_id, data: DataRef { key: new_id } };
    lemma_effects_push(s.updates, message, Family::Model);
    lemma_effects_push(s.updates, message, Family::Gui);
    lemma_push_create(
        effects(s.updates, Family::Gui),
        s.gui_elements.dom(),
        s.gui_data.dom(),
        s.next_gui_id as int,
        id,
        new_id,
    );
    lemma_push_nothing(
        effects(s.updates, Family::Model),
        s.model_handles.dom(),
        s.model_data.dom(),
        s.next_model_id as int,
    );
    assert(t.gui_data.dom() =~= s.gui_data.dom().insert(new_id));
    assert(!s.gui_data.dom().contains(new_id));
    assert forall|i: int| 0 <= i < t.updates.len() implies (#[trigger] t.updates[i] matches UpdateMessage::NewModel {
        old_id,
        new_id: n,
        data,
    } ==> {
        &&& data.key == n
        &&& t.model_data[n].groups.len() == t.model_data[old_id].groups.len()
    }) by {
        if i < s.updates.len() {
            assert(t.updates[i] == s.updates[i]);
        }
    }
    assert forall|i: int| 0 <= i < t.updates.len() implies (#[trigger] t.updates[i] matches UpdateMessage::NewGuiElement {
        new_id: n,
        data,
        ..
    } ==> data.key == n) by {
        if i < s.updates.len() {
            assert(t.updates[i] == s.updates[i]);
        }
    }
}

/// Dropping the handle of a live GUI element keeps the state in order; the
/// element is no longer live, and every other one is as before.
pub proof fn lemma_dropped_gui_element(s: GameStateView, id: u64)
    requires
        s.wf(),
        s.live_gui_elements().contains(id),
    ensures
        s.with_dropped_gui_element(id).wf(),
        s.with_dropped_gui_element(id).live_gui_elements() == s.live_gui_elements().remove(id),
        s.with_dropped_gui_element(id).live_models() == s.live_models(),
{
    let t = s.with_dropped_gui_element(id);
    let message = UpdateMessage::GuiElementDropped(id);
    lemma_effects_push(s.updates, message, Family::Model);
    lemma_effects_push(s.updates, message, Family::Gui);
    lemma_push_retire(
        effects(s.updates, Family::Gui),
        s.gui_elements.dom(),
        s.gui_data.dom(),
        s.next_gui_id as int,
        id,
    );
    lemma_push_nothing(
        effects(s.updates, Family::Model),
        s.model_handles.dom(),
        s.model_data.dom(),
        s.next_model_id as int,
    );
    lemma_pushed_quiet(s, t, message);
}

/// Applying a queue with one more message at its end is applying the queue
/// and then the message.
pub proof fn lemma_applied_all_push(s: GameStateView, queue: Seq<UpdateMessage>, last: UpdateMessage)
    ensures
        s.applied_all(queue.push(last)) == s.applied_all(queue).applied(last),
    decreases queue.len(),
{
    let more = queue.push(last);
    if queue.len() == 0 {
        assert(more.skip(1) =~= Seq::<UpdateMessage>::empty());
        assert(more[0] == last);
        assert(s.applied(last).applied_all(more.skip(1)) == s.applied(last));
    } else {
        assert(more[0] == queue[0]);
        assert(more.skip(1) =~= queue.skip(1).push(last));
        lemma_applied_all_push(s.applied(queue[0]), queue.skip(1), last);
    }
}

/// Applying messages releases data records and changes none: what is left
/// of the records holds what it held. An entity that is registered and
/// whose handle is alive keeps its registry entry.
pub proof fn lemma_applied_all_keeps(s: GameStateView, queue: Seq<UpdateMessage>)
    requires
        s.consistent_with(queue),
    ensures
        s.applied_all(queue).model_data.submap_of(s.model_data),
        s.applied_all(queue).gui_data.submap_of(s.gui_data),
        forall|id: u64|
            live(effects(queue, Family::Model), s.model_data.dom()).contains(id)
                && s.model_handles.contains_key(id) ==> #[trigger] s.applied_all(
                queue,
            ).model_handles[id] == s.model_handles[id],
        forall|id: u64|
            live(effects(queue, Family::Gui), s.gui_data.dom()).contains(id)
                && s.gui_elements.contains_key(id) ==> #[trigger] s.applied_all(
                queue,
            ).gui_elements[id] == s.gui_elements[id],
    decreases queue.len(),
{
    if queue.len() > 0 {
        let first = queue[0];
        let t = s.applied(first);
        lemma_applied(s, queue);
        lemma_applied_all_keeps(t, queue.skip(1));
        let end = s.applied_all(queue);
        assert(end == t.applied_all(queue.skip(1)));
        assert forall|k: u64| #[trigger] end.model_data.dom().contains(k) implies s.model_data.dom().contains(
            k,
        ) && end.model_data[k] == s.model_data[k] by {
            assert(t.model_data.dom().contains(k));
        }
        assert forall|k: u64| #[trigger] end.gui_data.dom().contains(k) implies s.gui_data.dom().contains(
            k,
        ) && end.gui_data[k] == s.gui_data[k] by {
            assert(t.gui_data.dom().contains(k));
        }
        lemma_effects_skip(queue, Family::Model);
        lemma_effects_skip(queue, Family::Gui);
        let em = effects(queue, Family::Model);
        let eg = effects(queue, Family::Gui);
        assert(em[0] == first.effect(Family::Model));
        assert(eg[0] == first.effect(Family::Gui));
        lemma_apply_first(em, s.model_handles.dom(), s.model_data.dom(), s.next_model_id as int);
        lemma_apply_first(eg, s.gui_elements.dom(), s.gui_data.dom(), s.next_gui_id as int);
        assert forall|id: u64|
            live(em, s.model_data.dom()).contains(id) && s.model_handles.contains_key(
                id,
            ) implies #[trigger] s.applied_all(queue).model_handles[id] == s.model_handles[id] by {
            if em[0].retires(id) {
                assert(crate::lifecycle::retiring(em, id));
            }
            assert(t.model_handles.contains_key(id));
            assert(t.model_handles[id] == s.model_handles[id]);
        }
        assert forall|id: u64|
            live(eg, s.gui_data.dom()).contains(id) && s.gui_elements.contains_key(
                id,
            ) implies #[trigger] s.applied_all(queue).gui_elements[id] == s.gui_elements[id] by {
            if eg[0].retires(id) {
                assert(crate::lifecycle::retiring(eg, id));
            }
            assert(t.gui_elements.contains_key(id));
            assert(t.gui_elements[id] == s.gui_elements[id]);
        }
    }
}

} // verus!
