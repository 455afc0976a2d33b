use crate::game_state::GameState;
use crate::lifecycle::{Effect, Family};
use crate::model::DataRef;
use vstd::prelude::*;

verus! {

/// A lifecycle event of a handle, on its way to the registry.
///
/// Handles are cloned and dropped at any time; the registry learns of it
/// from these messages, which it applies once per frame in the order in
/// which they were sent.
#[derive(Clone, Copy, Debug, PartialEq, Eq, Structural)]
pub enum UpdateMessage {
    /// A model handle was cloned: `new_id` is to be registered with the
    /// model of `old_id` and the data record `data`.
    NewModel { old_id: u64, new_id: u64, data: DataRef },
    /// The handle of a model was dropped.
    ModelDropped(u64),
    /// A GUI element was cloned: `new_id` is to be registered with the
    /// texture of `old_id` and the data record `data`.
    NewGuiElement { old_id: u64, new_id: u64, data: DataRef },
    /// The handle of a GUI element was dropped.
    GuiElementDropped(u64),
}

impl UpdateMessage {
    /// Applies this message to the registries of `game_state`.
    ///
    /// A clone is registered under its new identity, with the model or the
    /// texture of the entity it was cloned from, which has to be in the
    /// registry. A dropped entity leaves the registry and its data record
    /// is released.
    pub fn apply(self, game_state: &mut GameState)
        requires
            old(game_state)@.can_apply(self),
        ensures
            final(game_state)@ == old(game_state)@.applied(self),
    {
        match self {
            UpdateMessage::ModelDropped(id) => {
                game_state.remove_model_entry(id);
                let _ = game_state.take_model_data(id);
            },
            UpdateMessage::NewModel { old_id, new_id, data } => {
                let new = game_state.model_entry(old_id).unwrap().with_new_data(data);
                game_state.put_model_entry(new_id, new);
            },
            UpdateMessage::GuiElementDropped(id) => {
                game_state.remove_gui_element_entry(id);
                game_state.remove_gui_element_data(id);
            },
            UpdateMessage::NewGuiElement { old_id, new_id, data } => {
                let new = game_state.gui_element_entry(old_id).unwrap().with_new_data(data);
                game_state.put_gui_element_entry(new_id, new);
            },
        }
    }

    /// What this message does to the registry of `family`.
    pub open spec fn effect(self, family: Family) -> Effect {
        match self {
            UpdateMessage::NewModel { old_id, new_id, .. } => if family == Family::Model {
                Effect::Create { old_id, new_id }
            } else {
                Effect::Nothing
            },
            UpdateMessage::ModelDropped(id) => if family == Family::Model {
                Effect::Retire { id }
            } else {
                Effect::Nothing
            },
            UpdateMessage::NewGuiElement { old_id, new_id, .. } => if family == Family::Gui {
                Effect::Create { old_id, new_id }
            } else {
                Effect::Nothing
            },
            UpdateMessage::GuiElementDropped(id) => if family == Family::Gui {
                Effect::Retire { id }
            } else {
                Effect::Nothing
            },
        }
    }
}

/// What a queue of messages does to the registry of `family`, message by message.
pub open spec fn effects(queue: Seq<UpdateMessage>, family: Family) -> Seq<Effect> {
    Seq::new(queue.len(), |i: int| queue[i].effect(family))
}

/// The effects of a queue without its first message are the effects of the
/// queue without the first.
pub proof fn lemma_effects_skip(queue: Seq<UpdateMessage>, family: Family)
    requires
        queue.len() > 0,
    ensures
        effects(queue.skip(1), family) == effects(queue, family).skip(1),
        effects(queue, family)[0] == queue[0].effect(family),
{
    assert(effects(queue.skip(1), family) =~= effects(queue, family).skip(1));
}

/// The effects of a queue with one more message are the effects of the
/// queue, followed by the effect of the message.
pub proof fn lemma_effects_push(queue: Seq<UpdateMessage>, last: UpdateMessage, family: Family)
    ensures
        effects(queue.push(last), family) == effects(queue, family).push(last.effect(family)),
{
    assert(effects(queue.push(last), family) =~= effects(queue, family).push(
        last.effect(family),
    ));
}

} // verus!
