use crystal_engine::game_state::GameState;
use crystal_engine::gpu::{GpuBuffer, GpuFuture, GpuTexture};
use crystal_engine::gui::GuiElementData;
use crystal_engine::math::{Float, Vector3};
use crystal_engine::model::{Model, ModelData, ModelGroup};
use std::sync::Arc;

fn float(value: f32) -> Float {
    Float::from_bits(value.to_bits())
}

fn model_with_groups(groups: usize) -> Arc<Model> {
    let mut list = Vec::new();
    for _ in 0..groups {
        list.push(ModelGroup::from_tex(None));
    }
    Arc::new(Model { vertex_buffer: Some(GpuBuffer { id: 7 }), groups: list, texture_future: Vec::new() })
}

#[test]
fn build_clone_drop() {
    let mut state = GameState::new();
    let model = model_with_groups(2);
    let m = state.add_model(model.clone(), ModelData::default());
    assert_eq!(state.model_count(), 1);
    assert_eq!(state.model_data(m.id()).unwrap().groups.len(), 2);
    assert_eq!(state.model_entry(m.id()).unwrap().model.groups.len(), 2);

    let m2 = m.clone(&mut state);
    // the registry learns of the clone when the messages are applied
    assert_eq!(state.model_count(), 1);
    state.apply_updates();
    assert_eq!(state.model_count(), 2);
    assert_eq!(state.model_data(m.id()).unwrap().groups.len(), 2);
    assert_eq!(state.model_data(m2.id()).unwrap().groups.len(), 2);
    assert_ne!(state.model_entry(m.id()).unwrap().data, state.model_entry(m2.id()).unwrap().data);
    assert!(Arc::ptr_eq(
        &state.model_entry(m.id()).unwrap().model,
        &state.model_entry(m2.id()).unwrap().model
    ));

    let first = m.id();
    let second = m2.id();
    m.drop(&mut state);
    state.apply_updates();
    assert_eq!(state.model_count(), 1);
    assert!(state.model_entry(first).is_none());
    assert!(state.model_entry(second).is_some());
    assert!(state.model_data(first).is_none());
    assert!(state.has_live_model(second));
    assert!(!state.has_live_model(first));
}

#[test]
fn gui_modify_is_read_at_once() {
    let mut state = GameState::new();
    let element =
        state.add_gui_element((10, 10, 50, 50), GpuTexture { id: 1 }, GpuFuture { id: 2 }, None);
    assert_eq!(element.read(&state).dimensions, (10, 10, 50, 50));
    element.modify(&mut state, |data: &mut GuiElementData| data.dimensions = (20, 20, 50, 50));
    assert_eq!(element.read(&state).dimensions, (20, 20, 50, 50));
    assert_eq!(state.gui_element_data(element.id()).unwrap().dimensions, (20, 20, 50, 50));
    assert_eq!(state.pending_updates(), 0);
}

#[test]
fn clones_are_independent() {
    let mut state = GameState::new();
    let h1 = state.add_model(model_with_groups(1), ModelData::default());
    h1.modify(&mut state, |d: &mut ModelData| {
        d.position = Vector3::new(float(1.0), float(2.0), float(3.0))
    });
    let h2 = h1.clone(&mut state);
    assert_eq!(h2.position(&state), Vector3::new(float(1.0), float(2.0), float(3.0)));
    h1.modify(&mut state, |d: &mut ModelData| {
        d.position = Vector3::new(float(9.0), float(9.0), float(9.0))
    });
    assert_eq!(h2.position(&state), Vector3::new(float(1.0), float(2.0), float(3.0)));
    h2.modify(&mut state, |d: &mut ModelData| d.scale = float(4.0));
    assert_eq!(h1.scale(&state), float(1.0));
    assert_eq!(h2.scale(&state), float(4.0));
    assert_eq!(h1.position(&state), Vector3::new(float(9.0), float(9.0), float(9.0)));
    state.apply_updates();
    let a = state.model_entry(h1.id()).unwrap();
    let b = state.model_entry(h2.id()).unwrap();
    assert!(Arc::ptr_eq(&a.model, &b.model));
    assert_eq!(a.model.vertex_buffer, b.model.vertex_buffer);
    assert_eq!(state.model_data(b.data.key).unwrap().scale, float(4.0));
}

#[test]
fn dropping_leaves_the_clone() {
    let mut state = GameState::new();
    let h1 = state.add_model(model_with_groups(3), ModelData::default());
    let h2 = h1.clone(&mut state);
    state.apply_updates();
    let (first, second) = (h1.id(), h2.id());
    h1.drop(&mut state);
    state.apply_updates();
    assert!(state.model_entry(first).is_none());
    let entry = state.model_entry(second).unwrap();
    assert_eq!(entry.data.key, second);
    assert_eq!(entry.model.groups.len(), 3);
    assert_eq!(state.model_data(second).unwrap().groups.len(), 3);
}

#[test]
fn clone_then_drop_is_net_zero() {
    let mut state = GameState::new();
    let h = state.add_model(model_with_groups(1), ModelData::default());
    let clone = h.clone(&mut state);
    let clone_id = clone.id();
    clone.drop(&mut state);
    assert_eq!(state.pending_updates(), 2);
    state.apply_updates();
    assert_eq!(state.pending_updates(), 0);
    assert!(state.model_entry(clone_id).is_none());
    assert!(state.model_data(clone_id).is_none());
    assert!(state.model_entry(h.id()).is_some());
    assert_eq!(state.model_count(), 1);
}

#[test]
fn identities_count_up() {
    let mut state = GameState::new();
    let a = state.add_model(model_with_groups(1), ModelData::default());
    let b = a.clone(&mut state);
    let c = state.add_model(model_with_groups(1), ModelData::default());
    assert_eq!((a.id(), b.id(), c.id()), (1, 2, 3));
    let g0 = state.add_gui_element((0, 0, 1, 1), GpuTexture { id: 1 }, GpuFuture { id: 1 }, None);
    let g1 = g0.clone(&mut state);
    assert_eq!((g0.id(), g1.id()), (0, 1));
    assert_eq!(g0.read(&state).z_index, 1);
    // a clone keeps the z-index of its source
    assert_eq!(g1.read(&state).z_index, 1);
    let g2 = state.add_gui_element((0, 0, 1, 1), GpuTexture { id: 2 }, GpuFuture { id: 2 }, None);
    assert_eq!(g2.read(&state).z_index, 2);
}
