use crystal_engine::game_state::{GameState, KeyboardState};
use crystal_engine::gpu::{GpuBuffer, GpuFuture, GpuTexture};
use crystal_engine::internal::UpdateMessage;
use crystal_engine::lights::DirectionalLight;
use crystal_engine::math::{Float, Matrix4, Vector3};
use crystal_engine::model::{
    DataRef, DrawCall, Material, Model, ModelData, ModelGroup, ModelRef,
};
use crystal_engine::time::TimeState;
use std::sync::Arc;

fn model(groups: usize) -> Arc<Model> {
    Arc::new(Model {
        vertex_buffer: Some(GpuBuffer { id: 1 }),
        groups: (0..groups).map(|_| ModelGroup::from_tex(None)).collect(),
        texture_future: vec![GpuFuture { id: 3 }],
    })
}

#[test]
fn a_new_state_is_empty() {
    let state = GameState::new();
    assert!(state.is_running());
    assert_eq!(state.model_count(), 0);
    assert_eq!(state.gui_element_count(), 0);
    assert_eq!(state.pending_updates(), 0);
    assert_eq!(state.camera(), Matrix4::identity());
    assert!(state.light().directional.is_empty());
    assert_eq!(state.time().frame_count(), 0);
    assert!(!state.has_live_model(1));
    assert!(!state.has_live_gui_element(0));
    assert!(state.can_number_model());
    assert!(state.can_number_gui_element());
    assert!(state.model_entry(1).is_none());
    assert!(state.model_data(1).is_none());
    assert!(state.gui_element_entry(0).is_none());
    assert!(state.gui_element_data(0).is_none());
}

#[test]
fn the_game_ends_once() {
    let mut state = GameState::new();
    state.terminate_game();
    assert!(!state.is_running());
    state.terminate_game();
    assert!(!state.is_running());
}

#[test]
fn keys_go_down_and_come_up() {
    let mut state = GameState::new();
    assert!(!state.keyboard().is_pressed(30));
    state.key_event(30, true);
    state.key_event(31, true);
    assert!(state.keyboard().is_pressed(30));
    assert!(state.keyboard().is_pressed(31));
    state.key_event(30, false);
    assert!(!state.keyboard().is_pressed(30));
    assert!(state.keyboard().is_pressed(31));
    state.key_event(30, false);
    assert!(!state.keyboard().is_pressed(30));
    let mut keyboard = KeyboardState::new();
    keyboard.set_pressed(7, true);
    assert!(keyboard.is_pressed(7));
    assert!(!keyboard.is_pressed(8));
}

#[test]
fn camera_and_lights_are_kept() {
    let mut state = GameState::new();
    let camera = Matrix4::from_scale(Float::from_bits(3.0f32.to_bits()));
    state.set_camera(camera);
    assert_eq!(state.camera(), camera);
    state.light_mut().directional.push(DirectionalLight::default());
    assert_eq!(state.light().directional.len(), 1);
    assert_eq!(state.light().point.len(), 0);
}

#[test]
fn frames_are_remembered_up_to_ten() {
    let mut state = GameState::new();
    for expected in 1..=10 {
        state.update();
        assert_eq!(state.time().frame_count(), expected);
    }
    for _ in 0..5 {
        state.update();
        assert_eq!(state.time().frame_count(), 10);
    }
    assert_eq!(state.time().frame_times().len(), 10);
    let mut time = TimeState::default();
    assert_eq!(time.frame_count(), 0);
    assert!(time.delta().as_nanos() == 0);
    time.update();
    assert_eq!(time.frame_times()[0], time.delta());
    let first = time.running();
    let second = time.running();
    assert!(second >= first);
}

#[test]
fn registry_holds_the_live_handles_after_any_sequence() {
    let mut state = GameState::new();
    let a = state.add_model(model(1), ModelData::default());
    let b = a.clone(&mut state);
    let c = b.clone(&mut state);
    let (a_id, b_id, c_id) = (a.id(), b.id(), c.id());
    // the source of a clone is dropped before the clone is registered
    b.drop(&mut state);
    let d = state.add_model(model(2), ModelData::default());
    state.apply_updates();
    let mut live = vec![a_id, c_id, d.id()];
    for id in 1..=5 {
        assert_eq!(state.model_entry(id).is_some(), live.contains(&id));
        assert_eq!(state.has_live_model(id), live.contains(&id));
        assert_eq!(state.model_data(id).is_some(), live.contains(&id));
    }
    assert!(state.model_entry(b_id).is_none());
    // the clone of the clone has the model of the first
    assert!(Arc::ptr_eq(
        &state.model_entry(a_id).unwrap().model,
        &state.model_entry(c_id).unwrap().model
    ));
    assert!(!Arc::ptr_eq(
        &state.model_entry(a_id).unwrap().model,
        &state.model_entry(d.id()).unwrap().model
    ));
    let e = d.clone(&mut state);
    live.push(e.id());
    a.drop(&mut state);
    live.retain(|id| *id != a_id);
    // before the messages are applied, the registry lags behind
    assert!(state.model_entry(a_id).is_some());
    assert!(!state.has_live_model(a_id));
    assert!(state.model_entry(e.id()).is_none());
    assert!(state.has_live_model(e.id()));
    state.apply_updates();
    assert_eq!(state.model_count(), live.len());
    for id in 1..=6 {
        assert_eq!(state.model_entry(id).is_some(), live.contains(&id));
    }
    assert_eq!(state.model_data(e.id()).unwrap().groups.len(), 2);
    // applying nothing changes nothing
    state.apply_updates();
    assert_eq!(state.model_count(), live.len());
}

#[test]
fn gui_elements_follow_the_same_protocol() {
    let mut state = GameState::new();
    let a = state.add_gui_element((0, 0, 5, 5), GpuTexture { id: 1 }, GpuFuture { id: 1 }, None);
    let b = a.clone(&mut state);
    let b_id = b.id();
    b.drop(&mut state);
    let c = a.clone(&mut state);
    state.apply_updates();
    assert_eq!(state.gui_element_count(), 2);
    assert!(state.gui_element_entry(b_id).is_none());
    let entry = state.gui_element_entry(c.id()).unwrap();
    assert_eq!(entry.texture, GpuTexture { id: 1 });
    // the upload stays with the entry that it was made for
    assert_eq!(entry.texture_future, None);
    assert_eq!(state.gui_element_entry(a.id()).unwrap().texture_future, Some(GpuFuture { id: 1 }));
    c.modify(&mut state, |data| data.z_index = 9);
    assert_eq!(a.read(&state).z_index, 1);
    assert_eq!(c.read(&state).z_index, 9);
    let a_id = a.id();
    a.drop(&mut state);
    state.apply_updates();
    assert!(state.gui_element_entry(a_id).is_none());
    assert!(state.gui_element_data(a_id).is_none());
    assert_eq!(state.gui_element_entry(c.id()).unwrap().data, DataRef { key: c.id() });
    assert_eq!(state.model_count(), 0);
}

#[test]
fn messages_are_applied_one_by_one() {
    let mut state = GameState::new();
    let a = state.add_model(model(1), ModelData::default());
    let entry = ModelRef { model: model(4), data: DataRef { key: 9 } };
    let other = entry.with_new_data(DataRef { key: 10 });
    assert!(Arc::ptr_eq(&entry.model, &other.model));
    assert_eq!(other.data, DataRef { key: 10 });
    let message = UpdateMessage::NewModel { old_id: a.id(), new_id: 40, data: DataRef { key: 40 } };
    message.apply(&mut state);
    assert_eq!(state.model_count(), 2);
    assert_eq!(state.model_entry(40).unwrap().data, DataRef { key: 40 });
    UpdateMessage::ModelDropped(40).apply(&mut state);
    assert_eq!(state.model_count(), 1);
    UpdateMessage::ModelDropped(40).apply(&mut state);
    UpdateMessage::GuiElementDropped(3).apply(&mut state);
    assert_eq!(state.model_count(), 1);
    assert_eq!(state.gui_element_count(), 0);
}

#[test]
fn reading_and_writing_through_a_handle() {
    let mut state = GameState::new();
    let handle = state.add_model(model(2), ModelData::default());
    let three = Float::from_bits(3.0f32.to_bits());
    let returned = handle.modify(&mut state, |data: &mut ModelData| {
        data.scale = three;
        data.position = Vector3::new(three, three, three);
        data.groups[1].matrix = Matrix4::from_scale(three);
        17
    });
    assert_eq!(returned, 17);
    assert_eq!(handle.scale(&state), three);
    assert_eq!(handle.position(&state), Vector3::new(three, three, three));
    assert_eq!(handle.rotation(&state), ModelData::default().rotation);
    let read = handle.read(&state, |data: &ModelData| (data.scale, data.groups.len()));
    assert_eq!(read, (three, 2));
    // the renderer reads the same record through the registry entry
    let key = state.model_entry(handle.id()).unwrap().data.key;
    assert_eq!(state.model_data(key).unwrap().groups[1].matrix, Matrix4::from_scale(three));
    assert_eq!(state.model_data(key).unwrap().groups[0].matrix, Matrix4::identity());
    assert_eq!(state.pending_updates(), 0);
    let copy = state.model_data(key).unwrap().snapshot();
    assert_eq!(copy.scale, three);
    assert_eq!(copy.groups, state.model_data(key).unwrap().groups);
    assert_eq!(ModelData::rest_groups(3).len(), 3);
}

#[test]
fn gui_elements_are_drawn_by_z_index() {
    let mut state = GameState::new();
    assert_eq!(state.gui_draw_order(), Vec::<u64>::new());
    let a = state.add_gui_element((0, 0, 1, 1), GpuTexture { id: 1 }, GpuFuture { id: 1 }, None);
    let b = state.add_gui_element((0, 0, 1, 1), GpuTexture { id: 2 }, GpuFuture { id: 2 }, None);
    let c = state.add_gui_element((0, 0, 1, 1), GpuTexture { id: 3 }, GpuFuture { id: 3 }, None);
    let d = b.clone(&mut state);
    // the clone is not in the registry yet
    assert_eq!(state.gui_draw_order(), vec![a.id(), b.id(), c.id()]);
    state.apply_updates();
    // the clone has the z-index of its source and the higher identity
    assert_eq!(state.gui_draw_order(), vec![a.id(), b.id(), d.id(), c.id()]);
    a.modify(&mut state, |data| data.z_index = 10);
    c.modify(&mut state, |data| data.z_index = 0);
    assert_eq!(state.gui_draw_order(), vec![c.id(), b.id(), d.id(), a.id()]);
    b.drop(&mut state);
    state.apply_updates();
    assert_eq!(state.gui_draw_order(), vec![c.id(), d.id(), a.id()]);
}

#[test]
fn uploads_are_handed_out_once() {
    let mut state = GameState::new();
    let a = state.add_gui_element((0, 0, 1, 1), GpuTexture { id: 1 }, GpuFuture { id: 8 }, None);
    assert_eq!(state.take_gui_element_future(a.id()), Some(GpuFuture { id: 8 }));
    assert_eq!(state.take_gui_element_future(a.id()), None);
    assert_eq!(state.take_gui_element_future(77), None);
    let entry = state.gui_element_entry(a.id()).unwrap();
    assert_eq!((entry.texture, entry.data), (GpuTexture { id: 1 }, DataRef { key: a.id() }));
    assert_eq!(state.gui_element_count(), 1);
}

#[test]
fn groups_are_drawn_with_their_own_vertices_or_the_models() {
    let own = ModelGroup {
        vertex_buffer: Some(GpuBuffer { id: 5 }),
        material: Some(Material::default()),
        texture: Some(GpuTexture { id: 6 }),
        index: Some(GpuBuffer { id: 7 }),
    };
    let shared = Model {
        vertex_buffer: Some(GpuBuffer { id: 1 }),
        groups: vec![ModelGroup::from_tex(None), own],
        texture_future: Vec::new(),
    };
    assert_eq!(
        shared.draw_call(0),
        Some(DrawCall { vertex_buffer: GpuBuffer { id: 1 }, index: None, texture: None, material: None })
    );
    assert_eq!(
        shared.draw_call(1),
        Some(DrawCall {
            vertex_buffer: GpuBuffer { id: 5 },
            index: Some(GpuBuffer { id: 7 }),
            texture: Some(GpuTexture { id: 6 }),
            material: Some(Material::default()),
        })
    );
    let bare = Model {
        vertex_buffer: None,
        groups: vec![ModelGroup::from_tex(None), own],
        texture_future: Vec::new(),
    };
    assert_eq!(bare.draw_call(0), None);
    assert!(bare.draw_call(1).is_some());
    assert!(bare.has_vertex_buffer());
    let nothing = Model { vertex_buffer: None, groups: Vec::new(), texture_future: Vec::new() };
    assert!(!nothing.has_vertex_buffer());
}

#[test]
fn registered_models_are_listed_once() {
    let mut state = GameState::new();
    assert!(state.model_ids().is_empty());
    let a = state.add_model(model(1), ModelData::default());
    let b = a.clone(&mut state);
    let c = state.add_model(model(2), ModelData::default());
    // the clone is listed once it is registered
    let mut ids = state.model_ids();
    ids.sort();
    assert_eq!(ids, vec![a.id(), c.id()]);
    state.apply_updates();
    let mut ids = state.model_ids();
    ids.sort();
    assert_eq!(ids, vec![a.id(), b.id(), c.id()]);
    c.drop(&mut state);
    state.apply_updates();
    let mut ids = state.model_ids();
    ids.sort();
    assert_eq!(ids, vec![a.id(), b.id()]);
}
