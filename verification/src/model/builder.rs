use super::loader::SourceOrShape;
use super::{Model, ModelData, ModelDataView, ModelGroup, ModelHandle, UploadedPart};
use crate::error::ModelError;
use crate::game_state::GameState;
use crate::gpu::{GpuBuffer, GpuFuture, GpuTexture};
use crate::math::{Euler, Float, Vector3};
use std::sync::Arc;
use vstd::prelude::*;

verus! {

/// What the graphics device holds for a model after its data was uploaded.
#[derive(Debug)]
pub struct UploadedModel {
    /// The texture that was asked for with the builder, with its pending
    /// upload, if one was asked for.
    pub texture: Option<(GpuTexture, GpuFuture)>,
    /// The buffer of the vertices of the model itself, if it has any and
    /// the buffer could be made.
    pub vertex_buffer: Option<GpuBuffer>,
    /// The parts of the model, in their order.
    pub parts: Vec<UploadedPart>,
}

/// The group that a part becomes in a model whose texture is `texture`.
pub open spec fn group_of(texture: Option<GpuTexture>, part: UploadedPart) -> ModelGroup {
    ModelGroup {
        vertex_buffer: part.vertex_buffer,
        material: None,
        texture: match part.texture {
            Some(own) => Some(own.0),
            None => texture,
        },
        index: part.index,
    }
}

/// The groups of a model: one for each part, in their order. A model
/// without parts gets one group that has nothing but the texture.
pub open spec fn groups_of(texture: Option<GpuTexture>, parts: Seq<UploadedPart>) -> Seq<ModelGroup> {
    if parts.len() == 0 {
        seq![ModelGroup { vertex_buffer: None, material: None, texture, index: None }]
    } else {
        Seq::new(parts.len(), |i: int| group_of(texture, parts[i]))
    }
}

/// The uploads of the textures that parts brought with them, in the order
/// of the parts.
pub open spec fn part_futures(parts: Seq<UploadedPart>) -> Seq<GpuFuture>
    decreases parts.len(),
{
    if parts.len() == 0 {
        Seq::empty()
    } else {
        match parts.last().texture {
            Some(own) => part_futures(parts.drop_last()).push(own.1),
            None => part_futures(parts.drop_last()),
        }
    }
}

/// The uploads that have to finish before a model is drawn: that of its
/// texture first, then those of its parts.
pub open spec fn futures_of(uploaded: UploadedModel) -> Seq<GpuFuture> {
    match uploaded.texture {
        Some(own) => seq![own.1] + part_futures(uploaded.parts@),
        None => part_futures(uploaded.parts@),
    }
}

/// Whether something of an uploaded model can be drawn: the model or one
/// of its parts has a vertex buffer.
pub open spec fn has_vertices(uploaded: UploadedModel) -> bool {
    uploaded.vertex_buffer is Some || exists|i: int|
        0 <= i < uploaded.parts@.len() && (#[trigger] uploaded.parts@[i]).vertex_buffer is Some
}

/// A builder that is used to configure a model being loaded
#[derive(Debug)]
pub struct ModelBuilder {
    pub source_or_shape: SourceOrShape,
    pub fallback_color: Option<Vector3>,
    pub texture: Option<String>,
    pub position: Vector3,
    pub rotation: Euler,
    pub scale: Float,
}

impl ModelBuilder {
    /// A builder of a model from `source_or_shape`: at the origin, not
    /// rotated, at scale `1.0`, without a texture or a fallback color.
    pub fn new(source_or_shape: SourceOrShape) -> (r: ModelBuilder)
        ensures
            r.source_or_shape == source_or_shape,
            r.fallback_color is None,
            r.texture is None,
            r.position == Vector3::spec_zero(),
            r.rotation == Euler::spec_zero(),
            r.scale == Float::spec_one(),
    {
        ModelBuilder {
            source_or_shape,
            fallback_color: None,
            texture: None,
            position: Vector3::zero(),
            rotation: Euler::zero(),
            scale: Float::one(),
        }
    }

    /// Set the fallback color of the model in case the model has no texture
    pub fn with_fallback_color(self, color: Vector3) -> (r: ModelBuilder)
        ensures
            r == (ModelBuilder { fallback_color: Some(color), ..self }),
    {
        let mut r = self;
        r.fallback_color = Some(color);
        r
    }

    /// Set the texture to be used in this model
    pub fn with_texture_from_file(self, texture_src: String) -> (r: ModelBuilder)
        ensures
            r == (ModelBuilder { texture: Some(texture_src), ..self }),
    {
        let mut r = self;
        r.texture = Some(texture_src);
        r
    }

    /// Set the initial position of the model
    pub fn with_position(self, position: Vector3) -> (r: ModelBuilder)
        ensures
            r == (ModelBuilder { position, ..self }),
    {
        let mut r = self;
        r.position = position;
        r
    }

    /// Set the initial rotation of the model
    pub fn with_rotation(self, rotation: Euler) -> (r: ModelBuilder)
        ensures
            r == (ModelBuilder { rotation, ..self }),
    {
        let mut r = self;
        r.rotation = rotation;
        r
    }

    /// Set the initial scale of the model
    pub fn with_scale(self, scale: Float) -> (r: ModelBuilder)
        ensures
            r == (ModelBuilder { scale, ..self }),
    {
        let mut r = self;
        r.scale = scale;
        r
    }

    /// The values that the data record of the model starts with; its
    /// groups follow from the model.
    pub open spec fn initial(self) -> ModelDataView {
        ModelDataView {
            position: self.position,
            rotation: self.rotation,
            scale: self.scale,
            groups: Seq::empty(),
        }
    }

    /// Finish configuring the model and enter it into the world.
    /// `uploaded` is what came of parsing the source, loading the texture
    /// and handing both to the graphics device.
    ///
    /// Where that failed, the failure is handed on. Where nothing of the
    /// model has a vertex buffer, the model cannot be drawn and the build
    /// fails with [`ModelError::InvalidModelVertexBuffer`]. In both cases
    /// the state stays as it is.
    ///
    /// Else the model gets one group for each part, or a single group if
    /// it has no parts, and is entered into the registry at once with a
    /// data record of as many groups.
    pub fn build(self, state: &mut GameState, uploaded: Result<UploadedModel, ModelError>) -> (r:
        Result<ModelHandle, ModelError>)
        requires
            old(state).wf(),
            old(state)@.next_model_id < u64::MAX,
        ensures
            final(state).wf(),
            match uploaded {
                Err(error) => r == Err::<ModelHandle, ModelError>(error) && final(state)@ == old(
                    state,
                )@,
                Ok(uploaded) => if has_vertices(uploaded) {
                    &&& r matches Ok(handle)
                    &&& handle.spec_id() == old(state)@.next_model_id
                    &&& handle.is_live(final(state))
                    &&& final(state)@.model_handles.contains_key(handle.spec_id())
                    &&& ({
                        let model = final(state)@.model_handles[handle.spec_id()].model;
                        &&& model.vertex_buffer == uploaded.vertex_buffer
                        &&& model.groups@ == groups_of(
                            match uploaded.texture {
                                Some(own) => Some(own.0),
                                None => None,
                            },
                            uploaded.parts@,
                        )
                        &&& model.texture_future@ == futures_of(uploaded)
                        &&& final(state)@ == old(state)@.with_new_model(model, self.initial())
                    })
                    &&& final(state)@.live_models() == old(state)@.live_models().insert(
                        handle.spec_id(),
                    )
                } else {
                    &&& r == Err::<ModelHandle, ModelError>(ModelError::InvalidModelVertexBuffer)
                    &&& final(state)@ == old(state)@
                },
            },
    {
        let uploaded = match uploaded {
            Ok(uploaded) => uploaded,
            Err(error) => {
                return Err(error);
            },
        };
        let (tex, mut futures): (Option<GpuTexture>, Vec<GpuFuture>) = match uploaded.texture {
            Some((tex, tex_future)) => {
                let mut futures: Vec<GpuFuture> = Vec::new();
                futures.push(tex_future);
                (Some(tex), futures)
            },
            None => (None, Vec::new()),
        };
        let ghost first = futures@;
        let mut groups: Vec<ModelGroup> = Vec::new();
        let n: usize = uploaded.parts.len();
        let mut i: usize = 0;
        while i < n
            invariant
                n == uploaded.parts@.len(),
                i <= n,
                groups@ == Seq::new(i as nat, |k: int| group_of(tex, uploaded.parts@[k])),
                futures@ == first + part_futures(uploaded.parts@.subrange(0, i as int)),
            decreases n - i,
        {
            let (group, maybe_future) = ModelGroup::from_part(&tex, uploaded.parts[i]);
            if let Some(fut) = maybe_future {
                futures.push(fut);
            }
            groups.push(group);
            proof {
                assert(uploaded.parts@.subrange(0, i + 1).drop_last() =~= uploaded.parts@.subrange(
                    0,
                    i as int,
                ));
                assert(groups@ =~= Seq::new((i + 1) as nat, |k: int| group_of(tex, uploaded.parts@[k])));
                assert(futures@ =~= first + part_futures(uploaded.parts@.subrange(0, i + 1)));
            }
            i += 1;
        }
        proof {
            assert(uploaded.parts@.subrange(0, n as int) =~= uploaded.parts@);
        }
        if groups.len() == 0 {
            // a model is drawn group by group, so it has at least one
            groups.push(ModelGroup::from_tex(tex));
            assert(groups@ =~= groups_of(tex, uploaded.parts@));
        }
        assert(groups@ =~= groups_of(tex, uploaded.parts@));

        let model = Model { vertex_buffer: uploaded.vertex_buffer, groups, texture_future: futures };
        proof {
            if model.drawable() {
                if model.vertex_buffer is None {
                    let k = choose|k: int|
                        0 <= k < model.groups@.len() && (#[trigger] model.groups@[k]).vertex_buffer is Some;
                    assert(uploaded.parts@[k].vertex_buffer is Some);
                }
            }
            if has_vertices(uploaded) {
                if uploaded.vertex_buffer is None {
                    let k = choose|k: int|
                        0 <= k < uploaded.parts@.len() && (
                        #[trigger] uploaded.parts@[k]).vertex_buffer is Some;
                    assert(model.groups@[k].vertex_buffer is Some);
                }
            }
        }
        if !model.has_vertex_buffer() {
            return Err(ModelError::InvalidModelVertexBuffer);
        }
        let data = ModelData {
            position: self.position,
            rotation: self.rotation,
            scale: self.scale,
            groups: Vec::new(),
        };
        let handle = state.add_model(Arc::new(model), data);
        Ok(handle)
    }
}

} // verus!
