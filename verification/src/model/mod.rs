pub mod builder;
pub mod data;
pub mod handle;
pub mod loader;

pub use self::builder::{ModelBuilder, UploadedModel};
pub use self::data::{ModelData, ModelDataGroup, ModelDataView};
pub use self::handle::{DataRef, ModelHandle, ModelRef};
pub use self::loader::SourceOrShape;

use crate::gpu::{GpuBuffer, GpuFuture, GpuTexture};
use crate::math::{Float, Vector2, Vector3};
use vstd::prelude::*;

verus! {

/// A single vertex.
#[derive(Clone, Copy, Debug, PartialEq, Eq, Structural)]
pub struct Vertex {
    /// The position of this vertex
    pub position: Vector3,
    /// The normal of this vertex
    pub normal: Vector3,
    /// The texture coordinate of this vertex
    pub tex_coord: Vector2,
}

/// The material of a model part: by how much it reflects each kind of light.
#[derive(Clone, Copy, Debug, PartialEq, Eq, Structural)]
pub struct Material {
    /// The ambient color multiplier of this material
    pub ambient: Vector3,
    /// The diffuse color multiplier of this material
    pub diffuse: Vector3,
    /// The specular color multiplier of this material
    pub specular: Vector3,
    /// The shininess multiplier of this material
    pub shininess: Float,
}

impl Material {
    pub open spec fn spec_default() -> Material {
        let ones = Vector3 { x: Float::spec_one(), y: Float::spec_one(), z: Float::spec_one() };
        Material { ambient: ones, diffuse: ones, specular: ones, shininess: Float::spec_one() }
    }
}

impl Default for Material {
    /// Every multiplier is `1.0`.
    fn default() -> (r: Material)
        ensures
            r == Material::spec_default(),
    {
        let l: Float = Float::one();
        let ones: Vector3 = Vector3::new(l, l, l);
        Material { ambient: ones, diffuse: ones, specular: ones, shininess: l }
    }
}

/// What the graphics device holds for one part of a model after its data
/// was uploaded.
#[derive(Clone, Copy, Debug, PartialEq, Eq)]
pub struct UploadedPart {
    /// The buffer of the part's indices, if it could be made.
    pub index: Option<GpuBuffer>,
    /// The buffer of the part's own vertices, if it has any.
    pub vertex_buffer: Option<GpuBuffer>,
    /// The part's own texture with its pending upload, if it has one.
    pub texture: Option<(GpuTexture, GpuFuture)>,
}

/// One group of a model: a part that can be drawn and moved on its own.
#[derive(Clone, Copy, Debug, PartialEq, Eq)]
pub struct ModelGroup {
    pub vertex_buffer: Option<GpuBuffer>,
    pub material: Option<Material>,
    pub texture: Option<GpuTexture>,
    pub index: Option<GpuBuffer>,
}

impl ModelGroup {
    /// A group that has nothing but the model's texture.
    pub fn from_tex(texture: Option<GpuTexture>) -> (r: ModelGroup)
        ensures
            r.vertex_buffer is None,
            r.material is None,
            r.texture == texture,
            r.index is None,
    {
        ModelGroup { vertex_buffer: None, material: None, texture, index: None }
    }

    /// The group of an uploaded part. A part with a texture of its own uses
    /// it, and its upload is handed back to be waited for; a part without
    /// one uses the texture of the model.
    pub fn from_part(texture: &Option<GpuTexture>, part: UploadedPart) -> (r: (
        ModelGroup,
        Option<GpuFuture>,
    ))
        ensures
            r.0.vertex_buffer == part.vertex_buffer,
            r.0.index == part.index,
            r.0.material is None,
            r.0.texture == (match part.texture {
                Some(own) => Some(own.0),
                None => *texture,
            }),
            r.1 == (match part.texture {
                Some(own) => Some(own.1),
                None => None,
            }),
    {
        let (texture, future) = match part.texture {
            Some((tex, fut)) => (Some(tex), Some(fut)),
            None => (*texture, None),
        };
        (
            ModelGroup { vertex_buffer: part.vertex_buffer, material: None, texture, index: part.index },
            future,
        )
    }
}

/// What the renderer hands to the graphics device to draw one group.
#[derive(Clone, Copy, Debug, PartialEq, Eq)]
pub struct DrawCall {
    /// The vertices to draw.
    pub vertex_buffer: GpuBuffer,
    /// The indices to draw the vertices by; without them, the vertices are
    /// drawn in their order.
    pub index: Option<GpuBuffer>,
    /// The texture to draw with; without one, an empty texture is used.
    pub texture: Option<GpuTexture>,
    /// The material to draw with, if the group has one.
    pub material: Option<Material>,
}

/// The shared part of a model: what the graphics device holds for it. It is
/// made once and never changes; every handle that was cloned from the same
/// model refers to the same one.
#[derive(Debug)]
pub struct Model {
    pub vertex_buffer: Option<GpuBuffer>,
    pub groups: Vec<ModelGroup>,
    /// The uploads that have to finish before the model is drawn first.
    pub texture_future: Vec<GpuFuture>,
}

impl Model {
    /// Whether anything of this model can be drawn: the model or one of its
    /// groups has a vertex buffer.
    pub open spec fn drawable(&self) -> bool {
        self.vertex_buffer is Some || exists|i: int|
            0 <= i < self.groups@.len() && (#[trigger] self.groups@[i]).vertex_buffer is Some
    }

    /// How the group `i` is drawn: with its own vertices, or else with
    /// those of the model. A group that has neither cannot be drawn.
    pub open spec fn spec_draw_call(&self, i: int) -> Option<DrawCall> {
        let group = self.groups@[i];
        let vertex_buffer = match group.vertex_buffer {
            Some(buffer) => Some(buffer),
            None => self.vertex_buffer,
        };
        match vertex_buffer {
            Some(vertex_buffer) => Some(
                DrawCall {
                    vertex_buffer,
                    index: group.index,
                    texture: group.texture,
                    material: group.material,
                },
            ),
            None => None,
        }
    }

    /// How the group `i` is drawn, or `None` if it has no vertices to draw.
    pub fn draw_call(&self, i: usize) -> (r: Option<DrawCall>)
        requires
            i < self.groups@.len(),
        ensures
            r == self.spec_draw_call(i as int),
    {
        let group = &self.groups[i];
        let vertex_buffer = match group.vertex_buffer {
            Some(buffer) => Some(buffer),
            None => self.vertex_buffer,
        };
        match vertex_buffer {
            Some(vertex_buffer) => Some(
                DrawCall {
                    vertex_buffer,
                    index: group.index,
                    texture: group.texture,
                    material: group.material,
                },
            ),
            None => None,
        }
    }

    /// Whether the model or one of its groups has a vertex buffer.
    pub fn has_vertex_buffer(&self) -> (r: bool)
        ensures
            r == self.drawable(),
    {
        if self.vertex_buffer.is_some() {
            return true;
        }
        let n: usize = self.groups.len();
        let mut i: usize = 0;
        while i < n
            invariant
                n == self.groups@.len(),
                i <= n,
                self.vertex_buffer is None,
                forall|k: int| 0 <= k < i ==> (#[trigger] self.groups@[k]).vertex_buffer is None,
            decreases n - i,
        {
            if self.groups[i].vertex_buffer.is_some() {
                return true;
            }
            i += 1;
        }
        false
    }
}

} // verus!
