use crate::math::{Float, Vector2, Vector3};
use crate::model::loader::ParsedTexture;
use vstd::prelude::*;

verus! {

/// Geometry mesh.
#[derive(Debug)]
pub struct GeometryMesh {
    /// Name.
    pub name: Option<String>,
    /// Positions.
    pub positions: Vec<Vector3>,
    /// Normals.
    pub normals: Vec<Vector3>,
    /// UV.
    pub uv: Vec<Vector2>,
    /// Indices per materials.
    pub indices_per_material: Vec<Vec<u32>>,
}

/// Lambert data.
#[derive(Clone, Copy, Debug, PartialEq, Eq, Structural)]
pub struct LambertData {
    /// Ambient.
    pub ambient: Vector3,
    /// Diffuse.
    pub diffuse: Vector3,
    /// Emissive.
    pub emissive: Vector3,
}

/// Shading data.
#[derive(Clone, Copy, Debug, PartialEq, Eq, Structural)]
pub enum ShadingData {
    /// Lambert material.
    Lambert(LambertData),
}

/// Material.
#[derive(Debug)]
pub struct Material {
    /// Name.
    pub name: Option<String>,
    /// Texture index.
    pub diffuse_texture: Option<TextureIndex>,
    /// Shading parameters.
    pub data: ShadingData,
}

impl Material {
    /// The material of the engine that stands for this one: its ambient
    /// and diffuse color as they are, its emissive color as the specular
    /// one, and no shininess.
    pub open spec fn spec_into(&self) -> crate::model::Material {
        match self.data {
            ShadingData::Lambert(lambert) => crate::model::Material {
                ambient: lambert.ambient,
                diffuse: lambert.diffuse,
                specular: lambert.emissive,
                shininess: Float::spec_zero(),
            },
        }
    }

    /// The material of the engine that stands for this one.
    pub fn into_material(&self) -> (r: crate::model::Material)
        ensures
            r == self.spec_into(),
    {
        match self.data {
            ShadingData::Lambert(lambert) => crate::model::Material {
                ambient: lambert.ambient,
                diffuse: lambert.diffuse,
                specular: lambert.emissive,
                shininess: Float::zero(),
            },
        }
    }
}

/// Mesh.
#[derive(Debug)]
pub struct Mesh {
    /// Name.
    pub name: Option<String>,
    /// Geometry mesh index.
    pub geometry_mesh_index: GeometryMeshIndex,
    /// Materials.
    pub materials: Vec<MaterialIndex>,
}

/// How a texture goes on beyond its edge.
#[derive(Clone, Copy, Debug, PartialEq, Eq, Structural)]
pub enum WrapMode {
    /// The texture is repeated.
    Repeat,
    /// The color of the edge is kept.
    ClampToEdge,
}

/// Texture.
#[derive(Debug)]
pub struct Texture {
    /// Name.
    pub name: Option<String>,
    /// The decoded image.
    pub image: ParsedTexture,
    /// Whether the texture is the transparent texture of its material.
    pub transparent: bool,
    /// Wrap mode for the u axis.
    pub wrap_mode_u: WrapMode,
    /// Wrap mode for the v axis.
    pub wrap_mode_v: WrapMode,
}

/// Mesh index.
#[derive(Clone, Copy, Debug, PartialEq, Eq, Structural, Hash)]
pub struct MeshIndex(pub u32);

impl MeshIndex {
    /// Creates a new index from `i`, which must not be larger than `u32::MAX`.
    pub fn new(i: usize) -> (r: MeshIndex)
        requires
            i <= u32::MAX,
        ensures
            r.0 == i,
    {
        MeshIndex(i as u32)
    }

    /// Returns `usize` value.
    pub fn to_usize(self) -> (r: usize)
        ensures
            r == self.0,
    {
        self.0 as usize
    }
}

/// Geometry mesh index.
#[derive(Clone, Copy, Debug, PartialEq, Eq, Structural, Hash)]
pub struct GeometryMeshIndex(pub u32);

impl GeometryMeshIndex {
    /// Creates a new index from `i`, which must not be larger than `u32::MAX`.
    pub fn new(i: usize) -> (r: GeometryMeshIndex)
        requires
            i <= u32::MAX,
        ensures
            r.0 == i,
    {
        GeometryMeshIndex(i as u32)
    }

    /// Returns `usize` value.
    pub fn to_usize(self) -> (r: usize)
        ensures
            r == self.0,
    {
        self.0 as usize
    }
}

/// Material index.
#[derive(Clone, Copy, Debug, PartialEq, Eq, Structural, Hash)]
pub struct MaterialIndex(pub u32);

impl MaterialIndex {
    /// Creates a new index from `i`, which must not be larger than `u32::MAX`.
    pub fn new(i: usize) -> (r: MaterialIndex)
        requires
            i <= u32::MAX,
        ensures
            r.0 == i,
    {
        MaterialIndex(i as u32)
    }

    /// Returns `usize` value.
    pub fn to_usize(self) -> (r: usize)
        ensures
            r == self.0,
    {
        self.0 as usize
    }
}

/// Texture index.
#[derive(Clone, Copy, Debug, PartialEq, Eq, Structural, Hash)]
pub struct TextureIndex(pub u32);

impl TextureIndex {
    /// Creates a new index from `i`, which must not be larger than `u32::MAX`.
    pub fn new(i: usize) -> (r: TextureIndex)
        requires
            i <= u32::MAX,
        ensures
            r.0 == i,
    {
        TextureIndex(i as u32)
    }

    /// Returns `usize` value.
    pub fn to_usize(self) -> (r: usize)
        ensures
            r == self.0,
    {
        self.0 as usize
    }
}

/// Scene.
#[derive(Debug)]
pub struct Scene {
    /// Scene name.
    pub name: Option<String>,
    /// Geometry mesh.
    pub geometry_meshes: Vec<GeometryMesh>,
    /// Materials.
    pub materials: Vec<Material>,
    /// Meshes.
    pub meshes: Vec<Mesh>,
    /// Textures.
    pub textures: Vec<Texture>,
}

impl Default for Scene {
    /// A scene without a name and without anything in it.
    fn default() -> (r: Scene)
        ensures
            r.name is None,
            r.geometry_meshes@.len() == 0,
            r.materials@.len() == 0,
            r.meshes@.len() == 0,
            r.textures@.len() == 0,
    {
        Scene {
            name: None,
            geometry_meshes: Vec::new(),
            materials: Vec::new(),
            meshes: Vec::new(),
            textures: Vec::new(),
        }
    }
}

impl Scene {
    /// Add a geometry mesh. The index that is handed back counts the
    /// meshes of the scene, not its geometry meshes: it is the place of
    /// the geometry mesh as long as every mesh brought one with it.
    pub fn add_geometry_mesh(&mut self, mesh: GeometryMesh) -> (index: GeometryMeshIndex)
        requires
            old(self).meshes@.len() <= u32::MAX,
        ensures
            index.0 == old(self).meshes@.len(),
            final(self).geometry_meshes@ == old(self).geometry_meshes@.push(mesh),
            final(self).name == old(self).name,
            final(self).materials == old(self).materials,
            final(self).meshes == old(self).meshes,
            final(self).textures == old(self).textures,
    {
        let index = GeometryMeshIndex::new(self.meshes.len());
        self.geometry_meshes.push(mesh);
        index
    }

    /// Returns a reference to the geometry mesh.
    pub fn geometry_mesh(&self, i: GeometryMeshIndex) -> (r: Option<&GeometryMesh>)
        ensures
            r == (if i.0 < self.geometry_meshes@.len() {
                Some(&self.geometry_meshes@[i.0 as int])
            } else {
                None
            }),
    {
        let at: usize = i.to_usize();
        if at < self.geometry_meshes.len() {
            Some(&self.geometry_meshes[at])
        } else {
            None
        }
    }

    /// Add a material.
    pub fn add_material(&mut self, material: Material) -> (index: MaterialIndex)
        requires
            old(self).materials@.len() <= u32::MAX,
        ensures
            index.0 == old(self).materials@.len(),
            final(self).materials@ == old(self).materials@.push(material),
            final(self).name == old(self).name,
            final(self).geometry_meshes == old(self).geometry_meshes,
            final(self).meshes == old(self).meshes,
            final(self).textures == old(self).textures,
    {
        let index = MaterialIndex::new(self.materials.len());
        self.materials.push(material);
        index
    }

    /// Returns a reference to the material.
    pub fn material(&self, i: MaterialIndex) -> (r: Option<&Material>)
        ensures
            r == (if i.0 < self.materials@.len() {
                Some(&self.materials@[i.0 as int])
            } else {
                None
            }),
    {
        let at: usize = i.to_usize();
        if at < self.materials.len() {
            Some(&self.materials[at])
        } else {
            None
        }
    }

    /// Add a mesh.
    pub fn add_mesh(&mut self, mesh: Mesh) -> (index: MeshIndex)
        requires
            old(self).meshes@.len() <= u32::MAX,
        ensures
            index.0 == old(self).meshes@.len(),
            final(self).meshes@ == old(self).meshes@.push(mesh),
            final(self).name == old(self).name,
            final(self).geometry_meshes == old(self).geometry_meshes,
            final(self).materials == old(self).materials,
            final(self).textures == old(self).textures,
    {
        let index = MeshIndex::new(self.meshes.len());
        self.meshes.push(mesh);
        index
    }

    /// Add a texture.
    pub fn add_texture(&mut self, texture: Texture) -> (index: TextureIndex)
        requires
            old(self).textures@.len() <= u32::MAX,
        ensures
            index.0 == old(self).textures@.len(),
            final(self).textures@ == old(self).textures@.push(texture),
            final(self).name == old(self).name,
            final(self).geometry_meshes == old(self).geometry_meshes,
            final(self).materials == old(self).materials,
            final(self).meshes == old(self).meshes,
    {
        let index = TextureIndex::new(self.textures.len());
        self.textures.push(texture);
        index
    }

    /// Returns a reference to the texture.
    pub fn texture(&self, i: TextureIndex) -> (r: Option<&Texture>)
        ensures
            r == (if i.0 < self.textures@.len() {
                Some(&self.textures@[i.0 as int])
            } else {
                None
            }),
    {
        let at: usize = i.to_usize();
        if at < self.textures.len() {
            Some(&self.textures[at])
        } else {
            None
        }
    }
}

} // verus!
