use super::data::{
    GeometryMesh, GeometryMeshIndex, LambertData, Material, MaterialIndex, Mesh, MeshIndex, Scene,
    ShadingData, Texture, TextureIndex, WrapMode,
};
use crate::error::FbxError;
use crate::math::{Vector2, Vector3};
use crate::model::loader::ParsedTexture;
use vstd::prelude::*;

verus! {

/// For each material, the triangle corners that are drawn with it, in
/// their order. `material_of` gives the material of each corner, or
/// `None` where the document does not say; a corner whose material is not
/// among the `count` materials of the mesh is left out.
pub open spec fn grouped(material_of: Seq<Option<u32>>, count: nat) -> Seq<Seq<u32>>
    decreases material_of.len(),
{
    if material_of.len() == 0 {
        Seq::new(count, |m: int| Seq::<u32>::empty())
    } else {
        let before = grouped(material_of.drop_last(), count);
        let corner = (material_of.len() - 1) as u32;
        match material_of.last() {
            Some(m) => if m < count {
                before.update(m as int, before[m as int].push(corner))
            } else {
                before
            },
            None => before,
        }
    }
}

/// Grouping the corners of a mesh gives one list for each material.
pub proof fn lemma_grouped_len(material_of: Seq<Option<u32>>, count: nat)
    ensures
        grouped(material_of, count).len() == count,
    decreases material_of.len(),
{
    if material_of.len() > 0 {
        lemma_grouped_len(material_of.drop_last(), count);
    }
}

/// For each of `num_materials` materials, the triangle corners that are
/// drawn with it.
pub fn indices_per_material(material_of: &Vec<Option<u32>>, num_materials: usize) -> (r: Vec<
    Vec<u32>,
>)
    requires
        material_of@.len() <= u32::MAX,
    ensures
        r@.len() == num_materials,
        forall|m: int|
            0 <= m < num_materials ==> (#[trigger] r@[m])@ == grouped(
                material_of@,
                num_materials as nat,
            )[m],
{
    let mut indices: Vec<Vec<u32>> = Vec::new();
    let mut m: usize = 0;
    while m < num_materials
        invariant
            m <= num_materials,
            indices@.len() == m,
            forall|k: int| 0 <= k < m ==> (#[trigger] indices@[k])@ == Seq::<u32>::empty(),
        decreases num_materials - m,
    {
        indices.push(Vec::new());
        m += 1;
    }
    let n: usize = material_of.len();
    let mut t: usize = 0;
    proof {
        assert(material_of@.subrange(0, 0) =~= Seq::<Option<u32>>::empty());
    }
    while t < n
        invariant
            n == material_of@.len(),
            n <= u32::MAX,
            t <= n,
            indices@.len() == num_materials,
            forall|k: int|
                0 <= k < num_materials ==> (#[trigger] indices@[k])@ == grouped(
                    material_of@.subrange(0, t as int),
                    num_materials as nat,
                )[k],
        decreases n - t,
    {
        proof {
            assert(material_of@.subrange(0, t + 1).drop_last() =~= material_of@.subrange(
                0,
                t as int,
            ));
            lemma_grouped_len(material_of@.subrange(0, t as int), num_materials as nat);
        }
        if let Some(material) = material_of[t] {
            if (material as usize) < num_materials {
                indices[material as usize].push(t as u32);
            }
        }
        t += 1;
    }
    proof {
        assert(material_of@.subrange(0, n as int) =~= material_of@);
    }
    indices
}

/// What the document says of a texture.
#[derive(Debug)]
pub struct TextureSource {
    /// Name.
    pub name: Option<String>,
    /// Wrap mode for the u axis, where it could be read.
    pub wrap_mode_u: Option<WrapMode>,
    /// Wrap mode for the v axis, where it could be read.
    pub wrap_mode_v: Option<WrapMode>,
    /// What came of decoding the image of the texture; `None` where the
    /// texture has no image data.
    pub image: Option<Result<ParsedTexture, FbxError>>,
}

/// What the document says of a material.
#[derive(Debug)]
pub struct MaterialSource {
    /// Name.
    pub name: Option<String>,
    /// The transparent texture of the material, if it has one.
    pub transparent_texture: Option<TextureSource>,
    /// The diffuse texture of the material, if it has one.
    pub diffuse_texture: Option<TextureSource>,
    /// The colors of the material; `None` where its shading model is
    /// neither Lambert nor Phong.
    pub shading: Option<LambertData>,
}

/// What the document says of the geometry of a mesh, with its polygons cut
/// into triangles.
#[derive(Debug)]
pub struct GeometrySource {
    /// Name.
    pub name: Option<String>,
    /// The position of each triangle corner.
    pub positions: Vec<Vector3>,
    /// The normal at each triangle corner.
    pub normals: Vec<Vector3>,
    /// The texture coordinate of each triangle corner.
    pub uv: Vec<Vector2>,
    /// The material of each triangle corner, or `None` where it could not be read.
    pub material_of: Vec<Option<u32>>,
}

/// What the document says of a mesh.
#[derive(Debug)]
pub struct MeshSource {
    /// Name.
    pub name: Option<String>,
    /// The geometry of the mesh: `None` where the mesh has none, and an
    /// error where it could not be read.
    pub geometry: Option<Result<GeometrySource, FbxError>>,
    /// The materials of the mesh.
    pub materials: Vec<MaterialSource>,
}

/// The texture that a source describes, or why there is none.
pub open spec fn texture_of(source: TextureSource, transparent: bool) -> Result<Texture, FbxError> {
    if source.wrap_mode_u is None || source.wrap_mode_v is None {
        Err(FbxError::CouldNotWrapUVAxis)
    } else {
        match source.image {
            None => Err(FbxError::MissingImageData),
            Some(Err(error)) => Err(FbxError::CouldNotLoadVideo(Box::new(error))),
            Some(Ok(image)) => Ok(
                Texture {
                    name: source.name,
                    image,
                    transparent,
                    wrap_mode_u: source.wrap_mode_u->0,
                    wrap_mode_v: source.wrap_mode_v->0,
                },
            ),
        }
    }
}

/// The texture that a material is drawn with: its transparent texture, or
/// else its diffuse texture, if it can be loaded.
pub open spec fn texture_of_material(source: MaterialSource) -> Option<Texture> {
    match source.transparent_texture {
        Some(texture) => match texture_of(texture, true) {
            Ok(texture) => Some(texture),
            Err(_) => None,
        },
        None => match source.diffuse_texture {
            Some(texture) => match texture_of(texture, false) {
                Ok(texture) => Some(texture),
                Err(_) => None,
            },
            None => None,
        },
    }
}

/// Why the geometry of a mesh cannot be used, if it cannot: its positions,
/// normals and texture coordinates have to be equally many.
pub open spec fn geometry_fault(source: GeometrySource) -> Option<FbxError> {
    if source.positions@.len() != source.normals@.len() || source.positions@.len()
        != source.uv@.len() {
        Some(
            FbxError::InvalidModelComponentCount {
                positions: source.positions@.len() as usize,
                normals: source.normals@.len() as usize,
                uv: source.uv@.len() as usize,
            },
        )
    } else {
        None
    }
}

/// Whether `mesh` is the geometry mesh that `source` describes, for a mesh
/// of `num_materials` materials.
pub open spec fn is_geometry_of(mesh: GeometryMesh, source: GeometrySource, num_materials: nat) -> bool {
    &&& mesh.name == source.name
    &&& mesh.positions == source.positions
    &&& mesh.normals == source.normals
    &&& mesh.uv == source.uv
    &&& mesh.indices_per_material@.len() == num_materials
    &&& forall|m: int|
        0 <= m < num_materials ==> (#[trigger] mesh.indices_per_material@[m])@ == grouped(
            source.material_of@,
            num_materials,
        )[m]
}

/// Builds a scene from what a document says of its meshes.
#[derive(Debug)]
pub struct Loader {
    /// Scene.
    pub scene: Scene,
}

impl Loader {
    /// Creates a new `Loader` with an empty scene.
    pub fn new() -> (r: Loader)
        ensures
            r.scene.name is None,
            r.scene.geometry_meshes@.len() == 0,
            r.scene.materials@.len() == 0,
            r.scene.meshes@.len() == 0,
            r.scene.textures@.len() == 0,
    {
        Loader { scene: Scene::default() }
    }

    /// Loads the texture: it joins the textures of the scene, unless the
    /// source lacks a wrap mode or an image.
    pub fn load_texture(&mut self, source: TextureSource, transparent: bool) -> (r: Result<
        TextureIndex,
        FbxError,
    >)
        requires
            old(self).scene.textures@.len() <= u32::MAX,
        ensures
            final(self).scene.name == old(self).scene.name,
            final(self).scene.geometry_meshes == old(self).scene.geometry_meshes,
            final(self).scene.materials == old(self).scene.materials,
            final(self).scene.meshes == old(self).scene.meshes,
            match texture_of(source, transparent) {
                Ok(texture) => {
                    &&& r == Ok::<TextureIndex, FbxError>(
                        TextureIndex(old(self).scene.textures@.len() as u32),
                    )
                    &&& final(self).scene.textures@ == old(self).scene.textures@.push(texture)
                },
                Err(error) => {
                    &&& r == Err::<TextureIndex, FbxError>(error)
                    &&& final(self).scene.textures == old(self).scene.textures
                },
            },
    {
        let TextureSource { name, wrap_mode_u, wrap_mode_v, image } = source;
        let wrap_mode_u = match wrap_mode_u {
            Some(mode) => mode,
            None => {
                return Err(FbxError::CouldNotWrapUVAxis);
            },
        };
        let wrap_mode_v = match wrap_mode_v {
            Some(mode) => mode,
            None => {
                return Err(FbxError::CouldNotWrapUVAxis);
            },
        };
        let image = match image {
            Some(Ok(image)) => image,
            Some(Err(error)) => {
                return Err(FbxError::CouldNotLoadVideo(Box::new(error)));
            },
            None => {
                return Err(FbxError::MissingImageData);
            },
        };
        let texture = Texture { name, image, transparent, wrap_mode_u, wrap_mode_v };
        Ok(self.scene.add_texture(texture))
    }

    /// Loads the material, and before it the texture that it is drawn
    /// with. A texture that cannot be loaded is left out; a material whose
    /// shading model is unknown fails.
    pub fn load_material(&mut self, source: MaterialSource) -> (r: Result<MaterialIndex, FbxError>)
        requires
            old(self).scene.textures@.len() <= u32::MAX,
            old(self).scene.materials@.len() <= u32::MAX,
        ensures
            final(self).scene.name == old(self).scene.name,
            final(self).scene.geometry_meshes == old(self).scene.geometry_meshes,
            final(self).scene.meshes == old(self).scene.meshes,
            final(self).scene.textures@ == (match texture_of_material(source) {
                Some(texture) => old(self).scene.textures@.push(texture),
                None => old(self).scene.textures@,
            }),
            match source.shading {
                Some(lambert) => {
                    &&& r == Ok::<MaterialIndex, FbxError>(
                        MaterialIndex(old(self).scene.materials@.len() as u32),
                    )
                    &&& final(self).scene.materials@ == old(self).scene.materials@.push(
                        Material {
                            name: source.name,
                            diffuse_texture: match texture_of_material(source) {
                                Some(_) => Some(
                                    TextureIndex(old(self).scene.textures@.len() as u32),
                                ),
                                None => None,
                            },
                            data: ShadingData::Lambert(lambert),
                        },
                    )
                },
                None => {
                    &&& r == Err::<MaterialIndex, FbxError>(FbxError::UnknownShadingModel)
                    &&& final(self).scene.materials == old(self).scene.materials
                },
            },
    {
        let MaterialSource { name, transparent_texture, diffuse_texture, shading } = source;
        let chosen = match transparent_texture {
            Some(texture) => Some((true, texture)),
            None => match diffuse_texture {
                Some(texture) => Some((false, texture)),
                None => None,
            },
        };
        let diffuse_texture = match chosen {
            Some((transparent, texture)) => match self.load_texture(texture, transparent) {
                Ok(index) => Some(index),
                Err(_) => None,
            },
            None => None,
        };
        let shading_data = match shading {
            Some(lambert) => ShadingData::Lambert(lambert),
            None => {
                return Err(FbxError::UnknownShadingModel);
            },
        };
        let material = Material { name, diffuse_texture, data: shading_data };
        Ok(self.scene.add_material(material))
    }

    /// Loads the geometry of a mesh of `num_materials` materials: it joins
    /// the geometry meshes of the scene, unless its positions, normals and
    /// texture coordinates are not equally many.
    pub fn load_geometry_mesh(&mut self, source: GeometrySource, num_materials: usize) -> (r: Result<
        GeometryMeshIndex,
        FbxError,
    >)
        requires
            old(self).scene.meshes@.len() <= u32::MAX,
            source.material_of@.len() <= u32::MAX,
        ensures
            final(self).scene.name == old(self).scene.name,
            final(self).scene.materials == old(self).scene.materials,
            final(self).scene.meshes == old(self).scene.meshes,
            final(self).scene.textures == old(self).scene.textures,
            match geometry_fault(source) {
                Some(error) => {
                    &&& r == Err::<GeometryMeshIndex, FbxError>(error)
                    &&& final(self).scene.geometry_meshes == old(self).scene.geometry_meshes
                },
                None => {
                    &&& r == Ok::<GeometryMeshIndex, FbxError>(
                        GeometryMeshIndex(old(self).scene.meshes@.len() as u32),
                    )
                    &&& final(self).scene.geometry_meshes@.len() == old(
                        self,
                    ).scene.geometry_meshes@.len() + 1
                    &&& final(self).scene.geometry_meshes@.drop_last() == old(
                        self,
                    ).scene.geometry_meshes@
                    &&& is_geometry_of(
                        final(self).scene.geometry_meshes@.last(),
                        source,
                        num_materials as nat,
                    )
                },
            },
    {
        let indices = indices_per_material(&source.material_of, num_materials);
        let GeometrySource { name, positions, normals, uv, material_of } = source;
        if positions.len() != normals.len() || positions.len() != uv.len() {
            return Err(
                FbxError::InvalidModelComponentCount {
                    positions: positions.len(),
                    normals: normals.len(),
                    uv: uv.len(),
                },
            );
        }
        let mesh = GeometryMesh { name, positions, normals, uv, indices_per_material: indices };
        let index = self.scene.add_geometry_mesh(mesh);
        proof {
            assert(self.scene.geometry_meshes@.drop_last() =~= old(self).scene.geometry_meshes@);
        }
        Ok(index)
    }
}

/// The same items in the opposite order.
fn reversed<T>(items: Vec<T>) -> (r: Vec<T>)
    ensures
        r@ == items@.reverse(),
{
    let mut items = items;
    let ghost all = items@;
    let mut r: Vec<T> = Vec::new();
    while items.len() > 0
        invariant
            items@ == all.subrange(0, items@.len() as int),
            items@.len() <= all.len(),
            r@.len() == all.len() - items@.len(),
            forall|k: int| 0 <= k < r@.len() ==> r@[k] == all[all.len() - 1 - k],
        decreases items@.len(),
    {
        let item = items.pop().unwrap();
        r.push(item);
        assert(items@ =~= all.subrange(0, items@.len() as int));
    }
    assert(r@ =~= all.reverse());
    r
}

/// The materials and the textures that loading `sources` adds to a scene
/// that holds `first_texture` textures already, given that the shading
/// model of each is known: one material for each source, and before it its
/// texture if it has one that can be loaded.
pub open spec fn loaded(first_texture: nat, sources: Seq<MaterialSource>) -> (Seq<Material>, Seq<Texture>)
    decreases sources.len(),
{
    if sources.len() == 0 {
        (Seq::empty(), Seq::empty())
    } else {
        let before = loaded(first_texture, sources.drop_last());
        let source = sources.last();
        match texture_of_material(source) {
            Some(texture) => (
                before.0.push(
                    Material {
                        name: source.name,
                        diffuse_texture: Some(TextureIndex((first_texture + before.1.len()) as u32)),
                        data: ShadingData::Lambert(source.shading->0),
                    },
                ),
                before.1.push(texture),
            ),
            None => (
                before.0.push(
                    Material {
                        name: source.name,
                        diffuse_texture: None,
                        data: ShadingData::Lambert(source.shading->0),
                    },
                ),
                before.1,
            ),
        }
    }
}

/// Loading materials adds one material for each, and at most one texture.
pub proof fn lemma_loaded_len(first_texture: nat, sources: Seq<MaterialSource>)
    ensures
        loaded(first_texture, sources).0.len() == sources.len(),
        loaded(first_texture, sources).1.len() <= sources.len(),
    decreases sources.len(),
{
    if sources.len() > 0 {
        lemma_loaded_len(first_texture, sources.drop_last());
    }
}

/// Whether the shading model of every material is known.
pub open spec fn all_shaded(materials: Seq<MaterialSource>) -> bool {
    forall|i: int| 0 <= i < materials.len() ==> (#[trigger] materials[i]).shading is Some
}

/// Why a mesh cannot be loaded, if it cannot. A mesh needs a geometry;
/// then its materials are loaded, and after them its geometry.
pub open spec fn mesh_fault(source: MeshSource) -> Option<FbxError> {
    match source.geometry {
        None => Some(FbxError::CouldNotLoadGeometry),
        Some(geometry) => if !all_shaded(source.materials@) {
            Some(FbxError::CouldNotLoadMaterials(Box::new(FbxError::UnknownShadingModel)))
        } else {
            match geometry {
                Err(error) => Some(FbxError::CouldNotLoadGeometryMesh(Box::new(error))),
                Ok(geometry) => match geometry_fault(geometry) {
                    Some(error) => Some(FbxError::CouldNotLoadGeometryMesh(Box::new(error))),
                    None => None,
                },
            }
        },
    }
}

/// Whether the document's account of a mesh is small enough to be loaded
/// into a scene that holds `scene` already: the places of meshes,
/// materials, textures and triangle corners are kept in 32 bits.
pub open spec fn fits(scene: Scene, source: MeshSource) -> bool {
    &&& scene.meshes@.len() < u32::MAX
    &&& scene.materials@.len() + source.materials@.len() <= u32::MAX
    &&& scene.textures@.len() + source.materials@.len() <= u32::MAX
    &&& source.geometry matches Some(Ok(geometry)) ==> geometry.material_of@.len() <= u32::MAX
}

impl Loader {
    /// Loads the mesh: its materials, its geometry and the mesh itself
    /// join the scene.
    pub fn load_mesh(&mut self, source: MeshSource) -> (r: Result<MeshIndex, FbxError>)
        requires
            fits(old(self).scene, source),
        ensures
            final(self).scene.name == old(self).scene.name,
            final(self).scene.textures@.len() <= old(self).scene.textures@.len()
                + source.materials@.len(),
            final(self).scene.materials@.len() <= old(self).scene.materials@.len()
                + source.materials@.len(),
            match mesh_fault(source) {
                Some(error) => {
                    &&& r == Err::<MeshIndex, FbxError>(error)
                    &&& final(self).scene.meshes == old(self).scene.meshes
                },
                None => {
                    &&& r == Ok::<MeshIndex, FbxError>(
                        MeshIndex(old(self).scene.meshes@.len() as u32),
                    )
                    &&& final(self).scene.materials@ == old(self).scene.materials@ + loaded(
                        old(self).scene.textures@.len(),
                        source.materials@,
                    ).0
                    &&& final(self).scene.textures@ == old(self).scene.textures@ + loaded(
                        old(self).scene.textures@.len(),
                        source.materials@,
                    ).1
                    &&& final(self).scene.geometry_meshes@.len() == old(
                        self,
                    ).scene.geometry_meshes@.len() + 1
                    &&& final(self).scene.geometry_meshes@.drop_last() == old(
                        self,
                    ).scene.geometry_meshes@
                    &&& is_geometry_of(
                        final(self).scene.geometry_meshes@.last(),
                        source.geometry->0->Ok_0,
                        source.materials@.len(),
                    )
                    &&& final(self).scene.meshes@.len() == old(self).scene.meshes@.len() + 1
                    &&& final(self).scene.meshes@.drop_last() == old(self).scene.meshes@
                    &&& final(self).scene.meshes@.last().name == source.name
                    &&& final(self).scene.meshes@.last().geometry_mesh_index == GeometryMeshIndex(
                        old(self).scene.meshes@.len() as u32,
                    )
                    &&& final(self).scene.meshes@.last().materials@ == Seq::new(
                        source.materials@.len(),
                        |k: int| MaterialIndex((old(self).scene.materials@.len() + k) as u32),
                    )
                },
            },
    {
        let MeshSource { name, geometry, materials } = source;
        let geometry = match geometry {
            Some(geometry) => geometry,
            None => {
                return Err(FbxError::CouldNotLoadGeometry);
            },
        };
        let n: usize = materials.len();
        let ghost all = materials@;
        let ghost first_material = self.scene.materials@.len();
        let ghost first_texture = self.scene.textures@.len();
        let mut pending = reversed(materials);
        let mut indices: Vec<MaterialIndex> = Vec::new();
        let mut i: usize = 0;
        proof {
            assert(all.subrange(0, 0) =~= Seq::<MaterialSource>::empty());
            assert(self.scene.materials@ =~= old(self).scene.materials@ + Seq::<Material>::empty());
            assert(self.scene.textures@ =~= old(self).scene.textures@ + Seq::<Texture>::empty());
        }
        while i < n
            invariant
                n == all.len(),
                i <= n,
                all == source.materials@,
                source.geometry is Some,
                first_material == old(self).scene.materials@.len(),
                first_texture == old(self).scene.textures@.len(),
                pending@ == all.reverse().subrange(0, n - i),
                first_material + n <= u32::MAX,
                first_texture + n <= u32::MAX,
                self.scene.materials@.len() == first_material + i,
                self.scene.textures@.len() <= first_texture + i,
                self.scene.materials@ == old(self).scene.materials@ + loaded(
                    first_texture,
                    all.subrange(0, i as int),
                ).0,
                self.scene.textures@ == old(self).scene.textures@ + loaded(
                    first_texture,
                    all.subrange(0, i as int),
                ).1,
                self.scene.name == old(self).scene.name,
                self.scene.meshes == old(self).scene.meshes,
                self.scene.geometry_meshes == old(self).scene.geometry_meshes,
                forall|k: int| 0 <= k < i ==> (#[trigger] all[k]).shading is Some,
                indices@ == Seq::new(i as nat, |k: int| MaterialIndex((first_material + k) as u32)),
            decreases n - i,
        {
            let material = pending.pop().unwrap();
            assert(material == all[i as int]);
            let ghost materials_before = self.scene.materials@;
            let ghost textures_before = self.scene.textures@;
            proof {
                assert(all.subrange(0, i + 1).drop_last() =~= all.subrange(0, i as int));
                assert(all.subrange(0, i + 1).last() == all[i as int]);
                lemma_loaded_len(first_texture, all.subrange(0, i as int));
            }
            match self.load_material(material) {
                Ok(index) => {
                    indices.push(index);
                },
                Err(error) => {
                    assert(!all_shaded(all));
                    return Err(FbxError::CouldNotLoadMaterials(Box::new(error)));
                },
            }
            i += 1;
            proof {
                assert(pending@ =~= all.reverse().subrange(0, n - i));
                assert(indices@ =~= Seq::new(
                    i as nat,
                    |k: int| MaterialIndex((first_material + k) as u32),
                ));
                let before = loaded(first_texture, all.subrange(0, i - 1));
                let after = loaded(first_texture, all.subrange(0, i as int));
                assert(textures_before.len() == first_texture + before.1.len());
                assert(self.scene.materials@ =~= old(self).scene.materials@ + after.0);
                assert(self.scene.textures@ =~= old(self).scene.textures@ + after.1);
            }
        }
        assert(all_shaded(all));
        proof {
            assert(all.subrange(0, n as int) =~= all);
        }
        let geometry = match geometry {
            Ok(geometry) => geometry,
            Err(error) => {
                return Err(FbxError::CouldNotLoadGeometryMesh(Box::new(error)));
            },
        };
        let geometry_index = match self.load_geometry_mesh(geometry, indices.len()) {
            Ok(index) => index,
            Err(error) => {
                return Err(FbxError::CouldNotLoadGeometryMesh(Box::new(error)));
            },
        };
        let mesh = Mesh { name, geometry_mesh_index: geometry_index, materials: indices };
        let index = self.scene.add_mesh(mesh);
        proof {
            assert(self.scene.meshes@.drop_last() =~= old(self).scene.meshes@);
        }
        Ok(index)
    }
}

/// How many materials the meshes have, all together.
pub open spec fn material_count(meshes: Seq<MeshSource>) -> nat
    decreases meshes.len(),
{
    if meshes.len() == 0 {
        0
    } else {
        material_count(meshes.drop_last()) + meshes.last().materials@.len()
    }
}

/// The materials and the textures of the scene that a document becomes,
/// given that each of its meshes can be loaded: those of its meshes, mesh
/// by mesh.
pub open spec fn loaded_all(meshes: Seq<MeshSource>) -> (Seq<Material>, Seq<Texture>)
    decreases meshes.len(),
{
    if meshes.len() == 0 {
        (Seq::empty(), Seq::empty())
    } else {
        let before = loaded_all(meshes.drop_last());
        let added = loaded(before.1.len(), meshes.last().materials@);
        (before.0 + added.0, before.1 + added.1)
    }
}

/// Whether the document's account of its meshes is small enough to be
/// loaded: the places of meshes, materials, textures and triangle corners
/// are kept in 32 bits.
pub open spec fn fit(meshes: Seq<MeshSource>) -> bool {
    &&& meshes.len() <= u32::MAX
    &&& material_count(meshes) <= u32::MAX
    &&& forall|i: int|
        0 <= i < meshes.len() ==> ((#[trigger] meshes[i]).geometry matches Some(Ok(geometry))
            ==> geometry.material_of@.len() <= u32::MAX)
}

/// The first meshes of a document have no more materials than all of them.
pub proof fn lemma_material_count(meshes: Seq<MeshSource>, i: int)
    requires
        0 <= i <= meshes.len(),
    ensures
        material_count(meshes.subrange(0, i)) <= material_count(meshes),
        i < meshes.len() ==> material_count(meshes.subrange(0, i + 1)) == material_count(
            meshes.subrange(0, i),
        ) + meshes[i].materials@.len(),
    decreases meshes.len() - i,
{
    if i < meshes.len() {
        assert(meshes.subrange(0, i + 1).drop_last() =~= meshes.subrange(0, i));
        lemma_material_count(meshes, i + 1);
    } else {
        assert(meshes.subrange(0, i) =~= meshes);
    }
}

impl Loader {
    /// Loads the meshes of a document into an empty scene, one after
    /// another, and hands the scene back. The first mesh that cannot be
    /// loaded ends the loading with its fault.
    pub fn load(self, meshes: Vec<MeshSource>) -> (r: Result<Scene, FbxError>)
        requires
            self.scene.meshes@.len() == 0,
            self.scene.materials@.len() == 0,
            self.scene.textures@.len() == 0,
            self.scene.geometry_meshes@.len() == 0,
            fit(meshes@),
        ensures
            match r {
                Ok(scene) => {
                    &&& forall|i: int|
                        0 <= i < meshes@.len() ==> mesh_fault(#[trigger] meshes@[i]) is None
                    &&& scene.name == self.scene.name
                    &&& scene.meshes@.len() == meshes@.len()
                    &&& scene.geometry_meshes@.len() == meshes@.len()
                    &&& scene.materials@ == loaded_all(meshes@).0
                    &&& scene.textures@ == loaded_all(meshes@).1
                    &&& scene.materials@.len() == material_count(meshes@)
                    &&& forall|i: int|
                        0 <= i < meshes@.len() ==> {
                            &&& (#[trigger] scene.meshes@[i]).name == meshes@[i].name
                            &&& scene.meshes@[i].geometry_mesh_index == GeometryMeshIndex(i as u32)
                            &&& scene.meshes@[i].materials@ == Seq::new(
                                meshes@[i].materials@.len(),
                                |k: int|
                                    MaterialIndex(
                                        (material_count(meshes@.subrange(0, i)) + k) as u32,
                                    ),
                            )
                            &&& is_geometry_of(
                                scene.geometry_meshes@[i],
                                meshes@[i].geometry->0->Ok_0,
                                meshes@[i].materials@.len(),
                            )
                        }
                },
                Err(error) => exists|i: int|
                    {
                        &&& 0 <= i < meshes@.len()
                        &&& mesh_fault(#[trigger] meshes@[i]) == Some(error)
                        &&& forall|k: int| 0 <= k < i ==> mesh_fault(#[trigger] meshes@[k]) is None
                    },
            },
    {
        let mut loader = self;
        let n: usize = meshes.len();
        let ghost all = meshes@;
        let mut pending = reversed(meshes);
        let mut i: usize = 0;
        proof {
            assert(all.subrange(0, 0) =~= Seq::<MeshSource>::empty());
        }
        while i < n
            invariant
                n == all.len(),
                i <= n,
                all == meshes@,
                fit(all),
                pending@ == all.reverse().subrange(0, n - i),
                loader.scene.name == self.scene.name,
                loader.scene.meshes@.len() == i,
                loader.scene.geometry_meshes@.len() == i,
                loader.scene.materials@.len() == material_count(all.subrange(0, i as int)),
                loader.scene.textures@.len() <= material_count(all.subrange(0, i as int)),
                loader.scene.materials@ == loaded_all(all.subrange(0, i as int)).0,
                loader.scene.textures@ == loaded_all(all.subrange(0, i as int)).1,
                forall|k: int| 0 <= k < i ==> mesh_fault(#[trigger] all[k]) is None,
                forall|k: int|
                    0 <= k < i ==> {
                        &&& (#[trigger] loader.scene.meshes@[k]).name == all[k].name
                        &&& loader.scene.meshes@[k].geometry_mesh_index == GeometryMeshIndex(
                            k as u32,
                        )
                        &&& loader.scene.meshes@[k].materials@ == Seq::new(
                            all[k].materials@.len(),
                            |j: int| MaterialIndex((material_count(all.subrange(0, k)) + j) as u32),
                        )
                        &&& is_geometry_of(
                            loader.scene.geometry_meshes@[k],
                            all[k].geometry->0->Ok_0,
                            all[k].materials@.len(),
                        )
                    },
            decreases n - i,
        {
            let mesh = pending.pop().unwrap();
            assert(mesh == all[i as int]);
            proof {
                lemma_material_count(all, i as int);
                lemma_material_count(all, i + 1);
            }
            let ghost before = loader.scene;
            match loader.load_mesh(mesh) {
                Ok(_) => {},
                Err(error) => {
                    assert(mesh_fault(all[i as int]) == Some(error));
                    return Err(error);
                },
            }
            proof {
                assert(pending@ =~= all.reverse().subrange(0, n - i - 1));
                lemma_loaded_len(before.textures@.len(), all[i as int].materials@);
                assert(all.subrange(0, i + 1).drop_last() =~= all.subrange(0, i as int));
                assert(loader.scene.materials@ =~= loaded_all(all.subrange(0, i + 1)).0);
                assert(loader.scene.textures@ =~= loaded_all(all.subrange(0, i + 1)).1);
                assert forall|k: int| 0 <= k < i + 1 implies {
                    &&& (#[trigger] loader.scene.meshes@[k]).name == all[k].name
                    &&& loader.scene.meshes@[k].geometry_mesh_index == GeometryMeshIndex(k as u32)
                    &&& loader.scene.meshes@[k].materials@ == Seq::new(
                        all[k].materials@.len(),
                        |j: int| MaterialIndex((material_count(all.subrange(0, k)) + j) as u32),
                    )
                    &&& is_geometry_of(
                        loader.scene.geometry_meshes@[k],
                        all[k].geometry->0->Ok_0,
                        all[k].materials@.len(),
                    )
                } by {
                    if k < i {
                        assert(loader.scene.meshes@[k] == loader.scene.meshes@.drop_last()[k]);
                        assert(loader.scene.geometry_meshes@[k]
                            == loader.scene.geometry_meshes@.drop_last()[k]);
                    }
                }
            }
            i += 1;
        }
        proof {
            assert(all.subrange(0, n as int) =~= all);
        }
        Ok(loader.scene)
    }
}

/// Loads the data of a document, given what the document says of its meshes.
pub fn from_doc(meshes: Vec<MeshSource>) -> (r: Result<Scene, FbxError>)
    requires
        fit(meshes@),
    ensures
        match r {
            Ok(scene) => {
                &&& forall|i: int|
                    0 <= i < meshes@.len() ==> mesh_fault(#[trigger] meshes@[i]) is None
                &&& scene.name is None
                &&& scene.meshes@.len() == meshes@.len()
                &&& scene.geometry_meshes@.len() == meshes@.len()
                &&& scene.materials@ == loaded_all(meshes@).0
                &&& scene.textures@ == loaded_all(meshes@).1
                &&& scene.materials@.len() == material_count(meshes@)
                &&& forall|i: int|
                    0 <= i < meshes@.len() ==> {
                        &&& (#[trigger] scene.meshes@[i]).name == meshes@[i].name
                        &&& scene.meshes@[i].geometry_mesh_index == GeometryMeshIndex(i as u32)
                        &&& scene.meshes@[i].materials@ == Seq::new(
                            meshes@[i].materials@.len(),
                            |k: int|
                                MaterialIndex((material_count(meshes@.subrange(0, i)) + k) as u32),
                        )
                        &&& is_geometry_of(
                            scene.geometry_meshes@[i],
                            meshes@[i].geometry->0->Ok_0,
                            meshes@[i].materials@.len(),
                        )
                    }
            },
            Err(error) => exists|i: int|
                {
                    &&& 0 <= i < meshes@.len()
                    &&& mesh_fault(#[trigger] meshes@[i]) == Some(error)
                    &&& forall|k: int| 0 <= k < i ==> mesh_fault(#[trigger] meshes@[k]) is None
                },
        },
{
    Loader::new().load(meshes)
}

} // verus!
