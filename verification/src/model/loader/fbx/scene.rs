use super::data::{GeometryMesh, Mesh, Scene};
use crate::model::loader::{ParsedModel, ParsedModelPart, ParsedTexture};
use crate::model::{Material, Vertex};
use vstd::prelude::*;

verus! {

/// What a parsed part holds, with its lists as sequences.
pub struct ParsedPartView {
    pub vertices: Option<Seq<Vertex>>,
    pub index: Seq<u32>,
    pub material: Option<Material>,
    /// The width, the height and the bytes of the texture.
    pub texture: Option<(u32, u32, Seq<u8>)>,
}

/// What `part` holds.
pub open spec fn part_view(part: ParsedModelPart) -> ParsedPartView {
    ParsedPartView {
        vertices: match part.vertices {
            Some(vertices) => Some(vertices@),
            None => None,
        },
        index: part.index@,
        material: part.material,
        texture: match part.texture {
            Some(texture) => Some((texture.width, texture.height, texture.rgba_data@)),
            None => None,
        },
    }
}

/// The smallest of three numbers.
pub open spec fn min3(a: int, b: int, c: int) -> int {
    if a <= b && a <= c {
        a
    } else if b <= c {
        b
    } else {
        c
    }
}

/// The vertices of a geometry mesh: the first position with the first
/// normal and the first texture coordinate, and so on, as far as all three
/// lists reach.
pub open spec fn vertices_of(geometry: GeometryMesh) -> Seq<Vertex> {
    Seq::new(
        min3(
            geometry.positions@.len() as int,
            geometry.normals@.len() as int,
            geometry.uv@.len() as int,
        ) as nat,
        |j: int|
            Vertex {
                position: geometry.positions@[j],
                normal: geometry.normals@[j],
                tex_coord: geometry.uv@[j],
            },
    )
}

/// Whether the meshes of a scene refer to what the scene holds: each to
/// one of its geometry meshes, with a material for each list of indices.
pub open spec fn linked(scene: Scene) -> bool {
    forall|k: int|
        0 <= k < scene.meshes@.len() ==> {
            &&& (#[trigger] scene.meshes@[k]).geometry_mesh_index.0 < scene.geometry_meshes@.len()
            &&& scene.geometry_meshes@[scene.meshes@[k].geometry_mesh_index.0 as int].indices_per_material@.len()
                <= scene.meshes@[k].materials@.len()
        }
}

/// The part of a model that is drawn with the material `i` of `mesh`: all
/// the vertices of the mesh, the indices of the triangle corners that have
/// this material, the material itself and its texture, as far as the scene
/// holds them.
pub open spec fn part_of(scene: Scene, mesh: Mesh, i: int) -> ParsedPartView {
    let geometry = scene.geometry_meshes@[mesh.geometry_mesh_index.0 as int];
    let material = if mesh.materials@[i].0 < scene.materials@.len() {
        Some(scene.materials@[mesh.materials@[i].0 as int])
    } else {
        None
    };
    let texture = match material {
        Some(material) => match material.diffuse_texture {
            Some(index) => if index.0 < scene.textures@.len() {
                Some(scene.textures@[index.0 as int])
            } else {
                None
            },
            None => None,
        },
        None => None,
    };
    ParsedPartView {
        vertices: Some(vertices_of(geometry)),
        index: geometry.indices_per_material@[i]@,
        material: match material {
            Some(material) => Some(material.spec_into()),
            None => None,
        },
        texture: match texture {
            Some(texture) => Some(
                (texture.image.width, texture.image.height, texture.image.rgba_data@),
            ),
            None => None,
        },
    }
}

/// The parts of a model that `mesh` gives: one for each of the lists of
/// indices of its geometry.
pub open spec fn parts_of_mesh(scene: Scene, mesh: Mesh) -> Seq<ParsedPartView> {
    Seq::new(
        scene.geometry_meshes@[mesh.geometry_mesh_index.0 as int].indices_per_material@.len(),
        |i: int| part_of(scene, mesh, i),
    )
}

/// The parts of a model that the first `count` meshes of a scene give,
/// mesh by mesh.
pub open spec fn parts_of(scene: Scene, count: int) -> Seq<ParsedPartView>
    decreases count,
{
    if count <= 0 {
        Seq::empty()
    } else {
        parts_of(scene, count - 1) + parts_of_mesh(scene, scene.meshes@[count - 1])
    }
}

/// A second list of the same items.
fn copied<T: Copy>(items: &Vec<T>) -> (r: Vec<T>)
    ensures
        r@ == items@,
{
    let mut r: Vec<T> = Vec::new();
    let n: usize = items.len();
    let mut i: usize = 0;
    while i < n
        invariant
            n == items@.len(),
            i <= n,
            r@ == items@.subrange(0, i as int),
        decreases n - i,
    {
        r.push(items[i]);
        i += 1;
        assert(r@ =~= items@.subrange(0, i as int));
    }
    assert(r@ =~= items@);
    r
}

/// The vertices of a geometry mesh.
fn zipped(geometry: &GeometryMesh) -> (r: Vec<Vertex>)
    ensures
        r@ == vertices_of(*geometry),
{
    let mut n: usize = geometry.positions.len();
    if geometry.normals.len() < n {
        n = geometry.normals.len();
    }
    if geometry.uv.len() < n {
        n = geometry.uv.len();
    }
    let mut r: Vec<Vertex> = Vec::new();
    let mut j: usize = 0;
    while j < n
        invariant
            n == min3(
                geometry.positions@.len() as int,
                geometry.normals@.len() as int,
                geometry.uv@.len() as int,
            ),
            j <= n,
            r@ == vertices_of(*geometry).subrange(0, j as int),
        decreases n - j,
    {
        r.push(
            Vertex {
                position: geometry.positions[j],
                normal: geometry.normals[j],
                tex_coord: geometry.uv[j],
            },
        );
        j += 1;
        assert(r@ =~= vertices_of(*geometry).subrange(0, j as int));
    }
    assert(r@ =~= vertices_of(*geometry));
    r
}

impl Scene {
    /// The model that the scene describes: it has no vertices of its own,
    /// and one part for each material of each mesh.
    pub fn into_parsed_model(&self) -> (r: ParsedModel)
        requires
            linked(*self),
        ensures
            r.vertices is None,
            r.parts@.len() == parts_of(*self, self.meshes@.len() as int).len(),
            forall|j: int|
                0 <= j < r.parts@.len() ==> part_view(#[trigger] r.parts@[j]) == parts_of(
                    *self,
                    self.meshes@.len() as int,
                )[j],
    {
        let mut parts: Vec<ParsedModelPart> = Vec::new();
        let n: usize = self.meshes.len();
        let mut k: usize = 0;
        while k < n
            invariant
                n == self.meshes@.len(),
                k <= n,
                linked(*self),
                parts@.len() == parts_of(*self, k as int).len(),
                forall|j: int|
                    0 <= j < parts@.len() ==> part_view(#[trigger] parts@[j]) == parts_of(
                        *self,
                        k as int,
                    )[j],
            decreases n - k,
        {
            let mesh = &self.meshes[k];
            assert(self.meshes@[k as int].geometry_mesh_index.0 < self.geometry_meshes@.len());
            let geometry = self.geometry_mesh(mesh.geometry_mesh_index).unwrap();
            let count: usize = geometry.indices_per_material.len();
            let ghost done = parts@;
            let mut i: usize = 0;
            while i < count
                invariant
                    k < n,
                    n == self.meshes@.len(),
                    *mesh == self.meshes@[k as int],
                    mesh.geometry_mesh_index.0 < self.geometry_meshes@.len(),
                    *geometry == self.geometry_meshes@[mesh.geometry_mesh_index.0 as int],
                    count == geometry.indices_per_material@.len(),
                    count <= mesh.materials@.len(),
                    i <= count,
                    done.len() == parts_of(*self, k as int).len(),
                    parts@.len() == done.len() + i,
                    forall|j: int|
                        0 <= j < done.len() ==> part_view(#[trigger] parts@[j]) == parts_of(
                            *self,
                            k as int,
                        )[j],
                    forall|j: int|
                        0 <= j < i ==> part_view(#[trigger] parts@[done.len() + j]) == part_of(
                            *self,
                            *mesh,
                            j,
                        ),
                decreases count - i,
            {
                let material = self.material(mesh.materials[i]);
                let texture: Option<ParsedTexture> = match material {
                    Some(material) => match material.diffuse_texture {
                        Some(index) => match self.texture(index) {
                            Some(texture) => Some(
                                ParsedTexture {
                                    width: texture.image.width,
                                    height: texture.image.height,
                                    rgba_data: copied(&texture.image.rgba_data),
                                },
                            ),
                            None => None,
                        },
                        None => None,
                    },
                    None => None,
                };
                let part = ParsedModelPart {
                    index: copied(&geometry.indices_per_material[i]),
                    material: match material {
                        Some(material) => Some(material.into_material()),
                        None => None,
                    },
                    vertices: Some(zipped(geometry)),
                    texture,
                };
                assert(part_view(part) == part_of(*self, *mesh, i as int));
                parts.push(part);
                i += 1;
            }
            k += 1;
            proof {
                let all = parts_of(*self, k as int);
                assert(all == parts_of(*self, k - 1) + parts_of_mesh(*self, self.meshes@[k - 1]));
                assert forall|j: int| 0 <= j < parts@.len() implies part_view(
                    #[trigger] parts@[j],
                ) == all[j] by {
                    if j >= done.len() {
                        assert(parts@[j] == parts@[done.len() + (j - done.len())]);
                    }
                }
            }
        }
        ParsedModel { vertices: None, parts }
    }
}

} // verus!
