use super::{ParsedModel, ParsedModelPart};
use crate::math::{Float, Vector2, Vector3};
use crate::model::{Material, Vertex};
use vstd::prelude::*;

verus! {

/// Calls `genmesh::EmitTriangles::emit_triangles` on the triangle of the
/// corners `x`, `y` and `z`, which emits the triangle itself, and collects
/// the corners of what is emitted.
#[verifier::external_body]
fn emit_triangle(x: usize, y: usize, z: usize) -> (r: Vec<usize>)
    ensures
        r@ == seq![x, y, z],
{
    let mut corners = Vec::new();
    genmesh::EmitTriangles::emit_triangles(
        &genmesh::Triangle::new(x, y, z),
        |t| {
            corners.push(t.x);
            corners.push(t.y);
            corners.push(t.z);
        },
    );
    corners
}

/// Calls `genmesh::EmitTriangles::emit_triangles` on the quad of the
/// corners `x`, `y`, `z` and `w`, which emits the triangles `x y z` and
/// `z w x`, and collects the corners of what is emitted.
#[verifier::external_body]
fn emit_quad(x: usize, y: usize, z: usize, w: usize) -> (r: Vec<usize>)
    ensures
        r@ == seq![x, y, z, z, w, x],
{
    let mut corners = Vec::new();
    genmesh::EmitTriangles::emit_triangles(
        &genmesh::Quad::new(x, y, z, w),
        |t| {
            corners.push(t.x);
            corners.push(t.y);
            corners.push(t.z);
        },
    );
    corners
}

/// Bit pattern of `-1.0`.
pub const MINUS_ONE_BITS: u32 = 0xbf80_0000;

/// The vertex at the place `i` of a file: its position, with its normal
/// and its texture coordinate where the file has them at that place. A
/// missing normal is `(0, 0, 0)`, a missing texture coordinate `(-1, -1)`.
pub open spec fn vertex_at(
    position: Seq<Vector3>,
    texture: Seq<Vector2>,
    normal: Seq<Vector3>,
    i: int,
) -> Vertex {
    Vertex {
        position: position[i],
        normal: if i < normal.len() {
            normal[i]
        } else {
            Vector3::spec_zero()
        },
        tex_coord: if i < texture.len() {
            texture[i]
        } else {
            Vector2 { x: Float { bits: MINUS_ONE_BITS }, y: Float { bits: MINUS_ONE_BITS } }
        },
    }
}

/// The vertices of a file: one for each position.
pub fn vertices(position: &Vec<Vector3>, texture: &Vec<Vector2>, normal: &Vec<Vector3>) -> (r: Vec<
    Vertex,
>)
    ensures
        r@ == Seq::new(position@.len(), |i: int| vertex_at(position@, texture@, normal@, i)),
{
    let n: usize = position.len();
    let mut r: Vec<Vertex> = Vec::new();
    let mut i: usize = 0;
    while i < n
        invariant
            n == position@.len(),
            i <= n,
            r@ == Seq::new(i as nat, |k: int| vertex_at(position@, texture@, normal@, k)),
        decreases n - i,
    {
        let normal_in: Vector3 = if i < normal.len() {
            normal[i]
        } else {
            Vector3::zero()
        };
        let tex_coord_in: Vector2 = if i < texture.len() {
            texture[i]
        } else {
            Vector2::new(Float::from_bits(MINUS_ONE_BITS), Float::from_bits(MINUS_ONE_BITS))
        };
        r.push(Vertex { position: position[i], normal: normal_in, tex_coord: tex_coord_in });
        i += 1;
        assert(r@ =~= Seq::new(i as nat, |k: int| vertex_at(position@, texture@, normal@, k)));
    }
    r
}

/// Whether a polygon can be drawn: it has three or four corners, each at
/// a place that fits in 32 bits.
pub open spec fn drawable(polygon: Seq<usize>) -> bool {
    &&& polygon.len() == 3 || polygon.len() == 4
    &&& forall|i: int| 0 <= i < polygon.len() ==> polygon[i] <= u32::MAX
}

/// The corners of the triangles that a polygon is drawn as: a triangle as
/// it is, a quad as the triangles `0 1 2` and `2 3 0` of its corners.
pub open spec fn triangles_of(polygon: Seq<usize>) -> Seq<u32> {
    if polygon.len() == 3 {
        seq![polygon[0] as u32, polygon[1] as u32, polygon[2] as u32]
    } else {
        seq![
            polygon[0] as u32,
            polygon[1] as u32,
            polygon[2] as u32,
            polygon[2] as u32,
            polygon[3] as u32,
            polygon[0] as u32,
        ]
    }
}

/// The indices of a group: the triangles of its polygons, one after another.
pub open spec fn indices_of(polygons: Seq<Vec<usize>>) -> Seq<u32>
    decreases polygons.len(),
{
    if polygons.len() == 0 {
        Seq::empty()
    } else {
        indices_of(polygons.drop_last()) + triangles_of(polygons.last()@)
    }
}

/// The indices of a group of polygons.
pub fn index_group(polygons: &Vec<Vec<usize>>) -> (r: Vec<u32>)
    requires
        forall|i: int| 0 <= i < polygons@.len() ==> drawable(#[trigger] polygons@[i]@),
    ensures
        r@ == indices_of(polygons@),
{
    let mut index_group: Vec<u32> = Vec::new();
    let n: usize = polygons.len();
    let mut i: usize = 0;
    proof {
        assert(polygons@.subrange(0, 0) =~= Seq::<Vec<usize>>::empty());
    }
    while i < n
        invariant
            n == polygons@.len(),
            i <= n,
            forall|k: int| 0 <= k < polygons@.len() ==> drawable(#[trigger] polygons@[k]@),
            index_group@ == indices_of(polygons@.subrange(0, i as int)),
        decreases n - i,
    {
        let poly = &polygons[i];
        assert(drawable(polygons@[i as int]@));
        let corners = if poly.len() == 3 {
            emit_triangle(poly[0], poly[1], poly[2])
        } else {
            emit_quad(poly[0], poly[1], poly[2], poly[3])
        };
        let ghost before = index_group@;
        let count: usize = corners.len();
        let mut c: usize = 0;
        while c < count
            invariant
                count == corners@.len(),
                c <= count,
                forall|k: int| 0 <= k < count ==> corners@[k] <= u32::MAX,
                index_group@.len() == before.len() + c,
                forall|k: int| 0 <= k < before.len() ==> index_group@[k] == before[k],
                forall|k: int| 0 <= k < c ==> index_group@[before.len() + k] == corners@[k] as u32,
            decreases count - c,
        {
            index_group.push(corners[c] as u32);
            c += 1;
        }
        proof {
            assert(polygons@.subrange(0, i + 1).drop_last() =~= polygons@.subrange(0, i as int));
            assert(index_group@ =~= before + triangles_of(poly@));
        }
        i += 1;
    }
    proof {
        assert(polygons@.subrange(0, n as int) =~= polygons@);
    }
    index_group
}

/// What a material library says of a material: its ambient, diffuse and
/// specular color and its shininess, as far as it gives them.
#[derive(Clone, Copy, Debug)]
pub struct MaterialSource {
    pub ka: Option<Vector3>,
    pub kd: Option<Vector3>,
    pub ks: Option<Vector3>,
    pub km: Option<Float>,
}

/// The color `(1, 0, 0)`, which stands in for a color that a material
/// library does not give.
pub open spec fn missing_color() -> Vector3 {
    Vector3 { x: Float::spec_one(), y: Float::spec_zero(), z: Float::spec_zero() }
}

/// The material that a source describes: a color that it does not give is
/// red, and a shininess that it does not give is `0.0`.
pub open spec fn spec_material(source: MaterialSource) -> Material {
    Material {
        ambient: match source.ka {
            Some(color) => color,
            None => missing_color(),
        },
        diffuse: match source.kd {
            Some(color) => color,
            None => missing_color(),
        },
        specular: match source.ks {
            Some(color) => color,
            None => missing_color(),
        },
        shininess: match source.km {
            Some(shininess) => shininess,
            None => Float::spec_zero(),
        },
    }
}

/// The material that a source describes.
pub fn material(source: MaterialSource) -> (r: Material)
    ensures
        r == spec_material(source),
{
    let red: Vector3 = Vector3::new(Float::one(), Float::zero(), Float::zero());
    Material {
        ambient: match source.ka {
            Some(color) => color,
            None => red,
        },
        diffuse: match source.kd {
            Some(color) => color,
            None => red,
        },
        specular: match source.ks {
            Some(color) => color,
            None => red,
        },
        shininess: match source.km {
            Some(shininess) => shininess,
            None => Float::zero(),
        },
    }
}

/// A material of a material library, under its name.
#[derive(Debug)]
pub struct NamedMaterial {
    pub name: String,
    pub source: MaterialSource,
}

/// The material that a group is drawn with, as the file gives it.
#[derive(Debug)]
pub enum GroupMaterial {
    /// The material itself.
    Mtl(MaterialSource),
    /// The name of a material, to be looked up in the material libraries.
    Ref(String),
}

/// The first material of a library that goes by `name`.
pub open spec fn found_in(library: Seq<NamedMaterial>, name: Seq<char>) -> Option<MaterialSource>
    decreases library.len(),
{
    if library.len() == 0 {
        None
    } else if library[0].name@ == name {
        Some(library[0].source)
    } else {
        found_in(library.skip(1), name)
    }
}

/// The first material that goes by `name` in the first library that has one.
pub open spec fn found(libraries: Seq<Vec<NamedMaterial>>, name: Seq<char>) -> Option<
    MaterialSource,
>
    decreases libraries.len(),
{
    if libraries.len() == 0 {
        None
    } else {
        match found_in(libraries[0]@, name) {
            Some(source) => Some(source),
            None => found(libraries.skip(1), name),
        }
    }
}

/// Looks a material up by its name: in the libraries in their order, and
/// in each from its first material to its last.
pub fn find_material(libraries: &Vec<Vec<NamedMaterial>>, name: &String) -> (r: Option<
    MaterialSource,
>)
    ensures
        r == found(libraries@, name@),
{
    let n: usize = libraries.len();
    let mut l: usize = 0;
    proof {
        assert(libraries@.skip(0) =~= libraries@);
    }
    while l < n
        invariant
            n == libraries@.len(),
            l <= n,
            found(libraries@, name@) == found(libraries@.skip(l as int), name@),
        decreases n - l,
    {
        let library = &libraries[l];
        let count: usize = library.len();
        let mut i: usize = 0;
        proof {
            assert(library@.skip(0) =~= library@);
            assert(libraries@.skip(l as int)[0] == libraries@[l as int]);
            assert(libraries@.skip(l as int).skip(1) =~= libraries@.skip(l + 1));
        }
        while i < count
            invariant
                count == library@.len(),
                i <= count,
                l < n,
                n == libraries@.len(),
                *library == libraries@[l as int],
                found(libraries@, name@) == found(libraries@.skip(l as int), name@),
                found_in(library@, name@) == found_in(library@.skip(i as int), name@),
            decreases count - i,
        {
            proof {
                assert(library@.skip(i as int)[0] == library@[i as int]);
                assert(library@.skip(i as int).skip(1) =~= library@.skip(i + 1));
            }
            if library[i].name == *name {
                proof {
                    assert(libraries@.skip(l as int)[0] == libraries@[l as int]);
                }
                return Some(library[i].source);
            }
            i += 1;
        }
        proof {
            assert(library@.skip(count as int).len() == 0);
        }
        l += 1;
    }
    None
}

/// What a file says of a group: its polygons, each by the places of its
/// corners among the positions, and the material that it names, if any.
#[derive(Debug)]
pub struct GroupSource {
    pub polys: Vec<Vec<usize>>,
    pub material: Option<GroupMaterial>,
}

/// The material of a group: the material that the file gives with it, or
/// the one that goes by the name that the file gives. A group without a
/// material, or with the name of none, has none.
pub open spec fn material_of(
    libraries: Seq<Vec<NamedMaterial>>,
    material: Option<GroupMaterial>,
) -> Option<Material> {
    match material {
        Some(GroupMaterial::Mtl(source)) => Some(spec_material(source)),
        Some(GroupMaterial::Ref(name)) => match found(libraries, name@) {
            Some(source) => Some(spec_material(source)),
            None => None,
        },
        None => None,
    }
}

/// Whether `part` is the part of a model that the group `source` gives.
pub open spec fn is_part_of(
    part: ParsedModelPart,
    source: GroupSource,
    libraries: Seq<Vec<NamedMaterial>>,
) -> bool {
    &&& part.index@ == indices_of(source.polys@)
    &&& part.material == material_of(libraries, source.material)
    &&& part.vertices is None
    &&& part.texture is None
}

/// The model of a file: its vertices, and one part for each group of each
/// object, in the order of the file.
pub fn load(
    position: &Vec<Vector3>,
    texture: &Vec<Vector2>,
    normal: &Vec<Vector3>,
    groups: &Vec<GroupSource>,
    material_libs: &Vec<Vec<NamedMaterial>>,
) -> (r: ParsedModel)
    requires
        forall|g: int, i: int|
            0 <= g < groups@.len() && 0 <= i < groups@[g].polys@.len() ==> drawable(
                #[trigger] groups@[g].polys@[i]@,
            ),
    ensures
        r.vertices matches Some(list) && list@ == Seq::new(
            position@.len(),
            |i: int| vertex_at(position@, texture@, normal@, i),
        ),
        r.parts@.len() == groups@.len(),
        forall|g: int|
            0 <= g < groups@.len() ==> is_part_of(
                #[trigger] r.parts@[g],
                groups@[g],
                material_libs@,
            ),
{
    let mut result = ParsedModel::from_vertices(vertices(position, texture, normal));
    let n: usize = groups.len();
    let mut g: usize = 0;
    while g < n
        invariant
            n == groups@.len(),
            g <= n,
            forall|k: int, i: int|
                0 <= k < groups@.len() && 0 <= i < groups@[k].polys@.len() ==> drawable(
                    #[trigger] groups@[k].polys@[i]@,
                ),
            result.vertices matches Some(list) && list@ == Seq::new(
                position@.len(),
                |i: int| vertex_at(position@, texture@, normal@, i),
            ),
            result.parts@.len() == g,
            forall|k: int|
                0 <= k < g ==> is_part_of(#[trigger] result.parts@[k], groups@[k], material_libs@),
        decreases n - g,
    {
        let group = &groups[g];
        let mut part = ParsedModelPart::from_indices(index_group(&group.polys));
        let source = match &group.material {
            Some(GroupMaterial::Mtl(source)) => Some(*source),
            Some(GroupMaterial::Ref(name)) => find_material(material_libs, name),
            None => None,
        };
        if let Some(source) = source {
            part.material = Some(material(source));
        }
        result.parts.push(part);
        g += 1;
    }
    result
}

} // verus!
