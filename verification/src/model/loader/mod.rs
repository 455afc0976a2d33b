pub mod fbx;
pub mod obj;

use crate::error::ModelError;
use crate::math::{Float, Vector2, Vector3};
use crate::model::{Material, Vertex};
use vstd::prelude::*;

verus! {

/// The texture of a parsed model part
#[derive(Debug)]
pub struct ParsedTexture {
    /// The width of the parsed texture
    pub width: u32,
    /// The height of the parsed texture
    pub height: u32,
    /// The RGBA data of the parsed texture, as `[r, g, b, a, r, g, b, a, ...]`.
    /// It should have exactly `4 * width * height` entries.
    pub rgba_data: Vec<u8>,
}

/// A part of the parsed model. Each part is a sub-model, e.g. the wheels of
/// a car that can rotate independently, but still belong to the car model.
#[derive(Debug)]
pub struct ParsedModelPart {
    /// The vertices of this part. Either this field or the parsed model vertices must be filled in.
    pub vertices: Option<Vec<Vertex>>,
    /// The indices of this part.
    pub index: Vec<u32>,
    /// The material of this part
    pub material: Option<Material>,
    /// The texture of this part
    pub texture: Option<ParsedTexture>,
}

impl ParsedModelPart {
    /// A part that has indices and nothing else.
    pub fn from_indices(index: Vec<u32>) -> (r: ParsedModelPart)
        ensures
            r.index == index,
            r.vertices is None,
            r.material is None,
            r.texture is None,
    {
        ParsedModelPart { vertices: None, index, material: None, texture: None }
    }
}

impl Default for ParsedModelPart {
    /// A part without anything.
    fn default() -> (r: ParsedModelPart)
        ensures
            r.index@.len() == 0,
            r.vertices is None,
            r.material is None,
            r.texture is None,
    {
        ParsedModelPart { vertices: None, index: Vec::new(), material: None, texture: None }
    }
}

/// A parsed model, ready to be imported into the engine.
#[derive(Debug)]
pub struct ParsedModel {
    /// The vertices of the parsed model. Either this field or one of the parts' vertices must be filled in.
    pub vertices: Option<Vec<Vertex>>,
    /// The parts of this model.
    pub parts: Vec<ParsedModelPart>,
}

impl ParsedModel {
    /// A model of the given vertices, without parts.
    pub fn from_vertices(vertices: Vec<Vertex>) -> (r: ParsedModel)
        ensures
            r.vertices == Some(vertices),
            r.parts@.len() == 0,
    {
        ParsedModel { vertices: Some(vertices), parts: Vec::new() }
    }

    /// A model of the given vertices, with one part that has the given indices.
    pub fn from_vertices_and_indices(vertices: Vec<Vertex>, index: Vec<u32>) -> (r: ParsedModel)
        ensures
            r.vertices == Some(vertices),
            r.parts@.len() == 1,
            r.parts@[0].index == index,
            r.parts@[0].vertices is None,
            r.parts@[0].material is None,
            r.parts@[0].texture is None,
    {
        let mut parts: Vec<ParsedModelPart> = Vec::new();
        parts.push(ParsedModelPart::from_indices(index));
        ParsedModel { vertices: Some(vertices), parts }
    }

    /// Whether this is the built-in triangle.
    pub open spec fn is_triangle(&self) -> bool {
        &&& self.vertices matches Some(vertices)
        &&& vertices@ == triangle_vertices()
        &&& self.parts@.len() == 0
    }

    /// Whether this is the built-in rectangle.
    pub open spec fn is_rectangle(&self) -> bool {
        &&& self.vertices matches Some(vertices)
        &&& vertices@ == rectangle_vertices()
        &&& self.parts@.len() == 1
        &&& self.parts@[0].index@ == rectangle_indices()
        &&& self.parts@[0].vertices is None
        &&& self.parts@[0].material is None
        &&& self.parts@[0].texture is None
    }
}

/// Bit pattern of `0.5`.
pub const HALF_BITS: u32 = 0x3f00_0000;

/// Bit pattern of `-0.5`.
pub const MINUS_HALF_BITS: u32 = 0xbf00_0000;

/// Bit pattern of `0.25`.
pub const QUARTER_BITS: u32 = 0x3e80_0000;

/// Bit pattern of `-0.25`.
pub const MINUS_QUARTER_BITS: u32 = 0xbe80_0000;

/// Bit pattern of `-0.1`.
pub const MINUS_TENTH_BITS: u32 = 0xbdcc_cccd;

/// The vertex with the given bit patterns: its position, its normal and
/// its texture coordinate.
pub open spec fn spec_vertex(
    position: (u32, u32, u32),
    normal: (u32, u32, u32),
    tex_coord: (u32, u32),
) -> Vertex {
    Vertex {
        position: Vector3 {
            x: Float { bits: position.0 },
            y: Float { bits: position.1 },
            z: Float { bits: position.2 },
        },
        normal: Vector3 {
            x: Float { bits: normal.0 },
            y: Float { bits: normal.1 },
            z: Float { bits: normal.2 },
        },
        tex_coord: Vector2 { x: Float { bits: tex_coord.0 }, y: Float { bits: tex_coord.1 } },
    }
}

fn vertex(position: (u32, u32, u32), normal: (u32, u32, u32), tex_coord: (u32, u32)) -> (r: Vertex)
    ensures
        r == spec_vertex(position, normal, tex_coord),
{
    Vertex {
        position: Vector3::new(
            Float::from_bits(position.0),
            Float::from_bits(position.1),
            Float::from_bits(position.2),
        ),
        normal: Vector3::new(
            Float::from_bits(normal.0),
            Float::from_bits(normal.1),
            Float::from_bits(normal.2),
        ),
        tex_coord: Vector2::new(Float::from_bits(tex_coord.0), Float::from_bits(tex_coord.1)),
    }
}

/// The corners of the built-in triangle: `(-0.5, -0.25, 0)`, `(0, 0.5, 0)`
/// and `(0.25, -0.1, 0)`, without normals.
pub open spec fn triangle_vertices() -> Seq<Vertex> {
    seq![
        spec_vertex((MINUS_HALF_BITS, MINUS_QUARTER_BITS, 0), (0, 0, 0), (0, 0)),
        spec_vertex((0, HALF_BITS, 0), (0, 0, 0), (crate::math::ONE_BITS, 0)),
        spec_vertex(
            (QUARTER_BITS, MINUS_TENTH_BITS, 0),
            (0, 0, 0),
            (crate::math::ONE_BITS, crate::math::ONE_BITS),
        ),
    ]
}

/// The corners of the built-in rectangle: a square of side `1.0` around
/// the origin that faces along the z axis, with the texture upright on it.
pub open spec fn rectangle_vertices() -> Seq<Vertex> {
    seq![
        spec_vertex(
            (MINUS_HALF_BITS, MINUS_HALF_BITS, 0),
            (0, 0, crate::math::ONE_BITS),
            (0, crate::math::ONE_BITS),
        ),
        spec_vertex(
            (HALF_BITS, MINUS_HALF_BITS, 0),
            (0, 0, crate::math::ONE_BITS),
            (crate::math::ONE_BITS, crate::math::ONE_BITS),
        ),
        spec_vertex(
            (HALF_BITS, HALF_BITS, 0),
            (0, 0, crate::math::ONE_BITS),
            (crate::math::ONE_BITS, 0),
        ),
        spec_vertex((MINUS_HALF_BITS, HALF_BITS, 0), (0, 0, crate::math::ONE_BITS), (0, 0)),
    ]
}

/// The two triangles that the built-in rectangle is drawn as.
pub open spec fn rectangle_indices() -> Seq<u32> {
    seq![0, 1, 2, 0, 2, 3]
}

/// Where a model comes from: a file to be parsed, a built-in shape, or a
/// model that was parsed elsewhere.
#[derive(Debug)]
pub enum SourceOrShape {
    /// An .obj file, by its path.
    Obj(String),
    /// An .fbx file, by its path.
    Fbx(String),
    /// The built-in triangle.
    Triangle,
    /// The built-in rectangle.
    Rectangle,
    /// A model that is parsed already.
    Custom(ParsedModel),
}

impl SourceOrShape {
    /// The parsed model of this source. A built-in shape and a model that
    /// is parsed already need no file; for a file, `load` is asked to read
    /// and parse it, and what it returns is handed on.
    pub fn parse<F: FnOnce(&SourceOrShape) -> Result<ParsedModel, ModelError>>(self, load: F) -> (r:
        Result<ParsedModel, ModelError>)
        requires
            self is Obj || self is Fbx ==> load.requires((&self,)),
        ensures
            match self {
                SourceOrShape::Obj(_) | SourceOrShape::Fbx(_) => load.ensures((&self,), r),
                SourceOrShape::Rectangle => r matches Ok(model) && model.is_rectangle(),
                SourceOrShape::Triangle => r matches Ok(model) && model.is_triangle(),
                SourceOrShape::Custom(model) => r == Ok::<ParsedModel, ModelError>(model),
            },
    {
        match self {
            SourceOrShape::Obj(_) | SourceOrShape::Fbx(_) => load(&self),
            SourceOrShape::Rectangle => Ok(rectangle()),
            SourceOrShape::Triangle => Ok(triangle()),
            SourceOrShape::Custom(model) => Ok(model),
        }
    }
}

/// The built-in rectangle.
pub fn rectangle() -> (model: ParsedModel)
    ensures
        model.is_rectangle(),
{
    let one: u32 = crate::math::ONE_BITS;
    let mut vertices: Vec<Vertex> = Vec::new();
    vertices.push(vertex((MINUS_HALF_BITS, MINUS_HALF_BITS, 0), (0, 0, one), (0, one)));
    vertices.push(vertex((HALF_BITS, MINUS_HALF_BITS, 0), (0, 0, one), (one, one)));
    vertices.push(vertex((HALF_BITS, HALF_BITS, 0), (0, 0, one), (one, 0)));
    vertices.push(vertex((MINUS_HALF_BITS, HALF_BITS, 0), (0, 0, one), (0, 0)));
    let mut index: Vec<u32> = Vec::new();
    index.push(0);
    index.push(1);
    index.push(2);
    index.push(0);
    index.push(2);
    index.push(3);
    assert(vertices@ =~= rectangle_vertices());
    assert(index@ =~= rectangle_indices());
    ParsedModel::from_vertices_and_indices(vertices, index)
}

/// The built-in triangle.
pub fn triangle() -> (model: ParsedModel)
    ensures
        model.is_triangle(),
{
    let one: u32 = crate::math::ONE_BITS;
    let mut vertices: Vec<Vertex> = Vec::new();
    vertices.push(vertex((MINUS_HALF_BITS, MINUS_QUARTER_BITS, 0), (0, 0, 0), (0, 0)));
    vertices.push(vertex((0, HALF_BITS, 0), (0, 0, 0), (one, 0)));
    vertices.push(vertex((QUARTER_BITS, MINUS_TENTH_BITS, 0), (0, 0, 0), (one, one)));
    assert(vertices@ =~= triangle_vertices());
    ParsedModel::from_vertices(vertices)
}

} // verus!
