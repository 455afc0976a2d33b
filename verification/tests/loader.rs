use crystal_engine::error::{FbxError, ModelError, ObjError};
use crystal_engine::game_state::GameState;
use crystal_engine::gpu::{GpuBuffer, GpuFuture, GpuTexture};
use crystal_engine::math::{Euler, Float, Vector2, Vector3};
use crystal_engine::model::builder::UploadedModel;
use crystal_engine::model::loader::fbx::loader::{
    from_doc, indices_per_material, GeometrySource, Loader, MaterialSource, MeshSource,
    TextureSource,
};
use crystal_engine::model::loader::fbx::triangulator::{triangulate, Polygon, Triangle};
use crystal_engine::model::loader::fbx::{
    GeometryMesh, GeometryMeshIndex, LambertData, Material as FbxMaterial, MaterialIndex, Mesh,
    MeshIndex, Scene, ShadingData, TextureIndex, WrapMode,
};
use crystal_engine::model::loader::obj;
use crystal_engine::model::loader::{
    rectangle, triangle, ParsedModel, ParsedModelPart, ParsedTexture, SourceOrShape,
};
use crystal_engine::model::{Material, ModelBuilder, ModelGroup, UploadedPart, Vertex};

fn float(value: f32) -> Float {
    Float::from_bits(value.to_bits())
}

fn v3(x: f32, y: f32, z: f32) -> Vector3 {
    Vector3::new(float(x), float(y), float(z))
}

fn v2(x: f32, y: f32) -> Vector2 {
    Vector2::new(float(x), float(y))
}

fn tri(a: usize, b: usize, c: usize) -> Triangle {
    Triangle { a, b, c }
}

fn lambert() -> LambertData {
    LambertData { ambient: v3(0.1, 0.2, 0.3), diffuse: v3(0.4, 0.5, 0.6), emissive: v3(0.7, 0.8, 0.9) }
}

fn image() -> ParsedTexture {
    ParsedTexture { width: 1, height: 2, rgba_data: vec![1, 2, 3, 4, 5, 6, 7, 8] }
}

fn texture_source(name: &str) -> TextureSource {
    TextureSource {
        name: Some(name.to_string()),
        wrap_mode_u: Some(WrapMode::Repeat),
        wrap_mode_v: Some(WrapMode::ClampToEdge),
        image: Some(Ok(image())),
    }
}

fn material_source(name: &str) -> MaterialSource {
    MaterialSource {
        name: Some(name.to_string()),
        transparent_texture: None,
        diffuse_texture: None,
        shading: Some(lambert()),
    }
}

fn geometry_source(corners: usize) -> GeometrySource {
    GeometrySource {
        name: Some("geometry".to_string()),
        positions: (0..corners).map(|i| v3(i as f32, 0.0, 0.0)).collect(),
        normals: (0..corners).map(|i| v3(0.0, i as f32, 0.0)).collect(),
        uv: (0..corners).map(|i| v2(i as f32, 1.0)).collect(),
        material_of: (0..corners).map(|i| Some((i % 2) as u32)).collect(),
    }
}

fn mesh_source(materials: usize, corners: usize) -> MeshSource {
    MeshSource {
        name: Some("mesh".to_string()),
        geometry: Some(Ok(geometry_source(corners))),
        materials: (0..materials).map(|_| material_source("material")).collect(),
    }
}

#[test]
fn polygons_are_cut_into_triangles() {
    assert_eq!(triangulate(&Polygon::Triangle), Ok(vec![tri(0, 1, 2)]));
    assert_eq!(
        triangulate(&Polygon::Quadrangle { same_side: true }),
        Ok(vec![tri(0, 1, 2), tri(2, 3, 0)])
    );
    assert_eq!(
        triangulate(&Polygon::Quadrangle { same_side: false }),
        Ok(vec![tri(0, 1, 3), tri(3, 1, 2)])
    );
    // the outline turns to one side everywhere: a fan from corner 0
    let convex = Polygon::Larger { normal_directions: vec![false; 5] };
    assert_eq!(triangulate(&convex), Ok(vec![tri(0, 1, 2), tri(0, 2, 3), tri(0, 3, 4)]));
    let convex = Polygon::Larger { normal_directions: vec![true; 6] };
    assert_eq!(
        triangulate(&convex),
        Ok(vec![tri(0, 1, 2), tri(0, 2, 3), tri(0, 3, 4), tri(0, 4, 5)])
    );
    // it turns to the other side at corner 2: a fan from there
    let concave = Polygon::Larger { normal_directions: vec![false, false, true, false, false] };
    assert_eq!(triangulate(&concave), Ok(vec![tri(2, 3, 4), tri(2, 4, 0), tri(2, 0, 1)]));
    let concave = Polygon::Larger { normal_directions: vec![true, true, true, true, false] };
    assert_eq!(triangulate(&concave), Ok(vec![tri(4, 0, 1), tri(4, 1, 2), tri(4, 2, 3)]));
    // two corners of either kind and more: not a fan
    let other = Polygon::Larger { normal_directions: vec![true, true, false, false, false] };
    assert_eq!(triangulate(&other), Err(FbxError::CouldNotTriangulate));
    let small = Polygon::Larger { normal_directions: vec![true, false] };
    assert_eq!(triangulate(&small), Err(FbxError::CouldNotTriangulate));
    let three = Polygon::Larger { normal_directions: vec![true, false, true] };
    assert_eq!(triangulate(&three), Ok(vec![tri(1, 2, 0)]));
}

#[test]
fn corners_are_grouped_by_material() {
    let material_of = vec![Some(1), Some(0), None, Some(1), Some(7), Some(2), Some(0)];
    assert_eq!(indices_per_material(&material_of, 3), vec![vec![1, 6], vec![0, 3], vec![5]]);
    assert_eq!(indices_per_material(&material_of, 1), vec![vec![1, 6]]);
    assert_eq!(indices_per_material(&material_of, 0), Vec::<Vec<u32>>::new());
    assert_eq!(indices_per_material(&Vec::new(), 2), vec![Vec::<u32>::new(), Vec::new()]);
}

#[test]
fn indices_count_from_zero() {
    assert_eq!(MeshIndex::new(5), MeshIndex(5));
    assert_eq!(MeshIndex::new(u32::MAX as usize).to_usize(), u32::MAX as usize);
    assert_eq!(GeometryMeshIndex::new(0).to_usize(), 0);
    assert_eq!(MaterialIndex::new(12).to_usize(), 12);
    assert_eq!(TextureIndex::new(3), TextureIndex(3));
}

#[test]
fn textures_are_loaded_or_refused() {
    let mut loader = Loader::new();
    assert_eq!(loader.load_texture(texture_source("a"), true), Ok(TextureIndex(0)));
    assert_eq!(loader.load_texture(texture_source("b"), false), Ok(TextureIndex(1)));
    let texture = loader.scene.texture(TextureIndex(1)).unwrap();
    assert_eq!(texture.name.as_deref(), Some("b"));
    assert!(!texture.transparent);
    assert_eq!(texture.wrap_mode_u, WrapMode::Repeat);
    assert_eq!(texture.wrap_mode_v, WrapMode::ClampToEdge);
    assert_eq!(texture.image.rgba_data, vec![1, 2, 3, 4, 5, 6, 7, 8]);
    assert!(loader.scene.texture(TextureIndex(0)).unwrap().transparent);
    assert!(loader.scene.texture(TextureIndex(2)).is_none());

    let mut source = texture_source("c");
    source.wrap_mode_u = None;
    assert_eq!(loader.load_texture(source, false), Err(FbxError::CouldNotWrapUVAxis));
    let mut source = texture_source("c");
    source.wrap_mode_v = None;
    source.image = None;
    assert_eq!(loader.load_texture(source, false), Err(FbxError::CouldNotWrapUVAxis));
    let mut source = texture_source("c");
    source.image = None;
    assert_eq!(loader.load_texture(source, false), Err(FbxError::MissingImageData));
    let mut source = texture_source("c");
    source.image = Some(Err(FbxError::NoVideoContent));
    assert_eq!(
        loader.load_texture(source, false),
        Err(FbxError::CouldNotLoadVideo(Box::new(FbxError::NoVideoContent)))
    );
    assert_eq!(loader.scene.textures.len(), 2);
}

#[test]
fn materials_bring_their_texture() {
    let mut loader = Loader::new();
    assert_eq!(loader.load_material(material_source("plain")), Ok(MaterialIndex(0)));
    assert_eq!(loader.scene.material(MaterialIndex(0)).unwrap().diffuse_texture, None);

    let mut source = material_source("both");
    source.transparent_texture = Some(texture_source("transparent"));
    source.diffuse_texture = Some(texture_source("diffuse"));
    assert_eq!(loader.load_material(source), Ok(MaterialIndex(1)));
    let material = loader.scene.material(MaterialIndex(1)).unwrap();
    assert_eq!(material.diffuse_texture, Some(TextureIndex(0)));
    assert_eq!(material.data, ShadingData::Lambert(lambert()));
    assert_eq!(material.name.as_deref(), Some("both"));
    let texture = loader.scene.texture(TextureIndex(0)).unwrap();
    assert_eq!(texture.name.as_deref(), Some("transparent"));
    assert!(texture.transparent);
    assert_eq!(loader.scene.textures.len(), 1);

    let mut source = material_source("diffuse only");
    source.diffuse_texture = Some(texture_source("diffuse"));
    assert_eq!(loader.load_material(source), Ok(MaterialIndex(2)));
    assert!(!loader.scene.texture(TextureIndex(1)).unwrap().transparent);

    // a texture that cannot be loaded is left out
    let mut source = material_source("broken texture");
    let mut broken = texture_source("broken");
    broken.image = None;
    source.transparent_texture = Some(broken);
    source.diffuse_texture = Some(texture_source("never looked at"));
    assert_eq!(loader.load_material(source), Ok(MaterialIndex(3)));
    assert_eq!(loader.scene.material(MaterialIndex(3)).unwrap().diffuse_texture, None);
    assert_eq!(loader.scene.textures.len(), 2);

    let mut source = material_source("unknown");
    source.shading = None;
    assert_eq!(loader.load_material(source), Err(FbxError::UnknownShadingModel));
    assert_eq!(loader.scene.materials.len(), 4);
    assert!(loader.scene.material(MaterialIndex(4)).is_none());
}

#[test]
fn material_of_the_engine() {
    let material = FbxMaterial {
        name: None,
        diffuse_texture: None,
        data: ShadingData::Lambert(lambert()),
    };
    assert_eq!(
        material.into_material(),
        Material {
            ambient: v3(0.1, 0.2, 0.3),
            diffuse: v3(0.4, 0.5, 0.6),
            specular: v3(0.7, 0.8, 0.9),
            shininess: float(0.0),
        }
    );
    assert_eq!(
        Material::default(),
        Material {
            ambient: v3(1.0, 1.0, 1.0),
            diffuse: v3(1.0, 1.0, 1.0),
            specular: v3(1.0, 1.0, 1.0),
            shininess: float(1.0),
        }
    );
}

#[test]
fn geometry_needs_equally_many_of_each() {
    let mut loader = Loader::new();
    assert_eq!(loader.load_geometry_mesh(geometry_source(4), 2), Ok(GeometryMeshIndex(0)));
    let mesh = loader.scene.geometry_mesh(GeometryMeshIndex(0)).unwrap();
    assert_eq!(mesh.indices_per_material, vec![vec![0, 2], vec![1, 3]]);
    assert_eq!(mesh.positions.len(), 4);
    assert_eq!(mesh.name.as_deref(), Some("geometry"));

    let mut source = geometry_source(4);
    source.normals.pop();
    assert_eq!(
        loader.load_geometry_mesh(source, 2),
        Err(FbxError::InvalidModelComponentCount { positions: 4, normals: 3, uv: 4 })
    );
    let mut source = geometry_source(4);
    source.uv.push(v2(0.0, 0.0));
    assert_eq!(
        loader.load_geometry_mesh(source, 2),
        Err(FbxError::InvalidModelComponentCount { positions: 4, normals: 4, uv: 5 })
    );
    assert_eq!(loader.scene.geometry_meshes.len(), 1);
    assert!(loader.scene.geometry_mesh(GeometryMeshIndex(1)).is_none());
}

#[test]
fn meshes_fail_in_order() {
    let mut source = mesh_source(2, 3);
    source.geometry = None;
    source.materials[0].shading = None;
    assert_eq!(Loader::new().load_mesh(source), Err(FbxError::CouldNotLoadGeometry));

    let mut source = mesh_source(2, 3);
    source.materials[1].shading = None;
    source.geometry = Some(Err(FbxError::MeshHasNoLayer));
    assert_eq!(
        Loader::new().load_mesh(source),
        Err(FbxError::CouldNotLoadMaterials(Box::new(FbxError::UnknownShadingModel)))
    );

    let mut source = mesh_source(2, 3);
    source.geometry = Some(Err(FbxError::MeshHasNoNormals));
    assert_eq!(
        Loader::new().load_mesh(source),
        Err(FbxError::CouldNotLoadGeometryMesh(Box::new(FbxError::MeshHasNoNormals)))
    );

    let mut geometry = geometry_source(3);
    geometry.positions.push(v3(0.0, 0.0, 0.0));
    let mut source = mesh_source(2, 3);
    source.geometry = Some(Ok(geometry));
    assert_eq!(
        Loader::new().load_mesh(source),
        Err(FbxError::CouldNotLoadGeometryMesh(Box::new(
            FbxError::InvalidModelComponentCount { positions: 4, normals: 3, uv: 3 }
        )))
    );
}

#[test]
fn a_document_becomes_a_scene() {
    let mut second = mesh_source(3, 6);
    second.name = Some("second".to_string());
    second.materials[1].diffuse_texture = Some(texture_source("wood"));
    let scene = from_doc(vec![mesh_source(2, 4), second]).unwrap();
    assert_eq!(scene.name, None);
    assert_eq!(scene.meshes.len(), 2);
    assert_eq!(scene.geometry_meshes.len(), 2);
    assert_eq!(scene.materials.len(), 5);
    assert_eq!(scene.textures.len(), 1);
    assert_eq!(scene.meshes[0].geometry_mesh_index, GeometryMeshIndex(0));
    assert_eq!(scene.meshes[1].geometry_mesh_index, GeometryMeshIndex(1));
    assert_eq!(scene.meshes[0].materials, vec![MaterialIndex(0), MaterialIndex(1)]);
    assert_eq!(
        scene.meshes[1].materials,
        vec![MaterialIndex(2), MaterialIndex(3), MaterialIndex(4)]
    );
    assert_eq!(scene.meshes[1].name.as_deref(), Some("second"));
    assert_eq!(scene.materials[3].diffuse_texture, Some(TextureIndex(0)));
    assert_eq!(scene.geometry_meshes[1].indices_per_material, vec![vec![0, 2, 4], vec![1, 3, 5], vec![]]);

    let model = scene.into_parsed_model();
    assert!(model.vertices.is_none());
    assert_eq!(model.parts.len(), 5);
    assert_eq!(model.parts[0].index, vec![0, 2]);
    assert_eq!(model.parts[1].index, vec![1, 3]);
    assert_eq!(model.parts[2].index, vec![0, 2, 4]);
    assert_eq!(model.parts[4].index, Vec::<u32>::new());
    let vertices = model.parts[2].vertices.as_ref().unwrap();
    assert_eq!(vertices.len(), 6);
    assert_eq!(
        vertices[5],
        Vertex { position: v3(5.0, 0.0, 0.0), normal: v3(0.0, 5.0, 0.0), tex_coord: v2(5.0, 1.0) }
    );
    assert_eq!(model.parts[0].vertices.as_ref().unwrap().len(), 4);
    let expected = Material {
        ambient: v3(0.1, 0.2, 0.3),
        diffuse: v3(0.4, 0.5, 0.6),
        specular: v3(0.7, 0.8, 0.9),
        shininess: float(0.0),
    };
    assert_eq!(model.parts[3].material, Some(expected));
    assert!(model.parts[2].texture.is_none());
    let texture = model.parts[3].texture.as_ref().unwrap();
    assert_eq!((texture.width, texture.height), (1, 2));
    assert_eq!(texture.rgba_data, vec![1, 2, 3, 4, 5, 6, 7, 8]);
}

#[test]
fn the_first_fault_ends_the_loading() {
    let mut broken = mesh_source(1, 3);
    broken.geometry = None;
    let mut later = mesh_source(1, 3);
    later.materials[0].shading = None;
    assert_eq!(
        from_doc(vec![mesh_source(1, 3), broken, later]).err(),
        Some(FbxError::CouldNotLoadGeometry)
    );
    assert!(from_doc(Vec::new()).unwrap().meshes.is_empty());
    let scene = Loader::new().load(vec![mesh_source(0, 0)]).unwrap();
    assert_eq!(scene.meshes.len(), 1);
    assert!(scene.into_parsed_model().parts.is_empty());
}

#[test]
fn a_scene_counts_its_meshes() {
    let mut scene = Scene::default();
    let geometry = || GeometryMesh {
        name: None,
        positions: Vec::new(),
        normals: Vec::new(),
        uv: Vec::new(),
        indices_per_material: Vec::new(),
    };
    // the place of a geometry mesh is counted in meshes
    assert_eq!(scene.add_geometry_mesh(geometry()), GeometryMeshIndex(0));
    assert_eq!(scene.add_geometry_mesh(geometry()), GeometryMeshIndex(0));
    let mesh = Mesh { name: None, geometry_mesh_index: GeometryMeshIndex(0), materials: Vec::new() };
    assert_eq!(scene.add_mesh(mesh), MeshIndex(0));
    assert_eq!(scene.add_geometry_mesh(geometry()), GeometryMeshIndex(1));
    assert_eq!(scene.geometry_meshes.len(), 3);
}

#[test]
fn obj_files_become_models() {
    let position = vec![v3(0.0, 0.0, 0.0), v3(1.0, 0.0, 0.0), v3(1.0, 1.0, 0.0), v3(0.0, 1.0, 0.0)];
    let texture = vec![v2(0.0, 0.0), v2(1.0, 0.0)];
    let normal = vec![v3(0.0, 0.0, 1.0)];
    let groups = vec![
        obj::GroupSource { polys: vec![vec![0, 1, 2, 3], vec![3, 1, 0]], material: None },
        obj::GroupSource {
            polys: Vec::new(),
            material: Some(obj::GroupMaterial::Mtl(obj::MaterialSource {
                ka: Some(v3(0.5, 0.5, 0.5)),
                kd: None,
                ks: None,
                km: None,
            })),
        },
        obj::GroupSource {
            polys: Vec::new(),
            material: Some(obj::GroupMaterial::Ref("steel".to_string())),
        },
        obj::GroupSource {
            polys: Vec::new(),
            material: Some(obj::GroupMaterial::Ref("unknown".to_string())),
        },
    ];
    let named = |name: &str, shininess: f32| obj::NamedMaterial {
        name: name.to_string(),
        source: obj::MaterialSource { ka: None, kd: None, ks: None, km: Some(float(shininess)) },
    };
    let libraries = vec![
        vec![named("wood", 1.0)],
        Vec::new(),
        vec![named("stone", 2.0), named("steel", 3.0), named("steel", 4.0)],
        vec![named("steel", 5.0)],
    ];
    assert_eq!(obj::find_material(&libraries, &"steel".to_string()).unwrap().km, Some(float(3.0)));
    assert_eq!(obj::find_material(&libraries, &"wood".to_string()).unwrap().km, Some(float(1.0)));
    assert!(obj::find_material(&libraries, &"glass".to_string()).is_none());
    assert!(obj::find_material(&Vec::new(), &"steel".to_string()).is_none());
    let model = obj::load(&position, &texture, &normal, &groups, &libraries);
    assert_eq!(model.parts[2].material.unwrap().shininess, float(3.0));
    assert!(model.parts[3].material.is_none());
    let vertices = model.vertices.unwrap();
    assert_eq!(vertices.len(), 4);
    assert_eq!(
        vertices[0],
        Vertex { position: v3(0.0, 0.0, 0.0), normal: v3(0.0, 0.0, 1.0), tex_coord: v2(0.0, 0.0) }
    );
    assert_eq!(
        vertices[1],
        Vertex { position: v3(1.0, 0.0, 0.0), normal: v3(0.0, 0.0, 0.0), tex_coord: v2(1.0, 0.0) }
    );
    assert_eq!(
        vertices[3],
        Vertex { position: v3(0.0, 1.0, 0.0), normal: v3(0.0, 0.0, 0.0), tex_coord: v2(-1.0, -1.0) }
    );
    assert_eq!(model.parts.len(), 4);
    // a quad is drawn as the triangles 0 1 2 and 2 3 0
    assert_eq!(model.parts[0].index, vec![0, 1, 2, 2, 3, 0, 3, 1, 0]);
    assert!(model.parts[0].material.is_none());
    assert!(model.parts[0].vertices.is_none());
    assert!(model.parts[0].texture.is_none());
    assert!(model.parts[1].index.is_empty());
    assert_eq!(
        model.parts[1].material,
        Some(Material {
            ambient: v3(0.5, 0.5, 0.5),
            diffuse: v3(1.0, 0.0, 0.0),
            specular: v3(1.0, 0.0, 0.0),
            shininess: float(0.0),
        })
    );
    assert_eq!(obj::index_group(&vec![vec![7, 8, 9]]), vec![7, 8, 9]);
    assert_eq!(obj::index_group(&vec![vec![4, 5, 6, 7]]), vec![4, 5, 6, 6, 7, 4]);
    assert_eq!(obj::vertices(&Vec::new(), &texture, &normal), Vec::new());
    let full = obj::MaterialSource {
        ka: Some(v3(1.0, 2.0, 3.0)),
        kd: Some(v3(4.0, 5.0, 6.0)),
        ks: Some(v3(7.0, 8.0, 9.0)),
        km: Some(float(10.0)),
    };
    assert_eq!(
        obj::material(full),
        Material {
            ambient: v3(1.0, 2.0, 3.0),
            diffuse: v3(4.0, 5.0, 6.0),
            specular: v3(7.0, 8.0, 9.0),
            shininess: float(10.0),
        }
    );
}

#[test]
fn built_in_shapes() {
    let shape = triangle();
    assert!(shape.parts.is_empty());
    assert_eq!(
        shape.vertices.unwrap(),
        vec![
            Vertex { position: v3(-0.5, -0.25, 0.0), normal: v3(0.0, 0.0, 0.0), tex_coord: v2(0.0, 0.0) },
            Vertex { position: v3(0.0, 0.5, 0.0), normal: v3(0.0, 0.0, 0.0), tex_coord: v2(1.0, 0.0) },
            Vertex { position: v3(0.25, -0.1, 0.0), normal: v3(0.0, 0.0, 0.0), tex_coord: v2(1.0, 1.0) },
        ]
    );
    let shape = rectangle();
    assert_eq!(shape.parts.len(), 1);
    assert_eq!(shape.parts[0].index, vec![0, 1, 2, 0, 2, 3]);
    assert!(shape.parts[0].vertices.is_none());
    assert_eq!(
        shape.vertices.unwrap(),
        vec![
            Vertex { position: v3(-0.5, -0.5, 0.0), normal: v3(0.0, 0.0, 1.0), tex_coord: v2(0.0, 1.0) },
            Vertex { position: v3(0.5, -0.5, 0.0), normal: v3(0.0, 0.0, 1.0), tex_coord: v2(1.0, 1.0) },
            Vertex { position: v3(0.5, 0.5, 0.0), normal: v3(0.0, 0.0, 1.0), tex_coord: v2(1.0, 0.0) },
            Vertex { position: v3(-0.5, 0.5, 0.0), normal: v3(0.0, 0.0, 1.0), tex_coord: v2(0.0, 0.0) },
        ]
    );
}

#[test]
fn sources_are_parsed() {
    let fail = |_: &SourceOrShape| -> Result<ParsedModel, ModelError> {
        Err(ModelError::InvalidModelVertexBuffer)
    };
    assert_eq!(SourceOrShape::Triangle.parse(fail).unwrap().vertices.unwrap().len(), 3);
    assert_eq!(SourceOrShape::Rectangle.parse(fail).unwrap().vertices.unwrap().len(), 4);
    let custom = ParsedModel::from_vertices_and_indices(Vec::new(), vec![1, 2, 3]);
    let parsed = SourceOrShape::Custom(custom).parse(fail).unwrap();
    assert_eq!(parsed.parts[0].index, vec![1, 2, 3]);
    assert_eq!(parsed.vertices, Some(Vec::new()));
    // a file is left to the loader that is handed in
    let load = |source: &SourceOrShape| match source {
        SourceOrShape::Obj(path) => Ok(ParsedModel::from_vertices_and_indices(
            Vec::new(),
            vec![path.len() as u32],
        )),
        SourceOrShape::Fbx(path) => Err(ModelError::Fbx(FbxError::CouldNotOpenFile { file: path.clone() })),
        _ => Err(ModelError::InvalidModelVertexBuffer),
    };
    let parsed = SourceOrShape::Obj("a.obj".to_string()).parse(load).unwrap();
    assert_eq!(parsed.parts[0].index, vec![5]);
    assert_eq!(
        SourceOrShape::Fbx("b.fbx".to_string()).parse(load).err(),
        Some(ModelError::Fbx(FbxError::CouldNotOpenFile { file: "b.fbx".to_string() }))
    );
    let part = ParsedModelPart::default();
    assert!(part.index.is_empty() && part.vertices.is_none());
    assert_eq!(ParsedModelPart::from_indices(vec![4]).index, vec![4]);
    assert_eq!(ParsedModel::from_vertices(Vec::new()).parts.len(), 0);
}

fn part(vertices: bool, texture: Option<u64>) -> UploadedPart {
    UploadedPart {
        index: Some(GpuBuffer { id: 10 }),
        vertex_buffer: if vertices { Some(GpuBuffer { id: 11 }) } else { None },
        texture: texture.map(|id| (GpuTexture { id }, GpuFuture { id })),
    }
}

#[test]
fn models_are_built_or_refused() {
    let mut state = GameState::new();
    let builder = || {
        state_free_builder()
            .with_position(v3(1.0, 2.0, 3.0))
            .with_rotation(Euler::new(float(0.5), float(0.0), float(0.0)))
            .with_scale(float(2.0))
            .with_fallback_color(v3(1.0, 1.0, 1.0))
            .with_texture_from_file("wood.png".to_string())
    };
    assert_eq!(builder().texture.as_deref(), Some("wood.png"));
    assert_eq!(builder().fallback_color, Some(v3(1.0, 1.0, 1.0)));

    // nothing to draw
    let uploaded = UploadedModel { texture: None, vertex_buffer: None, parts: vec![part(false, None)] };
    assert_eq!(
        builder().build(&mut state, Ok(uploaded)).err(),
        Some(ModelError::InvalidModelVertexBuffer)
    );
    let uploaded = UploadedModel { texture: None, vertex_buffer: None, parts: Vec::new() };
    assert_eq!(
        builder().build(&mut state, Ok(uploaded)).err(),
        Some(ModelError::InvalidModelVertexBuffer)
    );
    // what failed before is handed on
    let error = ModelError::CouldNotLoadTexture { path: "wood.png".to_string() };
    assert_eq!(
        builder().build(&mut state, Err(error)).err(),
        Some(ModelError::CouldNotLoadTexture { path: "wood.png".to_string() })
    );
    let error = ModelError::Obj(ObjError::CouldNotLoadMaterials);
    assert_eq!(
        builder().build(&mut state, Err(error)).err(),
        Some(ModelError::Obj(ObjError::CouldNotLoadMaterials))
    );
    assert_eq!(state.model_count(), 0);
    assert!(state.model_entry(1).is_none());

    // a model without parts gets one group
    let uploaded = UploadedModel {
        texture: Some((GpuTexture { id: 1 }, GpuFuture { id: 2 })),
        vertex_buffer: Some(GpuBuffer { id: 3 }),
        parts: Vec::new(),
    };
    let handle = builder().build(&mut state, Ok(uploaded)).unwrap();
    assert_eq!(handle.id(), 1);
    let entry = state.model_entry(1).unwrap();
    assert_eq!(entry.model.groups, vec![ModelGroup::from_tex(Some(GpuTexture { id: 1 }))]);
    assert_eq!(entry.model.texture_future, vec![GpuFuture { id: 2 }]);
    assert_eq!(entry.model.vertex_buffer, Some(GpuBuffer { id: 3 }));
    let data = state.model_data(1).unwrap();
    assert_eq!(data.groups.len(), 1);
    assert_eq!(data.position, v3(1.0, 2.0, 3.0));
    assert_eq!(data.rotation, Euler::new(float(0.5), float(0.0), float(0.0)));
    assert_eq!(data.scale, float(2.0));

    // one group for each part; a part with a texture of its own uses it
    let uploaded = UploadedModel {
        texture: Some((GpuTexture { id: 1 }, GpuFuture { id: 2 })),
        vertex_buffer: None,
        parts: vec![part(false, None), part(true, Some(7)), part(false, Some(8))],
    };
    let handle = builder().build(&mut state, Ok(uploaded)).unwrap();
    assert_eq!(handle.id(), 2);
    let entry = state.model_entry(2).unwrap();
    assert_eq!(entry.model.groups.len(), 3);
    assert_eq!(entry.model.groups[0].texture, Some(GpuTexture { id: 1 }));
    assert_eq!(entry.model.groups[1].texture, Some(GpuTexture { id: 7 }));
    assert_eq!(entry.model.groups[1].vertex_buffer, Some(GpuBuffer { id: 11 }));
    assert_eq!(entry.model.groups[1].index, Some(GpuBuffer { id: 10 }));
    assert_eq!(entry.model.groups[1].material, None);
    assert_eq!(
        entry.model.texture_future,
        vec![GpuFuture { id: 2 }, GpuFuture { id: 7 }, GpuFuture { id: 8 }]
    );
    assert_eq!(state.model_data(2).unwrap().groups.len(), 3);
    assert!(entry.model.has_vertex_buffer());
    assert_eq!(state.model_count(), 2);
}

fn state_free_builder() -> ModelBuilder {
    let state = GameState::new();
    let builder = state.new_triangle_model();
    assert!(matches!(builder.source_or_shape, SourceOrShape::Triangle));
    assert!(matches!(state.new_rectangle_model().source_or_shape, SourceOrShape::Rectangle));
    assert!(matches!(
        state.new_obj_model("a.obj".to_string()).source_or_shape,
        SourceOrShape::Obj(_)
    ));
    assert!(matches!(
        state.new_fbx_model("a.fbx".to_string()).source_or_shape,
        SourceOrShape::Fbx(_)
    ));
    assert!(matches!(
        state.new_model(ParsedModel::from_vertices(Vec::new())).source_or_shape,
        SourceOrShape::Custom(_)
    ));
    assert_eq!(builder.scale, float(1.0));
    assert_eq!(builder.position, v3(0.0, 0.0, 0.0));
    builder
}
