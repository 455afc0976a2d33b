pub mod data;
pub mod loader;
pub mod scene;
pub mod triangulator;

pub use self::data::{
    GeometryMesh, GeometryMeshIndex, LambertData, Material, MaterialIndex, Mesh, MeshIndex, Scene,
    ShadingData, Texture, TextureIndex, WrapMode,
};
