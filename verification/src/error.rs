use vstd::prelude::*;

verus! {

/// Errors generated when loading a model
#[derive(Debug, PartialEq, Eq)]
pub enum ModelError {
    /// Could not load a texture from the given path
    CouldNotLoadTexture {
        /// The path of the texture that was trying to be loaded
        path: String,
    },
    /// The model that was loaded has no vertex buffer: neither the model
    /// nor any of its groups has one, so nothing of it could be drawn.
    InvalidModelVertexBuffer,
    /// The error that was thrown whilst loading an .obj file.
    Obj(ObjError),
    /// The error that was thrown whilst loading an .fbx file.
    Fbx(FbxError),
}

/// Errors that can occur when loading an .obj file
#[derive(Debug, PartialEq, Eq)]
pub enum ObjError {
    /// Could not load an .obj file
    CouldNotLoadObj,
    /// Could not load the .obj's materials
    CouldNotLoadMaterials,
}

/// Errors that can occur when loading an .fbx file
#[derive(Debug, PartialEq, Eq)]
pub enum FbxError {
    /// The model has no polygon vertices
    NoPolygonVertices,
    /// Could not triangulate the model
    CouldNotTriangulate,
    /// The model mesh has no layers
    MeshHasNoLayer,
    /// The model mesh has no normals
    MeshHasNoNormals,
    /// The model mesh has no UV
    MeshHasNoUV,
    /// The model mesh has no materials
    MeshHasNoMaterials,
    /// The model's components should match in length, but they don't.
    InvalidModelComponentCount {
        /// The amount of positions that were found
        positions: usize,
        /// The amount of normals that were found
        normals: usize,
        /// The amount of UVs that were found
        uv: usize,
    },
    /// The shading model of the model is incorrect
    UnknownShadingModel,
    /// Could not load geometry
    CouldNotLoadGeometry,
    /// Could not load materials
    CouldNotLoadMaterials(Box<FbxError>),
    /// Could not load the geometry mesh
    CouldNotLoadGeometryMesh(Box<FbxError>),
    /// Could not wrap the UV axis
    CouldNotWrapUVAxis,
    /// The model is missing image data
    MissingImageData,
    /// Could not load the video of the model
    CouldNotLoadVideo(Box<FbxError>),
    /// Could not load the video file of the model
    CouldNotLoadVideoFile,
    /// The video file of the model has no content
    NoVideoContent,
    /// Could not interpret the image data as a TGA file
    CouldNotLoadTgaImage,
    /// Could not load the texture image
    CouldNotLoadVideoImage,
    /// Could not open the given file for reading
    CouldNotOpenFile {
        /// The file that was trying to be loaded
        file: String,
    },
    /// Could not parse the FBX document
    CouldNotParseDocument,
    /// The model is in an FBX format that can currently not be loaded.
    UnsupportedFormat,
}

/// Errors generated when creating GUI elements
#[derive(Debug, PartialEq, Eq)]
pub enum GuiError {
    /// Could not load the texture at the given path
    CouldNotLoadTexture {
        /// The path where the texture was loaded from
        path: String,
    },
    /// Could not turn the texture into an image on the graphics device
    CouldNotCreateTexture,
    /// Could not read the given font
    CouldNotReadFontFile {
        /// The file being loaded
        file: String,
    },
    /// Could not parse the font file
    CouldNotLoadFont,
}

/// Errors that are thrown during initialization. These are mostly internal
/// and graphic card errors and are unlikely to occur.
#[derive(Clone, Copy, Debug, PartialEq, Eq)]
pub enum InitError {
    /// Could not load the capabilities of a surface
    CouldNotLoadSurfaceCapabilities,
    /// Could not load the alpha channel of the surface
    NoCompositeAlpha,
    /// Could not initialize the swapchain
    CouldNotInitSwapchain,
    /// Could not create the swapchain images
    CouldNotBuildSwapchainImages,
    /// Could not recreate the swapchain images, which usually happens on resizing the window
    CouldNotRecreateSwapchain,
    /// Could not acquire the next swapchain image
    CouldNotAcquireSwapchainImage,
    /// Could not create a device
    CouldNotCreateDevice,
    /// Could not find a physical device
    CouldNotFindPhysicalDevice,
    /// Could not find a valid graphics queue
    CouldNotFindValidGraphicsQueue,
    /// Could not initialize the graphics library
    CouldNotInitVulkano,
    /// Could not create a window
    CouldNotCreateWindow,
}

} // verus!
