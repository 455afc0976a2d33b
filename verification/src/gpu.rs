use vstd::prelude::*;

verus! {

/// The name of a buffer that lives on the graphics device.
///
/// The engine's bookkeeping never looks inside a buffer: it stores the
/// name that the graphics layer gave it and hands it back for drawing.
#[derive(Clone, Copy, Debug, PartialEq, Eq, Structural)]
pub struct GpuBuffer {
    pub id: u64,
}

/// The name of a texture that lives on the graphics device.
#[derive(Clone, Copy, Debug, PartialEq, Eq, Structural)]
pub struct GpuTexture {
    pub id: u64,
}

/// The name of an upload that the graphics device has not finished yet.
/// Whatever draws a resource first has to wait for its uploads.
#[derive(Clone, Copy, Debug, PartialEq, Eq, Structural)]
pub struct GpuFuture {
    pub id: u64,
}

} // verus!
