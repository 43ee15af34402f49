//! Plain data containers of the rendering façade that collaborators exchange
//! with the engine. The GPU work they configure happens outside this crate.

use vstd::prelude::*;

verus! {

/// Filter mode for a texture.
#[derive(Debug, Clone, Copy, PartialEq, Eq, Structural)]
pub enum TextureFilterMode {
    /// Nearest neighbor sampling.
    Point,
    /// Bilinear interpolation in uv space.
    Bilinear,
    /// Trilinear interpolation in uv space and mipmap levels.
    Trilinear,
}

impl Default for TextureFilterMode {
    /// Textures filter bilinearly unless a mode is chosen.
    fn default() -> (mode: Self)
        ensures
            mode == TextureFilterMode::Bilinear,
    {
        TextureFilterMode::Bilinear
    }
}

/// The type of a uniform variable whose binding the engine supports by
/// default.
#[derive(Debug, Clone, Copy, PartialEq, Eq, Hash, Structural)]
pub enum UniformType {
    /// Binds a 2D texture as a uniform.
    Texture2D,
    /// Binds a camera as a uniform.
    Camera,
    /// Binds a camera transform as a uniform.
    CameraTransform,
    /// Binds a model (mesh) transform as a uniform.
    ModelTransform,
}

} // verus!
