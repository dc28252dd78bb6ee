//! The configuration the windowing shell hands the renderer.

use vstd::prelude::*;

verus! {

/// The configuration of the rendering context.
pub struct ContextConfig {
    /// The shader version string.
    pub shader_version: String,
    /// The initial width of the context.
    pub width: u32,
    /// The initial height of the context.
    pub height: u32,
}

impl ContextConfig {
    /// Returns a new configuration.
    pub fn new(shader_version: String, width: u32, height: u32) -> (r: ContextConfig)
        ensures
            r.shader_version@ == shader_version@,
            r.width == width,
            r.height == height,
    {
        ContextConfig { shader_version, width, height }
    }
}

} // verus!
