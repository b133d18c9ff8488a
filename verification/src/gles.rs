//! OpenGL ES front-end state shared with the EGL layer: errors, the
//! fixed-function pipeline key and shader objects.
use vstd::prelude::*;

verus! {

/// Errors produced by context/surface creation and present paths.
#[derive(Debug)]
pub enum VantageError {
    /// No surface is configured for the requested operation.
    NoSurface,
    /// Acquiring the presentation target failed.
    SurfaceAcquire(&'static str),
    /// The JIT codegen backend is unavailable (freestanding build).
    JitUnavailable,
}

/// The human-readable description of an error.
pub open spec fn error_message(error: VantageError) -> Seq<char> {
    match error {
        VantageError::NoSurface => "no surface configured"@,
        VantageError::SurfaceAcquire(message) => "surface texture acquire failed: "@ + message@,
        VantageError::JitUnavailable => "no codegen backend available"@,
    }
}

impl VantageError {
    /// The human-readable description of the error.
    pub fn message(&self) -> (r: String)
        ensures
            r@ == error_message(*self),
    {
        match self {
            VantageError::NoSurface => String::from_str("no surface configured"),
            VantageError::SurfaceAcquire(message) => {
                let mut text = String::from_str("surface texture acquire failed: ");
                text.append(message);
                text
            },
            VantageError::JitUnavailable => String::from_str("no codegen backend available"),
        }
    }
}

/// Raster/fixed-function pipeline identity for the pipeline cache.
#[derive(Debug, Clone, Copy, PartialEq, Eq, Structural)]
pub struct PipelineKey {
    /// 0=triangles, 1=triangle_strip, 2=triangle_fan, 3=lines, 4=line_strip, 5=points
    pub topology: u32,
    /// 0=none, 1=front, 2=back
    pub cull_mode: u32,
    pub front_face_ccw: bool,
    pub blend_enabled: bool,
    pub src_factor: u32,
    pub dst_factor: u32,
    pub depth_test: bool,
    pub depth_write: bool,
    pub depth_func: u32,
    pub color_mask: u8,
}

/// A GLES2 shader object.
#[derive(Debug, Clone)]
pub struct ShaderObject {
    pub id: u32,
    /// GL_VERTEX_SHADER or GL_FRAGMENT_SHADER.
    pub shader_type: u32,
    pub source: String,
    pub compiled: bool,
    pub info_log: String,
}

} // verus!
