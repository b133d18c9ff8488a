//! Vantage: GPU shader code generation, AMDGPU command streams and the
//! supporting kernel, window-system and GL front-end encodings.
pub mod codegen;
pub mod drm;
pub mod egl;
pub mod egl_display;
pub mod gbm;
pub mod gles;
pub mod hal;
pub mod raster;
pub mod text;
