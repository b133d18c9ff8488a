//! GL enum values, fixed by the GL specification.
use vstd::prelude::*;

verus! {

// Depth/stencil comparison functions.
pub const NEVER: u32 = 0x0200;
pub const LESS: u32 = 0x0201;
pub const EQUAL: u32 = 0x0202;
pub const LEQUAL: u32 = 0x0203;
pub const GREATER: u32 = 0x0204;
pub const NOTEQUAL: u32 = 0x0205;
pub const GEQUAL: u32 = 0x0206;
pub const ALWAYS: u32 = 0x0207;

// Blend factors.
pub const ZERO: u32 = 0;
pub const ONE: u32 = 1;
pub const SRC_COLOR: u32 = 0x0300;
pub const ONE_MINUS_SRC_COLOR: u32 = 0x0301;
pub const SRC_ALPHA: u32 = 0x0302;
pub const ONE_MINUS_SRC_ALPHA: u32 = 0x0303;
pub const DST_ALPHA: u32 = 0x0304;
pub const ONE_MINUS_DST_ALPHA: u32 = 0x0305;
pub const DST_COLOR: u32 = 0x0306;
pub const ONE_MINUS_DST_COLOR: u32 = 0x0307;
pub const SRC_ALPHA_SATURATE: u32 = 0x0308;
pub const CONSTANT_COLOR: u32 = 0x8001;
pub const ONE_MINUS_CONSTANT_COLOR: u32 = 0x8002;
pub const CONSTANT_ALPHA: u32 = 0x8003;
pub const ONE_MINUS_CONSTANT_ALPHA: u32 = 0x8004;

// Stencil ops.
pub const STENCIL_KEEP: u32 = 0x1E00;
pub const STENCIL_ZERO: u32 = 0x1E01;
pub const STENCIL_REPLACE: u32 = 0x1E02;
pub const STENCIL_INCR: u32 = 0x1E03;
pub const STENCIL_DECR: u32 = 0x1E04;
pub const STENCIL_INVERT: u32 = 0x1E0A;
pub const STENCIL_INCR_WRAP: u32 = 0x8507;
pub const STENCIL_DECR_WRAP: u32 = 0x8508;

// Cull / winding.
pub const FRONT: u32 = 0x0404;
pub const BACK: u32 = 0x0405;
pub const FRONT_AND_BACK: u32 = 0x0408;
pub const CW: u32 = 0x0900;
pub const CCW: u32 = 0x0901;

// Texture wrap / filter.
pub const REPEAT: u32 = 0x2901;
pub const MIRRORED_REPEAT: u32 = 0x8370;
pub const CLAMP_TO_EDGE: u32 = 0x812F;
pub const NEAREST: u32 = 0x2600;
pub const LINEAR: u32 = 0x2601;

// TexEnv modes (GLES 1.1).
pub const TEXENV_MODULATE: u32 = 0x2100;
pub const TEXENV_REPLACE: u32 = 0x2101;
pub const TEXENV_DECAL: u32 = 0x2104;
pub const TEXENV_BLEND: u32 = 0x2105;
pub const TEXENV_ADD: u32 = 0x0104;

// Texture formats (internal).
pub const GL_RGBA: u32 = 0x1908;
pub const GL_LUMINANCE: u32 = 0x1909;
pub const GL_LUMINANCE_ALPHA: u32 = 0x190A;

} // verus!
