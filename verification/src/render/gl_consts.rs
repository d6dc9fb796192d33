//! Values of the OpenGL enumerants the renderer uses, as fixed by the
//! Khronos OpenGL registry.
use vstd::prelude::*;

verus! {

pub const GL_BYTE: u32 = 0x1400;
pub const GL_UNSIGNED_BYTE: u32 = 0x1401;
pub const GL_SHORT: u32 = 0x1402;
pub const GL_UNSIGNED_SHORT: u32 = 0x1403;
pub const GL_INT: u32 = 0x1404;
pub const GL_UNSIGNED_INT: u32 = 0x1405;
pub const GL_FLOAT: u32 = 0x1406;
pub const GL_DOUBLE: u32 = 0x140A;
pub const GL_HALF_FLOAT: u32 = 0x140B;
pub const GL_FIXED: u32 = 0x140C;

pub const GL_TEXTURE_1D: u32 = 0x0DE0;
pub const GL_TEXTURE_2D: u32 = 0x0DE1;
pub const GL_TEXTURE_3D: u32 = 0x806F;
pub const GL_TEXTURE_1D_ARRAY: u32 = 0x8C18;
pub const GL_TEXTURE_2D_ARRAY: u32 = 0x8C1A;
pub const GL_TEXTURE_RECTANGLE: u32 = 0x84F5;
pub const GL_TEXTURE_CUBE_MAP: u32 = 0x8513;
pub const GL_TEXTURE_CUBE_MAP_ARRAY: u32 = 0x9009;
pub const GL_TEXTURE_BUFFER: u32 = 0x8C2A;
pub const GL_TEXTURE_2D_MULTISAMPLE: u32 = 0x9100;
pub const GL_TEXTURE_2D_MULTISAMPLE_ARRAY: u32 = 0x9102;

pub const GL_READ_ONLY: u32 = 0x88B8;
pub const GL_WRITE_ONLY: u32 = 0x88B9;
pub const GL_READ_WRITE: u32 = 0x88BA;

pub const GL_FRAGMENT_SHADER: u32 = 0x8B30;
pub const GL_VERTEX_SHADER: u32 = 0x8B31;
pub const GL_GEOMETRY_SHADER: u32 = 0x8DD9;
pub const GL_COMPUTE_SHADER: u32 = 0x91B9;

/// The first texture unit; unit `i` is `GL_TEXTURE0 + i`.
pub const GL_TEXTURE0: u32 = 0x84C0;

/// The number of texture units the renderer can select.
pub const TEXTURE_UNIT_COUNT: usize = 32;

} // verus!
