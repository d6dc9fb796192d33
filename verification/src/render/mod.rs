//! OpenGL-facing data: element types, textures, shaders and vertex layouts.
pub mod gl_consts;
pub mod shader;
pub mod texture;
pub mod vertex_arrays;

use vstd::prelude::*;

use crate::render::gl_consts::{
    GL_BYTE, GL_DOUBLE, GL_FIXED, GL_FLOAT, GL_HALF_FLOAT, GL_INT, GL_SHORT, GL_UNSIGNED_BYTE,
    GL_UNSIGNED_INT, GL_UNSIGNED_SHORT,
};

verus! {

/// The type of a single component handed to OpenGL (vertex attributes,
/// pixel data).
#[derive(Clone, Copy, Debug, PartialEq, Eq, Structural)]
pub enum GlDataType {
    Byte,
    UnsignedByte,
    Short,
    UnsignedShort,
    Int,
    UnsignedInt,
    Fixed,
    Half,
    Float,
    Double,
}

/// The number of bytes one component of the given type occupies in a
/// buffer, as the renderer counts it.
pub open spec fn data_type_size(t: GlDataType) -> nat {
    match t {
        GlDataType::Byte => 1,
        GlDataType::UnsignedByte => 1,
        GlDataType::Short => 2,
        GlDataType::UnsignedShort => 2,
        GlDataType::Int => 4,
        GlDataType::UnsignedInt => 4,
        GlDataType::Fixed => 4,
        GlDataType::Half => 16,
        GlDataType::Float => 4,
        GlDataType::Double => 8,
    }
}

/// The OpenGL enumerant that names the given component type.
pub open spec fn data_type_enum(t: GlDataType) -> u32 {
    match t {
        GlDataType::Byte => GL_BYTE,
        GlDataType::UnsignedByte => GL_UNSIGNED_BYTE,
        GlDataType::Short => GL_SHORT,
        GlDataType::UnsignedShort => GL_UNSIGNED_SHORT,
        GlDataType::Int => GL_INT,
        GlDataType::UnsignedInt => GL_UNSIGNED_INT,
        GlDataType::Fixed => GL_FIXED,
        GlDataType::Half => GL_HALF_FLOAT,
        GlDataType::Float => GL_FLOAT,
        GlDataType::Double => GL_DOUBLE,
    }
}

impl GlDataType {
    /// Size in bytes of one component of this type.
    pub fn size(&self) -> (r: usize)
        ensures
            r == data_type_size(*self),
    {
        match self {
            GlDataType::Byte => 1,
            GlDataType::UnsignedByte => 1,
            GlDataType::Short => 2,
            GlDataType::UnsignedShort => 2,
            GlDataType::Int => 4,
            GlDataType::UnsignedInt => 4,
            GlDataType::Fixed => 4,
            GlDataType::Half => 16,
            GlDataType::Float => 4,
            GlDataType::Double => 8,
        }
    }

    /// The OpenGL enumerant (`GLenum`) for this type.
    pub fn gl_enum(&self) -> (r: u32)
        ensures
            r == data_type_enum(*self),
    {
        match self {
            GlDataType::Byte => GL_BYTE,
            GlDataType::UnsignedByte => GL_UNSIGNED_BYTE,
            GlDataType::Short => GL_SHORT,
            GlDataType::UnsignedShort => GL_UNSIGNED_SHORT,
            GlDataType::Int => GL_INT,
            GlDataType::UnsignedInt => GL_UNSIGNED_INT,
            GlDataType::Fixed => GL_FIXED,
            GlDataType::Half => GL_HALF_FLOAT,
            GlDataType::Float => GL_FLOAT,
            GlDataType::Double => GL_DOUBLE,
        }
    }
}

/// Every component type occupies at least one byte and at most sixteen.
pub proof fn lemma_data_type_size_bounds(t: GlDataType)
    ensures
        1 <= data_type_size(t) <= 16,
{
}

/// Distinct component types are named by distinct OpenGL enumerants.
pub proof fn lemma_data_type_enum_injective(a: GlDataType, b: GlDataType)
    requires
        a != b,
    ensures
        data_type_enum(a) != data_type_enum(b),
{
}

} // verus!
