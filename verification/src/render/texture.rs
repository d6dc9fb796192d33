//! Texture targets, image access modes, texture objects and texture units.
use vstd::prelude::*;

use crate::render::gl_consts::{
    GL_READ_ONLY, GL_READ_WRITE, GL_TEXTURE0, GL_TEXTURE_1D, GL_TEXTURE_1D_ARRAY, GL_TEXTURE_2D,
    GL_TEXTURE_2D_ARRAY, GL_TEXTURE_2D_MULTISAMPLE, GL_TEXTURE_2D_MULTISAMPLE_ARRAY,
    GL_TEXTURE_3D, GL_TEXTURE_BUFFER, GL_TEXTURE_CUBE_MAP, GL_TEXTURE_CUBE_MAP_ARRAY,
    GL_TEXTURE_RECTANGLE, GL_WRITE_ONLY, TEXTURE_UNIT_COUNT,
};

verus! {

/// The kind of texture a texture object is bound as.
#[derive(Clone, Copy, Debug, PartialEq, Eq, Structural)]
pub enum TextureTarget {
    Texture1d,
    Texture2d,
    Texture3d,
    Texture1dArray,
    Texture2dArray,
    TextureRectangle,
    TextureCubeMap,
    TextureCubeMapArray,
    TextureBuffer,
    Texture2dMultisample,
    Texture2dMultisampleArray,
}

/// The OpenGL enumerant that names a texture target.
pub open spec fn texture_target_enum(t: TextureTarget) -> u32 {
    match t {
        TextureTarget::Texture1d => GL_TEXTURE_1D,
        TextureTarget::Texture2d => GL_TEXTURE_2D,
        TextureTarget::Texture3d => GL_TEXTURE_3D,
        TextureTarget::Texture1dArray => GL_TEXTURE_1D_ARRAY,
        TextureTarget::Texture2dArray => GL_TEXTURE_2D_ARRAY,
        TextureTarget::TextureRectangle => GL_TEXTURE_RECTANGLE,
        TextureTarget::TextureCubeMap => GL_TEXTURE_CUBE_MAP,
        TextureTarget::TextureCubeMapArray => GL_TEXTURE_CUBE_MAP_ARRAY,
        TextureTarget::TextureBuffer => GL_TEXTURE_BUFFER,
        TextureTarget::Texture2dMultisample => GL_TEXTURE_2D_MULTISAMPLE,
        TextureTarget::Texture2dMultisampleArray => GL_TEXTURE_2D_MULTISAMPLE_ARRAY,
    }
}

impl TextureTarget {
    /// The OpenGL enumerant (`GLenum`) for this target.
    pub fn gl_enum(&self) -> (r: u32)
        ensures
            r == texture_target_enum(*self),
    {
        match self {
            TextureTarget::Texture1d => GL_TEXTURE_1D,
            TextureTarget::Texture2d => GL_TEXTURE_2D,
            TextureTarget::Texture3d => GL_TEXTURE_3D,
            TextureTarget::Texture1dArray => GL_TEXTURE_1D_ARRAY,
            TextureTarget::Texture2dArray => GL_TEXTURE_2D_ARRAY,
            TextureTarget::TextureRectangle => GL_TEXTURE_RECTANGLE,
            TextureTarget::TextureCubeMap => GL_TEXTURE_CUBE_MAP,
            TextureTarget::TextureCubeMapArray => GL_TEXTURE_CUBE_MAP_ARRAY,
            TextureTarget::TextureBuffer => GL_TEXTURE_BUFFER,
            TextureTarget::Texture2dMultisample => GL_TEXTURE_2D_MULTISAMPLE,
            TextureTarget::Texture2dMultisampleArray => GL_TEXTURE_2D_MULTISAMPLE_ARRAY,
        }
    }
}

/// How a shader may access an image bound to an image unit.
#[derive(Clone, Copy, Debug, PartialEq, Eq, Structural)]
pub enum ImageAccess {
    Read,
    Write,
    ReadWrite,
}

/// The OpenGL enumerant that names an image access mode.
pub open spec fn image_access_enum(a: ImageAccess) -> u32 {
    match a {
        ImageAccess::Read => GL_READ_ONLY,
        ImageAccess::Write => GL_WRITE_ONLY,
        ImageAccess::ReadWrite => GL_READ_WRITE,
    }
}

impl ImageAccess {
    /// The OpenGL enumerant (`GLenum`) for this access mode.
    pub fn gl_enum(&self) -> (r: u32)
        ensures
            r == image_access_enum(*self),
    {
        match self {
            ImageAccess::Read => GL_READ_ONLY,
            ImageAccess::Write => GL_WRITE_ONLY,
            ImageAccess::ReadWrite => GL_READ_WRITE,
        }
    }
}

/// A texture object: the name OpenGL gave it and the target it is bound as.
pub struct Texture {
    id: u32,
    target: TextureTarget,
}

impl Texture {
    /// The texture object with the given name, bound as `target`.
    pub fn new(id: u32, target: TextureTarget) -> (r: Texture)
        ensures
            r.spec_id() == id,
            r.spec_target() == target,
    {
        Texture { id, target }
    }

    pub closed spec fn spec_id(&self) -> u32 {
        self.id
    }

    pub closed spec fn spec_target(&self) -> TextureTarget {
        self.target
    }

    /// The name OpenGL gave this texture object.
    pub fn id(&self) -> (r: u32)
        ensures
            r == self.spec_id(),
    {
        self.id
    }

    /// The target this texture is bound as.
    pub fn target(&self) -> (r: TextureTarget)
        ensures
            r == self.spec_target(),
    {
        self.target
    }
}

/// The enumerant that selects texture unit `unit`.
pub open spec fn texture_unit_enum(unit: nat) -> int {
    GL_TEXTURE0 + unit
}

/// The enumerant that makes texture unit `unit` the active one
/// (`GL_TEXTURE0` for unit 0 up to `GL_TEXTURE31` for unit 31). Units
/// from 32 on are not selectable: callers check `unit < 32` first.
pub fn texture_unit(unit: usize) -> (r: u32)
    requires
        unit < TEXTURE_UNIT_COUNT,
    ensures
        r == texture_unit_enum(unit as nat),
{
    let offset: u32 = unit as u32;
    GL_TEXTURE0 + offset
}

/// Distinct texture targets are named by distinct OpenGL enumerants.
pub proof fn lemma_texture_target_enum_injective(a: TextureTarget, b: TextureTarget)
    requires
        a != b,
    ensures
        texture_target_enum(a) != texture_target_enum(b),
{
}

/// Distinct image access modes are named by distinct OpenGL enumerants.
pub proof fn lemma_image_access_enum_injective(a: ImageAccess, b: ImageAccess)
    requires
        a != b,
    ensures
        image_access_enum(a) != image_access_enum(b),
{
}

/// Distinct texture units are selected by distinct enumerants, all of them
/// in the range `GL_TEXTURE0 ..= GL_TEXTURE0 + 31`.
pub proof fn lemma_texture_unit_enum_distinct(a: nat, b: nat)
    requires
        a < TEXTURE_UNIT_COUNT,
        b < TEXTURE_UNIT_COUNT,
        a != b,
    ensures
        texture_unit_enum(a) != texture_unit_enum(b),
        GL_TEXTURE0 <= texture_unit_enum(a) < GL_TEXTURE0 + TEXTURE_UNIT_COUNT,
{
}

} // verus!
