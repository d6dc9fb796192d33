use slime_sim::render::shader::ShaderType;
use slime_sim::render::texture::{texture_unit, ImageAccess, TextureTarget};
use slime_sim::render::GlDataType;

#[test]
fn data_type_enums_match_gl() {
    assert_eq!(GlDataType::Byte.gl_enum(), gl::BYTE);
    assert_eq!(GlDataType::UnsignedByte.gl_enum(), gl::UNSIGNED_BYTE);
    assert_eq!(GlDataType::Short.gl_enum(), gl::SHORT);
    assert_eq!(GlDataType::UnsignedShort.gl_enum(), gl::UNSIGNED_SHORT);
    assert_eq!(GlDataType::Int.gl_enum(), gl::INT);
    assert_eq!(GlDataType::UnsignedInt.gl_enum(), gl::UNSIGNED_INT);
    assert_eq!(GlDataType::Fixed.gl_enum(), gl::FIXED);
    assert_eq!(GlDataType::Half.gl_enum(), gl::HALF_FLOAT);
    assert_eq!(GlDataType::Float.gl_enum(), gl::FLOAT);
    assert_eq!(GlDataType::Double.gl_enum(), gl::DOUBLE);
}

#[test]
fn data_type_sizes() {
    assert_eq!(GlDataType::Byte.size(), std::mem::size_of::<i8>());
    assert_eq!(GlDataType::UnsignedByte.size(), std::mem::size_of::<u8>());
    assert_eq!(GlDataType::Short.size(), std::mem::size_of::<i16>());
    assert_eq!(GlDataType::UnsignedShort.size(), std::mem::size_of::<u16>());
    assert_eq!(GlDataType::Int.size(), std::mem::size_of::<i32>());
    assert_eq!(GlDataType::UnsignedInt.size(), std::mem::size_of::<u32>());
    assert_eq!(GlDataType::Fixed.size(), std::mem::size_of::<i32>());
    assert_eq!(GlDataType::Half.size(), 16);
    assert_eq!(GlDataType::Float.size(), std::mem::size_of::<f32>());
    assert_eq!(GlDataType::Double.size(), std::mem::size_of::<f64>());
}

#[test]
fn texture_target_enums_match_gl() {
    assert_eq!(TextureTarget::Texture1d.gl_enum(), gl::TEXTURE_1D);
    assert_eq!(TextureTarget::Texture2d.gl_enum(), gl::TEXTURE_2D);
    assert_eq!(TextureTarget::Texture3d.gl_enum(), gl::TEXTURE_3D);
    assert_eq!(TextureTarget::Texture1dArray.gl_enum(), gl::TEXTURE_1D_ARRAY);
    assert_eq!(TextureTarget::Texture2dArray.gl_enum(), gl::TEXTURE_2D_ARRAY);
    assert_eq!(TextureTarget::TextureRectangle.gl_enum(), gl::TEXTURE_RECTANGLE);
    assert_eq!(TextureTarget::TextureCubeMap.gl_enum(), gl::TEXTURE_CUBE_MAP);
    assert_eq!(TextureTarget::TextureCubeMapArray.gl_enum(), gl::TEXTURE_CUBE_MAP_ARRAY);
    assert_eq!(TextureTarget::TextureBuffer.gl_enum(), gl::TEXTURE_BUFFER);
    assert_eq!(TextureTarget::Texture2dMultisample.gl_enum(), gl::TEXTURE_2D_MULTISAMPLE);
    assert_eq!(
        TextureTarget::Texture2dMultisampleArray.gl_enum(),
        gl::TEXTURE_2D_MULTISAMPLE_ARRAY
    );
}

#[test]
fn image_access_enums_match_gl() {
    assert_eq!(ImageAccess::Read.gl_enum(), gl::READ_ONLY);
    assert_eq!(ImageAccess::Write.gl_enum(), gl::WRITE_ONLY);
    assert_eq!(ImageAccess::ReadWrite.gl_enum(), gl::READ_WRITE);
}

#[test]
fn shader_type_enums_match_gl() {
    assert_eq!(ShaderType::Vertex.gl_enum(), gl::VERTEX_SHADER);
    assert_eq!(ShaderType::Fragment.gl_enum(), gl::FRAGMENT_SHADER);
    assert_eq!(ShaderType::Compute.gl_enum(), gl::COMPUTE_SHADER);
    assert_eq!(ShaderType::Geometry.gl_enum(), gl::GEOMETRY_SHADER);
}

#[test]
fn texture_units_match_gl() {
    let units = [
        gl::TEXTURE0, gl::TEXTURE1, gl::TEXTURE2, gl::TEXTURE3, gl::TEXTURE4, gl::TEXTURE5,
        gl::TEXTURE6, gl::TEXTURE7, gl::TEXTURE8, gl::TEXTURE9, gl::TEXTURE10, gl::TEXTURE11,
        gl::TEXTURE12, gl::TEXTURE13, gl::TEXTURE14, gl::TEXTURE15, gl::TEXTURE16, gl::TEXTURE17,
        gl::TEXTURE18, gl::TEXTURE19, gl::TEXTURE20, gl::TEXTURE21, gl::TEXTURE22, gl::TEXTURE23,
        gl::TEXTURE24, gl::TEXTURE25, gl::TEXTURE26, gl::TEXTURE27, gl::TEXTURE28, gl::TEXTURE29,
        gl::TEXTURE30, gl::TEXTURE31,
    ];
    for (i, unit) in units.iter().enumerate() {
        assert_eq!(texture_unit(i), *unit);
    }
}

#[test]
fn texture_keeps_id_and_target() {
    let t = slime_sim::render::texture::Texture::new(7, TextureTarget::Texture2d);
    assert_eq!(t.id(), 7);
    assert_eq!(t.target(), TextureTarget::Texture2d);
}
