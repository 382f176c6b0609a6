use triangle_renderer::shader::decode_spirv;
use triangle_renderer::shader::ShaderError;
use triangle_renderer::shader::ShaderKind;
use triangle_renderer::shader::SPIRV_MAGIC;

#[test]
fn decodes_little_endian_module() {
    let bytes: Vec<u8> = vec![0x03, 0x02, 0x23, 0x07, 0x00, 0x00, 0x01, 0x00, 0x78, 0x56, 0x34, 0x12];
    assert_eq!(decode_spirv(&bytes), Ok(vec![SPIRV_MAGIC, 0x0001_0000, 0x1234_5678]));
}

#[test]
fn decodes_big_endian_module() {
    let bytes: Vec<u8> = vec![0x07, 0x23, 0x02, 0x03, 0x00, 0x01, 0x00, 0x00, 0x12, 0x34, 0x56, 0x78];
    assert_eq!(decode_spirv(&bytes), Ok(vec![SPIRV_MAGIC, 0x0001_0000, 0x1234_5678]));
}

#[test]
fn decodes_module_of_the_magic_number_alone() {
    assert_eq!(decode_spirv(&SPIRV_MAGIC.to_le_bytes()), Ok(vec![SPIRV_MAGIC]));
    assert_eq!(decode_spirv(&SPIRV_MAGIC.to_be_bytes()), Ok(vec![SPIRV_MAGIC]));
}

#[test]
fn rejects_length_not_divisible_by_four() {
    let bytes: Vec<u8> = vec![0x03, 0x02, 0x23, 0x07, 0x00];
    assert_eq!(decode_spirv(&bytes), Err(ShaderError::Misaligned));
    assert_eq!(decode_spirv(&[0x03]), Err(ShaderError::Misaligned));
}

#[test]
fn rejects_empty_binary() {
    assert_eq!(decode_spirv(&[]), Err(ShaderError::MissingMagic));
}

#[test]
fn rejects_wrong_magic_number() {
    let bytes: Vec<u8> = vec![0x03, 0x02, 0x23, 0x08, 0x03, 0x02, 0x23, 0x07];
    assert_eq!(decode_spirv(&bytes), Err(ShaderError::MissingMagic));
    assert_eq!(decode_spirv(&[0, 0, 0, 0]), Err(ShaderError::MissingMagic));
}

#[test]
fn every_stage_enters_at_main() {
    assert_eq!(ShaderKind::Vertex.entry_point(), "main");
    assert_eq!(ShaderKind::Fragment.entry_point(), "main");
}

#[test]
fn stage_source_names() {
    assert_eq!(ShaderKind::Vertex.source_name(), "shader.vert");
    assert_eq!(ShaderKind::Fragment.source_name(), "shader.frag");
}
