use ash::vk;
use ash::vk::Handle;
use cupio::shader::{
    load_spirv, ShaderError, ShaderStage, ShaderStageInfo, VulkanShader, MAX_SHADER_STAGES,
    SPIRV_MAGIC,
};

fn module(raw: u64) -> vk::ShaderModule {
    vk::ShaderModule::from_raw(raw)
}

#[test]
fn stages_set_out_of_order_build_in_slot_order() {
    let shader = VulkanShader::builder()
        .with_fragment_shader(1, module(20))
        .unwrap()
        .with_vertex_shader(0, module(10))
        .unwrap()
        .build()
        .ok()
        .unwrap();
    assert_eq!(shader.n_stages(), 2);
    let infos = shader.shader_stage_create_infos();
    assert_eq!(infos[0].module, module(10));
    assert_eq!(infos[0].stage, ShaderStage::Vertex);
    assert_eq!(infos[1].module, module(20));
    assert_eq!(infos[1].stage, ShaderStage::Fragment);
    assert_eq!(infos[0].entry_point_name(), "main");
}

#[test]
fn stages_set_in_order_build_the_same() {
    let shader = VulkanShader::builder()
        .with_vertex_shader(0, module(10))
        .unwrap()
        .with_fragment_shader(1, module(20))
        .unwrap()
        .build()
        .ok()
        .unwrap();
    let infos = shader.shader_stage_create_infos();
    assert_eq!(infos.len(), 2);
    assert_eq!(infos[0].module, module(10));
    assert_eq!(infos[1].module, module(20));
}

#[test]
fn a_gap_below_the_occupied_count_fails_at_build() {
    let b = VulkanShader::builder().with_vertex_shader(2, module(1)).unwrap();
    assert_eq!(b.n_stages(), 3);
    assert!(matches!(b.build(), Err(ShaderError::StageGap)));
}

#[test]
fn building_with_no_stage_fails() {
    assert!(matches!(VulkanShader::builder().build(), Err(ShaderError::NoStages)));
}

#[test]
fn stage_index_past_capacity_is_refused() {
    let r = VulkanShader::builder().with_vertex_shader(MAX_SHADER_STAGES, module(1));
    assert!(matches!(r, Err(ShaderError::TooManyStages)));
    let r = VulkanShader::builder().with_fragment_shader(MAX_SHADER_STAGES - 1, module(1));
    assert!(r.is_ok());
}

#[test]
fn resetting_a_slot_replaces_its_stage() {
    let shader = VulkanShader::builder()
        .with_vertex_shader(0, module(1))
        .unwrap()
        .with_fragment_shader(0, module(2))
        .unwrap()
        .build()
        .ok()
        .unwrap();
    assert_eq!(shader.n_stages(), 1);
    assert_eq!(shader.shader_stage_create_infos()[0].stage, ShaderStage::Fragment);
}

#[test]
fn put_into_refuses_gaps_and_appends_at_the_end() {
    let mut shader = VulkanShader::builder()
        .with_vertex_shader(0, module(1))
        .unwrap()
        .build()
        .ok()
        .unwrap();
    let frag = ShaderStageInfo { module: module(2), stage: ShaderStage::Fragment };
    assert_eq!(shader.put_into(2, frag), Err(ShaderError::StageGap));
    assert_eq!(shader.put_into(4, frag), Err(ShaderError::TooManyStages));
    assert_eq!(shader.put_into(1, frag), Ok(()));
    assert_eq!(shader.n_stages(), 2);
    assert_eq!(shader.put_into(0, frag), Ok(()));
    assert_eq!(shader.shader_stage_create_infos()[0].module, module(2));
}

#[test]
fn spirv_little_endian_words() {
    let bytes = [0x03, 0x02, 0x23, 0x07, 0x01, 0x02, 0x03, 0x04];
    let words = load_spirv(&bytes).unwrap();
    assert_eq!(words, vec![SPIRV_MAGIC, 0x0403_0201]);
}

#[test]
fn spirv_big_endian_words_are_swapped() {
    let bytes = [0x07, 0x23, 0x02, 0x03, 0x01, 0x02, 0x03, 0x04];
    let words = load_spirv(&bytes).unwrap();
    assert_eq!(words, vec![SPIRV_MAGIC, 0x0102_0304]);
}

#[test]
fn spirv_length_not_a_multiple_of_four_is_malformed() {
    let bytes = [0x03, 0x02, 0x23, 0x07, 0x01];
    assert_eq!(load_spirv(&bytes), Err(ShaderError::MalformedBytecode));
}

#[test]
fn spirv_without_magic_is_malformed() {
    assert_eq!(load_spirv(&[1, 2, 3, 4]), Err(ShaderError::MalformedBytecode));
    assert_eq!(load_spirv(&[]), Err(ShaderError::MalformedBytecode));
}
