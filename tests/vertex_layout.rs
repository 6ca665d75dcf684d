use ash::vk;
use cupio::vertices::{AttributeFormat, VertexInputRate, VertexLayoutError, VulkanVertices};

struct Huge {
    _bytes: [u8; 1 << 32],
}

#[derive(Clone, Copy)]
struct Vertex {
    _pos: [f32; 4],
    _color: [f32; 4],
}

#[test]
fn two_vec4_attributes_take_locations_zero_and_one() {
    let v = VulkanVertices::<Vertex>::new_vertex_data().unwrap()
        .with_topology(vk::PrimitiveTopology::TRIANGLE_LIST)
        .add_vec4_attribute(0)
        .add_vec4_attribute(16);
    let state = v.get_vertex_input_state();
    let locs: Vec<u32> = state.attributes.iter().map(|a| a.location).collect();
    let offs: Vec<u32> = state.attributes.iter().map(|a| a.offset).collect();
    assert_eq!(locs, vec![0, 1]);
    assert_eq!(offs, vec![0, 16]);
    assert!(state.attributes.iter().all(|a| a.binding == 0 && a.format == AttributeFormat::Vec4));
    assert_eq!(state.binding.stride, 32);
    assert_eq!(state.binding.binding, 0);
    assert_eq!(state.binding.input_rate, VertexInputRate::Vertex);
    assert_eq!(v.get_input_assembly_state(), Some(vk::PrimitiveTopology::TRIANGLE_LIST));
}

#[test]
fn locations_follow_call_order_not_offsets() {
    let v = VulkanVertices::<Vertex>::new_vertex_data().unwrap()
        .add_vec4_attribute(16)
        .add_vec4_attribute(0);
    let state = v.get_vertex_input_state();
    assert_eq!(state.attributes[0].location, 0);
    assert_eq!(state.attributes[0].offset, 16);
    assert_eq!(state.attributes[1].location, 1);
    assert_eq!(state.attributes[1].offset, 0);
}

#[test]
fn each_method_appends_its_format() {
    let v = VulkanVertices::<[u32; 16]>::new_instanced_data().unwrap()
        .add_vec3_attribute(0)
        .add_vec2_attribute(12)
        .add_float_attribute(20)
        .add_int_attribute(24)
        .add_ivec2_attribute(28)
        .add_ivec3_attribute(36)
        .add_ivec4_attribute(48)
        .add_attribute(AttributeFormat::Vec4, 0);
    let state = v.get_vertex_input_state();
    let formats: Vec<AttributeFormat> = state.attributes.iter().map(|a| a.format).collect();
    assert_eq!(
        formats,
        vec![
            AttributeFormat::Vec3,
            AttributeFormat::Vec2,
            AttributeFormat::Float,
            AttributeFormat::Int,
            AttributeFormat::IVec2,
            AttributeFormat::IVec3,
            AttributeFormat::IVec4,
            AttributeFormat::Vec4,
        ]
    );
    let locs: Vec<u32> = state.attributes.iter().map(|a| a.location).collect();
    assert_eq!(locs, (0..8).collect::<Vec<u32>>());
    assert_eq!(state.binding.input_rate, VertexInputRate::Instance);
    assert_eq!(state.binding.stride, 64);
}

#[test]
fn topology_is_unset_until_chosen() {
    let v = VulkanVertices::<u32>::new_vertex_data().unwrap();
    assert_eq!(v.get_input_assembly_state(), None);
    assert!(v.get_vertex_input_state().attributes.is_empty());
}

#[test]
fn record_wider_than_a_stride_is_refused() {
    assert!(matches!(
        VulkanVertices::<Huge>::new_vertex_data(),
        Err(VertexLayoutError::RecordTooLarge)
    ));
    assert!(VulkanVertices::<[u8; (1 << 32) - 1]>::new_instanced_data().is_ok());
}
