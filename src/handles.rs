use vstd::prelude::*;

verus! {

/// A Vulkan buffer object; carried through unread.
#[verifier::external_type_specification]
#[verifier::external_body]
pub struct ExBuffer(ash::vk::Buffer);

/// A Vulkan device-memory allocation; carried through unread.
#[verifier::external_type_specification]
#[verifier::external_body]
pub struct ExDeviceMemory(ash::vk::DeviceMemory);

/// A Vulkan shader module; carried through unread.
#[verifier::external_type_specification]
#[verifier::external_body]
pub struct ExShaderModule(ash::vk::ShaderModule);

/// A Vulkan primitive topology; carried through unread.
#[verifier::external_type_specification]
#[verifier::external_body]
pub struct ExPrimitiveTopology(ash::vk::PrimitiveTopology);

/// A Vulkan semaphore; carried through unread.
#[verifier::external_type_specification]
#[verifier::external_body]
pub struct ExSemaphore(ash::vk::Semaphore);

} // verus!
