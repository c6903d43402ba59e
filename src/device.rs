//! Device-side types that the buffers carry through without looking inside.
use vstd::prelude::*;

verus! {

/// The Vulkan buffer object handle (ash::vk::Buffer), passed to copy commands.
#[verifier::external_type_specification]
#[verifier::external_body]
pub struct ExBuffer(ash::vk::Buffer);

/// A region of device memory owned through gpu_allocator
/// (gpu_allocator::vulkan::Allocation), released by the memory manager.
#[verifier::external_type_specification]
#[verifier::external_body]
pub struct ExAllocation(gpu_allocator::vulkan::Allocation);

} // verus!
