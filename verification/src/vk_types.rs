//! Vulkan objects that the Vulkan backend keeps together: queues with their
//! family, images with their memory and
//! view, shader modules with their source path, and the surface.
use crate::memory::PhysicalDeviceMemoryProperties;
use crate::swapchain::Extent2D;
use ash::vk;
use ash::vk::CommandBuffer as CommandBufferHandle;
use vstd::prelude::*;

verus! {

/// A queue handle.
#[verifier::external_type_specification]
#[verifier::external_body]
pub struct ExQueue(vk::Queue);

/// A command buffer handle.
#[verifier::external_type_specification]
#[verifier::external_body]
pub struct ExCommandBuffer(CommandBufferHandle);

/// A fence handle.
#[verifier::external_type_specification]
#[verifier::external_body]
pub struct ExFence(vk::Fence);

/// An image handle.
#[verifier::external_type_specification]
#[verifier::external_body]
pub struct ExImage(vk::Image);

/// A device memory handle.
#[verifier::external_type_specification]
#[verifier::external_body]
pub struct ExDeviceMemory(vk::DeviceMemory);

/// An image view handle.
#[verifier::external_type_specification]
#[verifier::external_body]
pub struct ExImageView(vk::ImageView);

/// A shader module handle.
#[verifier::external_type_specification]
#[verifier::external_body]
pub struct ExShaderModule(vk::ShaderModule);

/// A surface handle.
#[verifier::external_type_specification]
#[verifier::external_body]
pub struct ExSurfaceKHR(vk::SurfaceKHR);

/// The instance-level functions of the surface extension.
#[verifier::external_type_specification]
#[verifier::external_body]
pub struct ExSurfaceInstance(ash::khr::surface::Instance);

/// The features of a physical device.
#[verifier::external_type_specification]
#[verifier::external_body]
pub struct ExPhysicalDeviceFeatures(vk::PhysicalDeviceFeatures);

/// The properties of a physical device.
#[verifier::external_type_specification]
#[verifier::external_body]
pub struct ExPhysicalDeviceProperties(vk::PhysicalDeviceProperties);

/// A path in the file system.
#[verifier::external_type_specification]
#[verifier::external_body]
pub struct ExPathBuf(std::path::PathBuf);

/// `PathBuf::clone` gives a path equal to the one cloned.
pub assume_specification[ <std::path::PathBuf as std::clone::Clone>::clone ](
    path: &std::path::PathBuf,
) -> (copy: std::path::PathBuf)
    ensures
        copy == *path,
;

/// A borrowed path in the file system.
#[verifier::external_type_specification]
#[verifier::external_body]
pub struct ExPath(std::path::Path);

/// What is known of a physical device: its memory, features and properties.
pub struct VkDeviceProperties {
    pub memory: PhysicalDeviceMemoryProperties,
    pub features: vk::PhysicalDeviceFeatures,
    pub properties: vk::PhysicalDeviceProperties,
}

/// An image with its memory, view and size.
pub struct VkImage {
    pub image: vk::Image,
    pub image_memory: vk::DeviceMemory,
    pub image_view: vk::ImageView,
    pub extent: Extent2D,
}

/// A queue and the index of the family it belongs to.
#[derive(Debug)]
pub struct VkQueue {
    pub queue: vk::Queue,
    pub index: u32,
}

impl VkQueue {
    /// The queue `queue` of family `index`.
    pub fn new(queue: vk::Queue, index: u32) -> (q: Self)
        ensures
            q.queue == queue,
            q.index == index,
    {
        Self { queue, index }
    }
}

/// The queues a renderer submits graphics, transfer and compute work to.
#[derive(Debug)]
pub struct VkQueues {
    pub graphics_queue: VkQueue,
    pub transfer_queue: VkQueue,
    pub compute_queue: VkQueue,
}

/// A shader module and the file it was compiled from.
#[derive(Debug)]
pub struct VkShaderModule {
    pub path: std::path::PathBuf,
    pub module: vk::ShaderModule,
}

/// A surface and the functions that query it.
pub struct VkSurface {
    pub surface: vk::SurfaceKHR,
    pub surface_loader: ash::khr::surface::Instance,
}

/// A command buffer and the fence that signals when its work is done.
pub struct CommandBuffer {
    pub command_buffer: CommandBufferHandle,
    pub fence: vk::Fence,
}

} // verus!
