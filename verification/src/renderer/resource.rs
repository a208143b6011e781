//! Device resources by kind, and the error a device call can end in.
use vstd::prelude::*;

verus! {

/// A resource the renderer owns and must hand back to the device, named by
/// kind and raw handle. A teardown is a list of these in the order in which
/// they are to be destroyed.
#[derive(Clone, Copy, Debug, PartialEq, Eq, Structural)]
pub enum Resource {
    /// A compute pipeline.
    Pipeline(u64),
    /// The layout a pipeline was built against.
    PipelineLayout(u64),
    /// A descriptor pool, together with every set allocated from it.
    DescriptorPool(u64),
    /// A descriptor set layout.
    DescriptorSetLayout(u64),
    /// A shader module.
    ShaderModule(u64),
    /// A semaphore.
    Semaphore(u64),
    /// A fence.
    Fence(u64),
    /// A command pool.
    CommandPool(u64),
    /// One command buffer, returned to the pool it was allocated from.
    CommandBuffer { pool: u64, handle: u64 },
    /// A view onto an image of the presentable chain.
    ImageView(u64),
    /// The presentable image chain.
    Swapchain(u64),
    /// The logical device.
    Device,
    /// The presentation surface.
    Surface(u64),
    /// The debug messenger of the device connection.
    DebugMessenger(u64),
    /// The device connection itself.
    Instance,
}

/// A result code with which the device refused a call and from which the
/// renderer cannot recover.
#[derive(Clone, Copy, Debug, PartialEq, Eq, Structural)]
pub struct DeviceError {
    /// The raw result code.
    pub code: i32,
}

/// The result code that reports a presentable chain that no longer matches its
/// surface.
pub const ERROR_OUT_OF_DATE: i32 = -1000001004;

} // verus!
