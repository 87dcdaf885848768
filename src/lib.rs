//! Frame pipeline coordination for a Vulkan renderer: sync objects indexed by
//! the role they play, the swapchain resource bundle with its ordered
//! teardown, and the per-frame state machine that decides every wait,
//! acquire, submit, present and rebuild the caller carries out on the device.

pub mod coordinator;
pub mod events;
pub mod laws;
pub mod resources;
pub mod surface;
pub mod sync_registry;
pub mod sync_usage;
pub mod window;
