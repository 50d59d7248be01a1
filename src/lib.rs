//! Window system integration: binding a window surface to a device's
//! swapchain and handing out frames to render into.
pub mod negotiate;
pub mod target;
