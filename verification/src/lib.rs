//! A verified double-buffered swap chain and presentation pipeline.
//!
//! One rendering producer obtains writable graphics buffers from a
//! fixed-depth (2) pool, fills them, and hands them to a display compositor
//! for presentation.  The core is a synchronization and bookkeeping layer:
//! it never hands the producer the buffer currently on screen, tracks the
//! opaque fence handles that stand for hardware-asynchronous completion, and
//! drives a two-phase prepare/commit composition protocol.
//!
//! The hardware collaborators (the buffer allocator, the display compositor
//! device, and the raw input-device reader) live outside this crate: their
//! replies enter the verified core as plain values, and the actions the core
//! decides on (a layer list to commit, fence descriptors to close) leave it
//! the same way.

pub mod buffer;
pub mod compose;
pub mod fence;
pub mod input;
pub mod laws;
pub mod native;
pub mod surface;
pub mod swapchain;

pub use buffer::GraphicsBuffer;
pub use compose::CommitReply;
pub use compose::LayerList;
pub use fence::Fence;
pub use surface::AllocReply;
pub use surface::DisplaySurface;
pub use swapchain::SwapChain;
