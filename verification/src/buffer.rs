//! Allocated, reference-counted presentable buffers.
//!
//! A `GraphicsBuffer` models one allocation made by the external buffer
//! allocator: its dimensions, stride, pixel format and usage flags are fixed
//! when the allocator reports them and never mutated afterwards.  The
//! platform memory handle is opaque to this core and carried as a plain
//! identifier.  An externally-visible reference count governs the lifetime
//! of the wrapper object: it starts at 1 with the creator, and the buffer is
//! to be destroyed (its backing memory freed through the allocator) exactly
//! when the count reaches 0.

use vstd::prelude::*;

verus! {

/// Usage flag: the buffer may be bound as a hardware texture.
pub const GRALLOC_USAGE_HW_TEXTURE: i32 = 0x00000100;

/// Usage flag: the buffer may be a hardware render target.
pub const GRALLOC_USAGE_HW_RENDER: i32 = 0x00000200;

/// Usage flag: the buffer may be read by the 2D engine.
pub const GRALLOC_USAGE_HW_2D: i32 = 0x00000400;

/// Usage flag: the buffer may be consumed by the display compositor.
pub const GRALLOC_USAGE_HW_COMPOSER: i32 = 0x00000800;

/// Usage flag: the buffer may back the framebuffer.
pub const GRALLOC_USAGE_HW_FB: i32 = 0x00001000;

/// The mathematical value of a [`GraphicsBuffer`].
pub ghost struct BufferV {
    pub width: int,
    pub height: int,
    pub stride: int,
    pub format: int,
    pub usage: int,
    pub handle: int,
    pub refs: int,
}

impl BufferV {
    /// Allocation invariants: non-negative extent, and the allocator-computed
    /// stride covers at least one row of pixels.
    pub open spec fn wf(self) -> bool {
        &&& self.width >= 0
        &&& self.height >= 0
        &&& self.stride >= self.width
    }
}

/// The value of a buffer freshly wrapped from one allocator report, with
/// its reference count at 1.
pub open spec fn alloc_view(
    width: i32,
    height: i32,
    format: i32,
    usage: i32,
    handle: u64,
    stride: i32,
) -> BufferV {
    BufferV {
        width: width as int,
        height: height as int,
        stride: stride as int,
        format: format as int,
        usage: usage as int,
        handle: handle as int,
        refs: 1,
    }
}

/// One allocated presentable buffer.
#[derive(Debug)]
pub struct GraphicsBuffer {
    width: i32,
    height: i32,
    stride: i32,
    format: i32,
    usage: i32,
    handle: u64,
    count: i32,
}

impl View for GraphicsBuffer {
    type V = BufferV;

    closed spec fn view(&self) -> BufferV {
        BufferV {
            width: self.width as int,
            height: self.height as int,
            stride: self.stride as int,
            format: self.format as int,
            usage: self.usage as int,
            handle: self.handle as int,
            refs: self.count as int,
        }
    }
}

impl GraphicsBuffer {
    /// Wraps one allocation reported by the buffer allocator.  `handle` and
    /// `stride` are the allocator's outputs for this width/height/format/usage
    /// request; the reference count starts at 1, owned by the creator.
    pub fn new(
        width: i32,
        height: i32,
        format: i32,
        usage: i32,
        handle: u64,
        stride: i32,
    ) -> (b: GraphicsBuffer)
        requires
            width >= 0,
            height >= 0,
            stride >= width,
        ensures
            b@ == alloc_view(width, height, format, usage, handle, stride),
            b@.wf(),
    {
        GraphicsBuffer { width, height, stride, format, usage, handle, count: 1 }
    }

    pub fn width(&self) -> (r: i32)
        ensures
            r as int == self@.width,
    {
        self.width
    }

    pub fn height(&self) -> (r: i32)
        ensures
            r as int == self@.height,
    {
        self.height
    }

    pub fn stride(&self) -> (r: i32)
        ensures
            r as int == self@.stride,
    {
        self.stride
    }

    pub fn format(&self) -> (r: i32)
        ensures
            r as int == self@.format,
    {
        self.format
    }

    pub fn usage(&self) -> (r: i32)
        ensures
            r as int == self@.usage,
    {
        self.usage
    }

    /// The opaque platform memory handle; valid for the buffer's entire
    /// lifetime and the identity by which slots and tests recognise a buffer.
    pub fn handle(&self) -> (r: u64)
        ensures
            r as int == self@.handle,
    {
        self.handle
    }

    pub fn ref_count(&self) -> (r: i32)
        ensures
            r as int == self@.refs,
    {
        self.count
    }

    /// An external holder takes a reference to the wrapper object.
    pub fn retain(&mut self)
        requires
            old(self)@.refs < i32::MAX,
        ensures
            final(self)@ == (BufferV { refs: old(self)@.refs + 1, ..old(self)@ }),
    {
        self.count = self.count + 1;
    }

    /// A holder drops its reference.  Returns true exactly when the count
    /// reached 0: the single point at which the caller must free the backing
    /// memory through the allocator and destroy the wrapper.
    pub fn release_ref(&mut self) -> (destroy: bool)
        requires
            old(self)@.refs >= 1,
        ensures
            final(self)@ == (BufferV { refs: old(self)@.refs - 1, ..old(self)@ }),
            destroy == (old(self)@.refs == 1),
    {
        self.count = self.count - 1;
        self.count == 0
    }
}

} // verus!
