//! The composition pipeline: per-frame layer lists and the two-phase
//! prepare/commit protocol against the external display compositor.
//!
//! Presenting a submitted buffer has three steps.  [`build_layer_list`]
//! (verified) turns the buffer and its render-complete fence into the
//! two-entry layer list the compositor consumes.  The caller then drives the
//! compositor device itself — `prepare(list)` lets it annotate how each
//! layer will be composited, `commit(list)` performs the composition/flip —
//! and reports what came back as a [`CommitReply`].  [`finish_frame`]
//! (verified) turns that reply into the slot's release fence and the list of
//! descriptors the pipeline must close: the frame's retire fence is not
//! needed by this component and is closed on every path, and on a failed
//! frame the unused release fence is closed too, so no path leaks a
//! descriptor and none closes one twice.

use vstd::prelude::*;

use crate::buffer::GraphicsBuffer;
use crate::fence::Fence;

verus! {

/// The compositor draws this layer itself into the framebuffer.
pub const HWC_FRAMEBUFFER: i32 = 0;
/// The layer is assigned to a hardware overlay.
pub const HWC_OVERLAY: i32 = 1;
/// The layer is a background color.
pub const HWC_BACKGROUND: i32 = 2;
/// The layer is the framebuffer target of the composition.
pub const HWC_FRAMEBUFFER_TARGET: i32 = 3;
/// The layer is composited by a blit engine.
pub const HWC_BLIT: i32 = 4;

/// Layer flag: the compositor must not read this layer.
pub const HWC_SKIP_LAYER: u32 = 1;
/// List flag: the layer geometry changed since the previous frame.
pub const HWC_GEOMETRY_CHANGED: u32 = 1;

/// An integer rectangle, as the compositor's layer geometry uses.
#[allow(non_camel_case_types)]
#[derive(Clone, Copy, Debug, PartialEq, Eq, Structural)]
pub struct hwc_rect {
    pub left: i32,
    pub top: i32,
    pub right: i32,
    pub bottom: i32,
}

impl hwc_rect {
    /// The rectangle covering a full surface of the given extent.
    pub open spec fn full_surface(width: i32, height: i32) -> hwc_rect {
        hwc_rect { left: 0, top: 0, right: width, bottom: height }
    }

    /// The zero rectangle.
    pub open spec fn zero() -> hwc_rect {
        hwc_rect { left: 0, top: 0, right: 0, bottom: 0 }
    }
}

/// One entry of a per-frame layer list.
#[derive(Clone, Copy, Debug)]
pub struct Layer {
    /// One of the `HWC_*` composition types.
    pub composition_type: i32,
    /// `HWC_SKIP_LAYER` or 0.
    pub flags: u32,
    /// The platform memory handle of the buffer to read, or `None` for a
    /// placeholder entry.
    pub handle: Option<u64>,
    /// The region of the buffer the compositor reads.
    pub source_crop: hwc_rect,
    /// The region of the display the layer covers.
    pub display_frame: hwc_rect,
    /// The fence the compositor waits on before reading the buffer.
    pub acquire_fence: Fence,
    /// Plane alpha, 0xff for opaque.
    pub plane_alpha: u8,
}

/// The compositor's per-frame description of what to draw.
#[derive(Clone, Copy, Debug)]
pub struct LayerList {
    /// `HWC_GEOMETRY_CHANGED` on every frame this pipeline builds.
    pub flags: u32,
    /// A placeholder covering the full surface, flagged "skip" so the
    /// compositor does not read it; reserved for multi-layer composition.
    pub layer0: Layer,
    /// The submitted buffer, full-surface crop and destination.
    pub layer1: Layer,
}

/// What the compositor device reported after the caller drove the two-phase
/// protocol on a layer list.
#[derive(Clone, Copy, Debug)]
pub struct CommitReply {
    /// The status `prepare(list)` returned; 0 is success.
    pub prepare_status: i32,
    /// The status `commit(list)` returned; 0 is success.
    pub commit_status: i32,
    /// The retire fence the commit populated: it signals when the whole
    /// frame has retired from the display pipeline.
    pub retire_fence: Fence,
    /// The release fence the commit populated for the buffer layer: it
    /// signals when the display is done reading the buffer.
    pub release_fence: Fence,
}

impl CommitReply {
    pub open spec fn wf(self) -> bool {
        &&& self.retire_fence.wf()
        &&& self.release_fence.wf()
    }

    /// Both phases succeeded.
    pub open spec fn succeeded(self) -> bool {
        &&& self.prepare_status == 0
        &&& self.commit_status == 0
    }
}

/// The compositor's failure code, propagated per phase.  A failed frame is
/// dropped and the surface remains usable; nothing here is fatal.
#[derive(Clone, Copy, Debug, PartialEq, Eq, Structural)]
pub enum ComposeError {
    /// `prepare(list)` returned this non-zero status.
    PrepareFailed(i32),
    /// `commit(list)` returned this non-zero status.
    CommitFailed(i32),
}

/// The layer list [`build_layer_list`] produces for a buffer and its
/// render-complete fence: the exact shape of every frame this pipeline
/// submits to the compositor.
pub open spec fn frame_for(b: crate::buffer::BufferV, render_fence: Fence) -> LayerList {
    LayerList {
        flags: HWC_GEOMETRY_CHANGED,
        layer0: Layer {
            composition_type: HWC_FRAMEBUFFER,
            flags: HWC_SKIP_LAYER,
            handle: None,
            source_crop: hwc_rect::zero(),
            display_frame: hwc_rect::zero(),
            acquire_fence: Fence::NoFence,
            plane_alpha: 0xff,
        },
        layer1: Layer {
            composition_type: HWC_FRAMEBUFFER_TARGET,
            flags: 0,
            handle: Some(b.handle as u64),
            source_crop: hwc_rect::full_surface(b.width as i32, b.height as i32),
            display_frame: hwc_rect::full_surface(b.width as i32, b.height as i32),
            acquire_fence: render_fence,
            plane_alpha: 0xff,
        },
    }
}

/// Builds the two-entry layer list for one frame: layer 0 is the skipped
/// placeholder, layer 1 carries the submitted buffer full-surface with
/// `render_fence` as its acquire fence.
pub fn build_layer_list(b: &GraphicsBuffer, render_fence: Fence) -> (list: LayerList)
    ensures
        list == frame_for(b@, render_fence),
{
    let width = b.width();
    let height = b.height();
    LayerList {
        flags: HWC_GEOMETRY_CHANGED,
        layer0: Layer {
            composition_type: HWC_FRAMEBUFFER,
            flags: HWC_SKIP_LAYER,
            handle: None,
            source_crop: hwc_rect { left: 0, top: 0, right: 0, bottom: 0 },
            display_frame: hwc_rect { left: 0, top: 0, right: 0, bottom: 0 },
            acquire_fence: Fence::NoFence,
            plane_alpha: 0xff,
        },
        layer1: Layer {
            composition_type: HWC_FRAMEBUFFER_TARGET,
            flags: 0,
            handle: Some(b.handle()),
            source_crop: hwc_rect { left: 0, top: 0, right: width, bottom: height },
            display_frame: hwc_rect { left: 0, top: 0, right: width, bottom: height },
            acquire_fence: render_fence,
            plane_alpha: 0xff,
        },
    }
}

/// The release fence a reply yields for the slot: the compositor's release
/// fence when both phases succeeded, "no fence" for a dropped frame.
pub open spec fn recorded_fence_of(reply: CommitReply) -> Fence {
    if reply.succeeded() {
        reply.release_fence
    } else {
        Fence::NoFence
    }
}

/// The descriptors [`finish_frame`] hands back for closing: the retire
/// fence on every path, and on a failed frame also the unused release
/// fence.
pub open spec fn finish_closes(reply: CommitReply) -> Seq<i32> {
    if reply.succeeded() {
        reply.retire_fence.fds_to_close()
    } else {
        reply.retire_fence.fds_to_close() + reply.release_fence.fds_to_close()
    }
}

/// Completes a frame from the compositor's reply.
///
/// On success the extracted release fence is returned: it is what a future
/// `acquire` of the slot hands back to the producer.  On failure the
/// compositor's status is propagated — `prepare`'s first, then `commit`'s —
/// and the frame is dropped.  Either way `to_close` lists exactly the
/// descriptors this pipeline now owns and must close: the retire fence
/// (not needed by this component), plus the release fence of a dropped
/// frame.
pub fn finish_frame(reply: CommitReply) -> (r: (Result<Fence, ComposeError>, Vec<i32>))
    requires
        reply.wf(),
    ensures
        ({
            let (outcome, to_close) = r;
            &&& to_close@ == finish_closes(reply)
            &&& (reply.succeeded() ==> outcome == Ok::<Fence, ComposeError>(reply.release_fence))
            &&& (reply.prepare_status != 0 ==> outcome == Err::<Fence, ComposeError>(
                ComposeError::PrepareFailed(reply.prepare_status),
            ))
            &&& (reply.prepare_status == 0 && reply.commit_status != 0 ==> outcome == Err::<
                Fence,
                ComposeError,
            >(ComposeError::CommitFailed(reply.commit_status)))
        }),
{
    let mut to_close: Vec<i32> = Vec::new();
    crate::fence::push_fds_to_close(&mut to_close, reply.retire_fence);
    if reply.prepare_status != 0 {
        crate::fence::push_fds_to_close(&mut to_close, reply.release_fence);
        (Err(ComposeError::PrepareFailed(reply.prepare_status)), to_close)
    } else if reply.commit_status != 0 {
        crate::fence::push_fds_to_close(&mut to_close, reply.release_fence);
        (Err(ComposeError::CommitFailed(reply.commit_status)), to_close)
    } else {
        (Ok(reply.release_fence), to_close)
    }
}

} // verus!
