//! Tests of the layer-list builder and the post-commit bookkeeping.

use gonk_display::buffer::GraphicsBuffer;
use gonk_display::compose::CommitReply;
use gonk_display::compose::ComposeError;
use gonk_display::compose::HWC_FRAMEBUFFER;
use gonk_display::compose::HWC_FRAMEBUFFER_TARGET;
use gonk_display::compose::HWC_GEOMETRY_CHANGED;
use gonk_display::compose::HWC_SKIP_LAYER;
use gonk_display::compose::build_layer_list;
use gonk_display::compose::finish_frame;
use gonk_display::compose::hwc_rect;
use gonk_display::fence::Fence;

#[test]
fn layer_list_has_skip_placeholder_and_full_surface_target() {
    let b = GraphicsBuffer::new(480, 854, 1, 0x1200, 0xbeef, 512);
    let list = build_layer_list(&b, Fence::Fd(42));

    assert_eq!(list.flags, HWC_GEOMETRY_CHANGED);

    // Layer 0: placeholder the compositor must not read.
    assert_eq!(list.layer0.composition_type, HWC_FRAMEBUFFER);
    assert_eq!(list.layer0.flags, HWC_SKIP_LAYER);
    assert_eq!(list.layer0.handle, None);
    assert_eq!(list.layer0.source_crop, hwc_rect { left: 0, top: 0, right: 0, bottom: 0 });
    assert_eq!(list.layer0.display_frame, hwc_rect { left: 0, top: 0, right: 0, bottom: 0 });
    assert_eq!(list.layer0.acquire_fence, Fence::NoFence);
    assert_eq!(list.layer0.plane_alpha, 0xff);

    // Layer 1: the submitted buffer, full-surface crop and destination,
    // carrying the render-complete fence as its acquire fence.
    assert_eq!(list.layer1.composition_type, HWC_FRAMEBUFFER_TARGET);
    assert_eq!(list.layer1.flags, 0);
    assert_eq!(list.layer1.handle, Some(0xbeef));
    assert_eq!(list.layer1.source_crop, hwc_rect { left: 0, top: 0, right: 480, bottom: 854 });
    assert_eq!(list.layer1.display_frame, hwc_rect { left: 0, top: 0, right: 480, bottom: 854 });
    assert_eq!(list.layer1.acquire_fence, Fence::Fd(42));
    assert_eq!(list.layer1.plane_alpha, 0xff);
}

#[test]
fn successful_frame_yields_release_fence_and_closes_retire() {
    let reply = CommitReply {
        prepare_status: 0,
        commit_status: 0,
        retire_fence: Fence::Fd(70),
        release_fence: Fence::Fd(71),
    };
    let (outcome, to_close) = finish_frame(reply);
    assert_eq!(outcome, Ok(Fence::Fd(71)));
    assert_eq!(to_close, vec![70]);
}

#[test]
fn successful_frame_without_retire_fence_closes_nothing() {
    let reply = CommitReply {
        prepare_status: 0,
        commit_status: 0,
        retire_fence: Fence::NoFence,
        release_fence: Fence::Fd(71),
    };
    let (outcome, to_close) = finish_frame(reply);
    assert_eq!(outcome, Ok(Fence::Fd(71)));
    assert!(to_close.is_empty());
}

#[test]
fn prepare_failure_propagates_status_and_closes_both_fences() {
    let reply = CommitReply {
        prepare_status: -22,
        commit_status: 0,
        retire_fence: Fence::Fd(70),
        release_fence: Fence::Fd(71),
    };
    let (outcome, to_close) = finish_frame(reply);
    assert_eq!(outcome, Err(ComposeError::PrepareFailed(-22)));
    assert_eq!(to_close, vec![70, 71]);
}

#[test]
fn commit_failure_propagates_status() {
    let reply = CommitReply {
        prepare_status: 0,
        commit_status: -1,
        retire_fence: Fence::NoFence,
        release_fence: Fence::NoFence,
    };
    let (outcome, to_close) = finish_frame(reply);
    assert_eq!(outcome, Err(ComposeError::CommitFailed(-1)));
    assert!(to_close.is_empty());
}
