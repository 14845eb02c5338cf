//! Tests of the leaf value types: buffers, fences, the swap chain driven
//! directly, the native header values and the input-event vocabulary.

use gonk_display::buffer::GraphicsBuffer;
use gonk_display::fence::Fence;
use gonk_display::fence::push_fds_to_close;
use gonk_display::input::Key;
use gonk_display::input::KeyModifiers;
use gonk_display::input::KeyState;
use gonk_display::input::MouseButton;
use gonk_display::input::TouchEventType;
use gonk_display::input::TouchId;
use gonk_display::input::TouchpadPressurePhase;
use gonk_display::native::ANativeBase;
use gonk_display::native::hwc_color;
use gonk_display::swapchain::SwapChain;
use gonk_display::swapchain::SwapChainError;

#[test]
fn buffer_keeps_allocation_report() {
    let b = GraphicsBuffer::new(480, 854, 1, 0x1200, 0xdead, 512);
    assert_eq!(b.width(), 480);
    assert_eq!(b.height(), 854);
    assert_eq!(b.stride(), 512);
    assert_eq!(b.format(), 1);
    assert_eq!(b.usage(), 0x1200);
    assert_eq!(b.handle(), 0xdead);
    assert_eq!(b.ref_count(), 1);
}

#[test]
fn buffer_reference_count_reaches_zero_once() {
    let mut b = GraphicsBuffer::new(1, 1, 0, 0, 1, 1);
    b.retain();
    b.retain();
    assert_eq!(b.ref_count(), 3);
    assert!(!b.release_ref());
    assert!(!b.release_ref());
    assert!(b.release_ref());
    assert_eq!(b.ref_count(), 0);
}

#[test]
fn fence_disposal_lists_only_real_descriptors() {
    let mut out: Vec<i32> = Vec::new();
    push_fds_to_close(&mut out, Fence::NoFence);
    assert!(out.is_empty());
    push_fds_to_close(&mut out, Fence::Fd(5));
    push_fds_to_close(&mut out, Fence::Fd(6));
    assert_eq!(out, vec![5, 6]);
    assert!(Fence::Fd(5).is_real());
    assert!(!Fence::NoFence.is_real());
}

#[test]
fn bare_chain_round_robin() {
    // The pool discipline holds of the chain driven directly, without the
    // surface: fill, then alternate acquire and submit.
    let mut c = SwapChain::new();
    assert_eq!(c.acquire().unwrap_err(), SwapChainError::NoBufferAvailable);

    let b0 = GraphicsBuffer::new(4, 4, 0, 0, 10, 4);
    let b1 = GraphicsBuffer::new(4, 4, 0, 0, 11, 4);
    let to_close = c.fill(b0, b1);
    assert!(to_close.is_empty());

    let (first, f) = c.acquire().expect("first acquire");
    assert_eq!(first.handle(), 10);
    assert_eq!(f, Fence::NoFence);
    let slot = c.begin_submit(first).expect("first submit");
    assert_eq!(slot, 0);
    c.record_fence(slot, Fence::Fd(31));

    let (second, _) = c.acquire().expect("second acquire");
    assert_eq!(second.handle(), 11);
    let slot = c.begin_submit(second).expect("second submit");
    assert_eq!(slot, 1);
    c.record_fence(slot, Fence::Fd(32));

    let (third, f) = c.acquire().expect("third acquire");
    assert_eq!(third.handle(), 10);
    assert_eq!(f, Fence::Fd(31));
}

#[test]
fn drained_chain_returns_recorded_fences() {
    let mut c = SwapChain::new();
    let b0 = GraphicsBuffer::new(4, 4, 0, 0, 10, 4);
    let b1 = GraphicsBuffer::new(4, 4, 0, 0, 11, 4);
    c.fill(b0, b1);
    let (b, _) = c.acquire().expect("acquire");
    let slot = c.begin_submit(b).expect("submit");
    c.record_fence(slot, Fence::Fd(40));
    let to_close = c.drain();
    assert_eq!(to_close, vec![40]);
    assert_eq!(c.acquire().unwrap_err(), SwapChainError::NoBufferAvailable);
}

#[test]
fn magic_packs_characters_big_endian() {
    assert_eq!(ANativeBase::magic('_', 'w', 'n', 'd'), 0x5f776e64);
    assert_eq!(ANativeBase::magic('_', 'b', 'f', 'r'), 0x5f626672);
    let base = ANativeBase { magic: ANativeBase::magic('_', 'w', 'n', 'd'), version: 104 };
    assert_eq!(base.magic, 0x5f776e64);
    assert_eq!(base.version, 104);
}

#[test]
fn native_color_is_a_plain_quadruple() {
    let c = hwc_color { r: 1, g: 2, b: 3, a: 0xff };
    assert_eq!((c.r, c.g, c.b, c.a), (1, 2, 3, 0xff));
}

#[test]
fn input_vocabulary_round_trips() {
    assert_eq!(TouchId(7), TouchId(7));
    assert_ne!(TouchEventType::Down, TouchEventType::Up);
    assert_ne!(
        TouchpadPressurePhase::BeforeClick,
        TouchpadPressurePhase::AfterSecondClick
    );
    assert_ne!(MouseButton::Left, MouseButton::Right);
    assert_ne!(KeyState::Pressed, KeyState::Released);
    assert_ne!(Key::NavigateBackward, Key::NavigateForward);
    let mods = KeyModifiers::new(0b101);
    assert_eq!(mods.bits(), 0b101);
}
