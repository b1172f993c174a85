//! Swapchain frame protocol, resize negotiation and the frame-loop
//! controller.

use libplacebo::colorspace::{ColorRepr, ColorReprs, ColorSpace, ColorSpaces};
use libplacebo::context::Context;
use libplacebo::swapchain::{FrameAction, FrameLoop, FrameState, Swapchain, SwapchainFrame, SwapchainParams};
use libplacebo::vulkan::{Vulkan, VulkanInstance, VulkanInstanceParams, VulkanParams};

fn device_chain() -> (Context, VulkanInstance, Vulkan) {
    let mut ctx = Context::default();
    let mut inst = VulkanInstance::new(&mut ctx, &VulkanInstanceParams::default());
    let vk = Vulkan::new(&ctx, &mut inst, &VulkanParams::default());
    (ctx, inst, vk)
}

#[test]
fn resize_is_capped_at_device_limits() {
    let (_ctx, _inst, mut vk) = device_chain();
    let mut sc = Swapchain::new(&mut vk, &SwapchainParams::default());
    // the device caps extents at 4096x4096; an 8192x8192 request
    // comes back capped, and the swapchain adopts the returned size
    let (w, h) = sc.resize(8192, 8192);
    assert_eq!((w, h), (4096, 4096));
    assert_eq!(sc.width, 4096);
    assert_eq!(sc.height, 4096);
    // a request within the limits is honored exactly
    let (w2, h2) = sc.resize(640, 480);
    assert_eq!((w2, h2), (640, 480));
    assert_eq!(sc.width, 640);
    assert_eq!(sc.height, 480);
}

#[test]
fn latency_reports_buffering_depth() {
    let (_ctx, _inst, mut vk) = device_chain();
    let mut params = SwapchainParams::default();
    params.set_swapchain_depth(2);
    let sc = Swapchain::new(&mut vk, &params);
    assert_eq!(sc.latency(), 2);
}

#[test]
fn frame_sequence_start_submit_swap() {
    let (_ctx, _inst, mut vk) = device_chain();
    let mut sc = Swapchain::new(&mut vk, &SwapchainParams::default());
    sc.resize(640, 480);
    let mut frame = SwapchainFrame::default();
    assert!(sc.start_frame(&mut frame, true));
    assert_eq!(sc.state, FrameState::Started);
    assert!(frame.fbo != 0);
    assert!(!frame.flipped);
    assert_eq!(frame.width, 640);
    assert_eq!(frame.height, 480);
    assert_eq!(frame.color_repr, ColorRepr::color_repr(&ColorReprs::Rgb));
    assert_eq!(frame.color_space, ColorSpace::color_space(&ColorSpaces::Srgb));
    assert!(sc.submit_frame(true));
    assert_eq!(sc.state, FrameState::Submitted);
    sc.swap_buffers();
    assert_eq!(sc.state, FrameState::Idle);
}

#[test]
fn start_frame_not_ready_changes_nothing() {
    let (_ctx, _inst, mut vk) = device_chain();
    let mut sc = Swapchain::new(&mut vk, &SwapchainParams::default());
    let mut frame = SwapchainFrame::default();
    let untouched = frame;
    assert!(!sc.start_frame(&mut frame, false));
    assert_eq!(sc.state, FrameState::Idle);
    assert_eq!(frame, untouched);
}

#[test]
fn five_failed_starts_never_render_or_stop() {
    let (_ctx, _inst, mut vk) = device_chain();
    let mut sc = Swapchain::new(&mut vk, &SwapchainParams::default());
    let mut frame = SwapchainFrame::default();
    let mut fl = FrameLoop::new();
    for _ in 0..5 {
        let ok = sc.start_frame(&mut frame, false);
        assert!(!ok);
        let action = fl.on_start_frame(ok);
        // the loop only backs off: it must not render or submit, and
        // it must not terminate
        assert_eq!(action, FrameAction::BackOff);
        assert!(!fl.stopped);
        assert_eq!(sc.state, FrameState::Idle);
    }
    assert_eq!(fl.frames_rendered, 0);
    assert_eq!(fl.backoffs, 5);
    // the loop is still able to make progress afterwards
    assert!(sc.start_frame(&mut frame, true));
    assert_eq!(fl.on_start_frame(true), FrameAction::Render);
}

#[test]
fn submit_refusal_abandons_the_frame() {
    let (_ctx, _inst, mut vk) = device_chain();
    let mut sc = Swapchain::new(&mut vk, &SwapchainParams::default());
    let mut frame = SwapchainFrame::default();
    assert!(sc.start_frame(&mut frame, true));
    // the presentation layer refuses the submission: the frame is
    // abandoned, the swapchain returns to idle, and the controller
    // treats it as non-transient
    assert!(!sc.submit_frame(false));
    assert_eq!(sc.state, FrameState::Idle);
    let mut fl = FrameLoop::new();
    assert_eq!(fl.on_submit_frame(false), FrameAction::Stop);
    assert!(fl.stopped);
}

#[test]
fn frame_loop_render_failure_policy_is_configurable() {
    // default policy: a failed render drops the frame and continues
    let mut lenient = FrameLoop::new();
    assert_eq!(lenient.on_render_image(false), FrameAction::SkipFrame);
    assert!(!lenient.stopped);
    // strict policy: a failed render ends the loop
    let mut strict = FrameLoop::with_render_failure_policy(true);
    assert_eq!(strict.on_render_image(false), FrameAction::Stop);
    assert!(strict.stopped);
}

#[test]
fn frame_loop_reacts_to_render_and_submit_outcomes() {
    let mut fl = FrameLoop::new();
    assert_eq!(fl.on_render_image(true), FrameAction::Submit);
    assert_eq!(fl.on_render_image(false), FrameAction::SkipFrame);
    assert!(!fl.stopped);
    assert_eq!(fl.on_submit_frame(true), FrameAction::Swap);
    fl.on_swap_buffers();
    assert_eq!(fl.frames_rendered, 1);
    assert!(!fl.stopped);
    // a submission failure is non-transient and ends the loop
    assert_eq!(fl.on_submit_frame(false), FrameAction::Stop);
    assert!(fl.stopped);
}
