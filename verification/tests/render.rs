//! Renderer tests: frame validation, overlay compositing and the
//! swapchain-derived render target.

use libplacebo::colorspace::{ColorRepr, ColorReprs, ColorSpace, ColorSpaces};
use libplacebo::common::Rect2D;
use libplacebo::context::Context;
use libplacebo::gpu::{Tex, TexParams};
use libplacebo::renderer::{
    composite_overlay_pixel, Image, Overlay, OverlayMode, Plane, RenderParams, RenderTarget,
    Renderer,
};
use libplacebo::swapchain::{Swapchain, SwapchainFrame, SwapchainParams};
use libplacebo::vulkan::{Vulkan, VulkanInstance, VulkanInstanceParams, VulkanParams};

fn device_chain() -> (Context, VulkanInstance, Vulkan) {
    let mut ctx = Context::default();
    let mut inst = VulkanInstance::new(&mut ctx, &VulkanInstanceParams::default());
    let vk = Vulkan::new(&ctx, &mut inst, &VulkanParams::default());
    (ctx, inst, vk)
}

fn sampleable_tex(vk: &mut Vulkan, w: usize, h: usize) -> Tex {
    let mut params = TexParams::default();
    params.w = w;
    params.h = h;
    params.sampleable = true;
    Tex::new(vk, &params)
}

fn renderable_tex(vk: &mut Vulkan, w: usize, h: usize) -> Tex {
    let mut params = TexParams::default();
    params.w = w;
    params.h = h;
    params.renderable = true;
    Tex::new(vk, &params)
}

#[test]
fn render_image_accepts_a_valid_frame() {
    let (ctx, _inst, mut vk) = device_chain();
    let tex = sampleable_tex(&mut vk, 4, 4);
    let plane = Plane::new(&tex, 4, &[0, 1, 2, 3], 0, 0);
    let dst = renderable_tex(&mut vk, 8, 8);

    let mut image = Image::default();
    image.set_num_planes(1);
    image.set_planes(&[plane, plane, plane, plane]);
    image.set_width(4);
    image.set_height(4);

    let mut target = RenderTarget::default();
    target.set_fbo(&dst);
    target.set_dst_rect(&Rect2D::new(0, 0, 8, 8));

    let renderer = Renderer::new(&ctx, &mut vk);
    assert!(renderer.render_image(&image, &target, &RenderParams::default()));
}

#[test]
fn render_image_rejects_invalid_frames() {
    let (ctx, _inst, mut vk) = device_chain();
    let tex = sampleable_tex(&mut vk, 4, 4);
    let plane = Plane::new(&tex, 4, &[0, 1, 2, 3], 0, 0);
    let dst = renderable_tex(&mut vk, 8, 8);
    let renderer = Renderer::new(&ctx, &mut vk);
    let params = RenderParams::default();

    // a plane that references no texture is not sampleable
    let mut image = Image::default();
    image.set_num_planes(1);
    let mut target = RenderTarget::default();
    target.set_fbo(&dst);
    assert!(!renderer.render_image(&image, &target, &params));

    // a target without a renderable destination
    image.set_planes(&[plane, plane, plane, plane]);
    let empty_target = RenderTarget::default();
    assert!(!renderer.render_image(&image, &empty_target, &params));

    // a non-sampleable overlay plane
    let plain = renderable_tex(&mut vk, 2, 2);
    let bad_overlay_plane = Plane::new(&plain, 1, &[0, 0, 0, 0], 0, 0);
    let overlay = Overlay::new(
        &bad_overlay_plane,
        &Rect2D::new(0, 0, 2, 2),
        &OverlayMode::OVERLAY_NORMAL,
        &[0, 0, 0],
        &ColorRepr::color_repr(&ColorReprs::Rgb),
        &ColorSpace::color_space(&ColorSpaces::Srgb),
    );
    image.set_overlays(vec![overlay]);
    assert!(!renderer.render_image(&image, &target, &params));
}

#[test]
fn monochrome_overlay_uses_only_base_color_and_mask() {
    // P8: in monochrome mode only the overlay's first channel and the
    // base color matter
    let base = [200u8, 100u8, 50u8];
    let dst = [0u8, 0u8, 0u8];
    let a = composite_overlay_pixel(&OverlayMode::OVERLAY_MONOCHROME, &base, &[128, 7, 99, 255], &dst);
    let b = composite_overlay_pixel(&OverlayMode::OVERLAY_MONOCHROME, &base, &[128, 0, 0, 0], &dst);
    assert_eq!(a, b);
    // the mask weights the base color in 1/255 steps
    assert_eq!(a, [100, 50, 25]);
}

#[test]
fn normal_overlay_alpha_blends() {
    let base = [0u8, 0u8, 0u8];
    let dst = [10u8, 20u8, 30u8];
    // full alpha paints the overlay color
    let opaque = composite_overlay_pixel(&OverlayMode::OVERLAY_NORMAL, &base, &[255, 128, 0, 255], &dst);
    assert_eq!(opaque, [255, 128, 0]);
    // zero alpha leaves the destination
    let clear = composite_overlay_pixel(&OverlayMode::OVERLAY_NORMAL, &base, &[255, 128, 0, 0], &dst);
    assert_eq!(clear, [10, 20, 30]);
}

#[test]
fn render_target_from_swapchain_copies_frame_metadata() {
    let (_ctx, _inst, mut vk) = device_chain();
    let mut sc = Swapchain::new(&mut vk, &SwapchainParams::default());
    sc.resize(320, 200);
    let mut frame = SwapchainFrame::default();
    assert!(sc.start_frame(&mut frame, true));

    let mut target = RenderTarget::default();
    target.render_target_from_swapchain(&frame);
    assert_eq!(target.fbo, frame.fbo);
    assert!(target.fbo_renderable);
    assert_eq!(target.repr, frame.color_repr);
    assert_eq!(target.color, frame.color_space);
    assert_eq!(target.dst_rect, Rect2D::new(0, 0, 320, 200));

    // a flipped frame swaps the vertical corners
    let mut flipped_frame = frame;
    flipped_frame.flipped = true;
    let mut flipped_target = RenderTarget::default();
    flipped_target.render_target_from_swapchain(&flipped_frame);
    assert_eq!(flipped_target.dst_rect, Rect2D::new(0, 200, 320, 0));
}

#[test]
fn flush_cache_bumps_the_epoch() {
    let (ctx, _inst, mut vk) = device_chain();
    let mut renderer = Renderer::new(&ctx, &mut vk);
    assert_eq!(renderer.cache_epoch, 0);
    renderer.flush_cache();
    renderer.flush_cache();
    assert_eq!(renderer.cache_epoch, 2);
}

#[test]
fn image_getters_return_the_metadata() {
    let mut image = Image::default();
    let repr = ColorRepr::color_repr(&ColorReprs::Hdtv);
    let space = ColorSpace::color_space(&ColorSpaces::Bt709);
    image.set_repr(&repr);
    image.set_color(&space);
    assert_eq!(image.repr(), repr);
    assert_eq!(image.color(), space);
}
