//! Lifecycle tests: creation, idempotent destruction, and the strict
//! reverse-creation teardown order.

use libplacebo::context::{Context, ContextParams, LogFunction, LogLevel};
use libplacebo::gpu::{Buf, BufParams, Tex, TexParams};
use libplacebo::renderer::Renderer;
use libplacebo::swapchain::{Swapchain, SwapchainParams};
use libplacebo::vulkan::{Vulkan, VulkanInstance, VulkanInstanceParams, VulkanParams};

#[test]
fn new_context() {
    let params = ContextParams::new(&LogFunction::LogColor, &LogLevel::LOG_DEBUG);
    let mut ctx = Context::new(&params);

    assert!(ctx.ctx != 0);

    ctx.destroy();

    assert!(ctx.ctx == 0);
}

#[test]
fn context_update_keeps_handle() {
    let params = ContextParams::new(&LogFunction::LogSimple, &LogLevel::LOG_WARN);
    let mut ctx = Context::new(&params);
    let handle = ctx.ctx;
    let new_params = ContextParams::new(&LogFunction::LogColor, &LogLevel::LOG_TRACE);
    ctx.update(Some(&new_params));
    assert_eq!(ctx.ctx, handle);
    assert_eq!(ctx.log_cb, LogFunction::LogColor);
    assert_eq!(ctx.log_level, LogLevel::LOG_TRACE);
    ctx.update(None);
    assert_eq!(ctx.log_cb, LogFunction::NoLog);
    assert_eq!(ctx.log_level, LogLevel::LOG_NONE);
    ctx.destroy();
}

#[test]
fn texture_destroy_is_idempotent() {
    let mut ctx = Context::default();
    let mut inst = VulkanInstance::new(&mut ctx, &VulkanInstanceParams::default());
    let mut vk = Vulkan::new(&ctx, &mut inst, &VulkanParams::default());
    let mut tex_params = TexParams::default();
    tex_params.w = 16;
    tex_params.h = 16;
    tex_params.sampleable = true;
    let mut tex = Tex::new(&mut vk, &tex_params);
    assert!(tex.tex != 0);
    assert_eq!(vk.live_children, 1);
    tex.destroy(&mut vk);
    assert!(tex.tex == 0);
    assert_eq!(vk.live_children, 0);
    // a second destroy is a safe no-op: the handle is null before and after
    tex.destroy(&mut vk);
    assert!(tex.tex == 0);
    assert_eq!(vk.live_children, 0);
    vk.destroy(&mut inst);
    inst.destroy(&mut ctx);
    ctx.destroy();
}

#[test]
fn buffer_destroy_is_idempotent() {
    let mut ctx = Context::default();
    let mut inst = VulkanInstance::new(&mut ctx, &VulkanInstanceParams::default());
    let mut vk = Vulkan::new(&ctx, &mut inst, &VulkanParams::default());
    let mut buf_params = BufParams::default();
    buf_params.size = 256;
    let mut buf = Buf::new(&mut vk, &buf_params);
    assert!(buf.buf != 0);
    assert_eq!(buf.size, 256);
    buf.destroy(&mut vk);
    assert!(buf.buf == 0);
    buf.destroy(&mut vk);
    assert!(buf.buf == 0);
    assert_eq!(vk.live_children, 0);
    vk.destroy(&mut inst);
    inst.destroy(&mut ctx);
    ctx.destroy();
}

#[test]
fn swapchain_destroy_is_idempotent() {
    let mut ctx = Context::default();
    let mut inst = VulkanInstance::new(&mut ctx, &VulkanInstanceParams::default());
    let mut vk = Vulkan::new(&ctx, &mut inst, &VulkanParams::default());
    let mut sc = Swapchain::new(&mut vk, &SwapchainParams::default());
    assert!(sc.sw != 0);
    sc.destroy(&mut vk);
    assert!(sc.sw == 0);
    sc.destroy(&mut vk);
    assert!(sc.sw == 0);
    assert_eq!(vk.live_children, 0);
    vk.destroy(&mut inst);
    inst.destroy(&mut ctx);
    ctx.destroy();
}

#[test]
fn reverse_creation_order_teardown() {
    // Build the whole chain, then destroy it in exact reverse order.
    let mut ctx = Context::new(&ContextParams::new(&LogFunction::NoLog, &LogLevel::LOG_ERR));
    let mut inst = VulkanInstance::new(&mut ctx, &VulkanInstanceParams::default());
    let mut vk = Vulkan::new(&ctx, &mut inst, &VulkanParams::default());
    let mut sc = Swapchain::new(&mut vk, &SwapchainParams::default());
    let mut tex_params = TexParams::default();
    tex_params.w = 8;
    tex_params.h = 8;
    let mut tex = Tex::new(&mut vk, &tex_params);
    let mut renderer = Renderer::new(&ctx, &mut vk);
    assert_eq!(vk.live_children, 3);
    assert_eq!(inst.live_children, 1);
    assert_eq!(ctx.live_children, 1);

    renderer.destroy(&mut vk);
    tex.destroy(&mut vk);
    sc.destroy(&mut vk);
    assert_eq!(vk.live_children, 0);
    vk.destroy(&mut inst);
    assert_eq!(inst.live_children, 0);
    inst.destroy(&mut ctx);
    assert_eq!(ctx.live_children, 0);
    ctx.destroy();

    assert!(renderer.rr == 0);
    assert!(tex.tex == 0);
    assert!(sc.sw == 0);
    assert!(vk.vk == 0);
    assert!(inst.inst == 0);
    assert!(ctx.ctx == 0);
}

#[test]
fn gpu_view_carries_device_limits() {
    let mut ctx = Context::default();
    let mut inst = VulkanInstance::new(&mut ctx, &VulkanInstanceParams::default());
    let mut params = VulkanParams::default();
    params.max_extent_w = 2048;
    params.max_extent_h = 1024;
    let mut vk = Vulkan::new(&ctx, &mut inst, &params);
    let gpu = vk.gpu();
    assert_eq!(gpu.gpu, vk.vk);
    assert_eq!(gpu.max_extent_w, 2048);
    assert_eq!(gpu.max_extent_h, 1024);
    gpu.gpu_flush();
    gpu.gpu_finish();
    vk.destroy(&mut inst);
    inst.destroy(&mut ctx);
    ctx.destroy();
}
