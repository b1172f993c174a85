//! Mask-to-descriptor inference and plane upload tests.

use libplacebo::context::Context;
use libplacebo::gpu::{FmtType, Tex};
use libplacebo::renderer::Plane;
use libplacebo::upload::PlaneData;
use libplacebo::vulkan::{Vulkan, VulkanInstance, VulkanInstanceParams, VulkanParams};

#[test]
fn rgba8_masks_infer_identity_map() {
    let mut pd = PlaneData::default();
    pd.set_type_(&FmtType::FMT_UNORM);
    pd.set_width(4);
    pd.set_height(4);
    pd.set_pixel_stride(4);
    pd.set_row_stride(16);
    let masks: [u64; 4] = [0x0000_00FF, 0x0000_FF00, 0x00FF_0000, 0xFF00_0000];
    pd.data_from_mask(&masks);
    assert_eq!(pd.component_map, [0, 1, 2, 3]);
    assert_eq!(pd.component_size, [8, 8, 8, 8]);
    assert_eq!(pd.component_pad, [0, 0, 0, 0]);
    assert_eq!(pd.pixel_stride, 4);
}

#[test]
fn bgr565_masks_infer_reversed_map() {
    let mut pd = PlaneData::default();
    let masks: [u64; 4] = [0xF800, 0x07E0, 0x001F, 0];
    pd.data_from_mask(&masks);
    // blue occupies the lowest bits, then green, then red
    assert_eq!(pd.component_map, [2, 1, 0, 0]);
    assert_eq!(pd.component_size, [5, 6, 5, 0]);
    assert_eq!(pd.component_pad, [0, 0, 0, 0]);
}

#[test]
fn padded_masks_infer_padding() {
    let mut pd = PlaneData::default();
    // 8 bits of red at bit 8: one byte of padding below it
    let masks: [u64; 4] = [0xFF00, 0, 0, 0];
    pd.data_from_mask(&masks);
    assert_eq!(pd.component_map, [0, 0, 0, 0]);
    assert_eq!(pd.component_size, [8, 0, 0, 0]);
    assert_eq!(pd.component_pad, [8, 0, 0, 0]);
}

#[test]
fn mask_inference_is_deterministic() {
    let masks: [u64; 4] = [0x0000_00FF, 0x0000_FF00, 0x00FF_0000, 0xFF00_0000];
    let mut pd1 = PlaneData::default();
    let mut pd2 = PlaneData::default();
    pd1.data_from_mask(&masks);
    pd2.data_from_mask(&masks);
    assert_eq!(pd1.component_size, pd2.component_size);
    assert_eq!(pd1.component_pad, pd2.component_pad);
    assert_eq!(pd1.component_map, pd2.component_map);
}

#[test]
fn mask_inference_is_idempotent() {
    let cases: [[u64; 4]; 4] = [
        [0x0000_00FF, 0x0000_FF00, 0x00FF_0000, 0xFF00_0000],
        [0xF800, 0x07E0, 0x001F, 0],
        [0, 0, 0, 0xFFFF_0000],
        [0xFFFF_FFFF_FFFF_FFFF, 0, 0, 0],
    ];
    for masks in cases.iter() {
        let mut pd = PlaneData::default();
        pd.data_from_mask(masks);
        let denoted = pd.component_masks();
        // contiguous masks come back unchanged
        assert_eq!(denoted, *masks);
        let mut pd2 = PlaneData::default();
        pd2.data_from_mask(&denoted);
        assert_eq!(pd.component_size, pd2.component_size);
        assert_eq!(pd.component_pad, pd2.component_pad);
        assert_eq!(pd.component_map, pd2.component_map);
    }
}

#[test]
fn mask_inference_idempotent_on_scattered_mask() {
    // a non-contiguous mask: inference keeps its bit count and offset
    let masks: [u64; 4] = [0b101000, 0, 0, 0];
    let mut pd = PlaneData::default();
    pd.data_from_mask(&masks);
    assert_eq!(pd.component_size, [2, 0, 0, 0]);
    assert_eq!(pd.component_pad, [3, 0, 0, 0]);
    let denoted = pd.component_masks();
    // the denoted mask is the contiguous canonical form
    assert_eq!(denoted, [0b11000, 0, 0, 0]);
    let mut pd2 = PlaneData::default();
    pd2.data_from_mask(&denoted);
    assert_eq!(pd.component_size, pd2.component_size);
    assert_eq!(pd.component_pad, pd2.component_pad);
    assert_eq!(pd.component_map, pd2.component_map);
}

#[test]
fn upload_plane_rgba8() {
    let mut ctx = Context::default();
    let mut inst = VulkanInstance::new(&mut ctx, &VulkanInstanceParams::default());
    let mut vk = Vulkan::new(&ctx, &mut inst, &VulkanParams::default());
    let gpu = vk.gpu();
    let mut tex = Tex::default(&gpu);
    let mut plane = Plane::default();

    let pixels = vec![0x7Fu8; 64];
    let mut pd = PlaneData::default();
    pd.set_type_(&FmtType::FMT_UNORM);
    pd.set_width(4);
    pd.set_height(4);
    pd.set_pixel_stride(4);
    pd.set_row_stride(16);
    pd.set_pixels(&pixels);
    pd.data_from_mask(&[0x0000_00FF, 0x0000_FF00, 0x00FF_0000, 0xFF00_0000]);

    let ok = pd.upload_plane(&mut vk, &mut plane, &mut tex);
    assert!(ok);
    assert!(tex.tex != 0);
    assert!(tex.sampleable);
    assert_eq!(tex.w, 4);
    assert_eq!(tex.h, 4);
    assert_eq!(plane.texture, tex.tex);
    assert_eq!(plane.components, 4);
    assert_eq!(plane.component_mapping, [0, 1, 2, 3]);
    assert_eq!(plane.width(), 4);
    assert_eq!(plane.height(), 4);

    tex.destroy(&mut vk);
    vk.destroy(&mut inst);
    inst.destroy(&mut ctx);
    ctx.destroy();
}

#[test]
fn upload_plane_rejects_bad_descriptors() {
    let mut ctx = Context::default();
    let mut inst = VulkanInstance::new(&mut ctx, &VulkanInstanceParams::default());
    let mut vk = Vulkan::new(&ctx, &mut inst, &VulkanParams::default());
    let gpu = vk.gpu();
    let mut tex = Tex::default(&gpu);
    let mut plane = Plane::default();

    // wrong sample format tag
    let mut pd = PlaneData::default();
    pd.set_width(4);
    pd.set_height(4);
    pd.set_pixel_stride(4);
    pd.set_row_stride(16);
    pd.set_pixels(&vec![0u8; 64]);
    pd.data_from_mask(&[0xFF, 0xFF00, 0xFF0000, 0xFF000000]);
    assert!(!pd.upload_plane(&mut vk, &mut plane, &mut tex));
    assert!(tex.tex == 0);
    assert_eq!(vk.live_children, 0);

    // unsupported component width (5 bits)
    let mut pd565 = PlaneData::default();
    pd565.set_type_(&FmtType::FMT_UNORM);
    pd565.set_width(4);
    pd565.set_height(4);
    pd565.set_pixel_stride(2);
    pd565.set_row_stride(8);
    pd565.set_pixels(&vec![0u8; 32]);
    pd565.data_from_mask(&[0xF800, 0x07E0, 0x001F, 0]);
    assert!(!pd565.upload_plane(&mut vk, &mut plane, &mut tex));

    // no components at all
    let mut pd_empty = PlaneData::default();
    pd_empty.set_type_(&FmtType::FMT_UNORM);
    pd_empty.set_width(4);
    pd_empty.set_height(4);
    pd_empty.set_pixel_stride(4);
    pd_empty.set_row_stride(16);
    pd_empty.set_pixels(&vec![0u8; 64]);
    assert!(!pd_empty.upload_plane(&mut vk, &mut plane, &mut tex));

    // pixel buffer shorter than the strides demand
    let mut pd_short = PlaneData::default();
    pd_short.set_type_(&FmtType::FMT_UNORM);
    pd_short.set_width(4);
    pd_short.set_height(4);
    pd_short.set_pixel_stride(4);
    pd_short.set_row_stride(16);
    pd_short.set_pixels(&vec![0u8; 32]);
    pd_short.data_from_mask(&[0xFF, 0xFF00, 0xFF0000, 0xFF000000]);
    assert!(!pd_short.upload_plane(&mut vk, &mut plane, &mut tex));

    // extent beyond the device's limit
    let mut pd_wide = PlaneData::default();
    pd_wide.set_type_(&FmtType::FMT_UNORM);
    pd_wide.set_width(8192);
    pd_wide.set_height(1);
    pd_wide.set_pixel_stride(1);
    pd_wide.set_row_stride(8192);
    pd_wide.set_pixels(&vec![0u8; 8192]);
    pd_wide.data_from_mask(&[0xFF, 0, 0, 0]);
    assert!(!pd_wide.upload_plane(&mut vk, &mut plane, &mut tex));

    vk.destroy(&mut inst);
    inst.destroy(&mut ctx);
    ctx.destroy();
}
