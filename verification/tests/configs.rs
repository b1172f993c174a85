//! Configuration value objects: structural equality, defaults, the
//! preset catalogs and tag round-trips.

use libplacebo::colorspace::{
    AlphaMode, BitEncoding, ColorAdjustment, ColorLevels, ColorRepr, ColorReprs, ColorSpace,
    ColorSpaces, ColorSystem, IccProfile, Vision,
};
use libplacebo::filter::{FilterConfig, FilterConfigs, FilterFunction, FilterFunctions};
use libplacebo::renderer::RenderParams;
use libplacebo::shaders::colorspace::{
    ColorMapParams, DitherMethod, DitherParams, Lut3DParams, PeakDetectParams, SigmoidParams,
    ToneMappingAlgorithm,
};
use libplacebo::shaders::sampling::DebandParams;

#[test]
fn bit_encoding_structural_equality() {
    let a = BitEncoding::new(10, 10, 6);
    let b = BitEncoding::new(10, 10, 6);
    assert!(a.equal(&b));
    let c = BitEncoding::new(10, 8, 6);
    assert!(!a.equal(&c));
}

#[test]
fn color_repr_structural_equality() {
    let a = ColorRepr::new(
        &ColorSystem::COLOR_SYSTEM_BT_709,
        &ColorLevels::COLOR_LEVELS_TV,
        &AlphaMode::ALPHA_INDEPENDENT,
        &BitEncoding::new(8, 8, 0),
    );
    let b = ColorRepr::new(
        &ColorSystem::COLOR_SYSTEM_BT_709,
        &ColorLevels::COLOR_LEVELS_TV,
        &AlphaMode::ALPHA_INDEPENDENT,
        &BitEncoding::new(8, 8, 0),
    );
    assert_eq!(a, b);
    let mut c = b;
    c.set_levels(&ColorLevels::COLOR_LEVELS_PC);
    assert_ne!(a, c);
}

#[test]
fn color_space_structural_equality() {
    let a = ColorSpace::color_space(&ColorSpaces::Hdr10);
    let b = ColorSpace::color_space(&ColorSpaces::Hdr10);
    assert_eq!(a, b);
    let mut c = b;
    c.sig_peak = 10000;
    assert_ne!(a, c);
}

#[test]
fn filter_config_structural_equality() {
    let a = FilterConfig::get_filter_config(&FilterConfigs::EwaLanczos);
    let b = FilterConfig::get_filter_config(&FilterConfigs::EwaLanczos);
    assert!(a.filter_config_eq(&b));
    let mut c = b;
    c.blur = 1;
    assert!(!a.filter_config_eq(&c));
    let mut d = b;
    d.polar = false;
    assert!(!a.filter_config_eq(&d));
    assert!(!a.filter_config_eq(&FilterConfig::get_filter_config(&FilterConfigs::EwaJinc)));
}

#[test]
fn filter_function_structural_equality() {
    let a = FilterFunction::new(true, &[true, false], 3000, &[500, 0]);
    let b = FilterFunction::new(true, &[true, false], 3000, &[500, 0]);
    assert!(a.filter_function_eq(&b));
    let c = FilterFunction::new(true, &[true, false], 3000, &[500, 1]);
    assert!(!a.filter_function_eq(&c));
    let d = FilterFunction::new(false, &[true, false], 3000, &[500, 0]);
    assert!(!a.filter_function_eq(&d));
}

#[test]
fn filter_catalog_polar_flags() {
    assert!(FilterConfig::get_filter_config(&FilterConfigs::EwaLanczos).polar);
    assert!(FilterConfig::get_filter_config(&FilterConfigs::EwaJinc).polar);
    assert!(FilterConfig::get_filter_config(&FilterConfigs::Haasnsoft).polar);
    assert!(!FilterConfig::get_filter_config(&FilterConfigs::Spline36).polar);
    assert!(!FilterConfig::get_filter_config(&FilterConfigs::Mitchell).polar);
    // the haasnsoft preset blurs by 1.11
    assert_eq!(FilterConfig::get_filter_config(&FilterConfigs::Haasnsoft).blur, 1110);
}

#[test]
fn kernel_presets_are_pairwise_distinct() {
    // numerically identical presets are still told apart by their
    // weight-function identity
    let box_kernel = FilterFunctions::Box.to_filter_function();
    let tri = FilterFunctions::Triangle.to_filter_function();
    assert!(!box_kernel.filter_function_eq(&tri));
    let hann = FilterFunctions::Hann.to_filter_function();
    let hamming = FilterFunctions::Hamming.to_filter_function();
    let welch = FilterFunctions::Welch.to_filter_function();
    assert!(!hann.filter_function_eq(&hamming));
    assert!(!hann.filter_function_eq(&welch));
    let sinc = FilterFunctions::Sinc.to_filter_function();
    assert!(!box_kernel.filter_function_eq(&sinc));
    // each preset equals itself
    assert!(hann.filter_function_eq(&FilterFunctions::Hann.to_filter_function()));
    // a user-built kernel carries no weight identity, so it never
    // equals a named preset, even with identical numbers
    let anonymous = FilterFunction::new(true, &[false, false], 1000, &[0, 0]);
    assert!(!anonymous.filter_function_eq(&box_kernel));
    assert!(anonymous.filter_function_eq(&FilterFunction::new(true, &[false, false], 1000, &[0, 0])));
}

#[test]
fn filter_kernel_catalog_values() {
    let spline36 = FilterFunctions::Spline36.to_filter_function();
    assert_eq!(spline36.radius, 3000);
    let mitchell = FilterFunctions::Mitchell.to_filter_function();
    assert_eq!(mitchell.radius, 2000);
    assert_eq!(mitchell.params, [333, 333]);
    let gaussian = FilterFunctions::Gaussian.to_filter_function();
    assert!(gaussian.resizable);
    assert_eq!(gaussian.tunable, [true, false]);
    let spline16 = FilterFunctions::Spline16.to_filter_function();
    assert_eq!(spline16.radius, 2000);
    assert_eq!(spline16.weight, Some(FilterFunctions::Spline16));
    let spline16_config = FilterConfig::get_filter_config(&FilterConfigs::Spline16);
    assert!(spline16_config.kernel.filter_function_eq(&spline16));
}

#[test]
fn default_color_repr_is_unknown() {
    let repr = ColorRepr::default();
    assert_eq!(repr.sys, ColorSystem::COLOR_SYSTEM_UNKNOWN);
    assert_eq!(repr.levels, ColorLevels::COLOR_LEVELS_UNKNOWN);
    assert_eq!(repr.alpha, AlphaMode::ALPHA_UNKNOWN);
    assert_eq!(repr.bits, BitEncoding::new(0, 0, 0));
    assert_eq!(repr, ColorRepr::color_repr(&ColorReprs::Unknown));
}

#[test]
fn default_render_params_match_the_preset() {
    let params = RenderParams::default();
    let up = params.upscaler.expect("upscaler preset");
    assert!(up.filter_config_eq(&FilterConfig::get_filter_config(&FilterConfigs::Spline36)));
    let down = params.downscaler.expect("downscaler preset");
    assert!(down.filter_config_eq(&FilterConfig::get_filter_config(&FilterConfigs::Mitchell)));
    assert!(params.frame_mixer.is_none());
    assert_eq!(params.lut_entries, 64);
    assert_eq!(params.antiringing_strength, 0);
    assert_eq!(params.deband_params, Some(DebandParams::new(1, 4000, 16000, 6000)));
    assert_eq!(params.sigmoid_params, Some(SigmoidParams::new(750, 6500)));
    assert_eq!(params.color_adjustment, Some(ColorAdjustment::default()));
    assert_eq!(params.peak_detect_params, Some(PeakDetectParams::new(100000, 5500, 10000)));
    assert_eq!(params.color_map_params, Some(ColorMapParams::default()));
    assert_eq!(params.dither_params, Some(DitherParams::default()));
    assert!(params.lut3d_params.is_none());
    assert_eq!(params.cone_params, Vision::Normal.to_cone_params());
    assert!(!params.skip_anti_aliasing);
    assert!(!params.disable_overlay_sampling);
    assert!(!params.allow_delayed_peak_detect);
    assert!(!params.skip_redraw_caching);
    assert!(!params.disable_linear_scaling);
    assert!(!params.disable_builtin_scalers);
    assert!(!params.force_3dlut);
}

#[test]
fn default_shader_params() {
    assert_eq!(SigmoidParams::default(), SigmoidParams::new(750, 6500));
    assert_eq!(DebandParams::default(), DebandParams::new(1, 4000, 16000, 6000));
    let cm = ColorMapParams::default();
    assert_eq!(cm.tone_mapping_algo, ToneMappingAlgorithm::TONE_MAPPING_HABLE);
    assert_eq!(cm.desaturation_strength, 750);
    let dither = DitherParams::default();
    assert_eq!(dither.method, DitherMethod::DITHER_BLUE_NOISE);
    assert_eq!(dither.lut_size, 6);
    assert!(!dither.temporal);
    let lut = Lut3DParams::default();
    assert_eq!((lut.size_r, lut.size_g, lut.size_b), (64, 64, 64));
    assert_eq!(ColorAdjustment::default(), ColorAdjustment::new(0, 1000, 1000, 0, 1000));
}

#[test]
fn color_system_tags_round_trip() {
    let all = [
        ColorSystem::COLOR_SYSTEM_UNKNOWN,
        ColorSystem::COLOR_SYSTEM_BT_601,
        ColorSystem::COLOR_SYSTEM_BT_709,
        ColorSystem::COLOR_SYSTEM_SMPTE_240M,
        ColorSystem::COLOR_SYSTEM_BT_2020_NC,
        ColorSystem::COLOR_SYSTEM_BT_2020_C,
        ColorSystem::COLOR_SYSTEM_BT_2100_PQ,
        ColorSystem::COLOR_SYSTEM_BT_2100_HLG,
        ColorSystem::COLOR_SYSTEM_YCGCO,
        ColorSystem::COLOR_SYSTEM_RGB,
        ColorSystem::COLOR_SYSTEM_XYZ,
        ColorSystem::COLOR_SYSTEM_COUNT,
    ];
    for (i, v) in all.iter().enumerate() {
        assert_eq!(v.to_tag(), i as u32);
        assert_eq!(ColorSystem::from_tag(v.to_tag()), Some(*v));
    }
    assert_eq!(ColorSystem::from_tag(99), None);
}

#[test]
fn alpha_and_levels_tags_round_trip() {
    for v in [
        AlphaMode::ALPHA_UNKNOWN,
        AlphaMode::ALPHA_INDEPENDENT,
        AlphaMode::ALPHA_PREMULTIPLIED,
    ] {
        assert_eq!(AlphaMode::from_tag(v.to_tag()), Some(v));
    }
    assert_eq!(AlphaMode::from_tag(3), None);
    for v in [
        ColorLevels::COLOR_LEVELS_UNKNOWN,
        ColorLevels::COLOR_LEVELS_TV,
        ColorLevels::COLOR_LEVELS_PC,
        ColorLevels::COLOR_LEVELS_COUNT,
    ] {
        assert_eq!(ColorLevels::from_tag(v.to_tag()), Some(v));
    }
    assert_eq!(ColorLevels::from_tag(4), None);
}

#[test]
fn vision_cone_catalog() {
    let normal = Vision::Normal.to_cone_params();
    assert!(!normal.cone_l && !normal.cone_m && !normal.cone_s);
    assert_eq!(normal.strength, 1000);
    let prot = Vision::Protanopia.to_cone_params();
    assert!(prot.cone_l && !prot.cone_m && !prot.cone_s);
    assert_eq!(prot.strength, 0);
    let deut = Vision::Deuteranomaly.to_cone_params();
    assert!(!deut.cone_l && deut.cone_m && !deut.cone_s);
    assert_eq!(deut.strength, 500);
    let achroma = Vision::Achromatopsia.to_cone_params();
    assert!(achroma.cone_l && achroma.cone_m && achroma.cone_s);
    assert_eq!(achroma.strength, 0);
}

#[test]
fn icc_profile_equality_is_signature_and_bytes() {
    let a = IccProfile::new(42, &[1, 2, 3]);
    let b = IccProfile::new(42, &[1, 2, 3]);
    assert!(a.is_equal(&b));
    let c = IccProfile::new(43, &[1, 2, 3]);
    assert!(!a.is_equal(&c));
    let d = IccProfile::new(42, &[1, 2, 4]);
    assert!(!a.is_equal(&d));
    let e = IccProfile::new(42, &[1, 2]);
    assert!(!a.is_equal(&e));
    let mut f = IccProfile::default();
    assert_eq!(f.signature, 0);
    f.set_signature(42);
    f.set_data(&[1, 2, 3]);
    assert!(a.is_equal(&f));
}

#[test]
fn color_space_preset_catalog() {
    let srgb = ColorSpace::color_space(&ColorSpaces::Srgb);
    assert_eq!(srgb.transfer, libplacebo::colorspace::ColorTransfer::COLOR_TRC_SRGB);
    let hdr10 = ColorSpace::color_space(&ColorSpaces::Hdr10);
    assert_eq!(hdr10.primaries, libplacebo::colorspace::ColorPrimaries::COLOR_PRIM_BT_2020);
    assert_eq!(hdr10.transfer, libplacebo::colorspace::ColorTransfer::COLOR_TRC_PQ);
    let repr_jpeg = ColorRepr::color_repr(&ColorReprs::Jpeg);
    assert_eq!(repr_jpeg.levels, ColorLevels::COLOR_LEVELS_PC);
    assert_eq!(repr_jpeg.bits, BitEncoding::new(8, 8, 0));
}
