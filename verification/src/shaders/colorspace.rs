//! Color-management configuration: sigmoidization, peak detection,
//! tone/gamut mapping, dithering and 3D look-up tables.
//!
//! Fractional knobs are stored in thousandths.

use vstd::prelude::*;

verus! {

use crate::colorspace::RenderingIntent;

/// The tone-mapping curve applied when the source exceeds the
/// destination's dynamic range.
#[allow(non_camel_case_types)]
#[derive(Clone, Copy, Debug, PartialEq, Eq, Structural)]
pub enum ToneMappingAlgorithm {
    TONE_MAPPING_CLIP,
    TONE_MAPPING_MOBIUS,
    TONE_MAPPING_REINHARD,
    TONE_MAPPING_HABLE,
    TONE_MAPPING_GAMMA,
    TONE_MAPPING_LINEAR,
}

/// The dithering noise source.
#[allow(non_camel_case_types)]
#[derive(Clone, Copy, Debug, PartialEq, Eq, Structural)]
pub enum DitherMethod {
    DITHER_BLUE_NOISE,
    DITHER_ORDERED_LUT,
    DITHER_ORDERED_FIXED,
    DITHER_WHITE_NOISE,
}

/// Sigmoidal contrast curve applied around linearization, in
/// thousandths.
#[derive(Clone, Copy, Debug, PartialEq, Eq, Structural)]
pub struct SigmoidParams {
    pub center: i64,
    pub slope: i64,
}

impl SigmoidParams {
    pub fn new(center: i64, slope: i64) -> (r: SigmoidParams)
        ensures
            r == (SigmoidParams { center, slope }),
    {
        SigmoidParams { center, slope }
    }
}

impl Default for SigmoidParams {
    /// Center 0.75 and slope 6.5.
    fn default() -> (r: SigmoidParams)
        ensures
            r == (SigmoidParams { center: 750, slope: 6500 }),
    {
        SigmoidParams { center: 750, slope: 6500 }
    }
}

/// Dynamic brightness-peak detection configuration, in thousandths.
#[derive(Clone, Copy, Debug, PartialEq, Eq, Structural)]
pub struct PeakDetectParams {
    pub smoothing_period: i64,
    pub scene_threshold_low: i64,
    pub scene_threshold_high: i64,
}

impl PeakDetectParams {
    pub fn new(smoothing_period: i64, scene_threshold_low: i64, scene_threshold_high: i64) -> (r:
        PeakDetectParams)
        ensures
            r == (PeakDetectParams { smoothing_period, scene_threshold_low, scene_threshold_high }),
    {
        PeakDetectParams { smoothing_period, scene_threshold_low, scene_threshold_high }
    }
}

impl Default for PeakDetectParams {
    /// A smoothing period of 100 frames and scene-change thresholds
    /// of 5.5 and 10.0.
    fn default() -> (r: PeakDetectParams)
        ensures
            r == (PeakDetectParams {
                smoothing_period: 100000,
                scene_threshold_low: 5500,
                scene_threshold_high: 10000,
            }),
    {
        PeakDetectParams {
            smoothing_period: 100000,
            scene_threshold_low: 5500,
            scene_threshold_high: 10000,
        }
    }
}

/// Tone- and gamut-mapping configuration, scalars in thousandths.
#[derive(Clone, Copy, Debug, PartialEq, Eq, Structural)]
pub struct ColorMapParams {
    pub intent: RenderingIntent,
    pub tone_mapping_algo: ToneMappingAlgorithm,
    pub tone_mapping_param: i64,
    pub desaturation_strength: i64,
    pub desaturation_exponent: i64,
    pub desaturation_base: i64,
    pub max_boost: i64,
    pub gamut_warning: bool,
}

impl ColorMapParams {
    pub fn new(
        intent: &RenderingIntent,
        tone_mapping_algo: &ToneMappingAlgorithm,
        tone_mapping_param: i64,
        desaturation_strength: i64,
        desaturation_exponent: i64,
        desaturation_base: i64,
        max_boost: i64,
        gamut_warning: bool,
    ) -> (r: ColorMapParams)
        ensures
            r == (ColorMapParams {
                intent: *intent,
                tone_mapping_algo: *tone_mapping_algo,
                tone_mapping_param,
                desaturation_strength,
                desaturation_exponent,
                desaturation_base,
                max_boost,
                gamut_warning,
            }),
    {
        ColorMapParams {
            intent: *intent,
            tone_mapping_algo: *tone_mapping_algo,
            tone_mapping_param,
            desaturation_strength,
            desaturation_exponent,
            desaturation_base,
            max_boost,
            gamut_warning,
        }
    }
}

impl Default for ColorMapParams {
    /// Relative-colorimetric intent, the Hable curve with its
    /// default parameter, desaturation 0.75 / 1.5 / 0.18, and no
    /// brightness boost.
    fn default() -> (r: ColorMapParams)
        ensures
            r == (ColorMapParams {
                intent: RenderingIntent::INTENT_RELATIVE_COLORIMETRIC,
                tone_mapping_algo: ToneMappingAlgorithm::TONE_MAPPING_HABLE,
                tone_mapping_param: 0,
                desaturation_strength: 750,
                desaturation_exponent: 1500,
                desaturation_base: 180,
                max_boost: 1000,
                gamut_warning: false,
            }),
    {
        ColorMapParams {
            intent: RenderingIntent::INTENT_RELATIVE_COLORIMETRIC,
            tone_mapping_algo: ToneMappingAlgorithm::TONE_MAPPING_HABLE,
            tone_mapping_param: 0,
            desaturation_strength: 750,
            desaturation_exponent: 1500,
            desaturation_base: 180,
            max_boost: 1000,
            gamut_warning: false,
        }
    }
}

/// Dithering configuration.
#[derive(Clone, Copy, Debug, PartialEq, Eq, Structural)]
pub struct DitherParams {
    pub method: DitherMethod,
    pub lut_size: usize,
    pub temporal: bool,
}

impl DitherParams {
    pub fn new(method: &DitherMethod, lut_size: usize, temporal: bool) -> (r: DitherParams)
        ensures
            r == (DitherParams { method: *method, lut_size, temporal }),
    {
        DitherParams { method: *method, lut_size, temporal }
    }
}

impl Default for DitherParams {
    /// Blue-noise dithering with a 64x64 pattern (size exponent 6),
    /// not temporal.
    fn default() -> (r: DitherParams)
        ensures
            r == (DitherParams { method: DitherMethod::DITHER_BLUE_NOISE, lut_size: 6, temporal: false }),
    {
        DitherParams { method: DitherMethod::DITHER_BLUE_NOISE, lut_size: 6, temporal: false }
    }
}

/// 3D look-up-table configuration.
#[derive(Clone, Copy, Debug, PartialEq, Eq, Structural)]
pub struct Lut3DParams {
    pub intent: RenderingIntent,
    pub size_r: usize,
    pub size_g: usize,
    pub size_b: usize,
}

impl Lut3DParams {
    pub fn new(intent: &RenderingIntent, size_r: usize, size_g: usize, size_b: usize) -> (r:
        Lut3DParams)
        ensures
            r == (Lut3DParams { intent: *intent, size_r, size_g, size_b }),
    {
        Lut3DParams { intent: *intent, size_r, size_g, size_b }
    }
}

impl Default for Lut3DParams {
    /// Relative-colorimetric intent with a 64x64x64 table.
    fn default() -> (r: Lut3DParams)
        ensures
            r == (Lut3DParams {
                intent: RenderingIntent::INTENT_RELATIVE_COLORIMETRIC,
                size_r: 64,
                size_g: 64,
                size_b: 64,
            }),
    {
        Lut3DParams {
            intent: RenderingIntent::INTENT_RELATIVE_COLORIMETRIC,
            size_r: 64,
            size_g: 64,
            size_b: 64,
        }
    }
}

} // verus!
