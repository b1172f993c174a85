//! Color metadata value objects: pixel-encoding representation
//! (system, levels, alpha handling, bit depth), perceptual color
//! space (primaries, transfer function, light type, signal levels),
//! color-vision simulation parameters, color adjustment, and ICC
//! profiles.
//!
//! Scalar knobs whose native counterparts are fractional are stored
//! in thousandths (a stored value of 1000 means 1.0).
//!
//! Each tagged enumeration round-trips through a stable integer tag,
//! so a fixed native parameter layout can be reproduced faithfully.

use vstd::prelude::*;

verus! {

/// How the alpha channel of an image is to be interpreted.
#[allow(non_camel_case_types)]
#[derive(Clone, Copy, Debug, PartialEq, Eq, Structural)]
pub enum AlphaMode {
    ALPHA_UNKNOWN,
    ALPHA_INDEPENDENT,
    ALPHA_PREMULTIPLIED,
}

impl AlphaMode {
    pub open spec fn tag_spec(&self) -> u32 {
        match self {
            AlphaMode::ALPHA_UNKNOWN => 0,
            AlphaMode::ALPHA_INDEPENDENT => 1,
            AlphaMode::ALPHA_PREMULTIPLIED => 2,
        }
    }

    pub open spec fn from_tag_spec(tag: u32) -> Option<AlphaMode> {
        if tag == 0 {
            Some(AlphaMode::ALPHA_UNKNOWN)
        } else if tag == 1 {
            Some(AlphaMode::ALPHA_INDEPENDENT)
        } else if tag == 2 {
            Some(AlphaMode::ALPHA_PREMULTIPLIED)
        } else {
            None
        }
    }

    pub fn to_tag(&self) -> (r: u32)
        ensures
            r == self.tag_spec(),
    {
        match self {
            AlphaMode::ALPHA_UNKNOWN => 0,
            AlphaMode::ALPHA_INDEPENDENT => 1,
            AlphaMode::ALPHA_PREMULTIPLIED => 2,
        }
    }

    pub fn from_tag(tag: u32) -> (r: Option<AlphaMode>)
        ensures
            r == Self::from_tag_spec(tag),
    {
        if tag == 0 {
            Some(AlphaMode::ALPHA_UNKNOWN)
        } else if tag == 1 {
            Some(AlphaMode::ALPHA_INDEPENDENT)
        } else if tag == 2 {
            Some(AlphaMode::ALPHA_PREMULTIPLIED)
        } else {
            None
        }
    }
}

/// Every alpha mode comes back unchanged from its integer tag.
pub proof fn lemma_alpha_mode_tag_round_trip(v: AlphaMode)
    ensures
        AlphaMode::from_tag_spec(v.tag_spec()) == Some(v),
{
}

/// The color system (matrix) a pixel encoding uses.
#[allow(non_camel_case_types)]
#[derive(Clone, Copy, Debug, PartialEq, Eq, Structural)]
pub enum ColorSystem {
    COLOR_SYSTEM_UNKNOWN,
    COLOR_SYSTEM_BT_601,
    COLOR_SYSTEM_BT_709,
    COLOR_SYSTEM_SMPTE_240M,
    COLOR_SYSTEM_BT_2020_NC,
    COLOR_SYSTEM_BT_2020_C,
    COLOR_SYSTEM_BT_2100_PQ,
    COLOR_SYSTEM_BT_2100_HLG,
    COLOR_SYSTEM_YCGCO,
    COLOR_SYSTEM_RGB,
    COLOR_SYSTEM_XYZ,
    COLOR_SYSTEM_COUNT,
}

impl ColorSystem {
    pub open spec fn tag_spec(&self) -> u32 {
        match self {
            ColorSystem::COLOR_SYSTEM_UNKNOWN => 0,
            ColorSystem::COLOR_SYSTEM_BT_601 => 1,
            ColorSystem::COLOR_SYSTEM_BT_709 => 2,
            ColorSystem::COLOR_SYSTEM_SMPTE_240M => 3,
            ColorSystem::COLOR_SYSTEM_BT_2020_NC => 4,
            ColorSystem::COLOR_SYSTEM_BT_2020_C => 5,
            ColorSystem::COLOR_SYSTEM_BT_2100_PQ => 6,
            ColorSystem::COLOR_SYSTEM_BT_2100_HLG => 7,
            ColorSystem::COLOR_SYSTEM_YCGCO => 8,
            ColorSystem::COLOR_SYSTEM_RGB => 9,
            ColorSystem::COLOR_SYSTEM_XYZ => 10,
            ColorSystem::COLOR_SYSTEM_COUNT => 11,
        }
    }

    pub open spec fn from_tag_spec(tag: u32) -> Option<ColorSystem> {
        if tag == 0 {
            Some(ColorSystem::COLOR_SYSTEM_UNKNOWN)
        } else if tag == 1 {
            Some(ColorSystem::COLOR_SYSTEM_BT_601)
        } else if tag == 2 {
            Some(ColorSystem::COLOR_SYSTEM_BT_709)
        } else if tag == 3 {
            Some(ColorSystem::COLOR_SYSTEM_SMPTE_240M)
        } else if tag == 4 {
            Some(ColorSystem::COLOR_SYSTEM_BT_2020_NC)
        } else if tag == 5 {
            Some(ColorSystem::COLOR_SYSTEM_BT_2020_C)
        } else if tag == 6 {
            Some(ColorSystem::COLOR_SYSTEM_BT_2100_PQ)
        } else if tag == 7 {
            Some(ColorSystem::COLOR_SYSTEM_BT_2100_HLG)
        } else if tag == 8 {
            Some(ColorSystem::COLOR_SYSTEM_YCGCO)
        } else if tag == 9 {
            Some(ColorSystem::COLOR_SYSTEM_RGB)
        } else if tag == 10 {
            Some(ColorSystem::COLOR_SYSTEM_XYZ)
        } else if tag == 11 {
            Some(ColorSystem::COLOR_SYSTEM_COUNT)
        } else {
            None
        }
    }

    pub fn to_tag(&self) -> (r: u32)
        ensures
            r == self.tag_spec(),
    {
        match self {
            ColorSystem::COLOR_SYSTEM_UNKNOWN => 0,
            ColorSystem::COLOR_SYSTEM_BT_601 => 1,
            ColorSystem::COLOR_SYSTEM_BT_709 => 2,
            ColorSystem::COLOR_SYSTEM_SMPTE_240M => 3,
            ColorSystem::COLOR_SYSTEM_BT_2020_NC => 4,
            ColorSystem::COLOR_SYSTEM_BT_2020_C => 5,
            ColorSystem::COLOR_SYSTEM_BT_2100_PQ => 6,
            ColorSystem::COLOR_SYSTEM_BT_2100_HLG => 7,
            ColorSystem::COLOR_SYSTEM_YCGCO => 8,
            ColorSystem::COLOR_SYSTEM_RGB => 9,
            ColorSystem::COLOR_SYSTEM_XYZ => 10,
            ColorSystem::COLOR_SYSTEM_COUNT => 11,
        }
    }

    pub fn from_tag(tag: u32) -> (r: Option<ColorSystem>)
        ensures
            r == Self::from_tag_spec(tag),
    {
        if tag == 0 {
            Some(ColorSystem::COLOR_SYSTEM_UNKNOWN)
        } else if tag == 1 {
            Some(ColorSystem::COLOR_SYSTEM_BT_601)
        } else if tag == 2 {
            Some(ColorSystem::COLOR_SYSTEM_BT_709)
        } else if tag == 3 {
            Some(ColorSystem::COLOR_SYSTEM_SMPTE_240M)
        } else if tag == 4 {
            Some(ColorSystem::COLOR_SYSTEM_BT_2020_NC)
        } else if tag == 5 {
            Some(ColorSystem::COLOR_SYSTEM_BT_2020_C)
        } else if tag == 6 {
            Some(ColorSystem::COLOR_SYSTEM_BT_2100_PQ)
        } else if tag == 7 {
            Some(ColorSystem::COLOR_SYSTEM_BT_2100_HLG)
        } else if tag == 8 {
            Some(ColorSystem::COLOR_SYSTEM_YCGCO)
        } else if tag == 9 {
            Some(ColorSystem::COLOR_SYSTEM_RGB)
        } else if tag == 10 {
            Some(ColorSystem::COLOR_SYSTEM_XYZ)
        } else if tag == 11 {
            Some(ColorSystem::COLOR_SYSTEM_COUNT)
        } else {
            None
        }
    }
}

/// Every color system comes back unchanged from its integer tag.
pub proof fn lemma_color_system_tag_round_trip(v: ColorSystem)
    ensures
        ColorSystem::from_tag_spec(v.tag_spec()) == Some(v),
{
}

/// The set of display primaries a color space is defined against.
#[allow(non_camel_case_types)]
#[derive(Clone, Copy, Debug, PartialEq, Eq, Structural)]
pub enum ColorPrimaries {
    COLOR_PRIM_UNKNOWN,
    COLOR_PRIM_BT_601_525,
    COLOR_PRIM_BT_601_625,
    COLOR_PRIM_BT_709,
    COLOR_PRIM_BT_470M,
    COLOR_PRIM_BT_2020,
    COLOR_PRIM_APPLE,
    COLOR_PRIM_ADOBE,
    COLOR_PRIM_PRO_PHOTO,
    COLOR_PRIM_CIE_1931,
    COLOR_PRIM_DCI_P3,
    COLOR_PRIM_DISPLAY_P3,
    COLOR_PRIM_V_GAMUT,
    COLOR_PRIM_S_GAMUT,
    COLOR_PRIM_COUNT,
}

/// The opto-electronic transfer function of a color space.
#[allow(non_camel_case_types)]
#[derive(Clone, Copy, Debug, PartialEq, Eq, Structural)]
pub enum ColorTransfer {
    COLOR_TRC_UNKNOWN,
    COLOR_TRC_BT_1886,
    COLOR_TRC_SRGB,
    COLOR_TRC_LINEAR,
    COLOR_TRC_GAMMA18,
    COLOR_TRC_GAMMA22,
    COLOR_TRC_GAMMA28,
    COLOR_TRC_PRO_PHOTO,
    COLOR_TRC_PQ,
    COLOR_TRC_HLG,
    COLOR_TRC_V_LOG,
    COLOR_TRC_S_LOG1,
    COLOR_TRC_S_LOG2,
    COLOR_TRC_COUNT,
}

/// Which kind of light a signal describes (display- or scene-referred).
#[allow(non_camel_case_types)]
#[derive(Clone, Copy, Debug, PartialEq, Eq, Structural)]
pub enum ColorLight {
    COLOR_LIGHT_UNKNOWN,
    COLOR_LIGHT_DISPLAY,
    COLOR_LIGHT_SCENE_HLG,
    COLOR_LIGHT_SCENE_709_1886,
    COLOR_LIGHT_SCENE_1_2,
    COLOR_LIGHT_COUNT,
}

/// Whether a pixel encoding uses the limited (TV) or the full (PC)
/// value range.
#[allow(non_camel_case_types)]
#[derive(Clone, Copy, Debug, PartialEq, Eq, Structural)]
pub enum ColorLevels {
    COLOR_LEVELS_UNKNOWN,
    COLOR_LEVELS_TV,
    COLOR_LEVELS_PC,
    COLOR_LEVELS_COUNT,
}

impl ColorLevels {
    pub open spec fn tag_spec(&self) -> u32 {
        match self {
            ColorLevels::COLOR_LEVELS_UNKNOWN => 0,
            ColorLevels::COLOR_LEVELS_TV => 1,
            ColorLevels::COLOR_LEVELS_PC => 2,
            ColorLevels::COLOR_LEVELS_COUNT => 3,
        }
    }

    pub open spec fn from_tag_spec(tag: u32) -> Option<ColorLevels> {
        if tag == 0 {
            Some(ColorLevels::COLOR_LEVELS_UNKNOWN)
        } else if tag == 1 {
            Some(ColorLevels::COLOR_LEVELS_TV)
        } else if tag == 2 {
            Some(ColorLevels::COLOR_LEVELS_PC)
        } else if tag == 3 {
            Some(ColorLevels::COLOR_LEVELS_COUNT)
        } else {
            None
        }
    }

    pub fn to_tag(&self) -> (r: u32)
        ensures
            r == self.tag_spec(),
    {
        match self {
            ColorLevels::COLOR_LEVELS_UNKNOWN => 0,
            ColorLevels::COLOR_LEVELS_TV => 1,
            ColorLevels::COLOR_LEVELS_PC => 2,
            ColorLevels::COLOR_LEVELS_COUNT => 3,
        }
    }

    pub fn from_tag(tag: u32) -> (r: Option<ColorLevels>)
        ensures
            r == Self::from_tag_spec(tag),
    {
        if tag == 0 {
            Some(ColorLevels::COLOR_LEVELS_UNKNOWN)
        } else if tag == 1 {
            Some(ColorLevels::COLOR_LEVELS_TV)
        } else if tag == 2 {
            Some(ColorLevels::COLOR_LEVELS_PC)
        } else if tag == 3 {
            Some(ColorLevels::COLOR_LEVELS_COUNT)
        } else {
            None
        }
    }
}

/// Every levels value comes back unchanged from its integer tag.
pub proof fn lemma_color_levels_tag_round_trip(v: ColorLevels)
    ensures
        ColorLevels::from_tag_spec(v.tag_spec()) == Some(v),
{
}

/// The rendering intent used when mapping between gamuts.
#[allow(non_camel_case_types)]
#[derive(Clone, Copy, Debug, PartialEq, Eq, Structural)]
pub enum RenderingIntent {
    INTENT_PERCEPTUAL,
    INTENT_RELATIVE_COLORIMETRIC,
    INTENT_SATURATION,
    INTENT_ABSOLUTE_COLORIMETRIC,
}

/// The bit encoding of a pixel representation: how many bits are
/// sampled, how many carry color, and how far they are shifted.
#[derive(Clone, Copy, Debug, PartialEq, Eq, Structural)]
pub struct BitEncoding {
    pub sample_depth: usize,
    pub color_depth: usize,
    pub bit_shift: usize,
}

impl BitEncoding {
    pub fn new(sample_depth: usize, color_depth: usize, bit_shift: usize) -> (r: BitEncoding)
        ensures
            r == (BitEncoding { sample_depth, color_depth, bit_shift }),
    {
        BitEncoding { sample_depth, color_depth, bit_shift }
    }

    /// Two bit encodings are equal exactly when all three fields match.
    pub fn equal(&self, b: &BitEncoding) -> (r: bool)
        ensures
            r == (*self == *b),
    {
        self.sample_depth == b.sample_depth && self.color_depth == b.color_depth
            && self.bit_shift == b.bit_shift
    }
}

impl Default for BitEncoding {
    fn default() -> (r: BitEncoding)
        ensures
            r == (BitEncoding { sample_depth: 0, color_depth: 0, bit_shift: 0 }),
    {
        BitEncoding { sample_depth: 0, color_depth: 0, bit_shift: 0 }
    }
}

/// Named color-representation presets.
#[derive(Clone, Copy, Debug, PartialEq, Eq, Structural)]
pub enum ColorReprs {
    Unknown,
    Rgb,
    Sdtv,
    Hdtv,
    Uhdtv,
    Jpeg,
}

/// A pixel-encoding description: color system, value range, alpha
/// interpretation and bit encoding.
#[derive(Clone, Copy, Debug, PartialEq, Eq, Structural)]
pub struct ColorRepr {
    pub sys: ColorSystem,
    pub levels: ColorLevels,
    pub alpha: AlphaMode,
    pub bits: BitEncoding,
}

impl ColorRepr {
    pub fn new(sys: &ColorSystem, levels: &ColorLevels, alpha: &AlphaMode, bits: &BitEncoding) -> (r:
        ColorRepr)
        ensures
            r == (ColorRepr { sys: *sys, levels: *levels, alpha: *alpha, bits: *bits }),
    {
        ColorRepr { sys: *sys, levels: *levels, alpha: *alpha, bits: *bits }
    }

    pub fn set_sys(&mut self, sys: &ColorSystem)
        ensures
            *final(self) == (ColorRepr { sys: *sys, ..*old(self) }),
    {
        self.sys = *sys;
    }

    pub fn set_levels(&mut self, levels: &ColorLevels)
        ensures
            *final(self) == (ColorRepr { levels: *levels, ..*old(self) }),
    {
        self.levels = *levels;
    }

    pub fn set_alpha(&mut self, alpha: &AlphaMode)
        ensures
            *final(self) == (ColorRepr { alpha: *alpha, ..*old(self) }),
    {
        self.alpha = *alpha;
    }

    pub fn set_bits(&mut self, bits: &BitEncoding)
        ensures
            *final(self) == (ColorRepr { bits: *bits, ..*old(self) }),
    {
        self.bits = *bits;
    }

    /// The catalog of named representation presets.
    pub open spec fn preset_spec(repr: ColorReprs) -> ColorRepr {
        match repr {
            ColorReprs::Unknown => ColorRepr {
                sys: ColorSystem::COLOR_SYSTEM_UNKNOWN,
                levels: ColorLevels::COLOR_LEVELS_UNKNOWN,
                alpha: AlphaMode::ALPHA_UNKNOWN,
                bits: BitEncoding { sample_depth: 0, color_depth: 0, bit_shift: 0 },
            },
            ColorReprs::Rgb => ColorRepr {
                sys: ColorSystem::COLOR_SYSTEM_RGB,
                levels: ColorLevels::COLOR_LEVELS_UNKNOWN,
                alpha: AlphaMode::ALPHA_UNKNOWN,
                bits: BitEncoding { sample_depth: 0, color_depth: 0, bit_shift: 0 },
            },
            ColorReprs::Sdtv => ColorRepr {
                sys: ColorSystem::COLOR_SYSTEM_BT_601,
                levels: ColorLevels::COLOR_LEVELS_TV,
                alpha: AlphaMode::ALPHA_UNKNOWN,
                bits: BitEncoding { sample_depth: 0, color_depth: 0, bit_shift: 0 },
            },
            ColorReprs::Hdtv => ColorRepr {
                sys: ColorSystem::COLOR_SYSTEM_BT_709,
                levels: ColorLevels::COLOR_LEVELS_TV,
                alpha: AlphaMode::ALPHA_UNKNOWN,
                bits: BitEncoding { sample_depth: 0, color_depth: 0, bit_shift: 0 },
            },
            ColorReprs::Uhdtv => ColorRepr {
                sys: ColorSystem::COLOR_SYSTEM_BT_2020_NC,
                levels: ColorLevels::COLOR_LEVELS_TV,
                alpha: AlphaMode::ALPHA_UNKNOWN,
                bits: BitEncoding { sample_depth: 0, color_depth: 0, bit_shift: 0 },
            },
            ColorReprs::Jpeg => ColorRepr {
                sys: ColorSystem::COLOR_SYSTEM_BT_601,
                levels: ColorLevels::COLOR_LEVELS_PC,
                alpha: AlphaMode::ALPHA_UNKNOWN,
                bits: BitEncoding { sample_depth: 8, color_depth: 8, bit_shift: 0 },
            },
        }
    }

    /// Looks a named preset up in the catalog.
    pub fn color_repr(repr: &ColorReprs) -> (r: ColorRepr)
        ensures
            r == Self::preset_spec(*repr),
    {
        match repr {
            ColorReprs::Unknown => ColorRepr {
                sys: ColorSystem::COLOR_SYSTEM_UNKNOWN,
                levels: ColorLevels::COLOR_LEVELS_UNKNOWN,
                alpha: AlphaMode::ALPHA_UNKNOWN,
                bits: BitEncoding { sample_depth: 0, color_depth: 0, bit_shift: 0 },
            },
            ColorReprs::Rgb => ColorRepr {
                sys: ColorSystem::COLOR_SYSTEM_RGB,
                levels: ColorLevels::COLOR_LEVELS_UNKNOWN,
                alpha: AlphaMode::ALPHA_UNKNOWN,
                bits: BitEncoding { sample_depth: 0, color_depth: 0, bit_shift: 0 },
            },
            ColorReprs::Sdtv => ColorRepr {
                sys: ColorSystem::COLOR_SYSTEM_BT_601,
                levels: ColorLevels::COLOR_LEVELS_TV,
                alpha: AlphaMode::ALPHA_UNKNOWN,
                bits: BitEncoding { sample_depth: 0, color_depth: 0, bit_shift: 0 },
            },
            ColorReprs::Hdtv => ColorRepr {
                sys: ColorSystem::COLOR_SYSTEM_BT_709,
                levels: ColorLevels::COLOR_LEVELS_TV,
                alpha: AlphaMode::ALPHA_UNKNOWN,
                bits: BitEncoding { sample_depth: 0, color_depth: 0, bit_shift: 0 },
            },
            ColorReprs::Uhdtv => ColorRepr {
                sys: ColorSystem::COLOR_SYSTEM_BT_2020_NC,
                levels: ColorLevels::COLOR_LEVELS_TV,
                alpha: AlphaMode::ALPHA_UNKNOWN,
                bits: BitEncoding { sample_depth: 0, color_depth: 0, bit_shift: 0 },
            },
            ColorReprs::Jpeg => ColorRepr {
                sys: ColorSystem::COLOR_SYSTEM_BT_601,
                levels: ColorLevels::COLOR_LEVELS_PC,
                alpha: AlphaMode::ALPHA_UNKNOWN,
                bits: BitEncoding { sample_depth: 8, color_depth: 8, bit_shift: 0 },
            },
        }
    }
}

impl Default for ColorRepr {
    /// The default representation leaves system, levels and alpha
    /// unknown.
    fn default() -> (r: ColorRepr)
        ensures
            r.sys == ColorSystem::COLOR_SYSTEM_UNKNOWN,
            r.levels == ColorLevels::COLOR_LEVELS_UNKNOWN,
            r.alpha == AlphaMode::ALPHA_UNKNOWN,
            r.bits == (BitEncoding { sample_depth: 0, color_depth: 0, bit_shift: 0 }),
    {
        ColorRepr {
            sys: ColorSystem::COLOR_SYSTEM_UNKNOWN,
            levels: ColorLevels::COLOR_LEVELS_UNKNOWN,
            alpha: AlphaMode::ALPHA_UNKNOWN,
            bits: BitEncoding { sample_depth: 0, color_depth: 0, bit_shift: 0 },
        }
    }
}

/// Named color-space presets.
#[derive(Clone, Copy, Debug, PartialEq, Eq, Structural)]
pub enum ColorSpaces {
    Unknown,
    Srgb,
    Bt709,
    Hdr10,
    Bt2020Hlg,
    Monitor,
}

/// A perceptual color-space description.  The signal levels
/// (`sig_peak`, `sig_avg`, `sig_scale`) are stored in thousandths;
/// 0 means unknown and lets a consumer pick its own default.
#[derive(Clone, Copy, Debug, PartialEq, Eq, Structural)]
pub struct ColorSpace {
    pub primaries: ColorPrimaries,
    pub transfer: ColorTransfer,
    pub light: ColorLight,
    pub sig_peak: i64,
    pub sig_avg: i64,
    pub sig_scale: i64,
}

impl ColorSpace {
    pub fn new(
        primaries: &ColorPrimaries,
        transfer: &ColorTransfer,
        light: &ColorLight,
        sig_peak: i64,
        sig_avg: i64,
        sig_scale: i64,
    ) -> (r: ColorSpace)
        ensures
            r == (ColorSpace {
                primaries: *primaries,
                transfer: *transfer,
                light: *light,
                sig_peak,
                sig_avg,
                sig_scale,
            }),
    {
        ColorSpace {
            primaries: *primaries,
            transfer: *transfer,
            light: *light,
            sig_peak,
            sig_avg,
            sig_scale,
        }
    }

    /// The catalog of named color-space presets.
    pub open spec fn preset_spec(color: ColorSpaces) -> ColorSpace {
        match color {
            ColorSpaces::Unknown => ColorSpace {
                primaries: ColorPrimaries::COLOR_PRIM_UNKNOWN,
                transfer: ColorTransfer::COLOR_TRC_UNKNOWN,
                light: ColorLight::COLOR_LIGHT_UNKNOWN,
                sig_peak: 0,
                sig_avg: 0,
                sig_scale: 0,
            },
            ColorSpaces::Srgb => ColorSpace {
                primaries: ColorPrimaries::COLOR_PRIM_BT_709,
                transfer: ColorTransfer::COLOR_TRC_SRGB,
                light: ColorLight::COLOR_LIGHT_DISPLAY,
                sig_peak: 0,
                sig_avg: 0,
                sig_scale: 0,
            },
            ColorSpaces::Bt709 => ColorSpace {
                primaries: ColorPrimaries::COLOR_PRIM_BT_709,
                transfer: ColorTransfer::COLOR_TRC_BT_1886,
                light: ColorLight::COLOR_LIGHT_DISPLAY,
                sig_peak: 0,
                sig_avg: 0,
                sig_scale: 0,
            },
            ColorSpaces::Hdr10 => ColorSpace {
                primaries: ColorPrimaries::COLOR_PRIM_BT_2020,
                transfer: ColorTransfer::COLOR_TRC_PQ,
                light: ColorLight::COLOR_LIGHT_DISPLAY,
                sig_peak: 0,
                sig_avg: 0,
                sig_scale: 0,
            },
            ColorSpaces::Bt2020Hlg => ColorSpace {
                primaries: ColorPrimaries::COLOR_PRIM_BT_2020,
                transfer: ColorTransfer::COLOR_TRC_HLG,
                light: ColorLight::COLOR_LIGHT_SCENE_HLG,
                sig_peak: 0,
                sig_avg: 0,
                sig_scale: 0,
            },
            ColorSpaces::Monitor => ColorSpace {
                primaries: ColorPrimaries::COLOR_PRIM_BT_709,
                transfer: ColorTransfer::COLOR_TRC_UNKNOWN,
                light: ColorLight::COLOR_LIGHT_DISPLAY,
                sig_peak: 0,
                sig_avg: 0,
                sig_scale: 0,
            },
        }
    }

    /// Looks a named preset up in the catalog.
    pub fn color_space(color: &ColorSpaces) -> (r: ColorSpace)
        ensures
            r == Self::preset_spec(*color),
    {
        match color {
            ColorSpaces::Unknown => ColorSpace {
                primaries: ColorPrimaries::COLOR_PRIM_UNKNOWN,
                transfer: ColorTransfer::COLOR_TRC_UNKNOWN,
                light: ColorLight::COLOR_LIGHT_UNKNOWN,
                sig_peak: 0,
                sig_avg: 0,
                sig_scale: 0,
            },
            ColorSpaces::Srgb => ColorSpace {
                primaries: ColorPrimaries::COLOR_PRIM_BT_709,
                transfer: ColorTransfer::COLOR_TRC_SRGB,
                light: ColorLight::COLOR_LIGHT_DISPLAY,
                sig_peak: 0,
                sig_avg: 0,
                sig_scale: 0,
            },
            ColorSpaces::Bt709 => ColorSpace {
                primaries: ColorPrimaries::COLOR_PRIM_BT_709,
                transfer: ColorTransfer::COLOR_TRC_BT_1886,
                light: ColorLight::COLOR_LIGHT_DISPLAY,
                sig_peak: 0,
                sig_avg: 0,
                sig_scale: 0,
            },
            ColorSpaces::Hdr10 => ColorSpace {
                primaries: ColorPrimaries::COLOR_PRIM_BT_2020,
                transfer: ColorTransfer::COLOR_TRC_PQ,
                light: ColorLight::COLOR_LIGHT_DISPLAY,
                sig_peak: 0,
                sig_avg: 0,
                sig_scale: 0,
            },
            ColorSpaces::Bt2020Hlg => ColorSpace {
                primaries: ColorPrimaries::COLOR_PRIM_BT_2020,
                transfer: ColorTransfer::COLOR_TRC_HLG,
                light: ColorLight::COLOR_LIGHT_SCENE_HLG,
                sig_peak: 0,
                sig_avg: 0,
                sig_scale: 0,
            },
            ColorSpaces::Monitor => ColorSpace {
                primaries: ColorPrimaries::COLOR_PRIM_BT_709,
                transfer: ColorTransfer::COLOR_TRC_UNKNOWN,
                light: ColorLight::COLOR_LIGHT_DISPLAY,
                sig_peak: 0,
                sig_avg: 0,
                sig_scale: 0,
            },
        }
    }
}

impl Default for ColorSpace {
    /// The default color space leaves every field unknown.
    fn default() -> (r: ColorSpace)
        ensures
            r == Self::preset_spec(ColorSpaces::Unknown),
    {
        ColorSpace {
            primaries: ColorPrimaries::COLOR_PRIM_UNKNOWN,
            transfer: ColorTransfer::COLOR_TRC_UNKNOWN,
            light: ColorLight::COLOR_LIGHT_UNKNOWN,
            sig_peak: 0,
            sig_avg: 0,
            sig_scale: 0,
        }
    }
}

/// A color-vision deficiency to simulate.
#[derive(Clone, Copy, Debug, PartialEq, Eq, Structural)]
pub enum Vision {
    Normal,
    Protanomaly,
    Protanopia,
    Deuteranomaly,
    Deuteranopia,
    Tritanomaly,
    Tritanopia,
    Monochromacy,
    Achromatopsia,
}

/// Which cone types are affected and by how much.  The strength is
/// stored in thousandths: 1000 leaves the cone untouched, 0 removes
/// its contribution entirely.
#[derive(Clone, Copy, Debug, PartialEq, Eq, Structural)]
pub struct ConeParams {
    pub cone_l: bool,
    pub cone_m: bool,
    pub cone_s: bool,
    pub strength: i64,
}

impl Vision {
    /// The catalog of cone parameters for each simulated deficiency.
    pub open spec fn cone_params_spec(&self) -> ConeParams {
        match self {
            Vision::Normal => ConeParams { cone_l: false, cone_m: false, cone_s: false, strength: 1000 },
            Vision::Protanomaly => ConeParams { cone_l: true, cone_m: false, cone_s: false, strength: 500 },
            Vision::Protanopia => ConeParams { cone_l: true, cone_m: false, cone_s: false, strength: 0 },
            Vision::Deuteranomaly => ConeParams { cone_l: false, cone_m: true, cone_s: false, strength: 500 },
            Vision::Deuteranopia => ConeParams { cone_l: false, cone_m: true, cone_s: false, strength: 0 },
            Vision::Tritanomaly => ConeParams { cone_l: false, cone_m: false, cone_s: true, strength: 500 },
            Vision::Tritanopia => ConeParams { cone_l: false, cone_m: false, cone_s: true, strength: 0 },
            Vision::Monochromacy => ConeParams { cone_l: true, cone_m: true, cone_s: false, strength: 0 },
            Vision::Achromatopsia => ConeParams { cone_l: true, cone_m: true, cone_s: true, strength: 0 },
        }
    }

    pub fn to_cone_params(&self) -> (r: ConeParams)
        ensures
            r == self.cone_params_spec(),
    {
        match self {
            Vision::Normal => ConeParams { cone_l: false, cone_m: false, cone_s: false, strength: 1000 },
            Vision::Protanomaly => ConeParams { cone_l: true, cone_m: false, cone_s: false, strength: 500 },
            Vision::Protanopia => ConeParams { cone_l: true, cone_m: false, cone_s: false, strength: 0 },
            Vision::Deuteranomaly => ConeParams { cone_l: false, cone_m: true, cone_s: false, strength: 500 },
            Vision::Deuteranopia => ConeParams { cone_l: false, cone_m: true, cone_s: false, strength: 0 },
            Vision::Tritanomaly => ConeParams { cone_l: false, cone_m: false, cone_s: true, strength: 500 },
            Vision::Tritanopia => ConeParams { cone_l: false, cone_m: false, cone_s: true, strength: 0 },
            Vision::Monochromacy => ConeParams { cone_l: true, cone_m: true, cone_s: false, strength: 0 },
            Vision::Achromatopsia => ConeParams { cone_l: true, cone_m: true, cone_s: true, strength: 0 },
        }
    }
}

/// A color adjustment applied during rendering, in thousandths:
/// the neutral adjustment is brightness 0, contrast 1000,
/// saturation 1000, hue 0, gamma 1000.
#[derive(Clone, Copy, Debug, PartialEq, Eq, Structural)]
pub struct ColorAdjustment {
    pub brightness: i64,
    pub contrast: i64,
    pub saturation: i64,
    pub hue: i64,
    pub gamma: i64,
}

impl ColorAdjustment {
    pub fn new(brightness: i64, contrast: i64, saturation: i64, hue: i64, gamma: i64) -> (r:
        ColorAdjustment)
        ensures
            r == (ColorAdjustment { brightness, contrast, saturation, hue, gamma }),
    {
        ColorAdjustment { brightness, contrast, saturation, hue, gamma }
    }
}

impl Default for ColorAdjustment {
    /// The neutral adjustment: it leaves every pixel unchanged.
    fn default() -> (r: ColorAdjustment)
        ensures
            r == (ColorAdjustment {
                brightness: 0,
                contrast: 1000,
                saturation: 1000,
                hue: 0,
                gamma: 1000,
            }),
    {
        ColorAdjustment { brightness: 0, contrast: 1000, saturation: 1000, hue: 0, gamma: 1000 }
    }
}

/// An ICC profile: an opaque byte blob plus a 64-bit signature.
/// A signature of 0 means unset; profiles are distinguished by
/// signature and byte equality.
#[derive(Debug)]
pub struct IccProfile {
    pub signature: u64,
    pub data: Vec<u8>,
}

impl Clone for IccProfile {
    /// A clone carries the same signature and the same bytes.
    fn clone(&self) -> (r: IccProfile)
        ensures
            r.signature == self.signature,
            r.data@ == self.data@,
    {
        let mut owned: Vec<u8> = Vec::new();
        let mut i: usize = 0;
        while i < self.data.len()
            invariant
                i <= self.data.len(),
                owned@ == self.data@.subrange(0, i as int),
            decreases self.data.len() - i,
        {
            owned.push(self.data[i]);
            i = i + 1;
        }
        proof {
            assert(owned@ =~= self.data@);
        }
        IccProfile { signature: self.signature, data: owned }
    }
}

impl IccProfile {
    pub fn new(signature: usize, data: &[u8]) -> (r: IccProfile)
        ensures
            r.signature == signature as u64,
            r.data@ == data@,
    {
        let mut owned: Vec<u8> = Vec::new();
        let mut i: usize = 0;
        while i < data.len()
            invariant
                i <= data.len(),
                owned@ == data@.subrange(0, i as int),
            decreases data.len() - i,
        {
            owned.push(data[i]);
            i = i + 1;
        }
        proof {
            assert(owned@ =~= data@);
        }
        IccProfile { signature: signature as u64, data: owned }
    }

    pub fn set_data(&mut self, data: &[u8])
        ensures
            final(self).signature == old(self).signature,
            final(self).data@ == data@,
    {
        let mut owned: Vec<u8> = Vec::new();
        let mut i: usize = 0;
        while i < data.len()
            invariant
                i <= data.len(),
                owned@ == data@.subrange(0, i as int),
            decreases data.len() - i,
        {
            owned.push(data[i]);
            i = i + 1;
        }
        proof {
            assert(owned@ =~= data@);
        }
        self.data = owned;
    }

    pub fn set_signature(&mut self, signature: usize)
        ensures
            final(self).signature == signature as u64,
            final(self).data@ == old(self).data@,
    {
        self.signature = signature as u64;
    }

    /// Two profiles are equal exactly when both the signature and
    /// every byte of the blob match.
    pub fn is_equal(&self, icc_profile: &IccProfile) -> (r: bool)
        ensures
            r == (self.signature == icc_profile.signature && self.data@ == icc_profile.data@),
    {
        if self.signature != icc_profile.signature {
            return false;
        }
        if self.data.len() != icc_profile.data.len() {
            return false;
        }
        let mut i: usize = 0;
        while i < self.data.len()
            invariant
                i <= self.data.len(),
                self.data.len() == icc_profile.data.len(),
                forall|k: int| 0 <= k < i ==> self.data@[k] == icc_profile.data@[k],
            decreases self.data.len() - i,
        {
            if self.data[i] != icc_profile.data[i] {
                return false;
            }
            i = i + 1;
        }
        proof {
            assert(self.data@ =~= icc_profile.data@);
        }
        true
    }
}

impl Default for IccProfile {
    /// The unset profile: signature 0 and no bytes.
    fn default() -> (r: IccProfile)
        ensures
            r.signature == 0,
            r.data@ == Seq::<u8>::empty(),
    {
        IccProfile { signature: 0, data: Vec::new() }
    }
}

} // verus!
