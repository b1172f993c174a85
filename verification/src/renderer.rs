//! The frame-composition layer: planes, overlays, images, render
//! targets, render parameters and the renderer itself.
//!
//! `render_image` validates a frame of work exactly: it succeeds if
//! and only if the renderer is alive, the image references at most
//! four sampleable planes, every overlay plane is sampleable, and the
//! target references a renderable destination.  Overlay blending is
//! specified per pixel: `OVERLAY_NORMAL` alpha-blends the overlay's
//! own color, `OVERLAY_MONOCHROME` treats the overlay's single
//! channel as a mask tinting the base color.

use vstd::prelude::*;

verus! {

use crate::colorspace::ColorRepr;
use crate::colorspace::ColorReprs;
use crate::colorspace::ColorSpace;
use crate::colorspace::ColorSpaces;
use crate::colorspace::ColorAdjustment;
use crate::colorspace::ConeParams;
use crate::colorspace::IccProfile;
use crate::colorspace::Vision;
use crate::common::Rect2D;
use crate::context::Context;
use crate::filter::FilterConfig;
use crate::filter::FilterConfigs;
use crate::gpu::Tex;
use crate::shaders::colorspace::ColorMapParams;
use crate::shaders::colorspace::DitherParams;
use crate::shaders::colorspace::Lut3DParams;
use crate::shaders::colorspace::PeakDetectParams;
use crate::shaders::colorspace::SigmoidParams;
use crate::shaders::sampling::DebandParams;
use crate::swapchain::SwapchainFrame;
use crate::vulkan::Vulkan;

/// How an overlay is blended onto the frame.
#[allow(non_camel_case_types)]
#[derive(Clone, Copy, Debug, PartialEq, Eq, Structural)]
pub enum OverlayMode {
    /// The overlay carries its own color and alpha-blends over the
    /// frame.
    OVERLAY_NORMAL,
    /// The overlay's single channel is a blend mask; the painted
    /// color is the overlay's base color.
    OVERLAY_MONOCHROME,
}

/// A sampling descriptor: a non-owning reference to a texture plus
/// the component count, a 4-element component-index mapping and
/// sub-pixel shift offsets (in thousandths of a pixel, for
/// chroma-subsampled formats).
#[derive(Clone, Copy, Debug)]
pub struct Plane {
    /// Handle of the referenced texture; 0 when unset.
    pub texture: u64,
    /// Extent of the referenced texture.
    pub tex_w: usize,
    pub tex_h: usize,
    /// Whether the referenced texture was created sampleable.
    pub tex_sampleable: bool,
    pub components: usize,
    pub component_mapping: [i32; 4],
    pub shift_x: i64,
    pub shift_y: i64,
}

impl Plane {
    /// True when the plane references a texture the renderer can
    /// sample from.
    pub open spec fn is_sampleable(&self) -> bool {
        self.texture != 0 && self.tex_sampleable
    }

    pub fn new(
        texture: &Tex,
        components: usize,
        component_mapping: &[i32; 4],
        shift_x: i64,
        shift_y: i64,
    ) -> (r: Plane)
        requires
            components <= 4,
        ensures
            r.texture == texture.tex,
            r.tex_w == texture.w,
            r.tex_h == texture.h,
            r.tex_sampleable == texture.sampleable,
            r.components == components,
            r.component_mapping@ == component_mapping@,
            r.shift_x == shift_x,
            r.shift_y == shift_y,
    {
        Plane {
            texture: texture.tex,
            tex_w: texture.w,
            tex_h: texture.h,
            tex_sampleable: texture.sampleable,
            components,
            component_mapping: *component_mapping,
            shift_x,
            shift_y,
        }
    }

    /// Width of the referenced texture.
    pub fn width(&self) -> (r: usize)
        ensures
            r == self.tex_w,
    {
        self.tex_w
    }

    /// Height of the referenced texture.
    pub fn height(&self) -> (r: usize)
        ensures
            r == self.tex_h,
    {
        self.tex_h
    }
}

impl Default for Plane {
    /// A plane referencing nothing.
    fn default() -> (r: Plane)
        ensures
            r.texture == 0,
            r.tex_w == 0 && r.tex_h == 0,
            !r.tex_sampleable,
            r.components == 0,
            r.component_mapping@ == seq![0i32, 0i32, 0i32, 0i32],
            r.shift_x == 0 && r.shift_y == 0,
    {
        let r = Plane {
            texture: 0,
            tex_w: 0,
            tex_h: 0,
            tex_sampleable: false,
            components: 0,
            component_mapping: [0, 0, 0, 0],
            shift_x: 0,
            shift_y: 0,
        };
        proof {
            assert(r.component_mapping@ =~= seq![0i32, 0i32, 0i32, 0i32]);
        }
        r
    }
}

/// A plane composited at a fixed rectangle with a blend mode, a base
/// color (8-bit channels) and its own color metadata.
#[derive(Clone, Copy, Debug)]
pub struct Overlay {
    pub plane: Plane,
    pub rect: Rect2D,
    pub mode: OverlayMode,
    pub base_color: [u8; 3],
    pub repr: ColorRepr,
    pub color: ColorSpace,
}

impl Overlay {
    pub fn new(
        plane: &Plane,
        rect: &Rect2D,
        mode: &OverlayMode,
        base_color: &[u8; 3],
        repr: &ColorRepr,
        color: &ColorSpace,
    ) -> (r: Overlay)
        ensures
            r.plane == *plane,
            r.rect == *rect,
            r.mode == *mode,
            r.base_color@ == base_color@,
            r.repr == *repr,
            r.color == *color,
    {
        Overlay {
            plane: *plane,
            rect: *rect,
            mode: *mode,
            base_color: *base_color,
            repr: *repr,
            color: *color,
        }
    }
}

/// A render-pipeline input: up to four planes, color metadata, an
/// optional ICC profile, a source rectangle and overlays composited
/// in source space before scaling.
pub struct Image {
    pub signature: u64,
    pub num_planes: usize,
    pub planes: [Plane; 4],
    pub repr: ColorRepr,
    pub color: ColorSpace,
    pub profile: IccProfile,
    pub width: usize,
    pub height: usize,
    pub src_rect: Rect2D,
    pub overlays: Vec<Overlay>,
}

impl Image {
    pub fn repr(&self) -> (r: ColorRepr)
        ensures
            r == self.repr,
    {
        self.repr
    }

    pub fn color(&self) -> (r: ColorSpace)
        ensures
            r == self.color,
    {
        self.color
    }

    pub fn set_signature(&mut self, signature: usize)
        ensures
            final(self).signature == signature as u64,
            final(self).num_planes == old(self).num_planes,
            final(self).planes@ == old(self).planes@,
            final(self).repr == old(self).repr,
            final(self).color == old(self).color,
            final(self).profile == old(self).profile,
            final(self).width == old(self).width,
            final(self).height == old(self).height,
            final(self).src_rect == old(self).src_rect,
            final(self).overlays@ == old(self).overlays@,
    {
        self.signature = signature as u64;
    }

    /// Sets how many of the four plane slots are in use.
    pub fn set_num_planes(&mut self, num_planes: usize)
        requires
            num_planes <= 4,
        ensures
            final(self).num_planes == num_planes,
            final(self).signature == old(self).signature,
            final(self).planes@ == old(self).planes@,
            final(self).repr == old(self).repr,
            final(self).color == old(self).color,
            final(self).profile == old(self).profile,
            final(self).width == old(self).width,
            final(self).height == old(self).height,
            final(self).src_rect == old(self).src_rect,
            final(self).overlays@ == old(self).overlays@,
    {
        self.num_planes = num_planes;
    }

    /// Copies all four plane slots from the caller's descriptors.
    pub fn set_planes(&mut self, planes: &[Plane; 4])
        ensures
            final(self).planes@ == planes@,
            final(self).signature == old(self).signature,
            final(self).num_planes == old(self).num_planes,
            final(self).repr == old(self).repr,
            final(self).color == old(self).color,
            final(self).profile == old(self).profile,
            final(self).width == old(self).width,
            final(self).height == old(self).height,
            final(self).src_rect == old(self).src_rect,
            final(self).overlays@ == old(self).overlays@,
    {
        self.planes = *planes;
    }

    pub fn set_repr(&mut self, repr: &ColorRepr)
        ensures
            final(self).repr == *repr,
            final(self).signature == old(self).signature,
            final(self).num_planes == old(self).num_planes,
            final(self).planes@ == old(self).planes@,
            final(self).color == old(self).color,
            final(self).profile == old(self).profile,
            final(self).width == old(self).width,
            final(self).height == old(self).height,
            final(self).src_rect == old(self).src_rect,
            final(self).overlays@ == old(self).overlays@,
    {
        self.repr = *repr;
    }

    pub fn set_color(&mut self, color: &ColorSpace)
        ensures
            final(self).color == *color,
            final(self).signature == old(self).signature,
            final(self).num_planes == old(self).num_planes,
            final(self).planes@ == old(self).planes@,
            final(self).repr == old(self).repr,
            final(self).profile == old(self).profile,
            final(self).width == old(self).width,
            final(self).height == old(self).height,
            final(self).src_rect == old(self).src_rect,
            final(self).overlays@ == old(self).overlays@,
    {
        self.color = *color;
    }

    pub fn set_profile(&mut self, profile: &IccProfile)
        ensures
            final(self).profile.signature == profile.signature,
            final(self).profile.data@ == profile.data@,
            final(self).signature == old(self).signature,
            final(self).num_planes == old(self).num_planes,
            final(self).planes@ == old(self).planes@,
            final(self).repr == old(self).repr,
            final(self).color == old(self).color,
            final(self).width == old(self).width,
            final(self).height == old(self).height,
            final(self).src_rect == old(self).src_rect,
            final(self).overlays@ == old(self).overlays@,
    {
        self.profile = profile.clone();
        proof {
            assert(self.profile.data@ =~= profile.data@);
        }
    }

    pub fn set_width(&mut self, width: usize)
        ensures
            final(self).width == width,
            final(self).signature == old(self).signature,
            final(self).num_planes == old(self).num_planes,
            final(self).planes@ == old(self).planes@,
            final(self).repr == old(self).repr,
            final(self).color == old(self).color,
            final(self).profile == old(self).profile,
            final(self).height == old(self).height,
            final(self).src_rect == old(self).src_rect,
            final(self).overlays@ == old(self).overlays@,
    {
        self.width = width;
    }

    pub fn set_height(&mut self, height: usize)
        ensures
            final(self).height == height,
            final(self).signature == old(self).signature,
            final(self).num_planes == old(self).num_planes,
            final(self).planes@ == old(self).planes@,
            final(self).repr == old(self).repr,
            final(self).color == old(self).color,
            final(self).profile == old(self).profile,
            final(self).width == old(self).width,
            final(self).src_rect == old(self).src_rect,
            final(self).overlays@ == old(self).overlays@,
    {
        self.height = height;
    }

    pub fn set_src_rect(&mut self, src_rect: &Rect2D)
        ensures
            final(self).src_rect == *src_rect,
            final(self).signature == old(self).signature,
            final(self).num_planes == old(self).num_planes,
            final(self).planes@ == old(self).planes@,
            final(self).repr == old(self).repr,
            final(self).color == old(self).color,
            final(self).profile == old(self).profile,
            final(self).width == old(self).width,
            final(self).height == old(self).height,
            final(self).overlays@ == old(self).overlays@,
    {
        self.src_rect = *src_rect;
    }

    /// Takes ownership of the overlay list, so the image stays valid
    /// independent of the caller's storage.  Order matters: earlier
    /// overlays are drawn first.
    pub fn set_overlays(&mut self, overlays: Vec<Overlay>)
        ensures
            final(self).overlays@ == overlays@,
            final(self).signature == old(self).signature,
            final(self).num_planes == old(self).num_planes,
            final(self).planes@ == old(self).planes@,
            final(self).repr == old(self).repr,
            final(self).color == old(self).color,
            final(self).profile == old(self).profile,
            final(self).width == old(self).width,
            final(self).height == old(self).height,
            final(self).src_rect == old(self).src_rect,
    {
        self.overlays = overlays;
    }
}

impl Default for Image {
    /// An empty frame input: no planes, unknown color metadata, no
    /// overlays.
    fn default() -> (r: Image)
        ensures
            r.signature == 0,
            r.num_planes == 0,
            r.planes@.len() == 4,
            forall|i: int|
                0 <= i < 4 ==> (#[trigger] r.planes@[i]).texture == 0 && r.planes@[i].tex_w == 0
                    && r.planes@[i].tex_h == 0 && !r.planes@[i].tex_sampleable
                    && r.planes@[i].components == 0 && r.planes@[i].component_mapping@ == seq![
                0i32,
                0i32,
                0i32,
                0i32,
            ] && r.planes@[i].shift_x == 0 && r.planes@[i].shift_y == 0,
            r.repr == ColorRepr::preset_spec(ColorReprs::Unknown),
            r.color == ColorSpace::preset_spec(ColorSpaces::Unknown),
            r.profile.signature == 0,
            r.profile.data@ == Seq::<u8>::empty(),
            r.width == 0 && r.height == 0,
            r.src_rect == (Rect2D { x0: 0, y0: 0, x1: 0, y1: 0 }),
            r.overlays@ == Seq::<Overlay>::empty(),
    {
        let plane = Plane::default();
        Image {
            signature: 0,
            num_planes: 0,
            planes: [plane, plane, plane, plane],
            repr: ColorRepr::color_repr(&ColorReprs::Unknown),
            color: ColorSpace::color_space(&ColorSpaces::Unknown),
            profile: IccProfile::default(),
            width: 0,
            height: 0,
            src_rect: Rect2D::default(),
            overlays: Vec::new(),
        }
    }
}

/// A render-pipeline output: a renderable destination, a destination
/// rectangle, color metadata, an optional ICC profile and overlays
/// composited in destination space after scaling.
pub struct RenderTarget {
    /// Handle of the destination framebuffer; 0 when unset.
    pub fbo: u64,
    /// Whether the destination was created renderable.
    pub fbo_renderable: bool,
    pub dst_rect: Rect2D,
    pub repr: ColorRepr,
    pub color: ColorSpace,
    pub profile: IccProfile,
    pub overlays: Vec<Overlay>,
}

impl RenderTarget {
    /// Sets the destination texture.
    pub fn set_fbo(&mut self, fbo: &Tex)
        ensures
            final(self).fbo == fbo.tex,
            final(self).fbo_renderable == fbo.renderable,
            final(self).dst_rect == old(self).dst_rect,
            final(self).repr == old(self).repr,
            final(self).color == old(self).color,
            final(self).profile == old(self).profile,
            final(self).overlays@ == old(self).overlays@,
    {
        self.fbo = fbo.tex;
        self.fbo_renderable = fbo.renderable;
    }

    pub fn set_dst_rect(&mut self, dst_rect: &Rect2D)
        ensures
            final(self).dst_rect == *dst_rect,
            final(self).fbo == old(self).fbo,
            final(self).fbo_renderable == old(self).fbo_renderable,
            final(self).repr == old(self).repr,
            final(self).color == old(self).color,
            final(self).profile == old(self).profile,
            final(self).overlays@ == old(self).overlays@,
    {
        self.dst_rect = *dst_rect;
    }

    pub fn set_repr(&mut self, repr: &ColorRepr)
        ensures
            final(self).repr == *repr,
            final(self).fbo == old(self).fbo,
            final(self).fbo_renderable == old(self).fbo_renderable,
            final(self).dst_rect == old(self).dst_rect,
            final(self).color == old(self).color,
            final(self).profile == old(self).profile,
            final(self).overlays@ == old(self).overlays@,
    {
        self.repr = *repr;
    }

    pub fn set_color(&mut self, color: &ColorSpace)
        ensures
            final(self).color == *color,
            final(self).fbo == old(self).fbo,
            final(self).fbo_renderable == old(self).fbo_renderable,
            final(self).dst_rect == old(self).dst_rect,
            final(self).repr == old(self).repr,
            final(self).profile == old(self).profile,
            final(self).overlays@ == old(self).overlays@,
    {
        self.color = *color;
    }

    pub fn set_profile(&mut self, profile: &IccProfile)
        ensures
            final(self).profile.signature == profile.signature,
            final(self).profile.data@ == profile.data@,
            final(self).fbo == old(self).fbo,
            final(self).fbo_renderable == old(self).fbo_renderable,
            final(self).dst_rect == old(self).dst_rect,
            final(self).repr == old(self).repr,
            final(self).color == old(self).color,
            final(self).overlays@ == old(self).overlays@,
    {
        self.profile = profile.clone();
        proof {
            assert(self.profile.data@ =~= profile.data@);
        }
    }

    /// Takes ownership of the overlay list; earlier overlays are
    /// drawn first, in destination space after scaling.
    pub fn set_overlays(&mut self, overlays: Vec<Overlay>)
        ensures
            final(self).overlays@ == overlays@,
            final(self).fbo == old(self).fbo,
            final(self).fbo_renderable == old(self).fbo_renderable,
            final(self).dst_rect == old(self).dst_rect,
            final(self).repr == old(self).repr,
            final(self).color == old(self).color,
            final(self).profile == old(self).profile,
    {
        self.overlays = overlays;
    }

    /// Derives the target from a frame the swapchain handed out: the
    /// frame's framebuffer (renderable by construction), its
    /// negotiated color metadata, and a destination rectangle
    /// covering the frame, vertically swapped when the frame is
    /// flipped.
    pub fn render_target_from_swapchain(&mut self, frame: &SwapchainFrame)
        ensures
            final(self).fbo == frame.fbo,
            final(self).fbo_renderable,
            final(self).repr == frame.color_repr,
            final(self).color == frame.color_space,
            final(self).dst_rect == if frame.flipped {
                Rect2D { x0: 0, y0: frame.height, x1: frame.width, y1: 0 }
            } else {
                Rect2D { x0: 0, y0: 0, x1: frame.width, y1: frame.height }
            },
            final(self).profile == old(self).profile,
            final(self).overlays@ == old(self).overlays@,
    {
        self.fbo = frame.fbo;
        self.fbo_renderable = true;
        self.repr = frame.color_repr;
        self.color = frame.color_space;
        self.dst_rect = if frame.flipped {
            Rect2D { x0: 0, y0: frame.height, x1: frame.width, y1: 0 }
        } else {
            Rect2D { x0: 0, y0: 0, x1: frame.width, y1: frame.height }
        };
    }
}

impl Default for RenderTarget {
    /// An empty frame output: no destination, unknown color
    /// metadata, no overlays.
    fn default() -> (r: RenderTarget)
        ensures
            r.fbo == 0,
            !r.fbo_renderable,
            r.dst_rect == (Rect2D { x0: 0, y0: 0, x1: 0, y1: 0 }),
            r.repr == ColorRepr::preset_spec(ColorReprs::Unknown),
            r.color == ColorSpace::preset_spec(ColorSpaces::Unknown),
            r.profile.signature == 0,
            r.profile.data@ == Seq::<u8>::empty(),
            r.overlays@ == Seq::<Overlay>::empty(),
    {
        RenderTarget {
            fbo: 0,
            fbo_renderable: false,
            dst_rect: Rect2D::default(),
            repr: ColorRepr::color_repr(&ColorReprs::Unknown),
            color: ColorSpace::color_space(&ColorSpaces::Unknown),
            profile: IccProfile::default(),
            overlays: Vec::new(),
        }
    }
}

/// An immutable configuration snapshot for a render call: filter
/// selections, numeric tuning knobs (in thousandths where
/// fractional), the independent configuration value objects, and
/// feature toggles.  A `None` filter or configuration disables the
/// corresponding stage.
#[derive(Clone, Copy, Debug)]
pub struct RenderParams {
    pub upscaler: Option<FilterConfig>,
    pub downscaler: Option<FilterConfig>,
    pub frame_mixer: Option<FilterConfig>,
    pub lut_entries: usize,
    pub antiringing_strength: i64,
    pub polar_cutoff: i64,
    pub deband_params: Option<DebandParams>,
    pub sigmoid_params: Option<SigmoidParams>,
    pub color_adjustment: Option<ColorAdjustment>,
    pub peak_detect_params: Option<PeakDetectParams>,
    pub color_map_params: Option<ColorMapParams>,
    pub dither_params: Option<DitherParams>,
    pub lut3d_params: Option<Lut3DParams>,
    pub cone_params: ConeParams,
    pub skip_anti_aliasing: bool,
    pub disable_overlay_sampling: bool,
    pub allow_delayed_peak_detect: bool,
    pub skip_redraw_caching: bool,
    pub disable_linear_scaling: bool,
    pub disable_builtin_scalers: bool,
    pub force_3dlut: bool,
}

impl RenderParams {
    pub fn set_upscaler(&mut self, upscaler: &FilterConfig)
        ensures
            *final(self) == (RenderParams { upscaler: Some(*upscaler), ..*old(self) }),
    {
        self.upscaler = Some(*upscaler);
    }

    pub fn set_downscaler(&mut self, downscaler: &FilterConfig)
        ensures
            *final(self) == (RenderParams { downscaler: Some(*downscaler), ..*old(self) }),
    {
        self.downscaler = Some(*downscaler);
    }

    pub fn set_frame_mixer(&mut self, frame_mixer: &FilterConfig)
        ensures
            *final(self) == (RenderParams { frame_mixer: Some(*frame_mixer), ..*old(self) }),
    {
        self.frame_mixer = Some(*frame_mixer);
    }

    pub fn set_lut_entries(&mut self, lut_entries: usize)
        ensures
            *final(self) == (RenderParams { lut_entries, ..*old(self) }),
    {
        self.lut_entries = lut_entries;
    }

    pub fn set_antiringing_strength(&mut self, antiringing_strength: i64)
        ensures
            *final(self) == (RenderParams { antiringing_strength, ..*old(self) }),
    {
        self.antiringing_strength = antiringing_strength;
    }

    pub fn set_polar_cutoff(&mut self, polar_cutoff: i64)
        ensures
            *final(self) == (RenderParams { polar_cutoff, ..*old(self) }),
    {
        self.polar_cutoff = polar_cutoff;
    }

    pub fn set_deband_params(&mut self, deband_params: &DebandParams)
        ensures
            *final(self) == (RenderParams { deband_params: Some(*deband_params), ..*old(self) }),
    {
        self.deband_params = Some(*deband_params);
    }

    pub fn set_sigmoid_params(&mut self, sigmoid_params: &SigmoidParams)
        ensures
            *final(self) == (RenderParams { sigmoid_params: Some(*sigmoid_params), ..*old(self) }),
    {
        self.sigmoid_params = Some(*sigmoid_params);
    }

    pub fn set_color_adjustment(&mut self, color_adjustment: &ColorAdjustment)
        ensures
            *final(self) == (RenderParams {
                color_adjustment: Some(*color_adjustment),
                ..*old(self)
            }),
    {
        self.color_adjustment = Some(*color_adjustment);
    }

    pub fn set_peak_detect_params(&mut self, peak_detect_params: &PeakDetectParams)
        ensures
            *final(self) == (RenderParams {
                peak_detect_params: Some(*peak_detect_params),
                ..*old(self)
            }),
    {
        self.peak_detect_params = Some(*peak_detect_params);
    }

    pub fn set_color_map_params(&mut self, color_map_params: &ColorMapParams)
        ensures
            *final(self) == (RenderParams {
                color_map_params: Some(*color_map_params),
                ..*old(self)
            }),
    {
        self.color_map_params = Some(*color_map_params);
    }

    pub fn set_dither_params(&mut self, dither_params: &DitherParams)
        ensures
            *final(self) == (RenderParams { dither_params: Some(*dither_params), ..*old(self) }),
    {
        self.dither_params = Some(*dither_params);
    }

    pub fn set_lut3d_params(&mut self, lut3d_params: &Lut3DParams)
        ensures
            *final(self) == (RenderParams { lut3d_params: Some(*lut3d_params), ..*old(self) }),
    {
        self.lut3d_params = Some(*lut3d_params);
    }

    pub fn set_cone_params(&mut self, cone_params: &Vision)
        ensures
            *final(self) == (RenderParams {
                cone_params: cone_params.cone_params_spec(),
                ..*old(self)
            }),
    {
        self.cone_params = cone_params.to_cone_params();
    }

    pub fn set_skip_anti_aliasing(&mut self, skip_anti_aliasing: bool)
        ensures
            *final(self) == (RenderParams { skip_anti_aliasing, ..*old(self) }),
    {
        self.skip_anti_aliasing = skip_anti_aliasing;
    }

    pub fn set_disable_overlay_sampling(&mut self, disable_overlay_sampling: bool)
        ensures
            *final(self) == (RenderParams { disable_overlay_sampling, ..*old(self) }),
    {
        self.disable_overlay_sampling = disable_overlay_sampling;
    }

    pub fn set_allow_delayed_peak_detect(&mut self, allow_delayed_peak_detect: bool)
        ensures
            *final(self) == (RenderParams { allow_delayed_peak_detect, ..*old(self) }),
    {
        self.allow_delayed_peak_detect = allow_delayed_peak_detect;
    }

    pub fn set_skip_redraw_caching(&mut self, skip_redraw_caching: bool)
        ensures
            *final(self) == (RenderParams { skip_redraw_caching, ..*old(self) }),
    {
        self.skip_redraw_caching = skip_redraw_caching;
    }

    pub fn set_disable_linear_scaling(&mut self, disable_linear_scaling: bool)
        ensures
            *final(self) == (RenderParams { disable_linear_scaling, ..*old(self) }),
    {
        self.disable_linear_scaling = disable_linear_scaling;
    }

    pub fn set_disable_builtin_scalers(&mut self, disable_builtin_scalers: bool)
        ensures
            *final(self) == (RenderParams { disable_builtin_scalers, ..*old(self) }),
    {
        self.disable_builtin_scalers = disable_builtin_scalers;
    }

    pub fn set_force_3dlut(&mut self, force_3dlut: bool)
        ensures
            *final(self) == (RenderParams { force_3dlut, ..*old(self) }),
    {
        self.force_3dlut = force_3dlut;
    }

    /// The built-in default preset.
    pub open spec fn default_spec() -> RenderParams {
        RenderParams {
            upscaler: Some(FilterConfig::preset_spec(FilterConfigs::Spline36)),
            downscaler: Some(FilterConfig::preset_spec(FilterConfigs::Mitchell)),
            frame_mixer: None,
            lut_entries: 64,
            antiringing_strength: 0,
            polar_cutoff: 0,
            deband_params: Some(DebandParams { iterations: 1, threshold: 4000, radius: 16000, grain: 6000 }),
            sigmoid_params: Some(SigmoidParams { center: 750, slope: 6500 }),
            color_adjustment: Some(ColorAdjustment { brightness: 0, contrast: 1000, saturation: 1000, hue: 0, gamma: 1000 }),
            peak_detect_params: Some(PeakDetectParams { smoothing_period: 100000, scene_threshold_low: 5500, scene_threshold_high: 10000 }),
            color_map_params: Some(
                ColorMapParams {
                    intent: crate::colorspace::RenderingIntent::INTENT_RELATIVE_COLORIMETRIC,
                    tone_mapping_algo: crate::shaders::colorspace::ToneMappingAlgorithm::TONE_MAPPING_HABLE,
                    tone_mapping_param: 0,
                    desaturation_strength: 750,
                    desaturation_exponent: 1500,
                    desaturation_base: 180,
                    max_boost: 1000,
                    gamut_warning: false,
                },
            ),
            dither_params: Some(DitherParams { method: crate::shaders::colorspace::DitherMethod::DITHER_BLUE_NOISE, lut_size: 6, temporal: false }),
            lut3d_params: None,
            cone_params: ConeParams { cone_l: false, cone_m: false, cone_s: false, strength: 1000 },
            skip_anti_aliasing: false,
            disable_overlay_sampling: false,
            allow_delayed_peak_detect: false,
            skip_redraw_caching: false,
            disable_linear_scaling: false,
            disable_builtin_scalers: false,
            force_3dlut: false,
        }
    }
}

impl Default for RenderParams {
    /// The built-in default preset: spline36 upscaling, Mitchell
    /// downscaling, no frame mixing, 64 LUT entries, debanding,
    /// sigmoidization, neutral color adjustment, peak detection,
    /// Hable tone mapping and blue-noise dithering enabled; every
    /// feature toggle off.
    fn default() -> (r: RenderParams)
        ensures
            r == RenderParams::default_spec(),
    {
        RenderParams {
            upscaler: Some(FilterConfig::get_filter_config(&FilterConfigs::Spline36)),
            downscaler: Some(FilterConfig::get_filter_config(&FilterConfigs::Mitchell)),
            frame_mixer: None,
            lut_entries: 64,
            antiringing_strength: 0,
            polar_cutoff: 0,
            deband_params: Some(DebandParams::default()),
            sigmoid_params: Some(SigmoidParams::default()),
            color_adjustment: Some(ColorAdjustment::default()),
            peak_detect_params: Some(PeakDetectParams::default()),
            color_map_params: Some(ColorMapParams::default()),
            dither_params: Some(DitherParams::default()),
            lut3d_params: None,
            cone_params: Vision::Normal.to_cone_params(),
            skip_anti_aliasing: false,
            disable_overlay_sampling: false,
            allow_delayed_peak_detect: false,
            skip_redraw_caching: false,
            disable_linear_scaling: false,
            disable_builtin_scalers: false,
            force_3dlut: false,
        }
    }
}

/// Blends one 8-bit channel: the source weighted by `alpha` against
/// the destination weighted by the remainder, in 1/255 steps.
pub open spec fn blend_channel_spec(src: u8, dst: u8, alpha: u8) -> int {
    (src * alpha + dst * (255 - alpha)) / 255
}

/// One composited pixel channel by overlay mode: `OVERLAY_NORMAL`
/// blends the overlay's own color by the overlay's alpha;
/// `OVERLAY_MONOCHROME` blends the base color by the overlay's
/// single (first) channel.
pub open spec fn composite_channel_spec(
    mode: OverlayMode,
    base_color: Seq<u8>,
    overlay_px: Seq<u8>,
    dst: Seq<u8>,
    c: int,
) -> int {
    match mode {
        OverlayMode::OVERLAY_NORMAL => blend_channel_spec(
            overlay_px[c] as u8,
            dst[c] as u8,
            overlay_px[3] as u8,
        ),
        OverlayMode::OVERLAY_MONOCHROME => blend_channel_spec(
            base_color[c] as u8,
            dst[c] as u8,
            overlay_px[0] as u8,
        ),
    }
}

/// Blends one 8-bit channel (see [`blend_channel_spec`]).
pub fn blend_channel(src: u8, dst: u8, alpha: u8) -> (r: u8)
    ensures
        r == blend_channel_spec(src, dst, alpha),
{
    proof {
        assert(src * alpha <= 255 * alpha) by {
            vstd::arithmetic::mul::lemma_mul_inequality(src as int, 255, alpha as int);
        }
        assert(dst * (255 - alpha) <= 255 * (255 - alpha)) by {
            vstd::arithmetic::mul::lemma_mul_inequality(dst as int, 255, 255 - alpha as int);
        }
    }
    let acc: u32 = src as u32 * alpha as u32 + dst as u32 * (255 - alpha as u32);
    (acc / 255) as u8
}

/// Composites one overlay pixel over a destination pixel.  In
/// `OVERLAY_NORMAL` mode the overlay pixel carries red, green, blue
/// and alpha; in `OVERLAY_MONOCHROME` mode only its first channel is
/// read, as the blend mask for the base color.
pub fn composite_overlay_pixel(
    mode: &OverlayMode,
    base_color: &[u8; 3],
    overlay_px: &[u8; 4],
    dst: &[u8; 3],
) -> (r: [u8; 3])
    ensures
        r@.len() == 3,
        forall|c: int| 0 <= c < 3 ==> #[trigger] r@[c] == composite_channel_spec(
            *mode,
            base_color@,
            overlay_px@,
            dst@,
            c,
        ),
{
    let r = match mode {
        OverlayMode::OVERLAY_NORMAL => [
            blend_channel(overlay_px[0], dst[0], overlay_px[3]),
            blend_channel(overlay_px[1], dst[1], overlay_px[3]),
            blend_channel(overlay_px[2], dst[2], overlay_px[3]),
        ],
        OverlayMode::OVERLAY_MONOCHROME => [
            blend_channel(base_color[0], dst[0], overlay_px[0]),
            blend_channel(base_color[1], dst[1], overlay_px[0]),
            blend_channel(base_color[2], dst[2], overlay_px[0]),
        ],
    };
    r
}

/// In `OVERLAY_MONOCHROME` mode the composited pixel depends only on
/// the overlay's base color and the overlay plane's single channel:
/// two overlay pixels that agree on their first channel composite
/// identically, whatever their other channels hold.
pub proof fn lemma_monochrome_composite_uses_only_mask(
    base_color: Seq<u8>,
    overlay_px1: Seq<u8>,
    overlay_px2: Seq<u8>,
    dst: Seq<u8>,
)
    requires
        overlay_px1.len() == 4,
        overlay_px2.len() == 4,
        overlay_px1[0] == overlay_px2[0],
    ensures
        forall|c: int| 0 <= c < 3 ==> composite_channel_spec(
            OverlayMode::OVERLAY_MONOCHROME,
            base_color,
            overlay_px1,
            dst,
            c,
        ) == composite_channel_spec(
            OverlayMode::OVERLAY_MONOCHROME,
            base_color,
            overlay_px2,
            dst,
            c,
        ),
{
}

/// The frame-composition engine bound to a context and a GPU.
/// `rr == 0` means destroyed.
pub struct Renderer {
    /// Model handle; 0 once destroyed.
    pub rr: u64,
    /// Handle of the owning context.
    pub ctx: u64,
    /// Handle of the owning device.
    pub gpu: u64,
    /// Bumped whenever the internal cache is invalidated.
    pub cache_epoch: u64,
}

impl Renderer {
    pub open spec fn is_alive(&self) -> bool {
        self.rr != 0
    }

    /// Everything `render_image` demands of a frame of work: a live
    /// renderer, at most four planes, every referenced plane (and
    /// every overlay plane on either side) sampleable, and a
    /// renderable destination.
    pub open spec fn render_ok(&self, image: &Image, target: &RenderTarget) -> bool {
        &&& self.is_alive()
        &&& image.num_planes <= 4
        &&& forall|i: int| 0 <= i < image.num_planes ==> (#[trigger] image.planes@[i]).is_sampleable()
        &&& forall|i: int| 0 <= i < image.overlays@.len() ==> (#[trigger] image.overlays@[i]).plane.is_sampleable()
        &&& forall|i: int| 0 <= i < target.overlays@.len() ==> (#[trigger] target.overlays@[i]).plane.is_sampleable()
        &&& target.fbo != 0
        &&& target.fbo_renderable
    }

    /// Creates a renderer against a live context and a live device,
    /// and registers it as a child of the device.
    pub fn new(ctx: &Context, vk: &mut Vulkan) -> (r: Renderer)
        requires
            ctx.is_alive(),
            old(vk).can_create(),
        ensures
            r.is_alive(),
            r.rr == old(vk).next_child + 1,
            r.ctx == ctx.ctx,
            r.gpu == old(vk).vk,
            r.cache_epoch == 0,
            final(vk).vk == old(vk).vk,
            final(vk).parent == old(vk).parent,
            final(vk).surface == old(vk).surface,
            final(vk).max_extent_w == old(vk).max_extent_w,
            final(vk).max_extent_h == old(vk).max_extent_h,
            final(vk).live_children == old(vk).live_children + 1,
            final(vk).next_child == old(vk).next_child + 1,
    {
        vk.next_child = vk.next_child + 1;
        vk.live_children = vk.live_children + 1;
        Renderer { rr: vk.next_child, ctx: ctx.ctx, gpu: vk.vk, cache_epoch: 0 }
    }

    /// Invalidates any cached shader or LUT state, for example after
    /// a configuration change.
    pub fn flush_cache(&mut self)
        requires
            old(self).is_alive(),
            old(self).cache_epoch < u64::MAX,
        ensures
            *final(self) == (Renderer {
                cache_epoch: (old(self).cache_epoch + 1) as u64,
                ..*old(self)
            }),
    {
        self.cache_epoch = self.cache_epoch + 1;
    }

    /// Renders an image onto a target.  Returns `true` exactly when
    /// the frame of work is valid (see [`Renderer::render_ok`]); a
    /// `false` result means the frame is dropped and reported, and
    /// the caller continues its loop.
    pub fn render_image(&self, image: &Image, target: &RenderTarget, params: &RenderParams) -> (ok:
        bool)
        ensures
            ok == self.render_ok(image, target),
    {
        if self.rr == 0 {
            return false;
        }
        if image.num_planes > 4 {
            return false;
        }
        if target.fbo == 0 || !target.fbo_renderable {
            return false;
        }
        let mut i: usize = 0;
        while i < image.num_planes
            invariant
                i <= image.num_planes,
                image.num_planes <= 4,
                forall|k: int| 0 <= k < i ==> (#[trigger] image.planes@[k]).is_sampleable(),
            decreases image.num_planes - i,
        {
            let p = &image.planes[i];
            if p.texture == 0 || !p.tex_sampleable {
                return false;
            }
            i = i + 1;
        }
        let mut j: usize = 0;
        while j < image.overlays.len()
            invariant
                j <= image.overlays@.len(),
                forall|k: int| 0 <= k < j ==> (#[trigger] image.overlays@[k]).plane.is_sampleable(),
            decreases image.overlays@.len() - j,
        {
            let p = &image.overlays[j].plane;
            if p.texture == 0 || !p.tex_sampleable {
                return false;
            }
            j = j + 1;
        }
        let mut k: usize = 0;
        while k < target.overlays.len()
            invariant
                k <= target.overlays@.len(),
                forall|m: int| 0 <= m < k ==> (#[trigger] target.overlays@[m]).plane.is_sampleable(),
            decreases target.overlays@.len() - k,
        {
            let p = &target.overlays[k].plane;
            if p.texture == 0 || !p.tex_sampleable {
                return false;
            }
            k = k + 1;
        }
        true
    }

    /// Releases the renderer and unregisters it from its device.
    /// Destroying it twice is a safe no-op.
    pub fn destroy(&mut self, vk: &mut Vulkan)
        requires
            old(self).is_alive() ==> {
                &&& old(vk).is_alive()
                &&& old(self).gpu == old(vk).vk
                &&& old(vk).live_children >= 1
            },
        ensures
            !final(self).is_alive(),
            *final(self) == (Renderer { rr: 0, ..*old(self) }),
            final(vk).vk == old(vk).vk,
            final(vk).parent == old(vk).parent,
            final(vk).surface == old(vk).surface,
            final(vk).max_extent_w == old(vk).max_extent_w,
            final(vk).max_extent_h == old(vk).max_extent_h,
            final(vk).next_child == old(vk).next_child,
            final(vk).live_children == if old(self).is_alive() {
                (old(vk).live_children - 1) as u64
            } else {
                old(vk).live_children
            },
    {
        if self.rr != 0 {
            vk.live_children = vk.live_children - 1;
            self.rr = 0;
        }
    }
}

} // verus!
