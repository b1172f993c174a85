//! The presentation swapchain and the per-frame protocol.
//!
//! Frames follow a strict sequence: `start_frame`, render,
//! `submit_frame`, `swap_buffers`; no frame may start before the
//! previous one has been swapped.  Frame acquisition may fail
//! transiently (the surface is not ready); that is not an error, and
//! the caller backs off and retries.  The [`FrameLoop`] controller
//! captures the caller-side decisions of that loop, so the retry
//! policy itself is a verified function of the events.

use vstd::prelude::*;

verus! {

use crate::colorspace::ColorRepr;
use crate::colorspace::ColorReprs;
use crate::colorspace::ColorSpace;
use crate::colorspace::ColorSpaces;
use crate::vulkan::Vulkan;

/// Presentation timing.
#[allow(non_camel_case_types)]
#[derive(Clone, Copy, Debug, PartialEq, Eq, Structural)]
pub enum PresentMode {
    PRESENT_IMMEDIATE,
    PRESENT_FIFO,
    PRESENT_MAILBOX,
}

/// The pixel format and color-space tag of the presentation surface,
/// as plain native tags.
#[derive(Clone, Copy, Debug, PartialEq, Eq, Structural)]
pub struct SurfaceFormat {
    pub format: u32,
    pub color_space: u32,
}

impl SurfaceFormat {
    pub fn new(format: u32, color_space: u32) -> (r: SurfaceFormat)
        ensures
            r == (SurfaceFormat { format, color_space }),
    {
        SurfaceFormat { format, color_space }
    }
}

impl Default for SurfaceFormat {
    /// An undefined format: the swapchain picks one itself.
    fn default() -> (r: SurfaceFormat)
        ensures
            r == (SurfaceFormat { format: 0, color_space: 0 }),
    {
        SurfaceFormat { format: 0, color_space: 0 }
    }
}

/// Construction parameters for a [`Swapchain`].
#[derive(Clone, Copy, Debug, PartialEq, Eq, Structural)]
pub struct SwapchainParams {
    pub surface: u64,
    pub present_mode: PresentMode,
    pub surface_format: SurfaceFormat,
    pub swapchain_depth: usize,
}

impl SwapchainParams {
    pub fn set_surface(&mut self, surface: u64)
        ensures
            *final(self) == (SwapchainParams { surface, ..*old(self) }),
    {
        self.surface = surface;
    }

    pub fn set_present_mode(&mut self, present_mode: &PresentMode)
        ensures
            *final(self) == (SwapchainParams { present_mode: *present_mode, ..*old(self) }),
    {
        self.present_mode = *present_mode;
    }

    pub fn set_surface_format(&mut self, surface_format: &SurfaceFormat)
        ensures
            *final(self) == (SwapchainParams { surface_format: *surface_format, ..*old(self) }),
    {
        self.surface_format = *surface_format;
    }

    pub fn set_swapchain_depth(&mut self, swapchain_depth: usize)
        requires
            swapchain_depth >= 1,
        ensures
            *final(self) == (SwapchainParams { swapchain_depth, ..*old(self) }),
    {
        self.swapchain_depth = swapchain_depth;
    }
}

impl Default for SwapchainParams {
    /// Immediate presentation, an undefined surface format and a
    /// buffering depth of 3.
    fn default() -> (r: SwapchainParams)
        ensures
            r == (SwapchainParams {
                surface: 0,
                present_mode: PresentMode::PRESENT_IMMEDIATE,
                surface_format: SurfaceFormat { format: 0, color_space: 0 },
                swapchain_depth: 3,
            }),
    {
        SwapchainParams {
            surface: 0,
            present_mode: PresentMode::PRESENT_IMMEDIATE,
            surface_format: SurfaceFormat { format: 0, color_space: 0 },
            swapchain_depth: 3,
        }
    }
}

/// A transient per-frame descriptor filled by
/// [`Swapchain::start_frame`]: the destination framebuffer handle,
/// whether it is vertically flipped, the negotiated color metadata
/// and the current extent.
#[derive(Clone, Copy, Debug, PartialEq, Eq, Structural)]
pub struct SwapchainFrame {
    pub fbo: u64,
    pub flipped: bool,
    pub color_repr: ColorRepr,
    pub color_space: ColorSpace,
    pub width: usize,
    pub height: usize,
}

impl Default for SwapchainFrame {
    /// An empty descriptor, to be filled by frame acquisition.
    fn default() -> (r: SwapchainFrame)
        ensures
            r.fbo == 0,
            !r.flipped,
            r.color_repr == ColorRepr::preset_spec(ColorReprs::Unknown),
            r.color_space == ColorSpace::preset_spec(ColorSpaces::Unknown),
            r.width == 0,
            r.height == 0,
    {
        SwapchainFrame {
            fbo: 0,
            flipped: false,
            color_repr: ColorRepr::color_repr(&ColorReprs::Unknown),
            color_space: ColorSpace::color_space(&ColorSpaces::Unknown),
            width: 0,
            height: 0,
        }
    }
}

/// Where a swapchain stands in the per-frame protocol.
#[derive(Clone, Copy, Debug, PartialEq, Eq, Structural)]
pub enum FrameState {
    /// No frame in flight; the next step is `start_frame`.
    Idle,
    /// A frame was acquired; the next step is `submit_frame`.
    Started,
    /// The frame was submitted; the next step is `swap_buffers`.
    Submitted,
}

/// The presentation surface wrapper bound to a device.  `sw == 0`
/// means destroyed.
pub struct Swapchain {
    /// Model handle; 0 once destroyed.
    pub sw: u64,
    /// Handle of the owning device.
    pub device: u64,
    pub surface: u64,
    pub present_mode: PresentMode,
    pub surface_format: SurfaceFormat,
    pub depth: usize,
    /// Current extent, as last negotiated by `resize`.
    pub width: usize,
    pub height: usize,
    /// Extent limits inherited from the device.
    pub max_width: usize,
    pub max_height: usize,
    pub state: FrameState,
}

impl Swapchain {
    pub open spec fn is_alive(&self) -> bool {
        self.sw != 0
    }

    /// The color representation a swapchain surface negotiates.
    pub open spec fn negotiated_repr() -> ColorRepr {
        ColorRepr::preset_spec(ColorReprs::Rgb)
    }

    /// The color space a swapchain surface negotiates.
    pub open spec fn negotiated_space() -> ColorSpace {
        ColorSpace::preset_spec(ColorSpaces::Srgb)
    }

    /// Creates a swapchain against a live device and registers it as
    /// a child of that device.  The buffering depth must be at least
    /// one.
    pub fn new(vk: &mut Vulkan, params: &SwapchainParams) -> (r: Swapchain)
        requires
            old(vk).can_create(),
            params.swapchain_depth >= 1,
        ensures
            r.is_alive(),
            r.sw == old(vk).next_child + 1,
            r.device == old(vk).vk,
            r.surface == params.surface,
            r.present_mode == params.present_mode,
            r.surface_format == params.surface_format,
            r.depth == params.swapchain_depth,
            r.width == 0 && r.height == 0,
            r.max_width == old(vk).max_extent_w,
            r.max_height == old(vk).max_extent_h,
            r.state == FrameState::Idle,
            final(vk).vk == old(vk).vk,
            final(vk).parent == old(vk).parent,
            final(vk).surface == old(vk).surface,
            final(vk).max_extent_w == old(vk).max_extent_w,
            final(vk).max_extent_h == old(vk).max_extent_h,
            final(vk).live_children == old(vk).live_children + 1,
            final(vk).next_child == old(vk).next_child + 1,
    {
        vk.next_child = vk.next_child + 1;
        vk.live_children = vk.live_children + 1;
        Swapchain {
            sw: vk.next_child,
            device: vk.vk,
            surface: params.surface,
            present_mode: params.present_mode,
            surface_format: params.surface_format,
            depth: params.swapchain_depth,
            width: 0,
            height: 0,
            max_width: vk.max_extent_w,
            max_height: vk.max_extent_h,
            state: FrameState::Idle,
        }
    }

    /// How many frames the swapchain buffers internally.
    pub fn latency(&self) -> (r: usize)
        requires
            self.is_alive(),
        ensures
            r == self.depth,
    {
        self.depth
    }

    /// Requests a new extent.  The device may cap the request at its
    /// own limits, so the negotiated extent is returned and the
    /// caller must adapt to it rather than assume the request was
    /// honored.
    pub fn resize(&mut self, width: usize, height: usize) -> (r: (usize, usize))
        requires
            old(self).is_alive(),
        ensures
            r.0 == if width <= old(self).max_width {
                width
            } else {
                old(self).max_width
            },
            r.1 == if height <= old(self).max_height {
                height
            } else {
                old(self).max_height
            },
            *final(self) == (Swapchain { width: r.0, height: r.1, ..*old(self) }),
    {
        let w = if width <= self.max_width {
            width
        } else {
            self.max_width
        };
        let h = if height <= self.max_height {
            height
        } else {
            self.max_height
        };
        self.width = w;
        self.height = h;
        (w, h)
    }

    /// Tries to acquire the next frame.  `ready` is the surface's
    /// answer, which the model takes as an event: when the surface is
    /// not ready the call returns `false`, the frame descriptor and
    /// the protocol state are left untouched, and the caller is
    /// expected to back off and retry; that outcome is not an error.
    /// On success the descriptor carries the framebuffer handle, the
    /// negotiated color metadata and the current extent.
    pub fn start_frame(&mut self, frame: &mut SwapchainFrame, ready: bool) -> (ok: bool)
        requires
            old(self).is_alive(),
            old(self).state == FrameState::Idle,
        ensures
            ok == ready,
            ok ==> *final(self) == (Swapchain { state: FrameState::Started, ..*old(self) }),
            ok ==> *final(frame) == (SwapchainFrame {
                fbo: old(self).sw,
                flipped: false,
                color_repr: Self::negotiated_repr(),
                color_space: Self::negotiated_space(),
                width: old(self).width,
                height: old(self).height,
            }),
            !ok ==> *final(self) == *old(self) && *final(frame) == *old(frame),
    {
        if !ready {
            return false;
        }
        frame.fbo = self.sw;
        frame.flipped = false;
        frame.color_repr = ColorRepr::color_repr(&ColorReprs::Rgb);
        frame.color_space = ColorSpace::color_space(&ColorSpaces::Srgb);
        frame.width = self.width;
        frame.height = self.height;
        self.state = FrameState::Started;
        true
    }

    /// Submits the rendered frame to the presentation layer.
    /// `accepted` is the layer's answer, which the model takes as an
    /// event: on acceptance the frame awaits `swap_buffers`; a
    /// refusal is non-transient, the frame is abandoned and the
    /// swapchain returns to idle — the caller must report it and end
    /// or escalate the frame loop (see
    /// [`FrameLoop::on_submit_frame`]).
    pub fn submit_frame(&mut self, accepted: bool) -> (ok: bool)
        requires
            old(self).is_alive(),
            old(self).state == FrameState::Started,
        ensures
            ok == accepted,
            ok ==> *final(self) == (Swapchain { state: FrameState::Submitted, ..*old(self) }),
            !ok ==> *final(self) == (Swapchain { state: FrameState::Idle, ..*old(self) }),
    {
        if accepted {
            self.state = FrameState::Submitted;
            true
        } else {
            self.state = FrameState::Idle;
            false
        }
    }

    /// Presents the submitted frame; assumed to succeed once
    /// submission succeeded.
    pub fn swap_buffers(&mut self)
        requires
            old(self).is_alive(),
            old(self).state == FrameState::Submitted,
        ensures
            *final(self) == (Swapchain { state: FrameState::Idle, ..*old(self) }),
    {
        self.state = FrameState::Idle;
    }

    /// Releases the swapchain and unregisters it from its device.
    /// Destroying it twice is a safe no-op.
    pub fn destroy(&mut self, vk: &mut Vulkan)
        requires
            old(self).is_alive() ==> {
                &&& old(vk).is_alive()
                &&& old(self).device == old(vk).vk
                &&& old(vk).live_children >= 1
            },
        ensures
            !final(self).is_alive(),
            *final(self) == (Swapchain { sw: 0, ..*old(self) }),
            final(vk).vk == old(vk).vk,
            final(vk).parent == old(vk).parent,
            final(vk).surface == old(vk).surface,
            final(vk).max_extent_w == old(vk).max_extent_w,
            final(vk).max_extent_h == old(vk).max_extent_h,
            final(vk).next_child == old(vk).next_child,
            final(vk).live_children == if old(self).is_alive() {
                (old(vk).live_children - 1) as u64
            } else {
                old(vk).live_children
            },
    {
        if self.sw != 0 {
            vk.live_children = vk.live_children - 1;
            self.sw = 0;
        }
    }
}

/// What the frame loop does next after an event.
#[derive(Clone, Copy, Debug, PartialEq, Eq, Structural)]
pub enum FrameAction {
    /// Build the frame's image and target and render.
    Render,
    /// Sleep briefly and try to start a frame again.
    BackOff,
    /// Submit the rendered frame.
    Submit,
    /// Present the submitted frame.
    Swap,
    /// Drop the current frame and return to the polling loop.
    SkipFrame,
    /// A non-transient failure: leave the frame loop.
    Stop,
}

/// The caller-side frame-loop controller: given the outcome of each
/// swapchain or renderer call, it decides the next action.  Transient
/// acquisition failures back off and never terminate the loop; render
/// failures drop the frame; submission failures stop the loop.
#[derive(Clone, Copy, Debug, PartialEq, Eq, Structural)]
pub struct FrameLoop {
    /// Frames presented so far.
    pub frames_rendered: u64,
    /// Transient acquisition failures seen so far.
    pub backoffs: u64,
    /// Set once a non-transient failure ends the loop.
    pub stopped: bool,
    /// Whether a failed render ends the loop instead of dropping the
    /// frame.  The underlying policy is not fixed, so the caller
    /// chooses it at construction.
    pub stop_on_render_failure: bool,
}

impl FrameLoop {
    /// The decision taken on a frame-acquisition outcome: acquisition
    /// failure is transient, so the loop backs off without rendering,
    /// submitting or stopping.
    pub open spec fn start_frame_step(s: FrameLoop, ok: bool) -> (FrameLoop, FrameAction) {
        if ok {
            (s, FrameAction::Render)
        } else {
            (
                FrameLoop {
                    backoffs: (s.backoffs + 1) as u64,
                    ..s
                },
                FrameAction::BackOff,
            )
        }
    }

    pub fn new() -> (r: FrameLoop)
        ensures
            r.frames_rendered == 0,
            r.backoffs == 0,
            !r.stopped,
            !r.stop_on_render_failure,
    {
        FrameLoop { frames_rendered: 0, backoffs: 0, stopped: false, stop_on_render_failure: false }
    }

    /// A controller with an explicit render-failure policy: `true`
    /// treats a failed render like a failed submission and ends the
    /// loop, `false` drops the frame and continues.
    pub fn with_render_failure_policy(stop_on_render_failure: bool) -> (r: FrameLoop)
        ensures
            r.frames_rendered == 0,
            r.backoffs == 0,
            !r.stopped,
            r.stop_on_render_failure == stop_on_render_failure,
    {
        FrameLoop { frames_rendered: 0, backoffs: 0, stopped: false, stop_on_render_failure }
    }

    /// Reacts to the outcome of `start_frame`.
    pub fn on_start_frame(&mut self, ok: bool) -> (a: FrameAction)
        requires
            !old(self).stopped,
            old(self).backoffs < u64::MAX,
        ensures
            (*final(self), a) == FrameLoop::start_frame_step(*old(self), ok),
    {
        if ok {
            FrameAction::Render
        } else {
            self.backoffs = self.backoffs + 1;
            FrameAction::BackOff
        }
    }

    /// Reacts to the outcome of `render_image`: a failed render is
    /// reported and, under the default policy, the frame dropped
    /// while the loop continues; under the stop-on-failure policy it
    /// ends the loop.
    pub fn on_render_image(&mut self, ok: bool) -> (a: FrameAction)
        requires
            !old(self).stopped,
        ensures
            a == if ok {
                FrameAction::Submit
            } else if old(self).stop_on_render_failure {
                FrameAction::Stop
            } else {
                FrameAction::SkipFrame
            },
            final(self).stopped == (!ok && old(self).stop_on_render_failure),
            final(self).frames_rendered == old(self).frames_rendered,
            final(self).backoffs == old(self).backoffs,
            final(self).stop_on_render_failure == old(self).stop_on_render_failure,
    {
        if ok {
            FrameAction::Submit
        } else if self.stop_on_render_failure {
            self.stopped = true;
            FrameAction::Stop
        } else {
            FrameAction::SkipFrame
        }
    }

    /// Reacts to the outcome of `submit_frame`: a failed submission
    /// is non-transient and ends the loop.
    pub fn on_submit_frame(&mut self, ok: bool) -> (a: FrameAction)
        requires
            !old(self).stopped,
        ensures
            a == if ok {
                FrameAction::Swap
            } else {
                FrameAction::Stop
            },
            final(self).stopped == !ok,
            final(self).frames_rendered == old(self).frames_rendered,
            final(self).backoffs == old(self).backoffs,
            final(self).stop_on_render_failure == old(self).stop_on_render_failure,
    {
        if ok {
            FrameAction::Swap
        } else {
            self.stopped = true;
            FrameAction::Stop
        }
    }

    /// Records a presented frame after `swap_buffers`.
    pub fn on_swap_buffers(&mut self)
        requires
            !old(self).stopped,
            old(self).frames_rendered < u64::MAX,
        ensures
            *final(self) == (FrameLoop {
                frames_rendered: (old(self).frames_rendered + 1) as u64,
                ..*old(self)
            }),
    {
        self.frames_rendered = self.frames_rendered + 1;
    }

    /// The loop state after `n` consecutive failed acquisitions.
    pub open spec fn after_failed_starts(s: FrameLoop, n: nat) -> FrameLoop
        decreases n,
    {
        if n == 0 {
            s
        } else {
            FrameLoop::start_frame_step(FrameLoop::after_failed_starts(s, (n - 1) as nat), false).0
        }
    }
}

/// However many times in a row frame acquisition fails, the loop
/// never renders, never stops and presents nothing: every decision is
/// a back-off, and only the back-off counter moves.
pub proof fn lemma_failed_starts_only_back_off(s: FrameLoop, n: nat)
    ensures
        FrameLoop::after_failed_starts(s, n).stopped == s.stopped,
        FrameLoop::after_failed_starts(s, n).frames_rendered == s.frames_rendered,
        n > 0 ==> FrameLoop::start_frame_step(
            FrameLoop::after_failed_starts(s, (n - 1) as nat),
            false,
        ).1 == FrameAction::BackOff,
    decreases n,
{
    if n > 0 {
        lemma_failed_starts_only_back_off(s, (n - 1) as nat);
    }
}

} // verus!
