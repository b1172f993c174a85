//! Filter kernels and configurations used for scaling.
//!
//! A `FilterFunction` is an analytic kernel described by its radius
//! and tuning parameters; a `FilterConfig` composes a kernel with an
//! optional window and clamp/blur/taper knobs.  Scalars are stored in
//! thousandths (a stored radius of 3000 means 3.0).  Equality is
//! structural: two configurations are equal exactly when every field
//! matches, which is what the renderer's cache invalidation relies
//! on.

use vstd::prelude::*;

verus! {

use crate::context::Context;

/// The named analytic weight functions a kernel can evaluate.
#[derive(Clone, Copy, Debug, PartialEq, Eq, Structural)]
pub enum FilterFunctions {
    Box,
    Triangle,
    Hann,
    Hamming,
    Welch,
    Kaiser,
    BlackMan,
    Gaussian,
    Sinc,
    Jinc,
    Sphinx,
    Bcspline,
    CatmullRom,
    Mitchell,
    Robidoux,
    Robidouxsharp,
    Bicubic,
    Spline16,
    Spline36,
    Spline64,
}

/// An analytic filter kernel: which weight function it evaluates
/// (its identity — kernels of different weight functions never
/// compare equal, whatever their numbers), whether its radius may be
/// stretched, which of its two parameters are tunable, its radius
/// and its parameters, the latter two in thousandths.  A kernel
/// under construction may carry no weight function yet.
#[derive(Clone, Copy, Debug)]
pub struct FilterFunction {
    pub weight: Option<FilterFunctions>,
    pub resizable: bool,
    pub tunable: [bool; 2],
    pub radius: i64,
    pub params: [i64; 2],
}

/// Structural equality of two filter kernels: the weight-function
/// identity and every numeric field must match.
pub open spec fn filter_function_eq_spec(a: FilterFunction, b: FilterFunction) -> bool {
    &&& a.weight == b.weight
    &&& a.resizable == b.resizable
    &&& a.tunable@ == b.tunable@
    &&& a.radius == b.radius
    &&& a.params@ == b.params@
}

impl FilterFunction {
    /// A user-defined kernel; it carries no named weight function.
    pub fn new(resizable: bool, tunable: &[bool; 2], radius: i64, params: &[i64; 2]) -> (r:
        FilterFunction)
        ensures
            r.weight is None,
            r.resizable == resizable,
            r.tunable@ == tunable@,
            r.radius == radius,
            r.params@ == params@,
    {
        FilterFunction { weight: None, resizable, tunable: *tunable, radius, params: *params }
    }

    /// Two kernels are equal exactly when all their fields match,
    /// the weight-function identity included.
    pub fn filter_function_eq(&self, b: &FilterFunction) -> (r: bool)
        ensures
            r == filter_function_eq_spec(*self, *b),
    {
        let weight_eq = match (&self.weight, &b.weight) {
            (Some(wa), Some(wb)) => *wa == *wb,
            (None, None) => true,
            _ => false,
        };
        let tunable_eq = self.tunable[0] == b.tunable[0] && self.tunable[1] == b.tunable[1];
        let params_eq = self.params[0] == b.params[0] && self.params[1] == b.params[1];
        proof {
            if tunable_eq {
                assert(self.tunable@ =~= b.tunable@);
            }
            if params_eq {
                assert(self.params@ =~= b.params@);
            }
        }
        weight_eq && self.resizable == b.resizable && tunable_eq && self.radius == b.radius
            && params_eq
    }
}

impl Default for FilterFunction {
    /// A kernel with no weight function and no reach at all; a
    /// placeholder to be filled.
    fn default() -> (r: FilterFunction)
        ensures
            r.weight is None,
            !r.resizable,
            r.tunable@ == seq![false, false],
            r.radius == 0,
            r.params@ == seq![0i64, 0i64],
    {
        let r = FilterFunction {
            weight: None,
            resizable: false,
            tunable: [false, false],
            radius: 0,
            params: [0, 0],
        };
        proof {
            assert(r.tunable@ =~= seq![false, false]);
            assert(r.params@ =~= seq![0i64, 0i64]);
        }
        r
    }
}

impl FilterFunctions {
    /// The kernel catalog: each named weight function with its
    /// radius and parameters, in thousandths.
    pub open spec fn preset_spec(&self) -> FilterFunction {
        match self {
            FilterFunctions::Box => FilterFunction { weight: Some(FilterFunctions::Box), resizable: true, tunable: [false, false], radius: 1000, params: [0, 0] },
            FilterFunctions::Triangle => FilterFunction { weight: Some(FilterFunctions::Triangle), resizable: true, tunable: [false, false], radius: 1000, params: [0, 0] },
            FilterFunctions::Hann => FilterFunction { weight: Some(FilterFunctions::Hann), resizable: false, tunable: [false, false], radius: 1000, params: [0, 0] },
            FilterFunctions::Hamming => FilterFunction { weight: Some(FilterFunctions::Hamming), resizable: false, tunable: [false, false], radius: 1000, params: [0, 0] },
            FilterFunctions::Welch => FilterFunction { weight: Some(FilterFunctions::Welch), resizable: false, tunable: [false, false], radius: 1000, params: [0, 0] },
            FilterFunctions::Kaiser => FilterFunction { weight: Some(FilterFunctions::Kaiser), resizable: false, tunable: [true, false], radius: 1000, params: [2000, 0] },
            FilterFunctions::BlackMan => FilterFunction { weight: Some(FilterFunctions::BlackMan), resizable: false, tunable: [true, false], radius: 1000, params: [160, 0] },
            FilterFunctions::Gaussian => FilterFunction { weight: Some(FilterFunctions::Gaussian), resizable: true, tunable: [true, false], radius: 2000, params: [1000, 0] },
            FilterFunctions::Sinc => FilterFunction { weight: Some(FilterFunctions::Sinc), resizable: true, tunable: [false, false], radius: 1000, params: [0, 0] },
            FilterFunctions::Jinc => FilterFunction { weight: Some(FilterFunctions::Jinc), resizable: true, tunable: [false, false], radius: 1220, params: [0, 0] },
            FilterFunctions::Sphinx => FilterFunction { weight: Some(FilterFunctions::Sphinx), resizable: true, tunable: [false, false], radius: 1430, params: [0, 0] },
            FilterFunctions::Bcspline => FilterFunction { weight: Some(FilterFunctions::Bcspline), resizable: false, tunable: [true, true], radius: 2000, params: [500, 500] },
            FilterFunctions::CatmullRom => FilterFunction { weight: Some(FilterFunctions::CatmullRom), resizable: false, tunable: [false, false], radius: 2000, params: [0, 500] },
            FilterFunctions::Mitchell => FilterFunction { weight: Some(FilterFunctions::Mitchell), resizable: false, tunable: [false, false], radius: 2000, params: [333, 333] },
            FilterFunctions::Robidoux => FilterFunction { weight: Some(FilterFunctions::Robidoux), resizable: false, tunable: [false, false], radius: 2000, params: [378, 311] },
            FilterFunctions::Robidouxsharp => FilterFunction { weight: Some(FilterFunctions::Robidouxsharp), resizable: false, tunable: [false, false], radius: 2000, params: [262, 369] },
            FilterFunctions::Bicubic => FilterFunction { weight: Some(FilterFunctions::Bicubic), resizable: false, tunable: [false, false], radius: 2000, params: [1000, 0] },
            FilterFunctions::Spline16 => FilterFunction { weight: Some(FilterFunctions::Spline16), resizable: false, tunable: [false, false], radius: 2000, params: [0, 0] },
            FilterFunctions::Spline36 => FilterFunction { weight: Some(FilterFunctions::Spline36), resizable: false, tunable: [false, false], radius: 3000, params: [0, 0] },
            FilterFunctions::Spline64 => FilterFunction { weight: Some(FilterFunctions::Spline64), resizable: false, tunable: [false, false], radius: 4000, params: [0, 0] },
        }
    }

    /// Looks a named kernel up in the catalog.
    pub fn to_filter_function(&self) -> (r: FilterFunction)
        ensures
            r == self.preset_spec(),
    {
        match self {
            FilterFunctions::Box => FilterFunction { weight: Some(FilterFunctions::Box), resizable: true, tunable: [false, false], radius: 1000, params: [0, 0] },
            FilterFunctions::Triangle => FilterFunction { weight: Some(FilterFunctions::Triangle), resizable: true, tunable: [false, false], radius: 1000, params: [0, 0] },
            FilterFunctions::Hann => FilterFunction { weight: Some(FilterFunctions::Hann), resizable: false, tunable: [false, false], radius: 1000, params: [0, 0] },
            FilterFunctions::Hamming => FilterFunction { weight: Some(FilterFunctions::Hamming), resizable: false, tunable: [false, false], radius: 1000, params: [0, 0] },
            FilterFunctions::Welch => FilterFunction { weight: Some(FilterFunctions::Welch), resizable: false, tunable: [false, false], radius: 1000, params: [0, 0] },
            FilterFunctions::Kaiser => FilterFunction { weight: Some(FilterFunctions::Kaiser), resizable: false, tunable: [true, false], radius: 1000, params: [2000, 0] },
            FilterFunctions::BlackMan => FilterFunction { weight: Some(FilterFunctions::BlackMan), resizable: false, tunable: [true, false], radius: 1000, params: [160, 0] },
            FilterFunctions::Gaussian => FilterFunction { weight: Some(FilterFunctions::Gaussian), resizable: true, tunable: [true, false], radius: 2000, params: [1000, 0] },
            FilterFunctions::Sinc => FilterFunction { weight: Some(FilterFunctions::Sinc), resizable: true, tunable: [false, false], radius: 1000, params: [0, 0] },
            FilterFunctions::Jinc => FilterFunction { weight: Some(FilterFunctions::Jinc), resizable: true, tunable: [false, false], radius: 1220, params: [0, 0] },
            FilterFunctions::Sphinx => FilterFunction { weight: Some(FilterFunctions::Sphinx), resizable: true, tunable: [false, false], radius: 1430, params: [0, 0] },
            FilterFunctions::Bcspline => FilterFunction { weight: Some(FilterFunctions::Bcspline), resizable: false, tunable: [true, true], radius: 2000, params: [500, 500] },
            FilterFunctions::CatmullRom => FilterFunction { weight: Some(FilterFunctions::CatmullRom), resizable: false, tunable: [false, false], radius: 2000, params: [0, 500] },
            FilterFunctions::Mitchell => FilterFunction { weight: Some(FilterFunctions::Mitchell), resizable: false, tunable: [false, false], radius: 2000, params: [333, 333] },
            FilterFunctions::Robidoux => FilterFunction { weight: Some(FilterFunctions::Robidoux), resizable: false, tunable: [false, false], radius: 2000, params: [378, 311] },
            FilterFunctions::Robidouxsharp => FilterFunction { weight: Some(FilterFunctions::Robidouxsharp), resizable: false, tunable: [false, false], radius: 2000, params: [262, 369] },
            FilterFunctions::Bicubic => FilterFunction { weight: Some(FilterFunctions::Bicubic), resizable: false, tunable: [false, false], radius: 2000, params: [1000, 0] },
            FilterFunctions::Spline16 => FilterFunction { weight: Some(FilterFunctions::Spline16), resizable: false, tunable: [false, false], radius: 2000, params: [0, 0] },
            FilterFunctions::Spline36 => FilterFunction { weight: Some(FilterFunctions::Spline36), resizable: false, tunable: [false, false], radius: 3000, params: [0, 0] },
            FilterFunctions::Spline64 => FilterFunction { weight: Some(FilterFunctions::Spline64), resizable: false, tunable: [false, false], radius: 4000, params: [0, 0] },
        }
    }
}

/// Each named kernel preset carries its own variant as weight
/// identity.
pub proof fn lemma_kernel_preset_weight(a: FilterFunctions)
    ensures
        a.preset_spec().weight == Some(a),
{
}

/// Each named kernel yields its own preset and never another's: two
/// presets compare equal exactly when they come from the same
/// variant, because the weight identity tells even numerically
/// identical kernels apart.
pub proof fn lemma_kernel_presets_distinct(a: FilterFunctions, b: FilterFunctions)
    ensures
        filter_function_eq_spec(a.preset_spec(), b.preset_spec()) <==> a == b,
{
    lemma_kernel_preset_weight(a);
    lemma_kernel_preset_weight(b);
}

/// The named filter configurations.
#[derive(Clone, Copy, Debug, PartialEq, Eq, Structural)]
pub enum FilterConfigs {
    Spline16,
    Spline36,
    Spline64,
    Box,
    Triangle,
    Gaussian,
    Sinc,
    Lanczos,
    Ginseng,
    EwaJinc,
    EwaLanczos,
    EwaGinseng,
    EwaHann,
    Haasnsoft,
    Bicubic,
    CatmullRom,
    Mitchell,
    Robidoux,
    Robidouxsharp,
    EwaRobidoux,
    EwaRobidouxsharp,
}

/// A filter configuration: a kernel, an optional window, the
/// clamp/blur/taper knobs (in thousandths) and whether the filter is
/// sampled polar (elliptically weighted).
#[derive(Clone, Copy, Debug)]
pub struct FilterConfig {
    pub kernel: FilterFunction,
    pub window: Option<FilterFunction>,
    pub clamp: i64,
    pub blur: i64,
    pub taper: i64,
    pub polar: bool,
}

/// Structural equality of two filter configurations.
pub open spec fn filter_config_eq_spec(a: FilterConfig, b: FilterConfig) -> bool {
    &&& filter_function_eq_spec(a.kernel, b.kernel)
    &&& match (a.window, b.window) {
        (Some(wa), Some(wb)) => filter_function_eq_spec(wa, wb),
        (None, None) => true,
        _ => false,
    }
    &&& a.clamp == b.clamp
    &&& a.blur == b.blur
    &&& a.taper == b.taper
    &&& a.polar == b.polar
}

impl FilterConfig {
    pub fn new(
        kernel: &FilterFunction,
        window: &FilterFunction,
        clamp: i64,
        blur: i64,
        taper: i64,
        polar: bool,
    ) -> (r: FilterConfig)
        ensures
            r.kernel == *kernel,
            r.window == Some(*window),
            r.clamp == clamp,
            r.blur == blur,
            r.taper == taper,
            r.polar == polar,
    {
        FilterConfig { kernel: *kernel, window: Some(*window), clamp, blur, taper, polar }
    }

    /// The catalog of named filter configurations.
    pub open spec fn preset_spec(filter: FilterConfigs) -> FilterConfig {
        match filter {
            FilterConfigs::Spline16 => FilterConfig { kernel: FilterFunctions::Spline16.preset_spec(), window: None, clamp: 0, blur: 0, taper: 0, polar: false },
            FilterConfigs::Spline36 => FilterConfig { kernel: FilterFunctions::Spline36.preset_spec(), window: None, clamp: 0, blur: 0, taper: 0, polar: false },
            FilterConfigs::Spline64 => FilterConfig { kernel: FilterFunctions::Spline64.preset_spec(), window: None, clamp: 0, blur: 0, taper: 0, polar: false },
            FilterConfigs::Box => FilterConfig { kernel: FilterFunctions::Box.preset_spec(), window: None, clamp: 0, blur: 0, taper: 0, polar: false },
            FilterConfigs::Triangle => FilterConfig { kernel: FilterFunctions::Triangle.preset_spec(), window: None, clamp: 0, blur: 0, taper: 0, polar: false },
            FilterConfigs::Gaussian => FilterConfig { kernel: FilterFunctions::Gaussian.preset_spec(), window: None, clamp: 0, blur: 0, taper: 0, polar: false },
            FilterConfigs::Sinc => FilterConfig { kernel: FilterFunctions::Sinc.preset_spec(), window: None, clamp: 0, blur: 0, taper: 0, polar: false },
            FilterConfigs::Lanczos => FilterConfig { kernel: FilterFunctions::Sinc.preset_spec(), window: Some(FilterFunctions::Sinc.preset_spec()), clamp: 0, blur: 0, taper: 0, polar: false },
            FilterConfigs::Ginseng => FilterConfig { kernel: FilterFunctions::Sinc.preset_spec(), window: Some(FilterFunctions::Jinc.preset_spec()), clamp: 0, blur: 0, taper: 0, polar: false },
            FilterConfigs::EwaJinc => FilterConfig { kernel: FilterFunctions::Jinc.preset_spec(), window: None, clamp: 0, blur: 0, taper: 0, polar: true },
            FilterConfigs::EwaLanczos => FilterConfig { kernel: FilterFunctions::Jinc.preset_spec(), window: Some(FilterFunctions::Jinc.preset_spec()), clamp: 0, blur: 0, taper: 0, polar: true },
            FilterConfigs::EwaGinseng => FilterConfig { kernel: FilterFunctions::Jinc.preset_spec(), window: Some(FilterFunctions::Sinc.preset_spec()), clamp: 0, blur: 0, taper: 0, polar: true },
            FilterConfigs::EwaHann => FilterConfig { kernel: FilterFunctions::Jinc.preset_spec(), window: Some(FilterFunctions::Hann.preset_spec()), clamp: 0, blur: 0, taper: 0, polar: true },
            FilterConfigs::Haasnsoft => FilterConfig { kernel: FilterFunctions::Jinc.preset_spec(), window: Some(FilterFunctions::Hann.preset_spec()), clamp: 0, blur: 1110, taper: 0, polar: true },
            FilterConfigs::Bicubic => FilterConfig { kernel: FilterFunctions::Bicubic.preset_spec(), window: None, clamp: 0, blur: 0, taper: 0, polar: false },
            FilterConfigs::CatmullRom => FilterConfig { kernel: FilterFunctions::CatmullRom.preset_spec(), window: None, clamp: 0, blur: 0, taper: 0, polar: false },
            FilterConfigs::Mitchell => FilterConfig { kernel: FilterFunctions::Mitchell.preset_spec(), window: None, clamp: 0, blur: 0, taper: 0, polar: false },
            FilterConfigs::Robidoux => FilterConfig { kernel: FilterFunctions::Robidoux.preset_spec(), window: None, clamp: 0, blur: 0, taper: 0, polar: false },
            FilterConfigs::Robidouxsharp => FilterConfig { kernel: FilterFunctions::Robidouxsharp.preset_spec(), window: None, clamp: 0, blur: 0, taper: 0, polar: false },
            FilterConfigs::EwaRobidoux => FilterConfig { kernel: FilterFunctions::Robidoux.preset_spec(), window: None, clamp: 0, blur: 0, taper: 0, polar: true },
            FilterConfigs::EwaRobidouxsharp => FilterConfig { kernel: FilterFunctions::Robidouxsharp.preset_spec(), window: None, clamp: 0, blur: 0, taper: 0, polar: true },
        }
    }

    /// Looks a named configuration up in the catalog.
    pub fn get_filter_config(filter: &FilterConfigs) -> (r: FilterConfig)
        ensures
            r == Self::preset_spec(*filter),
    {
        match filter {
            FilterConfigs::Spline16 => FilterConfig { kernel: FilterFunctions::Spline16.to_filter_function(), window: None, clamp: 0, blur: 0, taper: 0, polar: false },
            FilterConfigs::Spline36 => FilterConfig { kernel: FilterFunctions::Spline36.to_filter_function(), window: None, clamp: 0, blur: 0, taper: 0, polar: false },
            FilterConfigs::Spline64 => FilterConfig { kernel: FilterFunctions::Spline64.to_filter_function(), window: None, clamp: 0, blur: 0, taper: 0, polar: false },
            FilterConfigs::Box => FilterConfig { kernel: FilterFunctions::Box.to_filter_function(), window: None, clamp: 0, blur: 0, taper: 0, polar: false },
            FilterConfigs::Triangle => FilterConfig { kernel: FilterFunctions::Triangle.to_filter_function(), window: None, clamp: 0, blur: 0, taper: 0, polar: false },
            FilterConfigs::Gaussian => FilterConfig { kernel: FilterFunctions::Gaussian.to_filter_function(), window: None, clamp: 0, blur: 0, taper: 0, polar: false },
            FilterConfigs::Sinc => FilterConfig { kernel: FilterFunctions::Sinc.to_filter_function(), window: None, clamp: 0, blur: 0, taper: 0, polar: false },
            FilterConfigs::Lanczos => FilterConfig { kernel: FilterFunctions::Sinc.to_filter_function(), window: Some(FilterFunctions::Sinc.to_filter_function()), clamp: 0, blur: 0, taper: 0, polar: false },
            FilterConfigs::Ginseng => FilterConfig { kernel: FilterFunctions::Sinc.to_filter_function(), window: Some(FilterFunctions::Jinc.to_filter_function()), clamp: 0, blur: 0, taper: 0, polar: false },
            FilterConfigs::EwaJinc => FilterConfig { kernel: FilterFunctions::Jinc.to_filter_function(), window: None, clamp: 0, blur: 0, taper: 0, polar: true },
            FilterConfigs::EwaLanczos => FilterConfig { kernel: FilterFunctions::Jinc.to_filter_function(), window: Some(FilterFunctions::Jinc.to_filter_function()), clamp: 0, blur: 0, taper: 0, polar: true },
            FilterConfigs::EwaGinseng => FilterConfig { kernel: FilterFunctions::Jinc.to_filter_function(), window: Some(FilterFunctions::Sinc.to_filter_function()), clamp: 0, blur: 0, taper: 0, polar: true },
            FilterConfigs::EwaHann => FilterConfig { kernel: FilterFunctions::Jinc.to_filter_function(), window: Some(FilterFunctions::Hann.to_filter_function()), clamp: 0, blur: 0, taper: 0, polar: true },
            FilterConfigs::Haasnsoft => FilterConfig { kernel: FilterFunctions::Jinc.to_filter_function(), window: Some(FilterFunctions::Hann.to_filter_function()), clamp: 0, blur: 1110, taper: 0, polar: true },
            FilterConfigs::Bicubic => FilterConfig { kernel: FilterFunctions::Bicubic.to_filter_function(), window: None, clamp: 0, blur: 0, taper: 0, polar: false },
            FilterConfigs::CatmullRom => FilterConfig { kernel: FilterFunctions::CatmullRom.to_filter_function(), window: None, clamp: 0, blur: 0, taper: 0, polar: false },
            FilterConfigs::Mitchell => FilterConfig { kernel: FilterFunctions::Mitchell.to_filter_function(), window: None, clamp: 0, blur: 0, taper: 0, polar: false },
            FilterConfigs::Robidoux => FilterConfig { kernel: FilterFunctions::Robidoux.to_filter_function(), window: None, clamp: 0, blur: 0, taper: 0, polar: false },
            FilterConfigs::Robidouxsharp => FilterConfig { kernel: FilterFunctions::Robidouxsharp.to_filter_function(), window: None, clamp: 0, blur: 0, taper: 0, polar: false },
            FilterConfigs::EwaRobidoux => FilterConfig { kernel: FilterFunctions::Robidoux.to_filter_function(), window: None, clamp: 0, blur: 0, taper: 0, polar: true },
            FilterConfigs::EwaRobidouxsharp => FilterConfig { kernel: FilterFunctions::Robidouxsharp.to_filter_function(), window: None, clamp: 0, blur: 0, taper: 0, polar: true },
        }
    }

    /// Two configurations are equal exactly when all their fields
    /// match.
    pub fn filter_config_eq(&self, b: &FilterConfig) -> (r: bool)
        ensures
            r == filter_config_eq_spec(*self, *b),
    {
        let window_eq = match (&self.window, &b.window) {
            (Some(wa), Some(wb)) => wa.filter_function_eq(wb),
            (None, None) => true,
            _ => false,
        };
        self.kernel.filter_function_eq(&b.kernel) && window_eq && self.clamp == b.clamp
            && self.blur == b.blur && self.taper == b.taper && self.polar == b.polar
    }
}

/// Structural equality of filter kernels coincides with value
/// equality: two kernels built from identical field inputs compare
/// equal, and two kernels differing in any field compare unequal.
pub proof fn lemma_filter_function_eq_is_equality(a: FilterFunction, b: FilterFunction)
    ensures
        filter_function_eq_spec(a, b) <==> a == b,
{
    if filter_function_eq_spec(a, b) {
        assert(a.tunable =~= b.tunable);
        assert(a.params =~= b.params);
    }
}

/// Structural equality of filter configurations coincides with value
/// equality: two configurations built from identical field inputs
/// compare equal, and two differing in any field compare unequal.
pub proof fn lemma_filter_config_eq_is_equality(a: FilterConfig, b: FilterConfig)
    ensures
        filter_config_eq_spec(a, b) <==> a == b,
{
    lemma_filter_function_eq_is_equality(a.kernel, b.kernel);
    match (a.window, b.window) {
        (Some(wa), Some(wb)) => {
            lemma_filter_function_eq_is_equality(wa, wb);
        },
        _ => {},
    }
}

/// Parameters for generating a sampled filter: the configuration,
/// the number of look-up-table entries, and layout knobs.
/// `filter_scale` and `cutoff` are in thousandths.
#[derive(Clone, Copy, Debug)]
pub struct FilterParams {
    pub config: FilterConfig,
    pub lut_entries: usize,
    pub filter_scale: i64,
    pub cutoff: i64,
    pub max_row_size: usize,
    pub row_stride_align: usize,
}

impl FilterParams {
    pub fn new(
        config: &FilterConfig,
        lut_entries: usize,
        filter_scale: i64,
        cutoff: i64,
        max_row_size: usize,
        row_stride_align: usize,
    ) -> (r: FilterParams)
        ensures
            r.config == *config,
            r.lut_entries == lut_entries,
            r.filter_scale == filter_scale,
            r.cutoff == cutoff,
            r.max_row_size == max_row_size,
            r.row_stride_align == row_stride_align,
    {
        FilterParams { config: *config, lut_entries, filter_scale, cutoff, max_row_size, row_stride_align }
    }
}

/// A sampled filter generated against a context.  `filter == 0`
/// means destroyed.
pub struct Filter {
    /// Model handle; 0 once destroyed.
    pub filter: u64,
    /// Handle of the owning context.
    pub parent: u64,
    pub params: FilterParams,
}

impl Filter {
    pub open spec fn is_alive(&self) -> bool {
        self.filter != 0
    }

    /// Generates a filter against a live context and registers it as
    /// a child of that context.
    pub fn new(ctx: &mut Context, params: &FilterParams) -> (r: Filter)
        requires
            old(ctx).is_alive(),
            old(ctx).next_child < u64::MAX,
            old(ctx).live_children < u64::MAX,
        ensures
            r.is_alive(),
            r.filter == old(ctx).next_child + 1,
            r.parent == old(ctx).ctx,
            r.params == *params,
            final(ctx).ctx == old(ctx).ctx,
            final(ctx).log_cb == old(ctx).log_cb,
            final(ctx).log_level == old(ctx).log_level,
            final(ctx).live_children == old(ctx).live_children + 1,
            final(ctx).next_child == old(ctx).next_child + 1,
    {
        ctx.next_child = ctx.next_child + 1;
        ctx.live_children = ctx.live_children + 1;
        Filter { filter: ctx.next_child, parent: ctx.ctx, params: *params }
    }

    /// Releases the filter and unregisters it from its context.
    /// Destroying it twice is a safe no-op.
    pub fn destroy(&mut self, ctx: &mut Context)
        requires
            old(self).is_alive() ==> {
                &&& old(ctx).is_alive()
                &&& old(self).parent == old(ctx).ctx
                &&& old(ctx).live_children >= 1
            },
        ensures
            !final(self).is_alive(),
            final(self).filter == 0,
            final(self).parent == old(self).parent,
            final(self).params == old(self).params,
            final(ctx).ctx == old(ctx).ctx,
            final(ctx).log_cb == old(ctx).log_cb,
            final(ctx).log_level == old(ctx).log_level,
            final(ctx).next_child == old(ctx).next_child,
            final(ctx).live_children == if old(self).is_alive() {
                (old(ctx).live_children - 1) as u64
            } else {
                old(ctx).live_children
            },
    {
        if self.filter != 0 {
            ctx.live_children = ctx.live_children - 1;
            self.filter = 0;
        }
    }
}

} // verus!
