//! The graphics instance and the logical device.
//!
//! An instance is a child of the context; a device is a child of the
//! instance and in turn owns every texture, buffer, swapchain and
//! renderer created from it.  Each parent counts its live children,
//! so the strict reverse-creation destruction order (resources, then
//! device, then instance, then context) is the only order the
//! contracts accept.

use vstd::prelude::*;

verus! {

use crate::context::Context;
use crate::gpu::Gpu;

/// Construction parameters for a [`VulkanInstance`]: the extension
/// names the presentation layer demands, optional extensions, and a
/// debug flag.
pub struct VulkanInstanceParams {
    pub debug: bool,
    pub extensions: Vec<String>,
    pub opt_extensions: Vec<String>,
}

impl VulkanInstanceParams {
    pub fn set_debug(&mut self, debug: bool)
        ensures
            final(self).debug == debug,
            final(self).extensions@ == old(self).extensions@,
            final(self).opt_extensions@ == old(self).opt_extensions@,
    {
        self.debug = debug;
    }

    pub fn set_extensions(&mut self, ext: Vec<String>)
        ensures
            final(self).debug == old(self).debug,
            final(self).extensions@ == ext@,
            final(self).opt_extensions@ == old(self).opt_extensions@,
    {
        self.extensions = ext;
    }

    pub fn set_opt_extensions(&mut self, opt: Vec<String>)
        ensures
            final(self).debug == old(self).debug,
            final(self).extensions@ == old(self).extensions@,
            final(self).opt_extensions@ == opt@,
    {
        self.opt_extensions = opt;
    }
}

impl Default for VulkanInstanceParams {
    /// No extensions and no debug layer.
    fn default() -> (r: VulkanInstanceParams)
        ensures
            !r.debug,
            r.extensions@ == Seq::<String>::empty(),
            r.opt_extensions@ == Seq::<String>::empty(),
    {
        VulkanInstanceParams { debug: false, extensions: Vec::new(), opt_extensions: Vec::new() }
    }
}

/// A native-API instance bound to a context.  `inst == 0` means the
/// instance has been destroyed.
pub struct VulkanInstance {
    /// Model handle; 0 once destroyed.
    pub inst: u64,
    /// Handle of the owning context.
    pub parent: u64,
    pub debug: bool,
    /// Devices created from this instance and not yet destroyed.
    pub live_children: u64,
    /// Model handle generator for children.
    pub next_child: u64,
}

impl VulkanInstance {
    pub open spec fn is_alive(&self) -> bool {
        self.inst != 0
    }

    /// Creates an instance against a live context and registers it as
    /// a child of that context.
    pub fn new(ctx: &mut Context, params: &VulkanInstanceParams) -> (r: VulkanInstance)
        requires
            old(ctx).is_alive(),
            old(ctx).next_child < u64::MAX,
            old(ctx).live_children < u64::MAX,
        ensures
            r.is_alive(),
            r.inst == old(ctx).next_child + 1,
            r.parent == old(ctx).ctx,
            r.debug == params.debug,
            r.live_children == 0,
            r.next_child == 0,
            final(ctx).ctx == old(ctx).ctx,
            final(ctx).log_cb == old(ctx).log_cb,
            final(ctx).log_level == old(ctx).log_level,
            final(ctx).live_children == old(ctx).live_children + 1,
            final(ctx).next_child == old(ctx).next_child + 1,
    {
        ctx.next_child = ctx.next_child + 1;
        ctx.live_children = ctx.live_children + 1;
        VulkanInstance {
            inst: ctx.next_child,
            parent: ctx.ctx,
            debug: params.debug,
            live_children: 0,
            next_child: 0,
        }
    }

    /// The raw instance handle, for the caller's surface creation.
    pub fn instance(&self) -> (r: usize)
        requires
            self.is_alive(),
        ensures
            r == self.inst as usize,
    {
        self.inst as usize
    }

    /// Releases the instance and unregisters it from its context.
    /// A live instance may only be destroyed once no device created
    /// from it is left; destroying it twice is a safe no-op.
    pub fn destroy(&mut self, ctx: &mut Context)
        requires
            old(self).is_alive() ==> {
                &&& old(ctx).is_alive()
                &&& old(self).parent == old(ctx).ctx
                &&& old(self).live_children == 0
                &&& old(ctx).live_children >= 1
            },
        ensures
            !final(self).is_alive(),
            final(self).inst == 0,
            final(self).parent == old(self).parent,
            final(self).debug == old(self).debug,
            final(self).live_children == old(self).live_children,
            final(self).next_child == old(self).next_child,
            final(ctx).ctx == old(ctx).ctx,
            final(ctx).log_cb == old(ctx).log_cb,
            final(ctx).log_level == old(ctx).log_level,
            final(ctx).next_child == old(ctx).next_child,
            final(ctx).live_children == if old(self).is_alive() {
                (old(ctx).live_children - 1) as u64
            } else {
                old(ctx).live_children
            },
    {
        if self.inst != 0 {
            ctx.live_children = ctx.live_children - 1;
            self.inst = 0;
        }
    }
}

/// Construction parameters for a [`Vulkan`] device: the instance and
/// surface handles, device selection, scheduling options, and the
/// extent limits the selected device reports (the model takes them as
/// parameters; they cap swapchain and texture sizes).
pub struct VulkanParams {
    pub instance: u64,
    pub surface: u64,
    pub device: u64,
    pub device_name: Vec<u8>,
    pub allow_software: bool,
    pub async_transfer: bool,
    pub async_compute: bool,
    pub queue_count: usize,
    pub max_extent_w: usize,
    pub max_extent_h: usize,
}

impl VulkanParams {
    pub fn set_instance(&mut self, instance: usize)
        ensures
            *final(self) == (VulkanParams { instance: instance as u64, ..*old(self) }),
    {
        self.instance = instance as u64;
    }

    pub fn set_surface(&mut self, surface: u64)
        ensures
            *final(self) == (VulkanParams { surface, ..*old(self) }),
    {
        self.surface = surface;
    }

    pub fn set_device(&mut self, device: u64)
        ensures
            *final(self) == (VulkanParams { device, ..*old(self) }),
    {
        self.device = device;
    }

    pub fn set_device_name(&mut self, dev_name: &[u8])
        ensures
            final(self).device_name@ == dev_name@,
            final(self).instance == old(self).instance,
            final(self).surface == old(self).surface,
            final(self).device == old(self).device,
            final(self).allow_software == old(self).allow_software,
            final(self).async_transfer == old(self).async_transfer,
            final(self).async_compute == old(self).async_compute,
            final(self).queue_count == old(self).queue_count,
            final(self).max_extent_w == old(self).max_extent_w,
            final(self).max_extent_h == old(self).max_extent_h,
    {
        let mut owned: Vec<u8> = Vec::new();
        let mut i: usize = 0;
        while i < dev_name.len()
            invariant
                i <= dev_name.len(),
                owned@ == dev_name@.subrange(0, i as int),
            decreases dev_name.len() - i,
        {
            owned.push(dev_name[i]);
            i = i + 1;
        }
        proof {
            assert(owned@ =~= dev_name@);
        }
        self.device_name = owned;
    }

    pub fn set_allow_software(&mut self, allow_software: bool)
        ensures
            *final(self) == (VulkanParams { allow_software, ..*old(self) }),
    {
        self.allow_software = allow_software;
    }

    pub fn set_async_transfer(&mut self, async_transfer: bool)
        ensures
            *final(self) == (VulkanParams { async_transfer, ..*old(self) }),
    {
        self.async_transfer = async_transfer;
    }

    pub fn set_async_compute(&mut self, async_compute: bool)
        ensures
            *final(self) == (VulkanParams { async_compute, ..*old(self) }),
    {
        self.async_compute = async_compute;
    }

    pub fn set_queue_count(&mut self, queue_count: usize)
        ensures
            *final(self) == (VulkanParams { queue_count, ..*old(self) }),
    {
        self.queue_count = queue_count;
    }
}

impl Default for VulkanParams {
    /// Automatic device selection with a 4096x4096 extent limit.
    fn default() -> (r: VulkanParams)
        ensures
            r.instance == 0,
            r.surface == 0,
            r.device == 0,
            r.device_name@ == Seq::<u8>::empty(),
            !r.allow_software,
            !r.async_transfer,
            !r.async_compute,
            r.queue_count == 1,
            r.max_extent_w == 4096,
            r.max_extent_h == 4096,
    {
        VulkanParams {
            instance: 0,
            surface: 0,
            device: 0,
            device_name: Vec::new(),
            allow_software: false,
            async_transfer: false,
            async_compute: false,
            queue_count: 1,
            max_extent_w: 4096,
            max_extent_h: 4096,
        }
    }
}

/// A logical GPU device bound to an instance and a surface.  It owns
/// every texture, buffer, swapchain and renderer created from it, and
/// counts them so it cannot be destroyed while one is alive.
pub struct Vulkan {
    /// Model handle; 0 once destroyed.
    pub vk: u64,
    /// Handle of the owning instance.
    pub parent: u64,
    pub surface: u64,
    /// Largest texture / swapchain extent the device supports.
    pub max_extent_w: usize,
    pub max_extent_h: usize,
    /// Resources created from this device and not yet destroyed.
    pub live_children: u64,
    /// Model handle generator for resources.
    pub next_child: u64,
}

impl Vulkan {
    pub open spec fn is_alive(&self) -> bool {
        self.vk != 0
    }

    /// True when a resource with the given margin can still be
    /// registered against this device.
    pub open spec fn can_create(&self) -> bool {
        &&& self.is_alive()
        &&& self.next_child < u64::MAX
        &&& self.live_children < u64::MAX
    }

    /// Creates a logical device against a live context and a live
    /// instance, and registers it as a child of the instance.
    pub fn new(ctx: &Context, inst: &mut VulkanInstance, params: &VulkanParams) -> (r: Vulkan)
        requires
            ctx.is_alive(),
            old(inst).is_alive(),
            old(inst).next_child < u64::MAX,
            old(inst).live_children < u64::MAX,
        ensures
            r.is_alive(),
            r.vk == old(inst).next_child + 1,
            r.parent == old(inst).inst,
            r.surface == params.surface,
            r.max_extent_w == params.max_extent_w,
            r.max_extent_h == params.max_extent_h,
            r.live_children == 0,
            r.next_child == 0,
            final(inst).inst == old(inst).inst,
            final(inst).parent == old(inst).parent,
            final(inst).debug == old(inst).debug,
            final(inst).live_children == old(inst).live_children + 1,
            final(inst).next_child == old(inst).next_child + 1,
    {
        inst.next_child = inst.next_child + 1;
        inst.live_children = inst.live_children + 1;
        Vulkan {
            vk: inst.next_child,
            parent: inst.inst,
            surface: params.surface,
            max_extent_w: params.max_extent_w,
            max_extent_h: params.max_extent_h,
            live_children: 0,
            next_child: 0,
        }
    }

    /// The non-owning GPU capability view used by resource-creation
    /// calls.  It is valid only while this device is alive.
    pub fn gpu(&self) -> (r: Gpu)
        requires
            self.is_alive(),
        ensures
            r.gpu == self.vk,
            r.max_extent_w == self.max_extent_w,
            r.max_extent_h == self.max_extent_h,
    {
        Gpu { gpu: self.vk, max_extent_w: self.max_extent_w, max_extent_h: self.max_extent_h }
    }

    /// Releases the device and unregisters it from its instance.  A
    /// live device may only be destroyed once every resource created
    /// from it has been destroyed; destroying it twice is a safe
    /// no-op.
    pub fn destroy(&mut self, inst: &mut VulkanInstance)
        requires
            old(self).is_alive() ==> {
                &&& old(inst).is_alive()
                &&& old(self).parent == old(inst).inst
                &&& old(self).live_children == 0
                &&& old(inst).live_children >= 1
            },
        ensures
            !final(self).is_alive(),
            final(self).vk == 0,
            final(self).parent == old(self).parent,
            final(self).surface == old(self).surface,
            final(self).max_extent_w == old(self).max_extent_w,
            final(self).max_extent_h == old(self).max_extent_h,
            final(self).live_children == old(self).live_children,
            final(self).next_child == old(self).next_child,
            final(inst).inst == old(inst).inst,
            final(inst).parent == old(inst).parent,
            final(inst).debug == old(inst).debug,
            final(inst).next_child == old(inst).next_child,
            final(inst).live_children == if old(self).is_alive() {
                (old(inst).live_children - 1) as u64
            } else {
                old(inst).live_children
            },
    {
        if self.vk != 0 {
            inst.live_children = inst.live_children - 1;
            self.vk = 0;
        }
    }
}

} // verus!
