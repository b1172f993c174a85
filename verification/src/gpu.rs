//! Device-owned resources: the GPU capability view, linear buffers
//! and textures.
//!
//! Every resource records the device it belongs to and registers
//! itself with that device at creation.  Destruction nulls the handle
//! and unregisters the resource; destroying an already-destroyed
//! resource is a safe no-op, so the handle is observed null both
//! before and after the second call.

use vstd::prelude::*;

verus! {

use crate::vulkan::Vulkan;

/// Sample interpretation of a pixel format.
#[allow(non_camel_case_types)]
#[derive(Clone, Copy, Debug, PartialEq, Eq, Structural)]
pub enum FmtType {
    FMT_UNKNOWN,
    FMT_UNORM,
    FMT_SNORM,
    FMT_UINT,
    FMT_SINT,
    FMT_FLOAT,
    FMT_TYPE_COUNT,
}

/// The role a buffer is created for.
#[allow(non_camel_case_types)]
#[derive(Clone, Copy, Debug, PartialEq, Eq, Structural)]
pub enum BufType {
    BUF_INVALID,
    BUF_TEX_TRANSFER,
    BUF_UNIFORM,
    BUF_STORAGE,
    BUF_TEXEL_UNIFORM,
    BUF_TEXEL_STORAGE,
    BUF_PRIVATE,
    BUF_TYPE_COUNT,
}

/// The kind of cross-process share handle a resource can carry.
#[allow(non_camel_case_types)]
#[derive(Clone, Copy, Debug, PartialEq, Eq, Structural)]
pub enum HandleType {
    HANDLE_FD,
    HANDLE_WIN32,
    HANDLE_WIN32_KMT,
    HANDLE_DMA_BUF,
}

/// Which memory a buffer is placed in.
#[allow(non_camel_case_types)]
#[derive(Clone, Copy, Debug, PartialEq, Eq, Structural)]
pub enum BufMemType {
    BUF_MEM_AUTO,
    BUF_MEM_HOST,
    BUF_MEM_DEVICE,
}

/// How a texture is read when sampled.
#[allow(non_camel_case_types)]
#[derive(Clone, Copy, Debug, PartialEq, Eq, Structural)]
pub enum TexSampleMode {
    SAMPLE_NEAREST,
    SAMPLE_LINEAR,
}

/// How out-of-range texture coordinates are resolved.
#[allow(non_camel_case_types)]
#[derive(Clone, Copy, Debug, PartialEq, Eq, Structural)]
pub enum TexAddressMode {
    ADDRESS_CLAMP,
    ADDRESS_REPEAT,
    ADDRESS_MIRROR,
}

/// A cross-process memory share description.
#[derive(Clone, Copy, Debug, PartialEq, Eq, Structural)]
pub struct SharedMem {
    pub handle: u64,
    pub size: usize,
    pub offset: usize,
}

impl Default for SharedMem {
    /// No shared memory attached.
    fn default() -> (r: SharedMem)
        ensures
            r == (SharedMem { handle: 0, size: 0, offset: 0 }),
    {
        SharedMem { handle: 0, size: 0, offset: 0 }
    }
}

/// The non-owning GPU capability view handed out by a live device.
/// It carries the owning device's handle and extent limits; it is
/// valid only while that device is alive, and only the device itself
/// can release the resources created through it.
#[derive(Clone, Copy, Debug, PartialEq, Eq, Structural)]
pub struct Gpu {
    /// Handle of the owning device.
    pub gpu: u64,
    pub max_extent_w: usize,
    pub max_extent_h: usize,
}

impl Gpu {
    pub fn new(vk: &Vulkan) -> (r: Gpu)
        requires
            vk.is_alive(),
        ensures
            r.gpu == vk.vk,
            r.max_extent_w == vk.max_extent_w,
            r.max_extent_h == vk.max_extent_h,
    {
        Gpu { gpu: vk.vk, max_extent_w: vk.max_extent_w, max_extent_h: vk.max_extent_h }
    }

    /// Flushes queued work to the device.  All wrapper calls already
    /// block until their own completion signal, so flushing has no
    /// observable effect in this model.
    pub fn gpu_flush(&self) {
    }

    /// Waits for the device to go idle.  As with [`Gpu::gpu_flush`],
    /// this is a synchronization point with no observable effect in
    /// this model.
    pub fn gpu_finish(&self) {
    }
}

/// Construction parameters for a [`Buf`].
pub struct BufParams {
    pub type_: BufType,
    pub size: usize,
    pub host_mapped: bool,
    pub host_writable: bool,
    pub host_readable: bool,
    pub memory_type: BufMemType,
    pub format: FmtType,
    pub handle_type: HandleType,
    pub initial_data: Vec<u8>,
}

impl Default for BufParams {
    /// An empty, invalid buffer description that callers fill in.
    fn default() -> (r: BufParams)
        ensures
            r.type_ == BufType::BUF_INVALID,
            r.size == 0,
            !r.host_mapped,
            !r.host_writable,
            !r.host_readable,
            r.memory_type == BufMemType::BUF_MEM_AUTO,
            r.format == FmtType::FMT_UNKNOWN,
            r.handle_type == HandleType::HANDLE_FD,
            r.initial_data@ == Seq::<u8>::empty(),
    {
        BufParams {
            type_: BufType::BUF_INVALID,
            size: 0,
            host_mapped: false,
            host_writable: false,
            host_readable: false,
            memory_type: BufMemType::BUF_MEM_AUTO,
            format: FmtType::FMT_UNKNOWN,
            handle_type: HandleType::HANDLE_FD,
            initial_data: Vec::new(),
        }
    }
}

/// A device-owned linear buffer.  `buf == 0` means destroyed.
pub struct Buf {
    /// Model handle; 0 once destroyed.
    pub buf: u64,
    /// Handle of the owning device.
    pub gpu: u64,
    pub type_: BufType,
    pub size: usize,
    pub memory_type: BufMemType,
}

impl Buf {
    pub open spec fn is_alive(&self) -> bool {
        self.buf != 0
    }

    /// Creates a buffer against a live device and registers it as a
    /// child of that device.
    pub fn new(vk: &mut Vulkan, params: &BufParams) -> (r: Buf)
        requires
            old(vk).can_create(),
        ensures
            r.is_alive(),
            r.buf == old(vk).next_child + 1,
            r.gpu == old(vk).vk,
            r.type_ == params.type_,
            r.size == params.size,
            r.memory_type == params.memory_type,
            final(vk).vk == old(vk).vk,
            final(vk).parent == old(vk).parent,
            final(vk).surface == old(vk).surface,
            final(vk).max_extent_w == old(vk).max_extent_w,
            final(vk).max_extent_h == old(vk).max_extent_h,
            final(vk).live_children == old(vk).live_children + 1,
            final(vk).next_child == old(vk).next_child + 1,
    {
        vk.next_child = vk.next_child + 1;
        vk.live_children = vk.live_children + 1;
        Buf {
            buf: vk.next_child,
            gpu: vk.vk,
            type_: params.type_,
            size: params.size,
            memory_type: params.memory_type,
        }
    }

    /// Releases the buffer and unregisters it from its device.  The
    /// handle is null afterwards, and destroying the buffer again is
    /// a safe no-op.
    pub fn destroy(&mut self, vk: &mut Vulkan)
        requires
            old(self).is_alive() ==> {
                &&& old(vk).is_alive()
                &&& old(self).gpu == old(vk).vk
                &&& old(vk).live_children >= 1
            },
        ensures
            !final(self).is_alive(),
            final(self).buf == 0,
            final(self).gpu == old(self).gpu,
            final(self).type_ == old(self).type_,
            final(self).size == old(self).size,
            final(self).memory_type == old(self).memory_type,
            final(vk).vk == old(vk).vk,
            final(vk).parent == old(vk).parent,
            final(vk).surface == old(vk).surface,
            final(vk).max_extent_w == old(vk).max_extent_w,
            final(vk).max_extent_h == old(vk).max_extent_h,
            final(vk).next_child == old(vk).next_child,
            final(vk).live_children == if old(self).is_alive() {
                (old(vk).live_children - 1) as u64
            } else {
                old(vk).live_children
            },
    {
        if self.buf != 0 {
            vk.live_children = vk.live_children - 1;
            self.buf = 0;
        }
    }
}

/// Construction parameters for a [`Tex`]: extent, pixel format and
/// capability flags.
pub struct TexParams {
    pub w: usize,
    pub h: usize,
    pub d: usize,
    pub format: FmtType,
    pub sampleable: bool,
    pub renderable: bool,
    pub storable: bool,
    pub blit_src: bool,
    pub blit_dst: bool,
    pub host_writable: bool,
    pub host_readable: bool,
    pub sample_mode: TexSampleMode,
    pub address_mode: TexAddressMode,
    pub export_handle: HandleType,
    pub import_handle: HandleType,
    pub shared_mem: SharedMem,
    pub initial_data: Vec<u8>,
}

impl Default for TexParams {
    /// A zero-extent description with every capability disabled that
    /// callers fill in.
    fn default() -> (r: TexParams)
        ensures
            r.w == 0 && r.h == 0 && r.d == 0,
            r.format == FmtType::FMT_UNKNOWN,
            !r.sampleable && !r.renderable && !r.storable,
            !r.blit_src && !r.blit_dst,
            !r.host_writable && !r.host_readable,
            r.sample_mode == TexSampleMode::SAMPLE_NEAREST,
            r.address_mode == TexAddressMode::ADDRESS_CLAMP,
            r.export_handle == HandleType::HANDLE_FD,
            r.import_handle == HandleType::HANDLE_FD,
            r.shared_mem == (SharedMem { handle: 0, size: 0, offset: 0 }),
            r.initial_data@ == Seq::<u8>::empty(),
    {
        TexParams {
            w: 0,
            h: 0,
            d: 0,
            format: FmtType::FMT_UNKNOWN,
            sampleable: false,
            renderable: false,
            storable: false,
            blit_src: false,
            blit_dst: false,
            host_writable: false,
            host_readable: false,
            sample_mode: TexSampleMode::SAMPLE_NEAREST,
            address_mode: TexAddressMode::ADDRESS_CLAMP,
            export_handle: HandleType::HANDLE_FD,
            import_handle: HandleType::HANDLE_FD,
            shared_mem: SharedMem { handle: 0, size: 0, offset: 0 },
            initial_data: Vec::new(),
        }
    }
}

/// A device-owned texture.  `tex == 0` means the texture holds no
/// native image (either never created or already destroyed).
#[derive(Clone, Copy, Debug, PartialEq, Eq, Structural)]
pub struct Tex {
    /// Model handle; 0 once destroyed.
    pub tex: u64,
    /// Handle of the owning device.
    pub gpu: u64,
    pub w: usize,
    pub h: usize,
    pub d: usize,
    pub format: FmtType,
    pub sampleable: bool,
    pub renderable: bool,
    pub storable: bool,
    pub blit_src: bool,
    pub blit_dst: bool,
    pub host_writable: bool,
    pub host_readable: bool,
    pub sample_mode: TexSampleMode,
    pub address_mode: TexAddressMode,
}

impl Tex {
    pub open spec fn is_alive(&self) -> bool {
        self.tex != 0
    }

    /// A null texture bound to a device, to be filled by an upload.
    /// It owns nothing, so it does not count as a live resource.
    pub fn default(gpu: &Gpu) -> (r: Tex)
        ensures
            !r.is_alive(),
            r == (Tex {
                tex: 0,
                gpu: gpu.gpu,
                w: 0,
                h: 0,
                d: 0,
                format: FmtType::FMT_UNKNOWN,
                sampleable: false,
                renderable: false,
                storable: false,
                blit_src: false,
                blit_dst: false,
                host_writable: false,
                host_readable: false,
                sample_mode: TexSampleMode::SAMPLE_NEAREST,
                address_mode: TexAddressMode::ADDRESS_CLAMP,
            }),
    {
        Tex {
            tex: 0,
            gpu: gpu.gpu,
            w: 0,
            h: 0,
            d: 0,
            format: FmtType::FMT_UNKNOWN,
            sampleable: false,
            renderable: false,
            storable: false,
            blit_src: false,
            blit_dst: false,
            host_writable: false,
            host_readable: false,
            sample_mode: TexSampleMode::SAMPLE_NEAREST,
            address_mode: TexAddressMode::ADDRESS_CLAMP,
        }
    }

    /// Creates a texture against a live device and registers it as a
    /// child of that device.  The extent must be positive and within
    /// the device's limits; a request the device cannot satisfy is a
    /// programming error, not a recoverable failure.
    pub fn new(vk: &mut Vulkan, params: &TexParams) -> (r: Tex)
        requires
            old(vk).can_create(),
            1 <= params.w <= old(vk).max_extent_w,
            params.h <= old(vk).max_extent_h,
        ensures
            r.is_alive(),
            r.tex == old(vk).next_child + 1,
            r.gpu == old(vk).vk,
            r.w == params.w,
            r.h == params.h,
            r.d == params.d,
            r.format == params.format,
            r.sampleable == params.sampleable,
            r.renderable == params.renderable,
            r.storable == params.storable,
            r.blit_src == params.blit_src,
            r.blit_dst == params.blit_dst,
            r.host_writable == params.host_writable,
            r.host_readable == params.host_readable,
            r.sample_mode == params.sample_mode,
            r.address_mode == params.address_mode,
            final(vk).vk == old(vk).vk,
            final(vk).parent == old(vk).parent,
            final(vk).surface == old(vk).surface,
            final(vk).max_extent_w == old(vk).max_extent_w,
            final(vk).max_extent_h == old(vk).max_extent_h,
            final(vk).live_children == old(vk).live_children + 1,
            final(vk).next_child == old(vk).next_child + 1,
    {
        vk.next_child = vk.next_child + 1;
        vk.live_children = vk.live_children + 1;
        Tex {
            tex: vk.next_child,
            gpu: vk.vk,
            w: params.w,
            h: params.h,
            d: params.d,
            format: params.format,
            sampleable: params.sampleable,
            renderable: params.renderable,
            storable: params.storable,
            blit_src: params.blit_src,
            blit_dst: params.blit_dst,
            host_writable: params.host_writable,
            host_readable: params.host_readable,
            sample_mode: params.sample_mode,
            address_mode: params.address_mode,
        }
    }

    /// Releases the texture and unregisters it from its device.  The
    /// handle is null afterwards, and destroying the texture again is
    /// a safe no-op.
    pub fn destroy(&mut self, vk: &mut Vulkan)
        requires
            old(self).is_alive() ==> {
                &&& old(vk).is_alive()
                &&& old(self).gpu == old(vk).vk
                &&& old(vk).live_children >= 1
            },
        ensures
            !final(self).is_alive(),
            *final(self) == (Tex { tex: 0, ..*old(self) }),
            final(vk).vk == old(vk).vk,
            final(vk).parent == old(vk).parent,
            final(vk).surface == old(vk).surface,
            final(vk).max_extent_w == old(vk).max_extent_w,
            final(vk).max_extent_h == old(vk).max_extent_h,
            final(vk).next_child == old(vk).next_child,
            final(vk).live_children == if old(self).is_alive() {
                (old(vk).live_children - 1) as u64
            } else {
                old(vk).live_children
            },
    {
        if self.tex != 0 {
            vk.live_children = vk.live_children - 1;
            self.tex = 0;
        }
    }
}

} // verus!
