//! AMDGPU kernel UAPI (`include/uapi/drm/amdgpu_drm.h`): request numbers,
//! flags and argument structures, and the arithmetic of buffer placement,
//! fence sequences and wait deadlines.
//!
//! Field order and widths mirror the kernel header; request numbers encode
//! the argument size.
#![allow(non_camel_case_types)]
use vstd::prelude::*;

use crate::drm::{ioctl_number, IOC_READ, IOC_WRITE, DRM_IOCTL_BASE};

verus! {

pub const DRM_COMMAND_BASE: u64 = 0x40;

pub const DRM_AMDGPU_GEM_CREATE: u64 = 0x00;

pub const DRM_AMDGPU_GEM_MMAP: u64 = 0x01;

pub const DRM_AMDGPU_CTX: u64 = 0x02;

pub const DRM_AMDGPU_CS: u64 = 0x04;

pub const DRM_AMDGPU_INFO: u64 = 0x05;

pub const DRM_AMDGPU_GEM_VA: u64 = 0x08;

pub const DRM_AMDGPU_WAIT_CS: u64 = 0x09;

/// `DRM_IOWR(.., union drm_amdgpu_gem_create)`: the union is the 32-byte `in`.
pub const DRM_IOCTL_AMDGPU_GEM_CREATE: u64 = 0xc020_6440;

/// `DRM_IOWR(.., union drm_amdgpu_gem_mmap)` (8 bytes).
pub const DRM_IOCTL_AMDGPU_GEM_MMAP: u64 = 0xc008_6441;

/// `DRM_IOWR(.., union drm_amdgpu_ctx)` (16 bytes).
pub const DRM_IOCTL_AMDGPU_CTX: u64 = 0xc010_6442;

/// `DRM_IOWR(.., union drm_amdgpu_cs)` (24 bytes).
pub const DRM_IOCTL_AMDGPU_CS: u64 = 0xc018_6444;

/// `DRM_IOW(.., struct drm_amdgpu_info)` (32 bytes).
pub const DRM_IOCTL_AMDGPU_INFO: u64 = 0x4020_6445;

/// `DRM_IOW(.., struct drm_amdgpu_gem_va)` (64 bytes).
pub const DRM_IOCTL_AMDGPU_GEM_VA: u64 = 0x4040_6448;

/// `DRM_IOWR(.., union drm_amdgpu_wait_cs)` (32 bytes).
pub const DRM_IOCTL_AMDGPU_WAIT_CS: u64 = 0xc020_6449;

/// Each AMDGPU request number is the `_IOC` encoding of its direction,
/// command number and argument size.
pub proof fn lemma_amdgpu_ioctl_numbers()
    ensures
        DRM_IOCTL_AMDGPU_GEM_CREATE == ioctl_number(
            IOC_READ | IOC_WRITE,
            (DRM_COMMAND_BASE + DRM_AMDGPU_GEM_CREATE) as u64,
            DRM_IOCTL_BASE,
            32,
        ),
        DRM_IOCTL_AMDGPU_GEM_MMAP == ioctl_number(
            IOC_READ | IOC_WRITE,
            (DRM_COMMAND_BASE + DRM_AMDGPU_GEM_MMAP) as u64,
            DRM_IOCTL_BASE,
            8,
        ),
        DRM_IOCTL_AMDGPU_CTX == ioctl_number(
            IOC_READ | IOC_WRITE,
            (DRM_COMMAND_BASE + DRM_AMDGPU_CTX) as u64,
            DRM_IOCTL_BASE,
            16,
        ),
        DRM_IOCTL_AMDGPU_CS == ioctl_number(
            IOC_READ | IOC_WRITE,
            (DRM_COMMAND_BASE + DRM_AMDGPU_CS) as u64,
            DRM_IOCTL_BASE,
            24,
        ),
        DRM_IOCTL_AMDGPU_INFO == ioctl_number(
            IOC_WRITE,
            (DRM_COMMAND_BASE + DRM_AMDGPU_INFO) as u64,
            DRM_IOCTL_BASE,
            32,
        ),
        DRM_IOCTL_AMDGPU_GEM_VA == ioctl_number(
            IOC_WRITE,
            (DRM_COMMAND_BASE + DRM_AMDGPU_GEM_VA) as u64,
            DRM_IOCTL_BASE,
            64,
        ),
        DRM_IOCTL_AMDGPU_WAIT_CS == ioctl_number(
            IOC_READ | IOC_WRITE,
            (DRM_COMMAND_BASE + DRM_AMDGPU_WAIT_CS) as u64,
            DRM_IOCTL_BASE,
            32,
        ),
{
    assert(IOC_READ | IOC_WRITE == 3) by (bit_vector);
    assert(0xc020_6440u64 == ioctl_number(3, 0x40, 0x64, 32)) by (bit_vector);
    assert(0xc008_6441u64 == ioctl_number(3, 0x41, 0x64, 8)) by (bit_vector);
    assert(0xc010_6442u64 == ioctl_number(3, 0x42, 0x64, 16)) by (bit_vector);
    assert(0xc018_6444u64 == ioctl_number(3, 0x44, 0x64, 24)) by (bit_vector);
    assert(0x4020_6445u64 == ioctl_number(1, 0x45, 0x64, 32)) by (bit_vector);
    assert(0x4040_6448u64 == ioctl_number(1, 0x48, 0x64, 64)) by (bit_vector);
    assert(0xc020_6449u64 == ioctl_number(3, 0x49, 0x64, 32)) by (bit_vector);
}

pub const AMDGPU_GEM_DOMAIN_CPU: u64 = 0x1;

pub const AMDGPU_GEM_DOMAIN_GTT: u64 = 0x2;

pub const AMDGPU_GEM_DOMAIN_VRAM: u64 = 0x4;

pub const AMDGPU_GEM_CREATE_CPU_ACCESS_REQUIRED: u64 = 1 << 0;

pub const AMDGPU_GEM_CREATE_NO_CPU_ACCESS: u64 = 1 << 1;

pub const AMDGPU_GEM_CREATE_CPU_GTT_USWC: u64 = 1 << 2;

pub const AMDGPU_GEM_CREATE_VRAM_CLEARED: u64 = 1 << 3;

pub const AMDGPU_VA_OP_MAP: u32 = 1;

pub const AMDGPU_VA_OP_UNMAP: u32 = 2;

pub const AMDGPU_VM_PAGE_READABLE: u32 = 1 << 1;

pub const AMDGPU_VM_PAGE_WRITEABLE: u32 = 1 << 2;

pub const AMDGPU_VM_PAGE_EXECUTABLE: u32 = 1 << 3;

pub const AMDGPU_CTX_OP_ALLOC_CTX: u32 = 1;

pub const AMDGPU_CTX_OP_FREE_CTX: u32 = 2;

pub const AMDGPU_CTX_OP_QUERY_STATE2: u32 = 4;

pub const AMDGPU_CTX_QUERY2_FLAGS_RESET: u64 = 1 << 0;

pub const AMDGPU_CTX_QUERY2_FLAGS_VRAMLOST: u64 = 1 << 1;

pub const AMDGPU_CTX_QUERY2_FLAGS_GUILTY: u64 = 1 << 2;

pub const AMDGPU_HW_IP_GFX: u32 = 0;

pub const AMDGPU_HW_IP_COMPUTE: u32 = 1;

pub const AMDGPU_HW_IP_DMA: u32 = 2;

pub const AMDGPU_INFO_HW_IP_INFO: u32 = 0x02;

pub const AMDGPU_INFO_VRAM_GTT: u32 = 0x14;

pub const AMDGPU_INFO_DEV_INFO: u32 = 0x16;

pub const AMDGPU_CHUNK_ID_IB: u32 = 0x01;

pub const AMDGPU_CHUNK_ID_BO_HANDLES: u32 = 0x06;

/// Ask the kernel to invalidate/write back GPU caches before the IB runs.
pub const AMDGPU_IB_FLAG_EMIT_MEM_SYNC: u32 = 1 << 6;

pub const AMDGPU_FAMILY_NV: u32 = 143;

pub const AMDGPU_FAMILY_VGH: u32 = 144;

pub const AMDGPU_FAMILY_YC: u32 = 146;

pub const AMDGPU_FAMILY_GC_10_3_6: u32 = 149;

pub const AMDGPU_FAMILY_GC_10_3_7: u32 = 151;

#[derive(Clone, Copy, Default, Debug)]
pub struct drm_amdgpu_gem_create_in {
    pub bo_size: u64,
    pub alignment: u64,
    pub domains: u64,
    pub domain_flags: u64,
}

#[derive(Clone, Copy, Default, Debug)]
pub struct drm_amdgpu_gem_mmap_in {
    pub handle: u32,
    pub _pad: u32,
}

#[derive(Clone, Copy, Default, Debug)]
pub struct drm_amdgpu_ctx_in {
    pub op: u32,
    pub flags: u32,
    pub ctx_id: u32,
    pub priority: i32,
}

/// `drm_amdgpu_ctx_out.state` (query views of the ctx union).
#[derive(Clone, Copy, Default, Debug)]
pub struct drm_amdgpu_ctx_out_state {
    pub flags: u64,
    pub hangs: u32,
    pub reset_status: u32,
}

#[derive(Clone, Copy, Default, Debug)]
pub struct drm_amdgpu_bo_list_in {
    pub operation: u32,
    pub list_handle: u32,
    pub bo_number: u32,
    pub bo_info_size: u32,
    pub bo_info_ptr: u64,
}

#[derive(Clone, Copy, Default, Debug)]
pub struct drm_amdgpu_bo_list_entry {
    pub bo_handle: u32,
    pub bo_priority: u32,
}

#[derive(Clone, Copy, Default, Debug)]
pub struct drm_amdgpu_gem_va {
    pub handle: u32,
    pub _pad: u32,
    pub operation: u32,
    pub flags: u32,
    pub va_address: u64,
    pub offset_in_bo: u64,
    pub map_size: u64,
    pub vm_timeline_point: u64,
    pub vm_timeline_syncobj_out: u32,
    pub num_syncobj_handles: u32,
    pub input_fence_syncobj_handles: u64,
}

#[derive(Clone, Copy, Default, Debug)]
pub struct drm_amdgpu_info {
    pub return_pointer: u64,
    pub return_size: u32,
    pub query: u32,
    /// Query-specific union (largest member: `read_mmr_reg`, 4 x u32).
    pub query_data: [u32; 4],
}

#[derive(Clone, Copy, Default, Debug)]
pub struct drm_amdgpu_info_hw_ip {
    pub hw_ip_version_major: u32,
    pub hw_ip_version_minor: u32,
    pub capabilities_flags: u64,
    pub ib_start_alignment: u32,
    pub ib_size_alignment: u32,
    pub available_rings: u32,
    pub ip_discovery_version: u32,
}

#[derive(Clone, Copy, Default, Debug)]
pub struct drm_amdgpu_info_vram_gtt {
    pub vram_size: u64,
    pub vram_cpu_accessible_size: u64,
    pub gtt_size: u64,
}

#[derive(Clone, Copy, Debug)]
pub struct drm_amdgpu_info_device {
    pub device_id: u32,
    pub chip_rev: u32,
    pub external_rev: u32,
    pub pci_rev: u32,
    pub family: u32,
    pub num_shader_engines: u32,
    pub num_shader_arrays_per_engine: u32,
    pub gpu_counter_freq: u32,
    pub max_engine_clock: u64,
    pub max_memory_clock: u64,
    pub cu_active_number: u32,
    pub cu_ao_mask: u32,
    pub cu_bitmap: [[u32; 4]; 4],
    pub enabled_rb_pipes_mask: u32,
    pub num_rb_pipes: u32,
    pub num_hw_gfx_contexts: u32,
    pub pcie_gen: u32,
    pub ids_flags: u64,
    pub virtual_address_offset: u64,
    pub virtual_address_max: u64,
    pub virtual_address_alignment: u32,
    pub pte_fragment_size: u32,
    pub gart_page_size: u32,
    pub ce_ram_size: u32,
    pub vram_type: u32,
    pub vram_bit_width: u32,
    pub vce_harvest_config: u32,
    pub gc_double_offchip_lds_buf: u32,
    pub prim_buf_gpu_addr: u64,
    pub pos_buf_gpu_addr: u64,
    pub cntl_sb_buf_gpu_addr: u64,
    pub param_buf_gpu_addr: u64,
    pub prim_buf_size: u32,
    pub pos_buf_size: u32,
    pub cntl_sb_buf_size: u32,
    pub param_buf_size: u32,
    pub wave_front_size: u32,
    pub num_shader_visible_vgprs: u32,
    pub num_cu_per_sh: u32,
    pub num_tcc_blocks: u32,
    pub gs_vgt_table_depth: u32,
    pub gs_prim_buffer_depth: u32,
    pub max_gs_waves_per_vgt: u32,
    pub pcie_num_lanes: u32,
    pub cu_ao_bitmap: [[u32; 4]; 4],
    pub high_va_offset: u64,
    pub high_va_max: u64,
    pub pa_sc_tile_steering_override: u32,
    pub tcc_disabled_mask: u64,
    pub min_engine_clock: u64,
    pub min_memory_clock: u64,
}

impl Default for drm_amdgpu_info_device {
    fn default() -> (r: Self)
        ensures
            r.device_id == 0 && r.family == 0 && r.virtual_address_offset == 0,
    {
        drm_amdgpu_info_device {
            device_id: 0,
            chip_rev: 0,
            external_rev: 0,
            pci_rev: 0,
            family: 0,
            num_shader_engines: 0,
            num_shader_arrays_per_engine: 0,
            gpu_counter_freq: 0,
            max_engine_clock: 0,
            max_memory_clock: 0,
            cu_active_number: 0,
            cu_ao_mask: 0,
            cu_bitmap: [[0, 0, 0, 0], [0, 0, 0, 0], [0, 0, 0, 0], [0, 0, 0, 0]],
            enabled_rb_pipes_mask: 0,
            num_rb_pipes: 0,
            num_hw_gfx_contexts: 0,
            pcie_gen: 0,
            ids_flags: 0,
            virtual_address_offset: 0,
            virtual_address_max: 0,
            virtual_address_alignment: 0,
            pte_fragment_size: 0,
            gart_page_size: 0,
            ce_ram_size: 0,
            vram_type: 0,
            vram_bit_width: 0,
            vce_harvest_config: 0,
            gc_double_offchip_lds_buf: 0,
            prim_buf_gpu_addr: 0,
            pos_buf_gpu_addr: 0,
            cntl_sb_buf_gpu_addr: 0,
            param_buf_gpu_addr: 0,
            prim_buf_size: 0,
            pos_buf_size: 0,
            cntl_sb_buf_size: 0,
            param_buf_size: 0,
            wave_front_size: 0,
            num_shader_visible_vgprs: 0,
            num_cu_per_sh: 0,
            num_tcc_blocks: 0,
            gs_vgt_table_depth: 0,
            gs_prim_buffer_depth: 0,
            max_gs_waves_per_vgt: 0,
            pcie_num_lanes: 0,
            cu_ao_bitmap: [[0, 0, 0, 0], [0, 0, 0, 0], [0, 0, 0, 0], [0, 0, 0, 0]],
            high_va_offset: 0,
            high_va_max: 0,
            pa_sc_tile_steering_override: 0,
            tcc_disabled_mask: 0,
            min_engine_clock: 0,
            min_memory_clock: 0,
        }
    }
}

#[derive(Clone, Copy, Default, Debug)]
pub struct drm_amdgpu_cs_chunk {
    pub chunk_id: u32,
    pub length_dw: u32,
    pub chunk_data: u64,
}

#[derive(Clone, Copy, Default, Debug)]
pub struct drm_amdgpu_cs_in {
    pub ctx_id: u32,
    pub bo_list_handle: u32,
    pub num_chunks: u32,
    pub flags: u32,
    /// Pointer to an array of `u64` pointers to [`drm_amdgpu_cs_chunk`].
    pub chunks: u64,
}

#[derive(Clone, Copy, Default, Debug)]
pub struct drm_amdgpu_cs_chunk_ib {
    pub _pad: u32,
    pub flags: u32,
    pub va_start: u64,
    pub ib_bytes: u32,
    pub ip_type: u32,
    pub ip_instance: u32,
    pub ring: u32,
}

#[derive(Clone, Copy, Default, Debug)]
pub struct drm_amdgpu_wait_cs_in {
    pub handle: u64,
    /// Absolute CLOCK_MONOTONIC timeout in ns.
    pub timeout: u64,
    pub ip_type: u32,
    pub ip_instance: u32,
    pub ring: u32,
    pub ctx_id: u32,
}

// ---------------------------------------------------------------------------
// Buffer placement, submissions and waits
// ---------------------------------------------------------------------------
/// The GPU page size.
pub const GPU_PAGE_SIZE: u64 = 4096;

/// The size of a buffer object holding `size` bytes: at least one page,
/// rounded up to whole pages.
pub open spec fn bo_size(size: u64) -> int {
    let requested = if size < 1 {
        1
    } else {
        size as int
    };
    ((requested + 4095) / 4096) * 4096
}

/// The placement of a buffer object: its page-rounded size and an
/// alignment of at least one page.
pub fn bo_layout(size: u64, alignment: u64) -> (r: (u64, u64))
    requires
        size <= u64::MAX - 4095,
    ensures
        r.0 == bo_size(size),
        r.0 % 4096 == 0,
        r.0 >= size,
        r.0 > 0,
        r.1 == (if alignment < 4096 {
            4096
        } else {
            alignment
        }),
{
    let align = if alignment < 4096 {
        4096
    } else {
        alignment
    };
    let requested = if size < 1 {
        1
    } else {
        size
    };
    let rounded = (requested + 4095) / 4096 * 4096;
    assert(rounded % 4096 == 0 && rounded >= requested) by (nonlinear_arith)
        requires
            rounded == (requested + 4095) / 4096 * 4096,
    ;
    (rounded, align)
}

/// Whether an ioctl failing with `errno` is restarted: EINTR and EAGAIN.
pub fn restartable(errno: i32) -> (r: bool)
    ensures
        r == (errno == 4 || errno == 11),
{
    errno == 4 || errno == 11
}

/// The fence sequence number of a submission, from the two `u32` halves
/// the kernel writes over the start of the argument.
pub fn fence_sequence(low: u32, high: u32) -> (r: u64)
    ensures
        r == low + high * 0x1_0000_0000,
{
    low as u64 + high as u64 * 0x1_0000_0000
}

/// The absolute deadline `timeout_ns` after `now_ns`, saturating.
pub fn wait_deadline(now_ns: u64, timeout_ns: u64) -> (r: u64)
    ensures
        r == (if now_ns + timeout_ns > u64::MAX {
            u64::MAX as int
        } else {
            now_ns + timeout_ns
        }),
{
    if timeout_ns > u64::MAX - now_ns {
        u64::MAX
    } else {
        now_ns + timeout_ns
    }
}

/// The buffer-list entries of a submission: each handle at priority 0.
pub fn bo_list_entries(bo_handles: &[u32]) -> (r: Vec<drm_amdgpu_bo_list_entry>)
    ensures
        r@.len() == bo_handles@.len(),
        forall|i: int|
            0 <= i < r@.len() ==> (#[trigger] r@[i]).bo_handle == bo_handles@[i]
                && r@[i].bo_priority == 0,
{
    let mut entries: Vec<drm_amdgpu_bo_list_entry> = Vec::new();
    let mut k: usize = 0;
    while k < bo_handles.len()
        invariant
            k <= bo_handles@.len(),
            entries@.len() == k,
            forall|i: int|
                0 <= i < k ==> (#[trigger] entries@[i]).bo_handle == bo_handles@[i]
                    && entries@[i].bo_priority == 0,
        decreases bo_handles@.len() - k,
    {
        entries.push(drm_amdgpu_bo_list_entry { bo_handle: bo_handles[k], bo_priority: 0 });
        k = k + 1;
    }
    entries
}

/// The IB chunk of a submission of `ib_dwords` dwords at `ib_va`.
pub fn ib_chunk(ib_va: u64, ib_dwords: u32, ib_flags: u32, ip_type: u32) -> (r: drm_amdgpu_cs_chunk_ib)
    requires
        ib_dwords * 4 <= u32::MAX,
    ensures
        r._pad == 0,
        r.flags == ib_flags,
        r.va_start == ib_va,
        r.ib_bytes == ib_dwords * 4,
        r.ip_type == ip_type,
        r.ip_instance == 0,
        r.ring == 0,
{
    drm_amdgpu_cs_chunk_ib {
        _pad: 0,
        flags: ib_flags,
        va_start: ib_va,
        ib_bytes: ib_dwords * 4,
        ip_type,
        ip_instance: 0,
        ring: 0,
    }
}

} // verus!
