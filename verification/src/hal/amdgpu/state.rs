//! GFX10.3 hardware state emission for the fixed-function pipeline.
//!
//! Emits the preamble (once per IB) and the per-draw state (programs,
//! user SGPRs, rasterizer, blend, color target, and draw packet). Each
//! function appends exactly the packets its stream function describes.
use vstd::prelude::*;

use crate::hal::amdgpu::pm4::{
    high_dword, low_dword, packet3_header, register_sequence, register_write, Pm4,
    PKT3_CLEAR_STATE, PKT3_CONTEXT_CONTROL, PKT3_NUM_INSTANCES, PKT3_DRAW_INDEX_AUTO,
    PKT3_DRAW_INDEX_2, PKT3_SET_CONTEXT_REG, PKT3_SET_SH_REG, PKT3_SET_UCONFIG_REG,
    PKT3_SET_UCONFIG_REG_INDEX, SI_CONTEXT_REG_OFFSET, SI_SH_REG_OFFSET, SI_UCONFIG_REG_OFFSET,
    indexed_offset, register_offset,
};
use crate::hal::amdgpu::regs::{
    BLEND_ALPHA_DESTBLEND_SHIFT, BLEND_ALPHA_SRCBLEND_SHIFT, BLEND_COLOR_DESTBLEND_SHIFT, BLEND_COLOR_SRCBLEND_SHIFT, BLEND_ENABLE, CB_BLEND0_CONTROL, CB_BLEND_CLAMP, CB_COLOR0_ATTRIB2, CB_COLOR0_ATTRIB3, CB_COLOR0_BASE, CB_COLOR0_BASE_EXT, CB_COLOR0_CMASK, CB_COLOR0_DCC_BASE, CB_COLOR0_FMASK, CB_COLOR0_INFO, CB_COLOR_CONTROL, CB_COLOR_STRIDE, CB_COLOR_SW_MODE_MASK, CB_COLOR_SW_MODE_SHIFT, CB_ENDIAN_NONE, CB_FORMAT_8_8_8_8, CB_FORMAT_MASK, CB_FORMAT_SHIFT, CB_MIP0_DEPTH_MASK, CB_MIP0_DEPTH_SHIFT, CB_MIP0_HEIGHT_MASK, CB_MIP0_HEIGHT_SHIFT, CB_MIP0_WIDTH_MASK, CB_MIP0_WIDTH_SHIFT, CB_MODE_NORMAL, CB_NUMBER_UNORM, CB_RESOURCE_LEVEL, CB_RESOURCE_TYPE_2D, CB_RESOURCE_TYPE_MASK, CB_RESOURCE_TYPE_SHIFT, CB_RMI_GL2_CACHE_CONTROL, CB_ROP3_COPY, CB_SHADER_MASK, CB_SHADER_MASK_RGBA, CB_SIMPLE_FLOAT, CB_SWAP_ALT, CB_SWAP_STD, CB_TARGET_MASK, DB_COUNT_CONTROL, DB_DEPTH_CONTROL, DB_DFSM_CONTROL, DB_DUAL_QUAD_DISABLE, DB_EARLY_Z_THEN_LATE_Z, DB_EQAA, DB_KILL_ENABLE, DB_RENDER_CONTROL, DB_RENDER_OVERRIDE2, DB_RMI_L2_CACHE_CONTROL, DB_SHADER_CONTROL, DB_Z_INFO, DB_Z_ORDER_SHIFT, DI_PT_TRILIST, DRAW_TRIANGLES, DX_CLIP_SPACE_DEF, DX_LINEAR_ATTR_CLIP_ENA, EDGERULE_GL, GE_CNTL, GE_INDX_OFFSET, GE_MAX_VTX_INDX, GE_MIN_VTX_INDX, GE_PC_ALLOC, GE_PRIM_GRP_SIZE_MASK, GE_PRIM_GRP_SIZE_SHIFT, GE_STEREO_CNTL, GE_USER_VGPR_EN, GS_OFF, IA_MULTI_VGT_PARAM, IA_PRIMGROUP_SIZE, IA_WD_SWITCH_ON_EOP, LINE_WIDTH_1PX, MAX_PRIMGRP_IN_WAVE_MASK, MAX_PRIMGRP_IN_WAVE_SHIFT, NGG_CNTL_LEGACY, PA_CL_CLIP_CNTL, PA_CL_GB_VERT_CLIP_ADJ, PA_CL_NGG_CNTL, PA_CL_VRS_CNTL, PA_CL_VS_OUT_CNTL, PA_CL_VTE_CNTL, PA_SC_AA_CONFIG, PA_SC_AA_MASK_X0Y0_X1Y0, PA_SC_BINNER_CNTL_0, PA_SC_BINNER_CNTL_1, PA_SC_CLIPRECT_RULE, PA_SC_EDGERULE, PA_SC_GENERIC_SCISSOR_BR, PA_SC_GENERIC_SCISSOR_TL, PA_SC_LINE_STIPPLE_STATE, PA_SC_MODE_CNTL_0, PA_SC_MODE_CNTL_1, PA_SC_NGG_MODE_CNTL, PA_SC_SCREEN_SCISSOR_BR, PA_SC_VPORT_SCISSOR_0_BR, PA_SC_VPORT_SCISSOR_0_TL, PA_SC_VPORT_ZMAX_0, PA_SC_VPORT_ZMIN_0, PA_SC_WINDOW_OFFSET, PA_SC_WINDOW_SCISSOR_BR, PA_SC_WINDOW_SCISSOR_TL, PA_SU_HARDWARE_SCREEN_OFFSET, PA_SU_LINE_CNTL, PA_SU_LINE_STIPPLE_VALUE, PA_SU_POINT_MINMAX, PA_SU_POINT_SIZE, PA_SU_PRIM_FILTER_CNTL, PA_SU_SC_MODE_CNTL, PA_SU_SMALL_PRIM_FILTER_CNTL, PA_SU_VTX_CNTL, POINT_SIZE_1PX, POLY_BACK_PTYPE_SHIFT, POLY_FRONT_PTYPE_SHIFT, PS_IN_NUM_INTERP_MASK, PS_IN_NUM_INTERP_SHIFT, PS_IN_PS_W32_EN, RSRC1_DX10_CLAMP, RSRC1_FLOAT_MODE_DENORM16_64, RSRC1_PS_MEM_ORDERED, RSRC1_VGPRS_MASK, RSRC1_VGPRS_SHIFT, RSRC1_VS_MEM_ORDERED, RSRC2_USER_SGPR_MASK, RSRC2_USER_SGPR_SHIFT, RSRC3_CU_EN_MASK, RSRC3_CU_EN_SHIFT, RSRC3_WAVE_LIMIT_PS, RSRC3_WAVE_LIMIT_VS, SCISSOR_TL_Y_SHIFT, SCREEN_SCISSOR_X_MASK, SCREEN_SCISSOR_Y_SHIFT, SC_CULL_BACK, SC_CULL_FRONT, SC_FACE, SC_MODE1_FORCE_EOV_CNTDWN, SC_MODE1_FORCE_EOV_REZ, SC_MODE1_MULTI_SHADER_ENGINE_PRIM_DISCARD, SC_MODE1_SUPERTILE_WALK_ORDER, SC_MODE1_TILE_WALK_ORDER, SC_MODE1_WALK_FENCE_SIZE, SC_MODE1_WALK_SIZE, SC_MODE_ALTERNATE_RBS_PER_TILE, SC_MODE_VPORT_SCISSOR_ENABLE, SC_PROVOKING_VTX_LAST, SPI_BARYC_CNTL, SPI_INTERP_CONTROL_0, SPI_PS_INPUT_ADDR, SPI_PS_INPUT_CNTL_0, SPI_PS_INPUT_CNTL_1, SPI_PS_INPUT_ENA, SPI_PS_IN_CONTROL, SPI_SHADER_32_ABGR, SPI_SHADER_4COMP, SPI_SHADER_COL_FORMAT, SPI_SHADER_IDX_FORMAT, SPI_SHADER_LATE_ALLOC_VS, SPI_SHADER_NONE, SPI_SHADER_PGM_HI_PS, SPI_SHADER_PGM_HI_VS, SPI_SHADER_PGM_LO_PS, SPI_SHADER_PGM_LO_VS, SPI_SHADER_PGM_RSRC1_PS, SPI_SHADER_PGM_RSRC1_VS, SPI_SHADER_PGM_RSRC2_PS, SPI_SHADER_PGM_RSRC2_VS, SPI_SHADER_PGM_RSRC3_PS, SPI_SHADER_PGM_RSRC3_VS, SPI_SHADER_PGM_RSRC4_PS, SPI_SHADER_PGM_RSRC4_VS, SPI_SHADER_POS_FORMAT, SPI_SHADER_REQ_CTRL_PS, SPI_SHADER_REQ_CTRL_VS, SPI_SHADER_USER_ACCUM_PS_0, SPI_SHADER_USER_ACCUM_VS_0, SPI_SHADER_USER_DATA_PS_0, SPI_SHADER_USER_DATA_VS_0, SPI_SHADER_Z_FORMAT, SPI_VS_OUT_CONFIG, SW_LINEAR, SX_MRT0_BLEND_OPT, SX_PS_DOWNCONVERT, SX_PS_DOWNCONVERT_CONTROL, VGT_GS_MODE, VGT_INDEX_16, VGT_INDEX_32, VGT_INDEX_TYPE, VGT_INSTANCE_BASE_ID, VGT_PRIMITIVEID_EN, VGT_PRIMITIVE_TYPE, VGT_REUSE_OFF, VGT_SHADER_STAGES_EN, VGT_STRMOUT_CONFIG, VGT_VERTEX_REUSE_BLOCK_CNTL, VS_EXPORT_COUNT_MASK, VS_EXPORT_COUNT_SHIFT, VS_W32_EN, VTE_VPORT_XY_SCALE_ENA, VTE_VPORT_Z, VTE_VTX_W0_FMT, VTX_PIX_CENTER, VTX_QUANT_16_8_1_256, VTX_ROUND_TO_EVEN, WINDOW_OFFSET_DISABLE, blend_factor, f,
};
use crate::hal::Pipeline;
use crate::raster::gl;
use crate::raster::culled;

verus! {

/// GCR_CNTL bitmask: invalidate and write back all GL2/GL1/vector/scalar/
/// instruction caches across the chip.
pub const GCR_CNTL_INVALIDATE_ALL: u32 = (1 << 0) | (1 << 1) | (1 << 2) | (1 << 3) | (1 << 4) | (1
    << 5) | (1 << 6) | (1 << 7);

// ---------------------------------------------------------------------------
// Packet shorthands
// ---------------------------------------------------------------------------
/// A context register write.
pub open spec fn ctx(address: u32, value: u32) -> Seq<u32> {
    register_write(PKT3_SET_CONTEXT_REG, SI_CONTEXT_REG_OFFSET, address, value)
}

/// Consecutive context register writes.
pub open spec fn ctx_seq(address: u32, values: Seq<u32>) -> Seq<u32> {
    register_sequence(PKT3_SET_CONTEXT_REG, SI_CONTEXT_REG_OFFSET, address, values)
}

/// An indexed context register write.
pub open spec fn ctx_idx(address: u32, idx: u32, value: u32) -> Seq<u32> {
    seq![
        packet3_header(PKT3_SET_CONTEXT_REG, 1),
        indexed_offset(register_offset(address, SI_CONTEXT_REG_OFFSET), idx),
        value,
    ]
}

/// A shader register write.
pub open spec fn sh(address: u32, value: u32) -> Seq<u32> {
    register_write(PKT3_SET_SH_REG, SI_SH_REG_OFFSET, address, value)
}

/// Consecutive shader register writes.
pub open spec fn sh_seq(address: u32, values: Seq<u32>) -> Seq<u32> {
    register_sequence(PKT3_SET_SH_REG, SI_SH_REG_OFFSET, address, values)
}

/// A user-config register write.
pub open spec fn uconfig(address: u32, value: u32) -> Seq<u32> {
    register_write(PKT3_SET_UCONFIG_REG, SI_UCONFIG_REG_OFFSET, address, value)
}

/// An indexed user-config register write.
pub open spec fn uconfig_idx(address: u32, idx: u32, value: u32) -> Seq<u32> {
    seq![
        packet3_header(PKT3_SET_UCONFIG_REG_INDEX, 1),
        indexed_offset(register_offset(address, SI_UCONFIG_REG_OFFSET), idx),
        value,
    ]
}

// ---------------------------------------------------------------------------
// Preamble
// ---------------------------------------------------------------------------
/// `stream` followed by the per-IB preamble.
pub open spec fn preamble_stream(stream: Seq<u32>) -> Seq<u32> {
    let s = stream + seq![packet3_header(PKT3_CONTEXT_CONTROL, 1), 0x80000000u32, 0x80000000u32];
    let s = s + seq![packet3_header(PKT3_CLEAR_STATE, 0), 0u32];
    let s = s + sh(SPI_SHADER_REQ_CTRL_PS, 1u32 | (3u32 << 1u32));
    let s = s + sh_seq(SPI_SHADER_USER_ACCUM_PS_0, seq![0u32, 0, 0, 0]);
    let s = s + sh(SPI_SHADER_REQ_CTRL_VS, 0);
    let s = s + sh_seq(SPI_SHADER_USER_ACCUM_VS_0, seq![0u32, 0, 0, 0]);
    let s = s + ctx(
        PA_SC_BINNER_CNTL_0,
        f(2, 0, 0x3) | f(2, 4, 0x7) | f(2, 7, 0x7) | (1u32 << 18u32) | f(63, 19, 0xFF) | (1u32
            << 27u32) | (1u32 << 28u32),
    );
    let s = s + ctx(PA_SC_BINNER_CNTL_1, f(84, 0, 0xFFFF) | f(1023, 16, 0xFFFF));
    let s = s + ctx(PA_SC_NGG_MODE_CNTL, f(512, 0, 0x7FF));
    let s = s + ctx(SPI_SHADER_IDX_FORMAT, f(1, 0, 0xF));
    let s = s + ctx(PA_CL_VRS_CNTL, f(1, 0, 0x7) | f(1, 9, 0x7));
    let s = s + ctx(PA_SU_PRIM_FILTER_CNTL, (1u32 << 30u32) | (1u32 << 31u32));
    let s = s + ctx(DB_DFSM_CONTROL, f(2, 0, 0x3));
    let s = s + ctx(CB_RMI_GL2_CACHE_CONTROL, f(1, 6, 0x3) | f(1, 22, 0x3));
    let s = s + ctx(DB_RMI_L2_CACHE_CONTROL, f(1, 0, 0x3) | f(1, 16, 0x3));
    let s = s + ctx(PA_SU_SMALL_PRIM_FILTER_CNTL, 1);
    let s = s + ctx(SX_PS_DOWNCONVERT_CONTROL, 0xFF);
    let s = s + ctx(VGT_VERTEX_REUSE_BLOCK_CNTL, 14);
    let s = s + uconfig(GE_MIN_VTX_INDX, 0);
    let s = s + uconfig(GE_INDX_OFFSET, 0);
    let s = s + uconfig(GE_MAX_VTX_INDX, 0xFFFFFFFF);
    let s = s + uconfig(VGT_INSTANCE_BASE_ID, 0);
    let s = s + uconfig(GE_STEREO_CNTL, 0);
    let s = s + uconfig(GE_USER_VGPR_EN, 0);
    let s = s + uconfig(PA_SU_LINE_STIPPLE_VALUE, 0);
    let s = s + uconfig(PA_SC_LINE_STIPPLE_STATE, 0);
    let s = s + ctx(
        PA_SC_SCREEN_SCISSOR_BR,
        f(16384, 0, SCREEN_SCISSOR_X_MASK) | (16384u32 << SCREEN_SCISSOR_Y_SHIFT),
    );
    let s = s + ctx(PA_SC_WINDOW_SCISSOR_TL, WINDOW_OFFSET_DISABLE);
    let s = s + ctx(PA_SC_GENERIC_SCISSOR_TL, WINDOW_OFFSET_DISABLE);
    let s = s + ctx(PA_SC_GENERIC_SCISSOR_BR, f(16384, 0, 0x7FFF) | (16384u32 << 16u32));
    let s = s + ctx(PA_SC_CLIPRECT_RULE, 0xFFFF);
    let s = s + ctx(PA_SC_WINDOW_OFFSET, 0);
    let s = s + ctx(
        VGT_SHADER_STAGES_EN,
        VS_W32_EN | f(2, MAX_PRIMGRP_IN_WAVE_SHIFT, MAX_PRIMGRP_IN_WAVE_MASK),
    );
    let s = s + ctx(VGT_REUSE_OFF, 0);
    let s = s + uconfig(GE_CNTL, f(128, GE_PRIM_GRP_SIZE_SHIFT, GE_PRIM_GRP_SIZE_MASK));
    let s = s + uconfig(VGT_PRIMITIVE_TYPE, DI_PT_TRILIST);
    let s = s + ctx_seq(VGT_STRMOUT_CONFIG, seq![0u32, 0]);
    let s = s + ctx(PA_SU_POINT_SIZE, POINT_SIZE_1PX);
    let s = s + ctx(PA_SU_POINT_MINMAX, POINT_SIZE_1PX);
    let s = s + ctx(PA_SU_LINE_CNTL, LINE_WIDTH_1PX);
    s + ctx(PA_SU_HARDWARE_SCREEN_OFFSET, 0)
}

/// Emit the per-IB preamble: hardware defaults, DPBB disable, cache sync.
pub fn emit_preamble(pm4: &mut Pm4)
    ensures
        final(pm4).dwords@ == preamble_stream(old(pm4).dwords@),
{
    pm4.context_control();
    pm4.clear_state();

    // CLEAR_STATE leaves SH registers untouched.
    pm4.set_sh_reg(SPI_SHADER_REQ_CTRL_PS, 1 | (3 << 1));  // grouping; 4 requests/CU
    pm4.set_sh_reg_seq(SPI_SHADER_USER_ACCUM_PS_0, &[0, 0, 0, 0]);
    pm4.set_sh_reg(SPI_SHADER_REQ_CTRL_VS, 0);
    pm4.set_sh_reg_seq(SPI_SHADER_USER_ACCUM_VS_0, &[0, 0, 0, 0]);

    // Disable DPBB binning: straight-through rasterization matching the CPU.
    // BIN_SIZE 128x128, DISABLE_BINNING_USE_NEW_SC (10.3).
    let binner_cntl_0 = f(2, 0, 0x3)  // BINNING_MODE = DISABLE_BINNING_USE_NEW_SC
     | f(2, 4, 0x7)  // BIN_SIZE_X_EXTEND = 2 (128 px)
     | f(2, 7, 0x7)  // BIN_SIZE_Y_EXTEND = 2 (128 px)
     | (1 << 18)  // DISABLE_START_OF_PRIM
     | f(63, 19, 0xFF)  // FPOVS_PER_BATCH
     | (1 << 27)  // OPTIMAL_BIN_SELECTION
     | (1 << 28);  // FLUSH_ON_BINNING_TRANSITION
    pm4.set_context_reg(PA_SC_BINNER_CNTL_0, binner_cntl_0);
    // MAX_ALLOC_COUNT = 84 (pc_lines 256 / 3 - 1), MAX_PRIM_PER_BATCH = 1023.
    pm4.set_context_reg(PA_SC_BINNER_CNTL_1, f(84, 0, 0xFFFF) | f(1023, 16, 0xFFFF));
    pm4.set_context_reg(PA_SC_NGG_MODE_CNTL, f(512, 0, 0x7FF));

    pm4.set_context_reg(SPI_SHADER_IDX_FORMAT, f(1, 0, 0xF));  // 1COMP
    pm4.set_context_reg(PA_CL_VRS_CNTL, f(1, 0, 0x7) | f(1, 9, 0x7));  // OVERRIDE
    // XMAX_RIGHT / YMAX_BOTTOM_EXCLUSION
    pm4.set_context_reg(PA_SU_PRIM_FILTER_CNTL, (1 << 30) | (1 << 31));
    pm4.set_context_reg(DB_DFSM_CONTROL, f(2, 0, 0x3));  // PUNCHOUT_MODE = FORCE_OFF
    // L2 cache write-through/stream policies for color and Z.
    pm4.set_context_reg(CB_RMI_GL2_CACHE_CONTROL, f(1, 6, 0x3) | f(1, 22, 0x3));
    pm4.set_context_reg(DB_RMI_L2_CACHE_CONTROL, f(1, 0, 0x3) | f(1, 16, 0x3));
    pm4.set_context_reg(PA_SU_SMALL_PRIM_FILTER_CNTL, 1);
    pm4.set_context_reg(SX_PS_DOWNCONVERT_CONTROL, 0xFF);
    pm4.set_context_reg(VGT_VERTEX_REUSE_BLOCK_CNTL, 14);

    // Initial UCONFIG defaults.
    pm4.set_uconfig_reg(GE_MIN_VTX_INDX, 0);
    pm4.set_uconfig_reg(GE_INDX_OFFSET, 0);
    pm4.set_uconfig_reg(GE_MAX_VTX_INDX, 0xFFFFFFFF);
    pm4.set_uconfig_reg(VGT_INSTANCE_BASE_ID, 0);
    pm4.set_uconfig_reg(GE_STEREO_CNTL, 0);
    pm4.set_uconfig_reg(GE_USER_VGPR_EN, 0);
    pm4.set_uconfig_reg(PA_SU_LINE_STIPPLE_VALUE, 0);
    pm4.set_uconfig_reg(PA_SC_LINE_STIPPLE_STATE, 0);

    // Full screen scissor bounds default to the hardware max (16384).
    pm4.set_context_reg(
        PA_SC_SCREEN_SCISSOR_BR,
        f(16384, 0, SCREEN_SCISSOR_X_MASK) | (16384u32 << SCREEN_SCISSOR_Y_SHIFT),
    );
    pm4.set_context_reg(PA_SC_WINDOW_SCISSOR_TL, WINDOW_OFFSET_DISABLE);
    pm4.set_context_reg(PA_SC_GENERIC_SCISSOR_TL, WINDOW_OFFSET_DISABLE);
    pm4.set_context_reg(PA_SC_GENERIC_SCISSOR_BR, f(16384, 0, 0x7FFF) | (16384u32 << 16u32));
    pm4.set_context_reg(PA_SC_CLIPRECT_RULE, 0xFFFF);
    pm4.set_context_reg(PA_SC_WINDOW_OFFSET, 0);

    // Initial VGT / GE state for legacy VS/PS.
    let vgt_stages = VS_W32_EN | f(2, MAX_PRIMGRP_IN_WAVE_SHIFT, MAX_PRIMGRP_IN_WAVE_MASK);
    pm4.set_context_reg(VGT_SHADER_STAGES_EN, vgt_stages);
    pm4.set_context_reg(VGT_REUSE_OFF, 0);
    // GE_CNTL: 128 prims per group (recommended for non-tess non-GS).
    let ge_cntl = f(128, GE_PRIM_GRP_SIZE_SHIFT, GE_PRIM_GRP_SIZE_MASK);
    pm4.set_uconfig_reg(GE_CNTL, ge_cntl);
    pm4.set_uconfig_reg(VGT_PRIMITIVE_TYPE, DI_PT_TRILIST);
    // Disable streamout explicitly; CLEAR_STATE may leave streamout routing undefined.
    pm4.set_context_reg_seq(VGT_STRMOUT_CONFIG, &[0, 0]);

    // Line/point sizes, screen offset.
    pm4.set_context_reg(PA_SU_POINT_SIZE, POINT_SIZE_1PX);
    pm4.set_context_reg(PA_SU_POINT_MINMAX, POINT_SIZE_1PX);
    pm4.set_context_reg(PA_SU_LINE_CNTL, LINE_WIDTH_1PX);
    pm4.set_context_reg(PA_SU_HARDWARE_SCREEN_OFFSET, 0);
}

// ---------------------------------------------------------------------------
// Color target
// ---------------------------------------------------------------------------
/// `value - 1`, or 0 for 0.
pub open spec fn saturating_decrement(value: u32) -> u32 {
    if value > 0 {
        (value - 1) as u32
    } else {
        0
    }
}

fn decrement_or_zero(value: u32) -> (r: u32)
    ensures
        r == saturating_decrement(value),
{
    if value > 0 {
        value - 1
    } else {
        0
    }
}

/// Bits 8..40 of a 256-byte aligned GPU address.
pub open spec fn address_low(va: u64) -> u32 {
    ((va / 256) % 0x1_0000_0000) as u32
}

/// Bits 40..64 of a GPU address.
pub open spec fn address_high(va: u64) -> u32 {
    (va / 0x100_0000_0000) as u32
}

/// CB_COLOR0_INFO for an RGBA8 (or BGRA8) unorm target.
pub open spec fn color_info(is_bgra: bool) -> u32 {
    CB_ENDIAN_NONE | f(CB_FORMAT_8_8_8_8, CB_FORMAT_SHIFT, CB_FORMAT_MASK) | CB_NUMBER_UNORM | (
    if is_bgra {
        CB_SWAP_ALT
    } else {
        CB_SWAP_STD
    }) | CB_BLEND_CLAMP | CB_SIMPLE_FLOAT
}

/// CB_COLOR0_ATTRIB2: the last row and the last pixel of a row.
pub open spec fn color_attrib2(pitch_bytes: u32, height: u32) -> u32 {
    f(saturating_decrement(height), CB_MIP0_HEIGHT_SHIFT, CB_MIP0_HEIGHT_MASK) | f(
        saturating_decrement(pitch_bytes / 4),
        CB_MIP0_WIDTH_SHIFT,
        CB_MIP0_WIDTH_MASK,
    )
}

/// CB_COLOR0_ATTRIB3: one linear 2D layer.
pub open spec fn color_attrib3() -> u32 {
    f(1, CB_MIP0_DEPTH_SHIFT, CB_MIP0_DEPTH_MASK) | f(
        SW_LINEAR,
        CB_COLOR_SW_MODE_SHIFT,
        CB_COLOR_SW_MODE_MASK,
    ) | f(CB_RESOURCE_TYPE_2D, CB_RESOURCE_TYPE_SHIFT, CB_RESOURCE_TYPE_MASK) | (1u32 << 26u32)
        | CB_RESOURCE_LEVEL
}

/// `stream` followed by the writes disabling color targets 1..=n.
pub open spec fn disabled_color_targets(stream: Seq<u32>, n: int) -> Seq<u32>
    decreases n,
{
    if n <= 0 {
        stream
    } else {
        disabled_color_targets(stream, n - 1) + ctx((CB_COLOR0_INFO + n * CB_COLOR_STRIDE) as u32, 0)
    }
}

/// `stream` followed by the MRT0 color target state and framebuffer bounds.
pub open spec fn color_target_stream(
    stream: Seq<u32>,
    color_va: u64,
    pitch_bytes: u32,
    width: u32,
    height: u32,
    is_bgra: bool,
) -> Seq<u32> {
    let s = stream + ctx_seq(
        CB_COLOR0_BASE,
        seq![
            address_low(color_va),
            0u32,
            0,
            0,
            color_info(is_bgra),
            0,
            0,
            0,
            0,
            0,
            0,
            0,
            0,
            0,
        ],
    );
    let s = s + ctx(CB_COLOR0_BASE_EXT, address_high(color_va));
    let s = s + ctx(CB_COLOR0_ATTRIB2, color_attrib2(pitch_bytes, height));
    let s = s + ctx(CB_COLOR0_ATTRIB3, color_attrib3());
    let s = disabled_color_targets(s, 7);
    s + ctx(PA_SC_WINDOW_SCISSOR_BR, f(width, 0, 0x7FFF) | ((height << 16u32) as u32))
}

/// Colorbuffer target (only MRT0 is used; MRT1..7 are set to INVALID).
pub fn emit_color_target(
    pm4: &mut Pm4,
    color_va: u64,
    pitch_bytes: u32,
    width: u32,
    height: u32,
    is_bgra: bool,
)
    requires
        pitch_bytes % 256 == 0,
    ensures
        final(pm4).dwords@ == color_target_stream(
            old(pm4).dwords@,
            color_va,
            pitch_bytes,
            width,
            height,
            is_bgra,
        ),
{
    let bpp: u32 = 4;
    let pitch_pixels = pitch_bytes / bpp;

    // Word 0..13 for CB_COLOR0_BASE..CB_COLOR0_DCC_BASE.
    let base_lo = ((color_va / 256) % 0x1_0000_0000) as u32;
    let base_hi = (color_va / 0x100_0000_0000) as u32;
    let view: u32 = 0;  // slice 0, mip 0
    let swap = if is_bgra {
        CB_SWAP_ALT
    } else {
        CB_SWAP_STD
    };
    let info = CB_ENDIAN_NONE | f(CB_FORMAT_8_8_8_8, CB_FORMAT_SHIFT, CB_FORMAT_MASK)
        | CB_NUMBER_UNORM | swap | CB_BLEND_CLAMP | CB_SIMPLE_FLOAT;
    let attrib: u32 = 0;  // 1 sample, 1 fragment
    let dcc_control: u32 = 0;
    let attrib2 = f(decrement_or_zero(height), CB_MIP0_HEIGHT_SHIFT, CB_MIP0_HEIGHT_MASK) | f(
        decrement_or_zero(pitch_pixels),
        CB_MIP0_WIDTH_SHIFT,
        CB_MIP0_WIDTH_MASK,
    );
    let attrib3 = f(1, CB_MIP0_DEPTH_SHIFT, CB_MIP0_DEPTH_MASK)  // one layer
     | f(SW_LINEAR, CB_COLOR_SW_MODE_SHIFT, CB_COLOR_SW_MODE_MASK) | f(
        CB_RESOURCE_TYPE_2D,
        CB_RESOURCE_TYPE_SHIFT,
        CB_RESOURCE_TYPE_MASK,
    ) | (1u32 << 26u32)  // CMASK_PIPE_ALIGNED
     | CB_RESOURCE_LEVEL;

    // CB_COLOR0_BASE: 14 sequential context registers.
    pm4.set_context_reg_seq(
        CB_COLOR0_BASE,
        &[
            base_lo,
            0,  // hole (CB_COLOR0_PITCH unused on GFX10)
            0,  // hole
            view,
            info,
            attrib,
            dcc_control,
            0,  // CB_COLOR0_CMASK
            0,  // hole
            0,  // CB_COLOR0_FMASK
            0,  // hole
            0,  // CLEAR_WORD0
            0,  // CLEAR_WORD1
            0,  // CB_COLOR0_DCC_BASE
        ],
    );
    pm4.set_context_reg(CB_COLOR0_BASE_EXT, base_hi);
    pm4.set_context_reg(CB_COLOR0_ATTRIB2, attrib2);
    pm4.set_context_reg(CB_COLOR0_ATTRIB3, attrib3);

    // Disable unwritten colorbuffers MRT1..7.
    let ghost targets_start = pm4.dwords@;
    let mut i: u32 = 1;
    while i < 8
        invariant
            1 <= i <= 8,
            pm4.dwords@ == disabled_color_targets(targets_start, i - 1),
        decreases 8 - i,
    {
        pm4.set_context_reg(CB_COLOR0_INFO + i * CB_COLOR_STRIDE, 0);
        i = i + 1;
    }

    // Framebuffer bounds for window scissor.
    pm4.set_context_reg(PA_SC_WINDOW_SCISSOR_BR, f(width, 0, 0x7FFF) | (height << 16u32));
}

// ---------------------------------------------------------------------------
// Rasterizer and blend
// ---------------------------------------------------------------------------
/// The viewport transform as float bits: x and y scale and offset. Depth
/// maps [-1, 1] to [0, 1].
#[derive(Debug, Clone, Copy)]
pub struct ViewportTransform {
    pub x_scale: u32,
    pub x_offset: u32,
    pub y_scale: u32,
    pub y_offset: u32,
}

/// The float bits of 0.5.
pub const FLOAT_HALF: u32 = 0x3f00_0000;

/// The float bits of 1.0.
pub const FLOAT_ONE: u32 = 0x3f80_0000;

/// The scissor rectangle requested, or the whole framebuffer.
pub open spec fn requested_scissor(scissor: Option<(i32, i32, u32, u32)>, fb_w: u32, fb_h: u32) -> (
    i32,
    i32,
    u32,
    u32,
) {
    match scissor {
        Some(rectangle) => rectangle,
        None => (0, 0, fb_w, fb_h),
    }
}

/// `value` clamped below at zero.
pub open spec fn non_negative(value: int) -> int {
    if value < 0 {
        0
    } else {
        value
    }
}

/// `a` bounded above by `b`.
pub open spec fn at_most(a: int, b: int) -> int {
    if a > b {
        b
    } else {
        a
    }
}

/// The scissor rectangle intersected with the framebuffer: min x, min y,
/// max x, max y.
pub open spec fn clipped_scissor(scissor: Option<(i32, i32, u32, u32)>, fb_w: u32, fb_h: u32) -> (
    u32,
    u32,
    u32,
    u32,
) {
    let (sx, sy, sw, sh) = requested_scissor(scissor, fb_w, fb_h);
    (
        non_negative(sx as int) as u32,
        non_negative(sy as int) as u32,
        at_most(non_negative(sx + (sw as i32)), fb_w as int) as u32,
        at_most(non_negative(sy + (sh as i32)), fb_h as int) as u32,
    )
}

/// The scissor rectangle's far corner stays within `i32`.
pub open spec fn scissor_in_range(scissor: Option<(i32, i32, u32, u32)>, fb_w: u32, fb_h: u32) -> bool {
    let (sx, sy, sw, sh) = requested_scissor(scissor, fb_w, fb_h);
    i32::MIN <= sx + (sw as i32) <= i32::MAX && i32::MIN <= sy + (sh as i32) <= i32::MAX
}

/// PA_SU_SC_MODE_CNTL: culling, winding and triangle fill.
pub open spec fn su_mode(pipe: Pipeline) -> u32 {
    (if pipe.cull_mode == gl::FRONT || pipe.cull_mode == gl::FRONT_AND_BACK {
        SC_CULL_FRONT
    } else {
        0
    }) | (if pipe.cull_mode == gl::BACK || pipe.cull_mode == gl::FRONT_AND_BACK {
        SC_CULL_BACK
    } else {
        0
    }) | (if pipe.front_face_ccw {
        SC_FACE
    } else {
        0
    }) | f(DRAW_TRIANGLES, POLY_FRONT_PTYPE_SHIFT, 0x7) | f(
        DRAW_TRIANGLES,
        POLY_BACK_PTYPE_SHIFT,
        0x7,
    ) | SC_PROVOKING_VTX_LAST
}

/// The hardware culls what the software rasterizer culls: for every
/// pipeline and every non-degenerate triangle (doubled signed area
/// `area`), the CULL_FRONT bit of PA_SU_SC_MODE_CNTL drops it when it faces
/// front, the CULL_BACK bit when it faces back, exactly when the software
/// path (`culled`) drops it. So GL_BACK culls back faces only, GL_FRONT front
/// faces only, GL_FRONT_AND_BACK both, and anything else neither.
pub proof fn lemma_hardware_culls_as_the_rasterizer(pipe: Pipeline, area: i64)
    requires
        area != 0,
    ensures
        (if (area > 0) == pipe.front_face_ccw {
            su_mode(pipe) & SC_CULL_FRONT != 0
        } else {
            su_mode(pipe) & SC_CULL_BACK != 0
        }) == culled(area, pipe.front_face_ccw, pipe.cull_mode),
        su_mode(pipe) & SC_CULL_BACK != 0 <==> (pipe.cull_mode == gl::BACK || pipe.cull_mode
            == gl::FRONT_AND_BACK),
        su_mode(pipe) & SC_CULL_FRONT != 0 <==> (pipe.cull_mode == gl::FRONT || pipe.cull_mode
            == gl::FRONT_AND_BACK),
{
    let front: u32 = if pipe.cull_mode == gl::FRONT || pipe.cull_mode == gl::FRONT_AND_BACK {
        SC_CULL_FRONT
    } else {
        0
    };
    let back: u32 = if pipe.cull_mode == gl::BACK || pipe.cull_mode == gl::FRONT_AND_BACK {
        SC_CULL_BACK
    } else {
        0
    };
    let face: u32 = if pipe.front_face_ccw {
        SC_FACE
    } else {
        0
    };
    assert((1u32 << 0u32) == 1u32 && (1u32 << 1u32) == 2u32 && (1u32 << 2u32) == 4u32)
        by (bit_vector);
    assert(SC_CULL_FRONT == 1u32 && SC_CULL_BACK == 2u32 && SC_FACE == 4u32);
    assert(SC_PROVOKING_VTX_LAST == (1u32 << 19u32));
    let first_type = f(DRAW_TRIANGLES, POLY_FRONT_PTYPE_SHIFT, 0x7);
    let second_type = f(DRAW_TRIANGLES, POLY_BACK_PTYPE_SHIFT, 0x7);
    let m = front | back | face | first_type | second_type | SC_PROVOKING_VTX_LAST;
    assert(su_mode(pipe) == m);
    assert((m & 1u32 != 0) == (front == 1u32) && (m & 2u32 != 0) == (back == 2u32)) by (bit_vector)
        requires
            m == front | back | face | first_type | second_type | (1u32 << 19u32),
            first_type == ((2u32 & 7u32) << 5u32),
            second_type == ((2u32 & 7u32) << 8u32),
            front == 0 || front == 1u32,
            back == 0 || back == 2u32,
            face == 0 || face == 4u32,
    ;
}

/// CB_BLEND0_CONTROL: the same factors for color and alpha, or no blending.
pub open spec fn blend_control(pipe: Pipeline) -> u32 {
    if pipe.blend_enabled {
        let source = blend_factor(pipe.src_factor);
        let destination = blend_factor(pipe.dst_factor);
        BLEND_ENABLE | f(source, BLEND_COLOR_SRCBLEND_SHIFT, 0x1F) | f(
            destination,
            BLEND_COLOR_DESTBLEND_SHIFT,
            0x1F,
        ) | f(source, BLEND_ALPHA_SRCBLEND_SHIFT, 0x1F) | f(
            destination,
            BLEND_ALPHA_DESTBLEND_SHIFT,
            0x1F,
        )
    } else {
        0
    }
}

/// DB_SHADER_CONTROL: early-then-late Z, kill enabled when the shader kills.
pub open spec fn db_shader_control(uses_kill: bool) -> u32 {
    f(DB_EARLY_Z_THEN_LATE_Z, DB_Z_ORDER_SHIFT, 0x3) | (if uses_kill {
        DB_KILL_ENABLE
    } else {
        0
    }) | DB_DUAL_QUAD_DISABLE
}

/// `stream` followed by the viewport, scissor, rasterizer and blend state.
pub open spec fn raster_and_blend_stream(
    stream: Seq<u32>,
    pipe: Pipeline,
    viewport: ViewportTransform,
    scissor: Option<(i32, i32, u32, u32)>,
    fb_w: u32,
    fb_h: u32,
    uses_kill: bool,
) -> Seq<u32> {
    let (min_x, min_y, max_x, max_y) = clipped_scissor(scissor, fb_w, fb_h);
    let s = stream + ctx_seq(
        0x2843C,
        seq![
            viewport.x_scale,
            viewport.x_offset,
            viewport.y_scale,
            viewport.y_offset,
            FLOAT_HALF,
            FLOAT_HALF,
        ],
    );
    let s = s + ctx(PA_SC_VPORT_ZMIN_0, 0);
    let s = s + ctx(PA_SC_VPORT_ZMAX_0, FLOAT_ONE);
    let s = s + ctx(
        PA_SC_VPORT_SCISSOR_0_TL,
        (min_x & 0x7FFF) | ((min_y & 0x7FFF) << SCISSOR_TL_Y_SHIFT) | WINDOW_OFFSET_DISABLE,
    );
    let s = s + ctx(PA_SC_VPORT_SCISSOR_0_BR, (max_x & 0x7FFF) | ((max_y & 0x7FFF) << 16u32));
    let s = s + ctx(PA_SU_VTX_CNTL, VTX_PIX_CENTER | VTX_ROUND_TO_EVEN | VTX_QUANT_16_8_1_256);
    let s = s + ctx_seq(PA_CL_GB_VERT_CLIP_ADJ, seq![FLOAT_ONE, FLOAT_ONE, FLOAT_ONE, FLOAT_ONE]);
    let s = s + ctx(PA_SU_SC_MODE_CNTL, su_mode(pipe));
    let s = s + ctx(PA_CL_NGG_CNTL, NGG_CNTL_LEGACY);
    let s = s + ctx(PA_SC_EDGERULE, EDGERULE_GL);
    let s = s + ctx_idx(
        IA_MULTI_VGT_PARAM,
        1,
        f((IA_PRIMGROUP_SIZE - 1) as u32, 0, 0xFFFF) | IA_WD_SWITCH_ON_EOP,
    );
    let s = s + ctx(CB_TARGET_MASK, (pipe.color_mask as u32) & 0xF);
    let s = s + ctx(CB_COLOR_CONTROL, CB_MODE_NORMAL | CB_ROP3_COPY);
    let s = s + ctx(CB_BLEND0_CONTROL, blend_control(pipe));
    let s = s + ctx(SX_MRT0_BLEND_OPT, 0);
    let s = s + ctx(SX_PS_DOWNCONVERT, 0);
    let s = s + ctx(PA_SC_MODE_CNTL_0, SC_MODE_VPORT_SCISSOR_ENABLE | SC_MODE_ALTERNATE_RBS_PER_TILE);
    let s = s + ctx(
        PA_SC_MODE_CNTL_1,
        SC_MODE1_WALK_SIZE | SC_MODE1_WALK_FENCE_SIZE | SC_MODE1_SUPERTILE_WALK_ORDER
            | SC_MODE1_TILE_WALK_ORDER | SC_MODE1_MULTI_SHADER_ENGINE_PRIM_DISCARD
            | SC_MODE1_FORCE_EOV_CNTDWN | SC_MODE1_FORCE_EOV_REZ,
    );
    let s = s + ctx(PA_SC_AA_CONFIG, 0);
    let s = s + ctx_seq(PA_SC_AA_MASK_X0Y0_X1Y0, seq![0xFFFF_FFFFu32, 0xFFFF_FFFF]);
    let s = s + ctx(DB_EQAA, 0);
    let s = s + ctx_seq(DB_Z_INFO, seq![0u32, 0]);
    let s = s + ctx(DB_DEPTH_CONTROL, 0);
    let s = s + ctx(DB_RENDER_CONTROL, 0);
    let s = s + ctx(DB_COUNT_CONTROL, 0);
    let s = s + ctx(DB_RENDER_OVERRIDE2, 0);
    s + ctx(DB_SHADER_CONTROL, db_shader_control(uses_kill))
}

fn clip_scissor(scissor: Option<(i32, i32, u32, u32)>, fb_w: u32, fb_h: u32) -> (r: (
    u32,
    u32,
    u32,
    u32,
))
    requires
        scissor_in_range(scissor, fb_w, fb_h),
    ensures
        r == clipped_scissor(scissor, fb_w, fb_h),
{
    let (sx, sy, sw, sh) = match scissor {
        Some(rectangle) => rectangle,
        None => (0, 0, fb_w, fb_h),
    };
    let min_x: u32 = if sx < 0 {
        0
    } else {
        sx as u32
    };
    let min_y: u32 = if sy < 0 {
        0
    } else {
        sy as u32
    };
    let right = sx + sw as i32;
    let bottom = sy + sh as i32;
    let right: u32 = if right < 0 {
        0
    } else {
        right as u32
    };
    let bottom: u32 = if bottom < 0 {
        0
    } else {
        bottom as u32
    };
    let max_x = if right > fb_w {
        fb_w
    } else {
        right
    };
    let max_y = if bottom > fb_h {
        fb_h
    } else {
        bottom
    };
    (min_x, min_y, max_x, max_y)
}

/// Blend, color mask, and rasterizer state for one draw.
pub fn emit_raster_and_blend(
    pm4: &mut Pm4,
    pipe: &Pipeline,
    viewport: ViewportTransform,
    scissor: Option<(i32, i32, u32, u32)>,
    fb_w: u32,
    fb_h: u32,
    uses_kill: bool,
)
    requires
        scissor_in_range(scissor, fb_w, fb_h),
    ensures
        final(pm4).dwords@ == raster_and_blend_stream(
            old(pm4).dwords@,
            *pipe,
            viewport,
            scissor,
            fb_w,
            fb_h,
            uses_kill,
        ),
{
    // 1. Viewport: X/Y scale & offset, Z scale & offset (both 0.5).
    // PA_CL_VPORT_XSCALE: 6 contiguous context registers starting at 0x2843C.
    pm4.set_context_reg_seq(
        0x2843C,
        &[
            viewport.x_scale,
            viewport.x_offset,
            viewport.y_scale,
            viewport.y_offset,
            FLOAT_HALF,
            FLOAT_HALF,
        ],
    );
    pm4.set_context_reg(PA_SC_VPORT_ZMIN_0, 0);
    pm4.set_context_reg(PA_SC_VPORT_ZMAX_0, FLOAT_ONE);

    // 2. Scissor: intersect requested scissor with the framebuffer bounds.
    let (min_x, min_y, max_x, max_y) = clip_scissor(scissor, fb_w, fb_h);
    let vport_scissor_tl = (min_x & 0x7FFF) | ((min_y & 0x7FFF) << SCISSOR_TL_Y_SHIFT)
        | WINDOW_OFFSET_DISABLE;
    let vport_scissor_br = (max_x & 0x7FFF) | ((max_y & 0x7FFF) << 16u32);
    pm4.set_context_reg(PA_SC_VPORT_SCISSOR_0_TL, vport_scissor_tl);
    pm4.set_context_reg(PA_SC_VPORT_SCISSOR_0_BR, vport_scissor_br);

    // Guardband 1.0 = clip exactly at the viewport boundary.
    pm4.set_context_reg(PA_SU_VTX_CNTL, VTX_PIX_CENTER | VTX_ROUND_TO_EVEN | VTX_QUANT_16_8_1_256);
    pm4.set_context_reg_seq(PA_CL_GB_VERT_CLIP_ADJ, &[FLOAT_ONE, FLOAT_ONE, FLOAT_ONE, FLOAT_ONE]);

    // 3. Culling and face winding. With negative Y-scale, OpenGL CCW front
    // faces evaluate to clockwise in top-down screen space.
    let cull_front = pipe.cull_mode == gl::FRONT || pipe.cull_mode == gl::FRONT_AND_BACK;
    let cull_back = pipe.cull_mode == gl::BACK || pipe.cull_mode == gl::FRONT_AND_BACK;
    let su_mode = (if cull_front {
        SC_CULL_FRONT
    } else {
        0
    }) | (if cull_back {
        SC_CULL_BACK
    } else {
        0
    }) | (if pipe.front_face_ccw {
        SC_FACE
    } else {
        0
    }) | f(DRAW_TRIANGLES, POLY_FRONT_PTYPE_SHIFT, 0x7) | f(
        DRAW_TRIANGLES,
        POLY_BACK_PTYPE_SHIFT,
        0x7,
    ) | SC_PROVOKING_VTX_LAST;
    pm4.set_context_reg(PA_SU_SC_MODE_CNTL, su_mode);
    pm4.set_context_reg(PA_CL_NGG_CNTL, NGG_CNTL_LEGACY);
    pm4.set_context_reg(PA_SC_EDGERULE, EDGERULE_GL);
    // 128 primitives per group without GS/tessellation; WD_SWITCH_ON_EOP is
    // required whenever the work distributor would otherwise wait forever.
    pm4.set_context_reg_idx(
        IA_MULTI_VGT_PARAM,
        1,
        f(IA_PRIMGROUP_SIZE - 1, 0, 0xFFFF) | IA_WD_SWITCH_ON_EOP,
    );

    // 4. Blending & Color target mask.
    let mask = (pipe.color_mask as u32) & 0xF;
    pm4.set_context_reg(CB_TARGET_MASK, mask);
    pm4.set_context_reg(CB_COLOR_CONTROL, CB_MODE_NORMAL | CB_ROP3_COPY);
    let blend_cntl = if pipe.blend_enabled {
        let src_rgb = blend_factor(pipe.src_factor);
        let dst_rgb = blend_factor(pipe.dst_factor);
        BLEND_ENABLE | f(src_rgb, BLEND_COLOR_SRCBLEND_SHIFT, 0x1F) | f(
            dst_rgb,
            BLEND_COLOR_DESTBLEND_SHIFT,
            0x1F,
        ) | f(src_rgb, BLEND_ALPHA_SRCBLEND_SHIFT, 0x1F) | f(
            dst_rgb,
            BLEND_ALPHA_DESTBLEND_SHIFT,
            0x1F,
        )
    } else {
        0
    };
    pm4.set_context_reg(CB_BLEND0_CONTROL, blend_cntl);
    pm4.set_context_reg(SX_MRT0_BLEND_OPT, 0);  // disable SX blend optimizations
    pm4.set_context_reg(SX_PS_DOWNCONVERT, 0);

    // 5. Scan-conversion / rasterizer modes (single-sample, linear dst).
    pm4.set_context_reg(
        PA_SC_MODE_CNTL_0,
        SC_MODE_VPORT_SCISSOR_ENABLE | SC_MODE_ALTERNATE_RBS_PER_TILE,
    );
    pm4.set_context_reg(
        PA_SC_MODE_CNTL_1,
        SC_MODE1_WALK_SIZE | SC_MODE1_WALK_FENCE_SIZE | SC_MODE1_SUPERTILE_WALK_ORDER
            | SC_MODE1_TILE_WALK_ORDER | SC_MODE1_MULTI_SHADER_ENGINE_PRIM_DISCARD
            | SC_MODE1_FORCE_EOV_CNTDWN | SC_MODE1_FORCE_EOV_REZ,
    );
    pm4.set_context_reg(PA_SC_AA_CONFIG, 0);  // 1 sample
    // Single-sample target: every sample must be enabled or the coverage mask
    // rejects all fragments.
    pm4.set_context_reg_seq(PA_SC_AA_MASK_X0Y0_X1Y0, &[0xFFFF_FFFF, 0xFFFF_FFFF]);
    pm4.set_context_reg(DB_EQAA, 0);

    // 6. DB controls: no depth/stencil surface is bound.
    pm4.set_context_reg_seq(DB_Z_INFO, &[0, 0]);  // Z_INVALID, STENCIL_INVALID
    pm4.set_context_reg(DB_DEPTH_CONTROL, 0);
    pm4.set_context_reg(DB_RENDER_CONTROL, 0);
    pm4.set_context_reg(DB_COUNT_CONTROL, 0);
    pm4.set_context_reg(DB_RENDER_OVERRIDE2, 0);
    let db_shader = f(DB_EARLY_Z_THEN_LATE_Z, DB_Z_ORDER_SHIFT, 0x3) | (if uses_kill {
        DB_KILL_ENABLE
    } else {
        0
    }) | DB_DUAL_QUAD_DISABLE;
    pm4.set_context_reg(DB_SHADER_CONTROL, db_shader);
}

// ---------------------------------------------------------------------------
// Shader programs and draws
// ---------------------------------------------------------------------------
/// The entry interface shared with the shader compiler: user SGPR counts of
/// the two stages and the number of vertex parameter exports.
#[derive(Debug, Clone, Copy)]
pub struct ShaderInterface {
    pub vs_user_sgprs: u32,
    pub vs_param_exports: u32,
    pub ps_user_sgprs: u32,
}

/// The RSRC1 VGPR granule field for `vgprs` registers: blocks of eight,
/// minus one, at most 63.
pub open spec fn vgpr_granules(vgprs: u32) -> u32 {
    let blocks = saturating_decrement(vgprs / 8);
    if blocks > 63 {
        63
    } else {
        blocks
    }
}

fn granules(vgprs: u32) -> (r: u32)
    ensures
        r == vgpr_granules(vgprs),
{
    let blocks = decrement_or_zero(vgprs / 8);
    if blocks > 63 {
        63
    } else {
        blocks
    }
}

/// `stream` followed by both shader programs and their interface registers.
pub open spec fn shader_programs_stream(
    stream: Seq<u32>,
    interface: ShaderInterface,
    vs_va: u64,
    vs_vgprs: u32,
    ps_va: u64,
    ps_vgprs: u32,
    ps_input_ena: u32,
    num_interp: u32,
) -> Seq<u32> {
    let s = stream + sh(SPI_SHADER_PGM_LO_VS, address_low(vs_va));
    let s = s + sh(SPI_SHADER_PGM_HI_VS, address_high(vs_va));
    let s = s + sh(
        SPI_SHADER_PGM_RSRC1_VS,
        f(vgpr_granules(vs_vgprs), RSRC1_VGPRS_SHIFT, RSRC1_VGPRS_MASK)
            | RSRC1_FLOAT_MODE_DENORM16_64 | RSRC1_DX10_CLAMP | RSRC1_VS_MEM_ORDERED,
    );
    let s = s + sh(
        SPI_SHADER_PGM_RSRC2_VS,
        f(interface.vs_user_sgprs, RSRC2_USER_SGPR_SHIFT, RSRC2_USER_SGPR_MASK),
    );
    let s = s + sh(
        SPI_SHADER_PGM_RSRC3_VS,
        f(0xFFFF, RSRC3_CU_EN_SHIFT, RSRC3_CU_EN_MASK) | RSRC3_WAVE_LIMIT_VS,
    );
    let s = s + sh(SPI_SHADER_PGM_RSRC4_VS, f(0xFFFF, 0, 0xFFFF));
    let s = s + sh(SPI_SHADER_LATE_ALLOC_VS, 0);
    let s = s + ctx(
        SPI_VS_OUT_CONFIG,
        f((interface.vs_param_exports - 1) as u32, VS_EXPORT_COUNT_SHIFT, VS_EXPORT_COUNT_MASK),
    );
    let s = s + ctx(SPI_SHADER_POS_FORMAT, f(SPI_SHADER_4COMP, 0, 0xF));
    let s = s + ctx(PA_CL_VTE_CNTL, VTE_VPORT_XY_SCALE_ENA | VTE_VPORT_Z | VTE_VTX_W0_FMT);
    let s = s + ctx(PA_CL_CLIP_CNTL, DX_CLIP_SPACE_DEF | DX_LINEAR_ATTR_CLIP_ENA);
    let s = s + ctx(PA_CL_VS_OUT_CNTL, 0);
    let s = s + ctx(VGT_GS_MODE, GS_OFF);
    let s = s + ctx(VGT_PRIMITIVEID_EN, 0);
    let s = s + uconfig(GE_PC_ALLOC, f(63, 1, 0x3FF));
    let s = s + sh(SPI_SHADER_PGM_LO_PS, address_low(ps_va));
    let s = s + sh(SPI_SHADER_PGM_HI_PS, address_high(ps_va));
    let s = s + sh(
        SPI_SHADER_PGM_RSRC1_PS,
        f(vgpr_granules(ps_vgprs), RSRC1_VGPRS_SHIFT, RSRC1_VGPRS_MASK)
            | RSRC1_FLOAT_MODE_DENORM16_64 | RSRC1_DX10_CLAMP | RSRC1_PS_MEM_ORDERED,
    );
    let s = s + sh(
        SPI_SHADER_PGM_RSRC2_PS,
        f(interface.ps_user_sgprs, RSRC2_USER_SGPR_SHIFT, RSRC2_USER_SGPR_MASK),
    );
    let s = s + sh(
        SPI_SHADER_PGM_RSRC3_PS,
        f(0xFFFF, RSRC3_CU_EN_SHIFT, RSRC3_CU_EN_MASK) | RSRC3_WAVE_LIMIT_PS,
    );
    let s = s + sh(SPI_SHADER_PGM_RSRC4_PS, f(0xFFFF, 0, 0xFFFF));
    let s = s + ctx(SPI_PS_INPUT_ENA, ps_input_ena);
    let s = s + ctx(SPI_PS_INPUT_ADDR, ps_input_ena);
    let s = s + ctx(
        SPI_PS_IN_CONTROL,
        f(num_interp, PS_IN_NUM_INTERP_SHIFT, PS_IN_NUM_INTERP_MASK) | PS_IN_PS_W32_EN,
    );
    let s = s + ctx(SPI_BARYC_CNTL, 0);
    let s = s + ctx(SPI_INTERP_CONTROL_0, 0);
    let s = s + ctx(SPI_PS_INPUT_CNTL_0, 0);
    let s = if num_interp > 1 {
        s + ctx(SPI_PS_INPUT_CNTL_1, 2)
    } else {
        s
    };
    let s = s + ctx(SPI_SHADER_COL_FORMAT, f(SPI_SHADER_32_ABGR, 0, 0xF));
    let s = s + ctx(SPI_SHADER_Z_FORMAT, SPI_SHADER_NONE);
    s + ctx(CB_SHADER_MASK, CB_SHADER_MASK_RGBA)
}

/// Emit shader program pointers and fixed-function interface registers.
pub fn emit_shader_programs(
    pm4: &mut Pm4,
    interface: ShaderInterface,
    vs_va: u64,
    vs_vgprs: u32,
    ps_va: u64,
    ps_vgprs: u32,
    ps_input_ena: u32,
    num_interp: u32,
)
    requires
        interface.vs_param_exports >= 1,
    ensures
        final(pm4).dwords@ == shader_programs_stream(
            old(pm4).dwords@,
            interface,
            vs_va,
            vs_vgprs,
            ps_va,
            ps_vgprs,
            ps_input_ena,
            num_interp,
        ),
{
    // --- Vertex Shader ---
    pm4.set_sh_reg(SPI_SHADER_PGM_LO_VS, ((vs_va / 256) % 0x1_0000_0000) as u32);
    pm4.set_sh_reg(SPI_SHADER_PGM_HI_VS, (vs_va / 0x100_0000_0000) as u32);
    let vs_rsrc1 = f(granules(vs_vgprs), RSRC1_VGPRS_SHIFT, RSRC1_VGPRS_MASK)
        | RSRC1_FLOAT_MODE_DENORM16_64 | RSRC1_DX10_CLAMP | RSRC1_VS_MEM_ORDERED;
    let vs_rsrc2 = f(interface.vs_user_sgprs, RSRC2_USER_SGPR_SHIFT, RSRC2_USER_SGPR_MASK);
    pm4.set_sh_reg(SPI_SHADER_PGM_RSRC1_VS, vs_rsrc1);
    pm4.set_sh_reg(SPI_SHADER_PGM_RSRC2_VS, vs_rsrc2);
    pm4.set_sh_reg(
        SPI_SHADER_PGM_RSRC3_VS,
        f(0xFFFF, RSRC3_CU_EN_SHIFT, RSRC3_CU_EN_MASK) | RSRC3_WAVE_LIMIT_VS,
    );
    pm4.set_sh_reg(SPI_SHADER_PGM_RSRC4_VS, f(0xFFFF, 0, 0xFFFF));
    pm4.set_sh_reg(SPI_SHADER_LATE_ALLOC_VS, 0);

    // VS output config: the parameter exports; POS0 export format = 4COMP.
    let vs_out_config = f(interface.vs_param_exports - 1, VS_EXPORT_COUNT_SHIFT, VS_EXPORT_COUNT_MASK);
    pm4.set_context_reg(SPI_VS_OUT_CONFIG, vs_out_config);
    pm4.set_context_reg(SPI_SHADER_POS_FORMAT, f(SPI_SHADER_4COMP, 0, 0xF));
    pm4.set_context_reg(PA_CL_VTE_CNTL, VTE_VPORT_XY_SCALE_ENA | VTE_VPORT_Z | VTE_VTX_W0_FMT);
    pm4.set_context_reg(PA_CL_CLIP_CNTL, DX_CLIP_SPACE_DEF | DX_LINEAR_ATTR_CLIP_ENA);
    pm4.set_context_reg(PA_CL_VS_OUT_CNTL, 0);
    pm4.set_context_reg(VGT_GS_MODE, GS_OFF);
    pm4.set_context_reg(VGT_PRIMITIVEID_EN, 0);

    // GE_PC_ALLOC: 256 lines for the parameter cache.
    pm4.set_uconfig_reg(GE_PC_ALLOC, f(63, 1, 0x3FF));

    // --- Pixel Shader ---
    pm4.set_sh_reg(SPI_SHADER_PGM_LO_PS, ((ps_va / 256) % 0x1_0000_0000) as u32);
    pm4.set_sh_reg(SPI_SHADER_PGM_HI_PS, (ps_va / 0x100_0000_0000) as u32);
    let ps_rsrc1 = f(granules(ps_vgprs), RSRC1_VGPRS_SHIFT, RSRC1_VGPRS_MASK)
        | RSRC1_FLOAT_MODE_DENORM16_64 | RSRC1_DX10_CLAMP | RSRC1_PS_MEM_ORDERED;
    let ps_rsrc2 = f(interface.ps_user_sgprs, RSRC2_USER_SGPR_SHIFT, RSRC2_USER_SGPR_MASK);
    pm4.set_sh_reg(SPI_SHADER_PGM_RSRC1_PS, ps_rsrc1);
    pm4.set_sh_reg(SPI_SHADER_PGM_RSRC2_PS, ps_rsrc2);
    pm4.set_sh_reg(
        SPI_SHADER_PGM_RSRC3_PS,
        f(0xFFFF, RSRC3_CU_EN_SHIFT, RSRC3_CU_EN_MASK) | RSRC3_WAVE_LIMIT_PS,
    );
    pm4.set_sh_reg(SPI_SHADER_PGM_RSRC4_PS, f(0xFFFF, 0, 0xFFFF));

    // Input enables & interpolation: perspective-correct at pixel center.
    pm4.set_context_reg(SPI_PS_INPUT_ENA, ps_input_ena);
    pm4.set_context_reg(SPI_PS_INPUT_ADDR, ps_input_ena);
    pm4.set_context_reg(
        SPI_PS_IN_CONTROL,
        f(num_interp, PS_IN_NUM_INTERP_SHIFT, PS_IN_NUM_INTERP_MASK) | PS_IN_PS_W32_EN,
    );
    pm4.set_context_reg(SPI_BARYC_CNTL, 0);  // center evaluation
    pm4.set_context_reg(SPI_INTERP_CONTROL_0, 0);
    // V_INTERP attribute indices address this map, not VS export indices.
    // Color is PARAM0; fog is PARAM2 (PARAM1 contains texture coordinates).
    pm4.set_context_reg(SPI_PS_INPUT_CNTL_0, 0);
    if num_interp > 1 {
        pm4.set_context_reg(SPI_PS_INPUT_CNTL_1, 2);
    }

    // Color export: MRT0 = 32_ABGR, Z export = NONE.
    pm4.set_context_reg(SPI_SHADER_COL_FORMAT, f(SPI_SHADER_32_ABGR, 0, 0xF));
    pm4.set_context_reg(SPI_SHADER_Z_FORMAT, SPI_SHADER_NONE);
    pm4.set_context_reg(CB_SHADER_MASK, CB_SHADER_MASK_RGBA);
}

/// Set VS user SGPRs: 64-bit vertex buffer pointer (`s[0:1]`).
pub fn emit_vs_user_data(pm4: &mut Pm4, vb_va: u64)
    ensures
        final(pm4).dwords@ == old(pm4).dwords@ + sh_seq(
            SPI_SHADER_USER_DATA_VS_0,
            seq![low_dword(vb_va), high_dword(vb_va)],
        ),
{
    pm4.set_sh_reg_seq(
        SPI_SHADER_USER_DATA_VS_0,
        &[(vb_va % 0x1_0000_0000) as u32, (vb_va / 0x1_0000_0000) as u32],
    );
}

/// Set PS user SGPRs: the fragment constants (`s[0:6]`) in register order.
pub fn emit_ps_user_data(pm4: &mut Pm4, sgprs: &[u32])
    ensures
        final(pm4).dwords@ == old(pm4).dwords@ + sh_seq(SPI_SHADER_USER_DATA_PS_0, sgprs@),
{
    pm4.set_sh_reg_seq(SPI_SHADER_USER_DATA_PS_0, sgprs);
}

/// Non-indexed triangle draw (`DRAW_INDEX_AUTO`).
pub fn emit_draw_auto(pm4: &mut Pm4, count: u32)
    ensures
        final(pm4).dwords@ == old(pm4).dwords@ + uconfig(VGT_PRIMITIVE_TYPE, DI_PT_TRILIST) + seq![
            packet3_header(PKT3_NUM_INSTANCES, 0),
            1u32,
        ] + seq![packet3_header(PKT3_DRAW_INDEX_AUTO, 1), count, 2u32],
{
    pm4.set_uconfig_reg(VGT_PRIMITIVE_TYPE, DI_PT_TRILIST);
    pm4.num_instances(1);
    pm4.draw_index_auto(count);
}

/// Indexed triangle draw (`DRAW_INDEX_2`) of 16- or 32-bit indices.
pub fn emit_draw_indexed(pm4: &mut Pm4, ib_va: u64, index_count: u32, is_u16: bool)
    ensures
        final(pm4).dwords@ == old(pm4).dwords@ + uconfig(VGT_PRIMITIVE_TYPE, DI_PT_TRILIST) + seq![
            packet3_header(PKT3_NUM_INSTANCES, 0),
            1u32,
        ] + uconfig_idx(
            VGT_INDEX_TYPE,
            2,
            if is_u16 {
                VGT_INDEX_16
            } else {
                VGT_INDEX_32
            },
        ) + seq![
            packet3_header(PKT3_DRAW_INDEX_2, 4),
            index_count,
            low_dword(ib_va),
            high_dword(ib_va),
            index_count,
            0u32,
        ],
{
    pm4.set_uconfig_reg(VGT_PRIMITIVE_TYPE, DI_PT_TRILIST);
    pm4.num_instances(1);
    let idx_type = if is_u16 {
        VGT_INDEX_16
    } else {
        VGT_INDEX_32
    };
    pm4.set_uconfig_reg_idx(VGT_INDEX_TYPE, 2, idx_type);
    pm4.draw_index_2(index_count, ib_va, index_count);
}

} // verus!
