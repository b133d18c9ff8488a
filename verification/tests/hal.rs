use vantage::drm::Error;
use vantage::hal::amdgpu::{
    batch_needs_flush, grown_size, pixel_shader_vgprs, submission_handles, upload_layout,
    VaAllocator, ARENA_INITIAL_SIZE, IB_INITIAL_SIZE,
};
use vantage::hal::amdgpu::pm4::{
    packet3, Pm4, PKT3_NOP, PKT3_SET_SH_REG, PM4_NOP_1DW, SI_SH_REG_OFFSET,
};
use vantage::hal::amdgpu::regs::{
    blend_factor, depth_func, f, CB_COLOR_STRIDE, CB_COLOR0_INFO, PERSP_CENTER_ENA,
    RSRC1_PS_MEM_ORDERED, RSRC1_VGPRS_MASK, RSRC1_VS_MEM_ORDERED, SPI_SHADER_PGM_RSRC1_PS,
    SPI_SHADER_PGM_RSRC1_VS, SPI_SHADER_REQ_CTRL_PS, SPI_SHADER_USER_ACCUM_PS_0,
    SPI_SHADER_USER_ACCUM_VS_0,
};
use vantage::hal::amdgpu::state::{
    emit_color_target, emit_draw_auto, emit_draw_indexed, emit_preamble, emit_raster_and_blend,
    emit_shader_programs, emit_vs_user_data, ShaderInterface, ViewportTransform,
};
use vantage::hal::{
    clear_color_image, clear_depth_image, clear_stencil_image, BufferId, DescriptorSet, Device,
    Format, Image, ImageId, Instance, Pipeline, PipelineId,
};
use vantage::raster::{
    apply_stencil_op, covers_pixel, edge_function, fragment_outcome, gl, line_step,
    pixel_bounding_box, pixel_is_visible, test_stencil, triangle_culled, write_color,
    StencilState,
};

#[test]
fn padding_uses_header_only_nops() {
    let mut pm4 = Pm4::new();
    pm4.num_instances(1);
    pm4.pad_to(32);
    assert_eq!(pm4.len(), 32);
    assert!(pm4.dwords[2..].iter().all(|&dw| dw == 0xffff_1000));
}

#[test]
fn padding_an_aligned_stream_adds_nothing() {
    let mut pm4 = Pm4::with_capacity(8);
    pm4.extend(&[1, 2, 3, 4]);
    pm4.pad_to(4);
    assert_eq!(pm4.dwords, vec![1, 2, 3, 4]);
    pm4.push(5);
    pm4.pad_to(3);
    assert_eq!(pm4.len(), 6);
    assert_eq!(PM4_NOP_1DW, packet3(PKT3_NOP, 0x3fff));
    pm4.clear();
    assert!(pm4.is_empty());
}

#[test]
fn register_writes_use_dword_offsets() {
    let mut pm4 = Pm4::new();
    pm4.set_context_reg(0x28000 + 0x40, 7);
    pm4.set_sh_reg_seq(0xB030, &[1, 2]);
    pm4.set_uconfig_reg_idx(0x30000 + 8, 2, 9);
    pm4.event_write(20, 0);
    pm4.draw_index_2(3, 0x1_2345_6780, 3);
    assert_eq!(
        pm4.dwords,
        vec![
            0xc001_6900, 0x10, 7,
            0xc002_7600, 0xc, 1, 2,
            0xc001_7a00, 0x2000_0002, 9,
            0xc000_4600, 20,
            0xc004_2700, 3, 0x2345_6780, 1, 3, 0,
        ]
    );
    let mut release = Pm4::new();
    release.release_mem(20, 5, 0xff, 1, 2, 1, 0x0000_0001_0000_0100, 77);
    assert_eq!(
        release.dwords,
        vec![0xc006_4900, 0xff514, 0x2201_0000, 0x100, 1, 77, 0, 0]
    );
}

#[test]
fn preamble_starts_with_context_control_and_clear_state() {
    let mut pm4 = Pm4::new();
    emit_preamble(&mut pm4);
    assert_eq!(&pm4.dwords[..5], &[0xc001_2800, 0x8000_0000, 0x8000_0000, 0xc000_1200, 0]);
    // SPI_SHADER_REQ_CTRL_PS = grouping with four requests per CU.
    assert_eq!(&pm4.dwords[5..8], &[0xc001_7600, 0x30, 7]);
}

#[test]
fn color_target_disables_the_other_render_targets() {
    let mut pm4 = Pm4::new();
    emit_color_target(&mut pm4, 0x12_3456_7800, 1024, 256, 64, true);
    assert_eq!(pm4.dwords[2], 0x1234_5678);
    let info = CB_COLOR0_INFO + 7 * CB_COLOR_STRIDE;
    let n = pm4.dwords.len();
    assert_eq!(&pm4.dwords[n - 6..n - 3], &[0xc001_6900, (info - 0x28000) >> 2, 0]);
    assert_eq!(pm4.dwords[n - 1], 256 | (64 << 16));
}

#[test]
fn scissor_is_clipped_to_the_framebuffer() {
    let pipe = Pipeline {
        topology: 0,
        cull_mode: gl::BACK,
        front_face_ccw: true,
        blend_enabled: true,
        src_factor: gl::SRC_ALPHA,
        dst_factor: gl::ONE_MINUS_SRC_ALPHA,
        depth_test: false,
        depth_write: false,
        depth_func: gl::LESS,
        color_mask: 0xff,
    };
    let viewport = ViewportTransform {
        x_scale: 32.0f32.to_bits(),
        x_offset: 32.0f32.to_bits(),
        y_scale: (-16.0f32).to_bits(),
        y_offset: 16.0f32.to_bits(),
    };
    let mut pm4 = Pm4::new();
    emit_raster_and_blend(&mut pm4, &pipe, viewport, Some((-5, 10, 100, 100)), 64, 32, true);
    // Viewport scale/offset then depth 0.5/0.5.
    assert_eq!(&pm4.dwords[2..8], &[0x4200_0000, 0x4200_0000, 0xc180_0000, 0x4180_0000, 0x3f00_0000, 0x3f00_0000]);
    // Scissor TL (0, 10) with the window offset disabled; BR (64, 32).
    assert_eq!(pm4.dwords[16], 10 << 16 | 1 << 31);
    assert_eq!(pm4.dwords[19], 64 | 32 << 16);
}

#[test]
fn shader_programs_program_vgpr_granules() {
    let interface = ShaderInterface { vs_user_sgprs: 2, vs_param_exports: 3, ps_user_sgprs: 7 };
    let mut pm4 = Pm4::new();
    emit_shader_programs(&mut pm4, interface, 0x100000, 16, 0x200000, 8, 2, 2);
    let vs_rsrc1 = pm4.dwords[8];
    assert_eq!(vs_rsrc1 & 0x3f, 1);
    assert_eq!((vs_rsrc1 >> 12) & 0xff, 192);
    assert_eq!(pm4.dwords[2], 0x1000);
    assert_eq!(pm4.dwords[11], f(2, 1, 0x1f));
}

/// The value a stream's SET_SH_REG packets give to `reg`.
fn sh_reg(pm4: &Pm4, reg: u32) -> u32 {
    let mut i = 0;
    while i < pm4.dwords.len() {
        let header = pm4.dwords[i];
        let op = (header >> 8) & 0xff;
        let count = ((header >> 16) & 0x3fff) as usize + 1;
        if op == PKT3_SET_SH_REG {
            let start = SI_SH_REG_OFFSET + (pm4.dwords[i + 1] & 0xffff) * 4;
            if reg >= start && (reg - start) / 4 < (count - 1) as u32 {
                return pm4.dwords[i + 2 + ((reg - start) / 4) as usize];
            }
        }
        i += count + 1;
    }
    panic!("missing SH register {reg:#x}");
}

#[test]
fn gfx10_shader_resources_and_requests() {
    let mut pm4 = Pm4::new();
    emit_preamble(&mut pm4);
    assert_eq!(sh_reg(&pm4, SPI_SHADER_REQ_CTRL_PS), 7);
    assert_eq!(sh_reg(&pm4, SPI_SHADER_USER_ACCUM_PS_0), 0);
    assert_eq!(sh_reg(&pm4, SPI_SHADER_USER_ACCUM_VS_0), 0);

    let interface = ShaderInterface { vs_user_sgprs: 2, vs_param_exports: 3, ps_user_sgprs: 7 };
    let mut pm4 = Pm4::new();
    emit_shader_programs(&mut pm4, interface, 0x100000, 16, 0x200000, 8, PERSP_CENTER_ENA, 2);
    let vs = sh_reg(&pm4, SPI_SHADER_PGM_RSRC1_VS);
    let ps = sh_reg(&pm4, SPI_SHADER_PGM_RSRC1_PS);
    assert_eq!(vs & RSRC1_VGPRS_MASK, 1); // 16 VGPRs
    assert_eq!(ps & RSRC1_VGPRS_MASK, 0); // 8 VGPRs
    assert_ne!(vs & RSRC1_VS_MEM_ORDERED, 0);
    assert_ne!(ps & RSRC1_PS_MEM_ORDERED, 0);
    assert_eq!((vs >> 12) & 0xff, 192);
    assert_eq!((ps >> 12) & 0xff, 192);
}

#[test]
fn draws_select_the_index_size() {
    let mut auto = Pm4::new();
    emit_draw_auto(&mut auto, 3);
    assert_eq!(auto.dwords, vec![0xc001_7900, 0x242, 4, 0xc000_2f00, 1, 0xc001_2d00, 3, 2]);
    let mut indexed = Pm4::new();
    emit_draw_indexed(&mut indexed, 0x2000, 6, true);
    assert_eq!(&indexed.dwords[5..8], &[0xc001_7a00, 0x2000_0243, 0]);
    let mut user = Pm4::new();
    emit_vs_user_data(&mut user, 0x5_0000_1000);
    assert_eq!(&user.dwords[2..], &[0x1000, 5]);
}

#[test]
fn gl_enums_map_to_hardware_values() {
    assert_eq!(blend_factor(gl::ONE_MINUS_CONSTANT_ALPHA), 14);
    assert_eq!(blend_factor(0x1234), 1);
    assert_eq!(depth_func(gl::GEQUAL), 6);
    assert_eq!(depth_func(gl::ALWAYS), 7);
}

#[test]
fn images_are_zeroed_linear_allocations() {
    let image = Image::new(Format::B8G8R8A8Unorm, 4, 3);
    assert_eq!(image.data, vec![0u8; 48]);
    assert_eq!(Image::new(Format::S8Uint, 4, 3).data.len(), 12);
    assert!(Format::R8G8B8A8Unorm.is_color() && !Format::D32Sfloat.is_color());
    let devices = Instance::enumerate();
    assert_eq!(devices.len(), 1);
    assert_eq!(devices[0].limits.max_image_dimension_2d, 16384);
    assert_eq!(devices[0].limits.max_push_constants_size, 256);
}

#[test]
fn stencil_test_compares_masked_reference() {
    let state = StencilState {
        stencil_test: true,
        stencil_func: gl::LESS,
        stencil_ref: 3,
        stencil_func_mask: 0xff,
        stencil_write_mask: 0xff,
    };
    let stencil = [5u8, 2];
    assert_eq!(test_stencil(&state, Some(&stencil), 0), (true, true));
    assert_eq!(test_stencil(&state, Some(&stencil), 1), (true, false));
    assert_eq!(test_stencil(&state, None, 1), (true, true));
    let masked = StencilState { stencil_func: gl::EQUAL, stencil_func_mask: 0x0f, stencil_ref: 0x13, ..state };
    assert_eq!(test_stencil(&masked, Some(&[0x23u8]), 0), (true, true));
    let never = StencilState { stencil_func: gl::NEVER, ..state };
    assert_eq!(test_stencil(&never, Some(&stencil), 0), (true, false));
    assert_eq!(test_stencil(&StencilState::disabled(), Some(&stencil), 1), (true, true));
}

#[test]
fn stencil_operations_saturate_wrap_and_respect_the_write_mask() {
    let state = StencilState {
        stencil_test: true,
        stencil_func: gl::ALWAYS,
        stencil_ref: 0x1ff,
        stencil_func_mask: 0xff,
        stencil_write_mask: 0xff,
    };
    let mut stencil = [255u8, 0, 0x0f, 0x30];
    apply_stencil_op(&state, &mut stencil, 0, gl::STENCIL_INCR);
    assert_eq!(stencil[0], 255);
    apply_stencil_op(&state, &mut stencil, 0, gl::STENCIL_INCR_WRAP);
    assert_eq!(stencil[0], 0);
    apply_stencil_op(&state, &mut stencil, 1, gl::STENCIL_DECR);
    assert_eq!(stencil[1], 0);
    apply_stencil_op(&state, &mut stencil, 1, gl::STENCIL_DECR_WRAP);
    assert_eq!(stencil[1], 255);
    apply_stencil_op(&state, &mut stencil, 2, gl::STENCIL_INVERT);
    assert_eq!(stencil[2], 0xf0);
    apply_stencil_op(&state, &mut stencil, 2, gl::STENCIL_KEEP);
    assert_eq!(stencil[2], 0xf0);
    let masked = StencilState { stencil_write_mask: 0x0f, ..state };
    apply_stencil_op(&masked, &mut stencil, 3, gl::STENCIL_REPLACE);
    assert_eq!(stencil[3], 0x3f);
    let closed = StencilState { stencil_write_mask: 0, ..state };
    apply_stencil_op(&closed, &mut stencil, 3, gl::STENCIL_ZERO);
    assert_eq!(stencil[3], 0x3f);
    apply_stencil_op(&StencilState::disabled(), &mut stencil, 9, gl::STENCIL_ZERO);
    assert_eq!(stencil, [0, 255, 0xf0, 0x3f]);
}

#[test]
fn device_hands_out_fresh_ids_and_finds_resources_again() {
    let mut device = Device::default();
    let buffer = device.create_buffer(6);
    let image = device.create_image(Format::R8G8B8A8Unorm, 2, 1);
    let pipeline = device.create_pipeline(Pipeline {
        topology: 4,
        cull_mode: 0,
        front_face_ccw: true,
        blend_enabled: false,
        src_factor: gl::ONE,
        dst_factor: gl::ZERO,
        depth_test: false,
        depth_write: true,
        depth_func: gl::LESS,
        color_mask: 0x0f,
    });
    let mut set = DescriptorSet::default();
    set.bind_texture(0, image);
    assert_eq!(set.texture(0), Some(image));
    assert_eq!(set.texture(1), None);
    let descriptors = device.create_descriptor_set(set);
    assert_eq!((buffer.0, image.0, pipeline.0, descriptors.0), (1, 2, 3, 4));
    assert_eq!(device.buffer(buffer).map(|b| b.data.clone()), Some(vec![0; 6]));
    assert_eq!(device.image(image).map(|i| (i.width, i.height, i.data.len())), Some((2, 1, 8)));
    assert_eq!(device.pipeline(pipeline).map(|p| p.color_mask), Some(0x0f));
    assert!(device.pipeline(PipelineId(9)).is_none());
    // An id of one kind finds nothing of another.
    assert!(device.buffer(BufferId(image.0)).is_none());

    device.buffer_mut(buffer).unwrap().data[2] = 9;
    assert_eq!(device.buffer(buffer).unwrap().data[2], 9);

    device.destroy_buffer(buffer);
    assert!(device.buffer(buffer).is_none());
    assert!(device.buffer_mut(buffer).is_none());
    device.destroy_image(image);
    assert!(device.image(image).is_none());
    assert_eq!(device.create_buffer(1).0, 5);
}

#[test]
fn transfers_clamp_to_their_resources() {
    let mut device = Device::new();
    let buffer = device.create_buffer(12);
    device.fill_buffer(buffer, 10, 100, 7);
    assert_eq!(&device.buffer(buffer).unwrap().data[8..], &[0, 0, 7, 7]);
    for (k, byte) in device.buffer_mut(buffer).unwrap().data.iter_mut().enumerate() {
        *byte = k as u8 + 1;
    }

    // Two rows of eight bytes; the buffer reaches half of the second row.
    let image = device.create_image(Format::R8G8B8A8Unorm, 2, 3);
    device.copy_buffer_to_image(buffer, image, (2, 2));
    let data = &device.image(image).unwrap().data;
    assert_eq!(&data[..12], &[1, 2, 3, 4, 5, 6, 7, 8, 9, 10, 11, 12]);
    assert!(data[12..].iter().all(|&b| b == 0));

    let readback = device.create_buffer(4);
    device.copy_image_to_buffer(image, readback);
    assert_eq!(device.buffer(readback).unwrap().data, vec![1, 2, 3, 4]);

    // Missing resources leave everything as it was.
    device.copy_buffer_to_image(BufferId(99), image, (2, 2));
    device.copy_image_to_buffer(ImageId(99), readback);
    device.fill_buffer(BufferId(99), 0, 4, 1);
    assert_eq!(device.buffer(readback).unwrap().data, vec![1, 2, 3, 4]);
}

#[test]
fn clears_follow_the_image_format() {
    let mut bgra = Image::new(Format::B8G8R8A8Unorm, 1, 2);
    bgra.data.push(0xee);
    clear_color_image(&mut bgra, [1, 2, 3, 4]);
    assert_eq!(bgra.data, vec![3, 2, 1, 4, 3, 2, 1, 4, 0xee]);
    let mut rgba = Image::new(Format::R8G8B8A8Unorm, 1, 1);
    clear_color_image(&mut rgba, [1, 2, 3, 4]);
    assert_eq!(rgba.data, vec![1, 2, 3, 4]);

    let mut depth = Image::new(Format::D32Sfloat, 2, 1);
    clear_color_image(&mut depth, [1, 2, 3, 4]);
    assert_eq!(depth.data, vec![0; 8]);
    clear_depth_image(&mut depth, 1.0f32.to_ne_bytes());
    assert_eq!(&depth.data[4..], &1.0f32.to_ne_bytes());
    clear_depth_image(&mut rgba, [9, 9, 9, 9]);
    assert_eq!(rgba.data, vec![1, 2, 3, 4]);

    let mut stencil = Image::new(Format::S8Uint, 3, 1);
    clear_stencil_image(&mut stencil, 0x80);
    assert_eq!(stencil.data, vec![0x80; 3]);
}

#[test]
fn triangle_setup_in_fixed_point() {
    assert_eq!(edge_function(0, 0, 16, 0, 0, 16), Some(256));
    assert_eq!(edge_function(0, 0, 0, 16, 16, 0), Some(-256));
    assert_eq!(edge_function(i64::MIN, 0, 1, 0, 0, 0), None);
    assert_eq!(edge_function(0, 0, i64::MAX, 0, 0, 2), None);

    assert!(triangle_culled(0, true, 0));
    assert!(!triangle_culled(100, true, gl::BACK));
    assert!(triangle_culled(-100, true, gl::BACK));
    assert!(triangle_culled(100, true, gl::FRONT));
    assert!(triangle_culled(5, false, gl::FRONT_AND_BACK));
    assert!(!triangle_culled(5, false, 0));

    assert!(covers_pixel(10, 0, 1, 2));
    assert!(!covers_pixel(10, -1, 1, 2));
    assert!(covers_pixel(-10, 0, -1, -2));
    assert!(!covers_pixel(-10, 1, 0, 0));

    assert_eq!(pixel_bounding_box([-20, 40, 100], [8, 300, 30], 5, 10), (0, 4, 0, 9));
    assert_eq!(pixel_bounding_box([17, 33, 20], [40, 41, 42], 100, 100), (1, 3, 2, 3));
}

#[test]
fn line_steps_follow_the_error_term() {
    assert_eq!(line_step(-1, 3, -2), Some((0, true, true)));
    assert_eq!(line_step(5, 10, -1), Some((14, true, true)));
    assert_eq!(line_step(-5, 2, -3), Some((-3, false, true)));
    assert_eq!(line_step(3, 2, -3), Some((0, true, false)));
    assert_eq!(line_step(i32::MAX, 0, 0), None);
}

#[test]
fn fragments_pass_bounds_scissor_stencil_and_depth_in_order() {
    assert!(pixel_is_visible(3, 3, 4, 4, None));
    assert!(!pixel_is_visible(4, 3, 4, 4, None));
    assert!(!pixel_is_visible(-1, 0, 4, 4, None));
    let scissor = Some((1, 1, 2, 2));
    assert!(pixel_is_visible(2, 2, 4, 4, scissor));
    assert!(!pixel_is_visible(3, 2, 4, 4, scissor));
    assert!(!pixel_is_visible(0, 2, 4, 4, scissor));

    assert_eq!(fragment_outcome(true, false, true, 1, 2, 3), (Some(1), false));
    assert_eq!(fragment_outcome(true, true, false, 1, 2, 3), (Some(2), false));
    assert_eq!(fragment_outcome(true, true, true, 1, 2, 3), (Some(3), true));
    assert_eq!(fragment_outcome(false, false, false, 1, 2, 3), (None, false));
    assert_eq!(fragment_outcome(false, false, true, 1, 2, 3), (None, true));

    let mut target = [0u8; 8];
    write_color(&mut target, 4, [1, 2, 3, 4], 0b0101, true);
    assert_eq!(target, [0, 0, 0, 0, 3, 0, 1, 0]);
    write_color(&mut target, 0, [1, 2, 3, 4], 0xf, false);
    assert_eq!(target, [1, 2, 3, 4, 3, 0, 1, 0]);
    write_color(&mut target, 4, [9, 9, 9, 9], 0, false);
    assert_eq!(target, [1, 2, 3, 4, 3, 0, 1, 0]);
}

/// Fill a staging buffer, copy it into a 64x64 RGBA image, copy the image
/// back out, and read the center pixel.
#[test]
fn fill_copy_readback_roundtrip() {
    let mut dev = Device::new();

    let staging = dev.create_buffer(64 * 64 * 4);
    let image = dev.create_image(Format::R8G8B8A8Unorm, 64, 64);
    let readback = dev.create_buffer(64 * 64 * 4);

    {
        let b = dev.buffer_mut(staging).unwrap();
        for y in 0..64u32 {
            for x in 0..64u32 {
                let o = ((y * 64 + x) * 4) as usize;
                b.data[o] = x as u8;
                b.data[o + 1] = y as u8;
                b.data[o + 2] = (x ^ y) as u8;
                b.data[o + 3] = 255;
            }
        }
    }

    dev.copy_buffer_to_image(staging, image, (64, 64));
    dev.copy_image_to_buffer(image, readback);

    let rb = dev.buffer(readback).unwrap();
    let center = ((32 * 64 + 32) * 4) as usize;
    assert_eq!(&rb.data[center..center + 4], &[32, 32, 0, 255]);
    let corner = 0usize;
    assert_eq!(&rb.data[corner..corner + 4], &[0, 0, 0, 255]);
}

#[test]
fn virtual_addresses_are_handed_out_in_whole_pages() {
    let mut va = VaAllocator { cursor: 0x100_0000, max: 0x103_0000 };
    assert_eq!(va.alloc_va(1), Ok(0x100_0000));
    assert_eq!(va.cursor, 0x101_0000);
    assert_eq!(va.alloc_va(0x10000), Ok(0x101_0000));
    assert_eq!(va.alloc_va(0x10001), Err(Error::Io(12)));
    assert_eq!(va.cursor, 0x102_0000);
    assert_eq!(va.alloc_va(0), Ok(0x102_0000));
    assert_eq!(va.alloc_va(0x10000), Ok(0x102_0000));
    assert_eq!(va.cursor, 0x103_0000);
}

#[test]
fn draws_are_laid_out_and_batched() {
    assert_eq!(upload_layout(32, 20, 5), (32, 64, 48));
    assert_eq!(upload_layout(0, 0, 0), (0, 0, 0));
    assert!(!batch_needs_flush(100, IB_INITIAL_SIZE, 0, 10, ARENA_INITIAL_SIZE));
    assert!(batch_needs_flush(65100, IB_INITIAL_SIZE, 0, 10, ARENA_INITIAL_SIZE));
    assert!(batch_needs_flush(0, IB_INITIAL_SIZE, 0x1f_fff0, 0x20, ARENA_INITIAL_SIZE));
    assert_eq!(grown_size(100, ARENA_INITIAL_SIZE), ARENA_INITIAL_SIZE);
    assert_eq!(grown_size(0x20_0000, ARENA_INITIAL_SIZE), 0x40_0000);
    assert_eq!(pixel_shader_vgprs(Some(0x2_00c1)), 16);
    assert_eq!(pixel_shader_vgprs(Some(0x3f)), 512);
    assert_eq!(pixel_shader_vgprs(None), 16);
    assert_eq!(submission_handles(1, 2, 3, &[5, 2, 5, 7]), vec![1, 2, 3, 5, 7]);
    assert_eq!(submission_handles(1, 2, 3, &[]), vec![1, 2, 3]);
}

/// Walks a line with `line_step` the way the rasterizer does and returns the
/// visited pixels.
fn walk(x0: i32, y0: i32, x1: i32, y1: i32) -> Vec<(i32, i32)> {
    let (mut x, mut y) = (x0, y0);
    let dx = (x1 - x0).abs();
    let dy = -(y1 - y0).abs();
    let sx = if x0 < x1 { 1 } else { -1 };
    let sy = if y0 < y1 { 1 } else { -1 };
    let mut err = dx + dy;
    let mut visited = vec![(x, y)];
    while (x, y) != (x1, y1) {
        let (next, step_x, step_y) = line_step(err, dx, dy).unwrap();
        err = next;
        if step_x {
            x += sx;
        }
        if step_y {
            y += sy;
        }
        visited.push((x, y));
        assert!(visited.len() as i32 <= dx - dy + 1, "the walk overran its end");
    }
    visited
}

#[test]
fn line_walks_end_at_their_end_point() {
    assert_eq!(walk(0, 0, 5, -2), vec![(0, 0), (1, 0), (2, -1), (3, -1), (4, -2), (5, -2)]);
    assert_eq!(walk(2, 2, 2, 2), vec![(2, 2)]);
    let steep = walk(0, 0, -3, 7);
    assert_eq!(steep.len(), 8);
    assert_eq!(*steep.last().unwrap(), (-3, 7));
    assert!(steep.windows(2).all(|w| (w[1].1 - w[0].1) == 1 && (w[0].0 - w[1].0) <= 1));
}

#[test]
fn clear_attachments_respects_masks() {
    let mut dev = Device::new();
    let color = dev.create_image(Format::R8G8B8A8Unorm, 8, 8);
    let _depth = dev.create_image(Format::D32Sfloat, 8, 8);

    // A clear of color and depth while no target is bound touches nothing.
    let rgba = [1.0f32, 0.0, 0.0, 1.0].map(|c| (c * 255.0 + 0.5) as u8);
    let targets = (dev.color_attachment, dev.depth_attachment, dev.stencil_attachment);
    dev.clear_attachments(targets, rgba, 0.5f32.to_ne_bytes(), 0, 1 | 2);
    let im = dev.image(color).unwrap();
    assert!(im.data.iter().all(|&b| b == 0));
}

#[test]
fn clear_attachments_clears_only_the_selected_targets() {
    let mut dev = Device::new();
    let color = dev.create_image(Format::B8G8R8A8Unorm, 2, 2);
    let depth = dev.create_image(Format::D32Sfloat, 2, 2);
    let stencil = dev.create_image(Format::S8Uint, 2, 2);
    let targets = (Some(color), Some(depth), Some(stencil));

    // Color and stencil selected, depth left alone.
    dev.clear_attachments(targets, [10, 20, 30, 40], 1.0f32.to_ne_bytes(), 7, 1 | 4);
    assert_eq!(&dev.image(color).unwrap().data[0..4], &[30, 20, 10, 40]);
    assert!(dev.image(depth).unwrap().data.iter().all(|&b| b == 0));
    assert!(dev.image(stencil).unwrap().data.iter().all(|&b| b == 7));

    // Depth alone.
    dev.clear_attachments(targets, [0, 0, 0, 0], 1.0f32.to_ne_bytes(), 0, 2);
    assert_eq!(&dev.image(depth).unwrap().data[12..16], &1.0f32.to_ne_bytes());
    assert_eq!(&dev.image(color).unwrap().data[12..16], &[30, 20, 10, 40]);
    assert!(dev.image(stencil).unwrap().data.iter().all(|&b| b == 7));
}
