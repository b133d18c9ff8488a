use vantage::egl::{
    choose_platform, platform_from_tag, platform_tag, vendor_abi_supported, NativePlatform,
    EGL_PLATFORM_SURFACELESS_MESA, EGL_PLATFORM_WAYLAND_KHR, EGL_PLATFORM_X11_KHR,
    choose_config, config_attrib, copy_frame, native_window_size, read_u16_at, read_u32_at,
    surface_size, PresentRing, RingSlot, EGL_BAD_ATTRIBUTE, EGL_CONFIG_ID, EGL_DEPTH_SIZE,
    EGL_DONT_CARE, EGL_HEIGHT, EGL_NATIVE_VISUAL_ID, EGL_NONE, EGL_RED_SIZE, EGL_SURFACE_TYPE,
    EGL_WIDTH, EGL_WINDOW_BIT,
};
use vantage::drm::{DRM_FORMAT_MOD_INVALID, DRM_FORMAT_RGB565, DRM_FORMAT_XRGB8888};
use vantage::gbm::{
    bytes_per_pixel, format_modifier_plane_count, format_name, import_length, is_format_supported,
    map_offset, modifiers_supported, surface_accepted, FrontBufferPool,
};
use vantage::gles::VantageError;
use vantage::raster::{gl, texel_or_edge, SampledTexture};

#[test]
fn texels_clamp_or_wrap_into_the_texture() {
    let texture = |wrap_s, wrap_t| SampledTexture {
        width: 4,
        height: 2,
        wrap_s,
        wrap_t,
        enabled: true,
        ..SampledTexture::disabled()
    };
    assert_eq!(texel_or_edge(&texture(gl::CLAMP_TO_EDGE, gl::REPEAT), -3, 5), (0, 1));
    assert_eq!(texel_or_edge(&texture(gl::REPEAT, gl::REPEAT), -3, 5), (1, 1));
    assert_eq!(texel_or_edge(&texture(gl::MIRRORED_REPEAT, gl::REPEAT), 9, -1), (1, 1));
    let unbound = SampledTexture::disabled();
    assert!(!unbound.enabled);
    assert_eq!((unbound.wrap_s, unbound.min_filter), (gl::REPEAT, gl::NEAREST));
}

#[test]
fn reply_fields_are_little_endian() {
    let reply = [0x78, 0x56, 0x34, 0x12, 0xcd, 0xab];
    assert_eq!(read_u32_at(&reply, 0), Some(0x1234_5678));
    assert_eq!(read_u16_at(&reply, 4), Some(0xabcd));
    assert_eq!(read_u32_at(&reply, 3), None);
    assert_eq!(read_u16_at(&reply, 5), None);
    assert_eq!(read_u16_at(&reply, usize::MAX), None);
}

#[test]
fn gbm_formats_have_their_pixel_sizes() {
    assert_eq!(bytes_per_pixel(0x3432_5258), 4);
    assert_eq!(bytes_per_pixel(0x3631_4752), 2);
    assert_eq!(bytes_per_pixel(0), 0);
}

#[test]
fn errors_describe_themselves() {
    assert_eq!(VantageError::NoSurface.message(), "no surface configured");
    assert_eq!(
        VantageError::SurfaceAcquire("lost").message(),
        "surface texture acquire failed: lost"
    );
    assert_eq!(VantageError::JitUnavailable.message(), "no codegen backend available");
}

fn present_event(opcode: u8, kind: u16, complete_kind: u8, window: u32, serial: u32) -> Vec<u8> {
    let mut event = vec![0u8; 32];
    event[0] = 35;
    event[1] = opcode;
    event[8..10].copy_from_slice(&kind.to_le_bytes());
    event[10] = complete_kind;
    event[16..20].copy_from_slice(&window.to_le_bytes());
    event[20..24].copy_from_slice(&serial.to_le_bytes());
    event
}

#[test]
fn present_ring_hands_out_idle_slots_and_releases_them() {
    let mut ring = PresentRing {
        slots: vec![
            RingSlot { pixmap: 5, busy_serial: Some(1) },
            RingSlot { pixmap: 0, busy_serial: None },
            RingSlot { pixmap: 7, busy_serial: None },
        ],
        render_slot: None,
        serial: 1,
        window: 0x40_0001,
        present_opcode: 148,
        swap_interval: 1,
    };
    assert_eq!(ring.free_slot(), Some(2));
    ring.render_slot = Some(2);
    assert_eq!(ring.free_slot(), Some(1));
    ring.render_slot = Some(1);
    ring.slots[2].busy_serial = Some(3);
    assert_eq!(ring.free_slot(), None);

    let idle = present_event(148, 2, 0, 0x40_0001, 1);
    assert!(ring.matches_window(&idle));
    assert!(!ring.matches_window(&present_event(147, 2, 0, 0x40_0001, 1)));
    assert!(!ring.matches_window(&present_event(148, 2, 0, 0x40_0002, 1)));
    assert!(!ring.matches_window(&idle[..19]));

    // A completion of an MSC notify releases nothing; an idle notify does.
    ring.handle_event(&present_event(148, 1, 1, 0x40_0001, 3));
    assert_eq!(ring.slots[2].busy_serial, Some(3));
    ring.handle_event(&present_event(148, 1, 0, 0x40_0001, 3));
    assert_eq!(ring.slots[2].busy_serial, None);
    ring.handle_event(&idle);
    assert_eq!(ring.slots[0], RingSlot { pixmap: 5, busy_serial: None });
    ring.handle_event(&idle[..20]);

    assert_eq!(ring.advance_serial(), 2);
    ring.serial = u32::MAX;
    assert_eq!(ring.advance_serial(), 1);
    assert_eq!(ring.present_options(), 0);
    ring.swap_interval = 0;
    assert_eq!(ring.present_options(), 1);
    ring.mark_presented(0, 9);
    assert_eq!(ring.slots[0].busy_serial, Some(9));
}

#[test]
fn frames_are_copied_row_by_row_until_a_row_does_not_fit() {
    let src: Vec<u8> = (1..=16).collect();
    let mut dst = vec![0u8; 24];
    copy_frame(&mut dst, 12, &src, 8, 2, 3);
    assert_eq!(&dst[..12], &[1, 2, 3, 4, 5, 6, 7, 8, 0, 0, 0, 0]);
    assert_eq!(&dst[12..], &[9, 10, 11, 12, 13, 14, 15, 16, 0, 0, 0, 0]);

    let mut short = vec![0u8; 24];
    copy_frame(&mut short, 12, &src[..12], 8, 2, 3);
    assert_eq!(&short[..8], &src[..8]);
    assert!(short[8..].iter().all(|&b| b == 0));
}

#[test]
fn attribute_lists_select_the_single_config() {
    assert_eq!(choose_config(&[EGL_RED_SIZE, 8, EGL_NONE], 0), Ok(true));
    assert_eq!(choose_config(&[EGL_RED_SIZE, 9, EGL_NONE], 0), Ok(false));
    assert_eq!(choose_config(&[EGL_SURFACE_TYPE, EGL_WINDOW_BIT, EGL_NONE], 0), Ok(true));
    assert_eq!(choose_config(&[EGL_SURFACE_TYPE, 2, EGL_NONE], 0), Ok(false));
    assert_eq!(choose_config(&[0x3100, 1, EGL_NONE], 0), Err(EGL_BAD_ATTRIBUTE));
    assert_eq!(choose_config(&[EGL_DONT_CARE, 5, 0x3100, EGL_DONT_CARE, EGL_NONE], 0), Ok(true));
    assert_eq!(choose_config(&[EGL_CONFIG_ID, 2, EGL_NONE], 0), Ok(false));
    assert_eq!(choose_config(&[], 0), Ok(true));
    assert_eq!(choose_config(&[EGL_NONE, 0x3100, 1], 0), Ok(true));
    assert_eq!(config_attrib(EGL_DEPTH_SIZE, 0x21), 24);
    assert_eq!(config_attrib(EGL_NATIVE_VISUAL_ID, 0x21), 0x21);
    assert_eq!(config_attrib(EGL_CONFIG_ID, 0x21), 1);
    assert_eq!(choose_config(&[EGL_CONFIG_ID, config_attrib(EGL_CONFIG_ID, 0), EGL_NONE], 0), Ok(true));
    let visual = config_attrib(EGL_NATIVE_VISUAL_ID, 0x21);
    assert_eq!(choose_config(&[EGL_NATIVE_VISUAL_ID, visual, EGL_NONE], 0x21), Ok(true));
    assert_eq!(choose_config(&[EGL_NATIVE_VISUAL_ID, 0, EGL_NONE], 0x21), Ok(false));
}

#[test]
fn surfaces_take_their_size_from_attributes_or_defaults() {
    assert_eq!(surface_size(&[EGL_WIDTH, 640, EGL_HEIGHT, 0, EGL_NONE]), (640, 1));
    assert_eq!(surface_size(&[]), (1280, 720));
    assert_eq!(surface_size(&[EGL_WIDTH, -5, EGL_NONE, EGL_WIDTH, 3]), (1, 720));
    assert_eq!(native_window_size(0, 300), (800, 300));
    assert_eq!(native_window_size(20, 0), (20, 600));
}

#[test]
fn gbm_backend_accepts_linear_single_plane_buffers() {
    assert!(is_format_supported(DRM_FORMAT_XRGB8888));
    assert!(!is_format_supported(0));
    assert_eq!(format_modifier_plane_count(DRM_FORMAT_XRGB8888, 0), 1);
    assert_eq!(format_modifier_plane_count(DRM_FORMAT_XRGB8888, 5), -1);
    assert_eq!(format_modifier_plane_count(0, 0), -1);
    assert!(!modifiers_supported(&[]));
    assert!(modifiers_supported(&[7, DRM_FORMAT_MOD_INVALID]));
    assert!(!modifiers_supported(&[7]));
    assert!(surface_accepted(DRM_FORMAT_RGB565, 1, 1));
    assert!(!surface_accepted(DRM_FORMAT_RGB565, 0, 1));
    assert_eq!(import_length(4, 2, 16, DRM_FORMAT_XRGB8888, 0), Some(32));
    assert_eq!(import_length(4, 2, 15, DRM_FORMAT_XRGB8888, 0), None);
    assert_eq!(import_length(4, 2, 16, DRM_FORMAT_XRGB8888, 7), None);
    assert_eq!(map_offset(2, 3, 64, DRM_FORMAT_XRGB8888), 200);
    assert_eq!(&format_name(DRM_FORMAT_XRGB8888), b"XR24\0");
}

#[test]
fn surface_front_buffers_cycle_through_the_pool() {
    let mut pool = FrontBufferPool::new();
    assert_eq!(pool.lock_front_buffer(), None);
    assert!(!pool.has_free_buffers());
    pool.hand_out(7);
    pool.hand_out(8);
    assert!(pool.release_buffer(7));
    assert!(!pool.release_buffer(9));
    assert_eq!((pool.free.clone(), pool.busy.clone()), (vec![7], vec![8]));
    assert!(pool.has_free_buffers());
    assert_eq!(pool.lock_front_buffer(), Some(7));
    assert_eq!(pool.busy, vec![8, 7]);
    assert!(!pool.has_free_buffers());
}

#[test]
fn displays_pick_their_native_platform() {
    assert_eq!(choose_platform(0, Some(&b"wayland"[..])), Some(NativePlatform::Wayland));
    assert_eq!(choose_platform(0, Some(&b"x11"[..])), Some(NativePlatform::X11));
    assert_eq!(choose_platform(0x3038, Some(&b"tty"[..])), Some(NativePlatform::X11));
    assert_eq!(choose_platform(0, None), Some(NativePlatform::X11));
    assert_eq!(choose_platform(EGL_PLATFORM_X11_KHR, Some(&b"wayland"[..])), Some(NativePlatform::X11));
    assert_eq!(choose_platform(EGL_PLATFORM_WAYLAND_KHR, None), Some(NativePlatform::Wayland));
    assert_eq!(choose_platform(EGL_PLATFORM_SURFACELESS_MESA, None), Some(NativePlatform::Headless));
    assert_eq!(choose_platform(0x1234, None), None);
    for platform in [NativePlatform::Headless, NativePlatform::X11, NativePlatform::Wayland] {
        assert_eq!(platform_from_tag(platform_tag(platform)), platform);
    }
    assert_eq!(platform_from_tag(9), NativePlatform::Headless);
    assert!(vendor_abi_supported(0x0000_0001));
    assert!(!vendor_abi_supported(0x0001_0000));
}
