use vantage::drm::amdgpu::{
    bo_layout, bo_list_entries, fence_sequence, ib_chunk, restartable, wait_deadline,
    DRM_IOCTL_AMDGPU_CS, DRM_IOCTL_AMDGPU_CTX, DRM_IOCTL_AMDGPU_GEM_CREATE,
    DRM_IOCTL_AMDGPU_GEM_MMAP, DRM_IOCTL_AMDGPU_GEM_VA, DRM_IOCTL_AMDGPU_INFO,
    DRM_IOCTL_AMDGPU_WAIT_CS,
};
use vantage::drm::{
    fourcc, iow, iowr, is_c_path, node_path, push_ascii, push_i32, push_u32, DRM_FORMAT_ABGR8888,
    DRM_FORMAT_ARGB8888, DRM_FORMAT_MOD_INVALID, DRM_FORMAT_MOD_LINEAR, DRM_FORMAT_RGB565,
    DRM_FORMAT_XBGR8888, DRM_FORMAT_XRGB8888, DRM_IOCTL_GEM_CLOSE, DRM_IOCTL_MODE_CREATE_DUMB,
    DRM_IOCTL_MODE_DESTROY_DUMB, DRM_IOCTL_MODE_MAP_DUMB, DRM_IOCTL_PRIME_FD_TO_HANDLE,
    DRM_IOCTL_PRIME_HANDLE_TO_FD, DRM_IOCTL_VERSION,
};

fn expect_ioctl(dir: u64, nr: u64, size: u64) -> u64 {
    (dir << 30) | (size << 16) | (0x64 << 8) | nr
}

#[test]
fn ioctl_numbers_match_kernel_encoding() {
    assert_eq!(DRM_IOCTL_VERSION, expect_ioctl(3, 0x00, 64));
    assert_eq!(DRM_IOCTL_GEM_CLOSE, expect_ioctl(1, 0x09, 8));
    assert_eq!(DRM_IOCTL_PRIME_HANDLE_TO_FD, expect_ioctl(3, 0x2d, 12));
    assert_eq!(DRM_IOCTL_PRIME_FD_TO_HANDLE, expect_ioctl(3, 0x2e, 12));
    assert_eq!(DRM_IOCTL_MODE_CREATE_DUMB, expect_ioctl(3, 0xb2, 32));
    assert_eq!(DRM_IOCTL_MODE_MAP_DUMB, expect_ioctl(3, 0xb3, 16));
    assert_eq!(DRM_IOCTL_MODE_DESTROY_DUMB, expect_ioctl(3, 0xb4, 4));
}

#[test]
fn fourcc_codes() {
    assert_eq!(DRM_FORMAT_XRGB8888, 0x34325258);
    assert_eq!(DRM_FORMAT_ARGB8888, 0x34325241);
    assert_eq!(DRM_FORMAT_MOD_LINEAR, 0);
    assert_eq!(DRM_FORMAT_MOD_INVALID, u64::MAX);
}

#[test]
fn format_codes_are_fourcc_of_their_names() {
    assert_eq!(fourcc(b'X', b'R', b'2', b'4'), DRM_FORMAT_XRGB8888);
    assert_eq!(fourcc(b'A', b'R', b'2', b'4'), DRM_FORMAT_ARGB8888);
    assert_eq!(fourcc(b'X', b'B', b'2', b'4'), DRM_FORMAT_XBGR8888);
    assert_eq!(fourcc(b'A', b'B', b'2', b'4'), DRM_FORMAT_ABGR8888);
    assert_eq!(fourcc(b'R', b'G', b'1', b'6'), DRM_FORMAT_RGB565);
}

#[test]
fn request_numbers_encode_direction_and_size() {
    assert_eq!(iowr(0x00, b'd', 64), DRM_IOCTL_VERSION);
    assert_eq!(iow(0x09, b'd', 8), DRM_IOCTL_GEM_CLOSE);
    assert_eq!(iowr(0x40, b'd', 32), DRM_IOCTL_AMDGPU_GEM_CREATE);
    assert_eq!(iowr(0x41, b'd', 8), DRM_IOCTL_AMDGPU_GEM_MMAP);
    assert_eq!(iowr(0x42, b'd', 16), DRM_IOCTL_AMDGPU_CTX);
    assert_eq!(iowr(0x44, b'd', 24), DRM_IOCTL_AMDGPU_CS);
    assert_eq!(iow(0x45, b'd', 32), DRM_IOCTL_AMDGPU_INFO);
    assert_eq!(iow(0x48, b'd', 64), DRM_IOCTL_AMDGPU_GEM_VA);
    assert_eq!(iowr(0x49, b'd', 32), DRM_IOCTL_AMDGPU_WAIT_CS);
    // The size field keeps only its low 14 bits.
    assert_eq!(iowr(0, b'd', 0x4000), iowr(0, b'd', 0));
}

#[test]
fn node_paths_are_decimal_and_nul_terminated() {
    assert_eq!(node_path(b"/dev/dri/renderD", 128), b"/dev/dri/renderD128\0".to_vec());
    assert_eq!(node_path(b"/dev/dri/card", 0), b"/dev/dri/card0\0".to_vec());
    let mut text = Vec::new();
    push_ascii(&mut text, b"/proc/self/fd/");
    push_i32(&mut text, -42);
    push_u32(&mut text, 4_294_967_295);
    push_i32(&mut text, i32::MIN);
    assert_eq!(text, b"/proc/self/fd/-424294967295-2147483648".to_vec());
    assert!(is_c_path(b"/dev/dri/card0\0"));
    assert!(!is_c_path(b"/dev/dri/card0"));
    assert!(!is_c_path(b""));
}

#[test]
fn buffer_objects_cover_whole_pages() {
    assert_eq!(bo_layout(0, 0), (4096, 4096));
    assert_eq!(bo_layout(4096, 65536), (4096, 65536));
    assert_eq!(bo_layout(4097, 256), (8192, 4096));
    assert!(restartable(4) && restartable(11) && !restartable(22));
    assert_eq!(fence_sequence(7, 1), 0x1_0000_0007);
    assert_eq!(wait_deadline(u64::MAX - 1, 5), u64::MAX);
    assert_eq!(wait_deadline(10, 5), 15);
    let entries = bo_list_entries(&[3, 9]);
    assert_eq!(entries.len(), 2);
    assert_eq!((entries[1].bo_handle, entries[1].bo_priority), (9, 0));
    let chunk = ib_chunk(0x1000, 16, 64, 0);
    assert_eq!((chunk.ib_bytes, chunk.va_start, chunk.flags), (64, 0x1000, 64));
}
