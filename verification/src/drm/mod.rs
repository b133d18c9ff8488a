//! Linux DRM client encodings: ioctl request numbers, FourCC codes, errors
//! and the decimal node paths of the DRM device scan.
pub mod amdgpu;

use vstd::prelude::*;

verus! {

pub const IOC_WRITE: u64 = 1;

pub const IOC_READ: u64 = 2;

/// The kernel `_IOC` request number: direction, size, type and number.
pub open spec fn ioctl_number(dir: u64, nr: u64, typ: u8, size: u64) -> u64 {
    ((dir << 30u64) | ((size & 0x3fff) << 16u64) | ((typ as u64) << 8u64) | nr) as u64
}

/// The kernel `_IOC` request number: direction, size, type and number.
pub fn ioc(dir: u64, nr: u64, typ: u8, size: u64) -> (r: u64)
    ensures
        r == ioctl_number(dir, nr, typ, size),
{
    (dir << 30u64) | ((size & 0x3fff) << 16u64) | ((typ as u64) << 8u64) | nr
}

/// `_IOWR(typ, nr, size)`.
pub fn iowr(nr: u64, typ: u8, size: u64) -> (r: u64)
    ensures
        r == ioctl_number(IOC_READ | IOC_WRITE, nr, typ, size),
{
    ioc(IOC_READ | IOC_WRITE, nr, typ, size)
}

/// `_IOW(typ, nr, size)`.
pub fn iow(nr: u64, typ: u8, size: u64) -> (r: u64)
    ensures
        r == ioctl_number(IOC_WRITE, nr, typ, size),
{
    ioc(IOC_WRITE, nr, typ, size)
}

/// The DRM ioctl type, `'d'`.
pub const DRM_IOCTL_BASE: u8 = 0x64;

/// `DRM_IOCTL_VERSION` (`struct drm_version`, 64 bytes on LP64).
pub const DRM_IOCTL_VERSION: u64 = 0xc040_6400;

/// `DRM_IOCTL_GEM_CLOSE` (`struct drm_gem_close`).
pub const DRM_IOCTL_GEM_CLOSE: u64 = 0x4008_6409;

/// `DRM_IOCTL_PRIME_HANDLE_TO_FD` (`struct drm_prime_handle`).
pub const DRM_IOCTL_PRIME_HANDLE_TO_FD: u64 = 0xc00c_642d;

/// `DRM_IOCTL_PRIME_FD_TO_HANDLE` (`struct drm_prime_handle`).
pub const DRM_IOCTL_PRIME_FD_TO_HANDLE: u64 = 0xc00c_642e;

/// `DRM_IOCTL_MODE_CREATE_DUMB` (`struct drm_mode_create_dumb`).
pub const DRM_IOCTL_MODE_CREATE_DUMB: u64 = 0xc020_64b2;

/// `DRM_IOCTL_MODE_MAP_DUMB` (`struct drm_mode_map_dumb`).
pub const DRM_IOCTL_MODE_MAP_DUMB: u64 = 0xc010_64b3;

/// `DRM_IOCTL_MODE_DESTROY_DUMB` (`struct drm_mode_destroy_dumb`).
pub const DRM_IOCTL_MODE_DESTROY_DUMB: u64 = 0xc004_64b4;

/// Each DRM request number is the `_IOC` encoding of its direction, number
/// and argument size.
pub proof fn lemma_drm_ioctl_numbers()
    ensures
        DRM_IOCTL_VERSION == ioctl_number(IOC_READ | IOC_WRITE, 0x00, DRM_IOCTL_BASE, 64),
        DRM_IOCTL_GEM_CLOSE == ioctl_number(IOC_WRITE, 0x09, DRM_IOCTL_BASE, 8),
        DRM_IOCTL_PRIME_HANDLE_TO_FD == ioctl_number(IOC_READ | IOC_WRITE, 0x2d, DRM_IOCTL_BASE, 12),
        DRM_IOCTL_PRIME_FD_TO_HANDLE == ioctl_number(IOC_READ | IOC_WRITE, 0x2e, DRM_IOCTL_BASE, 12),
        DRM_IOCTL_MODE_CREATE_DUMB == ioctl_number(IOC_READ | IOC_WRITE, 0xb2, DRM_IOCTL_BASE, 32),
        DRM_IOCTL_MODE_MAP_DUMB == ioctl_number(IOC_READ | IOC_WRITE, 0xb3, DRM_IOCTL_BASE, 16),
        DRM_IOCTL_MODE_DESTROY_DUMB == ioctl_number(IOC_READ | IOC_WRITE, 0xb4, DRM_IOCTL_BASE, 4),
{
    assert(0xc040_6400u64 == ioctl_number(3, 0x00, 0x64, 64)) by (bit_vector);
    assert(0x4008_6409u64 == ioctl_number(1, 0x09, 0x64, 8)) by (bit_vector);
    assert(0xc00c_642du64 == ioctl_number(3, 0x2d, 0x64, 12)) by (bit_vector);
    assert(0xc00c_642eu64 == ioctl_number(3, 0x2e, 0x64, 12)) by (bit_vector);
    assert(0xc020_64b2u64 == ioctl_number(3, 0xb2, 0x64, 32)) by (bit_vector);
    assert(0xc010_64b3u64 == ioctl_number(3, 0xb3, 0x64, 16)) by (bit_vector);
    assert(0xc004_64b4u64 == ioctl_number(3, 0xb4, 0x64, 4)) by (bit_vector);
    assert(IOC_READ | IOC_WRITE == 3) by (bit_vector);
}

// ---------------------------------------------------------------------------
// FourCC codes and modifiers
// ---------------------------------------------------------------------------
/// `fourcc_code(a, b, c, d)`: the four bytes in little-endian order.
pub open spec fn fourcc_code(a: u8, b: u8, c: u8, d: u8) -> u32 {
    ((a as u32) | ((b as u32) << 8u32) | ((c as u32) << 16u32) | ((d as u32) << 24u32)) as u32
}

/// `fourcc_code(a, b, c, d)` from drm_fourcc.h.
pub fn fourcc(a: u8, b: u8, c: u8, d: u8) -> (r: u32)
    ensures
        r == fourcc_code(a, b, c, d),
        r == a + 0x100 * b + 0x1_0000 * c + 0x100_0000 * d,
{
    let r = (a as u32) | ((b as u32) << 8u32) | ((c as u32) << 16u32) | ((d as u32) << 24u32);
    assert(fourcc_code(a, b, c, d) == a + 0x100 * b + 0x1_0000 * c + 0x100_0000 * d) by (bit_vector);
    r
}

/// `DRM_FORMAT_XRGB8888` (`XR24`): 32bpp, what X11 TrueColor depth-24 uses.
pub const DRM_FORMAT_XRGB8888: u32 = 0x3432_5258;

/// `DRM_FORMAT_ARGB8888` (`AR24`).
pub const DRM_FORMAT_ARGB8888: u32 = 0x3432_5241;

/// `DRM_FORMAT_XBGR8888` (`XB24`).
pub const DRM_FORMAT_XBGR8888: u32 = 0x3432_4258;

/// `DRM_FORMAT_ABGR8888` (`AB24`).
pub const DRM_FORMAT_ABGR8888: u32 = 0x3432_4241;

/// `DRM_FORMAT_RGB565` (`RG16`).
pub const DRM_FORMAT_RGB565: u32 = 0x3631_4752;

/// Each format code is the FourCC of its name.
pub proof fn lemma_format_codes()
    ensures
        DRM_FORMAT_XRGB8888 == fourcc_code(0x58, 0x52, 0x32, 0x34),
        DRM_FORMAT_ARGB8888 == fourcc_code(0x41, 0x52, 0x32, 0x34),
        DRM_FORMAT_XBGR8888 == fourcc_code(0x58, 0x42, 0x32, 0x34),
        DRM_FORMAT_ABGR8888 == fourcc_code(0x41, 0x42, 0x32, 0x34),
        DRM_FORMAT_RGB565 == fourcc_code(0x52, 0x47, 0x31, 0x36),
{
    assert(0x3432_5258u32 == fourcc_code(0x58, 0x52, 0x32, 0x34)) by (bit_vector);
    assert(0x3432_5241u32 == fourcc_code(0x41, 0x52, 0x32, 0x34)) by (bit_vector);
    assert(0x3432_4258u32 == fourcc_code(0x58, 0x42, 0x32, 0x34)) by (bit_vector);
    assert(0x3432_4241u32 == fourcc_code(0x41, 0x42, 0x32, 0x34)) by (bit_vector);
    assert(0x3631_4752u32 == fourcc_code(0x52, 0x47, 0x31, 0x36)) by (bit_vector);
}

/// `DRM_FORMAT_MOD_LINEAR` (`fourcc_mod_code(NONE, 0)`).
pub const DRM_FORMAT_MOD_LINEAR: u64 = 0;

/// `DRM_FORMAT_MOD_INVALID` (`fourcc_mod_code(NONE, DRM_FORMAT_RESERVED)`).
pub const DRM_FORMAT_MOD_INVALID: u64 = 0xffff_ffff_ffff_ffff;

/// `DRM_IOCTL_PRIME_HANDLE_TO_FD` flag: `O_CLOEXEC`. The kernel validates
/// this field against the O_* flags, not a namespaced bit.
pub const DRM_PRIME_FD_CLOEXEC: u32 = 0o2000000;

// ---------------------------------------------------------------------------
// Errors
// ---------------------------------------------------------------------------
#[derive(Debug, Clone, Copy, PartialEq, Eq)]
pub enum Error {
    /// syscall failed with this errno
    Io(i32),
    /// no usable DRM render node found
    NoDevice,
    /// device is not backed by an accepted driver (amdgpu/radeon)
    WrongDriver(&'static [u8]),
    /// the buffer object is not CPU-mapped
    NotMapped,
}

/// The first render node number.
pub const RENDER_NODE_FIRST: u32 = 128;

/// One past the last render node number.
pub const RENDER_NODE_LAST: u32 = 160;

// ---------------------------------------------------------------------------
// Node paths
// ---------------------------------------------------------------------------
/// The ASCII decimal digits of `n`.
pub open spec fn decimal_ascii(n: nat) -> Seq<u8>
    decreases n,
{
    if n < 10 {
        seq![(0x30 + n) as u8]
    } else {
        decimal_ascii(n / 10).push((0x30 + n % 10) as u8)
    }
}

/// The ASCII decimal text of a signed integer.
pub open spec fn signed_decimal_ascii(n: int) -> Seq<u8> {
    if n < 0 {
        seq![0x2du8] + decimal_ascii((-n) as nat)
    } else {
        decimal_ascii(n as nat)
    }
}

/// Appends `s`.
pub fn push_ascii(v: &mut Vec<u8>, s: &[u8])
    ensures
        final(v)@ == old(v)@ + s@,
{
    let ghost start = v@;
    let mut k: usize = 0;
    while k < s.len()
        invariant
            k <= s@.len(),
            v@ == start + s@.subrange(0, k as int),
        decreases s@.len() - k,
    {
        v.push(s[k]);
        assert(s@.subrange(0, k + 1) =~= s@.subrange(0, k as int).push(s@[k as int]));
        k = k + 1;
    }
    assert(s@.subrange(0, s@.len() as int) =~= s@);
}

fn push_decimal(v: &mut Vec<u8>, n: u64)
    ensures
        final(v)@ == old(v)@ + decimal_ascii(n as nat),
    decreases n,
{
    let ghost start = v@;
    if n >= 10 {
        push_decimal(v, n / 10);
    }
    v.push(0x30u8 + (n % 10) as u8);
    assert(v@ =~= start + decimal_ascii(n as nat));
}

/// Appends the decimal digits of `n`.
pub fn push_u32(v: &mut Vec<u8>, n: u32)
    ensures
        final(v)@ == old(v)@ + decimal_ascii(n as nat),
{
    push_decimal(v, n as u64);
}

/// Appends the decimal text of `n`, with a minus sign when negative.
pub fn push_i32(v: &mut Vec<u8>, n: i32)
    ensures
        final(v)@ == old(v)@ + signed_decimal_ascii(n as int),
{
    let ghost start = v@;
    if n < 0 {
        v.push(0x2du8);
        let magnitude: u64 = (0 - (n as i64)) as u64;
        push_decimal(v, magnitude);
        assert(v@ =~= start + signed_decimal_ascii(n as int));
    } else {
        push_decimal(v, n as u64);
    }
}

/// The NUL-terminated path of DRM node `n` under `prefix`.
pub fn node_path(prefix: &[u8], n: u32) -> (r: Vec<u8>)
    ensures
        r@ == prefix@ + decimal_ascii(n as nat) + seq![0u8],
{
    let mut path: Vec<u8> = Vec::new();
    push_ascii(&mut path, prefix);
    push_u32(&mut path, n);
    path.push(0);
    assert(path@ =~= prefix@ + decimal_ascii(n as nat) + seq![0u8]);
    path
}

/// Whether `path` is a non-empty NUL-terminated C string, as `open` needs.
pub fn is_c_path(path: &[u8]) -> (r: bool)
    ensures
        r == (path@.len() > 0 && path@.last() == 0),
{
    path.len() > 0 && path[path.len() - 1] == 0
}

/// The byte `/`.
pub const SLASH: u8 = 0x2f;

/// The last component of `path`: the bytes after its last `/`.
pub open spec fn final_component(path: Seq<u8>, slash: int) -> Seq<u8> {
    path.subrange(slash + 1, path.len() as int)
}

/// The bytes after the last `/` of `path`, when it has one.
pub fn last_component(path: &[u8]) -> (r: Option<Vec<u8>>)
    ensures
        r is Some <==> path@.contains(SLASH),
        r matches Some(name) ==> exists|slash: int|
            0 <= slash < path@.len() && path@[slash] == SLASH && (forall|j: int|
                slash < j < path@.len() ==> path@[j] != SLASH) && name@ == #[trigger] final_component(
                path@,
                slash,
            ),
{
    let mut k: usize = path.len();
    while k > 0
        invariant
            k <= path@.len(),
            forall|j: int| k <= j < path@.len() ==> path@[j] != SLASH,
        decreases k,
    {
        if path[k - 1] == SLASH {
            let slash = k - 1;
            let mut name: Vec<u8> = Vec::new();
            let mut i: usize = k;
            while i < path.len()
                invariant
                    k <= i <= path@.len(),
                    name@ == path@.subrange(k as int, i as int),
                decreases path@.len() - i,
            {
                name.push(path[i]);
                assert(path@.subrange(k as int, i + 1) =~= path@.subrange(k as int, i as int).push(
                    path@[i as int],
                ));
                i = i + 1;
            }
            assert(path@.contains(SLASH)) by {
                assert(path@[slash as int] == SLASH);
            }
            assert(name@ == final_component(path@, slash as int));
            return Some(name);
        }
        k = k - 1;
    }
    assert(!path@.contains(SLASH));
    None
}

/// `amdgpu`.
pub open spec fn amdgpu_name() -> Seq<u8> {
    seq![0x61u8, 0x6d, 0x64, 0x67, 0x70, 0x75]
}

/// `radeon`.
pub open spec fn radeon_name() -> Seq<u8> {
    seq![0x72u8, 0x61, 0x64, 0x65, 0x6f, 0x6e]
}

/// Whether a kernel driver name is one of the accepted AMD drivers.
pub fn is_amd_driver(name: &[u8]) -> (r: bool)
    ensures
        r == (name@ == amdgpu_name() || name@ == radeon_name()),
{
    let amdgpu: [u8; 6] = [0x61, 0x6d, 0x64, 0x67, 0x70, 0x75];
    let radeon: [u8; 6] = [0x72, 0x61, 0x64, 0x65, 0x6f, 0x6e];
    if name.len() != 6 {
        return false;
    }
    let mut is_amdgpu = true;
    let mut is_radeon = true;
    let mut k: usize = 0;
    while k < 6
        invariant
            k <= 6,
            name@.len() == 6,
            amdgpu@ == amdgpu_name(),
            radeon@ == radeon_name(),
            is_amdgpu == (forall|j: int| 0 <= j < k ==> name@[j] == amdgpu_name()[j]),
            is_radeon == (forall|j: int| 0 <= j < k ==> name@[j] == radeon_name()[j]),
        decreases 6 - k,
    {
        is_amdgpu = is_amdgpu && name[k] == amdgpu[k];
        is_radeon = is_radeon && name[k] == radeon[k];
        k = k + 1;
    }
    if is_amdgpu {
        assert(name@ =~= amdgpu_name());
    }
    if is_radeon {
        assert(name@ =~= radeon_name());
    }
    is_amdgpu || is_radeon
}

} // verus!
