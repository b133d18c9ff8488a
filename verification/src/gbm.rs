//! `gbm.h` handle types and the decisions of the GBM backend: which formats
//! and modifiers buffer objects support, how imports and maps are laid out,
//! and the pool of front buffers a GBM surface hands out and takes back.
#![allow(non_camel_case_types)]
use vstd::prelude::*;

use crate::drm::{
    DRM_FORMAT_ARGB8888, DRM_FORMAT_MOD_INVALID, DRM_FORMAT_MOD_LINEAR, DRM_FORMAT_RGB565,
    DRM_FORMAT_XRGB8888,
};

verus! {

/// Opaque `struct gbm_device`.
pub struct gbm_device {
    _opaque: [u8; 0],
}

/// Opaque `struct gbm_bo`.
pub struct gbm_bo {
    _opaque: [u8; 0],
}

/// Opaque `struct gbm_surface`.
pub struct gbm_surface {
    _opaque: [u8; 0],
}

/// Bytes per pixel of a supported FourCC format; 0 when unsupported.
pub open spec fn format_bytes_per_pixel(format: u32) -> u32 {
    if format == DRM_FORMAT_ARGB8888 || format == DRM_FORMAT_XRGB8888 {
        4
    } else if format == DRM_FORMAT_RGB565 {
        2
    } else {
        0
    }
}

/// Bytes per pixel of a supported FourCC format; 0 when unsupported.
pub fn bytes_per_pixel(format: u32) -> (r: u32)
    ensures
        r == format_bytes_per_pixel(format),
{
    match format {
        DRM_FORMAT_ARGB8888 | DRM_FORMAT_XRGB8888 => 4,
        DRM_FORMAT_RGB565 => 2,
        _ => 0,
    }
}

/// Whether buffer objects of `format` can be created.
pub fn is_format_supported(format: u32) -> (r: bool)
    ensures
        r == (format_bytes_per_pixel(format) != 0),
{
    bytes_per_pixel(format) != 0
}

/// Whether the linear single-plane backend honors `modifier`.
pub open spec fn linear_modifier(modifier: u64) -> bool {
    modifier == DRM_FORMAT_MOD_LINEAR || modifier == DRM_FORMAT_MOD_INVALID
}

/// The planes of `format` with `modifier`: one for a supported format
/// with a linear (or unspecified) layout, -1 otherwise.
pub fn format_modifier_plane_count(format: u32, modifier: u64) -> (r: i32)
    ensures
        r == (if format_bytes_per_pixel(format) != 0 && linear_modifier(modifier) {
            1i32
        } else {
            -1i32
        }),
{
    if bytes_per_pixel(format) == 0 || (modifier != DRM_FORMAT_MOD_LINEAR && modifier
        != DRM_FORMAT_MOD_INVALID) {
        return -1;
    }
    1
}

/// Whether a creation request offering `modifiers` can be honored: the list
/// is not empty and offers a linear (or unspecified) layout.
pub fn modifiers_supported(modifiers: &[u64]) -> (r: bool)
    ensures
        r == (exists|k: int| 0 <= k < modifiers@.len() && linear_modifier(#[trigger] modifiers@[k])),
{
    let mut k: usize = 0;
    while k < modifiers.len()
        invariant
            k <= modifiers@.len(),
            forall|j: int| 0 <= j < k ==> !linear_modifier(#[trigger] modifiers@[j]),
        decreases modifiers@.len() - k,
    {
        let m = modifiers[k];
        if m == DRM_FORMAT_MOD_LINEAR || m == DRM_FORMAT_MOD_INVALID {
            return true;
        }
        k = k + 1;
    }
    false
}

/// Whether a surface of `width` by `height` pixels of `format` can be
/// created.
pub fn surface_accepted(format: u32, width: u32, height: u32) -> (r: bool)
    ensures
        r == (format_bytes_per_pixel(format) != 0 && width != 0 && height != 0),
{
    bytes_per_pixel(format) != 0 && width != 0 && height != 0
}

/// The mapped length of an imported dma-buf of `width` by `height` pixels
/// of `format` with `stride` bytes per row and `modifier`, or `None` where
/// the backend refuses it: a tiled layout, an unsupported format, an empty
/// size, or rows shorter than a row of pixels.
pub fn import_length(width: u32, height: u32, stride: u32, format: u32, modifier: u64) -> (r: Option<
    usize,
>)
    requires
        linear_modifier(modifier) && format_bytes_per_pixel(format) != 0 && width != 0 && height
            != 0 ==> width * format_bytes_per_pixel(format) <= u32::MAX,
        linear_modifier(modifier) && format_bytes_per_pixel(format) != 0 && width != 0 && height
            != 0 && stride >= width * format_bytes_per_pixel(format) ==> stride * height
            <= u32::MAX,
    ensures
        r == (if linear_modifier(modifier) && format_bytes_per_pixel(format) != 0 && width != 0
            && height != 0 && stride >= width * format_bytes_per_pixel(format) {
            Some((stride * height) as usize)
        } else {
            None
        }),
{
    if modifier != DRM_FORMAT_MOD_LINEAR && modifier != DRM_FORMAT_MOD_INVALID {
        return None;
    }
    let bpp = bytes_per_pixel(format);
    if bpp == 0 || width == 0 || height == 0 || stride < width * bpp {
        return None;
    }
    Some((stride * height) as usize)
}

/// The byte offset of pixel `(x, y)` in a mapping with `stride` bytes per
/// row and pixels of `format`.
pub fn map_offset(x: u32, y: u32, stride: u32, format: u32) -> (r: u32)
    requires
        y * stride + x * format_bytes_per_pixel(format) <= u32::MAX,
    ensures
        r == y * stride + x * format_bytes_per_pixel(format),
{
    let bpp = bytes_per_pixel(format);
    assert(y * stride <= u32::MAX && x * bpp <= u32::MAX) by (nonlinear_arith)
        requires
            y * stride + x * bpp <= u32::MAX,
            y >= 0,
            stride >= 0,
            x >= 0,
            bpp >= 0,
    ;
    y * stride + x * bpp
}

/// The name `gbm_format_get_name` writes for `format`: its four FourCC
/// characters, low byte first, then NUL.
pub fn format_name(format: u32) -> (r: [u8; 5])
    ensures
        r@ == seq![
            (format % 256) as u8,
            ((format / 256) % 256) as u8,
            ((format / 0x1_0000) % 256) as u8,
            (format / 0x100_0000) as u8,
            0u8,
        ],
{
    [
        (format % 256) as u8,
        ((format / 256) % 256) as u8,
        ((format / 0x1_0000) % 256) as u8,
        (format / 0x100_0000) as u8,
        0,
    ]
}

/// The front buffers of a GBM surface, by buffer-object id: those released
/// by the consumer and ready to be locked again, and those handed out.
#[derive(Debug, Clone)]
pub struct FrontBufferPool {
    pub free: Vec<u64>,
    pub busy: Vec<u64>,
}

impl FrontBufferPool {
    /// No buffer is listed twice, and none is both free and handed out.
    pub open spec fn wf(&self) -> bool {
        &&& self.free@.no_duplicates()
        &&& self.busy@.no_duplicates()
        &&& forall|i: int, j: int|
            0 <= i < self.free@.len() && 0 <= j < self.busy@.len() ==> #[trigger] self.free@[i]
                != #[trigger] self.busy@[j]
    }

    /// A pool with no buffers.
    pub fn new() -> (r: FrontBufferPool)
        ensures
            r.free@.len() == 0,
            r.busy@.len() == 0,
            r.wf(),
    {
        FrontBufferPool { free: Vec::new(), busy: Vec::new() }
    }

    /// Takes the most recently released buffer for the next frame and
    /// marks it handed out; `None` when no buffer is free (the caller then
    /// creates one and hands it out with `hand_out`).
    pub fn lock_front_buffer(&mut self) -> (r: Option<u64>)
        ensures
            old(self).free@.len() == 0 ==> r is None && final(self).free@ == old(self).free@
                && final(self).busy@ == old(self).busy@,
            old(self).free@.len() > 0 ==> r == Some(old(self).free@.last()) && final(self).free@
                == old(self).free@.drop_last() && final(self).busy@ == old(self).busy@.push(
                old(self).free@.last(),
            ),
            old(self).wf() ==> final(self).wf(),
    {
        proof {
            if old(self).wf() && old(self).free@.len() > 0 {
                let free = old(self).free@;
                let busy = old(self).busy@;
                let last = free.last();
                assert(!busy.contains(last)) by {
                    if busy.contains(last) {
                        let j = choose|j: int| 0 <= j < busy.len() && busy[j] == last;
                        assert(free[free.len() - 1] != busy[j]);
                    }
                }
                assert forall|i: int| 0 <= i < free.len() - 1 implies #[trigger] free.drop_last()[i]
                    != last by {
                    assert(free[i] != free[free.len() - 1]);
                }
            }
        }
        match self.free.pop() {
            Some(bo) => {
                self.busy.push(bo);
                Some(bo)
            },
            None => None,
        }
    }

    /// Marks a newly created buffer `bo` handed out.
    pub fn hand_out(&mut self, bo: u64)
        ensures
            final(self).busy@ == old(self).busy@.push(bo),
            final(self).free@ == old(self).free@,
            old(self).wf() && !old(self).free@.contains(bo) && !old(self).busy@.contains(bo)
                ==> final(self).wf(),
    {
        self.busy.push(bo);
        proof {
            if old(self).wf() && !old(self).free@.contains(bo) && !old(self).busy@.contains(bo) {
                assert forall|i: int| 0 <= i < old(self).free@.len() implies #[trigger] old(
                    self,
                ).free@[i] != bo by {}
                assert forall|j: int| 0 <= j < old(self).busy@.len() implies #[trigger] old(
                    self,
                ).busy@[j] != bo by {}
            }
        }
    }

    /// Takes back buffer `bo` from the consumer: it moves from the handed-out
    /// buffers to the free ones; returns whether it was handed out (a buffer
    /// the surface never handed out is ignored).
    pub fn release_buffer(&mut self, bo: u64) -> (r: bool)
        ensures
            r == old(self).busy@.contains(bo),
            r ==> exists|k: int|
                {
                    &&& 0 <= k < old(self).busy@.len()
                    &&& old(self).busy@[k] == bo
                    &&& forall|j: int| 0 <= j < k ==> #[trigger] old(self).busy@[j] != bo
                    &&& final(self).busy@ == old(self).busy@.remove(k)
                },
            r ==> final(self).free@ == old(self).free@.push(bo),
            !r ==> final(self).busy@ == old(self).busy@ && final(self).free@ == old(self).free@,
            old(self).wf() ==> final(self).wf(),
    {
        let mut k: usize = 0;
        while k < self.busy.len()
            invariant
                k <= self.busy@.len(),
                self.busy@ == old(self).busy@,
                self.free@ == old(self).free@,
                forall|j: int| 0 <= j < k ==> self.busy@[j] != bo,
            decreases self.busy@.len() - k,
        {
            if self.busy[k] == bo {
                proof {
                    assert(self.busy@[k as int] == bo);
                }
                let ghost free = self.free@;
                let ghost busy = self.busy@;
                let owned = self.busy.remove(k);
                self.free.push(owned);
                proof {
                    if old(self).wf() {
                        assert(!free.contains(bo)) by {
                            if free.contains(bo) {
                                let i = choose|i: int| 0 <= i < free.len() && free[i] == bo;
                                assert(free[i] != busy[k as int]);
                            }
                        }
                        assert forall|j: int| 0 <= j < busy.len() - 1 implies #[trigger] busy.remove(
                            k as int,
                        )[j] != bo by {
                            if j < k {
                                assert(busy[j] != busy[k as int]);
                            } else {
                                assert(busy[j + 1] != busy[k as int]);
                            }
                        }
                        assert forall|i: int, j: int|
                            0 <= i < self.free@.len() && 0 <= j < self.busy@.len() implies #[trigger] self.free@[i]
                            != #[trigger] self.busy@[j] by {
                            if i < free.len() {
                                if j < k {
                                    assert(free[i] != busy[j]);
                                } else {
                                    assert(free[i] != busy[j + 1]);
                                }
                            }
                        }
                        assert forall|i: int, j: int|
                            0 <= i < self.busy@.len() && 0 <= j < self.busy@.len() && i != j implies self.busy@[i]
                            != self.busy@[j] by {
                            let oi = if i < k { i } else { i + 1 };
                            let oj = if j < k { j } else { j + 1 };
                            assert(busy[oi] != busy[oj]);
                        }
                        assert forall|i: int, j: int|
                            0 <= i < self.free@.len() && 0 <= j < self.free@.len() && i != j implies self.free@[i]
                            != self.free@[j] by {
                            if i < free.len() && j < free.len() {
                                assert(free[i] != free[j]);
                            }
                        }
                    }
                }
                return true;
            }
            k = k + 1;
        }
        false
    }

    /// Whether a released buffer is ready to be locked.
    pub fn has_free_buffers(&self) -> (r: bool)
        ensures
            r == (self.free@.len() > 0),
    {
        self.free.len() > 0
    }
}

} // verus!
