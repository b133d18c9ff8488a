//! Vulkan-shaped internal device layer: formats, resources and the AMDGPU
//! command stream.
//!
//! The software device keeps images as plain linear CPU allocations:
//! `R8G8B8A8Unorm` / `B8G8R8A8Unorm` color, `D32Sfloat` depth and separate
//! `S8Uint` stencil. Limits advertise only what is implemented.
pub mod amdgpu;
pub mod bindings;
pub mod device;

pub use device::{
    clear_color_image, clear_depth_image, clear_stencil_image, BufferId, DescriptorSet,
    DescriptorSetId, Device, ImageId, PipelineId,
};

use vstd::prelude::*;

verus! {

/// Pixel formats implemented by the software device. Nothing else exists.
#[derive(Debug, Clone, Copy, PartialEq, Eq, Structural)]
pub enum Format {
    R8G8B8A8Unorm,
    B8G8R8A8Unorm,
    D32Sfloat,
    S8Uint,
}

impl Format {
    pub open spec fn spec_bytes_per_pixel(self) -> u32 {
        match self {
            Format::S8Uint => 1,
            _ => 4,
        }
    }

    pub open spec fn spec_is_color(self) -> bool {
        self is R8G8B8A8Unorm || self is B8G8R8A8Unorm
    }

    #[verifier::when_used_as_spec(spec_bytes_per_pixel)]
    pub fn bytes_per_pixel(self) -> (r: u32)
        ensures
            r == self.spec_bytes_per_pixel(),
    {
        match self {
            Format::R8G8B8A8Unorm | Format::B8G8R8A8Unorm | Format::D32Sfloat => 4,
            Format::S8Uint => 1,
        }
    }

    #[verifier::when_used_as_spec(spec_is_color)]
    pub fn is_color(self) -> (r: bool)
        ensures
            r == self.spec_is_color(),
    {
        match self {
            Format::R8G8B8A8Unorm | Format::B8G8R8A8Unorm => true,
            _ => false,
        }
    }
}

/// Device limits: exactly the implemented feature envelope, no more.
#[derive(Debug, Clone, Copy)]
pub struct Limits {
    pub max_image_dimension_2d: u32,
    pub max_push_constants_size: u32,
}

#[derive(Debug, Clone, Copy, PartialEq, Eq, Structural)]
pub enum IndexType {
    U16,
    U32,
}

/// A linear CPU buffer.
pub struct Buffer {
    pub data: Vec<u8>,
}

/// A 2D image. Color images are one plane; depth/stencil are separate
/// `D32Sfloat` / `S8Uint` images (Vulkan-style separate aspects).
pub struct Image {
    pub format: Format,
    pub width: u32,
    pub height: u32,
    pub data: Vec<u8>,
}

impl Image {
    /// A zero-filled image of `width` by `height` pixels.
    pub fn new(format: Format, width: u32, height: u32) -> (r: Self)
        requires
            width * height * format.bytes_per_pixel() <= u32::MAX,
        ensures
            r.format == format,
            r.width == width,
            r.height == height,
            r.data@ == Seq::new(
                (width * height * format.bytes_per_pixel()) as nat,
                |i: int| 0u8,
            ),
    {
        let bpp = format.bytes_per_pixel();
        assert(width * height <= u32::MAX) by (nonlinear_arith)
            requires
                width * height * bpp <= u32::MAX,
                bpp >= 1,
        ;
        let size = (width * height * bpp) as usize;
        let mut data: Vec<u8> = Vec::new();
        let mut k: usize = 0;
        while k < size
            invariant
                k <= size,
                size == width * height * format.bytes_per_pixel(),
                data@ == Seq::new(k as nat, |i: int| 0u8),
            decreases size - k,
        {
            data.push(0);
            k = k + 1;
        }
        assert(data@ =~= Seq::new((width * height * format.bytes_per_pixel()) as nat, |i: int| 0u8));
        Image { format, width, height, data }
    }
}

/// Fixed-function pipeline state: topology, culling, blending, depth and
/// color mask, as GL enums.
#[derive(Debug, Clone, Copy)]
pub struct Pipeline {
    pub topology: u32,
    pub cull_mode: u32,
    pub front_face_ccw: bool,
    pub blend_enabled: bool,
    pub src_factor: u32,
    pub dst_factor: u32,
    pub depth_test: bool,
    pub depth_write: bool,
    pub depth_func: u32,
    pub color_mask: u8,
}

/// Enumerates software devices. One device: the CPU rasterizer.
pub struct Instance;

/// Properties of the single software device.
#[derive(Debug, Clone, Copy)]
pub struct PhysicalDevice {
    pub limits: Limits,
}

impl Instance {
    /// The one software device, whose limits are a 16384-pixel image
    /// dimension and 256 bytes of push constants.
    pub fn enumerate() -> (r: Vec<PhysicalDevice>)
        ensures
            r@.len() == 1,
            r@[0].limits.max_image_dimension_2d == 16384,
            r@[0].limits.max_push_constants_size == 256,
    {
        let mut devices: Vec<PhysicalDevice> = Vec::new();
        devices.push(
            PhysicalDevice {
                limits: Limits { max_image_dimension_2d: 16384, max_push_constants_size: 256 },
            },
        );
        devices
    }
}

/// The single in-order queue.
#[derive(Debug, Clone, Copy)]
pub struct Queue;

/// Where a draw of `count` vertices (or indices) from `first` ends, given
/// that only `available` of them exist.
pub open spec fn draw_end(first: u32, count: u32, available: usize) -> int {
    if first + count < available {
        first + count
    } else {
        available as int
    }
}

/// The positions at which a triangle-list draw of `count` elements from
/// `first` assembles its triangles when `available` elements exist: every
/// third position from `first`, as long as the whole triangle lies before
/// the draw's end.
pub fn triangle_starts(first: u32, count: u32, available: usize) -> (r: Vec<usize>)
    requires
        first + count <= u32::MAX,
    ensures
        forall|k: int|
            0 <= k < r@.len() ==> #[trigger] r@[k] == first + 3 * k && r@[k] + 2 < draw_end(
                first,
                count,
                available,
            ),
        first + 3 * r@.len() + 2 >= draw_end(first, count, available),
{
    let total = (first + count) as usize;
    let end = if total < available {
        total
    } else {
        available
    };
    let mut starts: Vec<usize> = Vec::new();
    let mut i = first as usize;
    while i < end && end - i > 2
        invariant
            i == first + 3 * starts@.len(),
            end == draw_end(first, count, available),
            forall|k: int|
                0 <= k < starts@.len() ==> #[trigger] starts@[k] == first + 3 * k && starts@[k] + 2
                    < end,
        decreases end - i,
    {
        starts.push(i);
        i = i + 3;
    }
    starts
}

} // verus!
