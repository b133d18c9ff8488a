# vantage

Verified building blocks of a small graphics stack: a shader back end for
AMD GFX10.3 (RDNA2) GPUs, the PM4 command stream that drives the hardware,
the DRM/AMDGPU kernel interface, a Vulkan-shaped device layer, the integer
core of a software rasterizer, and the decisions of the EGL and GBM front
ends.

## Layout

- `src/` — the library, verified with Verus.
  - `codegen/` — machine IR, register allocation, instruction-selection
    helpers, and the GFX10.3 target: pseudo-instruction expansion, binary
    encoding (with export-hazard waits and branch resolution), assembly
    listings, and the shader configuration registers.
  - `hal/` — formats and resources; the device's resource registries and
    transfer commands (`device`), vertex-buffer binding slots (`bindings`);
    `hal/amdgpu/` the PM4 packet builder, register definitions, the draw
    state emitters and the hardware driver's address and upload bookkeeping.
  - `drm/` — ioctl request numbers, FourCC codes, render-node paths and the
    AMDGPU uapi structures.
  - `raster/` — texel addressing, stencil test and update, triangle setup
    and coverage in 28.4 fixed point, line stepping, masked color writes.
  - `egl.rs`, `gbm.rs`, `gles.rs` — config selection, surface sizes, query
    strings, native platform choice, the DRI3/Present buffer ring, GBM
    format/modifier checks and the GBM front-buffer pool, error messages.
  - `egl_display.rs` — the EGL display's surface and context registries,
    surface queries and resizes, backing images, and the error latch.
- `app/` — what stays outside the verified library: instruction selection
  over pliron's LLVM dialect, DRM device I/O, the rasterizer's
  floating-point stages and the command queue that drives the device.
- `tests/` — tests of the library on concrete values.
