//! Bookkeeping of the EGL display: the surfaces and contexts it created,
//! keyed by ids handed out in order, each surface's size, swap interval and
//! backing images, and the error an EGL call leaves for `eglGetError`.
use crate::egl::{EGL_HEIGHT, EGL_SUCCESS, EGL_WIDTH};
use crate::hal::{Device, Format, ImageId};
use std::collections::BTreeMap;
use vstd::prelude::*;

verus! {

pub const EGL_BAD_PARAMETER: i32 = 0x300C;
pub const EGL_BAD_SURFACE: i32 = 0x300D;

/// The error the last failing EGL call recorded; `eglGetError` reports it
/// once and leaves `EGL_SUCCESS` behind.
pub struct ErrorLatch {
    last: i32,
}

impl ErrorLatch {
    /// The error waiting to be reported.
    pub closed spec fn pending(&self) -> i32 {
        self.last
    }

    /// A latch with nothing to report.
    pub fn new() -> (r: ErrorLatch)
        ensures
            r.pending() == EGL_SUCCESS,
    {
        ErrorLatch { last: EGL_SUCCESS }
    }

    /// Records `err`, replacing whatever was waiting.
    pub fn set_egl_error(&mut self, err: i32)
        ensures
            final(self).pending() == err,
    {
        self.last = err;
    }

    /// Reports the waiting error and resets the latch (`eglGetError`).
    pub fn take(&mut self) -> (r: i32)
        ensures
            r == old(self).pending(),
            final(self).pending() == EGL_SUCCESS,
    {
        let r = self.last;
        self.last = EGL_SUCCESS;
        r
    }
}

/// One window or pbuffer surface.
#[derive(Debug, Clone, Copy, PartialEq, Eq, Structural)]
pub struct EglSurfaceState {
    pub id: u32,
    pub width: u32,
    pub height: u32,
    /// The native window it presents to; 0 for a pbuffer.
    pub native_window: u64,
    pub swap_interval: i32,
    /// The images rendering goes to, created when the surface is first made
    /// current and dropped when its size changes.
    pub hal_color_image: Option<ImageId>,
    pub hal_depth_image: Option<ImageId>,
}

/// One rendering context. Its GL state belongs to the GL front end; the
/// display keeps the id it handed out.
#[derive(Debug, Clone, Copy, PartialEq, Eq, Structural)]
pub struct EglContextState {
    pub id: u32,
}

/// A surface as created: the given size, swap interval 0, no images yet.
pub open spec fn created_surface(id: u32, width: u32, height: u32, native_window: u64) -> EglSurfaceState {
    EglSurfaceState {
        id,
        width,
        height,
        native_window,
        swap_interval: 0,
        hal_color_image: None,
        hal_depth_image: None,
    }
}

/// What `eglQuerySurface` reports for `attribute`: the width or the height,
/// 0 for anything else.
pub open spec fn surface_attribute(surface: EglSurfaceState, attribute: i32) -> i32 {
    if attribute == EGL_WIDTH {
        surface.width as i32
    } else if attribute == EGL_HEIGHT {
        surface.height as i32
    } else {
        0
    }
}

/// A size as a surface takes it: at least 1.
pub open spec fn at_least_one(value: u32) -> u32 {
    if value == 0 {
        1
    } else {
        value
    }
}

/// A surface after a resize to `width` by `height`: the clamped size, and,
/// where that size differs from the old one, no images (they are made anew
/// at the new size).
pub open spec fn resized(surface: EglSurfaceState, width: u32, height: u32) -> EglSurfaceState {
    let w = at_least_one(width);
    let h = at_least_one(height);
    if surface.width != w || surface.height != h {
        EglSurfaceState {
            width: w,
            height: h,
            hal_color_image: None,
            hal_depth_image: None,
            ..surface
        }
    } else {
        surface
    }
}

impl EglSurfaceState {
    /// A new surface `id` of `width` by `height` on `native_window`.
    pub fn new(id: u32, width: u32, height: u32, native_window: u64) -> (r: Self)
        ensures
            r == created_surface(id, width, height, native_window),
    {
        EglSurfaceState {
            id,
            width,
            height,
            native_window,
            swap_interval: 0,
            hal_color_image: None,
            hal_depth_image: None,
        }
    }

    /// The value of `attribute` (`eglQuerySurface`).
    pub fn query(&self, attribute: i32) -> (r: i32)
        ensures
            r == surface_attribute(*self, attribute),
    {
        if attribute == EGL_WIDTH {
            self.width as i32
        } else if attribute == EGL_HEIGHT {
            self.height as i32
        } else {
            0
        }
    }

    /// Resizes the surface (each dimension at least 1); says whether the
    /// size changed, in which case the backing images are dropped.
    pub fn resize(&mut self, width: u32, height: u32) -> (changed: bool)
        ensures
            *final(self) == resized(*old(self), width, height),
            changed == (old(self).width != at_least_one(width) || old(self).height
                != at_least_one(height)),
    {
        let w = if width == 0 {
            1
        } else {
            width
        };
        let h = if height == 0 {
            1
        } else {
            height
        };
        if self.width != w || self.height != h {
            self.width = w;
            self.height = h;
            self.hal_color_image = None;
            self.hal_depth_image = None;
            true
        } else {
            false
        }
    }

    /// Sets the swap interval presentation honors.
    pub fn set_swap_interval(&mut self, interval: i32)
        ensures
            *final(self) == (EglSurfaceState { swap_interval: interval, ..*old(self) }),
    {
        self.swap_interval = interval;
    }

    /// The viewport and scissor rectangle a context gets when the surface
    /// is made current: the whole surface.
    pub fn viewport(&self) -> (r: (i32, i32, i32, i32))
        ensures
            r == (0i32, 0i32, self.width as i32, self.height as i32),
    {
        (0, 0, self.width as i32, self.height as i32)
    }

    /// The surface's color and depth images, created on `device` at the
    /// surface's size (BGRA color, 32-bit float depth) where the surface has
    /// no color image yet.
    pub fn bind_images(&mut self, device: &mut Device) -> (r: (Option<ImageId>, Option<ImageId>))
        requires
            old(device).wf(),
            old(device).next_id() + 2 <= u32::MAX,
            old(self).width * old(self).height * 4 <= u32::MAX,
        ensures
            final(device).wf(),
            r == (final(self).hal_color_image, final(self).hal_depth_image),
            final(self).id == old(self).id,
            final(self).width == old(self).width,
            final(self).height == old(self).height,
            final(self).native_window == old(self).native_window,
            final(self).swap_interval == old(self).swap_interval,
            old(self).hal_color_image.is_some() ==> *final(self) == *old(self) && *final(device)
                == *old(device),
            old(self).hal_color_image.is_none() ==> {
                let color = old(device).next_id();
                let depth = (old(device).next_id() + 1) as u32;
                &&& r == (Some(ImageId(color)), Some(ImageId(depth)))
                &&& final(device).next_id() == old(device).next_id() + 2
                &&& !old(device).images().contains_key(color)
                &&& !old(device).images().contains_key(depth)
                &&& final(device).images().contains_key(color)
                &&& final(device).images()[color].format == Format::B8G8R8A8Unorm
                &&& final(device).images()[color].width == old(self).width
                &&& final(device).images()[color].height == old(self).height
                &&& final(device).images().contains_key(depth)
                &&& final(device).images()[depth].format == Format::D32Sfloat
                &&& final(device).images()[depth].width == old(self).width
                &&& final(device).images()[depth].height == old(self).height
                &&& final(device).images().remove(color).remove(depth) == old(device).images()
                &&& final(device).buffers() == old(device).buffers()
                &&& final(device).pipelines() == old(device).pipelines()
                &&& final(device).descriptor_sets() == old(device).descriptor_sets()
                &&& final(device).attachments() == old(device).attachments()
            },
    {
        if self.hal_color_image.is_none() {
            let ghost start = *device;
            let color = device.create_image(Format::B8G8R8A8Unorm, self.width, self.height);
            let ghost middle = *device;
            let depth = device.create_image(Format::D32Sfloat, self.width, self.height);
            proof {
                assert(middle.images().remove(color.0) == start.images());
                assert(!middle.images().contains_key(depth.0));
                assert(device.images().remove(depth.0) == middle.images());
                assert(device.images().remove(color.0).remove(depth.0) =~= start.images());
            }
            self.hal_color_image = Some(color);
            self.hal_depth_image = Some(depth);
        }
        (self.hal_color_image, self.hal_depth_image)
    }
}

/// Why `eglSwapInterval` refuses `interval`: only 0 and 1 are taken
/// (`EGL_BAD_PARAMETER`), and only with a current surface
/// (`EGL_BAD_SURFACE`).
pub fn swap_interval_error(interval: i32, has_current_surface: bool) -> (r: Option<i32>)
    ensures
        interval != 0 && interval != 1 ==> r == Some(EGL_BAD_PARAMETER),
        (interval == 0 || interval == 1) && !has_current_surface ==> r == Some(EGL_BAD_SURFACE),
        (interval == 0 || interval == 1) && has_current_surface ==> r.is_none(),
{
    if interval != 0 && interval != 1 {
        Some(EGL_BAD_PARAMETER)
    } else if !has_current_surface {
        Some(EGL_BAD_SURFACE)
    } else {
        None
    }
}

/// The display: whether it is initialized, and the surfaces and contexts
/// it created, by id.
pub struct EglDisplayState {
    initialized: bool,
    surfaces: BTreeMap<u32, EglSurfaceState>,
    contexts: BTreeMap<u32, EglContextState>,
    next_surface_id: u32,
    next_context_id: u32,
}

impl EglDisplayState {
    /// Whether `eglInitialize` ran (and no `eglTerminate` since).
    pub closed spec fn initialized(&self) -> bool {
        self.initialized
    }

    /// The surfaces, by id.
    pub closed spec fn surfaces(&self) -> Map<u32, EglSurfaceState> {
        self.surfaces@
    }

    /// The contexts, by id.
    pub closed spec fn contexts(&self) -> Map<u32, EglContextState> {
        self.contexts@
    }

    /// The id the next surface receives.
    pub closed spec fn next_surface_id(&self) -> u32 {
        self.next_surface_id
    }

    /// The id the next context receives.
    pub closed spec fn next_context_id(&self) -> u32 {
        self.next_context_id
    }

    /// Every surface and context is filed under its own id, and that id was
    /// handed out before: it lies in `1..next`.
    pub open spec fn wf(&self) -> bool {
        &&& self.next_surface_id() >= 1
        &&& self.next_context_id() >= 1
        &&& forall|id: u32| #[trigger]
            self.surfaces().contains_key(id) ==> 1 <= id < self.next_surface_id()
                && self.surfaces()[id].id == id
        &&& forall|id: u32| #[trigger]
            self.contexts().contains_key(id) ==> 1 <= id < self.next_context_id()
                && self.contexts()[id].id == id
    }

    /// An uninitialized display with no surfaces or contexts; the first ids
    /// it hands out are 1.
    pub fn new() -> (r: Self)
        ensures
            r.wf(),
            !r.initialized(),
            r.surfaces() == Map::<u32, EglSurfaceState>::empty(),
            r.contexts() == Map::<u32, EglContextState>::empty(),
            r.next_surface_id() == 1,
            r.next_context_id() == 1,
    {
        EglDisplayState {
            initialized: false,
            surfaces: BTreeMap::new(),
            contexts: BTreeMap::new(),
            next_surface_id: 1,
            next_context_id: 1,
        }
    }

    /// Hands out the next surface id (the counter wraps after `u32::MAX`).
    pub fn allocate_surface_id(&mut self) -> (id: u32)
        ensures
            id == old(self).next_surface_id(),
            final(self).next_surface_id() == (if old(self).next_surface_id() == u32::MAX {
                0
            } else {
                old(self).next_surface_id() + 1
            }),
            final(self).next_context_id() == old(self).next_context_id(),
            final(self).initialized() == old(self).initialized(),
            final(self).surfaces() == old(self).surfaces(),
            final(self).contexts() == old(self).contexts(),
    {
        let id = self.next_surface_id;
        self.next_surface_id = self.next_surface_id.wrapping_add(1);
        id
    }

    /// Hands out the next context id (the counter wraps after `u32::MAX`).
    pub fn allocate_context_id(&mut self) -> (id: u32)
        ensures
            id == old(self).next_context_id(),
            final(self).next_context_id() == (if old(self).next_context_id() == u32::MAX {
                0
            } else {
                old(self).next_context_id() + 1
            }),
            final(self).next_surface_id() == old(self).next_surface_id(),
            final(self).initialized() == old(self).initialized(),
            final(self).surfaces() == old(self).surfaces(),
            final(self).contexts() == old(self).contexts(),
    {
        let id = self.next_context_id;
        self.next_context_id = self.next_context_id.wrapping_add(1);
        id
    }

    /// `eglInitialize`: marks the display initialized and gives the EGL
    /// version it implements, 1.4.
    pub fn initialize(&mut self) -> (version: (i32, i32))
        ensures
            version == (1i32, 4i32),
            final(self).initialized(),
            final(self).surfaces() == old(self).surfaces(),
            final(self).contexts() == old(self).contexts(),
            final(self).next_surface_id() == old(self).next_surface_id(),
            final(self).next_context_id() == old(self).next_context_id(),
    {
        self.initialized = true;
        (1, 4)
    }

    /// `eglTerminate`: marks the display uninitialized and forgets every
    /// surface and context. Ids are not reused afterwards.
    pub fn terminate(&mut self)
        ensures
            !final(self).initialized(),
            final(self).surfaces() == Map::<u32, EglSurfaceState>::empty(),
            final(self).contexts() == Map::<u32, EglContextState>::empty(),
            final(self).next_surface_id() == old(self).next_surface_id(),
            final(self).next_context_id() == old(self).next_context_id(),
            old(self).wf() ==> final(self).wf(),
    {
        self.initialized = false;
        self.contexts.clear();
        self.surfaces.clear();
    }

    /// Files a new surface of `width` by `height` on `native_window` under
    /// the next surface id, which it returns.
    pub fn add_surface(&mut self, width: u32, height: u32, native_window: u64) -> (id: u32)
        ensures
            id == old(self).next_surface_id(),
            final(self).surfaces() == old(self).surfaces().insert(
                id,
                created_surface(id, width, height, native_window),
            ),
            final(self).next_surface_id() == (if old(self).next_surface_id() == u32::MAX {
                0
            } else {
                old(self).next_surface_id() + 1
            }),
            final(self).contexts() == old(self).contexts(),
            final(self).next_context_id() == old(self).next_context_id(),
            final(self).initialized() == old(self).initialized(),
            old(self).wf() && old(self).next_surface_id() < u32::MAX ==> final(self).wf()
                && !old(self).surfaces().contains_key(id),
    {
        let id = self.allocate_surface_id();
        let surface = EglSurfaceState::new(id, width, height, native_window);
        self.surfaces.insert(id, surface);
        id
    }

    /// Whether the display is initialized.
    pub fn is_initialized(&self) -> (r: bool)
        ensures
            r == self.initialized(),
    {
        self.initialized
    }

    /// Surface `id`, if there is one.
    pub fn surface(&self, id: u32) -> (r: Option<EglSurfaceState>)
        ensures
            r == (if self.surfaces().contains_key(id) {
                Some(self.surfaces()[id])
            } else {
                None
            }),
    {
        match self.surfaces.get(&id) {
            Some(surface) => Some(*surface),
            None => None,
        }
    }

    /// Context `id`, if there is one.
    pub fn context(&self, id: u32) -> (r: Option<EglContextState>)
        ensures
            r == (if self.contexts().contains_key(id) {
                Some(self.contexts()[id])
            } else {
                None
            }),
    {
        match self.contexts.get(&id) {
            Some(context) => Some(*context),
            None => None,
        }
    }

    /// Stores a changed `surface` back under its id, where a surface with
    /// that id is filed; says whether it was.
    pub fn update_surface(&mut self, surface: EglSurfaceState) -> (stored: bool)
        ensures
            stored == old(self).surfaces().contains_key(surface.id),
            stored ==> final(self).surfaces() == old(self).surfaces().insert(surface.id, surface),
            !stored ==> final(self).surfaces() == old(self).surfaces(),
            final(self).contexts() == old(self).contexts(),
            final(self).next_surface_id() == old(self).next_surface_id(),
            final(self).next_context_id() == old(self).next_context_id(),
            final(self).initialized() == old(self).initialized(),
            old(self).wf() ==> final(self).wf(),
    {
        if self.surfaces.contains_key(&surface.id) {
            self.surfaces.insert(surface.id, surface);
            true
        } else {
            false
        }
    }

    /// `eglDestroySurface`: forgets surface `id`, if there is one.
    pub fn remove_surface(&mut self, id: u32) -> (r: Option<EglSurfaceState>)
        ensures
            final(self).surfaces() == old(self).surfaces().remove(id),
            r == (if old(self).surfaces().contains_key(id) {
                Some(old(self).surfaces()[id])
            } else {
                None
            }),
            final(self).contexts() == old(self).contexts(),
            final(self).next_surface_id() == old(self).next_surface_id(),
            final(self).next_context_id() == old(self).next_context_id(),
            final(self).initialized() == old(self).initialized(),
            old(self).wf() ==> final(self).wf(),
    {
        let r = self.surfaces.remove(&id);
        proof {
            assert(self.surfaces() == old(self).surfaces().remove(id));
            if old(self).wf() {
                assert forall|k: u32| #[trigger]
                    self.surfaces().contains_key(k) implies 1 <= k < self.next_surface_id()
                    && self.surfaces()[k].id == k by {
                    assert(old(self).surfaces().contains_key(k));
                }
                assert(self.contexts() == old(self).contexts());
            }
        }
        r
    }

    /// Files a new context under the next context id, which it returns.
    pub fn add_context(&mut self) -> (id: u32)
        ensures
            id == old(self).next_context_id(),
            final(self).contexts() == old(self).contexts().insert(id, EglContextState { id }),
            final(self).next_context_id() == (if old(self).next_context_id() == u32::MAX {
                0
            } else {
                old(self).next_context_id() + 1
            }),
            final(self).surfaces() == old(self).surfaces(),
            final(self).next_surface_id() == old(self).next_surface_id(),
            final(self).initialized() == old(self).initialized(),
            old(self).wf() && old(self).next_context_id() < u32::MAX ==> final(self).wf()
                && !old(self).contexts().contains_key(id),
    {
        let id = self.allocate_context_id();
        self.contexts.insert(id, EglContextState { id });
        id
    }

    /// `eglDestroyContext`: forgets context `id`, if there is one.
    pub fn remove_context(&mut self, id: u32) -> (r: Option<EglContextState>)
        ensures
            final(self).contexts() == old(self).contexts().remove(id),
            r == (if old(self).contexts().contains_key(id) {
                Some(old(self).contexts()[id])
            } else {
                None
            }),
            final(self).surfaces() == old(self).surfaces(),
            final(self).next_surface_id() == old(self).next_surface_id(),
            final(self).next_context_id() == old(self).next_context_id(),
            final(self).initialized() == old(self).initialized(),
            old(self).wf() ==> final(self).wf(),
    {
        let r = self.contexts.remove(&id);
        proof {
            assert forall|k: u32| #[trigger]
                self.contexts().contains_key(k) implies old(self).contexts().contains_key(k)
                && self.contexts()[k] == old(self).contexts()[k] by {}
        }
        r
    }
}

impl Default for EglDisplayState {
    fn default() -> (r: Self)
        ensures
            r.wf(),
            !r.initialized(),
            r.surfaces() == Map::<u32, EglSurfaceState>::empty(),
            r.contexts() == Map::<u32, EglContextState>::empty(),
            r.next_surface_id() == 1,
            r.next_context_id() == 1,
    {
        EglDisplayState::new()
    }
}

/// A surface reports the size it was created with, and after a resize the
/// size it was resized to (each dimension at least 1).
pub proof fn lemma_query_reports_the_size(
    id: u32,
    width: u32,
    height: u32,
    native_window: u64,
    new_width: u32,
    new_height: u32,
)
    ensures
        surface_attribute(created_surface(id, width, height, native_window), EGL_WIDTH)
            == width as i32,
        surface_attribute(created_surface(id, width, height, native_window), EGL_HEIGHT)
            == height as i32,
        surface_attribute(
            resized(created_surface(id, width, height, native_window), new_width, new_height),
            EGL_WIDTH,
        ) == at_least_one(new_width) as i32,
        surface_attribute(
            resized(created_surface(id, width, height, native_window), new_width, new_height),
            EGL_HEIGHT,
        ) == at_least_one(new_height) as i32,
{
}

/// Ids are never handed out twice while the counter has not wrapped: a
/// surface added to a well-formed display gets an id no surface had, and
/// removing it gives back exactly the surfaces there were.
pub proof fn lemma_added_surface_is_fresh(
    before: EglDisplayState,
    width: u32,
    height: u32,
    native_window: u64,
)
    requires
        before.wf(),
        before.next_surface_id() < u32::MAX,
    ensures
        !before.surfaces().contains_key(before.next_surface_id()),
        before.surfaces().insert(
            before.next_surface_id(),
            created_surface(before.next_surface_id(), width, height, native_window),
        ).remove(before.next_surface_id()) == before.surfaces(),
{
    let id = before.next_surface_id();
    assert(before.surfaces().insert(
        id,
        created_surface(id, width, height, native_window),
    ).remove(id) =~= before.surfaces());
}

} // verus!
