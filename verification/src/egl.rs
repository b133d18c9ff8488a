//! The EGL front end's decisions: the one exported config and how attribute
//! lists select it, surface sizes, query strings, and the DRI3/Present
//! presentation logic of window surfaces (little-endian field reads of X11
//! replies and events, and the ring of shared buffers whose reuse is gated
//! on the server's Present notifications).
use vstd::prelude::*;

verus! {

/// The little-endian value of `bytes`.
pub open spec fn little_endian(bytes: Seq<u8>) -> nat
    decreases bytes.len(),
{
    if bytes.len() == 0 {
        0
    } else {
        (bytes[0] + 256 * little_endian(bytes.drop_first())) as nat
    }
}

/// The `u32` at byte offset `off`, when four bytes are there.
pub fn read_u32_at(buf: &[u8], off: usize) -> (r: Option<u32>)
    ensures
        r is Some <==> off + 4 <= buf@.len(),
        r matches Some(value) ==> value == little_endian(buf@.subrange(off as int, off + 4)),
{
    if off > buf.len() || buf.len() - off < 4 {
        return None;
    }
    let b0 = buf[off] as u32;
    let b1 = buf[off + 1] as u32;
    let b2 = buf[off + 2] as u32;
    let b3 = buf[off + 3] as u32;
    let ghost bytes = buf@.subrange(off as int, off + 4);
    assert(little_endian(bytes) == b0 + 256 * (b1 + 256 * (b2 + 256 * b3))) by {
        reveal_with_fuel(little_endian, 5);
        assert(bytes.drop_first()[0] == b1);
        assert(bytes.drop_first().drop_first()[0] == b2);
        assert(bytes.drop_first().drop_first().drop_first()[0] == b3);
        assert(bytes.drop_first().drop_first().drop_first().drop_first().len() == 0);
    }
    Some(b0 + 256 * (b1 + 256 * (b2 + 256 * b3)))
}

/// The `u16` at byte offset `off`, when two bytes are there.
pub fn read_u16_at(buf: &[u8], off: usize) -> (r: Option<u16>)
    ensures
        r is Some <==> off + 2 <= buf@.len(),
        r matches Some(value) ==> value == little_endian(buf@.subrange(off as int, off + 2)),
{
    if off > buf.len() || buf.len() - off < 2 {
        return None;
    }
    let b0 = buf[off] as u16;
    let b1 = buf[off + 1] as u16;
    let ghost bytes = buf@.subrange(off as int, off + 2);
    assert(little_endian(bytes) == b0 + 256 * b1) by {
        reveal_with_fuel(little_endian, 3);
        assert(bytes.drop_first()[0] == b1);
        assert(bytes.drop_first().drop_first().len() == 0);
    }
    Some(b0 + 256 * b1)
}

/// X11 event code of a GenericEvent (extension events such as Present's).
pub const XCB_GENERIC_EVENT: u8 = 35;
/// Present event types.
pub const PRESENT_EVENT_COMPLETE_NOTIFY: u16 = 1;
pub const PRESENT_EVENT_IDLE_NOTIFY: u16 = 2;
/// CompleteNotify kind of a presented pixmap (as opposed to an MSC notify).
pub const PRESENT_COMPLETE_KIND_PIXMAP: u8 = 0;
/// `Present:Pixmap` option: flip without waiting for vblank.
pub const PRESENT_OPTION_ASYNC: u32 = 1;

/// One shared buffer of a window's ring.
#[derive(Debug, Clone, Copy, PartialEq, Eq, Structural)]
pub struct RingSlot {
    /// X pixmap id created from the buffer's dma-buf, 0 until first present.
    pub pixmap: u32,
    /// Serial of the present in flight on this slot, if any.
    pub busy_serial: Option<u32>,
}

/// The buffer ring of a DRI3/Present window surface: which slots the server
/// still holds, which one the application renders into, and the serial of
/// the last present.
#[derive(Debug, Clone)]
pub struct PresentRing {
    pub slots: Vec<RingSlot>,
    /// Slot the application is rendering into (zero-copy path).
    pub render_slot: Option<usize>,
    pub serial: u32,
    pub window: u32,
    pub present_opcode: u8,
    pub swap_interval: i32,
}

/// The first slot from `k` on that is idle (and, when `imported` is set,
/// already has its pixmap).
pub open spec fn first_idle_from(slots: Seq<RingSlot>, k: int, imported: bool) -> Option<int>
    decreases slots.len() - k,
{
    if k < 0 || k >= slots.len() {
        None
    } else if slots[k].busy_serial is None && (!imported || slots[k].pixmap != 0) {
        Some(k)
    } else {
        first_idle_from(slots, k + 1, imported)
    }
}

/// The slot to render the next frame into: the first idle slot that already
/// has a pixmap, else the first idle slot; never the slot the application
/// is rendering into (the pick falls through when the first candidate is
/// that slot).
pub open spec fn chosen_slot(slots: Seq<RingSlot>, render_slot: Option<usize>) -> Option<int> {
    let imported = first_idle_from(slots, 0, true);
    let any = first_idle_from(slots, 0, false);
    if imported is Some && render_slot != Some(imported->Some_0 as usize) {
        imported
    } else if any is Some && render_slot != Some(any->Some_0 as usize) {
        any
    } else {
        None
    }
}

/// The serial a Present notification `event` releases, if it is an
/// IdleNotify, or a CompleteNotify of a presented pixmap.
pub open spec fn released_serial(event: Seq<u8>) -> Option<u32> {
    if event.len() < 10 {
        None
    } else {
        let kind = little_endian(event.subrange(8, 10));
        if kind != PRESENT_EVENT_COMPLETE_NOTIFY && kind != PRESENT_EVENT_IDLE_NOTIFY {
            None
        } else if event.len() < 24 {
            None
        } else if kind == PRESENT_EVENT_COMPLETE_NOTIFY && event[10] != PRESENT_COMPLETE_KIND_PIXMAP {
            None
        } else {
            Some(little_endian(event.subrange(20, 24)) as u32)
        }
    }
}

/// `slots` with every slot busy with `serial` idle again.
pub open spec fn released(slots: Seq<RingSlot>, serial: u32) -> Seq<RingSlot> {
    Seq::new(
        slots.len(),
        |k: int|
            if slots[k].busy_serial == Some(serial) {
                RingSlot { busy_serial: None, ..slots[k] }
            } else {
                slots[k]
            },
    )
}

/// The first idle slot from `k` on is an idle slot at or after `k`.
proof fn lemma_first_idle_is_idle(slots: Seq<RingSlot>, k: int, imported: bool)
    requires
        first_idle_from(slots, k, imported) is Some,
    ensures
        k <= first_idle_from(slots, k, imported)->Some_0 < slots.len(),
        slots[first_idle_from(slots, k, imported)->Some_0].busy_serial is None,
    decreases slots.len() - k,
{
    if !(k < 0 || k >= slots.len()) && !(slots[k].busy_serial is None && (!imported
        || slots[k].pixmap != 0)) {
        lemma_first_idle_is_idle(slots, k + 1, imported);
    }
}

/// A slot handed out for rendering is free: it lies in the ring, no present
/// is in flight on it, and it is not the slot the application is rendering
/// into.
pub proof fn lemma_chosen_slot_is_free(slots: Seq<RingSlot>, render_slot: Option<usize>)
    requires
        chosen_slot(slots, render_slot) is Some,
    ensures
        ({
            let i = chosen_slot(slots, render_slot)->Some_0;
            &&& 0 <= i < slots.len()
            &&& slots[i].busy_serial is None
            &&& render_slot != Some(i as usize)
        }),
{
    if first_idle_from(slots, 0, true) is Some {
        lemma_first_idle_is_idle(slots, 0, true);
    }
    if first_idle_from(slots, 0, false) is Some {
        lemma_first_idle_is_idle(slots, 0, false);
    }
}

/// A release frees exactly the slots of its serial: afterwards no slot is
/// busy with that serial, and every slot that was not keeps its state.
pub proof fn lemma_release_frees_only_its_serial(slots: Seq<RingSlot>, serial: u32)
    ensures
        released(slots, serial).len() == slots.len(),
        forall|k: int|
            0 <= k < slots.len() ==> #[trigger] released(slots, serial)[k].busy_serial != Some(
                serial,
            ),
        forall|k: int|
            0 <= k < slots.len() && slots[k].busy_serial != Some(serial) ==> #[trigger] released(
                slots,
                serial,
            )[k] == slots[k],
        forall|k: int|
            0 <= k < slots.len() ==> #[trigger] released(slots, serial)[k].pixmap == slots[k].pixmap,
{
}

impl PresentRing {
    fn first_idle(&self, imported: bool) -> (r: Option<usize>)
        ensures
            r matches Some(i) ==> first_idle_from(self.slots@, 0, imported) == Some(i as int),
            r is None ==> first_idle_from(self.slots@, 0, imported) is None,
    {
        let mut k: usize = 0;
        while k < self.slots.len()
            invariant
                k <= self.slots@.len(),
                first_idle_from(self.slots@, 0, imported) == first_idle_from(
                    self.slots@,
                    k as int,
                    imported,
                ),
            decreases self.slots@.len() - k,
        {
            let slot = self.slots[k];
            if slot.busy_serial.is_none() && (!imported || slot.pixmap != 0) {
                return Some(k);
            }
            k = k + 1;
        }
        None
    }

    /// A free slot to render the next frame into: already-imported slots
    /// first, then fresh ones; the slot bound as the render target is never
    /// handed out.
    pub fn free_slot(&self) -> (r: Option<usize>)
        ensures
            r matches Some(i) ==> chosen_slot(self.slots@, self.render_slot) == Some(i as int),
            r is None ==> chosen_slot(self.slots@, self.render_slot) is None,
    {
        match self.first_idle(true) {
            Some(i) => {
                if self.render_slot != Some(i) {
                    return Some(i);
                }
            },
            None => {},
        }
        match self.first_idle(false) {
            Some(i) => {
                if self.render_slot != Some(i) {
                    return Some(i);
                }
                None
            },
            None => None,
        }
    }

    /// Whether `event` is a Present event for this ring's window.
    pub fn matches_window(&self, event: &[u8]) -> (r: bool)
        ensures
            r == (event@.len() >= 20 && event@[0] & 0x7f == XCB_GENERIC_EVENT && event@[1]
                == self.present_opcode && little_endian(event@.subrange(16, 20)) == self.window),
    {
        if event.len() < 20 {
            return false;
        }
        if event[0] & 0x7f != XCB_GENERIC_EVENT || event[1] != self.present_opcode {
            return false;
        }
        match read_u32_at(event, 16) {
            Some(window) => window == self.window,
            None => false,
        }
    }

    /// Releases the slots a Present notification says the server is done
    /// with; any other event leaves the ring as it is.
    pub fn handle_event(&mut self, event: &[u8])
        ensures
            final(self).slots@ == match released_serial(event@) {
                Some(serial) => released(old(self).slots@, serial),
                None => old(self).slots@,
            },
            final(self).render_slot == old(self).render_slot,
            final(self).serial == old(self).serial,
            final(self).window == old(self).window,
            final(self).present_opcode == old(self).present_opcode,
            final(self).swap_interval == old(self).swap_interval,
    {
        let kind = match read_u16_at(event, 8) {
            Some(kind) => kind,
            None => return,
        };
        if kind != PRESENT_EVENT_COMPLETE_NOTIFY && kind != PRESENT_EVENT_IDLE_NOTIFY {
            return;
        }
        let serial = match read_u32_at(event, 20) {
            Some(serial) => serial,
            None => return,
        };
        if kind == PRESENT_EVENT_COMPLETE_NOTIFY && event[10] != PRESENT_COMPLETE_KIND_PIXMAP {
            return;
        }
        let ghost before = self.slots@;
        let mut k: usize = 0;
        while k < self.slots.len()
            invariant
                k <= self.slots@.len(),
                self.slots@.len() == before.len(),
                self.render_slot == old(self).render_slot,
                self.serial == old(self).serial,
                self.window == old(self).window,
                self.present_opcode == old(self).present_opcode,
                self.swap_interval == old(self).swap_interval,
                forall|j: int|
                    0 <= j < before.len() ==> #[trigger] self.slots@[j] == if j < k {
                        released(before, serial)[j]
                    } else {
                        before[j]
                    },
            decreases self.slots@.len() - k,
        {
            let slot = self.slots[k];
            if slot.busy_serial == Some(serial) {
                self.slots.set(k, RingSlot { busy_serial: None, ..slot });
            }
            k = k + 1;
        }
        assert(self.slots@ =~= released(before, serial));
    }

    /// Advances to the serial of the next present: one more, wrapping past
    /// `u32::MAX` to 1 (0 is never a serial).
    pub fn advance_serial(&mut self) -> (r: u32)
        ensures
            r == (if old(self).serial == u32::MAX {
                1
            } else {
                old(self).serial + 1
            }),
            final(self).serial == r,
            final(self).slots == old(self).slots,
            final(self).render_slot == old(self).render_slot,
            final(self).window == old(self).window,
            final(self).present_opcode == old(self).present_opcode,
            final(self).swap_interval == old(self).swap_interval,
    {
        let next = self.serial.wrapping_add(1);
        self.serial = if next < 1 {
            1
        } else {
            next
        };
        self.serial
    }

    /// The `Present:Pixmap` options: asynchronous flips without a swap
    /// interval.
    pub fn present_options(&self) -> (r: u32)
        ensures
            r == (if self.swap_interval == 0 {
                PRESENT_OPTION_ASYNC
            } else {
                0
            }),
    {
        if self.swap_interval == 0 {
            PRESENT_OPTION_ASYNC
        } else {
            0
        }
    }

    /// Records that slot `idx` was presented with `serial`: it stays busy
    /// until the server's notification for that serial.
    pub fn mark_presented(&mut self, idx: usize, serial: u32)
        requires
            idx < old(self).slots@.len(),
        ensures
            final(self).slots@ == old(self).slots@.update(
                idx as int,
                RingSlot { busy_serial: Some(serial), ..old(self).slots@[idx as int] },
            ),
            final(self).render_slot == old(self).render_slot,
            final(self).serial == old(self).serial,
            final(self).window == old(self).window,
            final(self).present_opcode == old(self).present_opcode,
            final(self).swap_interval == old(self).swap_interval,
    {
        let slot = self.slots[idx];
        self.slots.set(idx, RingSlot { busy_serial: Some(serial), ..slot });
    }
}

/// Whether row `y` of a frame copy lies inside both planes.
pub open spec fn frame_row_fits(
    dst_len: int,
    pitch: int,
    src_len: int,
    src_stride: int,
    row_bytes: int,
    y: int,
) -> bool {
    y * src_stride + row_bytes <= src_len && y * pitch + row_bytes <= dst_len
}

/// The number of rows a frame copy writes, scanning from row `y`: it stops
/// at `limit` or at the first row that does not fit.
pub open spec fn frame_rows_from(
    dst_len: int,
    pitch: int,
    src_len: int,
    src_stride: int,
    row_bytes: int,
    y: int,
    limit: int,
) -> int
    decreases limit - y,
{
    if y >= limit || !frame_row_fits(dst_len, pitch, src_len, src_stride, row_bytes, y) {
        y
    } else {
        frame_rows_from(dst_len, pitch, src_len, src_stride, row_bytes, y + 1, limit)
    }
}

/// The rows a frame copy may write at most: the frame's height, and no more
/// rows than the destination holds at its pitch.
pub open spec fn frame_row_limit(dst_len: int, pitch: int, height: u32) -> int {
    let per_row = if pitch > 1 { pitch } else { 1 };
    if height < dst_len / per_row {
        height as int
    } else {
        dst_len / per_row
    }
}

/// `dst` after copying the first `n` rows of `row_bytes` bytes from `src`
/// (rows `src_stride` bytes apart) to rows `pitch` bytes apart.
pub open spec fn frame_copied(
    dst: Seq<u8>,
    src: Seq<u8>,
    pitch: int,
    src_stride: int,
    row_bytes: int,
    n: int,
) -> Seq<u8>
    decreases n,
{
    if n <= 0 {
        dst
    } else {
        let before = frame_copied(dst, src, pitch, src_stride, row_bytes, n - 1);
        let d = (n - 1) * pitch;
        let s = (n - 1) * src_stride;
        Seq::new(
            before.len(),
            |k: int|
                if d <= k < d + row_bytes {
                    src[s + k - d]
                } else {
                    before[k]
                },
        )
    }
}

/// Copies a rendered frame of `width` by `height` 4-byte pixels from `src`
/// (`src_stride` bytes per row) into a shared buffer `dst` (`pitch` bytes
/// per row), row by row, stopping at the first row that does not fit
/// either plane.
pub fn copy_frame(dst: &mut [u8], pitch: usize, src: &[u8], src_stride: usize, width: u32, height: u32)
    requires
        width * 4 <= usize::MAX,
        ({
            let row_bytes = width * 4;
            let limit = frame_row_limit(old(dst)@.len() as int, pitch as int, height);
            let rows = frame_rows_from(
                old(dst)@.len() as int,
                pitch as int,
                src@.len() as int,
                src_stride as int,
                row_bytes,
                0,
                limit,
            );
            rows < limit ==> {
                &&& rows * src_stride + row_bytes <= usize::MAX
                &&& rows * src_stride + row_bytes <= src@.len() ==> rows * pitch + row_bytes
                    <= usize::MAX
            }
        }),
    ensures
        final(dst)@ == frame_copied(
            old(dst)@,
            src@,
            pitch as int,
            src_stride as int,
            width * 4,
            frame_rows_from(
                old(dst)@.len() as int,
                pitch as int,
                src@.len() as int,
                src_stride as int,
                width * 4,
                0,
                frame_row_limit(old(dst)@.len() as int, pitch as int, height),
            ),
        ),
{
    let ghost original = dst@;
    let src_len = src.len();
    let row_bytes = width as usize * 4;
    let per_row = if pitch > 1 {
        pitch
    } else {
        1
    };
    let limit = if (height as usize) < dst.len() / per_row {
        height as usize
    } else {
        dst.len() / per_row
    };
    let ghost total = frame_rows_from(
        original.len() as int,
        pitch as int,
        src@.len() as int,
        src_stride as int,
        row_bytes as int,
        0,
        limit as int,
    );
    let mut y: usize = 0;
    let mut fits = true;
    while fits && y < limit
        invariant
            y <= limit,
            limit == frame_row_limit(original.len() as int, pitch as int, height),
            row_bytes == width * 4,
            dst@.len() == original.len(),
            src_len == src@.len(),
            original.len() <= usize::MAX,
            total == frame_rows_from(
                original.len() as int,
                pitch as int,
                src@.len() as int,
                src_stride as int,
                row_bytes as int,
                y as int,
                limit as int,
            ),
            !fits ==> total == y,
            total < limit ==> {
                &&& total * src_stride + row_bytes <= usize::MAX
                &&& total * src_stride + row_bytes <= src@.len() ==> total * pitch + row_bytes
                    <= usize::MAX
            },
            dst@ == frame_copied(
                original,
                src@,
                pitch as int,
                src_stride as int,
                row_bytes as int,
                y as int,
            ),
        decreases limit - y + (if fits { 1int } else { 0int }),
    {
        assert(y * pitch <= original.len()) by (nonlinear_arith)
            requires
                y < limit,
                limit <= (original.len() as int) / (if pitch > 1 { pitch as int } else { 1int }),
                pitch >= 0,
        ;
        proof {
            lemma_frame_rows_at_least(
                original.len() as int,
                pitch as int,
                src@.len() as int,
                src_stride as int,
                row_bytes as int,
                y as int,
                limit as int,
            );
            if total > y {
                assert(frame_row_fits(
                    original.len() as int,
                    pitch as int,
                    src@.len() as int,
                    src_stride as int,
                    row_bytes as int,
                    y as int,
                ));
            } else {
                assert(total == y);
            }
            assert(y * src_stride + row_bytes <= usize::MAX);
            assert(y * src_stride + row_bytes <= src@.len() ==> y * pitch + row_bytes
                <= usize::MAX);
        }
        let s = y * src_stride;
        let d = y * pitch;
        if s + row_bytes > src_len || d + row_bytes > dst.len() {
            fits = false;
        } else {
            let ghost before = dst@;
            let mut i: usize = 0;
            while i < row_bytes
                invariant
                    i <= row_bytes,
                    src_len == src@.len(),
                    before.len() == original.len(),
                    original.len() <= usize::MAX,
                    s + row_bytes <= src@.len(),
                    d + row_bytes <= dst@.len(),
                    dst@.len() == before.len(),
                    forall|k: int|
                        0 <= k < before.len() ==> #[trigger] dst@[k] == if d <= k < d + i {
                            src@[s + k - d]
                        } else {
                            before[k]
                        },
                decreases row_bytes - i,
            {
                dst[d + i] = src[s + i];
                i = i + 1;
            }
            assert(dst@ =~= frame_copied(
                original,
                src@,
                pitch as int,
                src_stride as int,
                row_bytes as int,
                y + 1,
            ));
            y = y + 1;
        }
    }
}

/// Scanning from row `y`, a frame copy writes at least `y` rows.
proof fn lemma_frame_rows_at_least(
    dst_len: int,
    pitch: int,
    src_len: int,
    src_stride: int,
    row_bytes: int,
    y: int,
    limit: int,
)
    ensures
        frame_rows_from(dst_len, pitch, src_len, src_stride, row_bytes, y, limit) >= y,
    decreases limit - y,
{
    if !(y >= limit || !frame_row_fits(dst_len, pitch, src_len, src_stride, row_bytes, y)) {
        lemma_frame_rows_at_least(dst_len, pitch, src_len, src_stride, row_bytes, y + 1, limit);
    }
}

// ---------------------------------------------------------------------------
// EGL enumerants (EGL 1.4)
// ---------------------------------------------------------------------------
pub const EGL_FALSE: i32 = 0;
pub const EGL_TRUE: i32 = 1;
pub const EGL_DONT_CARE: i32 = -1;
pub const EGL_SUCCESS: i32 = 0x3000;
pub const EGL_BAD_ATTRIBUTE: i32 = 0x3004;
pub const EGL_BUFFER_SIZE: i32 = 0x3020;
pub const EGL_ALPHA_SIZE: i32 = 0x3021;
pub const EGL_BLUE_SIZE: i32 = 0x3022;
pub const EGL_GREEN_SIZE: i32 = 0x3023;
pub const EGL_RED_SIZE: i32 = 0x3024;
pub const EGL_DEPTH_SIZE: i32 = 0x3025;
pub const EGL_STENCIL_SIZE: i32 = 0x3026;
pub const EGL_CONFIG_CAVEAT: i32 = 0x3027;
pub const EGL_CONFIG_ID: i32 = 0x3028;
pub const EGL_LEVEL: i32 = 0x3029;
pub const EGL_MAX_PBUFFER_HEIGHT: i32 = 0x302A;
pub const EGL_MAX_PBUFFER_PIXELS: i32 = 0x302B;
pub const EGL_MAX_PBUFFER_WIDTH: i32 = 0x302C;
pub const EGL_NATIVE_RENDERABLE: i32 = 0x302D;
pub const EGL_NATIVE_VISUAL_ID: i32 = 0x302E;
pub const EGL_NATIVE_VISUAL_TYPE: i32 = 0x302F;
pub const EGL_SAMPLES: i32 = 0x3031;
pub const EGL_SAMPLE_BUFFERS: i32 = 0x3032;
pub const EGL_SURFACE_TYPE: i32 = 0x3033;
pub const EGL_NONE: i32 = 0x3038;
pub const EGL_BIND_TO_TEXTURE_RGB: i32 = 0x3039;
pub const EGL_BIND_TO_TEXTURE_RGBA: i32 = 0x303A;
pub const EGL_LUMINANCE_SIZE: i32 = 0x303D;
pub const EGL_ALPHA_MASK_SIZE: i32 = 0x303E;
pub const EGL_COLOR_BUFFER_TYPE: i32 = 0x303F;
pub const EGL_RENDERABLE_TYPE: i32 = 0x3040;
pub const EGL_CONFORMANT: i32 = 0x3042;
pub const EGL_VENDOR: i32 = 0x3053;
pub const EGL_VERSION: i32 = 0x3054;
pub const EGL_EXTENSIONS: i32 = 0x3055;
pub const EGL_HEIGHT: i32 = 0x3056;
pub const EGL_WIDTH: i32 = 0x3057;
pub const EGL_CLIENT_APIS: i32 = 0x308D;
pub const EGL_RGB_BUFFER: i32 = 0x308E;
pub const EGL_PBUFFER_BIT: i32 = 0x0001;
pub const EGL_WINDOW_BIT: i32 = 0x0004;
pub const EGL_OPENGL_ES_BIT: i32 = 0x0001;
pub const EGL_OPENGL_ES2_BIT: i32 = 0x0004;

/// The id of the single exported config.
pub const CONFIG_ID: i32 = 1;

/// How a requested attribute value is matched against the config's.
#[derive(Debug, Clone, Copy, PartialEq, Eq, Structural)]
pub enum AttribMatch {
    /// The values must be equal.
    Exact,
    /// The config's value must be at least the requested one.
    AtLeast,
    /// Every requested bit must be set in the config's value.
    Mask,
}

/// The single config's value of `attribute` and how a request for it is
/// matched, or `None` for an attribute the config does not know. Its native
/// visual is the display's default visual, `native_visual_id` (0 when there
/// is none).
pub open spec fn config_entry(attribute: i32, native_visual_id: i32) -> Option<(i32, AttribMatch)> {
    if attribute == EGL_BUFFER_SIZE {
        Some((32, AttribMatch::AtLeast))
    } else if attribute == EGL_RED_SIZE || attribute == EGL_GREEN_SIZE || attribute
        == EGL_BLUE_SIZE || attribute == EGL_ALPHA_SIZE || attribute == EGL_STENCIL_SIZE {
        Some((8, AttribMatch::AtLeast))
    } else if attribute == EGL_DEPTH_SIZE {
        Some((24, AttribMatch::AtLeast))
    } else if attribute == EGL_SAMPLES || attribute == EGL_SAMPLE_BUFFERS || attribute
        == EGL_LUMINANCE_SIZE || attribute == EGL_ALPHA_MASK_SIZE {
        Some((0, AttribMatch::AtLeast))
    } else if attribute == EGL_MAX_PBUFFER_WIDTH || attribute == EGL_MAX_PBUFFER_HEIGHT {
        Some((16384, AttribMatch::AtLeast))
    } else if attribute == EGL_MAX_PBUFFER_PIXELS {
        Some((0x1000_0000, AttribMatch::AtLeast))
    } else if attribute == EGL_NATIVE_VISUAL_ID {
        Some((native_visual_id, AttribMatch::Exact))
    } else if attribute == EGL_LEVEL || attribute == EGL_NATIVE_VISUAL_TYPE {
        Some((0, AttribMatch::Exact))
    } else if attribute == EGL_CONFIG_CAVEAT {
        Some((EGL_NONE, AttribMatch::Exact))
    } else if attribute == EGL_CONFIG_ID {
        Some((CONFIG_ID, AttribMatch::Exact))
    } else if attribute == EGL_COLOR_BUFFER_TYPE {
        Some((EGL_RGB_BUFFER, AttribMatch::Exact))
    } else if attribute == EGL_NATIVE_RENDERABLE {
        Some((EGL_FALSE, AttribMatch::Exact))
    } else if attribute == EGL_BIND_TO_TEXTURE_RGB || attribute == EGL_BIND_TO_TEXTURE_RGBA {
        Some((EGL_TRUE, AttribMatch::Exact))
    } else if attribute == EGL_SURFACE_TYPE {
        Some((EGL_WINDOW_BIT | EGL_PBUFFER_BIT, AttribMatch::Mask))
    } else if attribute == EGL_RENDERABLE_TYPE || attribute == EGL_CONFORMANT {
        Some((EGL_OPENGL_ES_BIT | EGL_OPENGL_ES2_BIT, AttribMatch::Mask))
    } else {
        None
    }
}

fn config_entry_of(attribute: i32, native_visual_id: i32) -> (r: Option<(i32, AttribMatch)>)
    ensures
        r == config_entry(attribute, native_visual_id),
{
    if attribute == EGL_BUFFER_SIZE {
        Some((32, AttribMatch::AtLeast))
    } else if attribute == EGL_RED_SIZE || attribute == EGL_GREEN_SIZE || attribute
        == EGL_BLUE_SIZE || attribute == EGL_ALPHA_SIZE || attribute == EGL_STENCIL_SIZE {
        Some((8, AttribMatch::AtLeast))
    } else if attribute == EGL_DEPTH_SIZE {
        Some((24, AttribMatch::AtLeast))
    } else if attribute == EGL_SAMPLES || attribute == EGL_SAMPLE_BUFFERS || attribute
        == EGL_LUMINANCE_SIZE || attribute == EGL_ALPHA_MASK_SIZE {
        Some((0, AttribMatch::AtLeast))
    } else if attribute == EGL_MAX_PBUFFER_WIDTH || attribute == EGL_MAX_PBUFFER_HEIGHT {
        Some((16384, AttribMatch::AtLeast))
    } else if attribute == EGL_MAX_PBUFFER_PIXELS {
        Some((0x1000_0000, AttribMatch::AtLeast))
    } else if attribute == EGL_NATIVE_VISUAL_ID {
        Some((native_visual_id, AttribMatch::Exact))
    } else if attribute == EGL_LEVEL || attribute == EGL_NATIVE_VISUAL_TYPE {
        Some((0, AttribMatch::Exact))
    } else if attribute == EGL_CONFIG_CAVEAT {
        Some((EGL_NONE, AttribMatch::Exact))
    } else if attribute == EGL_CONFIG_ID {
        Some((CONFIG_ID, AttribMatch::Exact))
    } else if attribute == EGL_COLOR_BUFFER_TYPE {
        Some((EGL_RGB_BUFFER, AttribMatch::Exact))
    } else if attribute == EGL_NATIVE_RENDERABLE {
        Some((EGL_FALSE, AttribMatch::Exact))
    } else if attribute == EGL_BIND_TO_TEXTURE_RGB || attribute == EGL_BIND_TO_TEXTURE_RGBA {
        Some((EGL_TRUE, AttribMatch::Exact))
    } else if attribute == EGL_SURFACE_TYPE {
        Some((EGL_WINDOW_BIT | EGL_PBUFFER_BIT, AttribMatch::Mask))
    } else if attribute == EGL_RENDERABLE_TYPE || attribute == EGL_CONFORMANT {
        Some((EGL_OPENGL_ES_BIT | EGL_OPENGL_ES2_BIT, AttribMatch::Mask))
    } else {
        None
    }
}

/// Whether the config's value `have` satisfies a request for `want`.
pub open spec fn satisfies(have: i32, want: i32, kind: AttribMatch) -> bool {
    match kind {
        AttribMatch::AtLeast => have >= want,
        AttribMatch::Mask => have & want == want,
        AttribMatch::Exact => have == want,
    }
}

/// The outcome of matching the attribute pairs of `list` from position `k`
/// on against the config: `Ok(true)` when every pair up to the `EGL_NONE`
/// terminator (or the end of the list) is satisfied or left to the
/// implementation with `EGL_DONT_CARE`, `Ok(false)` at the first unsatisfied
/// pair, and `Err(EGL_BAD_ATTRIBUTE)` at the first unknown attribute.
pub open spec fn choose_from(list: Seq<i32>, k: int, native_visual_id: i32) -> Result<bool, i32>
    decreases list.len() - k,
{
    if k < 0 || k + 1 >= list.len() || list[k] == EGL_NONE {
        Ok(true)
    } else {
        let attribute = list[k];
        let want = list[k + 1];
        if attribute == EGL_DONT_CARE || want == EGL_DONT_CARE {
            choose_from(list, k + 2, native_visual_id)
        } else {
            match config_entry(attribute, native_visual_id) {
                None => Err(EGL_BAD_ATTRIBUTE),
                Some((have, kind)) => if satisfies(have, want, kind) {
                    choose_from(list, k + 2, native_visual_id)
                } else {
                    Ok(false)
                },
            }
        }
    }
}

/// Matches an `EGL_NONE`-terminated attribute list against the single
/// config, whose native visual is `native_visual_id`: whether it is chosen,
/// or the error an unknown attribute raises.
/// A list that ends without `EGL_NONE` ends at its last whole pair.
pub fn choose_config(attrib_list: &[i32], native_visual_id: i32) -> (r: Result<bool, i32>)
    ensures
        r == choose_from(attrib_list@, 0, native_visual_id),
{
    let mut k: usize = 0;
    while k + 1 < attrib_list.len() && attrib_list[k] != EGL_NONE
        invariant
            k % 2 == 0,
            k <= attrib_list@.len(),
            choose_from(attrib_list@, 0, native_visual_id) == choose_from(
                attrib_list@,
                k as int,
                native_visual_id,
            ),
        decreases attrib_list@.len() - k,
    {
        let attribute = attrib_list[k];
        let want = attrib_list[k + 1];
        if attribute != EGL_DONT_CARE && want != EGL_DONT_CARE {
            match config_entry_of(attribute, native_visual_id) {
                None => return Err(EGL_BAD_ATTRIBUTE),
                Some((have, kind)) => {
                    let ok = match kind {
                        AttribMatch::AtLeast => have >= want,
                        AttribMatch::Mask => have & want == want,
                        AttribMatch::Exact => have == want,
                    };
                    if !ok {
                        return Ok(false);
                    }
                },
            }
        }
        k = k + 2;
    }
    Ok(true)
}

/// The value `eglGetConfigAttrib` reports for `attribute` of the single
/// config: the value selection matches for every attribute the config knows
/// (the query side and the selection side of one config agree, the native
/// visual being the display's default visual `native_visual_id`), and 0 for
/// any other attribute.
pub open spec fn config_attribute_value(attribute: i32, native_visual_id: i32) -> i32 {
    match config_entry(attribute, native_visual_id) {
        Some((have, _)) => have,
        None => 0,
    }
}

/// The value of `attribute` of the single config.
pub fn config_attrib(attribute: i32, native_visual_id: i32) -> (r: i32)
    ensures
        r == config_attribute_value(attribute, native_visual_id),
{
    match config_entry_of(attribute, native_visual_id) {
        Some((have, _)) => have,
        None => 0,
    }
}

/// The query side agrees with the selection side: asking `eglChooseConfig`
/// for the value `eglGetConfigAttrib` reports selects the config, for every
/// attribute the selection knows.
pub proof fn lemma_queried_values_select_the_config(attribute: i32, native_visual_id: i32)
    requires
        config_entry(attribute, native_visual_id) is Some,
    ensures
        choose_from(
            seq![attribute, config_attribute_value(attribute, native_visual_id), EGL_NONE],
            0,
            native_visual_id,
        ) == Ok::<bool, i32>(true),
{
    let list = seq![attribute, config_attribute_value(attribute, native_visual_id), EGL_NONE];
    assert(choose_from(list, 2, native_visual_id) == Ok::<bool, i32>(true));
    let want = config_attribute_value(attribute, native_visual_id);
    assert(4i32 | 1i32 == 5i32) by (bit_vector);
    assert(1i32 | 4i32 == 5i32) by (bit_vector);
    assert(5i32 & 5i32 == 5i32) by (bit_vector);
    assert(5i32 & 0i32 == 0i32) by (bit_vector);
    if want != EGL_DONT_CARE {
        let (have, kind) = config_entry(attribute, native_visual_id)->Some_0;
        assert(satisfies(have, want, kind));
    }
}

/// Which string `eglQueryString` gives for `name` (NUL-terminated, as C
/// callers read it): the vendor, the version, the client APIs, and the
/// extensions, those of the client where no display is given; nothing for
/// any other name.
pub fn query_string(name: i32, display_is_null: bool) -> (r: Option<&'static str>)
    ensures
        name == EGL_VENDOR ==> r == Some("Vantage\0"),
        name == EGL_VERSION ==> r == Some("1.4 Vantage EGL 1.4\0"),
        name == EGL_CLIENT_APIS ==> r == Some("OpenGL_ES \0"),
        name == EGL_EXTENSIONS && display_is_null ==> r == Some(
            "EGL_EXT_platform_base EGL_EXT_platform_x11 EGL_EXT_platform_wayland EGL_MESA_platform_surfaceless EGL_KHR_client_get_all_proc_addresses\0",
        ),
        name == EGL_EXTENSIONS && !display_is_null ==> r == Some(
            "EGL_KHR_create_context EGL_KHR_surfaceless_context EGL_KHR_image_base EGL_KHR_fence_sync EGL_KHR_wait_sync EGL_KHR_get_all_proc_addresses\0",
        ),
        name != EGL_VENDOR && name != EGL_VERSION && name != EGL_CLIENT_APIS && name
            != EGL_EXTENSIONS ==> r.is_none(),
{
    if name == EGL_VENDOR {
        Some("Vantage\0")
    } else if name == EGL_VERSION {
        Some("1.4 Vantage EGL 1.4\0")
    } else if name == EGL_CLIENT_APIS {
        Some("OpenGL_ES \0")
    } else if name == EGL_EXTENSIONS && display_is_null {
        Some(
            "EGL_EXT_platform_base EGL_EXT_platform_x11 EGL_EXT_platform_wayland EGL_MESA_platform_surfaceless EGL_KHR_client_get_all_proc_addresses\0",
        )
    } else if name == EGL_EXTENSIONS {
        Some(
            "EGL_KHR_create_context EGL_KHR_surfaceless_context EGL_KHR_image_base EGL_KHR_fence_sync EGL_KHR_wait_sync EGL_KHR_get_all_proc_addresses\0",
        )
    } else {
        None
    }
}

/// The sizes and limits among the config's attributes: a request names the
/// least value it accepts.
pub open spec fn is_minimum_attribute(attribute: i32) -> bool {
    attribute == EGL_BUFFER_SIZE || attribute == EGL_RED_SIZE || attribute == EGL_GREEN_SIZE
        || attribute == EGL_BLUE_SIZE || attribute == EGL_ALPHA_SIZE || attribute
        == EGL_DEPTH_SIZE || attribute == EGL_STENCIL_SIZE || attribute == EGL_SAMPLES
        || attribute == EGL_SAMPLE_BUFFERS || attribute == EGL_LUMINANCE_SIZE || attribute
        == EGL_ALPHA_MASK_SIZE || attribute == EGL_MAX_PBUFFER_WIDTH || attribute
        == EGL_MAX_PBUFFER_HEIGHT || attribute == EGL_MAX_PBUFFER_PIXELS
}

/// The bitmask attributes: a request names bits the config must all have.
pub open spec fn is_bitmask_attribute(attribute: i32) -> bool {
    attribute == EGL_SURFACE_TYPE || attribute == EGL_RENDERABLE_TYPE || attribute
        == EGL_CONFORMANT
}

/// Selection by one attribute, against the value a query reports: a size
/// or limit selects the config exactly when the request is at most the
/// config's value (so any smaller request selects it too), a bitmask when
/// every requested bit is among the config's, and any other known
/// attribute when the request equals the config's value. A request left to
/// the implementation (`EGL_DONT_CARE`) always selects it.
pub proof fn lemma_selection_by_one_attribute(attribute: i32, requested: i32, native_visual_id: i32)
    requires
        config_entry(attribute, native_visual_id) is Some,
    ensures
        requested == EGL_DONT_CARE ==> choose_from(
            seq![attribute, requested, EGL_NONE],
            0,
            native_visual_id,
        ) == Ok::<bool, i32>(true),
        requested != EGL_DONT_CARE && is_minimum_attribute(attribute) ==> choose_from(
            seq![attribute, requested, EGL_NONE],
            0,
            native_visual_id,
        ) == Ok::<bool, i32>(requested <= config_attribute_value(attribute, native_visual_id)),
        requested != EGL_DONT_CARE && is_bitmask_attribute(attribute) ==> choose_from(
            seq![attribute, requested, EGL_NONE],
            0,
            native_visual_id,
        ) == Ok::<bool, i32>(
            requested & config_attribute_value(attribute, native_visual_id) == requested,
        ),
        requested != EGL_DONT_CARE && !is_minimum_attribute(attribute) && !is_bitmask_attribute(
            attribute,
        ) ==> choose_from(seq![attribute, requested, EGL_NONE], 0, native_visual_id) == Ok::<
            bool,
            i32,
        >(requested == config_attribute_value(attribute, native_visual_id)),
{
    let list = seq![attribute, requested, EGL_NONE];
    assert(choose_from(list, 2, native_visual_id) == Ok::<bool, i32>(true));
    assert(forall|a: i32, b: i32| #[trigger] (a & b) == b & a) by (bit_vector);
}

/// Selection is monotone in a size or limit: a config chosen for a
/// request is chosen for every smaller request of the same attribute.
pub proof fn lemma_smaller_requests_select_too(
    attribute: i32,
    requested: i32,
    smaller: i32,
    native_visual_id: i32,
)
    requires
        is_minimum_attribute(attribute),
        smaller <= requested,
        choose_from(seq![attribute, requested, EGL_NONE], 0, native_visual_id) == Ok::<bool, i32>(
            true,
        ),
    ensures
        choose_from(seq![attribute, smaller, EGL_NONE], 0, native_visual_id) == Ok::<bool, i32>(
            true,
        ),
{
    lemma_selection_by_one_attribute(attribute, requested, native_visual_id);
    lemma_selection_by_one_attribute(attribute, smaller, native_visual_id);
    if requested == EGL_DONT_CARE {
        assert(config_attribute_value(attribute, native_visual_id) >= 0);
    }
}

/// The size of a window surface created with `attrib_list`: 1280 by 720
/// unless `EGL_WIDTH` / `EGL_HEIGHT` set it (at least 1); the last setting
/// of each wins.
pub open spec fn surface_size_from(list: Seq<i32>, k: int, size: (u32, u32)) -> (u32, u32)
    decreases list.len() - k,
{
    if k < 0 || k + 1 >= list.len() || list[k] == EGL_NONE {
        size
    } else {
        let value = (if list[k + 1] > 1 { list[k + 1] } else { 1 }) as u32;
        let next = if list[k] == EGL_WIDTH {
            (value, size.1)
        } else if list[k] == EGL_HEIGHT {
            (size.0, value)
        } else {
            size
        };
        surface_size_from(list, k + 2, next)
    }
}

/// The size of a window surface created with `attrib_list`.
pub fn surface_size(attrib_list: &[i32]) -> (r: (u32, u32))
    ensures
        r == surface_size_from(attrib_list@, 0, (1280u32, 720u32)),
{
    let mut size: (u32, u32) = (1280, 720);
    let mut k: usize = 0;
    while k + 1 < attrib_list.len() && attrib_list[k] != EGL_NONE
        invariant
            k % 2 == 0,
            k <= attrib_list@.len(),
            surface_size_from(attrib_list@, 0, (1280u32, 720u32)) == surface_size_from(
                attrib_list@,
                k as int,
                size,
            ),
        decreases attrib_list@.len() - k,
    {
        let requested = attrib_list[k + 1];
        let value = (if requested > 1 {
            requested
        } else {
            1
        }) as u32;
        if attrib_list[k] == EGL_WIDTH {
            size = (value, size.1);
        } else if attrib_list[k] == EGL_HEIGHT {
            size = (size.0, value);
        }
        k = k + 2;
    }
    size
}

/// The size of a surface on a native window that reports `width` by
/// `height`: 800 by 600 where a dimension is unknown (0).
pub fn native_window_size(width: u32, height: u32) -> (r: (u32, u32))
    ensures
        r == ((if width == 0 { 800 } else { width }), (if height == 0 { 600 } else { height })),
{
    let width = if width == 0 {
        800
    } else {
        width
    };
    let height = if height == 0 {
        600
    } else {
        height
    };
    (width, height)
}

// ---------------------------------------------------------------------------
// Native platform selection (GLVND vendor side)
// ---------------------------------------------------------------------------
pub const EGL_PLATFORM_X11_KHR: u32 = 0x31D5;
pub const EGL_PLATFORM_X11_SCREEN_KHR: u32 = 0x31D6;
pub const EGL_PLATFORM_WAYLAND_KHR: u32 = 0x31D8;
pub const EGL_PLATFORM_SURFACELESS_MESA: u32 = 0x31DD;
pub const EGL_PLATFORM_DEVICE_EXT: u32 = 0x313F;

/// How native windows handed to window-surface creation are interpreted.
#[derive(Debug, Clone, Copy, PartialEq, Eq, Structural)]
pub enum NativePlatform {
    /// No native windows (headless, pbuffer-only rendering).
    Headless,
    X11,
    Wayland,
}

/// The ASCII bytes of `wayland`.
pub open spec fn wayland_bytes() -> Seq<u8> {
    seq![119u8, 97, 121, 108, 97, 110, 100]
}

/// The platform a display of EGL `platform` is interpreted on, given the
/// `XDG_SESSION_TYPE` of the environment, or `None` for a platform this
/// vendor does not support. The default platform follows the session type,
/// X11 when it names neither; headless platforms import no native windows.
pub open spec fn platform_choice(platform: u32, session_type: Option<Seq<u8>>) -> Option<
    NativePlatform,
> {
    if platform == 0 || platform == EGL_NONE as u32 {
        match session_type {
            Some(s) => if s == wayland_bytes() {
                Some(NativePlatform::Wayland)
            } else {
                Some(NativePlatform::X11)
            },
            None => Some(NativePlatform::X11),
        }
    } else if platform == EGL_PLATFORM_X11_KHR {
        Some(NativePlatform::X11)
    } else if platform == EGL_PLATFORM_WAYLAND_KHR {
        Some(NativePlatform::Wayland)
    } else if platform == EGL_PLATFORM_SURFACELESS_MESA || platform == EGL_PLATFORM_X11_SCREEN_KHR
        || platform == EGL_PLATFORM_DEVICE_EXT {
        Some(NativePlatform::Headless)
    } else {
        None
    }
}

fn bytes_equal(a: &[u8], b: &[u8]) -> (r: bool)
    ensures
        r == (a@ == b@),
{
    if a.len() != b.len() {
        return false;
    }
    let mut i: usize = 0;
    while i < a.len()
        invariant
            a@.len() == b@.len(),
            i <= a@.len(),
            forall|j: int| 0 <= j < i ==> a@[j] == b@[j],
        decreases a@.len() - i,
    {
        if a[i] != b[i] {
            return false;
        }
        i = i + 1;
    }
    assert(a@ =~= b@);
    true
}

/// The platform a display of EGL `platform` is interpreted on; see
/// `platform_choice`.
pub fn choose_platform(platform: u32, session_type: Option<&[u8]>) -> (r: Option<NativePlatform>)
    ensures
        r == platform_choice(
            platform,
            match session_type {
                Some(s) => Some(s@),
                None => None,
            },
        ),
{
    if platform == 0 || platform == 0x3038 {
        match session_type {
            Some(s) => {
                let wayland: [u8; 7] = [119, 97, 121, 108, 97, 110, 100];
                assert(wayland@ =~= wayland_bytes());
                if bytes_equal(s, &wayland) {
                    Some(NativePlatform::Wayland)
                } else {
                    Some(NativePlatform::X11)
                }
            },
            None => Some(NativePlatform::X11),
        }
    } else if platform == EGL_PLATFORM_X11_KHR {
        Some(NativePlatform::X11)
    } else if platform == EGL_PLATFORM_WAYLAND_KHR {
        Some(NativePlatform::Wayland)
    } else if platform == EGL_PLATFORM_SURFACELESS_MESA || platform == EGL_PLATFORM_X11_SCREEN_KHR
        || platform == EGL_PLATFORM_DEVICE_EXT {
        Some(NativePlatform::Headless)
    } else {
        None
    }
}

/// The tag a platform is stored under: 0 none, 1 X11, 2 Wayland.
pub open spec fn tag_of(platform: NativePlatform) -> u32 {
    match platform {
        NativePlatform::Headless => 0,
        NativePlatform::X11 => 1,
        NativePlatform::Wayland => 2,
    }
}

/// The tag `platform` is stored under.
pub fn platform_tag(platform: NativePlatform) -> (r: u32)
    ensures
        r == tag_of(platform),
{
    match platform {
        NativePlatform::Headless => 0,
        NativePlatform::X11 => 1,
        NativePlatform::Wayland => 2,
    }
}

/// The platform a stored tag names; an unknown tag names none.
pub fn platform_from_tag(tag: u32) -> (r: NativePlatform)
    ensures
        r == (if tag == 1 {
            NativePlatform::X11
        } else if tag == 2 {
            NativePlatform::Wayland
        } else {
            NativePlatform::Headless
        }),
{
    if tag == 1 {
        NativePlatform::X11
    } else if tag == 2 {
        NativePlatform::Wayland
    } else {
        NativePlatform::Headless
    }
}

/// Storing a platform and reading it back gives the same platform.
pub proof fn lemma_platform_tag_round_trip(platform: NativePlatform)
    ensures
        (if tag_of(platform) == 1 {
            NativePlatform::X11
        } else if tag_of(platform) == 2 {
            NativePlatform::Wayland
        } else {
            NativePlatform::Headless
        }) == platform,
{
}

/// Whether a GLVND vendor ABI `version` has the major version this vendor
/// implements (0).
pub fn vendor_abi_supported(version: u32) -> (r: bool)
    ensures
        r == (version / 0x1_0000 == 0),
{
    version / 0x1_0000 == 0
}

} // verus!
