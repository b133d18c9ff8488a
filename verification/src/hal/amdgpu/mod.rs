//! AMDGPU hardware execution: command stream generation, and the
//! bookkeeping of the hardware driver (GPU virtual address blocks, the
//! upload arena, the indirect buffer and the buffers a submission
//! references).
pub mod pm4;
pub mod regs;
pub mod state;

use crate::drm::Error;
use vstd::prelude::*;

verus! {

/// The granularity of GPU virtual address blocks: 64 KiB pages.
pub const VA_ALIGNMENT: u64 = 0x10000;

/// The upload arena's first size: 2 MiB.
pub const ARENA_INITIAL_SIZE: u64 = 0x20_0000;

/// The indirect buffer's first size: 256 KiB.
pub const IB_INITIAL_SIZE: u64 = 0x4_0000;

/// Zero bytes after shader code, so instruction prefetch stays inside the
/// buffer.
pub const SHADER_PREFETCH_PADDING: u64 = 1024;

/// `size` rounded up to whole 64 KiB pages.
pub open spec fn va_block_size(size: u64) -> int {
    ((size + 0xffff) / 0x10000) * 0x10000
}

/// A page-rounded block covers its request.
proof fn lemma_va_block_covers(size: u64)
    ensures
        size <= va_block_size(size) <= size + 0xffff,
{
    let padded = size + 0xffff;
    vstd::arithmetic::div_mod::lemma_fundamental_div_mod(padded as int, 0x10000);
}

/// A bump allocator of GPU virtual addresses: blocks are handed out from
/// `cursor` upwards, up to `max`.
#[derive(Debug, Clone, Copy)]
pub struct VaAllocator {
    pub cursor: u64,
    pub max: u64,
}

impl VaAllocator {
    /// Bump-allocates a block of `size` bytes rounded up to whole pages, or
    /// fails with `ENOMEM` when it would end past `max`.
    pub fn alloc_va(&mut self, size: u64) -> (r: Result<u64, Error>)
        requires
            size + 0xffff <= u64::MAX,
            old(self).cursor + va_block_size(size) > u64::MAX ==> old(self).max < u64::MAX,
        ensures
            final(self).max == old(self).max,
            old(self).cursor + va_block_size(size) > old(self).max ==> r == Err::<u64, Error>(
                Error::Io(12),
            ) && final(self).cursor == old(self).cursor,
            old(self).cursor + va_block_size(size) <= old(self).max ==> r == Ok::<u64, Error>(
                old(self).cursor,
            ) && final(self).cursor == old(self).cursor + va_block_size(size),
            old(self).cursor % 0x10000 == 0 ==> final(self).cursor % 0x10000 == 0,
            r matches Ok(va) ==> va + size <= final(self).cursor <= old(self).max,
    {
        proof {
            lemma_va_block_covers(size);
        }
        let align = VA_ALIGNMENT;
        let padded = size + (align - 1);
        let aligned = padded & !(align - 1);
        assert(aligned == (padded / 0x10000) * 0x10000) by (bit_vector)
            requires
                aligned == padded & !0xffffu64,
        ;
        assert(aligned % 0x10000 == 0) by (bit_vector)
            requires
                aligned == padded & !0xffffu64,
        ;
        if self.cursor.saturating_add(aligned) > self.max {
            return Err(Error::Io(12));
        }
        let va = self.cursor;
        self.cursor = self.cursor + aligned;
        Ok(va)
    }
}

/// `n` rounded up to a multiple of 16.
pub open spec fn round_up_16(n: int) -> int {
    ((n + 15) / 16) * 16
}

fn align_16(n: usize) -> (r: usize)
    requires
        n + 15 <= usize::MAX,
    ensures
        r == round_up_16(n as int),
{
    let padded = n + 15;
    let r = padded & !15usize;
    assert(r == (padded / 16) * 16) by (bit_vector)
        requires
            r == padded & !15usize,
    ;
    r
}

/// Where a draw's vertex and index bytes go in the upload arena: the vertex
/// bytes at the current offset, the index bytes after them on a 16-byte
/// boundary; returns both offsets and the arena bytes the draw takes.
pub fn upload_layout(arena_offset: usize, vertex_bytes: usize, index_bytes: usize) -> (r: (
    usize,
    usize,
    usize,
))
    requires
        arena_offset + round_up_16(vertex_bytes as int) + round_up_16(index_bytes as int)
            <= usize::MAX,
    ensures
        r.0 == arena_offset,
        r.1 == arena_offset + round_up_16(vertex_bytes as int),
        r.2 == round_up_16(vertex_bytes as int) + round_up_16(index_bytes as int),
{
    let v_aligned = align_16(vertex_bytes);
    let i_aligned = align_16(index_bytes);
    (arena_offset, arena_offset + v_aligned, v_aligned + i_aligned)
}

/// Whether the batch must be submitted before a draw is recorded: the
/// command stream is within 512 dwords of the indirect buffer's capacity, or
/// the draw's uploads would run past the arena.
pub fn batch_needs_flush(
    pm4_dwords: usize,
    ib_size: u64,
    arena_offset: usize,
    needed: usize,
    arena_size: u64,
) -> (r: bool)
    requires
        pm4_dwords + 512 <= usize::MAX,
        arena_offset + needed <= usize::MAX,
    ensures
        r == (pm4_dwords + 512 > (ib_size as usize) / 4 || arena_offset + needed > arena_size as usize),
{
    pm4_dwords + 512 > (ib_size as usize) / 4 || arena_offset + needed > arena_size as usize
}

/// The size a buffer grows to when `needed` bytes do not fit: twice what is
/// needed, at least its first size.
pub fn grown_size(needed: u64, initial: u64) -> (r: u64)
    requires
        needed * 2 <= u64::MAX,
    ensures
        r == (if needed * 2 > initial {
            needed * 2
        } else {
            initial as int
        }),
{
    let doubled = needed * 2;
    if doubled > initial {
        doubled
    } else {
        initial
    }
}

/// The VGPRs a pixel shader allocates, from its `SPI_SHADER_PGM_RSRC1_PS`
/// value: `(granules + 1) * 8`, or 16 when the shader sets no such register.
pub fn pixel_shader_vgprs(rsrc1: Option<u32>) -> (r: u32)
    ensures
        r == match rsrc1 {
            Some(value) => ((value & 0x3f) + 1) * 8,
            None => 16,
        },
{
    match rsrc1 {
        Some(value) => {
            let granules = value & 0x3f;
            assert(granules <= 0x3f) by (bit_vector)
                requires
                    granules == value & 0x3f,
            ;
            (granules + 1) * 8
        },
        None => 16,
    }
}

/// The buffer handles a submission references, after `listed`: each
/// handle of `referenced` in order, unless it is listed already.
pub open spec fn with_new_handles(listed: Seq<u32>, referenced: Seq<u32>) -> Seq<u32>
    decreases referenced.len(),
{
    if referenced.len() == 0 {
        listed
    } else {
        let next = if listed.contains(referenced[0]) {
            listed
        } else {
            listed.push(referenced[0])
        };
        with_new_handles(next, referenced.drop_first())
    }
}

/// A submission's handle list keeps the handles listed first, in front,
/// holds every referenced handle, and, when the listed handles are
/// distinct, holds no handle twice.
pub proof fn lemma_submission_handles_cover_once(listed: Seq<u32>, referenced: Seq<u32>)
    ensures
        with_new_handles(listed, referenced).subrange(0, listed.len() as int) == listed,
        listed.len() <= with_new_handles(listed, referenced).len(),
        forall|k: int|
            0 <= k < referenced.len() ==> with_new_handles(listed, referenced).contains(
                #[trigger] referenced[k],
            ),
        listed.no_duplicates() ==> with_new_handles(listed, referenced).no_duplicates(),
    decreases referenced.len(),
{
    if referenced.len() > 0 {
        let h = referenced[0];
        let next = if listed.contains(h) {
            listed
        } else {
            listed.push(h)
        };
        lemma_submission_handles_cover_once(next, referenced.drop_first());
        let result = with_new_handles(listed, referenced);
        assert(result == with_new_handles(next, referenced.drop_first()));
        assert(next.subrange(0, listed.len() as int) =~= listed);
        assert(result.subrange(0, listed.len() as int) =~= next.subrange(0, listed.len() as int));
        assert(next.contains(h)) by {
            if !listed.contains(h) {
                assert(next[listed.len() as int] == h);
            }
        }
        assert(result.contains(h)) by {
            let i = choose|i: int| 0 <= i < next.len() && next[i] == h;
            assert(result.subrange(0, next.len() as int)[i] == h);
        }
        assert forall|k: int| 0 <= k < referenced.len() implies result.contains(
            #[trigger] referenced[k],
        ) by {
            if k > 0 {
                assert(referenced.drop_first()[k - 1] == referenced[k]);
            }
        }
        if listed.no_duplicates() {
            assert(next.no_duplicates()) by {
                if !listed.contains(h) {
                    assert forall|i: int, j: int|
                        0 <= i < next.len() && 0 <= j < next.len() && i != j implies next[i]
                        != next[j] by {
                        if i == listed.len() {
                            assert(listed[j] != h);
                        } else if j == listed.len() {
                            assert(listed[i] != h);
                        }
                    }
                }
            }
        }
    }
}

/// The handle list of a submission: the indirect buffer, the upload arena
/// and the vertex shader first, then every other referenced buffer once, in
/// the order of first reference.
pub fn submission_handles(ib: u32, arena: u32, vs: u32, referenced: &[u32]) -> (r: Vec<u32>)
    requires
        referenced@.len() + 3 <= usize::MAX,
    ensures
        r@ == with_new_handles(seq![ib, arena, vs], referenced@),
{
    let mut handles: Vec<u32> = Vec::new();
    handles.push(ib);
    handles.push(arena);
    handles.push(vs);
    assert(handles@ =~= seq![ib, arena, vs]);
    assert(referenced@.subrange(0, referenced@.len() as int) =~= referenced@);
    let mut k: usize = 0;
    while k < referenced.len()
        invariant
            k <= referenced@.len(),
            handles@.len() <= 3 + k,
            referenced@.len() + 3 <= usize::MAX,
            with_new_handles(handles@, referenced@.subrange(k as int, referenced@.len() as int))
                == with_new_handles(seq![ib, arena, vs], referenced@),
        decreases referenced@.len() - k,
    {
        let h = referenced[k];
        let mut listed = false;
        let mut j: usize = 0;
        while j < handles.len()
            invariant
                j <= handles@.len(),
                listed == (exists|m: int| 0 <= m < j && handles@[m] == h),
            decreases handles@.len() - j,
        {
            if handles[j] == h {
                listed = true;
            }
            j = j + 1;
        }
        assert(listed == handles@.contains(h));
        let ghost rest = referenced@.subrange(k as int, referenced@.len() as int);
        assert(rest[0] == h);
        assert(rest.drop_first() =~= referenced@.subrange(k + 1, referenced@.len() as int));
        if !listed {
            handles.push(h);
        }
        k = k + 1;
    }
    assert(referenced@.subrange(referenced@.len() as int, referenced@.len() as int) =~= Seq::<u32>::empty());
    handles
}

} // verus!
