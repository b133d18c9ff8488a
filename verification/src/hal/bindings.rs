//! The vertex-buffer binding slots a queue carries across the commands of a
//! submission.
use crate::hal::device::BufferId;
use vstd::prelude::*;

verus! {

/// Vertex-buffer binding slots `(buffer, byte offset)`, held in a
/// `smallvec::SmallVec` with room for eight slots inline.
#[verifier::external_body]
pub struct VertexBindings {
    slots: smallvec::SmallVec<[(BufferId, u64); 8]>,
}

/// The bindings a slot vector holds, in slot order.
pub uninterp spec fn vertex_bindings(bindings: VertexBindings) -> Seq<(BufferId, u64)>;

impl VertexBindings {
    /// `smallvec::SmallVec::new`: no slots.
    #[verifier::external_body]
    fn empty() -> (r: VertexBindings)
        ensures
            vertex_bindings(r).len() == 0,
    {
        VertexBindings { slots: smallvec::SmallVec::new() }
    }

    /// `smallvec::SmallVec::len`: the number of slots.
    #[verifier::external_body]
    fn slot_count(&self) -> (r: usize)
        ensures
            r == vertex_bindings(*self).len(),
    {
        self.slots.len()
    }

    /// `smallvec::SmallVec::push`: `binding` becomes the last slot.
    #[verifier::external_body]
    fn push_slot(&mut self, binding: (BufferId, u64))
        requires
            vertex_bindings(*old(self)).len() < usize::MAX,
        ensures
            vertex_bindings(*final(self)) == vertex_bindings(*old(self)).push(binding),
    {
        self.slots.push(binding);
    }

    /// Assignment through `smallvec::SmallVec`'s `IndexMut`: slot `index`
    /// holds `binding` afterwards, the others keep theirs.
    #[verifier::external_body]
    fn set_slot(&mut self, index: usize, binding: (BufferId, u64))
        requires
            index < vertex_bindings(*old(self)).len(),
        ensures
            vertex_bindings(*final(self)) == vertex_bindings(*old(self)).update(
                index as int,
                binding,
            ),
    {
        self.slots[index] = binding;
    }

    /// `<[T]>::first` through `smallvec::SmallVec`'s `Deref`: the first slot,
    /// if there is one.
    #[verifier::external_body]
    fn first_slot(&self) -> (r: Option<(BufferId, u64)>)
        ensures
            r == (if vertex_bindings(*self).len() > 0 {
                Some(vertex_bindings(*self)[0])
            } else {
                None
            }),
    {
        self.slots.first().copied()
    }

    /// The slots, in order.
    pub open spec fn view(&self) -> Seq<(BufferId, u64)> {
        vertex_bindings(*self)
    }

    /// No slot bound.
    pub fn new() -> (r: VertexBindings)
        ensures
            r.view().len() == 0,
    {
        VertexBindings::empty()
    }

    /// The number of slots.
    pub fn len(&self) -> (r: usize)
        ensures
            r == self.view().len(),
    {
        self.slot_count()
    }

    /// The first slot, the one draws read their vertices from.
    pub fn first(&self) -> (r: Option<(BufferId, u64)>)
        ensures
            r == (if self.view().len() > 0 {
                Some(self.view()[0])
            } else {
                None
            }),
    {
        self.first_slot()
    }

    /// Binds `buffers` to the slots from `first` on: slots missing before
    /// `first` are filled with buffer 0 at offset 0, bound slots are
    /// replaced, and slots past the end are appended.
    pub fn bind(&mut self, first: u32, buffers: &[(BufferId, u64)])
        requires
            first + buffers@.len() <= usize::MAX,
        ensures
            final(self).view() == rebound(old(self).view(), first as int, buffers@),
    {
        let ghost start = self.view();
        let first = first as usize;
        while self.len() < first
            invariant
                self.view().len() <= first || self.view().len() == start.len(),
                self.view() == padded(start, self.view().len() as int),
                first + buffers@.len() <= usize::MAX,
            decreases first - self.view().len(),
        {
            self.push_slot((BufferId(0), 0));
            assert(self.view() =~= padded(start, self.view().len() as int));
        }
        let ghost base = self.view();
        assert(base =~= padded(start, first as int));
        let mut i: usize = 0;
        while i < buffers.len()
            invariant
                i <= buffers@.len(),
                first + buffers@.len() <= usize::MAX,
                base == padded(start, first as int),
                base.len() >= first,
                self.view() == rebound(base, first as int, buffers@.subrange(0, i as int)),
            decreases buffers@.len() - i,
        {
            let idx = first + i;
            let binding = buffers[i];
            if idx < self.len() {
                self.set_slot(idx, binding);
            } else {
                self.push_slot(binding);
            }
            i = i + 1;
            assert(self.view() =~= rebound(base, first as int, buffers@.subrange(0, i as int)));
        }
        assert(buffers@.subrange(0, buffers@.len() as int) =~= buffers@);
        assert(rebound(base, first as int, buffers@) =~= rebound(start, first as int, buffers@));
    }
}

/// `slots` padded with empty bindings (buffer 0 at offset 0) to `len` slots.
pub open spec fn padded(slots: Seq<(BufferId, u64)>, len: int) -> Seq<(BufferId, u64)> {
    if slots.len() >= len {
        slots
    } else {
        Seq::new(
            len as nat,
            |k: int|
                if k < slots.len() {
                    slots[k]
                } else {
                    (BufferId(0), 0u64)
                },
        )
    }
}

/// The slots after binding `buffers` from slot `first` on.
pub open spec fn rebound(slots: Seq<(BufferId, u64)>, first: int, buffers: Seq<(BufferId, u64)>) -> Seq<
    (BufferId, u64),
> {
    let base = padded(slots, first);
    let len = if base.len() > first + buffers.len() {
        base.len() as int
    } else {
        first + buffers.len()
    };
    Seq::new(
        len as nat,
        |k: int|
            if first <= k < first + buffers.len() {
                buffers[k - first]
            } else {
                base[k]
            },
    )
}

} // verus!
