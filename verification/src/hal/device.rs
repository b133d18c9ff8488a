//! The logical software device: registries of buffers, images, pipelines and
//! descriptor sets keyed by ids that are never handed out twice, and the
//! transfer commands the queue runs on them.
use crate::hal::{Buffer, Format, Image, Pipeline, Queue};
use vstd::prelude::*;

verus! {

/// Handle to a linear CPU buffer.
#[derive(Debug, Clone, Copy, PartialEq, Eq, Structural, Hash, PartialOrd, Ord)]
pub struct BufferId(pub u32);

/// Handle to a 2D image (color, depth, or stencil).
#[derive(Debug, Clone, Copy, PartialEq, Eq, Structural, Hash, PartialOrd, Ord)]
pub struct ImageId(pub u32);

/// Handle to a fixed-function pipeline state object.
#[derive(Debug, Clone, Copy, PartialEq, Eq, Structural, Hash, PartialOrd, Ord)]
pub struct PipelineId(pub u32);

/// Handle to a descriptor set (texture bindings for now).
#[derive(Debug, Clone, Copy, PartialEq, Eq, Structural, Hash, PartialOrd, Ord)]
pub struct DescriptorSetId(pub u32);

/// Values of one kind keyed by a 32-bit id, held in a `hashbrown::HashMap`.
#[verifier::external_body]
#[verifier::reject_recursive_types(V)]
pub struct Table<V> {
    map: hashbrown::HashMap<u32, V>,
}

/// The buffers a buffer table holds, by id.
pub uninterp spec fn buffer_entries(table: Table<Buffer>) -> Map<u32, Buffer>;

impl Table<Buffer> {
    /// `hashbrown::HashMap::new`: a map with no entries.
    #[verifier::external_body]
    fn new() -> (r: Table<Buffer>)
        ensures
            buffer_entries(r).dom() == Set::<u32>::empty(),
    {
        Table { map: hashbrown::HashMap::new() }
    }

    /// `hashbrown::HashMap::insert`: `id` maps to `buffer` afterwards, every
    /// other id keeps its entry. (The replaced value it returns is dropped.)
    #[verifier::external_body]
    fn insert(&mut self, id: u32, buffer: Buffer)
        ensures
            buffer_entries(*final(self)) == buffer_entries(*old(self)).insert(id, buffer),
    {
        self.map.insert(id, buffer);
    }

    /// `hashbrown::HashMap::remove`: the entry of `id` leaves the map and is
    /// returned, or `None` where there was none.
    #[verifier::external_body]
    fn remove(&mut self, id: u32) -> (r: Option<Buffer>)
        ensures
            buffer_entries(*final(self)) == buffer_entries(*old(self)).remove(id),
            r == (if buffer_entries(*old(self)).contains_key(id) {
                Some(buffer_entries(*old(self))[id])
            } else {
                None
            }),
    {
        self.map.remove(&id)
    }

    /// `hashbrown::HashMap::get`: the entry of `id`, if there is one.
    #[verifier::external_body]
    fn get(&self, id: u32) -> (r: Option<&Buffer>)
        ensures
            buffer_entries(*self).contains_key(id) ==> r.is_some() && *r.unwrap()
                == buffer_entries(*self)[id],
            !buffer_entries(*self).contains_key(id) ==> r.is_none(),
    {
        self.map.get(&id)
    }

    /// `hashbrown::HashMap::get_mut`: the entry of `id` to change in place,
    /// if there is one; whatever is written through it becomes the entry.
    #[verifier::external_body]
    fn get_mut(&mut self, id: u32) -> (r: Option<&mut Buffer>)
        ensures
            buffer_entries(*old(self)).contains_key(id) ==> r.is_some() && *r.unwrap()
                == buffer_entries(*old(self))[id] && buffer_entries(*final(self)) == buffer_entries(
                *old(self),
            ).insert(id, *final(r.unwrap())),
            !buffer_entries(*old(self)).contains_key(id) ==> r.is_none() && buffer_entries(
                *final(self),
            ) == buffer_entries(*old(self)),
    {
        self.map.get_mut(&id)
    }
}

/// The images an image table holds, by id.
pub uninterp spec fn image_entries(table: Table<Image>) -> Map<u32, Image>;

impl Table<Image> {
    /// `hashbrown::HashMap::new`: a map with no entries.
    #[verifier::external_body]
    fn new() -> (r: Table<Image>)
        ensures
            image_entries(r).dom() == Set::<u32>::empty(),
    {
        Table { map: hashbrown::HashMap::new() }
    }

    /// `hashbrown::HashMap::insert`: `id` maps to `image` afterwards, every
    /// other id keeps its entry. (The replaced value it returns is dropped.)
    #[verifier::external_body]
    fn insert(&mut self, id: u32, image: Image)
        ensures
            image_entries(*final(self)) == image_entries(*old(self)).insert(id, image),
    {
        self.map.insert(id, image);
    }

    /// `hashbrown::HashMap::remove`: the entry of `id` leaves the map and is
    /// returned, or `None` where there was none.
    #[verifier::external_body]
    fn remove(&mut self, id: u32) -> (r: Option<Image>)
        ensures
            image_entries(*final(self)) == image_entries(*old(self)).remove(id),
            r == (if image_entries(*old(self)).contains_key(id) {
                Some(image_entries(*old(self))[id])
            } else {
                None
            }),
    {
        self.map.remove(&id)
    }

    /// `hashbrown::HashMap::get`: the entry of `id`, if there is one.
    #[verifier::external_body]
    fn get(&self, id: u32) -> (r: Option<&Image>)
        ensures
            image_entries(*self).contains_key(id) ==> r.is_some() && *r.unwrap()
                == image_entries(*self)[id],
            !image_entries(*self).contains_key(id) ==> r.is_none(),
    {
        self.map.get(&id)
    }

    /// `hashbrown::HashMap::get_mut`: the entry of `id` to change in place,
    /// if there is one; whatever is written through it becomes the entry.
    #[verifier::external_body]
    fn get_mut(&mut self, id: u32) -> (r: Option<&mut Image>)
        ensures
            image_entries(*old(self)).contains_key(id) ==> r.is_some() && *r.unwrap()
                == image_entries(*old(self))[id] && image_entries(*final(self)) == image_entries(
                *old(self),
            ).insert(id, *final(r.unwrap())),
            !image_entries(*old(self)).contains_key(id) ==> r.is_none() && image_entries(
                *final(self),
            ) == image_entries(*old(self)),
    {
        self.map.get_mut(&id)
    }
}

/// The pipelines a pipeline table holds, by id.
pub uninterp spec fn pipeline_entries(table: Table<Pipeline>) -> Map<u32, Pipeline>;

impl Table<Pipeline> {
    /// `hashbrown::HashMap::new`: a map with no entries.
    #[verifier::external_body]
    fn new() -> (r: Table<Pipeline>)
        ensures
            pipeline_entries(r).dom() == Set::<u32>::empty(),
    {
        Table { map: hashbrown::HashMap::new() }
    }

    /// `hashbrown::HashMap::insert`: `id` maps to `pipeline` afterwards,
    /// every other id keeps its entry.
    #[verifier::external_body]
    fn insert(&mut self, id: u32, pipeline: Pipeline)
        ensures
            pipeline_entries(*final(self)) == pipeline_entries(*old(self)).insert(id, pipeline),
    {
        self.map.insert(id, pipeline);
    }

    /// `hashbrown::HashMap::get`: the entry of `id`, if there is one.
    #[verifier::external_body]
    fn get(&self, id: u32) -> (r: Option<&Pipeline>)
        ensures
            pipeline_entries(*self).contains_key(id) ==> r.is_some() && *r.unwrap()
                == pipeline_entries(*self)[id],
            !pipeline_entries(*self).contains_key(id) ==> r.is_none(),
    {
        self.map.get(&id)
    }
}

/// The texture bindings a binding table holds, by texture unit.
pub uninterp spec fn texture_entries(table: Table<ImageId>) -> Map<u32, ImageId>;

impl Table<ImageId> {
    /// `hashbrown::HashMap::new`: a map with no entries.
    #[verifier::external_body]
    fn new() -> (r: Table<ImageId>)
        ensures
            texture_entries(r).dom() == Set::<u32>::empty(),
    {
        Table { map: hashbrown::HashMap::new() }
    }

    /// `hashbrown::HashMap::insert`: `unit` maps to `image` afterwards, every
    /// other unit keeps its binding.
    #[verifier::external_body]
    fn insert(&mut self, unit: u32, image: ImageId)
        ensures
            texture_entries(*final(self)) == texture_entries(*old(self)).insert(unit, image),
    {
        self.map.insert(unit, image);
    }

    /// `hashbrown::HashMap::get`: the binding of `unit`, if there is one.
    #[verifier::external_body]
    fn get(&self, unit: u32) -> (r: Option<&ImageId>)
        ensures
            texture_entries(*self).contains_key(unit) ==> r.is_some() && *r.unwrap()
                == texture_entries(*self)[unit],
            !texture_entries(*self).contains_key(unit) ==> r.is_none(),
    {
        self.map.get(&unit)
    }
}

/// Per-draw texture bindings (unit -> image id). Sampling state itself lives
/// with the pipeline/descriptor set consumer; the device only carries
/// handles.
pub struct DescriptorSet {
    pub textures: Table<ImageId>,
}

impl DescriptorSet {
    /// The image bound to each texture unit.
    pub open spec fn bindings(&self) -> Map<u32, ImageId> {
        texture_entries(self.textures)
    }

    /// A set with no texture bound.
    pub fn new() -> (r: DescriptorSet)
        ensures
            r.bindings().dom() == Set::<u32>::empty(),
    {
        DescriptorSet { textures: Table::<ImageId>::new() }
    }

    /// Binds `image` to texture unit `unit`, replacing what was bound there.
    pub fn bind_texture(&mut self, unit: u32, image: ImageId)
        ensures
            final(self).bindings() == old(self).bindings().insert(unit, image),
    {
        self.textures.insert(unit, image);
    }

    /// The image bound to texture unit `unit`, if any.
    pub fn texture(&self, unit: u32) -> (r: Option<ImageId>)
        ensures
            r == (if self.bindings().contains_key(unit) {
                Some(self.bindings()[unit])
            } else {
                None
            }),
    {
        match self.textures.get(unit) {
            Some(image) => Some(*image),
            None => None,
        }
    }
}

impl Default for DescriptorSet {
    fn default() -> (r: DescriptorSet)
        ensures
            r.bindings().dom() == Set::<u32>::empty(),
    {
        DescriptorSet::new()
    }
}

/// The descriptor sets a descriptor-set table holds, by id.
pub uninterp spec fn descriptor_set_entries(table: Table<DescriptorSet>) -> Map<u32, DescriptorSet>;

impl Table<DescriptorSet> {
    /// `hashbrown::HashMap::new`: a map with no entries.
    #[verifier::external_body]
    fn new() -> (r: Table<DescriptorSet>)
        ensures
            descriptor_set_entries(r).dom() == Set::<u32>::empty(),
    {
        Table { map: hashbrown::HashMap::new() }
    }

    /// `hashbrown::HashMap::insert`: `id` maps to `set` afterwards, every
    /// other id keeps its entry.
    #[verifier::external_body]
    fn insert(&mut self, id: u32, set: DescriptorSet)
        ensures
            descriptor_set_entries(*final(self)) == descriptor_set_entries(*old(self)).insert(
                id,
                set,
            ),
    {
        self.map.insert(id, set);
    }
}

/// `n` zero bytes.
pub open spec fn zeroes(n: nat) -> Seq<u8> {
    Seq::new(n, |i: int| 0u8)
}

/// The logical device: owns all resources and the single queue.
pub struct Device {
    buffers: Table<Buffer>,
    images: Table<Image>,
    pipelines: Table<Pipeline>,
    descriptor_sets: Table<DescriptorSet>,
    pub color_attachment: Option<ImageId>,
    pub depth_attachment: Option<ImageId>,
    pub stencil_attachment: Option<ImageId>,
    next_id: u32,
    pub queue: Queue,
}

impl Device {
    /// The buffers of the device, by id.
    pub closed spec fn buffers(&self) -> Map<u32, Buffer> {
        buffer_entries(self.buffers)
    }

    /// The images of the device, by id.
    pub closed spec fn images(&self) -> Map<u32, Image> {
        image_entries(self.images)
    }

    /// The pipelines of the device, by id.
    pub closed spec fn pipelines(&self) -> Map<u32, Pipeline> {
        pipeline_entries(self.pipelines)
    }

    /// The descriptor sets of the device, by id.
    pub closed spec fn descriptor_sets(&self) -> Map<u32, DescriptorSet> {
        descriptor_set_entries(self.descriptor_sets)
    }

    /// The color, depth and stencil attachments.
    pub closed spec fn attachments(&self) -> (Option<ImageId>, Option<ImageId>, Option<ImageId>) {
        (self.color_attachment, self.depth_attachment, self.stencil_attachment)
    }

    /// The id the next created resource receives.
    pub closed spec fn next_id(&self) -> u32 {
        self.next_id
    }

    /// Every id in use, of whatever kind, was handed out before: it lies in
    /// `1..next_id`.
    pub closed spec fn wf(&self) -> bool {
        &&& self.next_id >= 1
        &&& forall|id: u32| #[trigger] self.buffers().contains_key(id) ==> 1 <= id < self.next_id
        &&& forall|id: u32| #[trigger] self.images().contains_key(id) ==> 1 <= id < self.next_id
        &&& forall|id: u32| #[trigger] self.pipelines().contains_key(id) ==> 1 <= id < self.next_id
        &&& forall|id: u32|
            #[trigger] self.descriptor_sets().contains_key(id) ==> 1 <= id < self.next_id
    }

    /// A device with no resources and no attachments; the first id it hands
    /// out is 1.
    pub fn new() -> (r: Device)
        ensures
            r.wf(),
            r.next_id() == 1,
            r.buffers().dom() == Set::<u32>::empty(),
            r.images().dom() == Set::<u32>::empty(),
            r.pipelines().dom() == Set::<u32>::empty(),
            r.descriptor_sets().dom() == Set::<u32>::empty(),
            r.attachments() == (None::<ImageId>, None::<ImageId>, None::<ImageId>),
    {
        Device {
            buffers: Table::<Buffer>::new(),
            images: Table::<Image>::new(),
            pipelines: Table::<Pipeline>::new(),
            descriptor_sets: Table::<DescriptorSet>::new(),
            color_attachment: None,
            depth_attachment: None,
            stencil_attachment: None,
            next_id: 1,
            queue: Queue,
        }
    }

    /// Shrinking or keeping the tables, with the same next id, keeps every
    /// id in use below it.
    proof fn lemma_fewer_ids_keep_wf(before: Device, after: Device)
        requires
            before.wf(),
            after.next_id == before.next_id,
            after.buffers().dom().subset_of(before.buffers().dom()),
            after.images().dom().subset_of(before.images().dom()),
            after.pipelines().dom().subset_of(before.pipelines().dom()),
            after.descriptor_sets().dom().subset_of(before.descriptor_sets().dom()),
        ensures
            after.wf(),
    {
        assert forall|id: u32| #[trigger] after.buffers().contains_key(id) implies 1 <= id
            < after.next_id by {
            assert(before.buffers().dom().contains(id));
        }
        assert forall|id: u32| #[trigger] after.images().contains_key(id) implies 1 <= id
            < after.next_id by {
            assert(before.images().dom().contains(id));
        }
        assert forall|id: u32| #[trigger] after.pipelines().contains_key(id) implies 1 <= id
            < after.next_id by {
            assert(before.pipelines().dom().contains(id));
        }
        assert forall|id: u32| #[trigger] after.descriptor_sets().contains_key(id) implies 1 <= id
            < after.next_id by {
            assert(before.descriptor_sets().dom().contains(id));
        }
    }

    /// Keeping the ids in use and the next id keeps the device well formed:
    /// what a change through `buffer_mut` or `image_mut` leaves behind.
    pub proof fn lemma_same_ids_keep_wf(before: Device, after: Device)
        requires
            before.wf(),
            after.next_id() == before.next_id(),
            after.buffers().dom() == before.buffers().dom(),
            after.images().dom() == before.images().dom(),
            after.pipelines().dom() == before.pipelines().dom(),
            after.descriptor_sets().dom() == before.descriptor_sets().dom(),
        ensures
            after.wf(),
    {
        Device::lemma_fewer_ids_keep_wf(before, after);
    }

    /// Ids are never handed out twice: in every well-formed device the next
    /// id is in use by no buffer, image, pipeline or descriptor set, and
    /// every id in use lies below it.
    pub proof fn lemma_next_id_is_fresh(device: Device)
        requires
            device.wf(),
        ensures
            !device.buffers().contains_key(device.next_id()),
            !device.images().contains_key(device.next_id()),
            !device.pipelines().contains_key(device.next_id()),
            !device.descriptor_sets().contains_key(device.next_id()),
            forall|id: u32|
                device.buffers().contains_key(id) || device.images().contains_key(id)
                    || device.pipelines().contains_key(id) || device.descriptor_sets().contains_key(
                    id,
                ) ==> 1 <= id < device.next_id(),
    {
    }

    fn alloc_id(&mut self) -> (id: u32)
        requires
            old(self).wf(),
            old(self).next_id() < u32::MAX,
        ensures
            id == old(self).next_id(),
            final(self).next_id() == id + 1,
            final(self).buffers() == old(self).buffers(),
            final(self).images() == old(self).images(),
            final(self).pipelines() == old(self).pipelines(),
            final(self).descriptor_sets() == old(self).descriptor_sets(),
            final(self).attachments() == old(self).attachments(),
            final(self).wf(),
    {
        let id = self.next_id;
        self.next_id = self.next_id + 1;
        proof {
            assert(self.buffers() == old(self).buffers());
            assert(self.images() == old(self).images());
            assert(self.pipelines() == old(self).pipelines());
            assert(self.descriptor_sets() == old(self).descriptor_sets());
        }
        id
    }

    /// Creates a zero-filled buffer of `size` bytes under a fresh id.
    pub fn create_buffer(&mut self, size: u64) -> (id: BufferId)
        requires
            old(self).wf(),
            old(self).next_id() < u32::MAX,
        ensures
            final(self).wf(),
            id.0 == old(self).next_id(),
            final(self).next_id() == old(self).next_id() + 1,
            final(self).buffers().contains_key(id.0),
            final(self).buffers()[id.0].data@ == zeroes(size as usize as nat),
            final(self).buffers().remove(id.0) == old(self).buffers(),
            final(self).images() == old(self).images(),
            final(self).pipelines() == old(self).pipelines(),
            final(self).descriptor_sets() == old(self).descriptor_sets(),
            final(self).attachments() == old(self).attachments(),
    {
        let id = BufferId(self.alloc_id());
        let data: Vec<u8> = vec![0u8; size as usize];
        assert(data@ == zeroes(size as usize as nat));
        self.buffers.insert(id.0, Buffer { data });
        proof {
            assert(!old(self).buffers().contains_key(id.0));
            assert(self.buffers().remove(id.0) == old(self).buffers());
        }
        id
    }

    /// Creates a zero-filled image of `width` by `height` pixels under a
    /// fresh id.
    pub fn create_image(&mut self, format: Format, width: u32, height: u32) -> (id: ImageId)
        requires
            old(self).wf(),
            old(self).next_id() < u32::MAX,
            width * height * format.bytes_per_pixel() <= u32::MAX,
        ensures
            final(self).wf(),
            id.0 == old(self).next_id(),
            final(self).next_id() == old(self).next_id() + 1,
            final(self).images().contains_key(id.0),
            final(self).images()[id.0].format == format,
            final(self).images()[id.0].width == width,
            final(self).images()[id.0].height == height,
            final(self).images()[id.0].data@ == zeroes(
                (width * height * format.bytes_per_pixel()) as nat,
            ),
            final(self).images().remove(id.0) == old(self).images(),
            final(self).buffers() == old(self).buffers(),
            final(self).pipelines() == old(self).pipelines(),
            final(self).descriptor_sets() == old(self).descriptor_sets(),
            final(self).attachments() == old(self).attachments(),
    {
        let id = ImageId(self.alloc_id());
        let image = Image::new(format, width, height);
        assert(image.data@ == zeroes((width * height * format.bytes_per_pixel()) as nat));
        self.images.insert(id.0, image);
        proof {
            assert(!old(self).images().contains_key(id.0));
            assert(self.images().remove(id.0) == old(self).images());
        }
        id
    }

    /// Stores `pipeline` under a fresh id.
    pub fn create_pipeline(&mut self, pipeline: Pipeline) -> (id: PipelineId)
        requires
            old(self).wf(),
            old(self).next_id() < u32::MAX,
        ensures
            final(self).wf(),
            id.0 == old(self).next_id(),
            final(self).next_id() == old(self).next_id() + 1,
            final(self).pipelines() == old(self).pipelines().insert(id.0, pipeline),
            !old(self).pipelines().contains_key(id.0),
            final(self).buffers() == old(self).buffers(),
            final(self).images() == old(self).images(),
            final(self).descriptor_sets() == old(self).descriptor_sets(),
            final(self).attachments() == old(self).attachments(),
    {
        let id = PipelineId(self.alloc_id());
        self.pipelines.insert(id.0, pipeline);
        id
    }

    /// Stores `set` under a fresh id.
    pub fn create_descriptor_set(&mut self, set: DescriptorSet) -> (id: DescriptorSetId)
        requires
            old(self).wf(),
            old(self).next_id() < u32::MAX,
        ensures
            final(self).wf(),
            id.0 == old(self).next_id(),
            final(self).next_id() == old(self).next_id() + 1,
            final(self).descriptor_sets() == old(self).descriptor_sets().insert(id.0, set),
            !old(self).descriptor_sets().contains_key(id.0),
            final(self).buffers() == old(self).buffers(),
            final(self).images() == old(self).images(),
            final(self).pipelines() == old(self).pipelines(),
            final(self).attachments() == old(self).attachments(),
    {
        let id = DescriptorSetId(self.alloc_id());
        self.descriptor_sets.insert(id.0, set);
        id
    }

    /// Drops the buffer `id`, if there is one.
    pub fn destroy_buffer(&mut self, id: BufferId)
        requires
            old(self).wf(),
        ensures
            final(self).wf(),
            final(self).next_id() == old(self).next_id(),
            final(self).buffers() == old(self).buffers().remove(id.0),
            final(self).images() == old(self).images(),
            final(self).pipelines() == old(self).pipelines(),
            final(self).descriptor_sets() == old(self).descriptor_sets(),
            final(self).attachments() == old(self).attachments(),
    {
        let _ = self.buffers.remove(id.0);
        proof {
            Device::lemma_fewer_ids_keep_wf(*old(self), *self);
        }
    }

    /// Drops the image `id`, if there is one.
    pub fn destroy_image(&mut self, id: ImageId)
        requires
            old(self).wf(),
        ensures
            final(self).wf(),
            final(self).next_id() == old(self).next_id(),
            final(self).images() == old(self).images().remove(id.0),
            final(self).buffers() == old(self).buffers(),
            final(self).pipelines() == old(self).pipelines(),
            final(self).descriptor_sets() == old(self).descriptor_sets(),
            final(self).attachments() == old(self).attachments(),
    {
        let _ = self.images.remove(id.0);
        proof {
            Device::lemma_fewer_ids_keep_wf(*old(self), *self);
        }
    }

    /// The buffer `id`, if there is one (readback / upload staging).
    pub fn buffer(&self, id: BufferId) -> (r: Option<&Buffer>)
        ensures
            self.buffers().contains_key(id.0) ==> r.is_some() && *r.unwrap()
                == self.buffers()[id.0],
            !self.buffers().contains_key(id.0) ==> r.is_none(),
    {
        self.buffers.get(id.0)
    }

    /// The buffer `id` to change in place, if there is one.
    pub fn buffer_mut(&mut self, id: BufferId) -> (r: Option<&mut Buffer>)
        requires
            old(self).wf(),
        ensures
            old(self).buffers().contains_key(id.0) ==> r.is_some() && *r.unwrap()
                == old(self).buffers()[id.0] && final(self).buffers() == old(self).buffers().insert(
                id.0,
                *final(r.unwrap()),
            ),
            !old(self).buffers().contains_key(id.0) ==> r.is_none() && final(self).buffers()
                == old(self).buffers(),
            final(self).buffers().dom() == old(self).buffers().dom(),
            final(self).next_id() == old(self).next_id(),
            final(self).images() == old(self).images(),
            final(self).pipelines() == old(self).pipelines(),
            final(self).descriptor_sets() == old(self).descriptor_sets(),
            final(self).attachments() == old(self).attachments(),
    {
        self.buffers.get_mut(id.0)
    }

    /// The image `id`, if there is one.
    pub fn image(&self, id: ImageId) -> (r: Option<&Image>)
        ensures
            self.images().contains_key(id.0) ==> r.is_some() && *r.unwrap()
                == self.images()[id.0],
            !self.images().contains_key(id.0) ==> r.is_none(),
    {
        self.images.get(id.0)
    }

    /// The image `id` to change in place, if there is one.
    pub fn image_mut(&mut self, id: ImageId) -> (r: Option<&mut Image>)
        requires
            old(self).wf(),
        ensures
            old(self).images().contains_key(id.0) ==> r.is_some() && *r.unwrap()
                == old(self).images()[id.0] && final(self).images() == old(self).images().insert(
                id.0,
                *final(r.unwrap()),
            ),
            !old(self).images().contains_key(id.0) ==> r.is_none() && final(self).images()
                == old(self).images(),
            final(self).images().dom() == old(self).images().dom(),
            final(self).next_id() == old(self).next_id(),
            final(self).buffers() == old(self).buffers(),
            final(self).pipelines() == old(self).pipelines(),
            final(self).descriptor_sets() == old(self).descriptor_sets(),
            final(self).attachments() == old(self).attachments(),
    {
        self.images.get_mut(id.0)
    }

    /// Sets `size` bytes of buffer `dst` from `offset` on to `value`, both
    /// ends clamped to the buffer; nothing happens without such a buffer.
    pub fn fill_buffer(&mut self, dst: BufferId, offset: u64, size: u64, value: u8)
        requires
            old(self).wf(),
            old(self).buffers().contains_key(dst.0) ==> smaller(
                offset as usize as int,
                old(self).buffers()[dst.0].data@.len() as int,
            ) + size as usize <= usize::MAX,
        ensures
            final(self).wf(),
            final(self).buffers().dom() == old(self).buffers().dom(),
            final(self).buffers().remove(dst.0) == old(self).buffers().remove(dst.0),
            old(self).buffers().contains_key(dst.0) ==> {
                let data = old(self).buffers()[dst.0].data@;
                let (start, end) = fill_range_of(data.len() as int, offset, size);
                final(self).buffers()[dst.0].data@ == filled(data, start, end, value)
            },
            final(self).next_id() == old(self).next_id(),
            final(self).images() == old(self).images(),
            final(self).pipelines() == old(self).pipelines(),
            final(self).descriptor_sets() == old(self).descriptor_sets(),
            final(self).attachments() == old(self).attachments(),
    {
        match self.buffers.get_mut(dst.0) {
            Some(buffer) => {
                let len = buffer.data.len();
                let start = if (offset as usize) < len {
                    offset as usize
                } else {
                    len
                };
                let end = if start + (size as usize) < len {
                    start + size as usize
                } else {
                    len
                };
                fill_range(&mut buffer.data, start, end, value);
            },
            None => {},
        }
        proof {
            assert(self.buffers().dom() =~= old(self).buffers().dom());
            Device::lemma_same_ids_keep_wf(*old(self), *self);
        }
    }

    /// Copies buffer `src` into image `dst` row by row: the first
    /// `extent.1` rows of the image (at most all of them), each as far as the
    /// buffer reaches, from the same byte offsets; a row whose copied part
    /// would not fit in the image's data is skipped. Nothing happens without
    /// both resources.
    pub fn copy_buffer_to_image(&mut self, src: BufferId, dst: ImageId, extent: (u32, u32))
        requires
            old(self).wf(),
            old(self).buffers().contains_key(src.0) && old(self).images().contains_key(dst.0) ==> {
                let image = old(self).images()[dst.0];
                &&& image.width * image.format.bytes_per_pixel() <= usize::MAX
                &&& smaller(extent.1 as int, image.height as int) * (image.width
                    * image.format.bytes_per_pixel()) <= usize::MAX
            },
        ensures
            final(self).wf(),
            final(self).images().dom() == old(self).images().dom(),
            final(self).images().remove(dst.0) == old(self).images().remove(dst.0),
            old(self).images().contains_key(dst.0) ==> {
                let before = old(self).images()[dst.0];
                let after = final(self).images()[dst.0];
                &&& after.format == before.format
                &&& after.width == before.width
                &&& after.height == before.height
                &&& after.data@ == if old(self).buffers().contains_key(src.0) {
                    rows_copied(
                        before.data@,
                        old(self).buffers()[src.0].data@,
                        before.width * before.format.bytes_per_pixel(),
                        smaller(extent.1 as int, before.height as int),
                    )
                } else {
                    before.data@
                }
            },
            final(self).next_id() == old(self).next_id(),
            final(self).buffers() == old(self).buffers(),
            final(self).pipelines() == old(self).pipelines(),
            final(self).descriptor_sets() == old(self).descriptor_sets(),
            final(self).attachments() == old(self).attachments(),
    {
        match self.buffers.get(src.0) {
            Some(buffer) => match self.images.get_mut(dst.0) {
                Some(image) => {
                    let bpp = image.format.bytes_per_pixel() as usize;
                    let row = image.width as usize * bpp;
                    let rows = if (extent.1 as usize) < (image.height as usize) {
                        extent.1 as usize
                    } else {
                        image.height as usize
                    };
                    copy_rows(&mut image.data, &buffer.data, row, rows);
                },
                None => {},
            },
            None => {},
        }
        proof {
            assert(self.images().dom() =~= old(self).images().dom());
            Device::lemma_same_ids_keep_wf(*old(self), *self);
        }
    }

    /// Copies image `src` into buffer `dst`, as many bytes as both hold;
    /// nothing happens without both resources.
    pub fn copy_image_to_buffer(&mut self, src: ImageId, dst: BufferId)
        requires
            old(self).wf(),
        ensures
            final(self).wf(),
            final(self).buffers().dom() == old(self).buffers().dom(),
            final(self).buffers().remove(dst.0) == old(self).buffers().remove(dst.0),
            old(self).buffers().contains_key(dst.0) ==> {
                let before = old(self).buffers()[dst.0].data@;
                final(self).buffers()[dst.0].data@ == if old(self).images().contains_key(src.0) {
                    let source = old(self).images()[src.0].data@;
                    prefix_copied(before, source, smaller(source.len() as int, before.len() as int))
                } else {
                    before
                }
            },
            final(self).next_id() == old(self).next_id(),
            final(self).images() == old(self).images(),
            final(self).pipelines() == old(self).pipelines(),
            final(self).descriptor_sets() == old(self).descriptor_sets(),
            final(self).attachments() == old(self).attachments(),
    {
        match self.images.get(src.0) {
            Some(image) => match self.buffers.get_mut(dst.0) {
                Some(buffer) => {
                    let n = if image.data.len() < buffer.data.len() {
                        image.data.len()
                    } else {
                        buffer.data.len()
                    };
                    copy_prefix(&mut buffer.data, &image.data, n);
                },
                None => {},
            },
            None => {},
        }
        proof {
            assert(self.buffers().dom() =~= old(self).buffers().dom());
            Device::lemma_same_ids_keep_wf(*old(self), *self);
        }
    }

    /// Takes image `id` out of the device, if there is one, so that a draw
    /// can render into it beside other images; `restore_image` puts it back.
    pub fn take_image(&mut self, id: ImageId) -> (r: Option<Image>)
        requires
            old(self).wf(),
        ensures
            r == (if old(self).images().contains_key(id.0) {
                Some(old(self).images()[id.0])
            } else {
                None
            }),
            final(self).wf(),
            final(self).next_id() == old(self).next_id(),
            final(self).images() == old(self).images().remove(id.0),
            final(self).buffers() == old(self).buffers(),
            final(self).pipelines() == old(self).pipelines(),
            final(self).descriptor_sets() == old(self).descriptor_sets(),
            final(self).attachments() == old(self).attachments(),
    {
        let image = self.images.remove(id.0);
        proof {
            Device::lemma_fewer_ids_keep_wf(*old(self), *self);
        }
        image
    }

    /// Puts `image` back under `id`, an id the device handed out; returns
    /// whether it did (an id never handed out is refused and the image
    /// dropped).
    pub fn restore_image(&mut self, id: ImageId, image: Image) -> (r: bool)
        requires
            old(self).wf(),
        ensures
            r == (1 <= id.0 < old(self).next_id()),
            final(self).wf(),
            final(self).next_id() == old(self).next_id(),
            final(self).images() == if r {
                old(self).images().insert(id.0, image)
            } else {
                old(self).images()
            },
            final(self).buffers() == old(self).buffers(),
            final(self).pipelines() == old(self).pipelines(),
            final(self).descriptor_sets() == old(self).descriptor_sets(),
            final(self).attachments() == old(self).attachments(),
    {
        if id.0 < 1 || id.0 >= self.next_id {
            return false;
        }
        self.images.insert(id.0, image);
        proof {
            assert forall|k: u32| #[trigger] self.images().contains_key(k) implies 1 <= k
                < self.next_id by {
                if k != id.0 {
                    assert(old(self).images().contains_key(k));
                }
            }
            assert(self.buffers() == old(self).buffers());
            assert(self.pipelines() == old(self).pipelines());
            assert(self.descriptor_sets() == old(self).descriptor_sets());
        }
        true
    }

    /// The pipeline `id`, if there is one.
    pub fn pipeline(&self, id: PipelineId) -> (r: Option<Pipeline>)
        ensures
            r == (if self.pipelines().contains_key(id.0) {
                Some(self.pipelines()[id.0])
            } else {
                None
            }),
    {
        match self.pipelines.get(id.0) {
            Some(pipeline) => Some(*pipeline),
            None => None,
        }
    }
}

/// `data` with the bytes in `start..end` set to `value`.
pub open spec fn filled(data: Seq<u8>, start: int, end: int, value: u8) -> Seq<u8> {
    Seq::new(data.len(), |i: int| if start <= i < end { value } else { data[i] })
}

/// The smaller of two integers.
pub open spec fn smaller(a: int, b: int) -> int {
    if a < b {
        a
    } else {
        b
    }
}

/// The byte range a buffer fill of `size` bytes at `offset` covers in a
/// buffer of `len` bytes: both ends are clamped to the buffer.
pub open spec fn fill_range_of(len: int, offset: u64, size: u64) -> (int, int) {
    let start = smaller(offset as usize as int, len);
    (start, smaller(start + size as usize as int, len))
}

fn fill_range(data: &mut Vec<u8>, start: usize, end: usize, value: u8)
    requires
        start <= end <= old(data)@.len(),
    ensures
        final(data)@ == filled(old(data)@, start as int, end as int, value),
{
    let ghost original = data@;
    let mut i = start;
    while i < end
        invariant
            start <= i <= end,
            end <= original.len(),
            data@ == filled(original, start as int, i as int, value),
        decreases end - i,
    {
        data.set(i, value);
        i = i + 1;
        assert(data@ =~= filled(original, start as int, i as int, value));
    }
    assert(data@ =~= filled(original, start as int, end as int, value));
}

/// `destination` with its first `n` bytes taken from `source`.
pub open spec fn prefix_copied(destination: Seq<u8>, source: Seq<u8>, n: int) -> Seq<u8> {
    Seq::new(destination.len(), |i: int| if i < n { source[i] } else { destination[i] })
}

fn copy_prefix(destination: &mut Vec<u8>, source: &Vec<u8>, n: usize)
    requires
        n <= old(destination)@.len(),
        n <= source@.len(),
    ensures
        final(destination)@ == prefix_copied(old(destination)@, source@, n as int),
{
    let ghost original = destination@;
    let mut i: usize = 0;
    while i < n
        invariant
            i <= n,
            n <= original.len(),
            n <= source@.len(),
            destination@ == prefix_copied(original, source@, i as int),
        decreases n - i,
    {
        destination.set(i, source[i]);
        i = i + 1;
        assert(destination@ =~= prefix_copied(original, source@, i as int));
    }
}

/// The byte `k` of a `row`-byte-per-row image lies in row `y` exactly when
/// it lies in `y * row .. y * row + row`; it lies in an earlier row exactly
/// when it lies before `y * row`.
proof fn lemma_row_of_byte(k: int, row: int, y: int)
    requires
        row > 0,
        k >= 0,
        y >= 0,
    ensures
        k / row < y <==> k < y * row,
        k / row == y <==> y * row <= k < y * row + row,
{
    vstd::arithmetic::div_mod::lemma_fundamental_div_mod(k, row);
    let q = k / row;
    let r = k % row;
    assert(0 <= r < row);
    assert(q < y ==> k < y * row) by (nonlinear_arith)
        requires
            k == row * q + r,
            r < row,
            row > 0,
    ;
    assert(q >= y ==> k >= y * row) by (nonlinear_arith)
        requires
            k == row * q + r,
            r >= 0,
            row > 0,
    ;
    assert(q > y ==> k >= y * row + row) by (nonlinear_arith)
        requires
            k == row * q + r,
            r >= 0,
            row > 0,
    ;
    assert(q == y ==> y * row <= k < y * row + row) by (nonlinear_arith)
        requires
            k == row * q + r,
            0 <= r < row,
    ;
}

/// How many bytes of the row starting at `start` a source of `source_len`
/// bytes still covers: a whole row of `row` bytes at most, none past its end.
pub open spec fn row_bytes(source_len: int, start: int, row: int) -> int {
    smaller(row, if source_len > start { source_len - start } else { 0 })
}

/// Whether copying the first `rows` rows of `row` bytes from a source of
/// `source_len` bytes writes byte `k` of an image of `image_len` bytes: its
/// row is copied, the source reaches it, and its row's copied part fits in
/// the image.
pub open spec fn row_copy_writes(image_len: int, source_len: int, row: int, rows: int, k: int) -> bool {
    &&& row > 0
    &&& 0 <= k
    &&& k / row < rows
    &&& k < source_len
    &&& (k / row) * row + row_bytes(source_len, (k / row) * row, row) <= image_len
}

/// `image` after its first `rows` rows of `row` bytes are copied from the
/// same offsets of `source`.
pub open spec fn rows_copied(image: Seq<u8>, source: Seq<u8>, row: int, rows: int) -> Seq<u8> {
    Seq::new(
        image.len(),
        |k: int|
            if row_copy_writes(image.len() as int, source.len() as int, row, rows, k) {
                source[k]
            } else {
                image[k]
            },
    )
}

fn copy_rows(data: &mut Vec<u8>, source: &Vec<u8>, row: usize, rows: usize)
    requires
        rows * row <= usize::MAX,
    ensures
        final(data)@ == rows_copied(old(data)@, source@, row as int, rows as int),
{
    let ghost original = data@;
    let mut y: usize = 0;
    while y < rows
        invariant
            y <= rows,
            rows * row <= usize::MAX,
            data@ == rows_copied(original, source@, row as int, y as int),
        decreases rows - y,
    {
        assert(y * row + row <= rows * row) by (nonlinear_arith)
            requires
                y < rows,
        ;
        let start = y * row;
        let n = if source.len() > start {
            if row < source.len() - start {
                row
            } else {
                source.len() - start
            }
        } else {
            0
        };
        let ghost before = data@;
        let end = start + n;
        if end <= data.len() {
            let mut i = start;
            while i < end
                invariant
                    start <= i <= end,
                    end == start + n,
                    end <= data@.len(),
                    n <= row,
                    start + n <= source@.len() || n == 0,
                    data@.len() == before.len(),
                    forall|k: int|
                        0 <= k < data@.len() ==> #[trigger] data@[k] == (if start <= k < i {
                            source@[k]
                        } else {
                            before[k]
                        }),
                decreases end - i,
            {
                data.set(i, source[i]);
                i = i + 1;
            }
        }
        proof {
            assert forall|k: int| 0 <= k < data@.len() implies #[trigger] data@[k] == rows_copied(
                original,
                source@,
                row as int,
                y + 1,
            )[k] by {
                if row > 0 {
                    lemma_row_of_byte(k, row as int, y as int);
                    lemma_row_of_byte(k, row as int, y + 1);
                }
            }
        }
        y = y + 1;
        assert(data@ =~= rows_copied(original, source@, row as int, y as int));
    }
}

/// `data` with every whole four-byte pixel set to `pixel`; trailing bytes
/// that do not make a whole pixel keep their values.
pub open spec fn pixels_filled(data: Seq<u8>, pixel: Seq<u8>) -> Seq<u8> {
    Seq::new(data.len(), |i: int| if i < (data.len() / 4) * 4 { pixel[i % 4] } else { data[i] })
}

fn fill_pixels(data: &mut Vec<u8>, pixel: [u8; 4])
    ensures
        final(data)@ == pixels_filled(old(data)@, pixel@),
{
    let ghost original = data@;
    let whole = (data.len() / 4) * 4;
    let mut i: usize = 0;
    while i < whole
        invariant
            i <= whole,
            whole == (original.len() / 4) * 4,
            data@.len() == original.len(),
            forall|k: int|
                0 <= k < data@.len() ==> #[trigger] data@[k] == (if k < i {
                    pixel@[k % 4]
                } else {
                    original[k]
                }),
        decreases whole - i,
    {
        data.set(i, pixel[i % 4]);
        i = i + 1;
    }
    assert(data@ =~= pixels_filled(original, pixel@));
}

/// The four bytes a color clear stores in each pixel: the RGBA channels in
/// the byte order of the image's format.
pub open spec fn stored_color(format: Format, rgba: [u8; 4]) -> Seq<u8> {
    match format {
        Format::B8G8R8A8Unorm => seq![rgba[2], rgba[1], rgba[0], rgba[3]],
        _ => seq![rgba[0], rgba[1], rgba[2], rgba[3]],
    }
}

/// Clears every whole pixel of a color image to the color whose channels
/// `rgba` holds (already scaled to bytes), in the image's byte order; a
/// depth or stencil image is left as it is.
pub fn clear_color_image(image: &mut Image, rgba: [u8; 4])
    ensures
        final(image).format == old(image).format,
        final(image).width == old(image).width,
        final(image).height == old(image).height,
        final(image).data@ == if old(image).format.is_color() {
            pixels_filled(old(image).data@, stored_color(old(image).format, rgba))
        } else {
            old(image).data@
        },
{
    let pixel = match image.format {
        Format::R8G8B8A8Unorm => [rgba[0], rgba[1], rgba[2], rgba[3]],
        Format::B8G8R8A8Unorm => [rgba[2], rgba[1], rgba[0], rgba[3]],
        _ => return,
    };
    assert(pixel@ =~= stored_color(image.format, rgba));
    fill_pixels(&mut image.data, pixel);
}

/// Clears every whole pixel of a `D32Sfloat` image to the stored bytes of a
/// depth value; any other image is left as it is.
pub fn clear_depth_image(image: &mut Image, depth: [u8; 4])
    ensures
        final(image).format == old(image).format,
        final(image).width == old(image).width,
        final(image).height == old(image).height,
        final(image).data@ == if old(image).format == Format::D32Sfloat {
            pixels_filled(old(image).data@, depth@)
        } else {
            old(image).data@
        },
{
    if image.format != Format::D32Sfloat {
        return;
    }
    fill_pixels(&mut image.data, depth);
}

/// Sets every byte of a stencil image to `value`.
pub fn clear_stencil_image(image: &mut Image, value: u8)
    ensures
        final(image).format == old(image).format,
        final(image).width == old(image).width,
        final(image).height == old(image).height,
        final(image).data@ == filled(old(image).data@, 0, old(image).data@.len() as int, value),
{
    let len = image.data.len();
    fill_range(&mut image.data, 0, len, value);
}

/// What an attachment clear leaves in the data of image `id`: the color
/// clear first (bit 0 of `mask`, on the color target), then the depth clear
/// (bit 1, on the depth target), then the stencil clear (bit 2, on the
/// stencil target); an image that is no selected target keeps its data.
pub open spec fn attachments_cleared(
    image: Image,
    id: u32,
    targets: (Option<ImageId>, Option<ImageId>, Option<ImageId>),
    rgba: [u8; 4],
    depth: [u8; 4],
    stencil: u8,
    mask: u32,
) -> Seq<u8> {
    let d0 = image.data@;
    let d1 = if mask & 1 != 0 && targets.0 == Some(ImageId(id)) && image.format.is_color() {
        pixels_filled(d0, stored_color(image.format, rgba))
    } else {
        d0
    };
    let d2 = if mask & 2 != 0 && targets.1 == Some(ImageId(id)) && image.format
        == Format::D32Sfloat {
        pixels_filled(d1, depth@)
    } else {
        d1
    };
    if mask & 4 != 0 && targets.2 == Some(ImageId(id)) {
        filled(d2, 0, d2.len() as int, stencil)
    } else {
        d2
    }
}

impl Device {
    /// Runs one attachment clear: with bit 0 of `mask` the color target is
    /// cleared to `rgba`, with bit 1 the depth target to the stored `depth`
    /// bytes, with bit 2 the stencil target to `stencil`. A target that is
    /// not bound, or names no image, is skipped.
    pub fn clear_attachments(
        &mut self,
        targets: (Option<ImageId>, Option<ImageId>, Option<ImageId>),
        rgba: [u8; 4],
        depth: [u8; 4],
        stencil: u8,
        mask: u32,
    )
        requires
            old(self).wf(),
        ensures
            final(self).wf(),
            final(self).next_id() == old(self).next_id(),
            final(self).images().dom() == old(self).images().dom(),
            forall|id: u32| #[trigger]
                final(self).images().contains_key(id) ==> {
                    let before = old(self).images()[id];
                    let after = final(self).images()[id];
                    &&& after.format == before.format
                    &&& after.width == before.width
                    &&& after.height == before.height
                    &&& after.data@ == attachments_cleared(
                        before,
                        id,
                        targets,
                        rgba,
                        depth,
                        stencil,
                        mask,
                    )
                },
            final(self).buffers() == old(self).buffers(),
            final(self).pipelines() == old(self).pipelines(),
            final(self).descriptor_sets() == old(self).descriptor_sets(),
            final(self).attachments() == old(self).attachments(),
    {
        let ghost start = *self;
        if mask & 1 != 0 {
            if let Some(id) = targets.0 {
                if let Some(image) = self.image_mut(id) {
                    clear_color_image(image, rgba);
                }
            }
        }
        let ghost after_color = *self;
        proof {
            Device::lemma_same_ids_keep_wf(start, after_color);
        }
        if mask & 2 != 0 {
            if let Some(id) = targets.1 {
                if let Some(image) = self.image_mut(id) {
                    clear_depth_image(image, depth);
                }
            }
        }
        let ghost after_depth = *self;
        proof {
            Device::lemma_same_ids_keep_wf(start, after_depth);
        }
        if mask & 4 != 0 {
            if let Some(id) = targets.2 {
                if let Some(image) = self.image_mut(id) {
                    clear_stencil_image(image, stencil);
                }
            }
        }
        proof {
            Device::lemma_same_ids_keep_wf(start, *self);
            assert forall|id: u32| #[trigger]
                self.images().contains_key(id) implies {
                    let before = start.images()[id];
                    let after = self.images()[id];
                    &&& after.format == before.format
                    &&& after.width == before.width
                    &&& after.height == before.height
                    &&& after.data@ == attachments_cleared(
                        before,
                        id,
                        targets,
                        rgba,
                        depth,
                        stencil,
                        mask,
                    )
                } by {
                assert(after_color.images().contains_key(id));
                assert(after_depth.images().contains_key(id));
            }
        }
    }
}

impl Default for Device {
    fn default() -> (r: Device)
        ensures
            r.wf(),
            r.next_id() == 1,
            r.buffers().dom() == Set::<u32>::empty(),
            r.images().dom() == Set::<u32>::empty(),
            r.pipelines().dom() == Set::<u32>::empty(),
            r.descriptor_sets().dom() == Set::<u32>::empty(),
            r.attachments() == (None::<ImageId>, None::<ImageId>, None::<ImageId>),
    {
        Device::new()
    }
}

} // verus!
