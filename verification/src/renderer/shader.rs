//! The voxel shader: its descriptor layout, its pools, and the registry of
//! instances that are rendered with it.
use vstd::prelude::*;

use crate::container::{FreeList, FreeListView};
use crate::renderer::pipeline::{Pipeline, PIPELINE_BIND_POINT_COMPUTE, SHADER_STAGE_COMPUTE};
use crate::renderer::resource::Resource;

verus! {

/// The most instances that can be registered at a time.
pub const MAX_INSTANCE_COUNT: u32 = 1000;

/// Raw code of a descriptor that is an image written by the shader.
pub const DESCRIPTOR_TYPE_STORAGE_IMAGE: i32 = 3;

/// Raw code of a descriptor that is a buffer of constants.
pub const DESCRIPTOR_TYPE_UNIFORM_BUFFER: i32 = 6;

/// Raw code of a descriptor that is a buffer the shader reads and writes.
pub const DESCRIPTOR_TYPE_STORAGE_BUFFER: i32 = 7;

/// The first word of every shader binary.
pub const SPIRV_MAGIC: u32 = 0x0723_0203;

/// One binding of a descriptor set layout.
#[derive(Clone, Copy, Debug, PartialEq, Eq, Structural)]
pub struct DescriptorSetLayoutBinding {
    pub binding: u32,
    pub descriptor_type: i32,
    pub descriptor_count: u32,
    pub stage_flags: u32,
}

/// How many descriptors of one type a pool holds.
#[derive(Clone, Copy, Debug, PartialEq, Eq, Structural)]
pub struct DescriptorPoolSize {
    pub ty: i32,
    pub descriptor_count: u32,
}

/// The description from which the device creates a descriptor pool.
#[derive(Debug, PartialEq, Eq)]
pub struct DescriptorPoolCreateInfo {
    pub max_sets: u32,
    pub pool_sizes: Vec<DescriptorPoolSize>,
}

/// The description from which the device allocates descriptor sets: one set
/// per listed layout, all from one pool.
#[derive(Debug, PartialEq, Eq)]
pub struct DescriptorSetAllocateInfo {
    pub descriptor_pool: u64,
    pub set_layouts: Vec<u64>,
}

/// What the device is asked to bind before a dispatch.
#[derive(Debug, PartialEq, Eq)]
pub struct BindInfo {
    pub pipeline_bind_point: i32,
    pub pipeline: u64,
    pub layout: u64,
    /// The set number that the first of `descriptor_sets` is bound to.
    pub first_set: u32,
    pub descriptor_sets: Vec<u64>,
}

/// One binding of the compute stage with a single descriptor.
pub open spec fn compute_binding(binding: u32, descriptor_type: i32) -> DescriptorSetLayoutBinding {
    DescriptorSetLayoutBinding {
        binding,
        descriptor_type,
        descriptor_count: 1,
        stage_flags: SHADER_STAGE_COMPUTE,
    }
}

/// The layout of the global set: the render target at binding 0, the frame
/// and environment constants at binding 1.
pub open spec fn global_set_bindings() -> Seq<DescriptorSetLayoutBinding> {
    seq![
        compute_binding(0, DESCRIPTOR_TYPE_STORAGE_IMAGE),
        compute_binding(1, DESCRIPTOR_TYPE_UNIFORM_BUFFER),
    ]
}

/// The layout of an instance set: the tree nodes at binding 0, the leaf
/// voxels at binding 1.
pub open spec fn instance_set_bindings() -> Seq<DescriptorSetLayoutBinding> {
    seq![
        compute_binding(0, DESCRIPTOR_TYPE_STORAGE_BUFFER),
        compute_binding(1, DESCRIPTOR_TYPE_STORAGE_BUFFER),
    ]
}

/// The sizes of the global pool: one descriptor of each global binding per
/// chain image.
pub open spec fn global_pool_sizes(swapchain_image_count: u32) -> Seq<DescriptorPoolSize> {
    seq![
        DescriptorPoolSize {
            ty: DESCRIPTOR_TYPE_STORAGE_IMAGE,
            descriptor_count: swapchain_image_count,
        },
        DescriptorPoolSize {
            ty: DESCRIPTOR_TYPE_UNIFORM_BUFFER,
            descriptor_count: swapchain_image_count,
        },
    ]
}

/// Why an instance could not be registered.
#[derive(Clone, Copy, Debug, PartialEq, Eq, Structural)]
pub enum AllocationError {
    /// The registry already holds as many instances as it may.
    Exhausted,
    /// The number of descriptor sets is not the number of chain images.
    SetCountMismatch,
}

/// What is bound for one registered instance.
#[derive(Debug, PartialEq, Eq)]
pub struct VoxelShaderInstance {
    /// The handle under which the instance is registered.
    pub id: u32,
    /// The descriptor sets of the instance, one per chain image.
    pub descriptor_sets: Vec<u64>,
}

/// What a [`VoxelShader`] holds, as mathematics.
pub struct VoxelShaderView {
    pub max_instance_count: u32,
    pub instances: FreeListView<VoxelShaderInstance>,
    pub global_sets: Seq<u64>,
    pub global_set_layout: u64,
    pub instance_set_layout: u64,
    pub global_descriptor_pool: u64,
    pub instance_descriptor_pool: u64,
    pub pipeline: Pipeline,
}

impl VoxelShaderView {
    /// No more slots than instances allowed, and every registered instance
    /// carries its own handle and one descriptor set per chain image.
    pub open spec fn wf(self) -> bool {
        &&& self.instances.wf()
        &&& self.instances.slots.len() <= self.max_instance_count
        &&& forall|i: int|
            self.instances.is_live(i) ==> {
                &&& (#[trigger] self.instances.slots[i])->0.id == i
                &&& self.instances.slots[i]->0.descriptor_sets@.len() == self.global_sets.len()
            }
    }

    /// Whether the registry holds as many instances as it may.
    pub open spec fn is_full(self) -> bool {
        self.instances.live_count() >= self.max_instance_count
    }

    /// What a registration answers: the handle, or why there is none.
    pub open spec fn allocation_outcome(self, descriptor_sets: Vec<u64>) -> Result<
        u32,
        AllocationError,
    > {
        if self.is_full() {
            Err(AllocationError::Exhausted)
        } else if descriptor_sets@.len() != self.global_sets.len() {
            Err(AllocationError::SetCountMismatch)
        } else {
            Ok(self.instances.next_index() as u32)
        }
    }

    /// The registry after a registration: unchanged if it was refused,
    /// otherwise with the new instance stored under its handle.
    pub open spec fn allocate_instance(self, descriptor_sets: Vec<u64>) -> Self {
        match self.allocation_outcome(descriptor_sets) {
            Ok(id) => VoxelShaderView {
                instances: self.instances.allocate(VoxelShaderInstance { id, descriptor_sets }),
                ..self
            },
            Err(_) => self,
        }
    }

    /// The registry after releasing a handle.
    pub open spec fn release_instance(self, id: u32) -> Self {
        VoxelShaderView { instances: self.instances.release(id as int), ..self }
    }

    /// A registration keeps the registry well formed; where it succeeds, the
    /// handle is below the bound and named no instance before.
    pub proof fn lemma_allocate_instance(self, descriptor_sets: Vec<u64>)
        requires
            self.wf(),
        ensures
            self.allocate_instance(descriptor_sets).wf(),
            self.allocation_outcome(descriptor_sets) matches Ok(id) ==> {
                &&& id == self.instances.next_index()
                &&& id < self.max_instance_count
                &&& !self.instances.is_live(id as int)
                &&& self.allocate_instance(descriptor_sets).instances.is_live(id as int)
            },
    {
        self.instances.lemma_live_count();
        if let Ok(id) = self.allocation_outcome(descriptor_sets) {
            let instance = VoxelShaderInstance { id, descriptor_sets };
            self.instances.lemma_allocate(instance);
            let after = self.allocate_instance(descriptor_sets);
            assert(id == self.instances.next_index()) by {
                if self.instances.free.len() > 0 {
                    assert(0 <= self.instances.free[0] < self.instances.slots.len());
                }
            }
            assert forall|i: int| after.instances.is_live(i) implies {
                &&& (#[trigger] after.instances.slots[i])->0.id == i
                &&& after.instances.slots[i]->0.descriptor_sets@.len() == after.global_sets.len()
            } by {
                if i != id as int {
                    assert(after.instances.slots[i] == self.instances.slots[i]);
                    assert(self.instances.is_live(i));
                }
            }
        }
    }

    /// The registry after the first `count` of `requests` have been
    /// registered, one after the other.
    pub open spec fn allocate_all(self, requests: Seq<Vec<u64>>, count: nat) -> Self
        decreases count,
    {
        if count == 0 {
            self
        } else {
            self.allocate_all(requests, (count - 1) as nat).allocate_instance(requests[count - 1])
        }
    }

    /// An empty registry that takes in registrations without a release in
    /// between fills its slots in order and holds no vacancy.
    proof fn lemma_filling(self, requests: Seq<Vec<u64>>, count: nat)
        requires
            self.wf(),
            self.instances == FreeListView::<VoxelShaderInstance>::empty(),
            count <= self.max_instance_count,
            count <= requests.len(),
            forall|k: int|
                0 <= k < requests.len() ==> (#[trigger] requests[k])@.len() == self.global_sets.len(),
        ensures
            self.allocate_all(requests, count).wf(),
            self.allocate_all(requests, count).instances.free.len() == 0,
            self.allocate_all(requests, count).instances.slots.len() == count,
            self.allocate_all(requests, count).max_instance_count == self.max_instance_count,
            self.allocate_all(requests, count).global_sets == self.global_sets,
        decreases count,
    {
        if count > 0 {
            let before = self.allocate_all(requests, (count - 1) as nat);
            self.lemma_filling(requests, (count - 1) as nat);
            before.lemma_allocate_instance(requests[count - 1]);
        }
    }

    /// An empty registry accepts exactly as many registrations as it may
    /// hold: they get the handles `0`, `1`, ... in turn, each below the bound
    /// and none given twice. The registration after that is refused as
    /// exhausted and leaves the registry as it was.
    pub proof fn lemma_fill_then_exhaust(self, requests: Seq<Vec<u64>>)
        requires
            self.wf(),
            self.instances == FreeListView::<VoxelShaderInstance>::empty(),
            requests.len() == self.max_instance_count + 1,
            forall|k: int|
                0 <= k < requests.len() ==> (#[trigger] requests[k])@.len() == self.global_sets.len(),
        ensures
            forall|k: nat|
                k < self.max_instance_count ==> (#[trigger] self.allocate_all(
                    requests,
                    k,
                )).allocation_outcome(requests[k as int]) == Ok::<u32, AllocationError>(k as u32),
            self.allocate_all(requests, self.max_instance_count as nat).allocation_outcome(
                requests[self.max_instance_count as int],
            ) == Err::<u32, AllocationError>(AllocationError::Exhausted),
            self.allocate_all(requests, (self.max_instance_count + 1) as nat) == self.allocate_all(
                requests,
                self.max_instance_count as nat,
            ),
    {
        let bound = self.max_instance_count as nat;
        assert forall|k: nat| k < bound implies (#[trigger] self.allocate_all(
            requests,
            k,
        )).allocation_outcome(requests[k as int]) == Ok::<u32, AllocationError>(k as u32) by {
            self.lemma_filling(requests, k);
        }
        self.lemma_filling(requests, bound);
        assert(self.allocate_all(requests, (bound + 1) as nat) == self.allocate_all(
            requests,
            bound,
        ).allocate_instance(requests[bound as int]));
    }

    /// Releasing keeps the registry well formed.
    pub proof fn lemma_release_instance(self, id: u32)
        requires
            self.wf(),
        ensures
            self.release_instance(id).wf(),
    {
        self.instances.lemma_release(id as int);
        let after = self.release_instance(id);
        assert forall|i: int| after.instances.is_live(i) implies {
            &&& (#[trigger] after.instances.slots[i])->0.id == i
            &&& after.instances.slots[i]->0.descriptor_sets@.len() == after.global_sets.len()
        } by {
            assert(i != id as int);
            assert(after.instances.slots[i] == self.instances.slots[i]);
            assert(self.instances.is_live(i));
        }
    }
}

/// The voxel shader as the renderer keeps track of it: the handles of what
/// the device created for it, and the registry of instances.
pub struct VoxelShader {
    max_instance_count: u32,
    instances: FreeList<VoxelShaderInstance>,
    global_sets: Vec<u64>,
    global_set_layout: u64,
    instance_set_layout: u64,
    global_descriptor_pool: u64,
    instance_descriptor_pool: u64,
    pipeline: Pipeline,
}

impl View for VoxelShader {
    type V = VoxelShaderView;

    closed spec fn view(&self) -> VoxelShaderView {
        VoxelShaderView {
            max_instance_count: self.max_instance_count,
            instances: self.instances@,
            global_sets: self.global_sets@,
            global_set_layout: self.global_set_layout,
            instance_set_layout: self.instance_set_layout,
            global_descriptor_pool: self.global_descriptor_pool,
            instance_descriptor_pool: self.instance_descriptor_pool,
            pipeline: self.pipeline,
        }
    }
}

impl VoxelShader {
    /// Well-formedness: every method needs it and every method keeps it.
    pub closed spec fn wf(&self) -> bool {
        self.instances.wf() && self@.wf()
    }

    /// Well-formedness carries over to the view.
    pub proof fn lemma_view_wf(&self)
        requires
            self.wf(),
        ensures
            self@.wf(),
    {
    }

    /// The bindings of the global set layout, see [`global_set_bindings`].
    pub fn global_set_layout_bindings() -> (bindings: Vec<DescriptorSetLayoutBinding>)
        ensures
            bindings@ == global_set_bindings(),
    {
        let mut bindings: Vec<DescriptorSetLayoutBinding> = Vec::new();
        bindings.push(
            DescriptorSetLayoutBinding {
                binding: 0,
                descriptor_type: DESCRIPTOR_TYPE_STORAGE_IMAGE,
                descriptor_count: 1,
                stage_flags: SHADER_STAGE_COMPUTE,
            },
        );
        bindings.push(
            DescriptorSetLayoutBinding {
                binding: 1,
                descriptor_type: DESCRIPTOR_TYPE_UNIFORM_BUFFER,
                descriptor_count: 1,
                stage_flags: SHADER_STAGE_COMPUTE,
            },
        );
        assert(bindings@ =~= global_set_bindings());
        bindings
    }

    /// The bindings of the instance set layout, see [`instance_set_bindings`].
    pub fn instance_set_layout_bindings() -> (bindings: Vec<DescriptorSetLayoutBinding>)
        ensures
            bindings@ == instance_set_bindings(),
    {
        let mut bindings: Vec<DescriptorSetLayoutBinding> = Vec::new();
        bindings.push(
            DescriptorSetLayoutBinding {
                binding: 0,
                descriptor_type: DESCRIPTOR_TYPE_STORAGE_BUFFER,
                descriptor_count: 1,
                stage_flags: SHADER_STAGE_COMPUTE,
            },
        );
        bindings.push(
            DescriptorSetLayoutBinding {
                binding: 1,
                descriptor_type: DESCRIPTOR_TYPE_STORAGE_BUFFER,
                descriptor_count: 1,
                stage_flags: SHADER_STAGE_COMPUTE,
            },
        );
        assert(bindings@ =~= instance_set_bindings());
        bindings
    }

    /// Describes the pool of the global sets: one set per chain image, with
    /// one descriptor of each global binding per set.
    pub fn global_descriptor_pool_info(swapchain_image_count: u32) -> (info:
        DescriptorPoolCreateInfo)
        ensures
            info.max_sets == swapchain_image_count,
            info.pool_sizes@ == global_pool_sizes(swapchain_image_count),
    {
        let mut pool_sizes: Vec<DescriptorPoolSize> = Vec::new();
        pool_sizes.push(
            DescriptorPoolSize {
                ty: DESCRIPTOR_TYPE_STORAGE_IMAGE,
                descriptor_count: swapchain_image_count,
            },
        );
        pool_sizes.push(
            DescriptorPoolSize {
                ty: DESCRIPTOR_TYPE_UNIFORM_BUFFER,
                descriptor_count: swapchain_image_count,
            },
        );
        assert(pool_sizes@ =~= global_pool_sizes(swapchain_image_count));
        DescriptorPoolCreateInfo { max_sets: swapchain_image_count, pool_sizes }
    }

    /// Describes the pool of the instance sets: room for exactly one set per
    /// chain image for each of [`MAX_INSTANCE_COUNT`] instances, and two
    /// storage-buffer descriptors per chain image.
    ///
    /// The counts must fit the integer type of the device interface.
    pub fn instance_descriptor_pool_info(swapchain_image_count: u32) -> (info:
        DescriptorPoolCreateInfo)
        requires
            swapchain_image_count * MAX_INSTANCE_COUNT <= u32::MAX,
        ensures
            info.max_sets == swapchain_image_count * MAX_INSTANCE_COUNT,
            info.pool_sizes@ == seq![
                DescriptorPoolSize {
                    ty: DESCRIPTOR_TYPE_STORAGE_BUFFER,
                    descriptor_count: (2 * swapchain_image_count) as u32,
                },
            ],
    {
        let mut pool_sizes: Vec<DescriptorPoolSize> = Vec::new();
        pool_sizes.push(
            DescriptorPoolSize {
                ty: DESCRIPTOR_TYPE_STORAGE_BUFFER,
                descriptor_count: 2 * swapchain_image_count,
            },
        );
        assert(pool_sizes@ =~= seq![
            DescriptorPoolSize {
                ty: DESCRIPTOR_TYPE_STORAGE_BUFFER,
                descriptor_count: (2 * swapchain_image_count) as u32,
            },
        ]);
        DescriptorPoolCreateInfo {
            max_sets: swapchain_image_count * MAX_INSTANCE_COUNT,
            pool_sizes,
        }
    }

    /// The set layouts the pipeline layout is built from, in the order that
    /// gives them their set numbers: the global set is set 0, the instance
    /// set is set 1.
    pub fn pipeline_set_layouts(global_set_layout: u64, instance_set_layout: u64) -> (layouts: Vec<
        u64,
    >)
        ensures
            layouts@ == seq![global_set_layout, instance_set_layout],
    {
        let mut layouts: Vec<u64> = Vec::new();
        layouts.push(global_set_layout);
        layouts.push(instance_set_layout);
        assert(layouts@ =~= seq![global_set_layout, instance_set_layout]);
        layouts
    }

    /// Describes the allocation of the global sets: one set of the global
    /// layout per chain image.
    pub fn global_set_allocate_info(
        global_descriptor_pool: u64,
        global_set_layout: u64,
        swapchain_image_count: u32,
    ) -> (info: DescriptorSetAllocateInfo)
        ensures
            info.descriptor_pool == global_descriptor_pool,
            info.set_layouts@ == Seq::new(swapchain_image_count as nat, |i: int| global_set_layout),
    {
        DescriptorSetAllocateInfo {
            descriptor_pool: global_descriptor_pool,
            set_layouts: repeated(global_set_layout, swapchain_image_count as usize),
        }
    }

    /// Describes the allocation of the sets of one more instance: one set of
    /// the instance layout per chain image, from the instance pool. A full
    /// registry has no room for another instance, and nothing is to be
    /// allocated for one.
    pub fn instance_set_allocate_info(&self) -> (info: Option<DescriptorSetAllocateInfo>)
        requires
            self.wf(),
        ensures
            info is None <==> self@.is_full(),
            info matches Some(i) ==> {
                &&& i.descriptor_pool == self@.instance_descriptor_pool
                &&& i.set_layouts@ == Seq::new(
                    self@.global_sets.len(),
                    |k: int| self@.instance_set_layout,
                )
            },
    {
        if self.instances.len() >= self.max_instance_count as usize {
            None
        } else {
            Some(
                DescriptorSetAllocateInfo {
                    descriptor_pool: self.instance_descriptor_pool,
                    set_layouts: repeated(self.instance_set_layout, self.global_sets.len()),
                },
            )
        }
    }

    /// Records what the device created for the shader and starts with an
    /// empty registry of at most [`MAX_INSTANCE_COUNT`] instances.
    /// `global_sets` holds the global descriptor set of each chain image.
    pub fn new(
        global_sets: Vec<u64>,
        global_set_layout: u64,
        instance_set_layout: u64,
        global_descriptor_pool: u64,
        instance_descriptor_pool: u64,
        pipeline: Pipeline,
    ) -> (shader: Self)
        ensures
            shader.wf(),
            shader@ == (VoxelShaderView {
                max_instance_count: MAX_INSTANCE_COUNT,
                instances: FreeListView::empty(),
                global_sets: global_sets@,
                global_set_layout,
                instance_set_layout,
                global_descriptor_pool,
                instance_descriptor_pool,
                pipeline,
            }),
    {
        VoxelShader {
            max_instance_count: MAX_INSTANCE_COUNT,
            instances: FreeList::with_capacity(3),
            global_sets,
            global_set_layout,
            instance_set_layout,
            global_descriptor_pool,
            instance_descriptor_pool,
            pipeline,
        }
    }

    /// What to destroy when the shader goes away: the pipeline and its
    /// layout, the two descriptor pools, then the two set layouts.
    pub fn destroy(&mut self) -> (teardown: Vec<Resource>)
        ensures
            teardown@ == shader_teardown(old(self)@),
            *final(self) == *old(self),
    {
        let mut teardown = self.pipeline.destroy();
        teardown.push(Resource::DescriptorPool(self.global_descriptor_pool));
        teardown.push(Resource::DescriptorPool(self.instance_descriptor_pool));
        teardown.push(Resource::DescriptorSetLayout(self.global_set_layout));
        teardown.push(Resource::DescriptorSetLayout(self.instance_set_layout));
        assert(teardown@ =~= shader_teardown(self@));
        teardown
    }

    /// How many descriptor sets an instance needs: one per chain image.
    pub fn instance_set_count(&self) -> (count: usize)
        ensures
            count == self@.global_sets.len(),
    {
        self.global_sets.len()
    }

    /// How many instances are registered.
    pub fn instance_count(&self) -> (count: usize)
        requires
            self.wf(),
        ensures
            count == self@.instances.live_count(),
    {
        self.instances.len()
    }

    /// Whether the registry holds as many instances as it may, so that the
    /// next registration will be refused.
    pub fn is_full(&self) -> (full: bool)
        requires
            self.wf(),
        ensures
            full == self@.is_full(),
    {
        self.instances.len() >= self.max_instance_count as usize
    }

    /// Registers an instance with the descriptor sets the device allocated
    /// for it, one per chain image, and returns its handle. The handle is
    /// the slot released last if there is one, else the next unused slot; it
    /// is stamped on the stored instance.
    ///
    /// A full registry refuses with [`AllocationError::Exhausted`], a wrong
    /// number of sets is refused with [`AllocationError::SetCountMismatch`];
    /// a refusal changes nothing.
    pub fn allocate_instance(&mut self, descriptor_sets: Vec<u64>) -> (handle: Result<
        u32,
        AllocationError,
    >)
        requires
            old(self).wf(),
        ensures
            final(self).wf(),
            handle == old(self)@.allocation_outcome(descriptor_sets),
            final(self)@ == old(self)@.allocate_instance(descriptor_sets),
    {
        proof {
            self@.lemma_allocate_instance(descriptor_sets);
        }
        if self.instances.len() >= self.max_instance_count as usize {
            return Err(AllocationError::Exhausted);
        }
        if descriptor_sets.len() != self.global_sets.len() {
            return Err(AllocationError::SetCountMismatch);
        }
        let index = self.instances.next_index();
        let id = index as u32;
        self.instances.allocate(VoxelShaderInstance { id, descriptor_sets });
        Ok(id)
    }

    /// Releases a handle. Returns the instance it named, whose slot is the
    /// first to be reused; returns `None` and changes nothing if the handle
    /// names no instance.
    pub fn release_instance(&mut self, id: u32) -> (instance: Option<VoxelShaderInstance>)
        requires
            old(self).wf(),
        ensures
            final(self).wf(),
            final(self)@ == old(self)@.release_instance(id),
            old(self)@.instances.is_live(id as int) ==> instance == Some(
                old(self)@.instances.slots[id as int]->0,
            ),
            !old(self)@.instances.is_live(id as int) ==> instance is None,
    {
        proof {
            self@.lemma_release_instance(id);
        }
        self.instances.release(id as usize)
    }

    /// The instance registered under a handle, if there is one.
    pub fn instance(&self, id: u32) -> (instance: Option<&VoxelShaderInstance>)
        requires
            self.wf(),
        ensures
            self@.instances.is_live(id as int) ==> instance == Some(
                &self@.instances.slots[id as int]->0,
            ),
            !self@.instances.is_live(id as int) ==> instance is None,
    {
        self.instances.get(id as usize)
    }

    /// What to bind before dispatching for the chain image `image_index`:
    /// the compute pipeline, and the global set of that image as set 0.
    pub fn bind(&self, image_index: u32) -> (info: BindInfo)
        requires
            image_index < self@.global_sets.len(),
        ensures
            info.pipeline_bind_point == PIPELINE_BIND_POINT_COMPUTE,
            info.pipeline == self@.pipeline.handle,
            info.layout == self@.pipeline.layout,
            info.first_set == 0,
            info.descriptor_sets@ == seq![self@.global_sets[image_index as int]],
    {
        let mut descriptor_sets: Vec<u64> = Vec::new();
        descriptor_sets.push(self.global_sets[image_index as usize]);
        assert(descriptor_sets@ =~= seq![self@.global_sets[image_index as int]]);
        BindInfo {
            pipeline_bind_point: PIPELINE_BIND_POINT_COMPUTE,
            pipeline: self.pipeline.handle,
            layout: self.pipeline.layout,
            first_set: 0,
            descriptor_sets,
        }
    }
}

/// A list that holds `value` `count` times.
fn repeated(value: u64, count: usize) -> (list: Vec<u64>)
    ensures
        list@ == Seq::new(count as nat, |i: int| value),
{
    let mut list: Vec<u64> = Vec::new();
    let mut i: usize = 0;
    while i < count
        invariant
            i <= count,
            list@ == Seq::new(i as nat, |k: int| value),
        decreases count - i,
    {
        list.push(value);
        i = i + 1;
        assert(list@ =~= Seq::new(i as nat, |k: int| value));
    }
    list
}

/// The teardown of the shader: pipeline, pipeline layout, global pool,
/// instance pool, global set layout, instance set layout.
pub open spec fn shader_teardown(shader: VoxelShaderView) -> Seq<Resource> {
    seq![
        Resource::Pipeline(shader.pipeline.handle),
        Resource::PipelineLayout(shader.pipeline.layout),
        Resource::DescriptorPool(shader.global_descriptor_pool),
        Resource::DescriptorPool(shader.instance_descriptor_pool),
        Resource::DescriptorSetLayout(shader.global_set_layout),
        Resource::DescriptorSetLayout(shader.instance_set_layout),
    ]
}

/// A shader module together with the stage it is to run as. It is needed
/// only until the pipeline is built from it and is destroyed right after.
#[derive(Clone, Copy, Debug, PartialEq, Eq, Structural)]
pub struct ShaderStage {
    pub module: u64,
    pub shader_stage: u32,
}

/// The name of the function at which every shader stage is entered, `main`,
/// as bytes.
pub open spec fn entry_point_name() -> Seq<u8> {
    seq![0x6du8, 0x61, 0x69, 0x6e]
}

impl ShaderStage {
    /// Records the module the device created from a shader binary, to be run
    /// as the given stage.
    pub fn new(module: u64, shader_stage: u32) -> (stage: Self)
        ensures
            stage == (ShaderStage { module, shader_stage }),
    {
        ShaderStage { module, shader_stage }
    }

    /// The name of the entry point, see [`entry_point_name`].
    pub fn stage_entry_point_name(&self) -> (name: Vec<u8>)
        ensures
            name@ == entry_point_name(),
    {
        let mut name: Vec<u8> = Vec::new();
        name.push(0x6d);
        name.push(0x61);
        name.push(0x69);
        name.push(0x6e);
        assert(name@ =~= entry_point_name());
        name
    }

    /// What to destroy when the stage is no longer needed.
    pub fn destroy(&self) -> (teardown: Vec<Resource>)
        ensures
            teardown@ == seq![Resource::ShaderModule(self.module)],
    {
        let mut teardown: Vec<Resource> = Vec::new();
        teardown.push(Resource::ShaderModule(self.module));
        assert(teardown@ =~= seq![Resource::ShaderModule(self.module)]);
        teardown
    }
}

/// Why a sequence of bytes is no shader binary.
#[derive(Clone, Copy, Debug, PartialEq, Eq, Structural)]
pub enum ShaderError {
    /// The length is not a whole number of 32-bit words.
    Truncated,
    /// The first word is not the magic number, in either byte order.
    MissingMagic,
}

/// The 32-bit word at `position`, read in the given byte order.
pub open spec fn word_at(bytes: Seq<u8>, position: int, big_endian: bool) -> int {
    let b0 = bytes[4 * position] as int;
    let b1 = bytes[4 * position + 1] as int;
    let b2 = bytes[4 * position + 2] as int;
    let b3 = bytes[4 * position + 3] as int;
    if big_endian {
        b0 * 0x100_0000 + b1 * 0x1_0000 + b2 * 0x100 + b3
    } else {
        b3 * 0x100_0000 + b2 * 0x1_0000 + b1 * 0x100 + b0
    }
}

/// Whether the bytes start with the magic number in the given byte order.
pub open spec fn has_magic(bytes: Seq<u8>, big_endian: bool) -> bool {
    bytes.len() >= 4 && word_at(bytes, 0, big_endian) == SPIRV_MAGIC
}

/// Whether the bytes are a shader binary: a whole number of words, the first
/// of which is the magic number in one byte order or the other.
pub open spec fn is_shader_binary(bytes: Seq<u8>) -> bool {
    bytes.len() % 4 == 0 && (has_magic(bytes, false) || has_magic(bytes, true))
}

/// The words of a shader binary, read in the byte order in which the first
/// word is the magic number.
pub open spec fn shader_words(bytes: Seq<u8>) -> Seq<u32> {
    let big_endian = !has_magic(bytes, false);
    Seq::new((bytes.len() / 4) as nat, |position: int| word_at(bytes, position, big_endian) as u32)
}

#[verifier::external_type_specification]
#[verifier::external_body]
pub struct ExIoError(std::io::Error);

/// `ash::util::read_spv`, reading from memory. It refuses input whose length
/// is not a multiple of four and input whose first word is the magic number
/// in neither byte order; otherwise it returns the input as words, with the
/// bytes of every word swapped if that is what makes the first word the magic
/// number.
#[verifier::external_body]
fn read_spv(bytes: &[u8]) -> (words: Result<Vec<u32>, std::io::Error>)
    ensures
        words is Ok <==> is_shader_binary(bytes@),
        words matches Ok(w) ==> w@ == shader_words(bytes@),
{
    ash::util::read_spv(&mut std::io::Cursor::new(bytes))
}

/// Decodes a shader binary into its words, whichever byte order it was
/// written in.
pub fn read_shader(bytes: &[u8]) -> (words: Result<Vec<u32>, ShaderError>)
    ensures
        match words {
            Ok(w) => is_shader_binary(bytes@) && w@ == shader_words(bytes@),
            Err(ShaderError::Truncated) => bytes@.len() % 4 != 0,
            Err(ShaderError::MissingMagic) => bytes@.len() % 4 == 0 && !is_shader_binary(bytes@),
        },
{
    match read_spv(bytes) {
        Ok(words) => Ok(words),
        Err(_) => {
            if bytes.len() % 4 != 0 {
                Err(ShaderError::Truncated)
            } else {
                Err(ShaderError::MissingMagic)
            }
        },
    }
}

} // verus!
