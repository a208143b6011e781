//! The renderer: frames in flight, the per-frame protocol, and the order in
//! which everything is given back.
//!
//! The renderer never talks to the device itself. It says what is to be done
//! next ([`FrameAction`]), is told what came of it ([`FrameEvent`]), and keeps
//! the books in between.
pub mod command_buffer;
pub mod pipeline;
pub mod resource;
pub mod shader;
pub mod swapchain;
pub mod vkcontext;

use vstd::prelude::*;

use crate::renderer::resource::{DeviceError, Resource};
use crate::renderer::shader::{
    shader_teardown, AllocationError, VoxelShader, VoxelShaderInstance, VoxelShaderView,
};
use crate::renderer::swapchain::{
    acquire_outcome, is_stale, present_outcome, swapchain_teardown, Swapchain,
};
use crate::renderer::vkcontext::{context_teardown, VkContext};

verus! {

/// How many frames may be in flight at a time.
pub const MAX_FRAMES_IN_FLIGHT: u32 = 2;

/// Creation bit of a fence that starts out signalled.
pub const FENCE_CREATE_SIGNALED: u32 = 0x1;

/// The synchronisation primitives of one frame in flight.
#[derive(Clone, Copy, Debug, PartialEq, Eq, Structural)]
pub struct SyncObject {
    /// Signalled by the device when the acquired image may be rendered to.
    pub image_available_semaphore: u64,
    /// Signalled by the device when the submitted work is done.
    pub queue_complete_semaphore: u64,
    /// Signalled when the frame that last used this slot has left the device.
    /// It is created signalled, so that the first wait returns at once.
    pub in_flight_fence: u64,
}

impl SyncObject {
    /// What to destroy when the slot goes away.
    pub fn destroy(&self) -> (teardown: Vec<Resource>)
        ensures
            teardown@ == sync_object_teardown(*self),
    {
        let mut teardown: Vec<Resource> = Vec::new();
        teardown.push(Resource::Semaphore(self.image_available_semaphore));
        teardown.push(Resource::Semaphore(self.queue_complete_semaphore));
        teardown.push(Resource::Fence(self.in_flight_fence));
        assert(teardown@ =~= sync_object_teardown(*self));
        teardown
    }
}

/// The teardown of one slot: its two semaphores, then its fence.
pub open spec fn sync_object_teardown(slot: SyncObject) -> Seq<Resource> {
    seq![
        Resource::Semaphore(slot.image_available_semaphore),
        Resource::Semaphore(slot.queue_complete_semaphore),
        Resource::Fence(slot.in_flight_fence),
    ]
}

/// The teardown of all slots, one after the other.
pub open spec fn sync_objects_teardown(slots: Seq<SyncObject>) -> Seq<Resource>
    decreases slots.len(),
{
    if slots.len() == 0 {
        Seq::empty()
    } else {
        sync_objects_teardown(slots.drop_last()) + sync_object_teardown(slots.last())
    }
}

/// The slot after the one at `cursor` in a ring of `slots` slots: the next
/// one, and after the last the first again.
pub open spec fn next_cursor(cursor: nat, slots: nat) -> nat {
    ((cursor + 1) as int % (slots as int)) as nat
}

/// The slot cursor after `calls` turns, starting from `start`, in a ring of
/// `slots` slots.
pub open spec fn cursor_after(start: nat, calls: nat, slots: nat) -> nat
    decreases calls,
{
    if calls == 0 {
        start
    } else {
        next_cursor(cursor_after(start, (calls - 1) as nat, slots), slots)
    }
}

/// Turns around the ring add up: after any number of turns the cursor is
/// the start plus the number of turns, modulo the number of slots.
pub proof fn lemma_cursor_cycles(start: nat, calls: nat, slots: nat)
    requires
        slots > 0,
        start < slots,
    ensures
        cursor_after(start, calls, slots) == (start + calls) as int % (slots as int),
        cursor_after(start, calls, slots) < slots,
    decreases calls,
{
    if calls == 0 {
        assert(start as int % (slots as int) == start) by (nonlinear_arith)
            requires
                start < slots,
        ;
    } else {
        lemma_cursor_cycles(start, (calls - 1) as nat, slots);
        let before = (start + calls - 1) as int;
        let n = slots as int;
        assert(((before % n) + 1) % n == (before + 1) % n) by (nonlinear_arith)
            requires
                n > 0,
                before >= 0,
        ;
    }
}

/// With two slots the cursor alternates: from the first slot, the turn number
/// `calls` (counted from zero) uses slot `calls % 2`, and after an even
/// number of turns the cursor is back at the first slot.
pub proof fn lemma_two_slots_alternate(calls: nat)
    ensures
        cursor_after(0, calls, 2) == calls as int % 2,
        calls as int % 2 == 0 ==> cursor_after(0, calls, 2) == 0,
        cursor_after(0, 2 * calls, 2) == 0,
{
    lemma_cursor_cycles(0, calls, 2);
    lemma_cursor_cycles(0, 2 * calls, 2);
}

/// Hands out the slots of the frames in flight in turn.
pub struct FrameScheduler {
    sync_objects: Vec<SyncObject>,
    current_frame: u64,
}

impl FrameScheduler {
    /// The slots, in ring order.
    pub closed spec fn slots(&self) -> Seq<SyncObject> {
        self.sync_objects@
    }

    /// The position of the slot that is handed out next.
    pub closed spec fn cursor(&self) -> nat {
        self.current_frame as nat
    }

    /// There is at least one slot, and the cursor points at one.
    pub open spec fn wf(&self) -> bool {
        0 <= self.cursor() < self.slots().len()
    }

    /// A scheduler over the given slots, starting at the first. `None` if
    /// there is no slot at all.
    pub fn new(sync_objects: Vec<SyncObject>) -> (scheduler: Option<Self>)
        ensures
            scheduler is Some <==> sync_objects@.len() > 0,
            scheduler matches Some(s) ==> s.wf() && s.slots() == sync_objects@ && s.cursor() == 0,
    {
        if sync_objects.len() > 0 {
            Some(FrameScheduler { sync_objects, current_frame: 0 })
        } else {
            None
        }
    }

    /// How many frames may be in flight.
    pub fn frames_in_flight(&self) -> (count: usize)
        ensures
            count == self.slots().len(),
    {
        self.sync_objects.len()
    }

    /// The slot at the cursor; the cursor then moves one slot on, and from
    /// the last slot back to the first.
    pub fn next_slot(&mut self) -> (slot: SyncObject)
        requires
            old(self).wf(),
        ensures
            final(self).wf(),
            slot == old(self).slots()[old(self).cursor() as int],
            final(self).slots() == old(self).slots(),
            final(self).cursor() == next_cursor(old(self).cursor(), old(self).slots().len()),
    {
        let next = self.sync_objects[self.current_frame as usize];
        let count = self.sync_objects.len() as u64;
        self.current_frame = (self.current_frame + 1) % count;
        next
    }

    /// What to destroy when the scheduler goes away: every slot in turn.
    pub fn destroy(&self) -> (teardown: Vec<Resource>)
        ensures
            teardown@ == sync_objects_teardown(self.slots()),
    {
        let mut teardown: Vec<Resource> = Vec::new();
        let mut i: usize = 0;
        while i < self.sync_objects.len()
            invariant
                i <= self.sync_objects@.len(),
                teardown@ == sync_objects_teardown(self.sync_objects@.take(i as int)),
            decreases self.sync_objects@.len() - i,
        {
            let mut part = self.sync_objects[i].destroy();
            proof {
                let done = self.sync_objects@.take(i as int);
                let more = self.sync_objects@.take(i + 1);
                assert(more.drop_last() =~= done);
                assert(more.last() == self.sync_objects@[i as int]);
            }
            teardown.append(&mut part);
            i = i + 1;
        }
        assert(self.sync_objects@.take(i as int) =~= self.sync_objects@);
        teardown
    }
}

/// Where the renderer stands within a frame.
#[derive(Clone, Copy, Debug, PartialEq, Eq, Structural)]
pub enum FramePhase {
    /// Between frames.
    Idle,
    /// Waiting for the slot's fence: the device may still be at work on the
    /// frame that used the slot before.
    AwaitingFence { slot: SyncObject },
    /// Waiting for the fence to be reset.
    AwaitingReset { slot: SyncObject },
    /// Waiting for the next image of the chain.
    AwaitingImage { slot: SyncObject },
    /// The image is there; the caller records the work of the frame.
    Recording { slot: SyncObject, image_index: u32 },
    /// Waiting for the recorded work to be submitted.
    AwaitingSubmit { slot: SyncObject, image_index: u32 },
    /// Waiting for the image to be handed over for display.
    AwaitingPresent { slot: SyncObject, image_index: u32 },
}

/// What the device did in answer to a [`FrameAction`].
#[derive(Debug, PartialEq, Eq)]
pub enum FrameEvent {
    /// The fence waited for is signalled.
    FenceSignaled,
    /// The fence is reset.
    FenceReset,
    /// The answer to the request for the next image: its index and whether
    /// the chain is still the best fit, or a result code.
    ImageAcquired(Result<(u32, bool), i32>),
    /// The recorded work is submitted.
    Submitted,
    /// The answer to the request to present: whether the chain is still the
    /// best fit, or a result code.
    Presented(Result<bool, i32>),
}

/// What is to be done next for the frame.
#[derive(Clone, Copy, Debug, PartialEq, Eq, Structural)]
pub enum FrameAction {
    /// Block until the fence is signalled, for at most `timeout` nanoseconds.
    WaitForFence { fence: u64, timeout: u64 },
    /// Reset the fence.
    ResetFence { fence: u64 },
    /// Ask the chain for its next image, blocking for at most `timeout`
    /// nanoseconds; the device signals `semaphore` when the image is ready.
    AcquireImage { swapchain: u64, semaphore: u64, timeout: u64 },
    /// Record the work of the frame for this image, then end the frame.
    Record { image_index: u32 },
    /// Submit the recorded work: it waits for `wait_semaphore` and signals
    /// both `signal_semaphore` and `fence`.
    Submit { wait_semaphore: u64, signal_semaphore: u64, fence: u64 },
    /// Hand the image over for display once `wait_semaphore` is signalled.
    Present { swapchain: u64, wait_semaphore: u64, image_index: u32 },
    /// The frame is done.
    Finished,
    /// The chain is out of date. The frame is given up; the chain has to be
    /// destroyed and created anew before the next frame.
    RecreateSwapchain,
    /// The device failed in a way the renderer cannot recover from.
    Fail { error: DeviceError },
    /// The call or event does not fit the phase; nothing has changed.
    Rejected,
}

/// The wait that never gives up.
pub const NO_TIMEOUT: u64 = 0xffff_ffff_ffff_ffff;

/// The frame protocol: from a phase and what the device did, the next phase
/// and what to do next.
///
/// A frame waits for its slot's fence, resets it, acquires an image, has the
/// work recorded, submits it and presents the image. An out-of-date chain,
/// reported on acquire or on present, ends the frame at once.
pub open spec fn frame_step(phase: FramePhase, event: FrameEvent, swapchain: u64) -> (
    FramePhase,
    FrameAction,
) {
    match (phase, event) {
        (FramePhase::AwaitingFence { slot }, FrameEvent::FenceSignaled) => (
            FramePhase::AwaitingReset { slot },
            FrameAction::ResetFence { fence: slot.in_flight_fence },
        ),
        (FramePhase::AwaitingReset { slot }, FrameEvent::FenceReset) => (
            FramePhase::AwaitingImage { slot },
            FrameAction::AcquireImage {
                swapchain,
                semaphore: slot.image_available_semaphore,
                timeout: NO_TIMEOUT,
            },
        ),
        (FramePhase::AwaitingImage { slot }, FrameEvent::ImageAcquired(answer)) => match acquire_outcome(
            answer,
        ) {
            Ok(Some(image_index)) => (
                FramePhase::Recording { slot, image_index },
                FrameAction::Record { image_index },
            ),
            Ok(None) => (FramePhase::Idle, FrameAction::RecreateSwapchain),
            Err(error) => (FramePhase::Idle, FrameAction::Fail { error }),
        },
        (FramePhase::AwaitingSubmit { slot, image_index }, FrameEvent::Submitted) => (
            FramePhase::AwaitingPresent { slot, image_index },
            FrameAction::Present {
                swapchain,
                wait_semaphore: slot.queue_complete_semaphore,
                image_index,
            },
        ),
        (FramePhase::AwaitingPresent { slot, image_index }, FrameEvent::Presented(answer)) => match present_outcome(
            answer,
        ) {
            Ok(true) => (FramePhase::Idle, FrameAction::Finished),
            Ok(false) => (FramePhase::Idle, FrameAction::RecreateSwapchain),
            Err(error) => (FramePhase::Idle, FrameAction::Fail { error }),
        },
        _ => (phase, FrameAction::Rejected),
    }
}

/// Whether an event reports an out-of-date chain.
pub open spec fn reports_stale(phase: FramePhase, event: FrameEvent) -> bool {
    match (phase, event) {
        (FramePhase::AwaitingImage { .. }, FrameEvent::ImageAcquired(answer)) => is_stale(answer),
        (FramePhase::AwaitingPresent { .. }, FrameEvent::Presented(answer)) => is_stale(answer),
        _ => false,
    }
}

/// An out-of-date answer to the acquire gives the frame up: the renderer is
/// between frames again and asks for the chain to be recreated. Between
/// frames no event is accepted, so nothing is submitted and nothing is
/// presented until a new frame begins.
pub proof fn lemma_stale_acquire_abandons_frame(slot: SyncObject, swapchain: u64)
    ensures
        frame_step(
            FramePhase::AwaitingImage { slot },
            FrameEvent::ImageAcquired(Err(resource::ERROR_OUT_OF_DATE)),
            swapchain,
        ) == (FramePhase::Idle, FrameAction::RecreateSwapchain),
        forall|event: FrameEvent| #[trigger]
            frame_step(FramePhase::Idle, event, swapchain) == (FramePhase::Idle, FrameAction::Rejected),
{
}

/// A submission is only ever asked for in answer to the end of a recorded
/// frame, and a presentation only in answer to a submission: no event makes
/// the protocol ask for a submission, and only the event that reports the
/// submission makes it ask for a presentation, of the image that was
/// acquired for the frame.
pub proof fn lemma_present_follows_submit(phase: FramePhase, event: FrameEvent, swapchain: u64)
    ensures
        !(frame_step(phase, event, swapchain).1 is Submit),
        frame_step(phase, event, swapchain).1 is Present ==> {
            &&& phase is AwaitingSubmit
            &&& event is Submitted
            &&& frame_step(phase, event, swapchain).1->Present_image_index
                == phase->AwaitingSubmit_image_index
        },
{
}

/// What a [`Renderer`] holds, as mathematics.
pub struct RendererView {
    pub phase: FramePhase,
    pub slots: Seq<SyncObject>,
    pub cursor: nat,
    pub command_pool: u64,
    pub swapchain: Swapchain,
    pub vk_context: VkContext,
    pub voxel_shader: VoxelShaderView,
}

/// The renderer: the context, the chain, the frames in flight, the voxel
/// shader, and the phase of the frame that is under way.
pub struct Renderer {
    voxel_shader: VoxelShader,
    scheduler: FrameScheduler,
    command_pool: u64,
    swapchain: Swapchain,
    vk_context: VkContext,
    phase: FramePhase,
}

impl View for Renderer {
    type V = RendererView;

    closed spec fn view(&self) -> RendererView {
        RendererView {
            phase: self.phase,
            slots: self.scheduler.slots(),
            cursor: self.scheduler.cursor(),
            command_pool: self.command_pool,
            swapchain: self.swapchain,
            vk_context: self.vk_context,
            voxel_shader: self.voxel_shader@,
        }
    }
}

impl Renderer {
    /// Well-formedness: every method needs it and every method keeps it.
    pub closed spec fn wf(&self) -> bool {
        &&& self.scheduler.wf()
        &&& self.scheduler.slots().len() == MAX_FRAMES_IN_FLIGHT
        &&& self.voxel_shader.wf()
        &&& self.swapchain.wf()
    }

    /// Well-formedness seen from outside: as many slots as frames in flight,
    /// the cursor on one of them, a view for every chain image.
    pub proof fn lemma_view_wf(&self)
        requires
            self.wf(),
        ensures
            self@.slots.len() == MAX_FRAMES_IN_FLIGHT,
            self@.cursor < self@.slots.len(),
            self@.swapchain.wf(),
            self@.voxel_shader.wf(),
    {
        self.voxel_shader.lemma_view_wf();
    }

    /// Puts a renderer together from its parts, between frames and with the
    /// first slot next. There must be exactly [`MAX_FRAMES_IN_FLIGHT`] slots
    /// and a view for every image of the chain; otherwise there is no
    /// renderer.
    pub fn new(
        vk_context: VkContext,
        swapchain: Swapchain,
        command_pool: u64,
        sync_objects: Vec<SyncObject>,
        voxel_shader: VoxelShader,
    ) -> (renderer: Option<Self>)
        requires
            voxel_shader.wf(),
        ensures
            renderer is Some <==> sync_objects@.len() == MAX_FRAMES_IN_FLIGHT && swapchain.wf(),
            renderer matches Some(r) ==> r.wf() && r@ == (RendererView {
                phase: FramePhase::Idle,
                slots: sync_objects@,
                cursor: 0,
                command_pool,
                swapchain,
                vk_context,
                voxel_shader: voxel_shader@,
            }),
    {
        if sync_objects.len() != MAX_FRAMES_IN_FLIGHT as usize {
            return None;
        }
        if swapchain.image_views.len() != swapchain.images.len() {
            return None;
        }
        match FrameScheduler::new(sync_objects) {
            Some(scheduler) => Some(
                Renderer {
                    voxel_shader,
                    scheduler,
                    command_pool,
                    swapchain,
                    vk_context,
                    phase: FramePhase::Idle,
                },
            ),
            None => None,
        }
    }

    /// The phase of the frame under way.
    pub fn phase(&self) -> (phase: FramePhase)
        ensures
            phase == self@.phase,
    {
        self.phase
    }

    /// The presentable image chain.
    pub fn swapchain(&self) -> (swapchain: &Swapchain)
        ensures
            *swapchain == self@.swapchain,
    {
        &self.swapchain
    }

    /// The graphics context.
    pub fn vk_context(&self) -> (vk_context: &VkContext)
        ensures
            *vk_context == self@.vk_context,
    {
        &self.vk_context
    }

    /// The voxel shader.
    pub fn voxel_shader(&self) -> (voxel_shader: &VoxelShader)
        ensures
            voxel_shader@ == self@.voxel_shader,
            self.wf() ==> voxel_shader.wf(),
    {
        &self.voxel_shader
    }

    /// The command pool.
    pub fn command_pool(&self) -> (command_pool: u64)
        ensures
            command_pool == self@.command_pool,
    {
        self.command_pool
    }

    /// Begins a frame: takes the next slot and asks to wait, without time
    /// limit, for the fence of that slot. While a frame is under way the
    /// call is rejected.
    pub fn begin_frame(&mut self) -> (action: FrameAction)
        requires
            old(self).wf(),
        ensures
            final(self).wf(),
            old(self)@.phase is Idle ==> {
                let slot = old(self)@.slots[old(self)@.cursor as int];
                &&& action == (FrameAction::WaitForFence {
                    fence: slot.in_flight_fence,
                    timeout: NO_TIMEOUT,
                })
                &&& final(self)@ == (RendererView {
                    phase: FramePhase::AwaitingFence { slot },
                    cursor: next_cursor(old(self)@.cursor, old(self)@.slots.len()),
                    ..old(self)@
                })
            },
            !(old(self)@.phase is Idle) ==> action == FrameAction::Rejected && final(self)@ == old(
                self,
            )@,
    {
        match self.phase {
            FramePhase::Idle => {
                let slot = self.scheduler.next_slot();
                self.phase = FramePhase::AwaitingFence { slot };
                FrameAction::WaitForFence { fence: slot.in_flight_fence, timeout: NO_TIMEOUT }
            },
            _ => FrameAction::Rejected,
        }
    }

    /// Takes in what the device did and says what to do next, as
    /// [`frame_step`] lays down. An out-of-date chain is noted on the chain.
    pub fn advance(&mut self, event: FrameEvent) -> (action: FrameAction)
        requires
            old(self).wf(),
        ensures
            final(self).wf(),
            action == frame_step(old(self)@.phase, event, old(self)@.swapchain.handle).1,
            final(self)@ == (RendererView {
                phase: frame_step(old(self)@.phase, event, old(self)@.swapchain.handle).0,
                swapchain: Swapchain {
                    out_of_date: old(self)@.swapchain.out_of_date || reports_stale(
                        old(self)@.phase,
                        event,
                    ),
                    ..old(self)@.swapchain
                },
                ..old(self)@
            }),
    {
        match (self.phase, event) {
            (FramePhase::AwaitingFence { slot }, FrameEvent::FenceSignaled) => {
                self.phase = FramePhase::AwaitingReset { slot };
                FrameAction::ResetFence { fence: slot.in_flight_fence }
            },
            (FramePhase::AwaitingReset { slot }, FrameEvent::FenceReset) => {
                self.phase = FramePhase::AwaitingImage { slot };
                FrameAction::AcquireImage {
                    swapchain: self.swapchain.handle,
                    semaphore: slot.image_available_semaphore,
                    timeout: NO_TIMEOUT,
                }
            },
            (FramePhase::AwaitingImage { slot }, FrameEvent::ImageAcquired(answer)) => {
                match self.swapchain.acquire_next_image_index(answer) {
                    Ok(Some(image_index)) => {
                        self.phase = FramePhase::Recording { slot, image_index };
                        FrameAction::Record { image_index }
                    },
                    Ok(None) => {
                        self.phase = FramePhase::Idle;
                        FrameAction::RecreateSwapchain
                    },
                    Err(error) => {
                        self.phase = FramePhase::Idle;
                        FrameAction::Fail { error }
                    },
                }
            },
            (FramePhase::AwaitingSubmit { slot, image_index }, FrameEvent::Submitted) => {
                self.phase = FramePhase::AwaitingPresent { slot, image_index };
                FrameAction::Present {
                    swapchain: self.swapchain.handle,
                    wait_semaphore: slot.queue_complete_semaphore,
                    image_index,
                }
            },
            (FramePhase::AwaitingPresent { slot, image_index }, FrameEvent::Presented(answer)) => {
                match self.swapchain.present(answer) {
                    Ok(true) => {
                        self.phase = FramePhase::Idle;
                        FrameAction::Finished
                    },
                    Ok(false) => {
                        self.phase = FramePhase::Idle;
                        FrameAction::RecreateSwapchain
                    },
                    Err(error) => {
                        self.phase = FramePhase::Idle;
                        FrameAction::Fail { error }
                    },
                }
            },
            _ => FrameAction::Rejected,
        }
    }

    /// Ends the recording of the frame and asks for its submission: the work
    /// waits for the image to be available and signals both the completion
    /// semaphore and the fence of the slot. Outside a recording the call is
    /// rejected.
    pub fn end_frame(&mut self) -> (action: FrameAction)
        requires
            old(self).wf(),
        ensures
            final(self).wf(),
            old(self)@.phase matches FramePhase::Recording { slot, image_index } ==> {
                &&& action == (FrameAction::Submit {
                    wait_semaphore: slot.image_available_semaphore,
                    signal_semaphore: slot.queue_complete_semaphore,
                    fence: slot.in_flight_fence,
                })
                &&& final(self)@ == (RendererView {
                    phase: FramePhase::AwaitingSubmit { slot, image_index },
                    ..old(self)@
                })
            },
            !(old(self)@.phase is Recording) ==> action == FrameAction::Rejected && final(self)@
                == old(self)@,
    {
        match self.phase {
            FramePhase::Recording { slot, image_index } => {
                self.phase = FramePhase::AwaitingSubmit { slot, image_index };
                FrameAction::Submit {
                    wait_semaphore: slot.image_available_semaphore,
                    signal_semaphore: slot.queue_complete_semaphore,
                    fence: slot.in_flight_fence,
                }
            },
            _ => FrameAction::Rejected,
        }
    }

    /// Puts a newly created chain in the place of the old one, which the
    /// caller has destroyed with the device idle. This is only possible
    /// between frames and with a chain that has a view for every image; the
    /// answer says whether it was done.
    pub fn recreate_swapchain(&mut self, swapchain: Swapchain) -> (done: bool)
        requires
            old(self).wf(),
        ensures
            final(self).wf(),
            done == (old(self)@.phase is Idle && swapchain.wf()),
            done ==> final(self)@ == (RendererView { swapchain, ..old(self)@ }),
            done ==> final(self)@.swapchain.image_views@.len() == swapchain.images@.len(),
            !done ==> final(self)@ == old(self)@,
    {
        match self.phase {
            FramePhase::Idle => {
                if swapchain.image_views.len() == swapchain.images.len() {
                    self.swapchain = swapchain;
                    true
                } else {
                    false
                }
            },
            _ => false,
        }
    }

    /// Registers an instance with the voxel shader, see
    /// [`VoxelShader::allocate_instance`].
    pub fn allocate_instance(&mut self, descriptor_sets: Vec<u64>) -> (handle: Result<
        u32,
        AllocationError,
    >)
        requires
            old(self).wf(),
        ensures
            final(self).wf(),
            handle == old(self)@.voxel_shader.allocation_outcome(descriptor_sets),
            final(self)@ == (RendererView {
                voxel_shader: old(self)@.voxel_shader.allocate_instance(descriptor_sets),
                ..old(self)@
            }),
    {
        self.voxel_shader.allocate_instance(descriptor_sets)
    }

    /// Releases an instance of the voxel shader, see
    /// [`VoxelShader::release_instance`].
    pub fn release_instance(&mut self, id: u32) -> (instance: Option<VoxelShaderInstance>)
        requires
            old(self).wf(),
        ensures
            final(self).wf(),
            final(self)@ == (RendererView {
                voxel_shader: old(self)@.voxel_shader.release_instance(id),
                ..old(self)@
            }),
            old(self)@.voxel_shader.instances.is_live(id as int) ==> instance == Some(
                old(self)@.voxel_shader.instances.slots[id as int]->0,
            ),
            !old(self)@.voxel_shader.instances.is_live(id as int) ==> instance is None,
    {
        self.voxel_shader.release_instance(id)
    }

    /// What to destroy when the renderer goes away, in order: what belongs
    /// to the voxel shader, the slots of the frames in flight, the command
    /// pool, the chain with its views, and last the context.
    pub fn destroy(&mut self) -> (teardown: Vec<Resource>)
        requires
            old(self).wf(),
        ensures
            final(self).wf(),
            teardown@ == renderer_teardown(old(self)@),
            final(self)@ == (RendererView {
                vk_context: VkContext { debug_report_callback: None, ..old(self)@.vk_context },
                ..old(self)@
            }),
    {
        let mut teardown = self.voxel_shader.destroy();
        let mut slots = self.scheduler.destroy();
        teardown.append(&mut slots);
        teardown.push(Resource::CommandPool(self.command_pool));
        let mut chain = self.swapchain.destroy();
        teardown.append(&mut chain);
        let mut context = self.vk_context.free();
        teardown.append(&mut context);
        teardown
    }
}

/// The teardown of the renderer: the voxel shader, the slots, the command
/// pool, the chain, the context.
pub open spec fn renderer_teardown(renderer: RendererView) -> Seq<Resource> {
    shader_teardown(renderer.voxel_shader) + sync_objects_teardown(renderer.slots)
        + seq![Resource::CommandPool(renderer.command_pool)] + swapchain_teardown(
        renderer.swapchain.image_views@,
        renderer.swapchain.handle,
    ) + context_teardown(renderer.vk_context)
}

} // verus!
