use vstd::prelude::*;

use crate::resources::{
    record_targets, teardown_steps, Extent, RecordTarget, ResourceModel, ResourceSet, Teardown,
};
use crate::sync_registry::{
    sync_teardown_steps, with_fresh_images, RegistryModel, SyncError, SyncRegistry,
};
use crate::sync_usage::{FenceUsage, SemaphoreUsage};

verus! {

/// Where the coordinator stands within the per-frame protocol.
#[derive(Debug, Clone, Copy, PartialEq, Eq, Structural)]
pub enum Phase {
    /// The current resource set waits for its command buffers to be recorded.
    Recording,
    Idle,
    WaitingOnSlotFence,
    Acquiring,
    /// Waiting for the previous user of the acquired image to finish.
    WaitingOnImageFence(usize),
    Submitting(usize),
    Presenting(usize),
    Rebuilding,
}

/// What acquiring the next swapchain image gave.
#[derive(Debug, Clone, Copy, PartialEq, Eq, Structural)]
pub enum AcquireResult {
    Image(usize),
    OutOfDate,
}

/// What presenting an image gave.
#[derive(Debug, Clone, Copy, PartialEq, Eq, Structural)]
pub enum PresentResult {
    Presented,
    /// Shown, but the swapchain no longer matches the surface well.
    Suboptimal,
    OutOfDate,
}

/// The device work the caller must do next, then report back.
#[derive(Debug, Clone, PartialEq, Eq)]
pub enum Action {
    /// Block, without timeout, until the fence is signalled; then `fence_signaled`.
    WaitForFence(u64),
    /// Acquire the next image of `swapchain`, signalling `semaphore`; then `acquired`.
    AcquireImage { swapchain: u64, semaphore: u64 },
    /// Reset `fence`, then submit `command_buffer` waiting on `wait_semaphore`
    /// and signalling `signal_semaphore` and `fence`; then `submitted`.
    Submit { fence: u64, command_buffer: u64, wait_semaphore: u64, signal_semaphore: u64 },
    /// Present `image` of `swapchain` once `wait_semaphore` is signalled; then `presented`.
    Present { swapchain: u64, image: usize, wait_semaphore: u64 },
    /// Run `teardown` in order, build a new resource set against the surface,
    /// then `rebuilt`.
    Rebuild { teardown: Vec<Teardown>, extent: Extent },
    /// Record every target, then `recorded`.
    Record(Vec<RecordTarget>),
    /// This frame is over.
    FrameDone,
    /// The surface has zero area: the rebuild waits for a later frame.
    Suspended,
}

/// Why the coordinator refused a call.
#[derive(Debug, Clone, Copy, PartialEq, Eq, Structural)]
pub enum FrameError {
    /// The call does not belong to the current phase.
    OutOfOrder,
    /// The presentation engine named an image the swapchain does not have.
    ImageOutOfRange,
}

/// Why a coordinator could not be set up.
#[derive(Debug, Clone, Copy, PartialEq, Eq, Structural)]
pub enum InitError {
    /// At least one frame slot is needed.
    NoFrameSlots,
    Sync(SyncError),
}

/// The content of a coordinator.
pub ghost struct CoordinatorModel {
    pub phase: Phase,
    pub slot: nat,
    pub frames: nat,
    pub registry: RegistryModel,
    pub resources: ResourceModel,
    /// The surface size last reported.
    pub surface: Extent,
    pub pending_rebuild: bool,
    /// Per slot: a submission from it has not yet been seen to finish.
    pub outstanding: Seq<bool>,
    /// Counts the resource sets installed; it identifies the current one.
    pub generation: u64,
}

pub open spec fn count_true(s: Seq<bool>) -> nat
    decreases s.len(),
{
    if s.len() == 0 {
        0
    } else {
        count_true(s.drop_last()) + if s.last() {
            1nat
        } else {
            0nat
        }
    }
}

pub open spec fn next_slot(slot: nat, frames: nat) -> nat {
    (slot + 1) % frames
}

pub open spec fn next_generation(g: u64) -> u64 {
    if g == u64::MAX {
        0
    } else {
        (g + 1) as u64
    }
}

impl CoordinatorModel {
    /// Submissions made and not yet seen to finish.
    pub open spec fn in_flight(self) -> nat {
        count_true(self.outstanding)
    }

    pub open spec fn slot_fence(self) -> u64 {
        self.registry.slot_fence(self.slot as usize)
    }

    pub open spec fn suspended(self) -> bool {
        self.phase == Phase::Idle && self.pending_rebuild && self.surface.zero_area()
    }

    pub open spec fn valid(self) -> bool {
        &&& 1 <= self.frames <= 255
        &&& self.registry.frames == self.frames
        &&& self.slot < self.frames
        &&& self.outstanding.len() == self.frames
        &&& self.registry.valid()
        &&& self.resources.consistent()
        &&& self.registry.image_count == self.resources.image_count()
        &&& match self.phase {
            Phase::Acquiring => !self.outstanding[self.slot as int],
            Phase::WaitingOnImageFence(i) => {
                &&& i < self.resources.image_count()
                &&& !self.outstanding[self.slot as int]
                &&& self.registry.image_fence(i) is Some
            },
            Phase::Submitting(i) => {
                &&& self.outstanding[self.slot as int]
                &&& self.registry.holds(i, self.slot as usize)
            },
            Phase::Presenting(i) => {
                &&& self.outstanding[self.slot as int]
                &&& self.registry.holds(i, self.slot as usize)
            },
            _ => true,
        }
    }

    /// This model once the frame's present was issued: back to idle, on the next slot.
    pub open spec fn advanced(self) -> CoordinatorModel {
        CoordinatorModel { phase: Phase::Idle, slot: next_slot(self.slot, self.frames), ..self }
    }

    /// This model once the surface reported `extent`.
    pub open spec fn resized(self, extent: Extent) -> CoordinatorModel {
        CoordinatorModel { surface: extent, pending_rebuild: true, ..self }
    }

    /// This model once `set` replaced the resource set: the image fences
    /// start over, the idle device has finished every submission, and the
    /// new set is the next generation, waiting to be recorded.
    pub open spec fn rebuilt_with(self, set: ResourceModel) -> CoordinatorModel {
        CoordinatorModel {
            phase: Phase::Recording,
            registry: with_fresh_images(self.registry, set.image_count()),
            resources: set,
            outstanding: Seq::new(self.frames, |s: int| false),
            generation: next_generation(self.generation),
            ..self
        }
    }

    /// This model after the swapchain was found stale: rebuild now, or, while
    /// the surface has zero area, keep the rebuild pending.
    pub open spec fn invalidated(self) -> CoordinatorModel {
        if self.surface.zero_area() {
            CoordinatorModel { phase: Phase::Idle, pending_rebuild: true, ..self }
        } else {
            CoordinatorModel { phase: Phase::Rebuilding, pending_rebuild: false, ..self }
        }
    }

    /// The action that goes with `invalidated`.
    pub open spec fn invalidation_action(self, a: Action) -> bool {
        if self.surface.zero_area() {
            a == Action::Suspended
        } else {
            a matches Action::Rebuild { teardown, extent } && teardown@ == teardown_steps(
                self.resources,
            ) && extent == self.surface
        }
    }

    /// The submission of this slot's frame for image `image`.
    pub open spec fn submit_action(self, image: usize) -> Action {
        Action::Submit {
            fence: self.slot_fence(),
            command_buffer: self.resources.command_buffers[image as int],
            wait_semaphore: self.registry.semaphores[SemaphoreUsage::ImageAvailable(
                self.slot as usize,
            )],
            signal_semaphore: self.registry.semaphores[SemaphoreUsage::RenderFinished(
                self.slot as usize,
            )],
        }
    }

    /// This model once image `image` is claimed by the current slot and its
    /// submission is issued.
    pub open spec fn claimed(self, image: usize) -> CoordinatorModel {
        CoordinatorModel {
            phase: Phase::Submitting(image),
            registry: RegistryModel {
                fences: self.registry.fences.insert(
                    FenceUsage::ImageAvailable(image),
                    Some(self.slot_fence()),
                ),
                ..self.registry
            },
            outstanding: self.outstanding.update(self.slot as int, true),
            ..self
        }
    }
}

/// The count of set entries never exceeds the length.
pub proof fn lemma_count_true_bound(s: Seq<bool>)
    ensures
        count_true(s) <= s.len(),
    decreases s.len(),
{
    if s.len() > 0 {
        lemma_count_true_bound(s.drop_last());
    }
}

/// Everything `shutdown` destroys, in order: the resource set, the sync
/// objects, then the device.
pub open spec fn shutdown_steps(m: CoordinatorModel) -> Seq<Teardown> {
    teardown_steps(m.resources) + sync_teardown_steps(m.registry) + seq![Teardown::DestroyDevice]
}

/// The frame pipeline coordinator: it decides every wait, acquire, submit,
/// present and rebuild, and the caller carries them out on the device.
pub struct Coordinator {
    frames: usize,
    slot: usize,
    phase: Phase,
    registry: SyncRegistry,
    resources: ResourceSet,
    surface: Extent,
    pending_rebuild: bool,
    outstanding: Vec<bool>,
    generation: u64,
}

impl View for Coordinator {
    type V = CoordinatorModel;

    closed spec fn view(&self) -> CoordinatorModel {
        CoordinatorModel {
            phase: self.phase,
            slot: self.slot as nat,
            frames: self.frames as nat,
            registry: self.registry@,
            resources: self.resources@,
            surface: self.surface,
            pending_rebuild: self.pending_rebuild,
            outstanding: self.outstanding@,
            generation: self.generation,
        }
    }
}

fn all_clear(n: usize) -> (r: Vec<bool>)
    ensures
        r@ == Seq::new(n as nat, |s: int| false),
{
    let mut r: Vec<bool> = Vec::new();
    let mut k: usize = 0;
    while k < n
        invariant
            k <= n,
            r@ =~= Seq::new(k as nat, |s: int| false),
        decreases n - k,
    {
        r.push(false);
        k = k + 1;
    }
    r
}

impl Coordinator {
    pub closed spec fn wf(&self) -> bool {
        &&& self.registry.wf()
        &&& self@.valid()
    }

    /// Every coordinator's model satisfies the protocol invariant, so the
    /// laws stated over models apply to it.
    pub proof fn lemma_valid(&self)
        requires
            self.wf(),
        ensures
            self@.valid(),
    {
    }

    /// Sets up `frames_in_flight` slots, slot `s` using `image_available[s]`,
    /// `render_finished[s]` and `slot_fences[s]` (created signalled), over the
    /// resource set `resources`, whose command buffers are still to be recorded.
    pub fn initialize(
        frames_in_flight: u8,
        image_available: Vec<u64>,
        render_finished: Vec<u64>,
        slot_fences: Vec<u64>,
        resources: ResourceSet,
        surface: Extent,
    ) -> (r: Result<Coordinator, InitError>)
        ensures
            frames_in_flight == 0 ==> r == Err::<Coordinator, InitError>(InitError::NoFrameSlots),
            frames_in_flight > 0 && !(slot_fences@.len() == frames_in_flight
                && image_available@.len() == frames_in_flight && render_finished@.len()
                == frames_in_flight) ==> r == Err::<Coordinator, InitError>(
                InitError::Sync(SyncError::HandleCountMismatch),
            ),
            frames_in_flight > 0 && slot_fences@.len() == frames_in_flight
                && image_available@.len() == frames_in_flight && render_finished@.len()
                == frames_in_flight && !crate::sync_registry::distinct(slot_fences@) ==> r
                == Err::<Coordinator, InitError>(InitError::Sync(SyncError::DuplicateFence)),
            frames_in_flight > 0 && slot_fences@.len() == frames_in_flight
                && image_available@.len() == frames_in_flight && render_finished@.len()
                == frames_in_flight && crate::sync_registry::distinct(slot_fences@) ==> {
                &&& r is Ok
                &&& r->Ok_0.wf()
                &&& r->Ok_0@ == CoordinatorModel {
                    phase: Phase::Recording,
                    slot: 0,
                    frames: frames_in_flight as nat,
                    registry: crate::sync_registry::initial_model(
                        image_available@,
                        render_finished@,
                        slot_fences@,
                        resources@.image_count(),
                    ),
                    resources: resources@,
                    surface,
                    pending_rebuild: false,
                    outstanding: Seq::new(frames_in_flight as nat, |s: int| false),
                    generation: 0,
                }
            },
    {
        proof {
            use_type_invariant(&resources);
        }
        if frames_in_flight == 0 {
            return Err(InitError::NoFrameSlots);
        }
        let frames = frames_in_flight as usize;
        if slot_fences.len() != frames || image_available.len() != frames
            || render_finished.len() != frames {
            return Err(InitError::Sync(SyncError::HandleCountMismatch));
        }
        let image_count = resources.image_count();
        let registry = match SyncRegistry::new(
            image_available,
            render_finished,
            slot_fences,
            image_count,
        ) {
            Ok(reg) => reg,
            Err(e) => {
                return Err(InitError::Sync(e));
            },
        };
        let outstanding = all_clear(frames);
        let c = Coordinator {
            frames,
            slot: 0,
            phase: Phase::Recording,
            registry,
            resources,
            surface,
            pending_rebuild: false,
            outstanding,
            generation: 0,
        };
        proof {
            c.registry.lemma_wf_valid();
        }
        Ok(c)
    }

    pub fn phase(&self) -> (r: Phase)
        ensures
            r == self@.phase,
    {
        self.phase
    }

    pub fn slot(&self) -> (r: usize)
        ensures
            r == self@.slot,
    {
        self.slot
    }

    pub fn frames_in_flight(&self) -> (r: usize)
        ensures
            r == self@.frames,
    {
        self.frames
    }

    pub fn generation(&self) -> (r: u64)
        ensures
            r == self@.generation,
    {
        self.generation
    }

    pub fn surface(&self) -> (r: Extent)
        ensures
            r == self@.surface,
    {
        self.surface
    }

    pub fn rebuild_pending(&self) -> (r: bool)
        ensures
            r == self@.pending_rebuild,
    {
        self.pending_rebuild
    }

    /// Idle with a rebuild pending on a zero-area surface.
    pub fn is_suspended(&self) -> (r: bool)
        ensures
            r == self@.suspended(),
    {
        self.phase == Phase::Idle && self.pending_rebuild && self.surface.is_zero_area()
    }

    pub fn registry(&self) -> (r: &SyncRegistry)
        ensures
            r@ == self@.registry,
    {
        &self.registry
    }

    pub fn resources(&self) -> (r: &ResourceSet)
        ensures
            r@ == self@.resources,
    {
        &self.resources
    }

    /// How many submissions are issued and not yet seen to finish.
    pub fn in_flight(&self) -> (r: usize)
        requires
            self.wf(),
        ensures
            r == self@.in_flight(),
    {
        let mut n: usize = 0;
        let mut k: usize = 0;
        while k < self.outstanding.len()
            invariant
                k <= self.outstanding@.len(),
                n == count_true(self.outstanding@.subrange(0, k as int)),
                n <= k,
            decreases self.outstanding@.len() - k,
        {
            proof {
                assert(self.outstanding@.subrange(0, k + 1).drop_last() =~= self.outstanding@.subrange(
                    0,
                    k as int,
                ));
            }
            if self.outstanding[k] {
                n = n + 1;
            }
            k = k + 1;
        }
        proof {
            assert(self.outstanding@.subrange(0, self.outstanding@.len() as int) =~= self.outstanding@);
        }
        n
    }

    /// Records that the surface now measures `extent`; the swapchain is
    /// rebuilt at the start of the next frame.
    pub fn notify_resize(&mut self, extent: Extent)
        requires
            old(self).wf(),
        ensures
            final(self).wf(),
            final(self)@ == old(self)@.resized(extent),
    {
        self.surface = extent;
        self.pending_rebuild = true;
    }

    fn invalidate(&mut self) -> (a: Action)
        requires
            old(self).wf(),
        ensures
            final(self).wf(),
            final(self)@ == old(self)@.invalidated(),
            old(self)@.invalidation_action(a),
    {
        if self.surface.is_zero_area() {
            self.phase = Phase::Idle;
            self.pending_rebuild = true;
            Action::Suspended
        } else {
            self.phase = Phase::Rebuilding;
            self.pending_rebuild = false;
            Action::Rebuild { teardown: self.resources.teardown(), extent: self.surface }
        }
    }

    fn claim(&mut self, image: usize) -> (a: Action)
        requires
            old(self).wf(),
            image < old(self)@.resources.image_count(),
            !old(self)@.outstanding[old(self)@.slot as int],
        ensures
            final(self).wf(),
            final(self)@ == old(self)@.claimed(image),
            a == old(self)@.submit_action(image),
    {
        let slot = self.slot;
        let fence = self.registry.slot_fence(slot);
        let command_buffer = self.resources.command_buffer(image);
        let wait_semaphore = self.registry.image_available(slot);
        let signal_semaphore = self.registry.render_finished(slot);
        let res = self.registry.rebind(FenceUsage::ImageAvailable(image), slot);
        self.outstanding.set(slot, true);
        self.phase = Phase::Submitting(image);
        proof {
            self.registry.lemma_wf_valid();
            assert(self@.registry.fences[FenceUsage::CommandBufferExec(slot)] == old(
                self,
            )@.registry.fences[FenceUsage::CommandBufferExec(slot)]);
            assert(self@ == old(self)@.claimed(image));
        }
        Action::Submit { fence, command_buffer, wait_semaphore, signal_semaphore }
    }

    /// Starts a frame. With a rebuild pending the frame is spent on it, or,
    /// on a zero-area surface, is skipped; otherwise the slot's fence is
    /// waited on first.
    pub fn draw_frame(&mut self) -> (r: Result<Action, FrameError>)
        requires
            old(self).wf(),
        ensures
            final(self).wf(),
            old(self)@.phase != Phase::Idle ==> r == Err::<Action, FrameError>(
                FrameError::OutOfOrder,
            ) && final(self)@ == old(self)@,
            old(self)@.phase == Phase::Idle && old(self)@.pending_rebuild ==> final(self)@ == old(
                self,
            )@.invalidated() && (r matches Ok(a) && old(self)@.invalidation_action(a)),
            old(self)@.phase == Phase::Idle && !old(self)@.pending_rebuild ==> final(self)@ == (
            CoordinatorModel { phase: Phase::WaitingOnSlotFence, ..old(self)@ }) && r == Ok::<
                Action,
                FrameError,
            >(Action::WaitForFence(old(self)@.slot_fence())),
    {
        if self.phase != Phase::Idle {
            return Err(FrameError::OutOfOrder);
        }
        if self.pending_rebuild {
            return Ok(self.invalidate());
        }
        self.phase = Phase::WaitingOnSlotFence;
        Ok(Action::WaitForFence(self.registry.slot_fence(self.slot)))
    }

    /// The fence last handed out in `WaitForFence` is signalled.
    pub fn fence_signaled(&mut self) -> (r: Result<Action, FrameError>)
        requires
            old(self).wf(),
        ensures
            final(self).wf(),
            !(old(self)@.phase is WaitingOnSlotFence || old(self)@.phase is WaitingOnImageFence)
                ==> r == Err::<Action, FrameError>(FrameError::OutOfOrder) && final(self)@ == old(
                self,
            )@,
            old(self)@.phase is WaitingOnSlotFence ==> final(self)@ == (CoordinatorModel {
                phase: Phase::Acquiring,
                outstanding: old(self)@.outstanding.update(old(self)@.slot as int, false),
                ..old(self)@
            }) && r == Ok::<Action, FrameError>(
                Action::AcquireImage {
                    swapchain: old(self)@.resources.swapchain,
                    semaphore: old(self)@.registry.semaphores[SemaphoreUsage::ImageAvailable(
                        old(self)@.slot as usize,
                    )],
                },
            ),
            old(self)@.phase matches Phase::WaitingOnImageFence(i) ==> exists|owner: usize|
                {
                    &&& old(self)@.registry.holds(i, owner)
                    &&& final(self)@ == (CoordinatorModel {
                        outstanding: old(self)@.outstanding.update(owner as int, false),
                        ..old(self)@
                    }).claimed(i)
                    &&& r == Ok::<Action, FrameError>(old(self)@.submit_action(i))
                },
    {
        match self.phase {
            Phase::WaitingOnSlotFence => {
                self.outstanding.set(self.slot, false);
                self.phase = Phase::Acquiring;
                let semaphore = self.registry.image_available(self.slot);
                Ok(Action::AcquireImage { swapchain: self.resources.swapchain(), semaphore })
            },
            Phase::WaitingOnImageFence(image) => {
                let owner = self.registry.owner(image);
                match owner {
                    Some(s) => {
                        self.outstanding.set(s, false);
                        let ghost cleared = self@;
                        let a = self.claim(image);
                        proof {
                            assert(cleared == (CoordinatorModel {
                                outstanding: old(self)@.outstanding.update(s as int, false),
                                ..old(self)@
                            }));
                        }
                        Ok(a)
                    },
                    // An image fence that is waited on always has an owner.
                    None => Err(FrameError::OutOfOrder),
                }
            },
            _ => Err(FrameError::OutOfOrder),
        }
    }

    /// The image acquisition handed out in `AcquireImage` finished.
    pub fn acquired(&mut self, result: AcquireResult) -> (r: Result<Action, FrameError>)
        requires
            old(self).wf(),
        ensures
            final(self).wf(),
            old(self)@.phase != Phase::Acquiring ==> r == Err::<Action, FrameError>(
                FrameError::OutOfOrder,
            ) && final(self)@ == old(self)@,
            old(self)@.phase == Phase::Acquiring && result == AcquireResult::OutOfDate
                ==> final(self)@ == old(self)@.invalidated() && (r matches Ok(a) && old(
                self,
            )@.invalidation_action(a)),
            old(self)@.phase == Phase::Acquiring ==> (result matches AcquireResult::Image(i) ==> {
                &&& i >= old(self)@.resources.image_count() ==> r == Err::<Action, FrameError>(
                    FrameError::ImageOutOfRange,
                ) && final(self)@ == old(self)@
                &&& i < old(self)@.resources.image_count() && old(self)@.registry.image_fence(i) is Some
                    ==> final(self)@ == (CoordinatorModel {
                    phase: Phase::WaitingOnImageFence(i),
                    ..old(self)@
                }) && r == Ok::<Action, FrameError>(
                    Action::WaitForFence(old(self)@.registry.image_fence(i)->0),
                )
                &&& i < old(self)@.resources.image_count() && old(self)@.registry.image_fence(i) is None
                    ==> final(self)@ == old(self)@.claimed(i) && r == Ok::<Action, FrameError>(
                    old(self)@.submit_action(i),
                )
            }),
    {
        if self.phase != Phase::Acquiring {
            return Err(FrameError::OutOfOrder);
        }
        match result {
            AcquireResult::OutOfDate => Ok(self.invalidate()),
            AcquireResult::Image(image) => {
                if image >= self.resources.image_count() {
                    return Err(FrameError::ImageOutOfRange);
                }
                match self.registry.image_fence(image) {
                    Some(h) => {
                        self.phase = Phase::WaitingOnImageFence(image);
                        Ok(Action::WaitForFence(h))
                    },
                    None => Ok(self.claim(image)),
                }
            },
        }
    }

    /// The submission handed out in `Submit` was made.
    pub fn submitted(&mut self) -> (r: Result<Action, FrameError>)
        requires
            old(self).wf(),
        ensures
            final(self).wf(),
            !(old(self)@.phase is Submitting) ==> r == Err::<Action, FrameError>(
                FrameError::OutOfOrder,
            ) && final(self)@ == old(self)@,
            old(self)@.phase matches Phase::Submitting(i) ==> final(self)@ == (CoordinatorModel {
                phase: Phase::Presenting(i),
                ..old(self)@
            }) && r == Ok::<Action, FrameError>(
                Action::Present {
                    swapchain: old(self)@.resources.swapchain,
                    image: i,
                    wait_semaphore: old(self)@.registry.semaphores[SemaphoreUsage::RenderFinished(
                        old(self)@.slot as usize,
                    )],
                },
            ),
    {
        match self.phase {
            Phase::Submitting(image) => {
                self.phase = Phase::Presenting(image);
                let wait_semaphore = self.registry.render_finished(self.slot);
                Ok(Action::Present { swapchain: self.resources.swapchain(), image, wait_semaphore })
            },
            _ => Err(FrameError::OutOfOrder),
        }
    }

    /// The present handed out in `Present` finished. The slot advances
    /// whatever the result; a suboptimal or out-of-date swapchain is rebuilt.
    pub fn presented(&mut self, result: PresentResult) -> (r: Result<Action, FrameError>)
        requires
            old(self).wf(),
        ensures
            final(self).wf(),
            !(old(self)@.phase is Presenting) ==> r == Err::<Action, FrameError>(
                FrameError::OutOfOrder,
            ) && final(self)@ == old(self)@,
            old(self)@.phase is Presenting && result == PresentResult::Presented ==> final(self)@
                == old(self)@.advanced() && r == Ok::<Action, FrameError>(Action::FrameDone),
            old(self)@.phase is Presenting && result != PresentResult::Presented ==> final(self)@
                == old(self)@.advanced().invalidated() && (r matches Ok(a) && old(
                self,
            )@.advanced().invalidation_action(a)),
    {
        match self.phase {
            Phase::Presenting(_) => {
                self.slot = (self.slot + 1) % self.frames;
                self.phase = Phase::Idle;
                match result {
                    PresentResult::Presented => Ok(Action::FrameDone),
                    _ => Ok(self.invalidate()),
                }
            },
            _ => Err(FrameError::OutOfOrder),
        }
    }

    /// The rebuild handed out in `Rebuild` produced `resources`: the old set
    /// is gone, the device went idle, and the new set awaits recording.
    pub fn rebuilt(&mut self, resources: ResourceSet) -> (r: Result<Action, FrameError>)
        requires
            old(self).wf(),
        ensures
            final(self).wf(),
            old(self)@.phase != Phase::Rebuilding ==> r == Err::<Action, FrameError>(
                FrameError::OutOfOrder,
            ) && final(self)@ == old(self)@,
            old(self)@.phase == Phase::Rebuilding ==> final(self)@ == old(self)@.rebuilt_with(
                resources@,
            ) && (r matches Ok(Action::Record(t)) && t@ == record_targets(resources@)),
    {
        if self.phase != Phase::Rebuilding {
            return Err(FrameError::OutOfOrder);
        }
        proof {
            use_type_invariant(&resources);
        }
        let targets = resources.record_targets();
        self.registry.reset_images(resources.image_count());
        self.resources = resources;
        self.outstanding = all_clear(self.frames);
        self.generation = if self.generation == u64::MAX {
            0
        } else {
            self.generation + 1
        };
        self.phase = Phase::Recording;
        proof {
            self.registry.lemma_wf_valid();
        }
        Ok(Action::Record(targets))
    }

    /// The recording handed out in `Record` is complete.
    pub fn recorded(&mut self) -> (r: Result<Action, FrameError>)
        requires
            old(self).wf(),
        ensures
            final(self).wf(),
            old(self)@.phase != Phase::Recording ==> r == Err::<Action, FrameError>(
                FrameError::OutOfOrder,
            ) && final(self)@ == old(self)@,
            old(self)@.phase == Phase::Recording ==> final(self)@ == (CoordinatorModel {
                phase: Phase::Idle,
                ..old(self)@
            }) && r == Ok::<Action, FrameError>(Action::FrameDone),
    {
        if self.phase != Phase::Recording {
            return Err(FrameError::OutOfOrder);
        }
        self.phase = Phase::Idle;
        Ok(Action::FrameDone)
    }

    /// Ends the coordinator: the steps that destroy the resource set, every
    /// sync object, then the device.
    pub fn shutdown(self) -> (r: Vec<Teardown>)
        requires
            self.wf(),
        ensures
            r@ == shutdown_steps(self@),
    {
        let mut steps = self.resources.teardown();
        let mut sync = self.registry.teardown();
        steps.append(&mut sync);
        steps.push(Teardown::DestroyDevice);
        steps
    }
}

} // verus!
