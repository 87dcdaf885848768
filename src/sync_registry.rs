use vstd::prelude::*;

use crate::resources::Teardown;
use crate::sync_usage::{FenceUsage, SemaphoreUsage};

verus! {

/// Why a registry operation was refused.
#[derive(Debug, Clone, Copy, PartialEq, Eq, Structural)]
pub enum SyncError {
    /// The usage was never registered: a programmer error that callers treat as fatal.
    Unregistered,
    /// The handles handed to the constructor do not match the number of frame slots.
    HandleCountMismatch,
    /// Two frame slots were given the same fence handle.
    DuplicateFence,
    /// Only the per-image "last used by" fences can be rebound.
    NotRebindable,
}

/// The mathematical content of a registry: what each registered usage maps to.
pub ghost struct RegistryModel {
    pub frames: nat,
    pub image_count: nat,
    pub semaphores: Map<SemaphoreUsage, u64>,
    /// `None` marks an image fence that is absent: no frame has touched that image yet.
    pub fences: Map<FenceUsage, Option<u64>>,
}

pub open spec fn semaphore_registered(u: SemaphoreUsage, frames: nat) -> bool {
    match u {
        SemaphoreUsage::ImageAvailable(s) => s < frames,
        SemaphoreUsage::RenderFinished(s) => s < frames,
    }
}

pub open spec fn fence_registered(u: FenceUsage, frames: nat, image_count: nat) -> bool {
    match u {
        FenceUsage::CommandBufferExec(s) => s < frames,
        FenceUsage::ImageAvailable(i) => i < image_count,
    }
}

pub open spec fn distinct(s: Seq<u64>) -> bool {
    forall|i: int, j: int| 0 <= i < j < s.len() ==> s[i] != s[j]
}

impl RegistryModel {
    /// The fence owned by frame slot `slot`.
    pub open spec fn slot_fence(self, slot: usize) -> u64 {
        self.fences[FenceUsage::CommandBufferExec(slot)]->0
    }

    /// The "last used by" entry of swapchain image `image`.
    pub open spec fn image_fence(self, image: usize) -> Option<u64> {
        self.fences[FenceUsage::ImageAvailable(image)]
    }

    /// Frame slot `slot` holds the "last used" fence of image `image`.
    pub open spec fn holds(self, image: usize, slot: usize) -> bool {
        &&& slot < self.frames
        &&& image < self.image_count
        &&& self.image_fence(image) == Some(self.slot_fence(slot))
    }

    /// The registry's invariant: exactly the usages of `frames` slots and
    /// `image_count` images are registered, every slot has a fence of its own,
    /// and an image entry is absent or holds the fence of some slot.
    pub open spec fn valid(self) -> bool {
        &&& forall|u: SemaphoreUsage|
            #[trigger] self.semaphores.contains_key(u) <==> semaphore_registered(u, self.frames)
        &&& forall|u: FenceUsage|
            #[trigger] self.fences.contains_key(u) <==> fence_registered(
                u,
                self.frames,
                self.image_count,
            )
        &&& forall|s: usize|
            s < self.frames ==> (#[trigger] self.fences[FenceUsage::CommandBufferExec(s)]) is Some
        &&& forall|s1: usize, s2: usize|
            s1 < self.frames && s2 < self.frames && s1 != s2 ==> #[trigger] self.slot_fence(s1)
                != #[trigger] self.slot_fence(s2)
        &&& forall|i: usize|
            i < self.image_count && (#[trigger] self.image_fence(i)) is Some ==> exists|s: usize|
                s < self.frames && self.image_fence(i) == Some(#[trigger] self.slot_fence(s))
    }
}

/// The registry a constructor produces: every slot usage bound to the
/// handle given for it, every image fence absent.
pub open spec fn initial_model(
    image_available: Seq<u64>,
    render_finished: Seq<u64>,
    slot_fences: Seq<u64>,
    image_count: nat,
) -> RegistryModel {
    let frames = slot_fences.len();
    RegistryModel {
        frames,
        image_count,
        semaphores: Map::new(
            |u: SemaphoreUsage| semaphore_registered(u, frames),
            |u: SemaphoreUsage|
                match u {
                    SemaphoreUsage::ImageAvailable(s) => image_available[s as int],
                    SemaphoreUsage::RenderFinished(s) => render_finished[s as int],
                },
        ),
        fences: Map::new(
            |u: FenceUsage| fence_registered(u, frames, image_count),
            |u: FenceUsage|
                match u {
                    FenceUsage::CommandBufferExec(s) => Some(slot_fences[s as int]),
                    FenceUsage::ImageAvailable(_) => None,
                },
        ),
    }
}

/// `m` with its image namespace replaced by `image_count` absent entries.
pub open spec fn with_fresh_images(m: RegistryModel, image_count: nat) -> RegistryModel {
    RegistryModel {
        image_count,
        fences: Map::new(
            |u: FenceUsage| fence_registered(u, m.frames, image_count),
            |u: FenceUsage|
                match u {
                    FenceUsage::CommandBufferExec(_) => m.fences[u],
                    FenceUsage::ImageAvailable(_) => None,
                },
        ),
        ..m
    }
}

/// Destruction of every sync object of `m`: image-available semaphores,
/// render-finished semaphores, then slot fences, each in slot order.
pub open spec fn sync_teardown_steps(m: RegistryModel) -> Seq<Teardown> {
    Seq::new(
        m.frames,
        |s: int| Teardown::DestroySemaphore(m.semaphores[SemaphoreUsage::ImageAvailable(s as usize)]),
    ) + Seq::new(
        m.frames,
        |s: int| Teardown::DestroySemaphore(m.semaphores[SemaphoreUsage::RenderFinished(s as usize)]),
    ) + Seq::new(m.frames, |s: int| Teardown::DestroyFence(m.slot_fence(s as usize)))
}

/// Fences and semaphores indexed by the role they play.
pub struct SyncRegistry {
    image_available: Vec<u64>,
    render_finished: Vec<u64>,
    slot_fences: Vec<u64>,
    image_fences: Vec<Option<u64>>,
}

impl View for SyncRegistry {
    type V = RegistryModel;

    closed spec fn view(&self) -> RegistryModel {
        let frames = self.slot_fences@.len();
        let image_count = self.image_fences@.len();
        RegistryModel {
            frames,
            image_count,
            semaphores: Map::new(
                |u: SemaphoreUsage| semaphore_registered(u, frames),
                |u: SemaphoreUsage|
                    match u {
                        SemaphoreUsage::ImageAvailable(s) => self.image_available@[s as int],
                        SemaphoreUsage::RenderFinished(s) => self.render_finished@[s as int],
                    },
            ),
            fences: Map::new(
                |u: FenceUsage| fence_registered(u, frames, image_count),
                |u: FenceUsage|
                    match u {
                        FenceUsage::CommandBufferExec(s) => Some(self.slot_fences@[s as int]),
                        FenceUsage::ImageAvailable(i) => self.image_fences@[i as int],
                    },
            ),
        }
    }
}

fn all_distinct(v: &Vec<u64>) -> (r: bool)
    ensures
        r == distinct(v@),
{
    let mut i: usize = 0;
    while i < v.len()
        invariant
            i <= v.len(),
            forall|a: int, b: int| 0 <= a < b < v.len() && a < i ==> v@[a] != v@[b],
        decreases v.len() - i,
    {
        let mut j: usize = i + 1;
        while j < v.len()
            invariant
                i < j <= v.len(),
                forall|a: int, b: int| 0 <= a < b < v.len() && a < i ==> v@[a] != v@[b],
                forall|b: int| i < b < j ==> v@[i as int] != v@[b],
            decreases v.len() - j,
        {
            if v[i] == v[j] {
                return false;
            }
            j = j + 1;
        }
        i = i + 1;
    }
    true
}

fn absent_entries(n: usize) -> (r: Vec<Option<u64>>)
    ensures
        r@.len() == n,
        forall|i: int| 0 <= i < n ==> r@[i] is None,
{
    let mut r: Vec<Option<u64>> = Vec::new();
    let mut k: usize = 0;
    while k < n
        invariant
            k <= n,
            r@.len() == k,
            forall|i: int| 0 <= i < k ==> r@[i] is None,
        decreases n - k,
    {
        r.push(None);
        k = k + 1;
    }
    r
}

impl SyncRegistry {
    pub closed spec fn wf(&self) -> bool {
        &&& self.slot_fences@.len() <= usize::MAX
        &&& self.image_available@.len() == self.slot_fences@.len()
        &&& self.render_finished@.len() == self.slot_fences@.len()
        &&& distinct(self.slot_fences@)
        &&& forall|i: int|
            0 <= i < self.image_fences@.len() && (#[trigger] self.image_fences@[i]) is Some
                ==> self.slot_fences@.contains(self.image_fences@[i]->0)
    }

    pub proof fn lemma_wf_valid(&self)
        requires
            self.wf(),
        ensures
            self@.valid(),
    {
        let m = self@;
        assert forall|s: usize| s < m.frames implies (#[trigger] m.fences[FenceUsage::CommandBufferExec(s)]) is Some by {
            assert(m.fences.contains_key(FenceUsage::CommandBufferExec(s)));
        }
        assert forall|s1: usize, s2: usize|
            s1 < m.frames && s2 < m.frames && s1 != s2 implies #[trigger] m.slot_fence(s1)
                != #[trigger] m.slot_fence(s2) by {
            assert(m.fences.contains_key(FenceUsage::CommandBufferExec(s1)));
            assert(m.fences.contains_key(FenceUsage::CommandBufferExec(s2)));
            if s1 < s2 {
                assert(self.slot_fences@[s1 as int] != self.slot_fences@[s2 as int]);
            } else {
                assert(self.slot_fences@[s2 as int] != self.slot_fences@[s1 as int]);
            }
        }
        assert forall|i: usize|
            i < m.image_count && (#[trigger] m.image_fence(i)) is Some implies exists|s: usize|
                s < m.frames && m.image_fence(i) == Some(#[trigger] m.slot_fence(s)) by {
            assert(m.fences.contains_key(FenceUsage::ImageAvailable(i)));
            assert(self.image_fences@[i as int] is Some);
            let h = self.image_fences@[i as int]->0;
            assert(self.slot_fences@.contains(h));
            let s = choose|s: int| 0 <= s < self.slot_fences@.len() && self.slot_fences@[s] == h;
            assert(m.fences.contains_key(FenceUsage::CommandBufferExec(s as usize)));
            assert(m.image_fence(i) == Some(m.slot_fence(s as usize)));
        }
    }

    /// Registers `frames` slots (the length of `slot_fences`) and `image_count`
    /// images. Slot `s` is bound to `image_available[s]`, `render_finished[s]`
    /// and `slot_fences[s]`; every image fence starts absent.
    pub fn new(
        image_available: Vec<u64>,
        render_finished: Vec<u64>,
        slot_fences: Vec<u64>,
        image_count: usize,
    ) -> (r: Result<SyncRegistry, SyncError>)
        ensures
            image_available@.len() != slot_fences@.len() || render_finished@.len()
                != slot_fences@.len() ==> r == Err::<SyncRegistry, SyncError>(
                SyncError::HandleCountMismatch,
            ),
            image_available@.len() == slot_fences@.len() && render_finished@.len()
                == slot_fences@.len() && !distinct(slot_fences@) ==> r == Err::<
                SyncRegistry,
                SyncError,
            >(SyncError::DuplicateFence),
            r is Ok ==> {
                let reg = r->Ok_0;
                &&& reg.wf()
                &&& reg@ == initial_model(
                    image_available@,
                    render_finished@,
                    slot_fences@,
                    image_count as nat,
                )
            },
            image_available@.len() == slot_fences@.len() && render_finished@.len()
                == slot_fences@.len() && distinct(slot_fences@) ==> r is Ok,
    {
        if image_available.len() != slot_fences.len() || render_finished.len()
            != slot_fences.len() {
            return Err(SyncError::HandleCountMismatch);
        }
        if !all_distinct(&slot_fences) {
            return Err(SyncError::DuplicateFence);
        }
        let image_fences = absent_entries(image_count);
        let reg = SyncRegistry { image_available, render_finished, slot_fences, image_fences };
        proof {
            assert(reg@.fences =~= initial_model(
                reg.image_available@,
                reg.render_finished@,
                reg.slot_fences@,
                image_count as nat,
            ).fences);
            assert(reg@.semaphores =~= initial_model(
                reg.image_available@,
                reg.render_finished@,
                reg.slot_fences@,
                image_count as nat,
            ).semaphores);
        }
        Ok(reg)
    }

    pub fn frames_in_flight(&self) -> (r: usize)
        ensures
            r == self@.frames,
    {
        self.slot_fences.len()
    }

    pub fn image_count(&self) -> (r: usize)
        ensures
            r == self@.image_count,
    {
        self.image_fences.len()
    }

    /// The semaphore bound to `usage`, or `Unregistered`.
    pub fn semaphore(&self, usage: SemaphoreUsage) -> (r: Result<u64, SyncError>)
        requires
            self.wf(),
        ensures
            self@.semaphores.contains_key(usage) ==> r == Ok::<u64, SyncError>(
                self@.semaphores[usage],
            ),
            !self@.semaphores.contains_key(usage) ==> r == Err::<u64, SyncError>(
                SyncError::Unregistered,
            ),
    {
        match usage {
            SemaphoreUsage::ImageAvailable(s) => {
                if s < self.image_available.len() {
                    Ok(self.image_available[s])
                } else {
                    Err(SyncError::Unregistered)
                }
            },
            SemaphoreUsage::RenderFinished(s) => {
                if s < self.render_finished.len() {
                    Ok(self.render_finished[s])
                } else {
                    Err(SyncError::Unregistered)
                }
            },
        }
    }

    /// The fence bound to `usage` (`None` for an absent image fence), or
    /// `Unregistered`.
    pub fn fence(&self, usage: FenceUsage) -> (r: Result<Option<u64>, SyncError>)
        requires
            self.wf(),
        ensures
            self@.fences.contains_key(usage) ==> r == Ok::<Option<u64>, SyncError>(
                self@.fences[usage],
            ),
            !self@.fences.contains_key(usage) ==> r == Err::<Option<u64>, SyncError>(
                SyncError::Unregistered,
            ),
    {
        match usage {
            FenceUsage::CommandBufferExec(s) => {
                if s < self.slot_fences.len() {
                    Ok(Some(self.slot_fences[s]))
                } else {
                    Err(SyncError::Unregistered)
                }
            },
            FenceUsage::ImageAvailable(i) => {
                if i < self.image_fences.len() {
                    Ok(self.image_fences[i])
                } else {
                    Err(SyncError::Unregistered)
                }
            },
        }
    }

    /// Overwrites the image fence `usage` with the fence of frame slot `slot`:
    /// from now on that slot owns the image.
    pub fn rebind(&mut self, usage: FenceUsage, slot: usize) -> (r: Result<(), SyncError>)
        requires
            old(self).wf(),
        ensures
            final(self).wf(),
            usage is CommandBufferExec ==> r == Err::<(), SyncError>(SyncError::NotRebindable),
            usage is ImageAvailable && !(old(self)@.fences.contains_key(usage) && slot
                < old(self)@.frames) ==> r == Err::<(), SyncError>(SyncError::Unregistered),
            r is Err ==> final(self)@ == old(self)@,
            usage is ImageAvailable && old(self)@.fences.contains_key(usage) && slot
                < old(self)@.frames ==> {
                &&& r is Ok
                &&& final(self)@ == RegistryModel {
                    fences: old(self)@.fences.insert(
                        usage,
                        Some(old(self)@.slot_fence(slot)),
                    ),
                    ..old(self)@
                }
            },
    {
        match usage {
            FenceUsage::CommandBufferExec(_) => Err(SyncError::NotRebindable),
            FenceUsage::ImageAvailable(i) => {
                if i < self.image_fences.len() && slot < self.slot_fences.len() {
                    let h = self.slot_fences[slot];
                    self.image_fences.set(i, Some(h));
                    proof {
                        assert(self.slot_fences@[slot as int] == h);
                        assert forall|k: int|
                            0 <= k < self.image_fences@.len() && (#[trigger] self.image_fences@[k]) is Some
                                implies self.slot_fences@.contains(self.image_fences@[k]->0) by {
                            if k != i {
                                assert(old(self).image_fences@[k] == self.image_fences@[k]);
                            }
                        }
                        let expect = RegistryModel {
                            fences: old(self)@.fences.insert(
                                usage,
                                Some(old(self)@.slot_fence(slot)),
                            ),
                            ..old(self)@
                        };
                        assert(old(self)@.fences.contains_key(FenceUsage::CommandBufferExec(slot)));
                        assert(self@.fences =~= expect.fences);
                        assert(self@.semaphores =~= expect.semaphores);
                    }
                    Ok(())
                } else {
                    Err(SyncError::Unregistered)
                }
            },
        }
    }

    /// Replaces the image namespace by `image_count` absent entries, as a new
    /// swapchain requires.
    pub fn reset_images(&mut self, image_count: usize)
        requires
            old(self).wf(),
        ensures
            final(self).wf(),
            final(self)@ == with_fresh_images(old(self)@, image_count as nat),
    {
        self.image_fences = absent_entries(image_count);
        proof {
            let expect = with_fresh_images(old(self)@, image_count as nat);
            assert forall|u: FenceUsage| #[trigger] self@.fences.contains_key(u) implies self@.fences[u] == expect.fences[u] by {
                match u {
                    FenceUsage::CommandBufferExec(s) => {
                        assert(old(self)@.fences.contains_key(u));
                    },
                    FenceUsage::ImageAvailable(_) => {},
                }
            }
            assert(self@.fences =~= expect.fences);
            assert(self@.semaphores =~= expect.semaphores);
        }
    }

    /// The fence of frame slot `slot`, which must be registered.
    pub fn slot_fence(&self, slot: usize) -> (r: u64)
        requires
            self.wf(),
            slot < self@.frames,
        ensures
            r == self@.slot_fence(slot),
            self@.fences[FenceUsage::CommandBufferExec(slot)] == Some(r),
    {
        self.slot_fences[slot]
    }

    /// The image-available semaphore of frame slot `slot`, which must be registered.
    pub fn image_available(&self, slot: usize) -> (r: u64)
        requires
            self.wf(),
            slot < self@.frames,
        ensures
            r == self@.semaphores[SemaphoreUsage::ImageAvailable(slot)],
    {
        self.image_available[slot]
    }

    /// The render-finished semaphore of frame slot `slot`, which must be registered.
    pub fn render_finished(&self, slot: usize) -> (r: u64)
        requires
            self.wf(),
            slot < self@.frames,
        ensures
            r == self@.semaphores[SemaphoreUsage::RenderFinished(slot)],
    {
        self.render_finished[slot]
    }

    /// The "last used by" entry of image `image`, which must be registered.
    pub fn image_fence(&self, image: usize) -> (r: Option<u64>)
        requires
            self.wf(),
            image < self@.image_count,
        ensures
            r == self@.image_fence(image),
    {
        self.image_fences[image]
    }

    /// Destruction of every sync object: the image-available semaphores, the
    /// render-finished semaphores, then the slot fences, each in slot order.
    /// Image entries only alias slot fences and are not destroyed twice.
    pub fn teardown(&self) -> (r: Vec<Teardown>)
        requires
            self.wf(),
        ensures
            r@ == sync_teardown_steps(self@),
    {
        let mut out: Vec<Teardown> = Vec::new();
        let n = self.slot_fences.len();
        let mut k: usize = 0;
        while k < n
            invariant
                self.wf(),
                n == self@.frames,
                k <= n,
                out@ =~= Seq::new(k as nat, |s: int| Teardown::DestroySemaphore(self@.semaphores[SemaphoreUsage::ImageAvailable(s as usize)])),
            decreases n - k,
        {
            out.push(Teardown::DestroySemaphore(self.image_available[k]));
            k = k + 1;
        }
        let ghost first = out@;
        k = 0;
        while k < n
            invariant
                self.wf(),
                n == self@.frames,
                k <= n,
                out@ =~= first + Seq::new(k as nat, |s: int| Teardown::DestroySemaphore(self@.semaphores[SemaphoreUsage::RenderFinished(s as usize)])),
            decreases n - k,
        {
            out.push(Teardown::DestroySemaphore(self.render_finished[k]));
            k = k + 1;
        }
        let ghost second = out@;
        k = 0;
        while k < n
            invariant
                self.wf(),
                n == self@.frames,
                k <= n,
                out@ =~= second + Seq::new(k as nat, |s: int| Teardown::DestroyFence(self@.slot_fence(s as usize))),
            decreases n - k,
        {
            out.push(Teardown::DestroyFence(self.slot_fences[k]));
            k = k + 1;
        }
        out
    }

    /// The frame slot whose fence image `image` holds, if any.
    pub fn owner(&self, image: usize) -> (r: Option<usize>)
        requires
            self.wf(),
            image < self@.image_count,
        ensures
            r is None <==> self@.image_fence(image) is None,
            r is Some ==> self@.holds(image, r->0),
    {
        match self.image_fences[image] {
            None => None,
            Some(h) => {
                let mut s: usize = 0;
                while s < self.slot_fences.len()
                    invariant
                        self.wf(),
                        image < self.image_fences@.len(),
                        self.image_fences@[image as int] == Some(h),
                        s <= self.slot_fences@.len(),
                        forall|k: int| 0 <= k < s ==> self.slot_fences@[k] != h,
                    decreases self.slot_fences@.len() - s,
                {
                    if self.slot_fences[s] == h {
                        proof {
                            assert(self@.fences.contains_key(FenceUsage::CommandBufferExec(s)));
                            assert(self@.fences.contains_key(FenceUsage::ImageAvailable(image)));
                        }
                        return Some(s);
                    }
                    s = s + 1;
                }
                proof {
                    assert(self.slot_fences@.contains(h));
                }
                None
            },
        }
    }
}

} // verus!
