use vstd::prelude::*;

use crate::coordinator::{count_true, next_slot, CoordinatorModel, Phase};
use crate::resources::{Extent, ResourceModel};
use crate::sync_usage::FenceUsage;

verus! {

/// At most `frames` submissions are ever in flight: a slot holds at most one
/// unfinished submission, because a frame waits on its slot's fence before it
/// submits again.
pub proof fn lemma_backpressure(m: CoordinatorModel)
    requires
        m.valid(),
    ensures
        m.in_flight() <= m.frames,
{
    crate::coordinator::lemma_count_true_bound(m.outstanding);
}

/// Issuing a submission adds exactly one to the work in flight, and never
/// from a slot whose previous submission is still unfinished.
pub proof fn lemma_submission_adds_one(m: CoordinatorModel, image: usize)
    requires
        m.valid(),
        m.phase is Acquiring || m.phase is WaitingOnImageFence,
    ensures
        !m.outstanding[m.slot as int],
        m.claimed(image).in_flight() == m.in_flight() + 1,
        m.claimed(image).in_flight() <= m.frames,
{
    lemma_count_set(m.outstanding, m.slot as int);
    crate::coordinator::lemma_count_true_bound(m.claimed(image).outstanding);
}

proof fn lemma_count_set(s: Seq<bool>, k: int)
    requires
        0 <= k < s.len(),
        !s[k],
    ensures
        count_true(s.update(k, true)) == count_true(s) + 1,
    decreases s.len(),
{
    let t = s.update(k, true);
    if k == s.len() - 1 {
        assert(t.drop_last() =~= s.drop_last());
    } else {
        assert(t.drop_last() =~= s.drop_last().update(k, true));
        lemma_count_set(s.drop_last(), k);
    }
}

/// At any moment at most one frame slot holds the "last used" fence of a
/// swapchain image.
pub proof fn lemma_image_owner_unique(m: CoordinatorModel, image: usize, s1: usize, s2: usize)
    requires
        m.valid(),
        m.registry.holds(image, s1),
        m.registry.holds(image, s2),
    ensures
        s1 == s2,
{
    if s1 != s2 {
        assert(m.registry.slot_fence(s1) != m.registry.slot_fence(s2));
    }
}

/// The slot reached from `slot` after `n` frames.
pub open spec fn slot_after(slot: nat, frames: nat, n: nat) -> nat
    decreases n,
{
    if n == 0 {
        slot
    } else {
        next_slot(slot_after(slot, frames, (n - 1) as nat), frames)
    }
}

proof fn lemma_slot_after_mod(slot: nat, frames: nat, n: nat)
    requires
        slot < frames,
    ensures
        slot_after(slot, frames, n) == (slot + n) % frames,
    decreases n,
{
    if n > 0 {
        lemma_slot_after_mod(slot, frames, (n - 1) as nat);
        vstd::arithmetic::div_mod::lemma_add_mod_noop_right(1, slot + n - 1, frames as int);
    } else {
        vstd::arithmetic::div_mod::lemma_small_mod(slot, frames);
    }
}

/// After exactly `frames` frames the slot is back where it started; every
/// frame in between used a different slot.
pub proof fn lemma_slot_cycle(slot: nat, frames: nat)
    requires
        slot < frames,
    ensures
        slot_after(slot, frames, frames) == slot,
        forall|n: nat| 0 < n < frames ==> #[trigger] slot_after(slot, frames, n) != slot,
{
    lemma_slot_after_mod(slot, frames, frames);
    vstd::arithmetic::div_mod::lemma_add_mod_noop(slot as int, frames as int, frames as int);
    vstd::arithmetic::div_mod::lemma_mod_self_0(frames as int);
    vstd::arithmetic::div_mod::lemma_small_mod(slot, frames);
    assert forall|n: nat| 0 < n < frames implies #[trigger] slot_after(slot, frames, n) != slot by {
        lemma_slot_after_mod(slot, frames, n);
        if slot + n < frames {
            vstd::arithmetic::div_mod::lemma_small_mod(slot + n, frames);
        } else {
            vstd::arithmetic::div_mod::lemma_mod_sub_multiples_vanish(
                (slot + n) as int,
                frames as int,
            );
            vstd::arithmetic::div_mod::lemma_small_mod((slot + n - frames) as nat, frames);
        }
    }
}

/// A presented frame moves the coordinator to the next slot, and only that.
pub proof fn lemma_present_advances(m: CoordinatorModel)
    requires
        m.valid(),
        m.phase is Presenting,
    ensures
        m.advanced().slot == slot_after(m.slot, m.frames, 1),
        m.advanced().valid(),
{
    reveal_with_fuel(slot_after, 2);
    vstd::arithmetic::div_mod::lemma_mod_bound((m.slot + 1) as int, m.frames as int);
}

/// After a rebuild the new set's lists all have the new image count, the
/// image fences cover exactly those images and start absent, no submission
/// is in flight, the set is a new generation, and every command buffer a
/// later frame submits comes from the new set.
pub proof fn lemma_rebuild_atomicity(m: CoordinatorModel, set: ResourceModel)
    requires
        m.valid(),
        m.phase == Phase::Rebuilding,
        set.consistent(),
    ensures
        ({
            let n = m.rebuilt_with(set);
            &&& n.valid()
            &&& n.resources == set
            &&& n.resources.views.len() == set.image_count()
            &&& n.resources.framebuffers.len() == set.image_count()
            &&& n.resources.command_buffers.len() == set.image_count()
            &&& n.registry.image_count == set.image_count()
            &&& forall|i: usize| i < set.image_count() ==> (#[trigger] n.registry.image_fence(i)) is None
            &&& n.in_flight() == 0
            &&& n.generation != m.generation
            &&& forall|i: usize|
                i < set.image_count() ==> (#[trigger] n.submit_action(i))->command_buffer
                    == set.command_buffers[i as int]
        }),
{
    let n = m.rebuilt_with(set);
    let r = n.registry;
    assert forall|u: FenceUsage| #[trigger] r.fences.contains_key(u) <==> crate::sync_registry::fence_registered(
        u,
        r.frames,
        r.image_count,
    ) by {}
    assert forall|s: usize| s < r.frames implies (#[trigger] r.fences[FenceUsage::CommandBufferExec(s)]) is Some by {
        assert(m.registry.fences[FenceUsage::CommandBufferExec(s)] is Some);
    }
    assert forall|s1: usize, s2: usize|
        s1 < r.frames && s2 < r.frames && s1 != s2 implies #[trigger] r.slot_fence(s1)
            != #[trigger] r.slot_fence(s2) by {
        assert(m.registry.slot_fence(s1) != m.registry.slot_fence(s2));
    }
    lemma_all_clear(m.frames);
}

proof fn lemma_all_clear(n: nat)
    ensures
        count_true(Seq::new(n, |s: int| false)) == 0,
    decreases n,
{
    if n > 0 {
        assert(Seq::new(n, |s: int| false).drop_last() =~= Seq::new((n - 1) as nat, |s: int| false));
        lemma_all_clear((n - 1) as nat);
    }
}

/// A resize to a zero-area surface followed by a frame neither rebuilds nor
/// fails: the frame is skipped and the rebuild stays pending. A later resize
/// to a non-zero area makes the next frame rebuild against it.
pub proof fn lemma_zero_area_suspension(m: CoordinatorModel, zero: Extent, later: Extent)
    requires
        m.valid(),
        m.phase == Phase::Idle,
        zero.zero_area(),
        !later.zero_area(),
    ensures
        m.resized(zero).invalidated() == m.resized(zero),
        m.resized(zero).suspended(),
        forall|a: crate::coordinator::Action| #[trigger]
            m.resized(zero).invalidation_action(a) <==> a == crate::coordinator::Action::Suspended,
        m.resized(zero).resized(later).invalidated().phase == Phase::Rebuilding,
        !m.resized(zero).resized(later).invalidated().pending_rebuild,
        forall|a: crate::coordinator::Action| #[trigger]
            m.resized(zero).resized(later).invalidation_action(a) ==> a is Rebuild,
{
}

} // verus!
