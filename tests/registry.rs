use rot_vk_renderer::sync_registry::{SyncError, SyncRegistry};
use rot_vk_renderer::sync_usage::{FenceUsage, SemaphoreUsage};

fn registry() -> SyncRegistry {
    SyncRegistry::new(vec![1, 2], vec![3, 4], vec![5, 6], 3).unwrap()
}

#[test]
fn lookups_by_usage() {
    let r = registry();
    assert_eq!(r.frames_in_flight(), 2);
    assert_eq!(r.image_count(), 3);
    assert_eq!(r.semaphore(SemaphoreUsage::ImageAvailable(0)), Ok(1));
    assert_eq!(r.semaphore(SemaphoreUsage::ImageAvailable(1)), Ok(2));
    assert_eq!(r.semaphore(SemaphoreUsage::RenderFinished(0)), Ok(3));
    assert_eq!(r.semaphore(SemaphoreUsage::RenderFinished(1)), Ok(4));
    assert_eq!(r.fence(FenceUsage::CommandBufferExec(1)), Ok(Some(6)));
    assert_eq!(r.fence(FenceUsage::ImageAvailable(2)), Ok(None));
}

#[test]
fn unregistered_usages_fail() {
    let r = registry();
    assert_eq!(r.semaphore(SemaphoreUsage::ImageAvailable(2)), Err(SyncError::Unregistered));
    assert_eq!(r.semaphore(SemaphoreUsage::RenderFinished(7)), Err(SyncError::Unregistered));
    assert_eq!(r.fence(FenceUsage::CommandBufferExec(2)), Err(SyncError::Unregistered));
    assert_eq!(r.fence(FenceUsage::ImageAvailable(3)), Err(SyncError::Unregistered));
}

#[test]
fn rebind_moves_image_ownership() {
    let mut r = registry();
    assert_eq!(r.rebind(FenceUsage::ImageAvailable(1), 0), Ok(()));
    assert_eq!(r.fence(FenceUsage::ImageAvailable(1)), Ok(Some(5)));
    assert_eq!(r.owner(1), Some(0));
    assert_eq!(r.rebind(FenceUsage::ImageAvailable(1), 1), Ok(()));
    assert_eq!(r.fence(FenceUsage::ImageAvailable(1)), Ok(Some(6)));
    assert_eq!(r.owner(1), Some(1));
    assert_eq!(r.owner(0), None);
}

#[test]
fn rebind_errors() {
    let mut r = registry();
    assert_eq!(r.rebind(FenceUsage::CommandBufferExec(0), 1), Err(SyncError::NotRebindable));
    assert_eq!(r.rebind(FenceUsage::ImageAvailable(3), 0), Err(SyncError::Unregistered));
    assert_eq!(r.rebind(FenceUsage::ImageAvailable(0), 2), Err(SyncError::Unregistered));
    assert_eq!(r.fence(FenceUsage::ImageAvailable(0)), Ok(None));
}

#[test]
fn reset_images_resizes_namespace() {
    let mut r = registry();
    r.rebind(FenceUsage::ImageAvailable(2), 1).unwrap();
    r.reset_images(5);
    assert_eq!(r.image_count(), 5);
    for i in 0..5 {
        assert_eq!(r.fence(FenceUsage::ImageAvailable(i)), Ok(None));
    }
    assert_eq!(r.fence(FenceUsage::CommandBufferExec(1)), Ok(Some(6)));
}

#[test]
fn constructor_errors() {
    assert_eq!(
        SyncRegistry::new(vec![1], vec![3, 4], vec![5, 6], 1).err(),
        Some(SyncError::HandleCountMismatch)
    );
    assert_eq!(
        SyncRegistry::new(vec![1, 2], vec![3, 4], vec![5, 5], 1).err(),
        Some(SyncError::DuplicateFence)
    );
    assert!(SyncRegistry::new(vec![], vec![], vec![], 0).is_ok());
}

#[test]
fn accessors_by_slot() {
    let r = registry();
    assert_eq!(r.slot_fence(1), 6);
    assert_eq!(r.image_available(1), 2);
    assert_eq!(r.render_finished(0), 3);
    assert_eq!(r.image_fence(0), None);
}
