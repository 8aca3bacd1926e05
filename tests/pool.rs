use gpu_sync::command::{begin_flags, Command, InheritanceInfo};
use gpu_sync::pool::{CommandPool, POOL_CREATE_TRANSIENT, POOL_RESET_RELEASE_RESOURCES};
use gpu_sync::resource::RenderPass;
use std::sync::Arc;

fn handles(start: u64, n: u32) -> Vec<u64> {
    (0..n as u64).map(|i| start + i).collect()
}

#[test]
fn allocation_starts_at_one_and_doubles() {
    let mut pool = CommandPool::new(3, false);
    assert!(pool.add_thread_pool(7, 100));
    assert_eq!(pool.alloc_count(7, false), 1);
    let b1 = pool.record(7, handles(10, 1), false, false);
    assert_eq!(b1.vk(), 10);
    assert_eq!(pool.alloc_count(7, false), 1);
    let b2 = pool.record(7, handles(20, 1), false, false);
    assert_eq!(b2.vk(), 20);
    assert_eq!(pool.alloc_count(7, false), 2);
    let b3 = pool.record(7, handles(30, 2), false, false);
    assert_eq!(b3.vk(), 31);
    assert_eq!(pool.alloc_count(7, false), 0);
    let b4 = pool.record(7, vec![], false, false);
    assert_eq!(b4.vk(), 30);
    assert_eq!(pool.alloc_count(7, false), 4);
    assert_eq!(pool.outstanding(7), 4);
    // secondary handles are counted apart
    assert_eq!(pool.alloc_count(7, true), 1);
}

#[test]
fn handles_accounted_through_record_build_drop() {
    let mut pool = CommandPool::new(0, false);
    assert!(pool.add_thread_pool(1, 500));
    let a = pool.record(1, handles(1, 1), true, false).build();
    let b = pool.record(1, handles(2, 1), true, false).build();
    assert_eq!(pool.outstanding(1), 2);
    assert!(pool.recycle(&a));
    assert_eq!(pool.outstanding(1), 1);
    // a handle is given back once only
    assert!(!pool.recycle(&a));
    assert!(pool.recycle(&b));
    assert_eq!(pool.outstanding(1), 0);
    // nothing idle until the reset, so a new record needs an allocation
    assert_eq!(pool.alloc_count(1, false), 2);
}

#[test]
fn reset_makes_returned_handles_usable_again() {
    let mut pool = CommandPool::new(0, false);
    assert!(pool.add_thread_pool(1, 500));
    let a = pool.record(1, handles(41, 1), true, false).build();
    // one buffer is still alive: a reset is not allowed now
    assert_eq!(pool.outstanding(1), 1);
    assert!(pool.recycle(&a));
    drop(a);
    assert_eq!(pool.outstanding(1), 0);
    assert_eq!(pool.reset(1, false), 0);
    assert_eq!(pool.alloc_count(1, false), 0);
    let again = pool.record(1, vec![], true, false);
    assert_eq!(again.vk(), 41);
}

#[test]
fn reset_flags_and_create_flags() {
    let mut pool = CommandPool::new(2, true);
    assert_eq!(pool.create_flags(), POOL_CREATE_TRANSIENT);
    assert_eq!(CommandPool::new(2, false).create_flags(), 0);
    assert!(pool.add_thread_pool(9, 77));
    assert_eq!(pool.reset(9, true), POOL_RESET_RELEASE_RESOURCES);
    assert_eq!(pool.queue_family(), 2);
}

#[test]
fn thread_pools_are_named_once() {
    let mut pool = CommandPool::new(0, false);
    assert_eq!(pool.pool_for(1), None);
    assert!(pool.add_thread_pool(1, 10));
    assert!(!pool.add_thread_pool(1, 11));
    assert!(!pool.add_thread_pool(2, 10));
    assert!(pool.add_thread_pool(2, 12));
    assert_eq!(pool.pool_for(1), Some(10));
    assert_eq!(pool.pool_for(2), Some(12));
    assert_eq!(pool.pool_handles(), vec![10, 12]);
}

#[test]
fn recycle_goes_to_the_pool_the_buffer_came_from() {
    let mut pool = CommandPool::new(0, false);
    assert!(pool.add_thread_pool(1, 10));
    assert!(pool.add_thread_pool(2, 20));
    let a = pool.record(1, vec![5], false, false).build();
    let b = pool.record(2, vec![6], false, false).build();
    assert_eq!(a.pool_handle(), 10);
    assert_eq!(b.pool_handle(), 20);
    assert!(pool.recycle(&b));
    assert_eq!(pool.outstanding(1), 1);
    assert_eq!(pool.outstanding(2), 0);
}

#[test]
fn secondary_recording_with_render_pass_context() {
    let mut pool = CommandPool::new(0, false);
    assert!(pool.add_thread_pool(1, 10));
    let rp = Arc::new(RenderPass { vk: 300 });
    let inherit = InheritanceInfo { render_pass: rp.clone(), subpass: 0, framebuffer: None };
    assert_eq!(begin_flags(true, true, &Some(InheritanceInfo { render_pass: rp.clone(), subpass: 0, framebuffer: None })), 7);
    assert_eq!(begin_flags(false, false, &None), 0);
    assert_eq!(begin_flags(true, false, &None), 1);
    let b = pool.record_secondary(1, vec![90], true, false, Some(inherit));
    assert_eq!(b.usage_flags(), 3);
    assert_eq!(pool.record(1, vec![91], true, true).usage_flags(), 5);
    let cb = b.draw(3, 1, 0, 0).build();
    assert_eq!(cb.resources().len(), 1);
    assert!(matches!(cb.commands()[0], Command::Draw { vertex_count: 3, .. }));
    assert_eq!(Arc::strong_count(&rp), 2);
    assert!(pool.recycle(&cb));
    assert_eq!(pool.outstanding(1), 1);
}
