use gpu_sync::device::Queue;
use gpu_sync::layout::{STAGE_ALL_COMMANDS, STAGE_COLOR_ATTACHMENT_OUTPUT};
use gpu_sync::pool::CommandPool;
use gpu_sync::resource::{Buffer, Extent3D, Image, ImageInit, BufferInit};
use gpu_sync::layout::ImageLayout;
use gpu_sync::command::{ClearValue, Command};
use gpu_sync::swapchain::{AcquireError, Swapchain, RESULT_NOT_READY, RESULT_TIMEOUT};
use gpu_sync::sync::{join, then_signal_fence, then_signal_semaphore, Fence, GpuFuture, NowFuture, Semaphore, SemaphoreFuture, SubmitState};
use std::sync::Arc;

fn pool() -> CommandPool {
    let mut pool = CommandPool::new(4, false);
    assert!(pool.add_thread_pool(1, 10));
    pool
}

fn queue() -> Queue {
    Queue::new(1, 4, 900)
}

#[test]
fn join_concatenates_both_sides() {
    let mut pool = pool();
    let q = queue();
    let cb = pool.record(1, vec![50], true, false).build();
    let left = SemaphoreFuture::new(Semaphore::new(1, 600));
    let right = q.submit(cb);
    let (right, sem) = then_signal_semaphore(right, Semaphore::new(1, 601));
    let mut j = join(left, right);
    assert_eq!(j.queue(), Some(q));
    let s = j.build_submission();
    assert_eq!(s.wait_semaphores(), &vec![600]);
    assert_eq!(s.wait_dst_stage_masks(), &vec![STAGE_ALL_COMMANDS]);
    assert_eq!(s.signal_semaphores(), &vec![601]);
    assert_eq!(s.cmds(), &vec![50]);
    // building again gives the same lists
    let again = j.build_submission();
    assert_eq!(again.cmds(), &vec![50]);
    let mut sem = sem;
    assert_eq!(sem.queue(), None);
    assert_eq!(sem.build_submission().wait_semaphores(), &vec![601]);
}

#[test]
fn join_of_two_submissions_on_one_queue() {
    let mut pool = pool();
    let q = queue();
    let a = pool.record(1, vec![51], true, false).build();
    let b = pool.record(1, vec![52], true, false).build();
    let mut j = join(q.submit(a), q.submit(b));
    let s = j.build_submission();
    assert_eq!(s.cmds(), &vec![51, 52]);
    assert!(s.wait_semaphores().is_empty());
    assert!(s.signal_semaphores().is_empty());
}

#[test]
fn submit_state_join() {
    let mut a = SubmitState::new();
    a.wait_semaphore(&Semaphore::new(0, 1), 8);
    let mut b = SubmitState::new();
    b.wait_semaphore(&Semaphore::new(0, 2), 16);
    b.signal_semaphore(&Semaphore::new(0, 3));
    a.join(b);
    assert_eq!(a.wait_semaphores(), &vec![1, 2]);
    assert_eq!(a.wait_dst_stage_masks(), &vec![8, 16]);
    assert_eq!(a.signal_semaphores(), &vec![3]);
}

#[test]
fn fence_releases_chain_after_wait() {
    let mut pool = pool();
    let q = queue();
    let buf = Arc::new(Buffer::new(7, 1, 64));
    let dst = Arc::new(Buffer::new(8, 1, 64));
    let cb = pool.record(1, vec![50], true, false).copy_buffer(buf.clone(), dst).build();
    let future = q.submit_after(NowFuture::new(1), cb);
    let weak = Arc::downgrade(&buf);
    drop(buf);
    let (mut fence, submission) = then_signal_fence(future, 77);
    assert_eq!(submission.queue, q);
    assert_eq!(submission.fence, 77);
    assert_eq!(submission.state.cmds(), &vec![50]);
    assert_eq!(fence.vk(), 77);
    assert_eq!(fence.device(), 1);
    // the fence holds the chain, and so the buffer
    assert!(weak.upgrade().is_some());
    let released = fence.release();
    assert!(released.is_some());
    drop(released);
    assert!(weak.upgrade().is_none());
    assert!(fence.release().is_none());
}

#[test]
fn ended_chain_has_nothing_left_to_submit() {
    let mut pool = pool();
    let q = queue();
    let cb = pool.record(1, vec![50], true, false).build();
    let (mut fence, _submission) = then_signal_fence(q.submit(cb), 5);
    let mut chain = fence.release().unwrap();
    let s = chain.build_submission();
    assert!(s.cmds().is_empty());
}

#[test]
fn flush_takes_the_work_once() {
    let mut pool = pool();
    let q = queue();
    let cb = pool.record(1, vec![50], true, false).build();
    let (mut f, _sem) = then_signal_semaphore(q.submit(cb), Semaphore::new(1, 3));
    let s = f.flush();
    assert_eq!(s.cmds(), &vec![50]);
    assert_eq!(s.signal_semaphores(), &vec![3]);
    let s2 = f.flush();
    assert!(s2.cmds().is_empty());
    assert!(s2.signal_semaphores().is_empty());
}

#[test]
fn empty_future_and_plain_fence() {
    let mut now = NowFuture::new(3);
    assert_eq!(now.device(), 3);
    assert!(now.build_submission().cmds().is_empty());
    let mut fence: Fence<NowFuture> = Fence::new(3, 12);
    assert!(fence.release().is_none());
}

#[test]
fn acquire_timeout_returns_semaphore() {
    let chain = Swapchain::new(1, 40);
    let sem = Semaphore::new(1, 41);
    match chain.acquire_outcome(sem, Err(RESULT_TIMEOUT)) {
        Err(e) => {
            assert_eq!(e, AcquireError::Timeout(sem));
            assert_eq!(e.semaphore(), sem);
        },
        Ok(_) => panic!("a timeout acquires nothing"),
    }
    assert_eq!(chain.acquire_outcome(sem, Err(RESULT_NOT_READY)).err(), Some(AcquireError::NotReady(sem)));
    assert_eq!(chain.acquire_outcome(sem, Err(-1000001004)).err(), Some(AcquireError::Native(-1000001004, sem)));
}

#[test]
fn acquire_success_waits_on_semaphore() {
    let chain = Swapchain::new(1, 40);
    let sem = Semaphore::new(1, 41);
    let (index, suboptimal, mut future) = chain.acquire_outcome(sem, Ok((2, true))).ok().unwrap();
    assert_eq!((index, suboptimal), (2, true));
    assert_eq!(future.queue(), None);
    let s = future.build_submission();
    assert_eq!(s.wait_semaphores(), &vec![41]);
    assert_eq!(s.wait_dst_stage_masks(), &vec![STAGE_COLOR_ATTACHMENT_OUTPUT]);
}

#[test]
fn image_clear_records_transitions() {
    let mut pool = pool();
    let q = queue();
    let img = Arc::new(Image::new(9, Extent3D { width: 2, height: 2, depth: 1 }, ImageLayout::Undefined));
    let b = pool.record(1, vec![50], true, false);
    let color = ClearValue { w0: 0, w1: 0, w2: 0, w3: 0 };
    let (out, mut future) = ImageInit::new(img.clone()).clear(&q, b, color).ok().unwrap();
    assert!(Arc::ptr_eq(&out, &img));
    assert_eq!(img.layout(), ImageLayout::ShaderReadOnlyOptimal);
    let cmds = future.command_buffer().commands();
    assert_eq!(cmds.len(), 3);
    assert!(matches!(cmds[1], Command::ClearColorImage { image: 9, .. }));
    assert_eq!(future.build_submission().cmds(), &vec![50]);
    // the image cannot be cleared a second time from its new layout
    let b = pool.record(1, vec![51], true, false);
    assert!(ImageInit::new(img.clone()).clear(&q, b, color).is_err());
}

#[test]
fn image_and_buffer_filled_from_buffer() {
    let mut pool = pool();
    let q = queue();
    let img = Arc::new(Image::new(9, Extent3D { width: 2, height: 2, depth: 1 }, ImageLayout::Undefined));
    let staging = Arc::new(Buffer::new(3, 4, 4));
    let b = pool.record(1, vec![50], true, false);
    let (_img, future) = ImageInit::new(img.clone()).copy_from_buffer(&q, b, staging.clone()).ok().unwrap();
    assert!(matches!(future.command_buffer().commands()[1], Command::CopyBufferToImage { src: 3, dst: 9, .. }));
    let target = Arc::new(Buffer::new(4, 4, 8));
    let b = pool.record(1, vec![51], true, false);
    let (_buf, future) = BufferInit::new(target).copy_from_buffer(&q, b, staging);
    assert!(matches!(future.command_buffer().commands()[0], Command::CopyBuffer { src: 3, dst: 4, size: 16 }));
}
