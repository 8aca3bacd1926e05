//! Swapchains: what an attempt to acquire an image decides, and the lists
//! of a present.
use vstd::prelude::*;
use crate::device::Queue;
use crate::layout::STAGE_COLOR_ATTACHMENT_OUTPUT;
use crate::sync::{GpuFuture, Semaphore, SemaphoreFuture, SubmitState, SubmitView};

verus! {

/// Native result code: not ready yet.
pub const RESULT_NOT_READY: i32 = 1;

/// Native result code: the timeout passed.
pub const RESULT_TIMEOUT: i32 = 2;

/// How a swapchain's images are shared between queue families.
#[derive(Clone, Copy, Debug, PartialEq, Eq, Structural)]
pub enum SharingMode {
    Exclusive,
    Concurrent,
}

impl SharingMode {
    /// The native number of the mode.
    pub fn raw(self) -> (r: i32)
        ensures
            r == (if self == SharingMode::Exclusive { 0i32 } else { 1i32 }),
    {
        match self {
            SharingMode::Exclusive => 0,
            SharingMode::Concurrent => 1,
        }
    }
}

/// The sharing mode for images used by the queue families
/// `queue_family_indices`: concurrent where there are several.
pub fn sharing_mode(queue_family_indices: &Vec<u32>) -> (r: SharingMode)
    ensures
        r == (if queue_family_indices@.len() > 1 { SharingMode::Concurrent } else { SharingMode::Exclusive }),
{
    if queue_family_indices.len() > 1 {
        SharingMode::Concurrent
    } else {
        SharingMode::Exclusive
    }
}

/// A swapchain of a device.
#[derive(Clone, Copy, Debug, PartialEq, Eq, Structural)]
pub struct Swapchain {
    pub device: u64,
    pub vk: u64,
}

/// Why no image was acquired. Each case hands back the semaphore that was
/// made for the attempt, which nothing waits on and which is to be
/// destroyed.
#[derive(Clone, Copy, Debug, PartialEq, Eq, Structural)]
pub enum AcquireError {
    /// The timeout passed first.
    Timeout(Semaphore),
    /// No image was ready and the timeout was zero.
    NotReady(Semaphore),
    /// Any other native failure, with its code.
    Native(i32, Semaphore),
}

impl AcquireError {
    /// The semaphore made for the attempt.
    pub open spec fn semaphore_spec(self) -> Semaphore {
        match self {
            AcquireError::Timeout(s) => s,
            AcquireError::NotReady(s) => s,
            AcquireError::Native(_, s) => s,
        }
    }

    /// The semaphore made for the attempt.
    pub fn semaphore(&self) -> (r: Semaphore)
        ensures
            r == self.semaphore_spec(),
    {
        match self {
            AcquireError::Timeout(s) => *s,
            AcquireError::NotReady(s) => *s,
            AcquireError::Native(_, s) => *s,
        }
    }
}

impl Swapchain {
    /// Describes the native swapchain `vk` of device `device`.
    pub fn new(device: u64, vk: u64) -> (r: Swapchain)
        ensures
            r.device == device,
            r.vk == vk,
    {
        Swapchain { device, vk }
    }

    /// Decides what the native acquire made with `semaphore` gave: an image
    /// index, whether the swapchain is suboptimal, and a future waiting on
    /// the semaphore; or, where no image came, the semaphore back.
    pub fn acquire_outcome(&self, semaphore: Semaphore, result: Result<(u32, bool), i32>) -> (r: Result<
        (u32, bool, AcquireFuture),
        AcquireError,
    >)
        ensures
            match (result, r) {
                (Ok((i, s)), Ok((i2, s2, f))) => i2 == i && s2 == s && f.swapchain_spec() == self.vk
                    && f.semaphore_spec() == semaphore && f.pending() == SubmitView::empty().with_wait(
                    semaphore.vk,
                    STAGE_COLOR_ATTACHMENT_OUTPUT,
                ) && f.queue_spec() is None,
                (Err(c), Err(e)) => e == (if c == RESULT_TIMEOUT {
                    AcquireError::Timeout(semaphore)
                } else if c == RESULT_NOT_READY {
                    AcquireError::NotReady(semaphore)
                } else {
                    AcquireError::Native(c, semaphore)
                }),
                _ => false,
            },
    {
        match result {
            Ok((index, suboptimal)) => Ok(
                (index, suboptimal, AcquireFuture { swapchain: self.vk, semaphore, consumed: false }),
            ),
            Err(code) => {
                if code == RESULT_TIMEOUT {
                    Err(AcquireError::Timeout(semaphore))
                } else if code == RESULT_NOT_READY {
                    Err(AcquireError::NotReady(semaphore))
                } else {
                    Err(AcquireError::Native(code, semaphore))
                }
            },
        }
    }
}

/// The lists of a present: the semaphores it waits on, and the swapchains
/// it presents to.
pub struct PresentLists {
    pub wait_semaphores: Vec<u64>,
    pub swapchains: Vec<u64>,
}

/// Collects the lists of a present that waits on `semaphores` and presents
/// to `swapchains`.
pub fn present_lists(semaphores: &Vec<SemaphoreFuture>, swapchains: &Vec<Swapchain>) -> (r: PresentLists)
    ensures
        r.wait_semaphores@ == semaphores@.map_values(|s: SemaphoreFuture| s.semaphore_spec().vk),
        r.swapchains@ == swapchains@.map_values(|s: Swapchain| s.vk),
{
    let mut waits: Vec<u64> = Vec::new();
    let mut i: usize = 0;
    while i < semaphores.len()
        invariant
            i <= semaphores@.len(),
            waits@ == semaphores@.subrange(0, i as int).map_values(|s: SemaphoreFuture| s.semaphore_spec().vk),
        decreases semaphores@.len() - i,
    {
        waits.push(semaphores[i].semaphore().vk);
        proof {
            assert(semaphores@.subrange(0, i + 1 as int) == semaphores@.subrange(0, i as int).push(semaphores@[i as int]));
        }
        i += 1;
    }
    proof {
        assert(semaphores@.subrange(0, i as int) == semaphores@);
    }
    let mut chains: Vec<u64> = Vec::new();
    let mut k: usize = 0;
    while k < swapchains.len()
        invariant
            k <= swapchains@.len(),
            chains@ == swapchains@.subrange(0, k as int).map_values(|s: Swapchain| s.vk),
        decreases swapchains@.len() - k,
    {
        chains.push(swapchains[k].vk);
        proof {
            assert(swapchains@.subrange(0, k + 1 as int) == swapchains@.subrange(0, k as int).push(swapchains@[k as int]));
        }
        k += 1;
    }
    proof {
        assert(swapchains@.subrange(0, k as int) == swapchains@);
    }
    PresentLists { wait_semaphores: waits, swapchains: chains }
}

/// An image acquired from a swapchain, taken as a future: work that uses
/// the image waits on the acquire's semaphore before writing colour output.
pub struct AcquireFuture {
    swapchain: u64,
    semaphore: Semaphore,
    consumed: bool,
}

impl AcquireFuture {
    pub closed spec fn swapchain_spec(&self) -> u64 {
        self.swapchain
    }

    pub closed spec fn semaphore_spec(&self) -> Semaphore {
        self.semaphore
    }
}

impl GpuFuture for AcquireFuture {
    closed spec fn pending(&self) -> SubmitView {
        if self.consumed {
            SubmitView::empty()
        } else {
            SubmitView::empty().with_wait(self.semaphore.vk, STAGE_COLOR_ATTACHMENT_OUTPUT)
        }
    }

    closed spec fn queue_spec(&self) -> Option<Queue> {
        None
    }

    closed spec fn device_spec(&self) -> u64 {
        self.semaphore.device
    }

    fn build_submission(&mut self) -> (r: SubmitState) {
        let mut submit = SubmitState::new();
        if !self.consumed {
            submit.wait_semaphore(&self.semaphore, STAGE_COLOR_ATTACHMENT_OUTPUT);
        }
        submit
    }

    fn device(&self) -> (r: u64) {
        self.semaphore.device
    }

    fn flush(&mut self) -> (r: SubmitState) {
        let submit = self.build_submission();
        self.consumed = true;
        submit
    }

    fn queue(&self) -> (r: Option<Queue>) {
        None
    }
}

} // verus!
