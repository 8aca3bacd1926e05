//! Deferred submissions and the primitives that order and complete them.
//!
//! A future describes GPU work that is not submitted yet, with the
//! semaphores it waits on and signals. Futures combine into larger ones; the
//! whole chain becomes one native submission when it is ended with a fence
//! or flushed.
use vstd::prelude::*;
use crate::command::{CommandBuffer, Primary};
use crate::device::Queue;
use crate::layout::STAGE_ALL_COMMANDS;

verus! {

/// A semaphore: orders GPU work with other GPU work.
#[derive(Clone, Copy, Debug, PartialEq, Eq, Structural)]
pub struct Semaphore {
    pub device: u64,
    pub vk: u64,
}

impl Semaphore {
    /// Describes the native semaphore `vk` of device `device`.
    pub fn new(device: u64, vk: u64) -> (r: Semaphore)
        ensures
            r.device == device,
            r.vk == vk,
    {
        Semaphore { device, vk }
    }
}

/// What one native submission holds: the semaphores it waits on, each with
/// the stage at which the wait applies, the semaphores it signals and the
/// command buffers it runs.
pub struct SubmitView {
    pub waits: Seq<u64>,
    pub wait_stages: Seq<u32>,
    pub signals: Seq<u64>,
    pub cmds: Seq<u64>,
}

impl SubmitView {
    pub open spec fn empty() -> SubmitView {
        SubmitView { waits: seq![], wait_stages: seq![], signals: seq![], cmds: seq![] }
    }

    /// The waits, signals and command buffers of `self`, then those of `o`.
    pub open spec fn concat(self, o: SubmitView) -> SubmitView {
        SubmitView {
            waits: self.waits + o.waits,
            wait_stages: self.wait_stages + o.wait_stages,
            signals: self.signals + o.signals,
            cmds: self.cmds + o.cmds,
        }
    }

    pub open spec fn with_wait(self, semaphore: u64, stage: u32) -> SubmitView {
        SubmitView { waits: self.waits.push(semaphore), wait_stages: self.wait_stages.push(stage), ..self }
    }

    pub open spec fn with_signal(self, semaphore: u64) -> SubmitView {
        SubmitView { signals: self.signals.push(semaphore), ..self }
    }

    pub open spec fn with_cmd(self, cmd: u64) -> SubmitView {
        SubmitView { cmds: self.cmds.push(cmd), ..self }
    }
}

/// The lists of one native submission, built up from a chain of futures.
pub struct SubmitState {
    wait_semaphores: Vec<u64>,
    wait_dst_stage_masks: Vec<u32>,
    signal_semaphores: Vec<u64>,
    cmds: Vec<u64>,
}

impl View for SubmitState {
    type V = SubmitView;

    closed spec fn view(&self) -> SubmitView {
        SubmitView {
            waits: self.wait_semaphores@,
            wait_stages: self.wait_dst_stage_masks@,
            signals: self.signal_semaphores@,
            cmds: self.cmds@,
        }
    }
}

impl SubmitState {
    pub fn new() -> (r: SubmitState)
        ensures
            r@ == SubmitView::empty(),
    {
        SubmitState {
            wait_semaphores: Vec::new(),
            wait_dst_stage_masks: Vec::new(),
            signal_semaphores: Vec::new(),
            cmds: Vec::new(),
        }
    }

    /// Adds a wait on `semaphore` at stage `wait_dst_stage_mask`.
    pub fn wait_semaphore(&mut self, semaphore: &Semaphore, wait_dst_stage_mask: u32)
        ensures
            final(self)@ == old(self)@.with_wait(semaphore.vk, wait_dst_stage_mask),
    {
        self.wait_semaphores.push(semaphore.vk);
        self.wait_dst_stage_masks.push(wait_dst_stage_mask);
    }

    /// Adds a signal of `semaphore`.
    pub fn signal_semaphore(&mut self, semaphore: &Semaphore)
        ensures
            final(self)@ == old(self)@.with_signal(semaphore.vk),
    {
        self.signal_semaphores.push(semaphore.vk);
    }

    /// Adds a primary command buffer to run.
    pub fn cmd(&mut self, cmd: &CommandBuffer<Primary>)
        ensures
            final(self)@ == old(self)@.with_cmd(cmd.handle()),
    {
        self.cmds.push(cmd.vk());
    }

    /// Appends the lists of `other` to those of `self`.
    pub fn join(&mut self, other: SubmitState)
        ensures
            final(self)@ == old(self)@.concat(other@),
    {
        let mut other = other;
        self.wait_semaphores.append(&mut other.wait_semaphores);
        self.wait_dst_stage_masks.append(&mut other.wait_dst_stage_masks);
        self.signal_semaphores.append(&mut other.signal_semaphores);
        self.cmds.append(&mut other.cmds);
    }

    pub fn wait_semaphores(&self) -> (r: &Vec<u64>)
        ensures
            r@ == self@.waits,
    {
        &self.wait_semaphores
    }

    pub fn wait_dst_stage_masks(&self) -> (r: &Vec<u32>)
        ensures
            r@ == self@.wait_stages,
    {
        &self.wait_dst_stage_masks
    }

    pub fn signal_semaphores(&self) -> (r: &Vec<u64>)
        ensures
            r@ == self@.signals,
    {
        &self.signal_semaphores
    }

    pub fn cmds(&self) -> (r: &Vec<u64>)
        ensures
            r@ == self@.cmds,
    {
        &self.cmds
    }
}

/// Two futures may be joined unless both name a queue and the queues differ.
pub open spec fn queues_agree(a: Option<Queue>, b: Option<Queue>) -> bool {
    a is None || b is None || a == b
}

/// The queue of a join: the left one's, else the right one's.
pub open spec fn either_queue(a: Option<Queue>, b: Option<Queue>) -> Option<Queue> {
    if a is Some {
        a
    } else {
        b
    }
}

/// GPU work that may not be submitted yet.
pub trait GpuFuture: Sized {
    /// What a submission of this future made now would hold.
    spec fn pending(&self) -> SubmitView;

    /// The queue the work must run on, if it names one.
    spec fn queue_spec(&self) -> Option<Queue>;

    /// The device the work belongs to.
    spec fn device_spec(&self) -> u64;

    /// Collects the waits, signals and command buffers of the whole chain.
    fn build_submission(&mut self) -> (r: SubmitState)
        ensures
            r@ == old(self).pending(),
            *final(self) == *old(self),
    ;

    fn device(&self) -> (r: u64)
        ensures
            r == self.device_spec(),
    ;

    /// Takes the work of the whole chain out for submission now: the chain
    /// is left with nothing more to submit.
    fn flush(&mut self) -> (r: SubmitState)
        ensures
            r@ == old(self).pending(),
            final(self).pending() == SubmitView::empty(),
            final(self).queue_spec() == old(self).queue_spec(),
            final(self).device_spec() == old(self).device_spec(),
    ;

    fn queue(&self) -> (r: Option<Queue>)
        ensures
            r == self.queue_spec(),
    ;
}

/// Merges two futures into one submission.
pub fn join<L: GpuFuture, R: GpuFuture>(left: L, right: R) -> (r: JoinFuture<L, R>)
    requires
        queues_agree(left.queue_spec(), right.queue_spec()),
    ensures
        r.left_spec() == left,
        r.right_spec() == right,
        r.pending() == left.pending().concat(right.pending()),
        r.queue_spec() == either_queue(left.queue_spec(), right.queue_spec()),
{
    JoinFuture::new(left, right)
}

/// Ends a chain with one native submission guarded by the fence `fence`,
/// which keeps the chain alive until it is observed signalled.
pub fn then_signal_fence<F: GpuFuture>(prev: F, fence: u64) -> (r: (Fence<F>, Submission))
    requires
        prev.queue_spec() is Some,
    ensures
        r.1.queue == prev.queue_spec().unwrap(),
        r.1.fence == fence,
        r.1.state@ == prev.pending(),
        r.0.handle() == fence,
        r.0.device_spec() == prev.device_spec(),
        r.0.retained() matches Some(p) && p.pending() == SubmitView::empty() && p.queue_spec()
            == prev.queue_spec() && p.device_spec() == prev.device_spec(),
{
    Fence::end(prev, fence)
}

/// Makes the chain signal `semaphore` when its work is done. Returns the
/// chain, to be submitted further, and a future that waits on the semaphore,
/// to be used as a dependency elsewhere.
pub fn then_signal_semaphore<F: GpuFuture>(prev: F, semaphore: Semaphore) -> (r: (
    SemaphoreSignalFuture<F>,
    SemaphoreFuture,
))
    ensures
        r.0.pending() == prev.pending().with_signal(semaphore.vk),
        r.0.queue_spec() == prev.queue_spec(),
        r.1.pending() == SubmitView::empty().with_wait(semaphore.vk, STAGE_ALL_COMMANDS),
        r.1.queue_spec() is None,
{
    (SemaphoreSignalFuture::new(prev, semaphore), SemaphoreFuture::new(semaphore))
}

/// A semaphore that other work signals, taken as a future: its submission
/// waits on the semaphore. It names no queue.
pub struct SemaphoreFuture {
    semaphore: Semaphore,
    consumed: bool,
}

impl SemaphoreFuture {
    pub closed spec fn semaphore_spec(&self) -> Semaphore {
        self.semaphore
    }

    pub fn new(semaphore: Semaphore) -> (r: SemaphoreFuture)
        ensures
            r.semaphore_spec() == semaphore,
            r.pending() == SubmitView::empty().with_wait(semaphore.vk, STAGE_ALL_COMMANDS),
    {
        SemaphoreFuture { semaphore, consumed: false }
    }

    pub fn semaphore(&self) -> (r: Semaphore)
        ensures
            r == self.semaphore_spec(),
    {
        self.semaphore
    }
}

impl GpuFuture for SemaphoreFuture {
    closed spec fn pending(&self) -> SubmitView {
        if self.consumed {
            SubmitView::empty()
        } else {
            SubmitView::empty().with_wait(self.semaphore.vk, STAGE_ALL_COMMANDS)
        }
    }

    closed spec fn queue_spec(&self) -> Option<Queue> {
        None
    }

    closed spec fn device_spec(&self) -> u64 {
        self.semaphore.device
    }

    fn build_submission(&mut self) -> (r: SubmitState) {
        let mut submit = SubmitState::new();
        if !self.consumed {
            submit.wait_semaphore(&self.semaphore, STAGE_ALL_COMMANDS);
        }
        submit
    }

    fn device(&self) -> (r: u64) {
        self.semaphore.device
    }

    fn flush(&mut self) -> (r: SubmitState) {
        let submit = self.build_submission();
        self.consumed = true;
        submit
    }

    fn queue(&self) -> (r: Option<Queue>) {
        None
    }
}

/// A chain that signals a semaphore once its work is done.
pub struct SemaphoreSignalFuture<P> {
    prev: P,
    semaphore: Semaphore,
    signalled: bool,
}

impl<P: GpuFuture> SemaphoreSignalFuture<P> {
    pub closed spec fn prev_spec(&self) -> P {
        self.prev
    }

    pub fn new(prev: P, semaphore: Semaphore) -> (r: SemaphoreSignalFuture<P>)
        ensures
            r.prev_spec() == prev,
            r.pending() == prev.pending().with_signal(semaphore.vk),
            r.queue_spec() == prev.queue_spec(),
            r.device_spec() == prev.device_spec(),
    {
        SemaphoreSignalFuture { prev, semaphore, signalled: false }
    }
}

impl<P: GpuFuture> GpuFuture for SemaphoreSignalFuture<P> {
    closed spec fn pending(&self) -> SubmitView {
        if self.signalled {
            self.prev.pending()
        } else {
            self.prev.pending().with_signal(self.semaphore.vk)
        }
    }

    closed spec fn queue_spec(&self) -> Option<Queue> {
        self.prev.queue_spec()
    }

    closed spec fn device_spec(&self) -> u64 {
        self.prev.device_spec()
    }

    fn build_submission(&mut self) -> (r: SubmitState) {
        let mut submit = self.prev.build_submission();
        if !self.signalled {
            submit.signal_semaphore(&self.semaphore);
        }
        submit
    }

    fn device(&self) -> (r: u64) {
        self.prev.device()
    }

    fn flush(&mut self) -> (r: SubmitState) {
        let mut submit = self.prev.flush();
        if !self.signalled {
            submit.signal_semaphore(&self.semaphore);
        }
        self.signalled = true;
        submit
    }

    fn queue(&self) -> (r: Option<Queue>) {
        self.prev.queue()
    }
}

/// A native submission to make: its queue, the fence it signals (zero for
/// none) and its lists.
pub struct Submission {
    pub queue: Queue,
    pub fence: u64,
    pub state: SubmitState,
}

/// A fence: tells the CPU that a submission has completed. It keeps the
/// chain of that submission, and so every resource the chain holds, alive
/// until the wait on it has returned.
pub struct Fence<F> {
    device: u64,
    vk: u64,
    prev: Option<F>,
}

impl<F: GpuFuture> Fence<F> {
    pub closed spec fn handle(&self) -> u64 {
        self.vk
    }

    pub closed spec fn device_spec(&self) -> u64 {
        self.device
    }

    /// The chain the fence keeps alive.
    pub closed spec fn retained(&self) -> Option<F> {
        self.prev
    }

    /// Describes the native fence `vk` of device `device`, which guards no
    /// chain.
    pub fn new(device: u64, vk: u64) -> (r: Fence<F>)
        ensures
            r.handle() == vk,
            r.device_spec() == device,
            r.retained() is None,
    {
        Fence { device, vk, prev: None }
    }

    /// Takes the whole chain `prev` out for one submission that signals the
    /// native fence `vk`, and keeps the chain.
    pub fn end(prev: F, vk: u64) -> (r: (Fence<F>, Submission))
        requires
            prev.queue_spec() is Some,
        ensures
            r.1.queue == prev.queue_spec().unwrap(),
            r.1.fence == vk,
            r.1.state@ == prev.pending(),
            r.0.handle() == vk,
            r.0.device_spec() == prev.device_spec(),
            r.0.retained() matches Some(p) && p.pending() == SubmitView::empty() && p.queue_spec()
                == prev.queue_spec() && p.device_spec() == prev.device_spec(),
    {
        let mut prev = prev;
        let queue = prev.queue().unwrap();
        let device = prev.device();
        let state = prev.flush();
        (Fence { device, vk, prev: Some(prev) }, Submission { queue, fence: vk, state })
    }

    /// Called once the native wait on the fence has returned: releases the
    /// chain, whose resources may now be destroyed. Further calls release
    /// nothing.
    pub fn release(&mut self) -> (r: Option<F>)
        ensures
            r == old(self).retained(),
            final(self).retained() is None,
            final(self).handle() == old(self).handle(),
            final(self).device_spec() == old(self).device_spec(),
    {
        self.prev.take()
    }

    pub fn vk(&self) -> (r: u64)
        ensures
            r == self.handle(),
    {
        self.vk
    }

    pub fn device(&self) -> (r: u64)
        ensures
            r == self.device_spec(),
    {
        self.device
    }
}

/// Two independent futures merged into one submission.
pub struct JoinFuture<L, R> {
    left: L,
    right: R,
}

impl<L: GpuFuture, R: GpuFuture> JoinFuture<L, R> {
    pub closed spec fn left_spec(&self) -> L {
        self.left
    }

    pub closed spec fn right_spec(&self) -> R {
        self.right
    }

    /// Joins `left` and `right`, which must not name two different queues.
    pub fn new(left: L, right: R) -> (r: JoinFuture<L, R>)
        requires
            queues_agree(left.queue_spec(), right.queue_spec()),
        ensures
            r.left_spec() == left,
            r.right_spec() == right,
            r.pending() == left.pending().concat(right.pending()),
            r.queue_spec() == either_queue(left.queue_spec(), right.queue_spec()),
            r.device_spec() == left.device_spec(),
    {
        JoinFuture { left, right }
    }
}

impl<L: GpuFuture, R: GpuFuture> GpuFuture for JoinFuture<L, R> {
    closed spec fn pending(&self) -> SubmitView {
        self.left.pending().concat(self.right.pending())
    }

    closed spec fn queue_spec(&self) -> Option<Queue> {
        either_queue(self.left.queue_spec(), self.right.queue_spec())
    }

    closed spec fn device_spec(&self) -> u64 {
        self.left.device_spec()
    }

    fn build_submission(&mut self) -> (r: SubmitState) {
        let mut submit = self.left.build_submission();
        submit.join(self.right.build_submission());
        submit
    }

    fn device(&self) -> (r: u64) {
        self.left.device()
    }

    fn flush(&mut self) -> (r: SubmitState) {
        let mut submit = self.left.flush();
        submit.join(self.right.flush());
        proof {
            assert(self.pending().waits =~= SubmitView::empty().waits);
            assert(self.pending().wait_stages =~= SubmitView::empty().wait_stages);
            assert(self.pending().signals =~= SubmitView::empty().signals);
            assert(self.pending().cmds =~= SubmitView::empty().cmds);
        }
        submit
    }

    fn queue(&self) -> (r: Option<Queue>) {
        match self.left.queue() {
            Some(q) => Some(q),
            None => self.right.queue(),
        }
    }
}

/// A future with no work, on a device.
pub struct NowFuture {
    device: u64,
}

impl NowFuture {
    pub fn new(device: u64) -> (r: NowFuture)
        ensures
            r.device_spec() == device,
            r.pending() == SubmitView::empty(),
            r.queue_spec() is None,
    {
        NowFuture { device }
    }
}

impl GpuFuture for NowFuture {
    closed spec fn pending(&self) -> SubmitView {
        SubmitView::empty()
    }

    closed spec fn queue_spec(&self) -> Option<Queue> {
        None
    }

    closed spec fn device_spec(&self) -> u64 {
        self.device
    }

    fn build_submission(&mut self) -> (r: SubmitState) {
        SubmitState::new()
    }

    fn device(&self) -> (r: u64) {
        self.device
    }

    fn flush(&mut self) -> (r: SubmitState) {
        SubmitState::new()
    }

    fn queue(&self) -> (r: Option<Queue>) {
        None
    }
}

/// Joining two futures submits exactly the waits, signals and command
/// buffers of the left one followed by those of the right one: none is lost
/// and none is repeated.
pub proof fn lemma_join_concatenates<L: GpuFuture, R: GpuFuture>(j: JoinFuture<L, R>)
    ensures
        j.pending().waits == j.left_spec().pending().waits + j.right_spec().pending().waits,
        j.pending().wait_stages == j.left_spec().pending().wait_stages + j.right_spec().pending().wait_stages,
        j.pending().signals == j.left_spec().pending().signals + j.right_spec().pending().signals,
        j.pending().cmds == j.left_spec().pending().cmds + j.right_spec().pending().cmds,
{
}

} // verus!
