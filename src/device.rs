//! Queues, and the futures that submit a command buffer to one.
use vstd::prelude::*;
use std::sync::Arc;
use crate::command::{CommandBuffer, Primary};
use crate::sync::{GpuFuture, SubmitState, SubmitView, queues_agree};

verus! {

/// A hardware queue of a device, of a queue family.
#[derive(Clone, Copy, Debug, PartialEq, Eq, Structural)]
pub struct Queue {
    pub device: u64,
    pub family: u32,
    pub vk: u64,
}

impl Queue {
    /// Describes the native queue `vk` of family `family` of device `device`.
    pub fn new(device: u64, family: u32, vk: u64) -> (r: Queue)
        ensures
            r == (Queue { device, family, vk }),
    {
        Queue { device, family, vk }
    }

    pub fn device(&self) -> (r: u64)
        ensures
            r == self.device,
    {
        self.device
    }

    pub fn family(&self) -> (r: u32)
        ensures
            r == self.family,
    {
        self.family
    }

    /// A future that runs `cmd`, recorded for this queue's family, on this
    /// queue.
    pub fn submit(&self, cmd: Arc<CommandBuffer<Primary>>) -> (r: SubmitFuture)
        requires
            cmd.family() == self.family,
        ensures
            r.pending() == SubmitView::empty().with_cmd(cmd.handle()),
            r.queue_spec() == Some(*self),
            r.device_spec() == self.device,
            r.command_buffer_spec() == cmd,
    {
        SubmitFuture { queue: *self, cmd, flushed: false }
    }

    /// A future that runs `cmd` on this queue after the work of `prev`,
    /// which must not name another queue.
    pub fn submit_after<T: GpuFuture>(&self, prev: T, cmd: Arc<CommandBuffer<Primary>>) -> (r: SubmitAfterFuture<T>)
        requires
            cmd.family() == self.family,
            queues_agree(prev.queue_spec(), Some(*self)),
        ensures
            r.pending() == prev.pending().with_cmd(cmd.handle()),
            r.queue_spec() == Some(*self),
            r.device_spec() == self.device,
            r.command_buffer_spec() == cmd,
    {
        SubmitAfterFuture { queue: *self, cmd, prev, flushed: false }
    }
}

/// One command buffer to run on one queue.
pub struct SubmitFuture {
    queue: Queue,
    cmd: Arc<CommandBuffer<Primary>>,
    flushed: bool,
}

impl SubmitFuture {
    pub closed spec fn command_buffer_spec(&self) -> Arc<CommandBuffer<Primary>> {
        self.cmd
    }

    /// The command buffer this future runs.
    pub fn command_buffer(&self) -> (r: &Arc<CommandBuffer<Primary>>)
        ensures
            *r == self.command_buffer_spec(),
    {
        &self.cmd
    }
}

impl GpuFuture for SubmitFuture {
    closed spec fn pending(&self) -> SubmitView {
        if self.flushed {
            SubmitView::empty()
        } else {
            SubmitView::empty().with_cmd(self.cmd.handle())
        }
    }

    closed spec fn queue_spec(&self) -> Option<Queue> {
        Some(self.queue)
    }

    closed spec fn device_spec(&self) -> u64 {
        self.queue.device
    }

    fn build_submission(&mut self) -> (r: SubmitState) {
        let mut submit = SubmitState::new();
        if !self.flushed {
            submit.cmd(&self.cmd);
        }
        submit
    }

    fn device(&self) -> (r: u64) {
        self.queue.device
    }

    fn flush(&mut self) -> (r: SubmitState) {
        let submit = self.build_submission();
        self.flushed = true;
        submit
    }

    fn queue(&self) -> (r: Option<Queue>) {
        Some(self.queue)
    }
}

/// A command buffer to run on one queue after the work of a previous future.
pub struct SubmitAfterFuture<T> {
    queue: Queue,
    cmd: Arc<CommandBuffer<Primary>>,
    prev: T,
    flushed: bool,
}

impl<T: GpuFuture> SubmitAfterFuture<T> {
    pub closed spec fn command_buffer_spec(&self) -> Arc<CommandBuffer<Primary>> {
        self.cmd
    }

    /// The command buffer this future adds.
    pub fn command_buffer(&self) -> (r: &Arc<CommandBuffer<Primary>>)
        ensures
            *r == self.command_buffer_spec(),
    {
        &self.cmd
    }
}

impl<T: GpuFuture> GpuFuture for SubmitAfterFuture<T> {
    closed spec fn pending(&self) -> SubmitView {
        if self.flushed {
            self.prev.pending()
        } else {
            self.prev.pending().with_cmd(self.cmd.handle())
        }
    }

    closed spec fn queue_spec(&self) -> Option<Queue> {
        Some(self.queue)
    }

    closed spec fn device_spec(&self) -> u64 {
        self.queue.device
    }

    fn build_submission(&mut self) -> (r: SubmitState) {
        let mut submit = self.prev.build_submission();
        if !self.flushed {
            submit.cmd(&self.cmd);
        }
        submit
    }

    fn device(&self) -> (r: u64) {
        self.queue.device
    }

    fn flush(&mut self) -> (r: SubmitState) {
        let mut submit = self.prev.flush();
        if !self.flushed {
            submit.cmd(&self.cmd);
        }
        self.flushed = true;
        submit
    }

    fn queue(&self) -> (r: Option<Queue>) {
        Some(self.queue)
    }
}

} // verus!
