//! The command-buffer pool: one native pool per recording thread, the
//! handles each has allocated, and the handles that finished command
//! buffers have given back.
//!
//! The native calls (creating a pool, allocating handles, resetting) are
//! made by the caller; this type decides when they are needed and keeps the
//! account of every handle.
use vstd::prelude::*;
use crate::command::{
    CommandBuffer, CommandBufferBuilder, InheritanceInfo, Level, Primary, Secondary, begin_flags, inherit_entries,
    usage_flags_of,
};
use crate::resource::Resource;

verus! {

/// Pool creation flag: command buffers are short-lived.
pub const POOL_CREATE_TRANSIENT: u32 = 0x1;

/// Pool reset flag: give the pool's memory back to the system.
pub const POOL_RESET_RELEASE_RESOURCES: u32 = 0x1;

/// Handles of the two levels.
pub struct CmdCollection {
    pub primary: Vec<u64>,
    pub secondary: Vec<u64>,
}

impl CmdCollection {
    pub fn new() -> (r: CmdCollection)
        ensures
            r.primary@ == Seq::<u64>::empty(),
            r.secondary@ == Seq::<u64>::empty(),
    {
        CmdCollection { primary: Vec::new(), secondary: Vec::new() }
    }

    pub open spec fn level(&self, secondary: bool) -> Seq<u64> {
        if secondary {
            self.secondary@
        } else {
            self.primary@
        }
    }
}

/// The native pool of one thread, and where each of its handles is.
pub struct Arena {
    pub thread: u64,
    pub vk: u64,
    /// Allocated and not handed out.
    pub cmds: CmdCollection,
    /// Handed out to a command buffer that has not been given back.
    pub in_use: CmdCollection,
    /// Given back by a finished command buffer, usable after a reset.
    pub free: CmdCollection,
    pub primary_size: u32,
    pub secondary_size: u32,
}

impl Arena {
    /// The number of handles of a level ever allocated from this pool.
    pub open spec fn allocated(&self, secondary: bool) -> nat {
        if secondary {
            self.secondary_size as nat
        } else {
            self.primary_size as nat
        }
    }

    /// Every handle allocated is in exactly one of the three lists.
    pub open spec fn accounted(&self) -> bool {
        forall|secondary: bool|
            #[trigger] self.allocated(secondary) == self.cmds.level(secondary).len()
                + self.in_use.level(secondary).len() + self.free.level(secondary).len()
    }

    /// The same pool, with the other level untouched.
    pub open spec fn other_level_kept(&self, old: &Arena, secondary: bool) -> bool {
        &&& self.thread == old.thread
        &&& self.vk == old.vk
        &&& self.cmds.level(!secondary) == old.cmds.level(!secondary)
        &&& self.in_use.level(!secondary) == old.in_use.level(!secondary)
        &&& self.free.level(!secondary) == old.free.level(!secondary)
        &&& self.allocated(!secondary) == old.allocated(!secondary)
    }
}

/// How many handles must be allocated before one can be handed out: none
/// while some are idle, else as many as were allocated so far (at least
/// one), doubling the pool's count.
pub open spec fn alloc_count_of(idle: nat, allocated: nat) -> nat {
    if idle > 0 {
        0
    } else if allocated == 0 {
        1
    } else {
        allocated
    }
}

/// Hands out the last idle handle, after adding `fresh` to the idle ones.
fn take_handle(idle: &mut Vec<u64>, in_use: &mut Vec<u64>, size: &mut u32, fresh: Vec<u64>) -> (r: u64)
    requires
        old(idle)@.len() + fresh@.len() > 0,
        *old(size) + fresh@.len() <= u32::MAX,
    ensures
        r == (old(idle)@ + fresh@).last(),
        final(idle)@ == (old(idle)@ + fresh@).drop_last(),
        final(in_use)@ == old(in_use)@.push(r),
        *final(size) == *old(size) + fresh@.len(),
{
    let n = fresh.len();
    let mut fresh = fresh;
    idle.append(&mut fresh);
    *size = *size + n as u32;
    let h = idle.pop().unwrap();
    in_use.push(h);
    h
}

/// The first index of `h` in `v`.
fn position(v: &Vec<u64>, h: u64) -> (r: Option<usize>)
    ensures
        r matches Some(i) ==> i < v@.len() && v@[i as int] == h,
        r is None <==> !v@.contains(h),
{
    let mut i: usize = 0;
    while i < v.len()
        invariant
            i <= v@.len(),
            forall|j: int| 0 <= j < i ==> v@[j] != h,
        decreases v@.len() - i,
    {
        if v[i] == h {
            return Some(i);
        }
        i += 1;
    }
    None
}

/// Moves the handle at index `i` of `in_use` to the end of `free`.
fn give_back(in_use: &mut Vec<u64>, free: &mut Vec<u64>, i: usize)
    requires
        i < old(in_use)@.len(),
    ensures
        final(in_use)@ == old(in_use)@.remove(i as int),
        final(free)@ == old(free)@.push(old(in_use)@[i as int]),
{
    let h = in_use.remove(i);
    free.push(h);
}

/// Moves every handle of `free` to the end of `idle`.
fn reclaim(idle: &mut Vec<u64>, free: &mut Vec<u64>)
    ensures
        final(idle)@ == old(idle)@ + old(free)@,
        final(free)@ == Seq::<u64>::empty(),
{
    idle.append(free);
}

/// A pool of command buffers for one queue family.
pub struct CommandPool {
    queue_family: u32,
    transient: bool,
    arenas: Vec<Arena>,
}

impl CommandPool {
    pub closed spec fn family(&self) -> u32 {
        self.queue_family
    }

    pub closed spec fn is_transient(&self) -> bool {
        self.transient
    }

    /// The native pools of all threads, in the order they were added.
    pub closed spec fn arenas_spec(&self) -> Seq<Arena> {
        self.arenas@
    }

    pub open spec fn has_thread(&self, thread: u64) -> bool {
        exists|i: int| 0 <= i < self.arenas_spec().len() && (#[trigger] self.arenas_spec()[i]).thread == thread
    }

    /// The native pool of `thread`.
    pub open spec fn arena(&self, thread: u64) -> Arena {
        let i = choose|i: int| 0 <= i < self.arenas_spec().len() && (#[trigger] self.arenas_spec()[i]).thread == thread;
        self.arenas_spec()[i]
    }

    /// Threads and native pools are each named once, and every pool
    /// accounts for each handle it allocated.
    pub open spec fn wf(&self) -> bool {
        let a = self.arenas_spec();
        &&& forall|i: int, j: int|
            0 <= i < a.len() && 0 <= j < a.len() && i != j ==> (#[trigger] a[i]).thread != (
            #[trigger] a[j]).thread && a[i].vk != a[j].vk
        &&& forall|i: int| 0 <= i < a.len() ==> (#[trigger] a[i]).accounted()
    }

    /// The native pools of all threads but `thread` are as in `old`.
    pub open spec fn others_kept(&self, old: &CommandPool, thread: u64) -> bool {
        &&& self.family() == old.family()
        &&& self.is_transient() == old.is_transient()
        &&& forall|t: u64| t != thread ==> (#[trigger] self.has_thread(t) <==> old.has_thread(t))
        &&& forall|t: u64| t != thread && old.has_thread(t) ==> #[trigger] self.arena(t) == old.arena(t)
    }

    /// Makes a pool for queue family `queue_family`, with no native pool yet.
    pub fn new(queue_family: u32, transient: bool) -> (r: CommandPool)
        ensures
            r.wf(),
            r.family() == queue_family,
            r.is_transient() == transient,
            r.arenas_spec() == Seq::<Arena>::empty(),
    {
        CommandPool { queue_family, transient, arenas: Vec::new() }
    }

    /// The queue family of the pool.
    pub fn queue_family(&self) -> (r: u32)
        ensures
            r == self.family(),
    {
        self.queue_family
    }

    /// The flags to create a thread's native pool with.
    pub fn create_flags(&self) -> (r: u32)
        ensures
            r == (if self.is_transient() { POOL_CREATE_TRANSIENT } else { 0 }),
    {
        if self.transient {
            POOL_CREATE_TRANSIENT
        } else {
            0
        }
    }

    fn find_thread(&self, thread: u64) -> (r: Option<usize>)
        requires
            self.wf(),
        ensures
            r matches Some(i) ==> i < self.arenas_spec().len() && self.arenas_spec()[i as int].thread == thread
                && self.arena(thread) == self.arenas_spec()[i as int],
            r is None <==> !self.has_thread(thread),
    {
        let mut i: usize = 0;
        while i < self.arenas.len()
            invariant
                i <= self.arenas@.len(),
                self.wf(),
                forall|j: int| 0 <= j < i ==> (#[trigger] self.arenas@[j]).thread != thread,
            decreases self.arenas@.len() - i,
        {
            if self.arenas[i].thread == thread {
                proof {
                    let a = self.arenas_spec();
                    assert(a[i as int].thread == thread);
                    let k = choose|k: int| 0 <= k < a.len() && (#[trigger] a[k]).thread == thread;
                    if k != i {
                        assert(a[k].thread != a[i as int].thread);
                    }
                }
                return Some(i);
            }
            i += 1;
        }
        None
    }

    fn find_pool(&self, vk: u64) -> (r: Option<usize>)
        requires
            self.wf(),
        ensures
            r matches Some(i) ==> i < self.arenas_spec().len() && self.arenas_spec()[i as int].vk == vk,
            r is None <==> forall|i: int| 0 <= i < self.arenas_spec().len() ==> (#[trigger] self.arenas_spec()[i]).vk != vk,
    {
        let mut i: usize = 0;
        while i < self.arenas.len()
            invariant
                i <= self.arenas@.len(),
                forall|j: int| 0 <= j < i ==> (#[trigger] self.arenas@[j]).vk != vk,
            decreases self.arenas@.len() - i,
        {
            if self.arenas[i].vk == vk {
                proof {
                    assert(self.arenas_spec()[i as int].vk == vk);
                }
                return Some(i);
            }
            i += 1;
        }
        None
    }

    /// The native pool of `thread`, if it has one yet.
    pub fn pool_for(&self, thread: u64) -> (r: Option<u64>)
        requires
            self.wf(),
        ensures
            r is Some <==> self.has_thread(thread),
            r matches Some(vk) ==> vk == self.arena(thread).vk,
    {
        match self.find_thread(thread) {
            Some(i) => Some(self.arenas[i].vk),
            None => None,
        }
    }

    /// Gives `thread` the native pool `vk`, just created with
    /// [`CommandPool::create_flags`]. Refused, with no change, where the
    /// thread has a pool already or `vk` is another thread's pool.
    pub fn add_thread_pool(&mut self, thread: u64, vk: u64) -> (r: bool)
        requires
            old(self).wf(),
        ensures
            final(self).wf(),
            r == (!old(self).has_thread(thread) && forall|i: int|
                0 <= i < old(self).arenas_spec().len() ==> (#[trigger] old(self).arenas_spec()[i]).vk != vk),
            r ==> final(self).arenas_spec() == old(self).arenas_spec().push(
                Arena {
                    thread,
                    vk,
                    cmds: final(self).arena(thread).cmds,
                    in_use: final(self).arena(thread).in_use,
                    free: final(self).arena(thread).free,
                    primary_size: 0,
                    secondary_size: 0,
                },
            ),
            r ==> final(self).has_thread(thread) && final(self).arena(thread).vk == vk,
            r ==> forall|s: bool|
                #![auto]
                final(self).arena(thread).cmds.level(s).len() == 0 && final(self).arena(thread).in_use.level(s).len() == 0
                    && final(self).arena(thread).free.level(s).len() == 0 && final(self).arena(thread).allocated(s) == 0,
            r ==> final(self).others_kept(old(self), thread),
            !r ==> *final(self) == *old(self),
    {
        if self.find_thread(thread).is_some() || self.find_pool(vk).is_some() {
            return false;
        }
        let arena = Arena {
            thread,
            vk,
            cmds: CmdCollection::new(),
            in_use: CmdCollection::new(),
            free: CmdCollection::new(),
            primary_size: 0,
            secondary_size: 0,
        };
        let ghost old_arenas = self.arenas@;
        self.arenas.push(arena);
        proof {
            let a = self.arenas@;
            let n = old_arenas.len() as int;
            assert(a[n].thread == thread);
            assert(self.has_thread(thread));
            let k = choose|k: int| 0 <= k < a.len() && (#[trigger] a[k]).thread == thread;
            assert(k == n);
            assert(a[n].accounted()) by {
                assert forall|s: bool| #[trigger] a[n].allocated(s) == a[n].cmds.level(s).len()
                    + a[n].in_use.level(s).len() + a[n].free.level(s).len() by {}
            }
            assert forall|t: u64| t != thread && old(self).has_thread(t) implies #[trigger] self.arena(t) == old(self).arena(t) by {
                let j = choose|j: int| 0 <= j < old_arenas.len() && (#[trigger] old_arenas[j]).thread == t;
                assert(a[j].thread == t);
                let k2 = choose|k: int| 0 <= k < a.len() && (#[trigger] a[k]).thread == t;
                assert(k2 == j);
            }
            assert forall|t: u64| t != thread implies (#[trigger] self.has_thread(t) <==> old(self).has_thread(t)) by {
                if self.has_thread(t) {
                    let k2 = choose|k: int| 0 <= k < a.len() && (#[trigger] a[k]).thread == t;
                    assert(old_arenas[k2].thread == t);
                }
                if old(self).has_thread(t) {
                    let j = choose|j: int| 0 <= j < old_arenas.len() && (#[trigger] old_arenas[j]).thread == t;
                    assert(a[j].thread == t);
                }
            }
        }
        true
    }

    /// How many handles of a level must be allocated natively, and passed
    /// to the next `record` of `thread` at that level.
    pub open spec fn alloc_count_spec(&self, thread: u64, secondary: bool) -> nat {
        alloc_count_of(self.arena(thread).cmds.level(secondary).len(), self.arena(thread).allocated(secondary))
    }

    /// How many handles of a level the caller must allocate natively before
    /// `thread` records a command buffer at that level.
    pub fn alloc_count(&self, thread: u64, secondary: bool) -> (r: u32)
        requires
            self.wf(),
            self.has_thread(thread),
        ensures
            r == self.alloc_count_spec(thread, secondary),
    {
        let i = self.find_thread(thread).unwrap();
        let a = &self.arenas[i];
        let (idle, size) = if secondary {
            (a.cmds.secondary.len(), a.secondary_size)
        } else {
            (a.cmds.primary.len(), a.primary_size)
        };
        if idle > 0 {
            0
        } else if size == 0 {
            1
        } else {
            size
        }
    }

    /// `self` is `old` with the pool of `thread` replaced by `a`, which is
    /// the same native pool.
    proof fn lemma_replace_arena(&self, old: &CommandPool, i: int, a: Arena)
        requires
            old.wf(),
            0 <= i < old.arenas_spec().len(),
            a.thread == old.arenas_spec()[i].thread,
            a.vk == old.arenas_spec()[i].vk,
            a.accounted(),
            self.arenas_spec() == old.arenas_spec().update(i, a),
            self.family() == old.family(),
            self.is_transient() == old.is_transient(),
        ensures
            self.wf(),
            self.has_thread(a.thread),
            old.has_thread(a.thread),
            old.arena(a.thread) == old.arenas_spec()[i],
            self.arena(a.thread) == a,
            self.others_kept(old, a.thread),
    {
        let s = self.arenas_spec();
        let o = old.arenas_spec();
        assert(s[i] == a);
        assert forall|j: int, k: int|
            0 <= j < s.len() && 0 <= k < s.len() && j != k implies (#[trigger] s[j]).thread != (
            #[trigger] s[k]).thread && s[j].vk != s[k].vk by {
            assert(o[j].thread != o[k].thread && o[j].vk != o[k].vk);
        }
        assert forall|j: int| 0 <= j < s.len() implies (#[trigger] s[j]).accounted() by {
            if j != i {
                assert(s[j] == o[j]);
            }
        }
        let k1 = choose|k: int| 0 <= k < s.len() && (#[trigger] s[k]).thread == a.thread;
        if k1 != i {
            assert(s[k1].thread != s[i].thread);
        }
        assert(o[i].thread == a.thread);
        let k0 = choose|k: int| 0 <= k < o.len() && (#[trigger] o[k]).thread == a.thread;
        if k0 != i {
            assert(o[k0].thread != o[i].thread);
        }
        assert forall|t: u64| t != a.thread implies (#[trigger] self.has_thread(t) <==> old.has_thread(t)) by {
            if self.has_thread(t) {
                let k = choose|k: int| 0 <= k < s.len() && (#[trigger] s[k]).thread == t;
                assert(o[k].thread == t);
            }
            if old.has_thread(t) {
                let k = choose|k: int| 0 <= k < o.len() && (#[trigger] o[k]).thread == t;
                assert(s[k].thread == t);
            }
        }
        assert forall|t: u64| t != a.thread && old.has_thread(t) implies #[trigger] self.arena(t) == old.arena(t) by {
            let k = choose|k: int| 0 <= k < o.len() && (#[trigger] o[k]).thread == t;
            assert(s[k].thread == t);
            let k2 = choose|k: int| 0 <= k < s.len() && (#[trigger] s[k]).thread == t;
            if k2 != k {
                assert(s[k2].thread != s[k].thread);
            }
        }
    }

    /// `self` is `old` after handle `h` of a level was handed out from the
    /// pool of `thread`, once `fresh` had been added to it.
    pub open spec fn handed_out(&self, old: &CommandPool, thread: u64, secondary: bool, fresh: Seq<u64>, h: u64) -> bool {
        let a0 = old.arena(thread);
        let a1 = self.arena(thread);
        &&& self.wf()
        &&& self.has_thread(thread)
        &&& self.others_kept(old, thread)
        &&& a1.other_level_kept(&a0, secondary)
        &&& h == (a0.cmds.level(secondary) + fresh).last()
        &&& a1.cmds.level(secondary) == (a0.cmds.level(secondary) + fresh).drop_last()
        &&& a1.in_use.level(secondary) == a0.in_use.level(secondary).push(h)
        &&& a1.free.level(secondary) == a0.free.level(secondary)
        &&& a1.allocated(secondary) == a0.allocated(secondary) + fresh.len()
    }

    /// What `record` asks: a pool for the thread, and exactly the handles
    /// that [`CommandPool::alloc_count`] asked for.
    pub open spec fn can_record(&self, thread: u64, secondary: bool, fresh: Seq<u64>) -> bool {
        &&& self.wf()
        &&& self.has_thread(thread)
        &&& fresh.len() == self.alloc_count_spec(thread, secondary)
        &&& self.arena(thread).allocated(secondary) + fresh.len() <= u32::MAX
    }

    fn get_cmdbuf(&mut self, thread: u64, secondary: bool, fresh: Vec<u64>) -> (r: (u64, u64))
        requires
            old(self).can_record(thread, secondary, fresh@),
        ensures
            final(self).handed_out(old(self), thread, secondary, fresh@, r.0),
            r.1 == old(self).arena(thread).vk,
    {
        let i = self.find_thread(thread).unwrap();
        let ghost old_self = *self;
        let mut a = self.arenas.remove(i);
        let ghost a0 = a;
        proof {
            assert(old_self.arenas_spec()[i as int].accounted());
            assert(a0.accounted());
            assert(a0.allocated(secondary) == a0.cmds.level(secondary).len() + a0.in_use.level(secondary).len()
                + a0.free.level(secondary).len());
        }
        let h = if secondary {
            take_handle(&mut a.cmds.secondary, &mut a.in_use.secondary, &mut a.secondary_size, fresh)
        } else {
            take_handle(&mut a.cmds.primary, &mut a.in_use.primary, &mut a.primary_size, fresh)
        };
        let vk = a.vk;
        proof {
            assert(a.accounted()) by {
                assert forall|s: bool| #[trigger] a.allocated(s) == a.cmds.level(s).len()
                    + a.in_use.level(s).len() + a.free.level(s).len() by {
                    assert(a0.allocated(s) == a0.cmds.level(s).len() + a0.in_use.level(s).len()
                        + a0.free.level(s).len());
                }
            }
        }
        self.arenas.insert(i, a);
        proof {
            assert(self.arenas@ =~= old_self.arenas@.update(i as int, a));
            self.lemma_replace_arena(&old_self, i as int, a);
        }
        (h, vk)
    }

    /// Begins recording a primary command buffer on `thread`. `fresh` holds
    /// the handles just allocated natively at the primary level, as many as
    /// [`CommandPool::alloc_count`] asked for.
    pub fn record(&mut self, thread: u64, fresh: Vec<u64>, one_time: bool, simultaneous: bool) -> (r: CommandBufferBuilder<Primary>)
        requires
            old(self).can_record(thread, false, fresh@),
        ensures
            final(self).handed_out(old(self), thread, false, fresh@, r.handle()),
            r.pool() == old(self).arena(thread).vk,
            r.family() == old(self).family(),
            r.commands_spec() == Seq::<crate::command::Command>::empty(),
            r.ledger() == Seq::<Resource>::empty(),
            r.covered(),
            r.usage_spec() == usage_flags_of(one_time, simultaneous, false),
    {
        let usage = begin_flags(one_time, simultaneous, &None);
        let (cmd, vkpool) = self.get_cmdbuf(thread, false, fresh);
        CommandBufferBuilder::new(self.queue_family, vkpool, usage, None, cmd)
    }

    /// Begins recording a secondary command buffer on `thread`, which
    /// continues the render pass context `inherit` if there is one.
    pub fn record_secondary(
        &mut self,
        thread: u64,
        fresh: Vec<u64>,
        one_time: bool,
        simultaneous: bool,
        inherit: Option<InheritanceInfo>,
    ) -> (r: CommandBufferBuilder<Secondary>)
        requires
            old(self).can_record(thread, true, fresh@),
        ensures
            final(self).handed_out(old(self), thread, true, fresh@, r.handle()),
            r.pool() == old(self).arena(thread).vk,
            r.family() == old(self).family(),
            r.commands_spec() == Seq::<crate::command::Command>::empty(),
            r.ledger() == inherit_entries(inherit),
            r.covered(),
            r.usage_spec() == usage_flags_of(one_time, simultaneous, inherit is Some),
    {
        let usage = begin_flags(one_time, simultaneous, &inherit);
        let (cmd, vkpool) = self.get_cmdbuf(thread, true, fresh);
        CommandBufferBuilder::new(self.queue_family, vkpool, usage, inherit, cmd)
    }

    /// The number of command buffers of `thread` handed out and not given
    /// back.
    pub fn outstanding(&self, thread: u64) -> (r: u64)
        requires
            self.wf(),
            self.has_thread(thread),
        ensures
            r == self.arena(thread).in_use.level(false).len() + self.arena(thread).in_use.level(true).len(),
    {
        let i = self.find_thread(thread).unwrap();
        let a = &self.arenas[i];
        proof {
            assert(self.arenas_spec()[i as int].accounted());
            assert(a.allocated(false) == a.cmds.level(false).len() + a.in_use.level(false).len()
                + a.free.level(false).len());
            assert(a.allocated(true) == a.cmds.level(true).len() + a.in_use.level(true).len()
                + a.free.level(true).len());
        }
        a.in_use.primary.len() as u64 + a.in_use.secondary.len() as u64
    }

    /// `self` is `old` after the handle `h` of a level of the pool of
    /// `thread` was given back.
    pub open spec fn given_back(&self, old: &CommandPool, thread: u64, secondary: bool, h: u64) -> bool {
        let a0 = old.arena(thread);
        let a1 = self.arena(thread);
        &&& self.wf()
        &&& self.has_thread(thread)
        &&& self.others_kept(old, thread)
        &&& a1.other_level_kept(&a0, secondary)
        &&& a1.cmds.level(secondary) == a0.cmds.level(secondary)
        &&& exists|i: int|
            0 <= i < a0.in_use.level(secondary).len() && a0.in_use.level(secondary)[i] == h
                && a1.in_use.level(secondary) == a0.in_use.level(secondary).remove(i)
        &&& a1.free.level(secondary) == a0.free.level(secondary).push(h)
        &&& a1.allocated(secondary) == a0.allocated(secondary)
    }

    /// Gives the handle of a finished command buffer back to the free list
    /// of the pool it was drawn from. Refused, with no change, where that
    /// pool has no such handle out.
    pub fn recycle<L: Level>(&mut self, cmd: &CommandBuffer<L>) -> (r: bool)
        requires
            old(self).wf(),
        ensures
            r == exists|t: u64|
                old(self).has_thread(t) && #[trigger] old(self).arena(t).vk == cmd.pool() && old(self).arena(
                    t,
                ).in_use.level(L::secondary_spec()).contains(cmd.handle()),
            r ==> exists|t: u64|
                old(self).has_thread(t) && #[trigger] old(self).arena(t).vk == cmd.pool() && final(self).given_back(
                    old(self),
                    t,
                    L::secondary_spec(),
                    cmd.handle(),
                ),
            !r ==> *final(self) == *old(self),
    {
        let secondary = L::secondary();
        let h = cmd.vk();
        let i = match self.find_pool(cmd.pool_handle()) {
            Some(i) => i,
            None => {
                proof {
                    assert forall|t: u64| old(self).has_thread(t) implies #[trigger] old(self).arena(t).vk != cmd.pool() by {
                        let k = choose|k: int| 0 <= k < self.arenas_spec().len() && (#[trigger] self.arenas_spec()[k]).thread == t;
                        assert(self.arenas_spec()[k].vk != cmd.pool());
                    }
                }
                return false;
            },
        };
        let ghost old_self = *self;
        let ghost t = self.arenas@[i as int].thread;
        proof {
            let o = self.arenas_spec();
            assert(o[i as int].thread == t);
            let k = choose|k: int| 0 <= k < o.len() && (#[trigger] o[k]).thread == t;
            if k != i {
                assert(o[k].thread != o[i as int].thread);
            }
            assert(self.arena(t) == o[i as int]);
            assert forall|t2: u64| old(self).has_thread(t2) && #[trigger] old(self).arena(t2).vk == cmd.pool() implies t2 == t by {
                let k2 = choose|k: int| 0 <= k < o.len() && (#[trigger] o[k]).thread == t2;
                if k2 != i {
                    assert(o[k2].vk != o[i as int].vk);
                }
            }
        }
        let found = if secondary {
            position(&self.arenas[i].in_use.secondary, h)
        } else {
            position(&self.arenas[i].in_use.primary, h)
        };
        let j = match found {
            Some(j) => j,
            None => {
                return false;
            },
        };
        let mut a = self.arenas.remove(i);
        let ghost a0 = a;
        proof {
            assert(old_self.arenas_spec()[i as int].accounted());
            assert(a0.allocated(secondary) == a0.cmds.level(secondary).len() + a0.in_use.level(secondary).len()
                + a0.free.level(secondary).len());
        }
        if secondary {
            give_back(&mut a.in_use.secondary, &mut a.free.secondary, j);
        } else {
            give_back(&mut a.in_use.primary, &mut a.free.primary, j);
        }
        proof {
            assert(a.accounted()) by {
                assert forall|s: bool| #[trigger] a.allocated(s) == a.cmds.level(s).len()
                    + a.in_use.level(s).len() + a.free.level(s).len() by {
                    assert(a0.allocated(s) == a0.cmds.level(s).len() + a0.in_use.level(s).len()
                        + a0.free.level(s).len());
                }
            }
        }
        self.arenas.insert(i, a);
        proof {
            assert(self.arenas@ =~= old_self.arenas@.update(i as int, a));
            self.lemma_replace_arena(&old_self, i as int, a);
            assert(a0.in_use.level(secondary)[j as int] == h);
        }
        true
    }

    /// Resets the native pool of `thread`: every handle given back becomes
    /// usable again. No command buffer of the thread may be out.
    ///
    /// Returns the flags for the native reset.
    pub fn reset(&mut self, thread: u64, release: bool) -> (r: u32)
        requires
            old(self).wf(),
            old(self).has_thread(thread),
            old(self).arena(thread).in_use.level(false).len() == 0,
            old(self).arena(thread).in_use.level(true).len() == 0,
        ensures
            final(self).wf(),
            final(self).has_thread(thread),
            final(self).others_kept(old(self), thread),
            final(self).arena(thread).vk == old(self).arena(thread).vk,
            forall|s: bool|
                #![auto]
                final(self).arena(thread).cmds.level(s) == old(self).arena(thread).cmds.level(s) + old(self).arena(
                    thread,
                ).free.level(s) && final(self).arena(thread).free.level(s).len() == 0 && final(self).arena(
                    thread,
                ).in_use.level(s).len() == 0 && final(self).arena(thread).allocated(s) == old(self).arena(
                    thread,
                ).allocated(s),
            r == (if release { POOL_RESET_RELEASE_RESOURCES } else { 0 }),
    {
        let i = self.find_thread(thread).unwrap();
        let ghost old_self = *self;
        let mut a = self.arenas.remove(i);
        let ghost a0 = a;
        proof {
            assert(old_self.arenas_spec()[i as int].accounted());
        }
        reclaim(&mut a.cmds.primary, &mut a.free.primary);
        reclaim(&mut a.cmds.secondary, &mut a.free.secondary);
        proof {
            assert(a.accounted()) by {
                assert forall|s: bool| #[trigger] a.allocated(s) == a.cmds.level(s).len()
                    + a.in_use.level(s).len() + a.free.level(s).len() by {
                    assert(a0.allocated(s) == a0.cmds.level(s).len() + a0.in_use.level(s).len()
                        + a0.free.level(s).len());
                }
            }
        }
        self.arenas.insert(i, a);
        proof {
            assert(self.arenas@ =~= old_self.arenas@.update(i as int, a));
            self.lemma_replace_arena(&old_self, i as int, a);
        }
        if release {
            POOL_RESET_RELEASE_RESOURCES
        } else {
            0
        }
    }

    /// The native pools of all threads, to be destroyed with the pool.
    pub fn pool_handles(&self) -> (r: Vec<u64>)
        ensures
            r@ == self.arenas_spec().map_values(|a: Arena| a.vk),
    {
        let mut out: Vec<u64> = Vec::new();
        let mut i: usize = 0;
        while i < self.arenas.len()
            invariant
                i <= self.arenas@.len(),
                out@ == self.arenas@.subrange(0, i as int).map_values(|a: Arena| a.vk),
            decreases self.arenas@.len() - i,
        {
            out.push(self.arenas[i].vk);
            proof {
                assert(self.arenas@.subrange(0, i + 1 as int) == self.arenas@.subrange(0, i as int).push(
                    self.arenas@[i as int],
                ));
            }
            i += 1;
        }
        proof {
            assert(self.arenas@.subrange(0, i as int) == self.arenas@);
        }
        out
    }
}

/// Every handle a thread's native pool has allocated at a level is idle,
/// out in a command buffer, or given back and awaiting a reset: the three
/// counts add up to the number allocated, whatever was recorded, built and
/// given back before.
pub proof fn lemma_handles_accounted(pool: &CommandPool, thread: u64, secondary: bool)
    requires
        pool.wf(),
        pool.has_thread(thread),
    ensures
        pool.arena(thread).allocated(secondary) == pool.arena(thread).cmds.level(secondary).len()
            + pool.arena(thread).in_use.level(secondary).len() + pool.arena(thread).free.level(
            secondary,
        ).len(),
{
    let a = pool.arenas_spec();
    let i = choose|i: int| 0 <= i < a.len() && (#[trigger] a[i]).thread == thread;
    assert(a[i].accounted());
    assert(a[i].allocated(secondary) == a[i].cmds.level(secondary).len() + a[i].in_use.level(secondary).len()
        + a[i].free.level(secondary).len());
}

/// A handle given back by a finished command buffer is idle again, ready
/// for the next `record`, once its thread's pool has been reset.
pub proof fn lemma_given_back_reusable_after_reset(
    before: &CommandPool,
    returned: &CommandPool,
    after_reset: &CommandPool,
    thread: u64,
    secondary: bool,
    h: u64,
)
    requires
        returned.given_back(before, thread, secondary, h),
        after_reset.has_thread(thread),
        after_reset.arena(thread).cmds.level(secondary) == returned.arena(thread).cmds.level(secondary)
            + returned.arena(thread).free.level(secondary),
    ensures
        after_reset.arena(thread).cmds.level(secondary).contains(h),
{
    let idle = returned.arena(thread).cmds.level(secondary);
    let free = returned.arena(thread).free.level(secondary);
    assert(free.last() == h);
    assert(after_reset.arena(thread).cmds.level(secondary)[idle.len() + free.len() - 1] == h);
}

} // verus!
