//! Recording of command buffers.
use vstd::prelude::*;
use std::marker::PhantomData;
use std::sync::Arc;
use crate::layout::{AccessMasks, ImageLayout, transition_masks, barrier_access_masks};
use crate::resource::{
    Buffer, DescriptorSet, Extent3D, Framebuffer, GraphicsPipeline, Image, PipelineLayout,
    RenderPass, Resource, ResourceKind, ledger_keys,
};

verus! {

/// The level a command buffer is recorded at. Only the two levels below
/// implement it.
pub trait Level {
    spec fn secondary_spec() -> bool;

    fn secondary() -> (r: bool)
        ensures
            r == Self::secondary_spec(),
    ;
}

/// Marker of a primary command buffer: one that is submitted to a queue.
pub struct Primary;

/// Marker of a secondary command buffer: one that a primary one executes.
pub struct Secondary;

impl Level for Primary {
    open spec fn secondary_spec() -> bool {
        false
    }

    fn secondary() -> (r: bool) {
        false
    }
}

impl Level for Secondary {
    open spec fn secondary_spec() -> bool {
        true
    }

    fn secondary() -> (r: bool) {
        true
    }
}

/// Usage flag: each recording is submitted once.
pub const USAGE_ONE_TIME_SUBMIT: u32 = 0x1;

/// Usage flag: a secondary command buffer continues a render pass.
pub const USAGE_RENDER_PASS_CONTINUE: u32 = 0x2;

/// Usage flag: the command buffer may be pending more than once at a time.
pub const USAGE_SIMULTANEOUS_USE: u32 = 0x4;

/// The usage flags that recording begins with.
pub open spec fn usage_flags_of(one_time: bool, simultaneous: bool, continues_render_pass: bool) -> u32 {
    ((if one_time { USAGE_ONE_TIME_SUBMIT } else { 0 }) + (if continues_render_pass {
        USAGE_RENDER_PASS_CONTINUE
    } else {
        0
    }) + (if simultaneous { USAGE_SIMULTANEOUS_USE } else { 0 })) as u32
}

/// The usage flags to begin a native recording with: one-time submission,
/// simultaneous use, and, where there is a render pass context, continuing
/// that render pass.
pub fn begin_flags(one_time: bool, simultaneous: bool, inherit: &Option<InheritanceInfo>) -> (r: u32)
    ensures
        r == usage_flags_of(one_time, simultaneous, inherit is Some),
{
    let mut flags: u32 = 0;
    if one_time {
        flags = flags + USAGE_ONE_TIME_SUBMIT;
    }
    if inherit.is_some() {
        flags = flags + USAGE_RENDER_PASS_CONTINUE;
    }
    if simultaneous {
        flags = flags + USAGE_SIMULTANEOUS_USE;
    }
    flags
}

/// A rectangle of a framebuffer.
#[derive(Clone, Copy, Debug, PartialEq, Eq, Structural)]
pub struct Rect2D {
    pub x: i32,
    pub y: i32,
    pub width: u32,
    pub height: u32,
}

/// A clear value as the native API lays it out: four 32-bit words, read as
/// a colour or as depth and stencil.
#[derive(Clone, Copy, Debug, PartialEq, Eq, Structural)]
pub struct ClearValue {
    pub w0: u32,
    pub w1: u32,
    pub w2: u32,
    pub w3: u32,
}

/// A layout transition of one image, asked of a barrier.
pub struct ImageMemoryBarrier {
    pub img: Arc<Image>,
    pub new_layout: ImageLayout,
}

impl ImageMemoryBarrier {
    pub fn new(img: Arc<Image>, new_layout: ImageLayout) -> (r: ImageMemoryBarrier)
        ensures
            r.img == img,
            r.new_layout == new_layout,
    {
        ImageMemoryBarrier { img, new_layout }
    }
}

/// A layout transition as recorded: the image, the layout it left, the
/// layout it entered and the access masks of that transition.
#[derive(Clone, Copy, Debug, PartialEq, Eq, Structural)]
pub struct BarrierRecord {
    pub image: u64,
    pub old_layout: ImageLayout,
    pub new_layout: ImageLayout,
    pub masks: AccessMasks,
}

/// A barrier asked for a transition that the table of transitions does not
/// hold.
#[derive(Clone, Copy, Debug, PartialEq, Eq, Structural)]
pub struct UnsupportedTransition {
    pub image: u64,
    pub old_layout: ImageLayout,
    pub new_layout: ImageLayout,
}

/// The render pass context a secondary command buffer continues.
pub struct InheritanceInfo {
    pub render_pass: Arc<RenderPass>,
    pub subpass: u32,
    pub framebuffer: Option<Arc<Framebuffer>>,
}

/// One recorded command, with the native handles it names.
pub enum Command {
    BeginRenderPass {
        render_pass: u64,
        framebuffer: u64,
        render_area: Rect2D,
        clear_values: Vec<ClearValue>,
    },
    BindDescriptorSets { layout: u64, first_set: u32, sets: Vec<u64>, dynamic_offsets: Vec<u32> },
    BindPipeline { pipeline: u64 },
    BindVertexBuffers { first_binding: u32, buffers: Vec<u64>, offsets: Vec<u64> },
    ClearColorImage { image: u64, color: ClearValue },
    CopyBuffer { src: u64, dst: u64, size: u64 },
    CopyBufferToImage { src: u64, dst: u64, extent: Extent3D },
    Draw { vertex_count: u32, instance_count: u32, first_vertex: u32, first_instance: u32 },
    EndRenderPass,
    ExecuteCommands { secondaries: Vec<u64> },
    PipelineBarrier { src_stage: u32, dst_stage: u32, barriers: Vec<BarrierRecord> },
    PushConstants { layout: u64, stage_flags: u32, offset: u32, data: Vec<u8> },
}

/// The kinds and handles of the resources a command names.
pub open spec fn refs(c: Command) -> Seq<(ResourceKind, u64)> {
    match c {
        Command::BeginRenderPass { render_pass, framebuffer, .. } => seq![
            (ResourceKind::RenderPass, render_pass),
            (ResourceKind::Framebuffer, framebuffer),
        ],
        Command::BindDescriptorSets { layout, sets, .. } => sets@.map_values(
            |s: u64| (ResourceKind::DescriptorSet, s),
        ).push((ResourceKind::PipelineLayout, layout)),
        Command::BindPipeline { pipeline } => seq![(ResourceKind::Pipeline, pipeline)],
        Command::BindVertexBuffers { buffers, .. } => buffers@.map_values(
            |b: u64| (ResourceKind::Buffer, b),
        ),
        Command::ClearColorImage { image, .. } => seq![(ResourceKind::Image, image)],
        Command::CopyBuffer { src, dst, .. } => seq![(ResourceKind::Buffer, src), (ResourceKind::Buffer, dst)],
        Command::CopyBufferToImage { src, dst, .. } => seq![(ResourceKind::Buffer, src), (ResourceKind::Image, dst)],
        Command::Draw { .. } => seq![],
        Command::EndRenderPass => seq![],
        Command::ExecuteCommands { secondaries } => secondaries@.map_values(
            |c: u64| (ResourceKind::CommandBufferSecondary, c),
        ),
        Command::PipelineBarrier { barriers, .. } => barriers@.map_values(
            |b: BarrierRecord| (ResourceKind::Image, b.image),
        ),
        Command::PushConstants { layout, .. } => seq![(ResourceKind::PipelineLayout, layout)],
    }
}

/// Every resource that a command of `cmds` names is held by an entry of
/// `ledger`.
pub open spec fn covers(ledger: Seq<Resource>, cmds: Seq<Command>) -> bool {
    forall|i: int, k: int|
        0 <= i < cmds.len() && 0 <= k < refs(cmds[i]).len() ==> ledger_keys(ledger).contains(
            #[trigger] refs(cmds[i])[k],
        )
}

/// Appending a command together with the entries of exactly the resources
/// it names keeps every named resource held.
proof fn lemma_cover_step(ledger: Seq<Resource>, entries: Seq<Resource>, cmds: Seq<Command>, c: Command)
    requires
        covers(ledger, cmds),
        ledger_keys(entries) == refs(c),
    ensures
        covers(ledger + entries, cmds.push(c)),
{
    let nl = ledger + entries;
    let nc = cmds.push(c);
    assert(ledger_keys(nl) =~= ledger_keys(ledger) + ledger_keys(entries));
    assert forall|i: int, k: int| 0 <= i < nc.len() && 0 <= k < refs(nc[i]).len() implies ledger_keys(nl).contains(
        #[trigger] refs(nc[i])[k],
    ) by {
        if i < cmds.len() {
            assert(nc[i] == cmds[i]);
            let x = refs(cmds[i])[k];
            assert(ledger_keys(ledger).contains(x));
            let j = choose|j: int| 0 <= j < ledger_keys(ledger).len() && ledger_keys(ledger)[j] == x;
            assert(ledger_keys(nl)[j] == x);
        } else {
            assert(nc[i] == c);
            assert(ledger_keys(nl)[ledger.len() + k] == refs(c)[k]);
        }
    }
}

/// `new` is `old` with one more command at its end.
pub open spec fn one_more(new: Seq<Command>, old: Seq<Command>) -> bool {
    new.len() == old.len() + 1 && new.subrange(0, old.len() as int) == old
}

/// The ledger entries of a sequence of descriptor sets.
pub open spec fn set_entries(sets: Seq<Arc<DescriptorSet>>) -> Seq<Resource> {
    sets.map_values(|s: Arc<DescriptorSet>| Resource::DescriptorSet(s))
}

/// The ledger entries of a sequence of buffers.
pub open spec fn buffer_entries(bufs: Seq<Arc<Buffer>>) -> Seq<Resource> {
    bufs.map_values(|b: Arc<Buffer>| Resource::Buffer(b))
}

/// The ledger entries of a sequence of secondary command buffers.
pub open spec fn secondary_entries(cmds: Seq<Arc<CommandBuffer<Secondary>>>) -> Seq<Resource> {
    cmds.map_values(|c: Arc<CommandBuffer<Secondary>>| Resource::CommandBufferSecondary(c))
}

/// The ledger entries of the images of a sequence of barriers.
pub open spec fn barrier_entries(bars: Seq<ImageMemoryBarrier>) -> Seq<Resource> {
    bars.map_values(|b: ImageMemoryBarrier| Resource::Image(b.img))
}

/// The ledger entries for a render pass context.
pub open spec fn inherit_entries(inherit: Option<InheritanceInfo>) -> Seq<Resource> {
    match inherit {
        Some(i) => match i.framebuffer {
            Some(f) => seq![Resource::RenderPass(i.render_pass), Resource::Framebuffer(f)],
            None => seq![Resource::RenderPass(i.render_pass)],
        },
        None => seq![],
    }
}

/// The record of the transition of barrier `b` out of layout `old`.
pub open spec fn planned(b: ImageMemoryBarrier, old: ImageLayout) -> Option<BarrierRecord> {
    match transition_masks(old, b.new_layout) {
        Some(masks) => Some(BarrierRecord { image: b.img.vk, old_layout: old, new_layout: b.new_layout, masks }),
        None => None,
    }
}

/// Plans the transitions of `barriers`, the images being in `old_layouts`:
/// one record per barrier, with the masks of the table of transitions; or
/// the first transition that the table does not hold.
pub fn plan_barriers(barriers: &Vec<ImageMemoryBarrier>, old_layouts: &Vec<ImageLayout>) -> (r: Result<
    Vec<BarrierRecord>,
    UnsupportedTransition,
>)
    requires
        barriers@.len() == old_layouts@.len(),
    ensures
        match r {
            Ok(recs) => recs@.len() == barriers@.len() && forall|i: int|
                0 <= i < recs@.len() ==> planned(barriers@[i], old_layouts@[i]) == Some(#[trigger] recs@[i]),
            Err(e) => exists|i: int|
                0 <= i < barriers@.len() && planned(barriers@[i], old_layouts@[i]) is None && (forall|j: int|
                    0 <= j < i ==> (#[trigger] planned(barriers@[j], old_layouts@[j])) is Some) && e == (
                UnsupportedTransition {
                    image: barriers@[i].img.vk,
                    old_layout: old_layouts@[i],
                    new_layout: barriers@[i].new_layout,
                }),
        },
        r is Ok <==> forall|i: int|
            0 <= i < barriers@.len() ==> (#[trigger] planned(barriers@[i], old_layouts@[i])) is Some,
{
    let mut recs: Vec<BarrierRecord> = Vec::new();
    let mut i: usize = 0;
    while i < barriers.len()
        invariant
            i <= barriers@.len(),
            barriers@.len() == old_layouts@.len(),
            recs@.len() == i,
            forall|j: int| 0 <= j < i ==> planned(barriers@[j], old_layouts@[j]) == Some(#[trigger] recs@[j]),
        decreases barriers@.len() - i,
    {
        let bar = &barriers[i];
        let old_layout = old_layouts[i];
        let new_layout = bar.new_layout;
        match barrier_access_masks(old_layout, new_layout) {
            Some(masks) => {
                recs.push(BarrierRecord { image: bar.img.vk, old_layout, new_layout, masks });
            },
            None => {
                let e = UnsupportedTransition { image: bar.img.vk, old_layout, new_layout };
                proof {
                    assert forall|j: int| 0 <= j < i implies (#[trigger] planned(barriers@[j], old_layouts@[j])) is Some by {
                        assert(planned(barriers@[j], old_layouts@[j]) == Some(recs@[j]));
                    }
                    assert(planned(barriers@[i as int], old_layouts@[i as int]) is None);
                }
                return Err(e);
            },
        }
        i += 1;
    }
    proof {
        assert forall|j: int| 0 <= j < barriers@.len() implies (#[trigger] planned(barriers@[j], old_layouts@[j])) is Some by {
            assert(planned(barriers@[j], old_layouts@[j]) == Some(recs@[j]));
        }
    }
    Ok(recs)
}

/// A command buffer being recorded. Each method appends one command and
/// the ledger entries of the resources that command uses.
pub struct CommandBufferBuilder<L: Level> {
    vkpool: u64,
    queue_family: u32,
    usage: u32,
    vk: u64,
    commands: Vec<Command>,
    resources: Vec<Resource>,
    level: PhantomData<L>,
}

impl<L: Level> CommandBufferBuilder<L> {
    /// The usage flags the native recording begins with.
    pub closed spec fn usage_spec(&self) -> u32 {
        self.usage
    }

    /// The usage flags to begin the native recording with.
    pub fn usage_flags(&self) -> (r: u32)
        ensures
            r == self.usage_spec(),
    {
        self.usage
    }

    /// The native command buffer being recorded.
    pub closed spec fn handle(&self) -> u64 {
        self.vk
    }

    /// The native pool the command buffer was drawn from.
    pub closed spec fn pool(&self) -> u64 {
        self.vkpool
    }

    /// The queue family of that pool.
    pub closed spec fn family(&self) -> u32 {
        self.queue_family
    }

    pub closed spec fn commands_spec(&self) -> Seq<Command> {
        self.commands@
    }

    /// The ledger: what the commands recorded so far keep alive.
    pub closed spec fn ledger(&self) -> Seq<Resource> {
        self.resources@
    }

    /// Every resource that a recorded command names is in the ledger.
    pub open spec fn covered(&self) -> bool {
        covers(self.ledger(), self.commands_spec())
    }

    /// `self` records the same command buffer as `old`.
    pub open spec fn same_target(&self, old: &Self) -> bool {
        &&& self.handle() == old.handle()
        &&& self.pool() == old.pool()
        &&& self.family() == old.family()
    }

    pub(crate) fn new(
        queue_family: u32,
        vkpool: u64,
        usage: u32,
        inherit: Option<InheritanceInfo>,
        vk: u64,
    ) -> (r: Self)
        ensures
            r.usage_spec() == usage,
            r.handle() == vk,
            r.pool() == vkpool,
            r.family() == queue_family,
            r.commands_spec() == Seq::<Command>::empty(),
            r.ledger() == inherit_entries(inherit),
            r.covered(),
    {
        let mut resources: Vec<Resource> = Vec::new();
        match inherit {
            Some(i) => {
                resources.push(Resource::RenderPass(i.render_pass));
                match i.framebuffer {
                    Some(f) => resources.push(Resource::Framebuffer(f)),
                    None => {},
                }
            },
            None => {},
        }
        CommandBufferBuilder {
            vkpool,
            queue_family,
            usage,
            vk,
            commands: Vec::new(),
            resources,
            level: PhantomData,
        }
    }

    /// The native command buffer being recorded.
    pub fn vk(&self) -> (r: u64)
        ensures
            r == self.handle(),
    {
        self.vk
    }

    /// The commands recorded so far.
    pub fn commands(&self) -> (r: &Vec<Command>)
        ensures
            r@ == self.commands_spec(),
    {
        &self.commands
    }

    /// Begins a render pass whose contents are secondary command buffers.
    pub fn begin_render_pass(
        self,
        render_pass: Arc<RenderPass>,
        framebuffer: Arc<Framebuffer>,
        render_area: Rect2D,
        clear_values: Vec<ClearValue>,
    ) -> (r: Self)
        ensures
            r.same_target(&self),
            self.covered() ==> r.covered(),
            r.commands_spec() == self.commands_spec().push(
                Command::BeginRenderPass {
                    render_pass: render_pass.vk,
                    framebuffer: framebuffer.vk,
                    render_area,
                    clear_values,
                },
            ),
            r.ledger() == self.ledger().push(Resource::RenderPass(render_pass)).push(
                Resource::Framebuffer(framebuffer),
            ),
    {
        let mut this = self;
        this.commands.push(
            Command::BeginRenderPass {
                render_pass: render_pass.vk,
                framebuffer: framebuffer.vk,
                render_area,
                clear_values,
            },
        );
        this.resources.push(Resource::RenderPass(render_pass));
        this.resources.push(Resource::Framebuffer(framebuffer));
        proof {
            if self.covered() {
                let c = this.commands@.last();
                let e = seq![Resource::RenderPass(render_pass), Resource::Framebuffer(framebuffer)];
                assert(this.commands@ =~= self.commands@.push(c));
                assert(this.resources@ =~= self.resources@ + e);
                assert(ledger_keys(e) =~= refs(c));
                lemma_cover_step(self.resources@, e, self.commands@, c);
            }
        }
        this
    }

    /// Ends recording.
    pub fn build(self) -> (r: Arc<CommandBuffer<L>>)
        ensures
            r.handle() == self.handle(),
            r.pool() == self.pool(),
            r.family() == self.family(),
            r.commands_spec() == self.commands_spec(),
            r.ledger() == self.ledger(),
            self.covered() ==> r.covered(),
    {
        Arc::new(
            CommandBuffer {
                vkpool: self.vkpool,
                queue_family: self.queue_family,
                vk: self.vk,
                commands: self.commands,
                resources: self.resources,
                level: PhantomData,
            },
        )
    }

    /// Binds descriptor sets for graphics, starting at set `first_set`.
    pub fn bind_descriptor_sets(
        self,
        layout: Arc<PipelineLayout>,
        first_set: u32,
        descriptor_sets: Vec<Arc<DescriptorSet>>,
        dynamic_offsets: Vec<u32>,
    ) -> (r: Self)
        ensures
            r.same_target(&self),
            self.covered() ==> r.covered(),
            one_more(r.commands_spec(), self.commands_spec()),
            r.commands_spec().last() matches Command::BindDescriptorSets {
                layout: l,
                first_set: f,
                sets,
                dynamic_offsets: d,
            } && l == layout.vk && f == first_set && d == dynamic_offsets && sets@
                == descriptor_sets@.map_values(|s: Arc<DescriptorSet>| s.vk),
            r.ledger() == (self.ledger() + set_entries(descriptor_sets@)).push(
                Resource::PipelineLayout(layout),
            ),
    {
        let mut this = self;
        let ghost old_ledger = this.resources@;
        let mut vks: Vec<u64> = Vec::new();
        let mut i: usize = 0;
        while i < descriptor_sets.len()
            invariant
                i <= descriptor_sets.len(),
                vks@ == descriptor_sets@.subrange(0, i as int).map_values(
                    |s: Arc<DescriptorSet>| s.vk,
                ),
                this.resources@ == old_ledger + set_entries(descriptor_sets@.subrange(0, i as int)),
                this.vk == self.vk,
                this.vkpool == self.vkpool,
                this.queue_family == self.queue_family,
                this.commands@ == self.commands@,
            decreases descriptor_sets.len() - i,
        {
            let set = descriptor_sets[i].clone();
            vks.push(set.vk);
            this.resources.push(Resource::DescriptorSet(set));
            proof {
                let sub = descriptor_sets@.subrange(0, i + 1 as int);
                assert(sub == descriptor_sets@.subrange(0, i as int).push(descriptor_sets@[i as int]));
            }
            i += 1;
        }
        proof {
            assert(descriptor_sets@.subrange(0, i as int) == descriptor_sets@);
        }
        this.commands.push(
            Command::BindDescriptorSets { layout: layout.vk, first_set, sets: vks, dynamic_offsets },
        );
        this.resources.push(Resource::PipelineLayout(layout));
        proof {
            assert(this.commands@.subrange(0, self.commands@.len() as int) == self.commands@);
        }
        proof {
            if self.covered() {
                let c = this.commands@.last();
                let e = set_entries(descriptor_sets@).push(Resource::PipelineLayout(layout));
                assert(this.commands@ =~= self.commands@.push(c));
                assert(this.resources@ =~= self.resources@ + e);
                assert(ledger_keys(e) =~= refs(c));
                lemma_cover_step(self.resources@, e, self.commands@, c);
            }
        }
        this
    }

    /// Binds a graphics pipeline.
    pub fn bind_pipeline(self, pipeline: Arc<GraphicsPipeline>) -> (r: Self)
        ensures
            r.same_target(&self),
            self.covered() ==> r.covered(),
            r.commands_spec() == self.commands_spec().push(
                Command::BindPipeline { pipeline: pipeline.vk },
            ),
            r.ledger() == self.ledger().push(Resource::Pipeline(pipeline)),
    {
        let mut this = self;
        this.commands.push(Command::BindPipeline { pipeline: pipeline.vk });
        this.resources.push(Resource::Pipeline(pipeline));
        proof {
            if self.covered() {
                let c = this.commands@.last();
                let e = seq![Resource::Pipeline(pipeline)];
                assert(this.commands@ =~= self.commands@.push(c));
                assert(this.resources@ =~= self.resources@ + e);
                assert(ledger_keys(e) =~= refs(c));
                lemma_cover_step(self.resources@, e, self.commands@, c);
            }
        }
        this
    }

    /// Binds vertex buffers, starting at binding `first_binding`.
    pub fn bind_vertex_buffers(self, first_binding: u32, buffers: Vec<Arc<Buffer>>, offsets: Vec<u64>) -> (r: Self)
        ensures
            r.same_target(&self),
            self.covered() ==> r.covered(),
            one_more(r.commands_spec(), self.commands_spec()),
            r.commands_spec().last() matches Command::BindVertexBuffers {
                first_binding: f,
                buffers: bufs,
                offsets: o,
            } && f == first_binding && o == offsets && bufs@ == buffers@.map_values(
                |b: Arc<Buffer>| b.vk,
            ),
            r.ledger() == self.ledger() + buffer_entries(buffers@),
    {
        let mut this = self;
        let ghost old_ledger = this.resources@;
        let mut vks: Vec<u64> = Vec::new();
        let mut i: usize = 0;
        while i < buffers.len()
            invariant
                i <= buffers.len(),
                vks@ == buffers@.subrange(0, i as int).map_values(|b: Arc<Buffer>| b.vk),
                this.resources@ == old_ledger + buffer_entries(buffers@.subrange(0, i as int)),
                this.vk == self.vk,
                this.vkpool == self.vkpool,
                this.queue_family == self.queue_family,
                this.commands@ == self.commands@,
            decreases buffers.len() - i,
        {
            let buf = buffers[i].clone();
            vks.push(buf.vk);
            this.resources.push(Resource::Buffer(buf));
            proof {
                let sub = buffers@.subrange(0, i + 1 as int);
                assert(sub == buffers@.subrange(0, i as int).push(buffers@[i as int]));
            }
            i += 1;
        }
        proof {
            assert(buffers@.subrange(0, i as int) == buffers@);
        }
        this.commands.push(Command::BindVertexBuffers { first_binding, buffers: vks, offsets });
        proof {
            assert(this.commands@.subrange(0, self.commands@.len() as int) == self.commands@);
        }
        proof {
            if self.covered() {
                let c = this.commands@.last();
                let e = buffer_entries(buffers@);
                assert(this.commands@ =~= self.commands@.push(c));
                assert(this.resources@ =~= self.resources@ + e);
                assert(ledger_keys(e) =~= refs(c));
                lemma_cover_step(self.resources@, e, self.commands@, c);
            }
        }
        this
    }

    /// Clears a colour image, which must be in the transfer destination
    /// layout when the command runs.
    pub fn clear_color_image(self, image: Arc<Image>, color: ClearValue) -> (r: Self)
        ensures
            r.same_target(&self),
            self.covered() ==> r.covered(),
            r.commands_spec() == self.commands_spec().push(
                Command::ClearColorImage { image: image.vk, color },
            ),
            r.ledger() == self.ledger().push(Resource::Image(image)),
    {
        let mut this = self;
        this.commands.push(Command::ClearColorImage { image: image.vk, color });
        this.resources.push(Resource::Image(image));
        proof {
            if self.covered() {
                let c = this.commands@.last();
                let e = seq![Resource::Image(image)];
                assert(this.commands@ =~= self.commands@.push(c));
                assert(this.resources@ =~= self.resources@ + e);
                assert(ledger_keys(e) =~= refs(c));
                lemma_cover_step(self.resources@, e, self.commands@, c);
            }
        }
        this
    }

    /// Copies the whole of `src` to the start of `dst`, which must be at
    /// least as large.
    pub fn copy_buffer(self, src: Arc<Buffer>, dst: Arc<Buffer>) -> (r: Self)
        requires
            src.size_spec() <= dst.size_spec(),
            dst.size_spec() <= u64::MAX,
        ensures
            r.same_target(&self),
            self.covered() ==> r.covered(),
            r.commands_spec() == self.commands_spec().push(
                Command::CopyBuffer { src: src.vk, dst: dst.vk, size: src.size_spec() as u64 },
            ),
            r.ledger() == self.ledger().push(Resource::Buffer(src)).push(Resource::Buffer(dst)),
    {
        let mut this = self;
        let size = src.size();
        this.commands.push(Command::CopyBuffer { src: src.vk, dst: dst.vk, size });
        this.resources.push(Resource::Buffer(src));
        this.resources.push(Resource::Buffer(dst));
        proof {
            if self.covered() {
                let c = this.commands@.last();
                let e = seq![Resource::Buffer(src), Resource::Buffer(dst)];
                assert(this.commands@ =~= self.commands@.push(c));
                assert(this.resources@ =~= self.resources@ + e);
                assert(ledger_keys(e) =~= refs(c));
                lemma_cover_step(self.resources@, e, self.commands@, c);
            }
        }
        this
    }

    /// Copies the elements of `src` into the texels of `dst`, which must
    /// have at least as many texels as `src` has elements.
    pub fn copy_buffer_to_image(self, src: Arc<Buffer>, dst: Arc<Image>, image_extent: Extent3D) -> (r: Self)
        requires
            src.len_spec() <= dst.size_spec().texels(),
        ensures
            r.same_target(&self),
            self.covered() ==> r.covered(),
            r.commands_spec() == self.commands_spec().push(
                Command::CopyBufferToImage { src: src.vk, dst: dst.vk, extent: image_extent },
            ),
            r.ledger() == self.ledger().push(Resource::Buffer(src)).push(Resource::Image(dst)),
    {
        let mut this = self;
        this.commands.push(
            Command::CopyBufferToImage { src: src.vk, dst: dst.vk, extent: image_extent },
        );
        this.resources.push(Resource::Buffer(src));
        this.resources.push(Resource::Image(dst));
        proof {
            if self.covered() {
                let c = this.commands@.last();
                let e = seq![Resource::Buffer(src), Resource::Image(dst)];
                assert(this.commands@ =~= self.commands@.push(c));
                assert(this.resources@ =~= self.resources@ + e);
                assert(ledger_keys(e) =~= refs(c));
                lemma_cover_step(self.resources@, e, self.commands@, c);
            }
        }
        this
    }

    /// Draws primitives.
    pub fn draw(self, vertex_count: u32, instance_count: u32, first_vertex: u32, first_instance: u32) -> (r: Self)
        ensures
            r.same_target(&self),
            self.covered() ==> r.covered(),
            r.commands_spec() == self.commands_spec().push(
                Command::Draw { vertex_count, instance_count, first_vertex, first_instance },
            ),
            r.ledger() == self.ledger(),
    {
        let mut this = self;
        this.commands.push(
            Command::Draw { vertex_count, instance_count, first_vertex, first_instance },
        );
        proof {
            if self.covered() {
                let c = this.commands@.last();
                let e = Seq::<Resource>::empty();
                assert(this.commands@ =~= self.commands@.push(c));
                assert(this.resources@ =~= self.resources@ + e);
                assert(ledger_keys(e) =~= refs(c));
                lemma_cover_step(self.resources@, e, self.commands@, c);
            }
        }
        this
    }

    /// Ends the current render pass.
    pub fn end_render_pass(self) -> (r: Self)
        ensures
            r.same_target(&self),
            self.covered() ==> r.covered(),
            r.commands_spec() == self.commands_spec().push(Command::EndRenderPass),
            r.ledger() == self.ledger(),
    {
        let mut this = self;
        this.commands.push(Command::EndRenderPass);
        proof {
            if self.covered() {
                let c = this.commands@.last();
                let e = Seq::<Resource>::empty();
                assert(this.commands@ =~= self.commands@.push(c));
                assert(this.resources@ =~= self.resources@ + e);
                assert(ledger_keys(e) =~= refs(c));
                lemma_cover_step(self.resources@, e, self.commands@, c);
            }
        }
        this
    }

    /// Executes secondary command buffers.
    pub fn execute_commands(self, secondaries: Vec<Arc<CommandBuffer<Secondary>>>) -> (r: Self)
        ensures
            r.same_target(&self),
            self.covered() ==> r.covered(),
            one_more(r.commands_spec(), self.commands_spec()),
            r.commands_spec().last() matches Command::ExecuteCommands { secondaries: s } && s@
                == secondaries@.map_values(|c: Arc<CommandBuffer<Secondary>>| c.handle()),
            r.ledger() == self.ledger() + secondary_entries(secondaries@),
    {
        let mut this = self;
        let ghost old_ledger = this.resources@;
        let mut vks: Vec<u64> = Vec::new();
        let mut i: usize = 0;
        while i < secondaries.len()
            invariant
                i <= secondaries.len(),
                vks@ == secondaries@.subrange(0, i as int).map_values(
                    |c: Arc<CommandBuffer<Secondary>>| c.handle(),
                ),
                this.resources@ == old_ledger + secondary_entries(secondaries@.subrange(0, i as int)),
                this.vk == self.vk,
                this.vkpool == self.vkpool,
                this.queue_family == self.queue_family,
                this.commands@ == self.commands@,
            decreases secondaries.len() - i,
        {
            let sec = secondaries[i].clone();
            vks.push(sec.vk);
            this.resources.push(Resource::CommandBufferSecondary(sec));
            proof {
                let sub = secondaries@.subrange(0, i + 1 as int);
                assert(sub == secondaries@.subrange(0, i as int).push(secondaries@[i as int]));
            }
            i += 1;
        }
        proof {
            assert(secondaries@.subrange(0, i as int) == secondaries@);
        }
        this.commands.push(Command::ExecuteCommands { secondaries: vks });
        proof {
            assert(this.commands@.subrange(0, self.commands@.len() as int) == self.commands@);
        }
        proof {
            if self.covered() {
                let c = this.commands@.last();
                let e = secondary_entries(secondaries@);
                assert(this.commands@ =~= self.commands@.push(c));
                assert(this.resources@ =~= self.resources@ + e);
                assert(ledger_keys(e) =~= refs(c));
                lemma_cover_step(self.resources@, e, self.commands@, c);
            }
        }
        this
    }

    /// Records a barrier that moves each image of `image_memory_barriers`
    /// from the layout it is in to the layout asked for, and sets that
    /// layout on the image.
    ///
    /// The layouts are read from the images and planned with
    /// [`plan_barriers`]; if a transition is not in the table of
    /// transitions, nothing is recorded and no layout is set.
    pub fn pipeline_barrier(
        self,
        src_stage_mask: u32,
        dst_stage_mask: u32,
        image_memory_barriers: Vec<ImageMemoryBarrier>,
    ) -> (r: Result<Self, UnsupportedTransition>)
        ensures
            match r {
                Ok(b) => {
                    &&& self.covered() ==> b.covered()
                    &&& b.same_target(&self)
                    &&& one_more(b.commands_spec(), self.commands_spec())
                    &&& b.commands_spec().last() matches Command::PipelineBarrier {
                        src_stage: s,
                        dst_stage: d,
                        barriers: recs,
                    } && s == src_stage_mask && d == dst_stage_mask && recs@.len()
                        == image_memory_barriers@.len() && forall|i: int|
                        0 <= i < recs@.len() ==> {
                            &&& (#[trigger] recs@[i]).image == image_memory_barriers@[i].img.vk
                            &&& recs@[i].new_layout == image_memory_barriers@[i].new_layout
                            &&& transition_masks(recs@[i].old_layout, recs@[i].new_layout)
                                == Some(recs@[i].masks)
                        }
                    &&& b.ledger() == self.ledger() + barrier_entries(image_memory_barriers@)
                },
                Err(e) => exists|i: int|
                    0 <= i < image_memory_barriers@.len() && e.image
                        == #[trigger] image_memory_barriers@[i].img.vk && e.new_layout
                        == image_memory_barriers@[i].new_layout && transition_masks(
                        e.old_layout,
                        e.new_layout,
                    ) is None,
            },
    {
        let mut this = self;
        let ghost old_ledger = this.resources@;
        let mut old_layouts: Vec<ImageLayout> = Vec::new();
        let mut i: usize = 0;
        while i < image_memory_barriers.len()
            invariant
                i <= image_memory_barriers.len(),
                old_layouts@.len() == i,
            decreases image_memory_barriers.len() - i,
        {
            old_layouts.push(image_memory_barriers[i].img.layout());
            i += 1;
        }
        let recs = match plan_barriers(&image_memory_barriers, &old_layouts) {
            Ok(recs) => recs,
            Err(e) => {
                return Err(e);
            },
        };
        proof {
            assert forall|j: int| 0 <= j < recs@.len() implies {
                &&& (#[trigger] recs@[j]).image == image_memory_barriers@[j].img.vk
                &&& recs@[j].new_layout == image_memory_barriers@[j].new_layout
                &&& transition_masks(recs@[j].old_layout, recs@[j].new_layout) == Some(recs@[j].masks)
            } by {
                assert(planned(image_memory_barriers@[j], old_layouts@[j]) == Some(recs@[j]));
            }
        }
        let mut k: usize = 0;
        while k < image_memory_barriers.len()
            invariant
                k <= image_memory_barriers.len(),
                recs@.len() == image_memory_barriers@.len(),
                forall|j: int|
                    0 <= j < recs@.len() ==> {
                        &&& (#[trigger] recs@[j]).image == image_memory_barriers@[j].img.vk
                        &&& recs@[j].new_layout == image_memory_barriers@[j].new_layout
                        &&& transition_masks(recs@[j].old_layout, recs@[j].new_layout)
                            == Some(recs@[j].masks)
                    },
                this.resources@ == old_ledger + barrier_entries(
                    image_memory_barriers@.subrange(0, k as int),
                ),
                this.vk == self.vk,
                this.vkpool == self.vkpool,
                this.queue_family == self.queue_family,
                this.commands@ == self.commands@,
            decreases image_memory_barriers.len() - k,
        {
            let img = image_memory_barriers[k].img.clone();
            img.set_layout(image_memory_barriers[k].new_layout);
            this.resources.push(Resource::Image(img));
            proof {
                let sub = image_memory_barriers@.subrange(0, k + 1 as int);
                assert(sub == image_memory_barriers@.subrange(0, k as int).push(
                    image_memory_barriers@[k as int],
                ));
            }
            k += 1;
        }
        proof {
            assert(image_memory_barriers@.subrange(0, k as int) == image_memory_barriers@);
        }
        this.commands.push(
            Command::PipelineBarrier { src_stage: src_stage_mask, dst_stage: dst_stage_mask, barriers: recs },
        );
        proof {
            assert(this.commands@.subrange(0, self.commands@.len() as int) == self.commands@);
        }
        proof {
            if self.covered() {
                let c = this.commands@.last();
                let e = barrier_entries(image_memory_barriers@);
                assert(this.commands@ =~= self.commands@.push(c));
                assert(this.resources@ =~= self.resources@ + e);
                assert(ledger_keys(e) =~= refs(c));
                lemma_cover_step(self.resources@, e, self.commands@, c);
            }
        }
        Ok(this)
    }

    /// Updates push constants with `data`, whose length must be a multiple
    /// of four, for a non-empty set of shader stages.
    pub fn push_constants(self, layout: Arc<PipelineLayout>, stage_flags: u32, offset: u32, data: Vec<u8>) -> (r: Self)
        requires
            data@.len() % 4 == 0,
            stage_flags != 0,
        ensures
            r.same_target(&self),
            self.covered() ==> r.covered(),
            r.commands_spec() == self.commands_spec().push(
                Command::PushConstants { layout: layout.vk, stage_flags, offset, data },
            ),
            r.ledger() == self.ledger().push(Resource::PipelineLayout(layout)),
    {
        let mut this = self;
        this.commands.push(Command::PushConstants { layout: layout.vk, stage_flags, offset, data });
        this.resources.push(Resource::PipelineLayout(layout));
        proof {
            if self.covered() {
                let c = this.commands@.last();
                let e = seq![Resource::PipelineLayout(layout)];
                assert(this.commands@ =~= self.commands@.push(c));
                assert(this.resources@ =~= self.resources@ + e);
                assert(ledger_keys(e) =~= refs(c));
                lemma_cover_step(self.resources@, e, self.commands@, c);
            }
        }
        this
    }
}

/// A finished command buffer: its native handle, the pool it was drawn
/// from, its commands and its ledger.
pub struct CommandBuffer<L: Level> {
    vkpool: u64,
    queue_family: u32,
    vk: u64,
    commands: Vec<Command>,
    resources: Vec<Resource>,
    level: PhantomData<L>,
}

impl<L: Level> CommandBuffer<L> {
    pub closed spec fn handle(&self) -> u64 {
        self.vk
    }

    pub closed spec fn pool(&self) -> u64 {
        self.vkpool
    }

    pub closed spec fn family(&self) -> u32 {
        self.queue_family
    }

    pub closed spec fn commands_spec(&self) -> Seq<Command> {
        self.commands@
    }

    /// The resources this command buffer keeps alive.
    pub closed spec fn ledger(&self) -> Seq<Resource> {
        self.resources@
    }

    /// Every resource that a recorded command names is in the ledger.
    pub open spec fn covered(&self) -> bool {
        covers(self.ledger(), self.commands_spec())
    }

    /// The native command buffer.
    pub fn vk(&self) -> (r: u64)
        ensures
            r == self.handle(),
    {
        self.vk
    }

    /// The native pool it was drawn from.
    pub fn pool_handle(&self) -> (r: u64)
        ensures
            r == self.pool(),
    {
        self.vkpool
    }

    /// The queue family of that pool.
    pub fn queue_family(&self) -> (r: u32)
        ensures
            r == self.family(),
    {
        self.queue_family
    }

    /// The recorded commands, in order.
    pub fn commands(&self) -> (r: &Vec<Command>)
        ensures
            r@ == self.commands_spec(),
    {
        &self.commands
    }

    /// The resources this command buffer keeps alive.
    pub fn resources(&self) -> (r: &Vec<Resource>)
        ensures
            r@ == self.ledger(),
    {
        &self.resources
    }
}

/// Every resource that a command of a command buffer names is held by an
/// entry of its ledger: a shared reference that the command buffer drops
/// only when it is dropped itself, so the resource cannot be destroyed
/// while the command buffer may still run.
pub proof fn lemma_referenced_resources_retained<L: Level>(cb: &CommandBuffer<L>, i: int, k: int)
    requires
        cb.covered(),
        0 <= i < cb.commands_spec().len(),
        0 <= k < refs(cb.commands_spec()[i]).len(),
    ensures
        exists|j: int|
            0 <= j < cb.ledger().len() && (#[trigger] cb.ledger()[j]).key() == refs(cb.commands_spec()[i])[k],
{
    let x = refs(cb.commands_spec()[i])[k];
    assert(ledger_keys(cb.ledger()).contains(x));
    let j = choose|j: int| 0 <= j < ledger_keys(cb.ledger()).len() && ledger_keys(cb.ledger())[j] == x;
    assert(cb.ledger()[j].key() == x);
}

} // verus!
