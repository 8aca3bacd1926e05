//! The resources that recorded commands refer to, and the ledger entry that
//! keeps one of them alive for as long as a command buffer may run.
use vstd::prelude::*;
use std::sync::Arc;
use std::sync::atomic::Ordering;
use atomic::Atomic;
use crate::layout::ImageLayout;
use crate::command::{
    ClearValue, Command, CommandBuffer, CommandBufferBuilder, ImageMemoryBarrier, Primary, Secondary,
    UnsupportedTransition,
};
use crate::device::{Queue, SubmitFuture};
use crate::layout::{STAGE_FRAGMENT_SHADER, STAGE_TOP_OF_PIPE, STAGE_TRANSFER, STAGE_VERTEX_SHADER};
use crate::sync::{GpuFuture, SubmitView};

verus! {

#[verifier::external_type_specification]
#[verifier::external_body]
#[verifier::reject_recursive_types(T)]
pub struct ExAtomic<T>(Atomic<T>);

/// Relies on atomic::Atomic::new: makes a cell holding `l`.
#[verifier::external_body]
fn new_layout_cell(l: ImageLayout) -> Atomic<ImageLayout> {
    Atomic::new(l)
}

/// Relies on atomic::Atomic::load: reads the cell. Other threads may have
/// stored into it, so nothing is promised of the value.
#[verifier::external_body]
fn load_layout(cell: &Atomic<ImageLayout>) -> ImageLayout {
    cell.load(Ordering::Relaxed)
}

/// Relies on atomic::Atomic::store: writes `l` into the cell.
#[verifier::external_body]
fn store_layout(cell: &Atomic<ImageLayout>, l: ImageLayout) {
    cell.store(l, Ordering::Relaxed)
}

/// A buffer of `len` elements of `elem_size` bytes each.
pub struct Buffer {
    pub vk: u64,
    pub elem_size: u64,
    pub len: u64,
}

impl Buffer {
    /// The buffer's size in bytes.
    pub open spec fn size_spec(&self) -> nat {
        (self.elem_size * self.len) as nat
    }

    pub open spec fn len_spec(&self) -> nat {
        self.len as nat
    }

    /// Describes the native buffer `vk`, which holds `len` elements of
    /// `elem_size` bytes.
    pub fn new(vk: u64, elem_size: u64, len: u64) -> (r: Buffer)
        requires
            elem_size * len <= u64::MAX,
        ensures
            r.vk == vk,
            r.len_spec() == len,
            r.size_spec() == elem_size * len,
    {
        Buffer { vk, elem_size, len }
    }

    /// The buffer's size in bytes.
    pub fn size(&self) -> (r: u64)
        requires
            self.elem_size * self.len <= u64::MAX,
        ensures
            r == self.size_spec(),
    {
        self.elem_size * self.len
    }

    /// The number of elements the buffer holds.
    pub fn len(&self) -> (r: u64)
        ensures
            r == self.len_spec(),
    {
        self.len
    }
}

/// The extent of an image in texels.
#[derive(Clone, Copy, Debug, PartialEq, Eq, Structural)]
pub struct Extent3D {
    pub width: u32,
    pub height: u32,
    pub depth: u32,
}

impl Extent3D {
    /// The number of texels in the extent.
    pub open spec fn texels(&self) -> nat {
        (self.width * self.height * self.depth) as nat
    }
}

/// An image, with its extent and the layout its memory is currently in.
///
/// The layout is shared by every thread that records barriers on the image:
/// the last barrier recorded sets it.
pub struct Image {
    pub vk: u64,
    pub size: Extent3D,
    pub layout: Atomic<ImageLayout>,
}

impl Image {
    pub open spec fn fits(size: Extent3D) -> bool {
        size.texels() <= u64::MAX
    }

    pub open spec fn size_spec(&self) -> Extent3D {
        self.size
    }

    /// Describes the native image `vk` of extent `size`, whose memory is in
    /// layout `layout`.
    pub fn new(vk: u64, size: Extent3D, layout: ImageLayout) -> (r: Image)
        requires
            Image::fits(size),
        ensures
            r.vk == vk,
            r.size_spec() == size,
    {
        Image { vk, size, layout: new_layout_cell(layout) }
    }

    /// The image's extent.
    pub fn size(&self) -> (r: Extent3D)
        ensures
            r == self.size_spec(),
    {
        self.size
    }

    /// The layout last set on the image.
    pub fn layout(&self) -> ImageLayout {
        load_layout(&self.layout)
    }

    /// Sets the layout of the image.
    pub fn set_layout(&self, layout: ImageLayout) {
        store_layout(&self.layout, layout)
    }

    /// The number of texels in the image.
    pub fn len(&self) -> (r: u64)
        requires
            Image::fits(self.size_spec()),
        ensures
            r == self.size_spec().texels(),
    {
        let w = self.size.width as u64;
        let h = self.size.height as u64;
        let d = self.size.depth as u64;
        proof {
            if d > 0 {
                assert(w * h <= w * h * d) by (nonlinear_arith)
                    requires
                        d > 0,
                ;
            } else {
                assert(w * h * d == 0) by (nonlinear_arith)
                    requires
                        d == 0,
                ;
            }
        }
        if d == 0 {
            0
        } else {
            w * h * d
        }
    }
}

/// A view of an image.
pub struct ImageView {
    pub vk: u64,
    pub image: u64,
}

/// A sampler.
pub struct Sampler {
    pub vk: u64,
}

/// A descriptor set.
pub struct DescriptorSet {
    pub vk: u64,
}

/// A graphics pipeline.
pub struct GraphicsPipeline {
    pub vk: u64,
    pub render_pass: u64,
}

/// A pipeline layout.
pub struct PipelineLayout {
    pub vk: u64,
}

/// A render pass.
pub struct RenderPass {
    pub vk: u64,
}

/// A framebuffer of a render pass.
pub struct Framebuffer {
    pub vk: u64,
    pub render_pass: u64,
}

/// One entry of a command buffer's ledger: a shared reference to a resource
/// that the command buffer's commands use.
pub enum Resource {
    Buffer(Arc<Buffer>),
    CommandBufferSecondary(Arc<CommandBuffer<Secondary>>),
    DescriptorSet(Arc<DescriptorSet>),
    Framebuffer(Arc<Framebuffer>),
    Image(Arc<Image>),
    ImageView(Arc<ImageView>),
    Pipeline(Arc<GraphicsPipeline>),
    PipelineLayout(Arc<PipelineLayout>),
    RenderPass(Arc<RenderPass>),
    Sampler(Arc<Sampler>),
}

/// The kinds of resource a ledger entry can hold.
#[derive(Clone, Copy, Debug, PartialEq, Eq, Structural)]
pub enum ResourceKind {
    Buffer,
    CommandBufferSecondary,
    DescriptorSet,
    Framebuffer,
    Image,
    ImageView,
    Pipeline,
    PipelineLayout,
    RenderPass,
    Sampler,
}

impl Resource {
    /// The kind and native handle of the resource an entry holds.
    pub open spec fn key(&self) -> (ResourceKind, u64) {
        match self {
            Resource::Buffer(b) => (ResourceKind::Buffer, b.vk),
            Resource::CommandBufferSecondary(c) => (ResourceKind::CommandBufferSecondary, c.handle()),
            Resource::DescriptorSet(d) => (ResourceKind::DescriptorSet, d.vk),
            Resource::Framebuffer(f) => (ResourceKind::Framebuffer, f.vk),
            Resource::Image(i) => (ResourceKind::Image, i.vk),
            Resource::ImageView(v) => (ResourceKind::ImageView, v.vk),
            Resource::Pipeline(p) => (ResourceKind::Pipeline, p.vk),
            Resource::PipelineLayout(l) => (ResourceKind::PipelineLayout, l.vk),
            Resource::RenderPass(r) => (ResourceKind::RenderPass, r.vk),
            Resource::Sampler(s) => (ResourceKind::Sampler, s.vk),
        }
    }
}

impl Resource {
    /// The kind and native handle of the resource the entry holds.
    pub fn kind_and_handle(&self) -> (r: (ResourceKind, u64))
        ensures
            r == self.key(),
    {
        match self {
            Resource::Buffer(b) => (ResourceKind::Buffer, b.vk),
            Resource::CommandBufferSecondary(c) => (ResourceKind::CommandBufferSecondary, c.vk()),
            Resource::DescriptorSet(d) => (ResourceKind::DescriptorSet, d.vk),
            Resource::Framebuffer(f) => (ResourceKind::Framebuffer, f.vk),
            Resource::Image(i) => (ResourceKind::Image, i.vk),
            Resource::ImageView(v) => (ResourceKind::ImageView, v.vk),
            Resource::Pipeline(p) => (ResourceKind::Pipeline, p.vk),
            Resource::PipelineLayout(l) => (ResourceKind::PipelineLayout, l.vk),
            Resource::RenderPass(r) => (ResourceKind::RenderPass, r.vk),
            Resource::Sampler(s) => (ResourceKind::Sampler, s.vk),
        }
    }
}

/// The kinds and handles of the entries of a ledger, in order.
pub open spec fn ledger_keys(ledger: Seq<Resource>) -> Seq<(ResourceKind, u64)> {
    ledger.map_values(|r: Resource| r.key())
}

/// The stages that read an image after it has been filled.
pub const STAGE_SHADERS: u32 = STAGE_FRAGMENT_SHADER | STAGE_VERTEX_SHADER;

/// `cmd` is a barrier from `src` to `dst` stages that moves `image` alone
/// to `layout`.
pub open spec fn is_transition(cmd: Command, src: u32, dst: u32, image: u64, layout: ImageLayout) -> bool {
    cmd matches Command::PipelineBarrier { src_stage, dst_stage, barriers } && src_stage == src && dst_stage
        == dst && barriers@.len() == 1 && barriers@[0].image == image && barriers@[0].new_layout == layout
}

/// An image whose contents are not set yet.
pub struct ImageInit {
    pub img: Arc<Image>,
}

impl ImageInit {
    pub fn new(img: Arc<Image>) -> (r: ImageInit)
        ensures
            r.img == img,
    {
        ImageInit { img }
    }

    /// Fills the image with `color`, in commands recorded by `builder` and
    /// run on `queue`: the image moves to the transfer destination layout,
    /// is cleared, and moves to the shader read layout.
    pub fn clear(self, queue: &Queue, builder: CommandBufferBuilder<Primary>, color: ClearValue) -> (r: Result<
        (Arc<Image>, SubmitFuture),
        UnsupportedTransition,
    >)
        requires
            builder.family() == queue.family,
        ensures
            match r {
                Ok((img, f)) => {
                    let cmds = f.command_buffer_spec().commands_spec();
                    let n = builder.commands_spec().len() as int;
                    &&& img == self.img
                    &&& f.queue_spec() == Some(*queue)
                    &&& f.pending() == SubmitView::empty().with_cmd(builder.handle())
                    &&& f.command_buffer_spec().handle() == builder.handle()
                    &&& cmds.len() == n + 3
                    &&& cmds.subrange(0, n) == builder.commands_spec()
                    &&& is_transition(cmds[n], STAGE_TOP_OF_PIPE, STAGE_TRANSFER, self.img.vk, ImageLayout::TransferDstOptimal)
                    &&& cmds[n + 1] == Command::ClearColorImage { image: self.img.vk, color }
                    &&& is_transition(cmds[n + 2], STAGE_TRANSFER, STAGE_SHADERS, self.img.vk, ImageLayout::ShaderReadOnlyOptimal)
                },
                Err(e) => e.image == self.img.vk,
            },
    {
        let bars1 = vec![ImageMemoryBarrier::new(self.img.clone(), ImageLayout::TransferDstOptimal)];
        assert(bars1@.len() == 1 && bars1@[0].img == self.img);
        let b1 = builder.pipeline_barrier(STAGE_TOP_OF_PIPE, STAGE_TRANSFER, bars1)?;
        let b2 = b1.clear_color_image(self.img.clone(), color);
        let bars3 = vec![ImageMemoryBarrier::new(self.img.clone(), ImageLayout::ShaderReadOnlyOptimal)];
        assert(bars3@.len() == 1 && bars3@[0].img == self.img);
        let b = b2.pipeline_barrier(STAGE_TRANSFER, STAGE_SHADERS, bars3)?;
        let ghost n = builder.commands_spec().len() as int;
        proof {
            let c1 = b1.commands_spec();
            let c2 = b2.commands_spec();
            let c3 = b.commands_spec();
            assert(c1.subrange(0, n) == builder.commands_spec());
            assert(c2 == c1.push(c2.last()));
            assert(c3.subrange(0, n + 2) == c2);
            assert(c3[n] == c2[n]);
            assert(c2[n] == c1[n]);
            assert(c3[n + 1] == c2[n + 1]);
            assert(c3.subrange(0, n) =~= builder.commands_spec());
        }
        let cmd = b.build();
        let future = queue.submit(cmd);
        Ok((self.img, future))
    }

    /// Fills the image with the elements of `buffer`, which must be no more
    /// than the image has texels, in commands recorded by `builder` and run
    /// on `queue`.
    pub fn copy_from_buffer(self, queue: &Queue, builder: CommandBufferBuilder<Primary>, buffer: Arc<Buffer>) -> (r: Result<
        (Arc<Image>, SubmitFuture),
        UnsupportedTransition,
    >)
        requires
            builder.family() == queue.family,
            buffer.len_spec() <= self.img.size_spec().texels(),
        ensures
            match r {
                Ok((img, f)) => {
                    let cmds = f.command_buffer_spec().commands_spec();
                    let n = builder.commands_spec().len() as int;
                    &&& img == self.img
                    &&& f.queue_spec() == Some(*queue)
                    &&& f.pending() == SubmitView::empty().with_cmd(builder.handle())
                    &&& f.command_buffer_spec().handle() == builder.handle()
                    &&& cmds.len() == n + 3
                    &&& cmds.subrange(0, n) == builder.commands_spec()
                    &&& is_transition(cmds[n], STAGE_TOP_OF_PIPE, STAGE_TRANSFER, self.img.vk, ImageLayout::TransferDstOptimal)
                    &&& cmds[n + 1] == Command::CopyBufferToImage { src: buffer.vk, dst: self.img.vk, extent: self.img.size }
                    &&& is_transition(cmds[n + 2], STAGE_TRANSFER, STAGE_SHADERS, self.img.vk, ImageLayout::ShaderReadOnlyOptimal)
                },
                Err(e) => e.image == self.img.vk,
            },
    {
        let bars1 = vec![ImageMemoryBarrier::new(self.img.clone(), ImageLayout::TransferDstOptimal)];
        assert(bars1@.len() == 1 && bars1@[0].img == self.img);
        let b1 = builder.pipeline_barrier(STAGE_TOP_OF_PIPE, STAGE_TRANSFER, bars1)?;
        let extent = self.img.size();
        let b2 = b1.copy_buffer_to_image(buffer, self.img.clone(), extent);
        let bars3 = vec![ImageMemoryBarrier::new(self.img.clone(), ImageLayout::ShaderReadOnlyOptimal)];
        assert(bars3@.len() == 1 && bars3@[0].img == self.img);
        let b = b2.pipeline_barrier(STAGE_TRANSFER, STAGE_SHADERS, bars3)?;
        let ghost n = builder.commands_spec().len() as int;
        proof {
            let c1 = b1.commands_spec();
            let c2 = b2.commands_spec();
            let c3 = b.commands_spec();
            assert(c1.subrange(0, n) == builder.commands_spec());
            assert(c2 == c1.push(c2.last()));
            assert(c3.subrange(0, n + 2) == c2);
            assert(c3[n] == c2[n]);
            assert(c2[n] == c1[n]);
            assert(c3[n + 1] == c2[n + 1]);
            assert(c3.subrange(0, n) =~= builder.commands_spec());
        }
        let cmd = b.build();
        let future = queue.submit(cmd);
        Ok((self.img, future))
    }
}

/// A buffer whose contents are not set yet.
pub struct BufferInit {
    pub buf: Arc<Buffer>,
}

impl BufferInit {
    pub fn new(buf: Arc<Buffer>) -> (r: BufferInit)
        ensures
            r.buf == buf,
    {
        BufferInit { buf }
    }

    /// Fills the buffer with the contents of `buffer`, which must be no
    /// larger, in a command recorded by `builder` and run on `queue`.
    pub fn copy_from_buffer(self, queue: &Queue, builder: CommandBufferBuilder<Primary>, buffer: Arc<Buffer>) -> (r: (
        Arc<Buffer>,
        SubmitFuture,
    ))
        requires
            builder.family() == queue.family,
            buffer.size_spec() <= self.buf.size_spec(),
            self.buf.size_spec() <= u64::MAX,
        ensures
            r.0 == self.buf,
            r.1.queue_spec() == Some(*queue),
            r.1.pending() == SubmitView::empty().with_cmd(builder.handle()),
            r.1.command_buffer_spec().handle() == builder.handle(),
            r.1.command_buffer_spec().commands_spec() == builder.commands_spec().push(
                Command::CopyBuffer { src: buffer.vk, dst: self.buf.vk, size: buffer.size_spec() as u64 },
            ),
    {
        let cmd = builder.copy_buffer(buffer, self.buf.clone()).build();
        let future = queue.submit(cmd);
        (self.buf, future)
    }
}

} // verus!
