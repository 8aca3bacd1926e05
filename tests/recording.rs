use gpu_sync::command::{plan_barriers, BarrierRecord, ClearValue, Command, ImageMemoryBarrier, Rect2D, UnsupportedTransition};
use gpu_sync::layout::{barrier_access_masks, AccessMasks, ImageLayout, ACCESS_SHADER_READ, ACCESS_TRANSFER_WRITE};
use gpu_sync::pool::CommandPool;
use gpu_sync::resource::{
    Buffer, DescriptorSet, Extent3D, Framebuffer, GraphicsPipeline, Image, PipelineLayout, RenderPass,
    ResourceKind,
};
use std::sync::Arc;

fn pool() -> CommandPool {
    let mut pool = CommandPool::new(0, false);
    assert!(pool.add_thread_pool(1, 10));
    pool
}

fn image(vk: u64) -> Arc<Image> {
    Arc::new(Image::new(vk, Extent3D { width: 4, height: 4, depth: 1 }, ImageLayout::Undefined))
}

#[test]
fn copy_buffer_into_larger_buffer() {
    let mut pool = pool();
    let src = Arc::new(Buffer::new(1, 1, 64));
    let dst = Arc::new(Buffer::new(2, 1, 128));
    assert!(src.size() <= dst.size());
    let cb = pool.record(1, vec![50], true, false).copy_buffer(src.clone(), dst.clone()).build();
    assert_eq!(cb.commands().len(), 1);
    assert!(matches!(cb.commands()[0], Command::CopyBuffer { src: 1, dst: 2, size: 64 }));
    let keys: Vec<_> = cb.resources().iter().map(|r| r.kind_and_handle()).collect();
    assert_eq!(keys, vec![(ResourceKind::Buffer, 1), (ResourceKind::Buffer, 2)]);
    // the reverse copy does not meet copy_buffer's precondition
    let small = Buffer::new(3, 1, 64);
    let large = Buffer::new(4, 1, 128);
    assert!(large.size() > small.size());
}

#[test]
fn barrier_transitions_update_layout() {
    let mut pool = pool();
    let img = image(33);
    let b = pool.record(1, vec![50], true, false);
    let b = b
        .pipeline_barrier(1, 0x1000, vec![ImageMemoryBarrier::new(img.clone(), ImageLayout::TransferDstOptimal)])
        .ok()
        .unwrap();
    assert_eq!(img.layout(), ImageLayout::TransferDstOptimal);
    let b = b
        .pipeline_barrier(0x1000, 0x88, vec![ImageMemoryBarrier::new(img.clone(), ImageLayout::ShaderReadOnlyOptimal)])
        .ok()
        .unwrap();
    assert_eq!(img.layout(), ImageLayout::ShaderReadOnlyOptimal);
    match &b.commands()[1] {
        Command::PipelineBarrier { src_stage, dst_stage, barriers } => {
            assert_eq!((*src_stage, *dst_stage), (0x1000, 0x88));
            assert_eq!(barriers.len(), 1);
            assert_eq!(barriers[0].old_layout, ImageLayout::TransferDstOptimal);
            assert_eq!(barriers[0].masks, AccessMasks { src: ACCESS_TRANSFER_WRITE, dst: ACCESS_SHADER_READ });
        },
        _ => panic!("expected a barrier"),
    }
    // a transition out of a layout the table does not start from
    let r = b.pipeline_barrier(1, 1, vec![ImageMemoryBarrier::new(img.clone(), ImageLayout::TransferDstOptimal)]);
    match r {
        Err(e) => assert_eq!(
            e,
            UnsupportedTransition {
                image: 33,
                old_layout: ImageLayout::ShaderReadOnlyOptimal,
                new_layout: ImageLayout::TransferDstOptimal
            }
        ),
        Ok(_) => panic!("transition should be refused"),
    }
    assert_eq!(img.layout(), ImageLayout::ShaderReadOnlyOptimal);
}

#[test]
fn transition_table() {
    assert_eq!(
        barrier_access_masks(ImageLayout::Undefined, ImageLayout::TransferDstOptimal),
        Some(AccessMasks { src: 0, dst: 0x1000 })
    );
    assert_eq!(
        barrier_access_masks(ImageLayout::TransferDstOptimal, ImageLayout::ShaderReadOnlyOptimal),
        Some(AccessMasks { src: 0x1000, dst: 0x20 })
    );
    assert_eq!(barrier_access_masks(ImageLayout::Undefined, ImageLayout::ShaderReadOnlyOptimal), None);
    assert_eq!(barrier_access_masks(ImageLayout::General, ImageLayout::General), None);
}

#[test]
fn layout_numbers() {
    assert_eq!(ImageLayout::TransferDstOptimal.raw(), 7);
    assert_eq!(ImageLayout::PresentSrc.raw(), 1000001002);
    assert_eq!(ImageLayout::from_raw(5), Some(ImageLayout::ShaderReadOnlyOptimal));
    assert_eq!(ImageLayout::from_raw(9), None);
}

#[test]
fn ledger_keeps_resources_alive() {
    let mut pool = pool();
    let src = Arc::new(Buffer::new(1, 4, 16));
    let img = Arc::new(Image::new(2, Extent3D { width: 4, height: 4, depth: 1 }, ImageLayout::Undefined));
    assert_eq!(Arc::strong_count(&src), 1);
    let cb = pool
        .record(1, vec![50], true, false)
        .copy_buffer_to_image(src.clone(), img.clone(), Extent3D { width: 4, height: 4, depth: 1 })
        .build();
    assert_eq!(Arc::strong_count(&src), 2);
    assert_eq!(Arc::strong_count(&img), 2);
    let weak = Arc::downgrade(&src);
    drop(src);
    assert!(weak.upgrade().is_some());
    drop(cb);
    assert!(weak.upgrade().is_none());
    assert_eq!(Arc::strong_count(&img), 1);
}

#[test]
fn render_pass_commands_and_ledger() {
    let mut pool = pool();
    let rp = Arc::new(RenderPass { vk: 70 });
    let fb = Arc::new(Framebuffer { vk: 71, render_pass: 70 });
    let pl = Arc::new(GraphicsPipeline { vk: 72, render_pass: 70 });
    let layout = Arc::new(PipelineLayout { vk: 73 });
    let set = Arc::new(DescriptorSet { vk: 74 });
    let vb = Arc::new(Buffer::new(75, 16, 3));
    let clear = ClearValue { w0: 0, w1: 0, w2: 0, w3: 0x3f800000 };
    let area = Rect2D { x: 0, y: 0, width: 640, height: 480 };
    let cb = pool
        .record(1, vec![50], false, false)
        .begin_render_pass(rp.clone(), fb.clone(), area, vec![clear])
        .bind_pipeline(pl.clone())
        .bind_descriptor_sets(layout.clone(), 0, vec![set.clone()], vec![])
        .bind_vertex_buffers(0, vec![vb.clone()], vec![0])
        .push_constants(layout.clone(), 1, 0, vec![1, 2, 3, 4])
        .draw(3, 1, 0, 0)
        .end_render_pass()
        .build();
    assert_eq!(cb.commands().len(), 7);
    let keys: Vec<_> = cb.resources().iter().map(|r| r.kind_and_handle()).collect();
    assert_eq!(
        keys,
        vec![
            (ResourceKind::RenderPass, 70),
            (ResourceKind::Framebuffer, 71),
            (ResourceKind::Pipeline, 72),
            (ResourceKind::DescriptorSet, 74),
            (ResourceKind::PipelineLayout, 73),
            (ResourceKind::Buffer, 75),
            (ResourceKind::PipelineLayout, 73),
        ]
    );
    match &cb.commands()[2] {
        Command::BindDescriptorSets { layout, first_set, sets, dynamic_offsets } => {
            assert_eq!((*layout, *first_set), (73, 0));
            assert_eq!(sets, &vec![74]);
            assert!(dynamic_offsets.is_empty());
        },
        _ => panic!("expected descriptor sets"),
    }
    assert_eq!(Arc::strong_count(&layout), 3);
}

#[test]
fn execute_secondary_commands() {
    let mut pool = pool();
    let sec = pool.record_secondary(1, vec![60], false, false, None).build();
    let prim = pool.record(1, vec![61], false, false).execute_commands(vec![sec.clone()]).build();
    match &prim.commands()[0] {
        Command::ExecuteCommands { secondaries } => assert_eq!(secondaries, &vec![60]),
        _ => panic!("expected execute"),
    }
    assert_eq!(Arc::strong_count(&sec), 2);
    drop(prim);
    assert_eq!(Arc::strong_count(&sec), 1);
}

#[test]
fn clear_color_image_keeps_image() {
    let mut pool = pool();
    let img = image(5);
    let color = ClearValue { w0: 1, w1: 2, w2: 3, w3: 4 };
    let cb = pool.record(1, vec![50], false, false).clear_color_image(img.clone(), color).build();
    assert!(matches!(cb.commands()[0], Command::ClearColorImage { image: 5, .. }));
    assert_eq!(Arc::strong_count(&img), 2);
}

#[test]
fn sizes() {
    let b = Buffer::new(1, 8, 5);
    assert_eq!(b.size(), 40);
    assert_eq!(b.len(), 5);
    let i = Image::new(2, Extent3D { width: 3, height: 4, depth: 5 }, ImageLayout::Undefined);
    assert_eq!(i.len(), 60);
    assert_eq!(i.size(), Extent3D { width: 3, height: 4, depth: 5 });
    let flat = Image::new(3, Extent3D { width: u32::MAX, height: u32::MAX, depth: 0 }, ImageLayout::Undefined);
    assert_eq!(flat.len(), 0);
}

#[test]
fn barrier_plan_from_given_layouts() {
    let a = image(1);
    let b = image(2);
    let bars = vec![
        ImageMemoryBarrier::new(a.clone(), ImageLayout::TransferDstOptimal),
        ImageMemoryBarrier::new(b.clone(), ImageLayout::ShaderReadOnlyOptimal),
    ];
    let recs = plan_barriers(&bars, &vec![ImageLayout::Undefined, ImageLayout::TransferDstOptimal]).ok().unwrap();
    assert_eq!(
        recs,
        vec![
            BarrierRecord {
                image: 1,
                old_layout: ImageLayout::Undefined,
                new_layout: ImageLayout::TransferDstOptimal,
                masks: AccessMasks { src: 0, dst: ACCESS_TRANSFER_WRITE },
            },
            BarrierRecord {
                image: 2,
                old_layout: ImageLayout::TransferDstOptimal,
                new_layout: ImageLayout::ShaderReadOnlyOptimal,
                masks: AccessMasks { src: ACCESS_TRANSFER_WRITE, dst: ACCESS_SHADER_READ },
            },
        ]
    );
    // the first transition the table lacks is the one reported
    let err = plan_barriers(&bars, &vec![ImageLayout::General, ImageLayout::PresentSrc]).err().unwrap();
    assert_eq!(
        err,
        UnsupportedTransition { image: 1, old_layout: ImageLayout::General, new_layout: ImageLayout::TransferDstOptimal }
    );
    assert!(plan_barriers(&vec![], &vec![]).ok().unwrap().is_empty());
}
