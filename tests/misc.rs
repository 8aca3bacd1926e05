use gpu_sync::descriptor::{DescriptorImage, DescriptorSetLayoutBuilder, DescriptorSetResources, DescriptorSetUpdate};
use gpu_sync::instance::Version;
use gpu_sync::layout::ImageLayout;
use gpu_sync::resource::{DescriptorSet, ImageView, Sampler};
use gpu_sync::swapchain::{present_lists, sharing_mode, SharingMode, Swapchain};
use gpu_sync::sync::{Semaphore, SemaphoreFuture};
use std::sync::Arc;

#[test]
fn version_packing() {
    assert_eq!(Version::new(1, 2, 3).vk(), (1 << 22) | (2 << 12) | 3);
    assert_eq!(Version::new(0, 0, 0).vk(), 0);
}

#[test]
fn sharing_mode_by_family_count() {
    assert_eq!(sharing_mode(&vec![]), SharingMode::Exclusive);
    assert_eq!(sharing_mode(&vec![0]), SharingMode::Exclusive);
    assert_eq!(sharing_mode(&vec![0, 1]), SharingMode::Concurrent);
    assert_eq!(SharingMode::Concurrent.raw(), 1);
}

#[test]
fn present_lists_collect_handles() {
    let sems = vec![SemaphoreFuture::new(Semaphore::new(1, 5)), SemaphoreFuture::new(Semaphore::new(1, 6))];
    let chains = vec![Swapchain::new(1, 30)];
    let lists = present_lists(&sems, &chains);
    assert_eq!(lists.wait_semaphores, vec![5, 6]);
    assert_eq!(lists.swapchains, vec![30]);
}

#[test]
fn descriptor_write_replaces_binding_ledger() {
    let set = DescriptorSet { vk: 80 };
    let mut bound = DescriptorSetResources::new(2);
    let sampler = Arc::new(Sampler { vk: 81 });
    let view = Arc::new(ImageView { vk: 82, image: 83 });
    let update = DescriptorSetUpdate::new().write(
        &set,
        &mut bound,
        1,
        1,
        vec![(Some(sampler.clone()), view.clone(), ImageLayout::ShaderReadOnlyOptimal), (None, view.clone(), ImageLayout::General)],
    );
    assert_eq!(Arc::strong_count(&sampler), 2);
    assert_eq!(Arc::strong_count(&view), 3);
    let w = &update.writes()[0];
    assert_eq!((w.dst_set, w.dst_binding, w.descriptor_type), (80, 1, 1));
    assert_eq!(
        w.images,
        vec![
            DescriptorImage { sampler: 81, image_view: 82, image_layout: 5 },
            DescriptorImage { sampler: 0, image_view: 82, image_layout: 1 },
        ]
    );
    // a second write to the binding lets go of what the first held
    let update = update.write(&set, &mut bound, 1, 1, vec![]);
    assert_eq!(update.writes().len(), 2);
    assert_eq!(Arc::strong_count(&sampler), 1);
    assert_eq!(Arc::strong_count(&view), 1);
}

#[test]
fn layout_bindings_numbered_in_order() {
    let s1 = Arc::new(Sampler { vk: 91 });
    let b = DescriptorSetLayoutBuilder::new().desc(1, 1, 0x10, vec![s1.clone()]).desc(6, 2, 0x1, vec![]);
    let bindings = b.bindings();
    assert_eq!(bindings.len(), 2);
    assert_eq!((bindings[0].binding, bindings[0].descriptor_type, bindings[0].descriptor_count), (0, 1, 1));
    assert_eq!(bindings[0].immutable_samplers, vec![91]);
    assert_eq!((bindings[1].binding, bindings[1].stage_flags), (1, 0x1));
    assert!(bindings[1].immutable_samplers.is_empty());
    let (_, samplers) = b.into_parts();
    assert_eq!(samplers.len(), 1);
    assert_eq!(Arc::strong_count(&s1), 2);
}
