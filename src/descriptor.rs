//! Descriptor-set writes, and the resources each binding of a set holds.
use vstd::prelude::*;
use std::sync::Arc;
use crate::layout::{ImageLayout, layout_raw};
use crate::resource::{DescriptorSet, ImageView, Resource, Sampler};

verus! {

/// One image written to a binding: an optional sampler, a view, and the
/// layout the image will be in when it is read.
pub type ImageInfo = (Option<Arc<Sampler>>, Arc<ImageView>, ImageLayout);

/// The ledger entries of one written image: its sampler if it has one,
/// then its view.
pub open spec fn info_entries(info: ImageInfo) -> Seq<Resource> {
    match info.0 {
        Some(s) => seq![Resource::Sampler(s), Resource::ImageView(info.1)],
        None => seq![Resource::ImageView(info.1)],
    }
}

/// The ledger entries of images written to a binding, in order.
pub open spec fn image_entries(infos: Seq<ImageInfo>) -> Seq<Resource>
    decreases infos.len(),
{
    if infos.len() == 0 {
        seq![]
    } else {
        image_entries(infos.drop_last()) + info_entries(infos.last())
    }
}

/// An image of a write, as the native call takes it: the sampler (zero for
/// none), the view and the layout's native number.
#[derive(Clone, Copy, Debug, PartialEq, Eq, Structural)]
pub struct DescriptorImage {
    pub sampler: u64,
    pub image_view: u64,
    pub image_layout: i32,
}

pub open spec fn native_image(info: ImageInfo) -> DescriptorImage {
    DescriptorImage {
        sampler: match info.0 {
            Some(s) => s.vk,
            None => 0,
        },
        image_view: info.1.vk,
        image_layout: layout_raw(info.2),
    }
}

/// One write of images to a binding of a descriptor set.
pub struct DescriptorWrite {
    pub dst_set: u64,
    pub dst_binding: u32,
    pub descriptor_type: i32,
    pub images: Vec<DescriptorImage>,
}

/// The resources each binding of a descriptor set holds: what the set's
/// current contents keep alive.
pub struct DescriptorSetResources {
    bindings: Vec<Vec<Resource>>,
}

impl DescriptorSetResources {
    /// The ledger of each binding.
    pub closed spec fn bindings_spec(&self) -> Seq<Seq<Resource>> {
        self.bindings@.map_values(|b: Vec<Resource>| b@)
    }

    /// Holds nothing yet, for a set with `binding_count` bindings.
    pub fn new(binding_count: u32) -> (r: DescriptorSetResources)
        ensures
            r.bindings_spec().len() == binding_count,
            forall|i: int| 0 <= i < binding_count ==> #[trigger] r.bindings_spec()[i] == Seq::<Resource>::empty(),
    {
        let mut bindings: Vec<Vec<Resource>> = Vec::new();
        let mut i: u32 = 0;
        while i < binding_count
            invariant
                i <= binding_count,
                bindings@.len() == i,
                forall|j: int| 0 <= j < i ==> (#[trigger] bindings@[j])@ == Seq::<Resource>::empty(),
            decreases binding_count - i,
        {
            bindings.push(Vec::new());
            i += 1;
        }
        let r = DescriptorSetResources { bindings };
        proof {
            assert forall|j: int| 0 <= j < binding_count implies #[trigger] r.bindings_spec()[j] == Seq::<Resource>::empty() by {
                assert(r.bindings@[j]@ == Seq::<Resource>::empty());
            }
        }
        r
    }
}

/// A batch of descriptor writes, made by one native update call.
pub struct DescriptorSetUpdate {
    writes: Vec<DescriptorWrite>,
}

impl DescriptorSetUpdate {
    pub closed spec fn writes_spec(&self) -> Seq<DescriptorWrite> {
        self.writes@
    }

    pub fn new() -> (r: DescriptorSetUpdate)
        ensures
            r.writes_spec() == Seq::<DescriptorWrite>::empty(),
    {
        DescriptorSetUpdate { writes: Vec::new() }
    }

    /// The writes of the batch, in order.
    pub fn writes(&self) -> (r: &Vec<DescriptorWrite>)
        ensures
            r@ == self.writes_spec(),
    {
        &self.writes
    }

    /// Writes `image_infos` to binding `dst_binding` of `dst_set`, whose
    /// bound resources are `bound`. The binding's ledger then holds the
    /// samplers and views of `image_infos` in place of what it held.
    pub fn write(
        self,
        dst_set: &DescriptorSet,
        bound: &mut DescriptorSetResources,
        dst_binding: u32,
        descriptor_type: i32,
        image_infos: Vec<ImageInfo>,
    ) -> (r: DescriptorSetUpdate)
        requires
            dst_binding < old(bound).bindings_spec().len(),
        ensures
            final(bound).bindings_spec() == old(bound).bindings_spec().update(
                dst_binding as int,
                image_entries(image_infos@),
            ),
            r.writes_spec().len() == self.writes_spec().len() + 1,
            r.writes_spec().subrange(0, self.writes_spec().len() as int) == self.writes_spec(),
            r.writes_spec().last().dst_set == dst_set.vk,
            r.writes_spec().last().dst_binding == dst_binding,
            r.writes_spec().last().descriptor_type == descriptor_type,
            r.writes_spec().last().images@ == image_infos@.map_values(|i: ImageInfo| native_image(i)),
    {
        let mut resources: Vec<Resource> = Vec::new();
        let mut images: Vec<DescriptorImage> = Vec::new();
        let mut i: usize = 0;
        while i < image_infos.len()
            invariant
                i <= image_infos@.len(),
                resources@ == image_entries(image_infos@.subrange(0, i as int)),
                images@ == image_infos@.subrange(0, i as int).map_values(|i: ImageInfo| native_image(i)),
            decreases image_infos@.len() - i,
        {
            let info = &image_infos[i];
            let sampler: Option<Arc<Sampler>> = match &info.0 {
                Some(s) => Some(s.clone()),
                None => None,
            };
            let view = info.1.clone();
            let layout = info.2;
            assert(sampler == image_infos@[i as int].0);
            let sampler_vk = match &sampler {
                Some(s) => s.vk,
                None => 0,
            };
            images.push(DescriptorImage { sampler: sampler_vk, image_view: view.vk, image_layout: layout.raw() });
            match sampler {
                Some(s) => resources.push(Resource::Sampler(s)),
                None => {},
            }
            resources.push(Resource::ImageView(view));
            proof {
                let sub = image_infos@.subrange(0, i + 1 as int);
                assert(sub.drop_last() == image_infos@.subrange(0, i as int));
                assert(sub.last() == image_infos@[i as int]);
                assert(resources@ =~= image_entries(sub));
                assert(sub == image_infos@.subrange(0, i as int).push(image_infos@[i as int]));
            }
            i += 1;
        }
        proof {
            assert(image_infos@.subrange(0, i as int) == image_infos@);
        }
        let ghost old_bound = bound.bindings@;
        bound.bindings.set(dst_binding as usize, resources);
        proof {
            assert(bound.bindings_spec() =~= old(bound).bindings_spec().update(
                dst_binding as int,
                image_entries(image_infos@),
            ));
        }
        let mut writes = self.writes;
        writes.push(DescriptorWrite { dst_set: dst_set.vk, dst_binding, descriptor_type, images });
        proof {
            assert(writes@.subrange(0, self.writes@.len() as int) =~= self.writes@);
        }
        DescriptorSetUpdate { writes }
    }
}

/// One binding of a descriptor-set layout. Bindings are numbered in the
/// order they were added, from zero.
pub struct LayoutBinding {
    pub binding: u32,
    pub descriptor_type: i32,
    pub descriptor_count: u32,
    pub stage_flags: u32,
    pub immutable_samplers: Vec<u64>,
}

/// The bindings of a descriptor-set layout being described, and the
/// immutable samplers that the layout keeps alive.
pub struct DescriptorSetLayoutBuilder {
    bindings: Vec<LayoutBinding>,
    immutable_samplers: Vec<Arc<Sampler>>,
}

impl DescriptorSetLayoutBuilder {
    pub closed spec fn bindings_spec(&self) -> Seq<LayoutBinding> {
        self.bindings@
    }

    /// The samplers the layout keeps alive.
    pub closed spec fn samplers_spec(&self) -> Seq<Arc<Sampler>> {
        self.immutable_samplers@
    }

    pub fn new() -> (r: DescriptorSetLayoutBuilder)
        ensures
            r.bindings_spec() == Seq::<LayoutBinding>::empty(),
            r.samplers_spec() == Seq::<Arc<Sampler>>::empty(),
    {
        DescriptorSetLayoutBuilder { bindings: Vec::new(), immutable_samplers: Vec::new() }
    }

    /// Adds the next binding: `descriptor_count` descriptors of type
    /// `descriptor_type` for the stages `stage_flags`, with the given
    /// immutable samplers.
    pub fn desc(
        self,
        descriptor_type: i32,
        descriptor_count: u32,
        stage_flags: u32,
        immutable_samplers: Vec<Arc<Sampler>>,
    ) -> (r: DescriptorSetLayoutBuilder)
        requires
            self.bindings_spec().len() < u32::MAX,
        ensures
            r.bindings_spec().len() == self.bindings_spec().len() + 1,
            r.bindings_spec().subrange(0, self.bindings_spec().len() as int) == self.bindings_spec(),
            r.bindings_spec().last().binding == self.bindings_spec().len(),
            r.bindings_spec().last().descriptor_type == descriptor_type,
            r.bindings_spec().last().descriptor_count == descriptor_count,
            r.bindings_spec().last().stage_flags == stage_flags,
            r.bindings_spec().last().immutable_samplers@ == immutable_samplers@.map_values(
                |s: Arc<Sampler>| s.vk,
            ),
            r.samplers_spec() == self.samplers_spec() + immutable_samplers@,
    {
        let mut kept = self.immutable_samplers;
        let ghost old_kept = kept@;
        let mut vks: Vec<u64> = Vec::new();
        let mut i: usize = 0;
        while i < immutable_samplers.len()
            invariant
                i <= immutable_samplers@.len(),
                vks@ == immutable_samplers@.subrange(0, i as int).map_values(|s: Arc<Sampler>| s.vk),
                kept@ == old_kept + immutable_samplers@.subrange(0, i as int),
            decreases immutable_samplers@.len() - i,
        {
            let sampler = immutable_samplers[i].clone();
            vks.push(sampler.vk);
            kept.push(sampler);
            proof {
                assert(immutable_samplers@.subrange(0, i + 1 as int) == immutable_samplers@.subrange(0, i as int).push(
                    immutable_samplers@[i as int],
                ));
            }
            i += 1;
        }
        proof {
            assert(immutable_samplers@.subrange(0, i as int) == immutable_samplers@);
        }
        let mut bindings = self.bindings;
        let binding = bindings.len() as u32;
        bindings.push(LayoutBinding { binding, descriptor_type, descriptor_count, stage_flags, immutable_samplers: vks });
        proof {
            assert(bindings@.subrange(0, self.bindings@.len() as int) =~= self.bindings@);
        }
        DescriptorSetLayoutBuilder { bindings, immutable_samplers: kept }
    }

    /// The bindings, in order.
    pub fn bindings(&self) -> (r: &Vec<LayoutBinding>)
        ensures
            r@ == self.bindings_spec(),
    {
        &self.bindings
    }

    /// Ends the description: the bindings, and the samplers to keep alive
    /// as long as the layout.
    pub fn into_parts(self) -> (r: (Vec<LayoutBinding>, Vec<Arc<Sampler>>))
        ensures
            r.0@ == self.bindings_spec(),
            r.1@ == self.samplers_spec(),
    {
        (self.bindings, self.immutable_samplers)
    }
}

} // verus!
