//! Preparing the material for rendering: whether its GPU resources can be
//! bound yet, and which resource goes into which slot.

use crate::layout::{
    bindings_distinct, material_layout, BindGroupLayoutEntry, BindingType, SAMPLER_BINDING,
    TEXTURE_BINDING, UNIFORM_BINDING,
};
use vstd::prelude::*;

verus! {

/// The kind of resource that is put into a slot.
#[derive(Clone, Copy, Debug, PartialEq, Eq, Structural)]
pub enum BoundResource {
    /// The view of the image's texture.
    TextureView,
    /// The image's sampler.
    Sampler,
    /// The uniform buffer, from its first byte to its last.
    EntireBuffer,
}

/// One slot of a bind group: the slot's index and what is put there.
#[derive(Clone, Copy, Debug, PartialEq, Eq, Structural)]
pub struct BindGroupEntry {
    pub binding: u32,
    pub resource: BoundResource,
}

/// Why a material was not prepared.
#[derive(Debug, PartialEq, Eq)]
pub enum PrepareAssetError<M> {
    /// The image is not on the GPU yet. The material comes back unchanged, to
    /// be prepared again at the next update.
    RetryNextUpdate(M),
}

/// A material whose image is on the GPU, with the image's texture and the
/// list of what to bind where.
#[derive(Debug, PartialEq, Eq)]
pub struct BindGroupPlan<M, T> {
    pub material: M,
    pub texture: T,
    pub entries: Vec<BindGroupEntry>,
}

/// The material's bind group: texture view, sampler and uniform buffer, in
/// slot order.
pub open spec fn material_bindings() -> Seq<BindGroupEntry> {
    seq![
        BindGroupEntry { binding: TEXTURE_BINDING, resource: BoundResource::TextureView },
        BindGroupEntry { binding: SAMPLER_BINDING, resource: BoundResource::Sampler },
        BindGroupEntry { binding: UNIFORM_BINDING, resource: BoundResource::EntireBuffer },
    ]
}

/// Whether a resource of kind `resource` may go into a slot of type `ty`.
pub open spec fn resource_fits(ty: BindingType, resource: BoundResource) -> bool {
    match ty {
        BindingType::Texture { .. } => resource == BoundResource::TextureView,
        BindingType::Sampler(_) => resource == BoundResource::Sampler,
        BindingType::Buffer { .. } => resource == BoundResource::EntireBuffer,
    }
}

/// Whether `entries` puts a fitting resource into the slot `slot`.
pub open spec fn fills(entries: Seq<BindGroupEntry>, slot: BindGroupLayoutEntry) -> bool {
    exists|j: int|
        0 <= j < entries.len() && (#[trigger] entries[j]).binding == slot.binding && resource_fits(
            slot.ty,
            entries[j].resource,
        )
}

/// Whether a bind group made of `entries` matches `layout`: each slot of the
/// layout has an index of its own, the bind group has as many entries as the
/// layout has slots, and every slot is filled with a resource that fits it.
pub open spec fn matches_layout(
    layout: Seq<BindGroupLayoutEntry>,
    entries: Seq<BindGroupEntry>,
) -> bool {
    &&& bindings_distinct(layout)
    &&& entries.len() == layout.len()
    &&& forall|i: int| 0 <= i < layout.len() ==> fills(entries, #[trigger] layout[i])
}

/// Lists what the material binds, slot by slot.
pub fn bind_group_entries() -> (entries: Vec<BindGroupEntry>)
    ensures
        entries@ == material_bindings(),
{
    let mut entries: Vec<BindGroupEntry> = Vec::new();
    entries.push(BindGroupEntry { binding: TEXTURE_BINDING, resource: BoundResource::TextureView });
    entries.push(BindGroupEntry { binding: SAMPLER_BINDING, resource: BoundResource::Sampler });
    entries.push(
        BindGroupEntry { binding: UNIFORM_BINDING, resource: BoundResource::EntireBuffer },
    );
    assert(entries@ =~= material_bindings());
    entries
}

/// Decides what becomes of an extracted material at an update.
/// `image_texture` is the image's texture on the GPU, or `None` while the
/// image has not arrived there. With a texture the material is ready: its
/// resources are bound as the plan says. Without one it stays pending: it is
/// handed back as it came, to be prepared again at the next update.
pub fn prepare_asset<M, T>(extracted_asset: M, image_texture: Option<T>) -> (result: Result<
    BindGroupPlan<M, T>,
    PrepareAssetError<M>,
>)
    ensures
        match image_texture {
            Some(texture) => {
                &&& result matches Ok(plan)
                &&& plan.material == extracted_asset
                &&& plan.texture == texture
                &&& plan.entries@ == material_bindings()
            },
            None => result == Err::<BindGroupPlan<M, T>, PrepareAssetError<M>>(
                PrepareAssetError::RetryNextUpdate(extracted_asset),
            ),
        },
{
    match image_texture {
        Some(texture) => Ok(
            BindGroupPlan { material: extracted_asset, texture, entries: bind_group_entries() },
        ),
        None => Err(PrepareAssetError::RetryNextUpdate(extracted_asset)),
    }
}

/// The bind group that `prepare_asset` plans matches the layout that
/// `bind_group_layout` builds, whatever the size of the uniform block.
pub proof fn lemma_bindings_match_layout(uniform_size: u64)
    ensures
        matches_layout(material_layout(uniform_size), material_bindings()),
{
    let layout = material_layout(uniform_size);
    let entries = material_bindings();
    assert forall|i: int| 0 <= i < layout.len() implies fills(entries, #[trigger] layout[i]) by {
        assert(entries[i].binding == layout[i].binding);
        assert(resource_fits(layout[i].ty, entries[i].resource));
    }
}

} // verus!
