//! The binding layout of the material: which shader-visible slots exist and
//! what kind of resource each one takes.
//!
//! The types here describe a layout in plain values. They follow the GPU
//! API's layout descriptors field by field, so that turning one into the
//! other is a matter of renaming.

use vstd::prelude::*;

verus! {

/// The slot of the image's texture.
pub const TEXTURE_BINDING: u32 = 0;

/// The slot of the image's sampler.
pub const SAMPLER_BINDING: u32 = 1;

/// The slot of the uniform block that holds the alpha scalar and the colour.
pub const UNIFORM_BINDING: u32 = 2;

/// The shader stages that can see a binding.
#[derive(Clone, Copy, Debug, PartialEq, Eq, Structural)]
pub struct ShaderStages {
    pub vertex: bool,
    pub fragment: bool,
    pub compute: bool,
}

/// How a shader reads the texels of a bound texture.
#[derive(Clone, Copy, Debug, PartialEq, Eq, Structural)]
pub enum TextureSampleType {
    Float { filterable: bool },
    Depth,
    Sint,
    Uint,
}

/// The shape of a bound texture view.
#[derive(Clone, Copy, Debug, PartialEq, Eq, Structural)]
pub enum TextureViewDimension {
    D1,
    D2,
    D2Array,
    Cube,
    CubeArray,
    D3,
}

/// What a bound sampler may be used for.
#[derive(Clone, Copy, Debug, PartialEq, Eq, Structural)]
pub enum SamplerBindingType {
    Filtering,
    NonFiltering,
    Comparison,
}

/// How a shader addresses a bound buffer.
#[derive(Clone, Copy, Debug, PartialEq, Eq, Structural)]
pub enum BufferBindingType {
    Uniform,
    Storage { read_only: bool },
}

/// The kind of resource a slot takes.
#[derive(Clone, Copy, Debug, PartialEq, Eq, Structural)]
pub enum BindingType {
    /// A buffer. `min_binding_size` is the least number of bytes a bound
    /// buffer range must have; zero leaves the size unchecked.
    Buffer { ty: BufferBindingType, has_dynamic_offset: bool, min_binding_size: u64 },
    Sampler(SamplerBindingType),
    Texture {
        sample_type: TextureSampleType,
        view_dimension: TextureViewDimension,
        multisampled: bool,
    },
}

/// One slot of a binding layout. `count` is the length of a binding array;
/// zero means that the slot takes a single resource.
#[derive(Clone, Copy, Debug, PartialEq, Eq, Structural)]
pub struct BindGroupLayoutEntry {
    pub binding: u32,
    pub visibility: ShaderStages,
    pub ty: BindingType,
    pub count: u32,
}

/// Visibility from the fragment stage alone.
pub open spec fn fragment_only() -> ShaderStages {
    ShaderStages { vertex: false, fragment: true, compute: false }
}

/// The slot that takes the image: a filterable, single-sampled 2D texture.
pub open spec fn texture_slot() -> BindGroupLayoutEntry {
    BindGroupLayoutEntry {
        binding: TEXTURE_BINDING,
        visibility: fragment_only(),
        ty: BindingType::Texture {
            sample_type: TextureSampleType::Float { filterable: true },
            view_dimension: TextureViewDimension::D2,
            multisampled: false,
        },
        count: 0,
    }
}

/// The slot that takes the image's sampler: a filtering sampler.
pub open spec fn sampler_slot() -> BindGroupLayoutEntry {
    BindGroupLayoutEntry {
        binding: SAMPLER_BINDING,
        visibility: fragment_only(),
        ty: BindingType::Sampler(SamplerBindingType::Filtering),
        count: 0,
    }
}

/// The slot that takes the uniform block: a uniform buffer at a fixed
/// offset, of at least `uniform_size` bytes.
pub open spec fn uniform_slot(uniform_size: u64) -> BindGroupLayoutEntry {
    BindGroupLayoutEntry {
        binding: UNIFORM_BINDING,
        visibility: fragment_only(),
        ty: BindingType::Buffer {
            ty: BufferBindingType::Uniform,
            has_dynamic_offset: false,
            min_binding_size: uniform_size,
        },
        count: 0,
    }
}

/// The material's layout for a uniform block of `uniform_size` bytes:
/// texture, sampler, uniform buffer, in slot order.
pub open spec fn material_layout(uniform_size: u64) -> Seq<BindGroupLayoutEntry> {
    seq![texture_slot(), sampler_slot(), uniform_slot(uniform_size)]
}

/// No two entries of `layout` name the same slot.
pub open spec fn bindings_distinct(layout: Seq<BindGroupLayoutEntry>) -> bool {
    forall|i: int, j: int|
        0 <= i < j < layout.len() ==> (#[trigger] layout[i]).binding != (#[trigger] layout[j]).binding
}

/// Builds the material's binding layout. `uniform_size` is the size in bytes
/// of the uniform block as the shader lays it out.
pub fn bind_group_layout(uniform_size: u64) -> (layout: Vec<BindGroupLayoutEntry>)
    ensures
        layout@ == material_layout(uniform_size),
{
    let fragment = ShaderStages { vertex: false, fragment: true, compute: false };
    let mut layout: Vec<BindGroupLayoutEntry> = Vec::new();
    layout.push(
        BindGroupLayoutEntry {
            binding: TEXTURE_BINDING,
            visibility: fragment,
            ty: BindingType::Texture {
                sample_type: TextureSampleType::Float { filterable: true },
                view_dimension: TextureViewDimension::D2,
                multisampled: false,
            },
            count: 0,
        },
    );
    layout.push(
        BindGroupLayoutEntry {
            binding: SAMPLER_BINDING,
            visibility: fragment,
            ty: BindingType::Sampler(SamplerBindingType::Filtering),
            count: 0,
        },
    );
    layout.push(
        BindGroupLayoutEntry {
            binding: UNIFORM_BINDING,
            visibility: fragment,
            ty: BindingType::Buffer {
                ty: BufferBindingType::Uniform,
                has_dynamic_offset: false,
                min_binding_size: uniform_size,
            },
            count: 0,
        },
    );
    assert(layout@ =~= material_layout(uniform_size));
    layout
}

/// Every slot of the material's layout has its own index, is a single
/// resource and is seen by the fragment stage only, whatever the size of the
/// uniform block.
pub proof fn lemma_layout_slots(uniform_size: u64)
    ensures
        material_layout(uniform_size).len() == 3,
        bindings_distinct(material_layout(uniform_size)),
        forall|i: int|
            0 <= i < 3 ==> {
                let entry = #[trigger] material_layout(uniform_size)[i];
                &&& entry.binding == i
                &&& entry.visibility == fragment_only()
                &&& entry.count == 0
            },
{
}

} // verus!
