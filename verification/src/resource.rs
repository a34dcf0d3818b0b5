//! What a resource is made of, as far as tracking and presentation need it.

use vstd::prelude::*;
use crate::command::ResourceRange;
use crate::life::LifetimeGuard;
use crate::track::ResourceId;
use crate::usage::{COPY_DST, COPY_SRC, RENDER_TARGET, SAMPLED, STORAGE, UsageFlags};

verus! {

/// The memory format of the texels of a texture.
#[derive(Clone, Copy, Debug, PartialEq, Eq, Hash)]
pub enum TextureFormat {
    R8Unorm,
    R8Snorm,
    R8Uint,
    R8Sint,
    R16Uint,
    R16Sint,
    R16Float,
    Rg8Unorm,
    Rg8Snorm,
    Rg8Uint,
    Rg8Sint,
    R32Float,
    R32Uint,
    R32Sint,
    Rg16Uint,
    Rg16Sint,
    Rg16Float,
    Rgba8Unorm,
    Rgba8UnormSrgb,
    Rgba8Snorm,
    Rgba8Uint,
    Rgba8Sint,
    Bgra8Unorm,
    Bgra8UnormSrgb,
    Rgb10a2Unorm,
    Rg32Float,
    Rg32Uint,
    Rg32Sint,
    Rgba16Uint,
    Rgba16Sint,
    Rgba16Float,
    Rgba32Float,
    Rgba32Uint,
    Rgba32Sint,
    Depth32Float,
    Depth24Plus,
    Depth24PlusStencil8,
}

/// The usages that a texture can be created with. `wgpu_types::TextureUsage`
/// has the same five flags on the same bits; it calls the last of them
/// `RENDER_ATTACHMENT`.
pub const TEXTURE_USAGES: u32 = COPY_SRC | COPY_DST | SAMPLED | STORAGE | RENDER_TARGET;

/// The usage that the bits of a texture descriptor stand for, if every bit
/// among them is a usage that a texture can be created with.
pub open spec fn texture_usage_of(bits: u32) -> Option<UsageFlags> {
    if bits & !TEXTURE_USAGES == 0 {
        Some(UsageFlags { bits })
    } else {
        None
    }
}

/// Calls `wgpu_types::TextureUsage::from_bits`, and `bits` on what it
/// returns. Not proved: that `from_bits` accepts exactly the values with no
/// bit outside the five flags of `TextureUsage` (the bits 1, 2, 4, 8 and
/// 16), and that `bits` gives back the value that was accepted.
#[verifier::external_body]
fn accepted_texture_usage(bits: u32) -> (r: Option<u32>)
    ensures
        r == (if bits & !TEXTURE_USAGES == 0 {
            Some(bits)
        } else {
            None
        }),
{
    match wgpu_types::TextureUsage::from_bits(bits) {
        Some(usage) => Some(usage.bits()),
        None => None,
    }
}

/// Reads the usage bits of a texture descriptor.
pub fn texture_usage(bits: u32) -> (r: Option<UsageFlags>)
    ensures
        r == texture_usage_of(bits),
{
    match accepted_texture_usage(bits) {
        Some(accepted) => Some(UsageFlags::from_bits(accepted)),
        None => None,
    }
}

/// A buffer or a texture: its identity, all of its subresources, and the
/// count of those who hold it.
#[derive(Debug)]
pub struct Resource {
    pub id: ResourceId,
    /// The whole of the resource. A barrier on the resource covers this.
    pub full_range: ResourceRange,
    pub life_guard: LifetimeGuard,
}

impl Resource {
    /// A buffer of `size` bytes, held by its creator.
    pub fn buffer(id: ResourceId, size: u64) -> (r: Resource)
        ensures
            r.id == id,
            r.full_range == (ResourceRange::Buffer { size }),
            r.life_guard@ == 1,
    {
        Resource { id, full_range: ResourceRange::Buffer { size }, life_guard: LifetimeGuard::new() }
    }

    /// A texture of `levels` mip levels and `layers` array layers, held by
    /// its creator.
    pub fn texture(id: ResourceId, levels: u32, layers: u32) -> (r: Resource)
        ensures
            r.id == id,
            r.full_range == (ResourceRange::Texture { levels, layers }),
            r.life_guard@ == 1,
    {
        Resource {
            id,
            full_range: ResourceRange::Texture { levels, layers },
            life_guard: LifetimeGuard::new(),
        }
    }
}

} // verus!
