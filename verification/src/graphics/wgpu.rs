//! The handles of the graphics backend. They are carried through; nothing
//! inside them is visible to proofs.

use vstd::prelude::*;

verus! {

/// `wgpu::Adapter`, a handle to a physical graphics device.
#[verifier::external_type_specification]
#[verifier::external_body]
pub struct ExAdapter(::wgpu::Adapter);

/// `wgpu::Surface`, a handle to a presentable surface.
#[verifier::external_type_specification]
#[verifier::external_body]
pub struct ExSurface<'window>(::wgpu::Surface<'window>);

/// `wgpu::Device`, an open connection to a graphics device.
#[verifier::external_type_specification]
#[verifier::external_body]
pub struct ExDevice(::wgpu::Device);

/// `wgpu::Queue`, a handle to a command queue of a device.
#[verifier::external_type_specification]
#[verifier::external_body]
pub struct ExQueue(::wgpu::Queue);

/// `wgpu::BindGroupLayout`, a handle to a binding group layout.
#[verifier::external_type_specification]
#[verifier::external_body]
pub struct ExBindGroupLayout(::wgpu::BindGroupLayout);

/// `wgpu::BindGroup`, a handle to a binding group.
#[verifier::external_type_specification]
#[verifier::external_body]
pub struct ExBindGroup(::wgpu::BindGroup);

/// `wgpu::Buffer`, a handle to a buffer on the device.
#[verifier::external_type_specification]
#[verifier::external_body]
pub struct ExBuffer(::wgpu::Buffer);

/// `wgpu::RenderPipeline`, a handle to a rendering pipeline.
#[verifier::external_type_specification]
#[verifier::external_body]
pub struct ExRenderPipeline(::wgpu::RenderPipeline);

/// `wgpu::TextureView`, a handle to a view of a texture.
#[verifier::external_type_specification]
#[verifier::external_body]
pub struct ExTextureView(::wgpu::TextureView);

/// `wgpu::CommandEncoder`, which records commands into a command buffer.
#[verifier::external_type_specification]
#[verifier::external_body]
pub struct ExCommandEncoder(::wgpu::CommandEncoder);

/// `at` is the first of the surface's formats that is an sRGB format, where
/// `srgb` tells of each format whether it is one.
pub open spec fn is_first_srgb(srgb: Seq<bool>, at: int) -> bool {
    &&& 0 <= at < srgb.len()
    &&& srgb[at]
    &&& forall|i: int| 0 <= i < at ==> !srgb[i]
}

/// Picks the format that the surface is configured with: the first sRGB
/// format that it offers. `srgb` tells of each offered format, in the order
/// offered, whether it is an sRGB format. `None` when none is.
pub fn select_surface_format(srgb: &Vec<bool>) -> (selected: Option<usize>)
    ensures
        match selected {
            Some(at) => is_first_srgb(srgb@, at as int),
            None => forall|i: int| 0 <= i < srgb@.len() ==> !srgb@[i],
        },
{
    let mut i: usize = 0;
    while i < srgb.len()
        invariant
            i <= srgb.len(),
            forall|k: int| 0 <= k < i ==> !srgb@[k],
        decreases srgb.len() - i,
    {
        if srgb[i] {
            return Some(i);
        }
        i = i + 1;
    }
    None
}

} // verus!
