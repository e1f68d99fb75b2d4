//! The presentation API's side: the constants and descriptors with which
//! the device, the swap chain and the shared textures are created.

use crate::handles::Extent;
use vstd::prelude::*;

verus! {

pub const D3D11_CREATE_DEVICE_DEBUG: u32 = 0x02;

pub const D3D11_CREATE_DEVICE_BGRA_SUPPORT: u32 = 0x20;

pub const D3D_FEATURE_LEVEL_11_1: u32 = 0xb100;

pub const D3D11_USAGE_DEFAULT: u32 = 0;

pub const D3D11_BIND_SHADER_RESOURCE: u32 = 0x08;

pub const D3D11_BIND_RENDER_TARGET: u32 = 0x20;

pub const DXGI_FORMAT_UNKNOWN: u32 = 0;

pub const DXGI_FORMAT_B8G8R8A8_UNORM: u32 = 87;

pub const DXGI_USAGE_RENDER_TARGET_OUTPUT: u32 = 0x20;

pub const DXGI_SWAP_EFFECT_FLIP_DISCARD: u32 = 4;

pub const DXGI_SWAP_CHAIN_FLAG_ALLOW_TEARING: u32 = 0x800;

pub const DXGI_PRESENT_ALLOW_TEARING: u32 = 0x200;

/// The number of buffers of the swap chain.
pub const BACK_BUFFERS: u32 = 2;

/// The number of vertices of the full-screen triangle.
pub const BLIT_VERTICES: u32 = 3;

/// The flags with which the presentation device is created: BGRA support
/// together with the debug layer.
pub const DEVICE_FLAGS: u32 = 0x22;

/// The bind flags of a shared texture: a render target that shaders can
/// also read.
pub const SHARED_BIND_FLAGS: u32 = 0x28;

/// How a shared texture is allocated.
#[derive(Clone, Copy, Debug, PartialEq, Eq, Structural)]
pub struct TextureDescriptor {
    pub width: u32,
    pub height: u32,
    pub mip_levels: u32,
    pub array_size: u32,
    pub format: u32,
    pub sample_count: u32,
    pub sample_quality: u32,
    pub usage: u32,
    pub bind_flags: u32,
    pub cpu_access_flags: u32,
    pub misc_flags: u32,
}

impl TextureDescriptor {
    /// One BGRA8 surface of the given size without mip chain or
    /// multisampling, in device memory, bound both as a render target and as
    /// a shader resource.
    pub open spec fn shared_spec(width: u32, height: u32) -> TextureDescriptor {
        TextureDescriptor {
            width,
            height,
            mip_levels: 1,
            array_size: 1,
            format: DXGI_FORMAT_B8G8R8A8_UNORM,
            sample_count: 1,
            sample_quality: 0,
            usage: D3D11_USAGE_DEFAULT,
            bind_flags: SHARED_BIND_FLAGS,
            cpu_access_flags: 0,
            misc_flags: 0,
        }
    }

    pub fn shared(width: u32, height: u32) -> (descriptor: TextureDescriptor)
        ensures
            descriptor == Self::shared_spec(width, height),
            descriptor.bind_flags == D3D11_BIND_RENDER_TARGET | D3D11_BIND_SHADER_RESOURCE,
    {
        assert(0x28u32 == 0x20u32 | 0x08u32) by (bit_vector);
        TextureDescriptor {
            width,
            height,
            mip_levels: 1,
            array_size: 1,
            format: DXGI_FORMAT_B8G8R8A8_UNORM,
            sample_count: 1,
            sample_quality: 0,
            usage: D3D11_USAGE_DEFAULT,
            bind_flags: SHARED_BIND_FLAGS,
            cpu_access_flags: 0,
            misc_flags: 0,
        }
    }
}

/// How the swap chain is created.
#[derive(Clone, Copy, Debug, PartialEq, Eq, Structural)]
pub struct SwapChainDescriptor {
    pub width: u32,
    pub height: u32,
    pub format: u32,
    pub sample_count: u32,
    pub sample_quality: u32,
    pub buffer_usage: u32,
    pub buffer_count: u32,
    pub swap_effect: u32,
    pub flags: u32,
}

impl SwapChainDescriptor {
    /// A double-buffered flip-model chain of BGRA8 back buffers of the given
    /// size that may present with tearing.
    pub open spec fn flip_spec(extent: Extent) -> SwapChainDescriptor {
        SwapChainDescriptor {
            width: extent.width,
            height: extent.height,
            format: DXGI_FORMAT_B8G8R8A8_UNORM,
            sample_count: 1,
            sample_quality: 0,
            buffer_usage: DXGI_USAGE_RENDER_TARGET_OUTPUT,
            buffer_count: BACK_BUFFERS,
            swap_effect: DXGI_SWAP_EFFECT_FLIP_DISCARD,
            flags: DXGI_SWAP_CHAIN_FLAG_ALLOW_TEARING,
        }
    }

    pub fn flip(extent: Extent) -> (descriptor: SwapChainDescriptor)
        ensures
            descriptor == Self::flip_spec(extent),
    {
        SwapChainDescriptor {
            width: extent.width,
            height: extent.height,
            format: DXGI_FORMAT_B8G8R8A8_UNORM,
            sample_count: 1,
            sample_quality: 0,
            buffer_usage: DXGI_USAGE_RENDER_TARGET_OUTPUT,
            buffer_count: BACK_BUFFERS,
            swap_effect: DXGI_SWAP_EFFECT_FLIP_DISCARD,
            flags: DXGI_SWAP_CHAIN_FLAG_ALLOW_TEARING,
        }
    }
}

/// The flags of a present call: tearing is allowed exactly when no vertical
/// sync is waited for.
pub open spec fn present_flags_spec(interval: u32) -> u32 {
    if interval == 0 {
        DXGI_PRESENT_ALLOW_TEARING
    } else {
        0
    }
}

pub fn present_flags(interval: u32) -> (flags: u32)
    ensures
        flags == present_flags_spec(interval),
{
    if interval == 0 {
        DXGI_PRESENT_ALLOW_TEARING
    } else {
        0
    }
}

} // verus!
