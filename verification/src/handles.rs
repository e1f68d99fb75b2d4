//! Typed identifiers for the objects that the platform hands out.
//!
//! Each type stands for one kind of platform handle and carries the raw
//! value unchanged. The library compares handles and passes them on; it
//! never computes with them. The raw value zero is the invalid handle of
//! every kind.

use vstd::prelude::*;

verus! {

/// A native window.
#[derive(Clone, Copy, Debug, PartialEq, Eq, Structural)]
pub struct Hwnd(pub usize);

/// The device context of a window's surface.
#[derive(Clone, Copy, Debug, PartialEq, Eq, Structural)]
pub struct Hdc(pub usize);

/// A rendering context of the rendering API.
#[derive(Clone, Copy, Debug, PartialEq, Eq, Structural)]
pub struct Hglrc(pub usize);

/// The address of a resolved extension entry point.
#[derive(Clone, Copy, Debug, PartialEq, Eq, Structural)]
pub struct ProcAddress(pub usize);

/// An open interop channel between a rendering context and a presentation
/// device.
#[derive(Clone, Copy, Debug, PartialEq, Eq, Structural)]
pub struct DxDeviceHandle(pub usize);

/// A texture as registered with an interop channel.
#[derive(Clone, Copy, Debug, PartialEq, Eq, Structural)]
pub struct DxResourceHandle(pub usize);

/// A device of the presentation API.
#[derive(Clone, Copy, Debug, PartialEq, Eq, Structural)]
pub struct D3dDevice(pub usize);

/// The immediate command context of a presentation device.
#[derive(Clone, Copy, Debug, PartialEq, Eq, Structural)]
pub struct D3dContext(pub usize);

/// A swap chain.
#[derive(Clone, Copy, Debug, PartialEq, Eq, Structural)]
pub struct SwapChain(pub usize);

/// A texture allocated on the presentation device.
#[derive(Clone, Copy, Debug, PartialEq, Eq, Structural)]
pub struct Texture2d(pub usize);

/// A shader-visible view of a texture.
#[derive(Clone, Copy, Debug, PartialEq, Eq, Structural)]
pub struct ShaderView(pub usize);

/// A render-target view of a back buffer.
#[derive(Clone, Copy, Debug, PartialEq, Eq, Structural)]
pub struct RenderTarget(pub usize);

/// The fixed set of shader, rasterizer and sampler objects of the blit.
#[derive(Clone, Copy, Debug, PartialEq, Eq, Structural)]
pub struct Pipeline(pub usize);

/// A width and a height in pixels.
#[derive(Clone, Copy, Debug, PartialEq, Eq, Structural)]
pub struct Extent {
    pub width: u32,
    pub height: u32,
}

} // verus!
