//! The vocabulary between the library and the code that talks to the
//! platform: every call that the library can ask for, and every reply that
//! it understands.

use crate::d3d::{SwapChainDescriptor, TextureDescriptor};
use crate::handles::{
    D3dContext, D3dDevice, DxDeviceHandle, DxResourceHandle, Extent, Hdc, Hglrc, Hwnd, Pipeline,
    ProcAddress, RenderTarget, ShaderView, SwapChain, Texture2d,
};
use crate::wgl::{ContextAttributes, GLenum, GLuint, PixelFormatRequest, ProcTable};
use vstd::prelude::*;

verus! {

/// One call into the platform. `L` is the type of a list of object handles:
/// a `Vec` in a call that is handed out, a `Seq` in a specification.
#[allow(inconsistent_fields)]
#[derive(Debug, PartialEq, Eq)]
pub enum Call<L> {
    /// Get the device context of a window. Replied to with a handle.
    GetDc { window: Hwnd },
    /// Give a device context back.
    ReleaseDc { window: Hwnd, dc: Hdc },
    /// Ask for the client area of a window. Replied to with a rectangle.
    GetClientRect { window: Hwnd },
    /// Ask for the surface format closest to a request. Replied to with a
    /// number, zero where there is none.
    ChoosePixelFormat { dc: Hdc, request: PixelFormatRequest },
    /// Give a surface the format of the given number.
    SetPixelFormat { dc: Hdc, format: i32 },
    /// Create a legacy rendering context. Replied to with a handle.
    CreateContext { dc: Hdc },
    /// Create a rendering context through the extension. Replied to with a
    /// handle.
    CreateContextAttribs {
        entry: ProcAddress,
        dc: Hdc,
        share: Option<Hglrc>,
        attributes: ContextAttributes,
    },
    /// Destroy a rendering context.
    DeleteContext { context: Hglrc },
    /// Bind a rendering context to the calling thread, or with `None` unbind
    /// the one that is bound.
    MakeCurrent { dc: Hdc, context: Option<Hglrc> },
    /// Swap the buffers of a window surface.
    SwapBuffers { dc: Hdc },
    /// Look up every extension entry point in the rendering context that is
    /// current. Replied to with a table of addresses.
    ResolveEntryPoints,
    /// Create the presentation device. Replied to with the handles of the
    /// device and of its immediate context.
    CreateDevice { flags: u32, feature_level: u32 },
    /// Create the swap chain of a window. Replied to with a handle.
    CreateSwapChain { device: D3dDevice, window: Hwnd, descriptor: SwapChainDescriptor },
    /// Create the shader, rasterizer and sampler objects of the blit.
    /// Replied to with a handle.
    CreatePipeline { device: D3dDevice },
    /// Open an interop channel. Replied to with a handle.
    DxOpenDevice { entry: ProcAddress, device: D3dDevice },
    /// Close an interop channel.
    DxCloseDevice { entry: ProcAddress, device: DxDeviceHandle },
    /// Allocate a texture. Replied to with a handle.
    CreateTexture { device: D3dDevice, descriptor: TextureDescriptor },
    /// Create the shader-visible view of a texture. Replied to with a handle.
    CreateShaderView { device: D3dDevice, texture: Texture2d },
    /// Register a texture with an interop channel. Replied to with a handle.
    DxRegisterObject {
        entry: ProcAddress,
        device: DxDeviceHandle,
        object: Texture2d,
        name: GLuint,
        kind: GLenum,
        access: GLenum,
    },
    /// Take a registered object out of an interop channel.
    DxUnregisterObject { entry: ProcAddress, device: DxDeviceHandle, object: DxResourceHandle },
    /// Hand the listed objects to the rendering side, all at once.
    DxLockObjects { entry: ProcAddress, device: DxDeviceHandle, objects: L },
    /// Hand the listed objects to the presentation side, all at once.
    DxUnlockObjects { entry: ProcAddress, device: DxDeviceHandle, objects: L },
    /// Create the render-target view of the current back buffer. Replied to
    /// with a handle.
    CreateRenderTarget { device: D3dDevice, swap_chain: SwapChain },
    /// Unbind everything from the immediate context.
    ClearState { context: D3dContext },
    /// Draw the source over the whole target with the blit pipeline.
    Draw {
        context: D3dContext,
        pipeline: Pipeline,
        viewport: Extent,
        source: ShaderView,
        target: RenderTarget,
        vertices: u32,
    },
    /// Present the swap chain.
    Present { swap_chain: SwapChain, interval: u32, flags: u32 },
    /// Resize the buffers of the swap chain. A buffer count and a format of
    /// zero keep what the chain has.
    ResizeBuffers {
        swap_chain: SwapChain,
        buffers: u32,
        width: u32,
        height: u32,
        format: u32,
        flags: u32,
    },
    ReleaseRenderTarget { target: RenderTarget },
    ReleaseShaderView { view: ShaderView },
    ReleaseTexture { texture: Texture2d },
    ReleasePipeline { pipeline: Pipeline },
    ReleaseSwapChain { swap_chain: SwapChain },
    ReleaseDevice { device: D3dDevice, context: D3dContext },
}

/// A call as the library hands it out.
pub type DriverCall = Call<Vec<usize>>;

/// A call as specifications speak of it.
pub type CallModel = Call<Seq<usize>>;

impl View for Call<Vec<usize>> {
    type V = Call<Seq<usize>>;

    open spec fn view(&self) -> Call<Seq<usize>> {
        match *self {
            Call::GetDc { window } => Call::GetDc { window },
            Call::ReleaseDc { window, dc } => Call::ReleaseDc { window, dc },
            Call::GetClientRect { window } => Call::GetClientRect { window },
            Call::ChoosePixelFormat { dc, request } => Call::ChoosePixelFormat { dc, request },
            Call::SetPixelFormat { dc, format } => Call::SetPixelFormat { dc, format },
            Call::CreateContext { dc } => Call::CreateContext { dc },
            Call::CreateContextAttribs { entry, dc, share, attributes } => {
                Call::CreateContextAttribs { entry, dc, share, attributes }
            },
            Call::DeleteContext { context } => Call::DeleteContext { context },
            Call::MakeCurrent { dc, context } => Call::MakeCurrent { dc, context },
            Call::SwapBuffers { dc } => Call::SwapBuffers { dc },
            Call::ResolveEntryPoints => Call::ResolveEntryPoints,
            Call::CreateDevice { flags, feature_level } => Call::CreateDevice {
                flags,
                feature_level,
            },
            Call::CreateSwapChain { device, window, descriptor } => Call::CreateSwapChain {
                device,
                window,
                descriptor,
            },
            Call::CreatePipeline { device } => Call::CreatePipeline { device },
            Call::DxOpenDevice { entry, device } => Call::DxOpenDevice { entry, device },
            Call::DxCloseDevice { entry, device } => Call::DxCloseDevice { entry, device },
            Call::CreateTexture { device, descriptor } => Call::CreateTexture {
                device,
                descriptor,
            },
            Call::CreateShaderView { device, texture } => Call::CreateShaderView {
                device,
                texture,
            },
            Call::DxRegisterObject { entry, device, object, name, kind, access } => {
                Call::DxRegisterObject { entry, device, object, name, kind, access }
            },
            Call::DxUnregisterObject { entry, device, object } => Call::DxUnregisterObject {
                entry,
                device,
                object,
            },
            Call::DxLockObjects { entry, device, objects } => Call::DxLockObjects {
                entry,
                device,
                objects: objects@,
            },
            Call::DxUnlockObjects { entry, device, objects } => Call::DxUnlockObjects {
                entry,
                device,
                objects: objects@,
            },
            Call::CreateRenderTarget { device, swap_chain } => Call::CreateRenderTarget {
                device,
                swap_chain,
            },
            Call::ClearState { context } => Call::ClearState { context },
            Call::Draw { context, pipeline, viewport, source, target, vertices } => Call::Draw {
                context,
                pipeline,
                viewport,
                source,
                target,
                vertices,
            },
            Call::Present { swap_chain, interval, flags } => Call::Present {
                swap_chain,
                interval,
                flags,
            },
            Call::ResizeBuffers { swap_chain, buffers, width, height, format, flags } => {
                Call::ResizeBuffers { swap_chain, buffers, width, height, format, flags }
            },
            Call::ReleaseRenderTarget { target } => Call::ReleaseRenderTarget { target },
            Call::ReleaseShaderView { view } => Call::ReleaseShaderView { view },
            Call::ReleaseTexture { texture } => Call::ReleaseTexture { texture },
            Call::ReleasePipeline { pipeline } => Call::ReleasePipeline { pipeline },
            Call::ReleaseSwapChain { swap_chain } => Call::ReleaseSwapChain { swap_chain },
            Call::ReleaseDevice { device, context } => Call::ReleaseDevice { device, context },
        }
    }
}

impl<L> Call<L> {
    /// Whether the call goes through the interop extension.
    pub open spec fn is_interop(self) -> bool {
        self is DxOpenDevice || self is DxCloseDevice || self is DxRegisterObject
            || self is DxUnregisterObject || self is DxLockObjects || self is DxUnlockObjects
    }
}

/// The client area of a window.
#[derive(Clone, Copy, Debug, PartialEq, Eq, Structural)]
pub struct ClientRect {
    pub left: i32,
    pub top: i32,
    pub right: i32,
    pub bottom: i32,
}

/// What the platform answered to a call.
#[derive(Clone, Copy, Debug, PartialEq, Eq, Structural)]
pub enum DriverReply {
    /// The call failed.
    Failed,
    /// The call succeeded and returned nothing.
    Completed,
    /// The call returned a handle; zero is the invalid handle.
    Handle(usize),
    /// The call returned a device and its immediate context.
    Handles(usize, usize),
    /// The call returned a number.
    Number(i32),
    /// The call returned a rectangle.
    Rect(ClientRect),
    /// The call returned the addresses of the entry points.
    EntryPoints(ProcTable),
}

impl DriverReply {
    /// The valid handle that the reply holds, if it holds one.
    pub open spec fn handle_spec(self) -> Option<usize> {
        match self {
            DriverReply::Handle(raw) => if raw != 0 {
                Some(raw)
            } else {
                None
            },
            _ => None,
        }
    }

    pub fn handle(&self) -> (handle: Option<usize>)
        ensures
            handle == self.handle_spec(),
    {
        match *self {
            DriverReply::Handle(raw) => if raw != 0 {
                Some(raw)
            } else {
                None
            },
            _ => None,
        }
    }

    /// Whether the reply reports a call that succeeded without a result.
    pub open spec fn completed_spec(self) -> bool {
        self is Completed
    }

    pub fn completed(&self) -> (completed: bool)
        ensures
            completed == self.completed_spec(),
    {
        match *self {
            DriverReply::Completed => true,
            _ => false,
        }
    }
}

} // verus!
