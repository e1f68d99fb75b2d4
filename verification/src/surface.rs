//! The presentation surface: the swap chain and the cached render target of
//! its back buffer.

use crate::d3d::{
    present_flags, present_flags_spec, SwapChainDescriptor, DXGI_FORMAT_UNKNOWN,
    DXGI_SWAP_CHAIN_FLAG_ALLOW_TEARING,
};
use crate::driver::{Call, CallModel, DriverCall, DriverReply};
use crate::error::{Error, SetupError};
use crate::handles::{D3dDevice, Extent, Hwnd, RenderTarget, SwapChain};
use vstd::prelude::*;

verus! {

/// A render target of a back buffer, with the size of the buffer that it
/// was created for.
#[derive(Clone, Copy, Debug, PartialEq, Eq, Structural)]
pub struct TargetState {
    pub handle: RenderTarget,
    pub extent: Extent,
}

/// What a presentation surface consists of.
#[derive(Clone, Copy, Debug, PartialEq, Eq, Structural)]
pub struct SurfaceState {
    pub swap_chain: SwapChain,
    /// The size of the buffers of the swap chain.
    pub extent: Extent,
    /// The render target of the back buffer, once one was created and until
    /// the buffers are resized.
    pub target: Option<TargetState>,
}

impl SurfaceState {
    /// The cached render target is one of the buffers as they are.
    pub open spec fn wf(self) -> bool {
        self.target matches Some(target) ==> target.extent == self.extent
    }

    pub open spec fn create_call(device: D3dDevice, window: Hwnd, extent: Extent) -> CallModel {
        Call::CreateSwapChain { device, window, descriptor: SwapChainDescriptor::flip_spec(extent) }
    }

    pub open spec fn created(raw: usize, extent: Extent) -> SurfaceState {
        SurfaceState { swap_chain: SwapChain(raw), extent, target: None }
    }

    /// Without vertical sync the call allows tearing; otherwise it waits for
    /// `interval` vertical syncs.
    pub open spec fn present(self, interval: u32) -> CallModel {
        Call::Present {
            swap_chain: self.swap_chain,
            interval,
            flags: present_flags_spec(interval),
        }
    }

    pub open spec fn target_call(self, device: D3dDevice) -> CallModel {
        Call::CreateRenderTarget { device, swap_chain: self.swap_chain }
    }

    /// The surface with a fresh render target of its buffers.
    pub open spec fn with_target(self, raw: usize) -> SurfaceState {
        SurfaceState {
            target: Some(TargetState { handle: RenderTarget(raw), extent: self.extent }),
            ..self
        }
    }

    pub open spec fn release_target_call(self) -> Option<CallModel> {
        match self.target {
            Some(target) => Some(Call::ReleaseRenderTarget { target: target.handle }),
            None => None,
        }
    }

    pub open spec fn without_target(self) -> SurfaceState {
        SurfaceState { target: None, ..self }
    }

    /// The call that resizes the buffers and keeps their number and their
    /// format. There is none while a render target is cached: the platform
    /// resizes no buffer that is still referenced.
    pub open spec fn resize_call(self, width: u32, height: u32) -> Option<CallModel> {
        if self.target is None {
            Some(
                Call::ResizeBuffers {
                    swap_chain: self.swap_chain,
                    buffers: 0,
                    width,
                    height,
                    format: DXGI_FORMAT_UNKNOWN,
                    flags: DXGI_SWAP_CHAIN_FLAG_ALLOW_TEARING,
                },
            )
        } else {
            None
        }
    }

    pub open spec fn resized(self, width: u32, height: u32) -> SurfaceState {
        SurfaceState { extent: Extent { width, height }, target: None, ..self }
    }
}

/// The swap chain of a window together with the cached render target of its
/// back buffer.
#[derive(Debug, PartialEq, Eq)]
pub struct PresentationSurface {
    swap_chain: SwapChain,
    extent: Extent,
    target: Option<TargetState>,
}

impl View for PresentationSurface {
    type V = SurfaceState;

    closed spec fn view(&self) -> SurfaceState {
        SurfaceState { swap_chain: self.swap_chain, extent: self.extent, target: self.target }
    }
}

impl PresentationSurface {
    #[verifier::type_invariant]
    spec fn consistent(self) -> bool {
        self.target matches Some(target) ==> target.extent == self.extent
    }

    /// The call that creates the swap chain of a window with buffers of the
    /// given size.
    pub fn create_call(device: D3dDevice, window: Hwnd, extent: Extent) -> (call: DriverCall)
        ensures
            call@ == SurfaceState::create_call(device, window, extent),
    {
        Call::CreateSwapChain { device, window, descriptor: SwapChainDescriptor::flip(extent) }
    }

    /// The surface as the reply to [`PresentationSurface::create_call`]
    /// makes it.
    pub fn create(extent: Extent, reply: DriverReply) -> (created: Result<
        PresentationSurface,
        SetupError,
    >)
        ensures
            match created {
                Ok(surface) => reply.handle_spec() is Some && surface@ == SurfaceState::created(
                    reply.handle_spec().unwrap(),
                    extent,
                ),
                Err(error) => reply.handle_spec() is None && error == SetupError::SwapChain,
            },
    {
        match reply.handle() {
            Some(raw) => Ok(PresentationSurface { swap_chain: SwapChain(raw), extent, target: None }),
            None => Err(SetupError::SwapChain),
        }
    }

    /// The call that presents the swap chain.
    pub fn present(&self, interval: u32) -> (call: DriverCall)
        ensures
            call@ == self@.present(interval),
    {
        Call::Present { swap_chain: self.swap_chain, interval, flags: present_flags(interval) }
    }

    pub fn swap_chain(&self) -> (swap_chain: SwapChain)
        ensures
            swap_chain == self@.swap_chain,
    {
        self.swap_chain
    }

    pub fn extent(&self) -> (extent: Extent)
        ensures
            extent == self@.extent,
    {
        self.extent
    }

    /// The cached render target, if there is one.
    pub fn target(&self) -> (target: Option<TargetState>)
        ensures
            target == self@.target,
            self@.wf(),
    {
        proof {
            use_type_invariant(self);
        }
        self.target
    }

    /// The call that creates the render target of the current back buffer.
    pub fn target_call(&self, device: D3dDevice) -> (call: DriverCall)
        ensures
            call@ == self@.target_call(device),
    {
        Call::CreateRenderTarget { device, swap_chain: self.swap_chain }
    }

    /// Caches the render target that the reply to
    /// [`PresentationSurface::target_call`] holds.
    pub fn install_target(&mut self, reply: DriverReply) -> (installed: Result<(), Error>)
        ensures
            match installed {
                Ok(()) => reply.handle_spec() is Some && final(self)@ == old(self)@.with_target(
                    reply.handle_spec().unwrap(),
                ),
                Err(error) => reply.handle_spec() is None && error == Error::DriverFailure
                    && final(self)@ == old(self)@,
            },
    {
        match reply.handle() {
            Some(raw) => {
                let extent = self.extent;
                self.target = Some(TargetState { handle: RenderTarget(raw), extent });
                Ok(())
            },
            None => Err(Error::DriverFailure),
        }
    }

    /// The call that releases the cached render target, if there is one.
    pub fn release_target_call(&self) -> (call: Option<DriverCall>)
        ensures
            match call {
                Some(call) => self@.release_target_call() == Some(call@),
                None => self@.release_target_call() is None,
            },
    {
        match self.target {
            Some(target) => Some(Call::ReleaseRenderTarget { target: target.handle }),
            None => None,
        }
    }

    /// Forgets the cached render target.
    pub fn clear_target(&mut self)
        ensures
            final(self)@ == old(self)@.without_target(),
    {
        self.target = None;
    }

    /// The call that resizes the buffers, or `None` while a render target
    /// is cached.
    pub fn resize_call(&self, width: u32, height: u32) -> (call: Option<DriverCall>)
        ensures
            match call {
                Some(call) => self@.resize_call(width, height) == Some(call@),
                None => self@.resize_call(width, height) is None,
            },
    {
        match self.target {
            None => Some(
                Call::ResizeBuffers {
                    swap_chain: self.swap_chain,
                    buffers: 0,
                    width,
                    height,
                    format: DXGI_FORMAT_UNKNOWN,
                    flags: DXGI_SWAP_CHAIN_FLAG_ALLOW_TEARING,
                },
            ),
            Some(_) => None,
        }
    }

    /// Records that the buffers have the given size. A render target of the
    /// old buffers is forgotten.
    pub fn resized(&mut self, width: u32, height: u32)
        ensures
            final(self)@ == old(self)@.resized(width, height),
    {
        self.target = None;
        self.extent = Extent { width, height };
    }
}

} // verus!
