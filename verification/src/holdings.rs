//! What a session holds of the platform besides its textures, and the order
//! in which it is given back.

use crate::context::ContextState;
use crate::driver::{Call, CallModel, DriverCall};
use crate::handles::{D3dContext, D3dDevice, Pipeline, RenderTarget, SwapChain};
use vstd::prelude::*;

verus! {

/// How far the release of a rendering context has come.
#[derive(Clone, Copy, Debug, PartialEq, Eq, Structural)]
pub enum ContextRelease {
    Unbind,
    Delete,
    Release,
}

/// The objects that are still to be given back. They go in the order of the
/// fields: the render target, the pipeline, the swap chain, the device with
/// its immediate context, and last the rendering context, which is unbound,
/// destroyed, and parted from its device context.
#[derive(Clone, Copy, Debug, PartialEq, Eq)]
pub struct Holdings {
    pub target: Option<RenderTarget>,
    pub pipeline: Option<Pipeline>,
    pub swap_chain: Option<SwapChain>,
    pub device: Option<(D3dDevice, D3dContext)>,
    pub context: Option<ContextState>,
    pub step: ContextRelease,
}

impl Holdings {
    /// The call that gives back the next object, or `None` when nothing is
    /// held any more.
    pub open spec fn call(self) -> Option<CallModel> {
        if let Some(target) = self.target {
            Some(Call::ReleaseRenderTarget { target })
        } else if let Some(pipeline) = self.pipeline {
            Some(Call::ReleasePipeline { pipeline })
        } else if let Some(swap_chain) = self.swap_chain {
            Some(Call::ReleaseSwapChain { swap_chain })
        } else if let Some(device) = self.device {
            Some(Call::ReleaseDevice { device: device.0, context: device.1 })
        } else if let Some(context) = self.context {
            Some(
                match self.step {
                    ContextRelease::Unbind => context.unbind(),
                    ContextRelease::Delete => context.delete(),
                    ContextRelease::Release => context.release(),
                },
            )
        } else {
            None
        }
    }

    /// What is held once the outstanding call is answered. The object
    /// counts as given back whatever the reply says.
    pub open spec fn resume(self) -> Holdings {
        if self.target is Some {
            Holdings { target: None, ..self }
        } else if self.pipeline is Some {
            Holdings { pipeline: None, ..self }
        } else if self.swap_chain is Some {
            Holdings { swap_chain: None, ..self }
        } else if self.device is Some {
            Holdings { device: None, ..self }
        } else if self.context is Some {
            match self.step {
                ContextRelease::Unbind => Holdings { step: ContextRelease::Delete, ..self },
                ContextRelease::Delete => Holdings { step: ContextRelease::Release, ..self },
                ContextRelease::Release => Holdings { context: None, ..self },
            }
        } else {
            self
        }
    }

    /// The number of calls that are still to be made.
    pub open spec fn remaining(self) -> nat {
        let target: nat = if self.target is Some {
            1
        } else {
            0
        };
        let pipeline: nat = if self.pipeline is Some {
            1
        } else {
            0
        };
        let swap_chain: nat = if self.swap_chain is Some {
            1
        } else {
            0
        };
        let device: nat = if self.device is Some {
            1
        } else {
            0
        };
        let context: nat = if self.context is Some {
            match self.step {
                ContextRelease::Unbind => 3,
                ContextRelease::Delete => 2,
                ContextRelease::Release => 1,
            }
        } else {
            0
        };
        target + pipeline + swap_chain + device + context
    }

    /// The call to make next, or `None` when nothing is held any more.
    pub fn outstanding(&self) -> (call: Option<DriverCall>)
        ensures
            match call {
                Some(call) => self.call() == Some(call@),
                None => self.call() is None,
            },
    {
        if let Some(target) = self.target {
            Some(Call::ReleaseRenderTarget { target })
        } else if let Some(pipeline) = self.pipeline {
            Some(Call::ReleasePipeline { pipeline })
        } else if let Some(swap_chain) = self.swap_chain {
            Some(Call::ReleaseSwapChain { swap_chain })
        } else if let Some(device) = self.device {
            Some(Call::ReleaseDevice { device: device.0, context: device.1 })
        } else if let Some(context) = self.context {
            Some(
                match self.step {
                    ContextRelease::Unbind => Call::MakeCurrent { dc: context.dc, context: None },
                    ContextRelease::Delete => Call::DeleteContext { context: context.rc },
                    ContextRelease::Release => Call::ReleaseDc {
                        window: context.window,
                        dc: context.dc,
                    },
                },
            )
        } else {
            None
        }
    }

    /// Takes the reply to the outstanding call.
    pub fn advance(&mut self)
        ensures
            *final(self) == old(self).resume(),
    {
        if self.target.is_some() {
            self.target = None;
        } else if self.pipeline.is_some() {
            self.pipeline = None;
        } else if self.swap_chain.is_some() {
            self.swap_chain = None;
        } else if self.device.is_some() {
            self.device = None;
        } else if self.context.is_some() {
            match self.step {
                ContextRelease::Unbind => {
                    self.step = ContextRelease::Delete;
                },
                ContextRelease::Delete => {
                    self.step = ContextRelease::Release;
                },
                ContextRelease::Release => {
                    self.context = None;
                },
            }
        }
    }
}

/// Giving back ends, no call of it goes through the interop extension, and
/// the rendering context goes last: while anything else is held, the
/// context is untouched.
pub proof fn law_release_order(holdings: Holdings)
    ensures
        holdings.call() is None <==> holdings.remaining() == 0,
        holdings.call() is Some ==> holdings.resume().remaining() + 1 == holdings.remaining(),
        holdings.call() matches Some(call) ==> !call.is_interop(),
        holdings.target is Some || holdings.pipeline is Some || holdings.swap_chain is Some
            || holdings.device is Some ==> holdings.resume().context == holdings.context
            && holdings.resume().step == holdings.step,
{
}

} // verus!
