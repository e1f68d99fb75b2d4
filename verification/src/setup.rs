//! How a session comes into being: the rendering context is created, then
//! the presentation device, the swap chain in the size of the window's
//! client area, the blit pipeline, and last the interop channel.
//!
//! A failure on the way gives back what was created before it and leaves no
//! session.

use crate::context::{
    client_extent, client_extent_spec, law_creation_ends, lemma_creation_wf, ContextCreation,
    ContextState, CreationState, WglContext,
};
use crate::d3d::{D3D_FEATURE_LEVEL_11_1, DEVICE_FLAGS};
use crate::device::{DeviceState, InteropDevice};
use crate::driver::{Call, CallModel, DriverCall, DriverReply};
use crate::error::SetupError;
use crate::handles::{D3dContext, D3dDevice, DxDeviceHandle, Extent, Hwnd, Pipeline, SwapChain};
use crate::holdings::{law_release_order, ContextRelease, Holdings};
use crate::model::SessionState;
use crate::session::InteropContext;
use crate::surface::{PresentationSurface, SurfaceState};
use crate::wgl::Wgl;
use vstd::pervasive::unreached;
use vstd::prelude::*;

verus! {

/// Where the setup of a session stands.
#[derive(Clone, Copy, Debug, PartialEq, Eq, Structural)]
pub enum SetupStage {
    /// The rendering context is being created.
    Context,
    CreateDevice,
    GetClientRect,
    CreateSwapChain,
    CreatePipeline,
    OpenDevice,
    /// After a failure: what was created is being given back.
    Unwinding,
    Created,
    Failed,
}

/// Everything that the setup of a session has learnt so far.
pub struct SetupState {
    pub stage: SetupStage,
    pub window: Hwnd,
    /// The creation of the rendering context, while it is under way.
    pub creation: Option<CreationState>,
    pub context: Option<ContextState>,
    pub device: Option<(D3dDevice, D3dContext)>,
    pub extent: Extent,
    pub swap_chain: Option<SwapChain>,
    pub pipeline: Option<Pipeline>,
    pub channel: Option<DxDeviceHandle>,
    /// What is still to be given back after a failure.
    pub holdings: Holdings,
    /// The failure.
    pub error: Option<SetupError>,
}

impl SetupState {
    pub open spec fn begin(window: Hwnd) -> SetupState {
        SetupState {
            stage: SetupStage::Context,
            window,
            creation: Some(CreationState::begin(window)),
            context: None,
            device: None,
            extent: Extent { width: 0, height: 0 },
            swap_chain: None,
            pipeline: None,
            channel: None,
            holdings: Holdings {
                target: None,
                pipeline: None,
                swap_chain: None,
                device: None,
                context: None,
                step: ContextRelease::Unbind,
            },
            error: None,
        }
    }

    /// The state of a setup of which nothing is left.
    pub open spec fn abandoned() -> SetupState {
        SetupState {
            stage: SetupStage::Failed,
            creation: None,
            error: Some(SetupError::Cleanup),
            ..Self::begin(Hwnd(0))
        }
    }

    pub open spec fn ended(self) -> bool {
        self.stage is Created || self.stage is Failed
    }

    /// What holds of every state that a setup can reach.
    pub open spec fn wf(self) -> bool {
        &&& self.stage is Context <==> self.creation is Some
        &&& self.creation matches Some(creation) ==> creation.wf() && !creation.ended()
            && creation.window == self.window
        &&& self.stage is CreateDevice || self.stage is GetClientRect
            || self.stage is CreateSwapChain || self.stage is CreatePipeline
            || self.stage is OpenDevice || self.stage is Created ==> self.context is Some
        &&& self.stage is GetClientRect || self.stage is CreateSwapChain
            || self.stage is CreatePipeline || self.stage is OpenDevice || self.stage is Created
            ==> self.device is Some
        &&& self.stage is CreatePipeline || self.stage is OpenDevice || self.stage is Created
            ==> self.swap_chain is Some
        &&& self.stage is OpenDevice || self.stage is Created ==> self.pipeline is Some
        &&& self.stage is Created <==> self.channel is Some
        &&& self.context is Some ==> !(self.stage is Context)
        &&& self.device is Some ==> !(self.stage is Context || self.stage is CreateDevice)
        &&& self.swap_chain is Some ==> !(self.stage is Context || self.stage is CreateDevice
            || self.stage is GetClientRect || self.stage is CreateSwapChain)
        &&& self.pipeline is Some ==> !(self.stage is Context || self.stage is CreateDevice
            || self.stage is GetClientRect || self.stage is CreateSwapChain
            || self.stage is CreatePipeline)
        &&& self.stage is Unwinding ==> self.holdings.call() is Some
        &&& self.stage is Unwinding || self.stage is Failed <==> self.error is Some
    }

    /// The call that is outstanding.
    pub open spec fn call(self) -> Option<CallModel> {
        match self.stage {
            SetupStage::Context => self.creation.unwrap().call(),
            SetupStage::CreateDevice => Some(
                Call::CreateDevice { flags: DEVICE_FLAGS, feature_level: D3D_FEATURE_LEVEL_11_1 },
            ),
            SetupStage::GetClientRect => Some(Call::GetClientRect { window: self.window }),
            SetupStage::CreateSwapChain => Some(
                SurfaceState::create_call(self.device.unwrap().0, self.window, self.extent),
            ),
            SetupStage::CreatePipeline => Some(
                Call::CreatePipeline { device: self.device.unwrap().0 },
            ),
            SetupStage::OpenDevice => Some(
                Wgl::dx_open_device(self.context.unwrap().functions, self.device.unwrap().0),
            ),
            SetupStage::Unwinding => self.holdings.call(),
            SetupStage::Created => None,
            SetupStage::Failed => None,
        }
    }

    /// The setup after a failure: what was created so far is to be given
    /// back, the latest first, and then the setup has failed.
    pub open spec fn fail(self, error: SetupError) -> SetupState {
        let holdings = Holdings {
            target: None,
            pipeline: self.pipeline,
            swap_chain: self.swap_chain,
            device: self.device,
            context: self.context,
            step: ContextRelease::Unbind,
        };
        SetupState {
            stage: if holdings.call() is Some {
                SetupStage::Unwinding
            } else {
                SetupStage::Failed
            },
            holdings,
            error: Some(error),
            ..self
        }
    }

    /// The rendering context that a finished creation has made.
    pub open spec fn created_context(creation: CreationState) -> ContextState {
        ContextState {
            window: creation.window,
            dc: creation.dc,
            rc: creation.modern.unwrap(),
            functions: creation.table,
        }
    }

    /// The state after the outstanding call is answered with `reply`.
    pub open spec fn resume(self, reply: DriverReply) -> SetupState {
        match self.stage {
            SetupStage::Context => {
                let creation = self.creation.unwrap().resume(reply);
                if creation.stage is Created {
                    SetupState {
                        stage: SetupStage::CreateDevice,
                        creation: None,
                        context: Some(Self::created_context(creation)),
                        ..self
                    }
                } else if creation.stage is Failed {
                    SetupState {
                        stage: SetupStage::Failed,
                        creation: None,
                        error: creation.error,
                        ..self
                    }
                } else {
                    SetupState { creation: Some(creation), ..self }
                }
            },
            SetupStage::CreateDevice => match reply {
                DriverReply::Handles(device, context) => if device != 0 && context != 0 {
                    SetupState {
                        stage: SetupStage::GetClientRect,
                        device: Some((D3dDevice(device), D3dContext(context))),
                        ..self
                    }
                } else {
                    self.fail(SetupError::Device)
                },
                _ => self.fail(SetupError::Device),
            },
            SetupStage::GetClientRect => match reply {
                DriverReply::Rect(rect) => match client_extent_spec(rect) {
                    Some(extent) => SetupState {
                        stage: SetupStage::CreateSwapChain,
                        extent,
                        ..self
                    },
                    None => self.fail(SetupError::WindowSize),
                },
                _ => self.fail(SetupError::WindowSize),
            },
            SetupStage::CreateSwapChain => match reply.handle_spec() {
                Some(raw) => SetupState {
                    stage: SetupStage::CreatePipeline,
                    swap_chain: Some(SwapChain(raw)),
                    ..self
                },
                None => self.fail(SetupError::SwapChain),
            },
            SetupStage::CreatePipeline => match reply.handle_spec() {
                Some(raw) => SetupState {
                    stage: SetupStage::OpenDevice,
                    pipeline: Some(Pipeline(raw)),
                    ..self
                },
                None => self.fail(SetupError::Pipeline),
            },
            SetupStage::OpenDevice => match reply.handle_spec() {
                Some(raw) => SetupState {
                    stage: SetupStage::Created,
                    channel: Some(DxDeviceHandle(raw)),
                    ..self
                },
                None => self.fail(SetupError::OpenDevice),
            },
            SetupStage::Unwinding => {
                let holdings = self.holdings.resume();
                SetupState {
                    stage: if holdings.call() is Some {
                        SetupStage::Unwinding
                    } else {
                        SetupStage::Failed
                    },
                    holdings,
                    ..self
                }
            },
            SetupStage::Created => self,
            SetupStage::Failed => self,
        }
    }

    /// The number of calls that the setup can still make.
    pub open spec fn distance(self) -> nat {
        match self.stage {
            SetupStage::Context => self.creation.unwrap().distance() + 12,
            SetupStage::CreateDevice => 12,
            SetupStage::GetClientRect => 11,
            SetupStage::CreateSwapChain => 10,
            SetupStage::CreatePipeline => 9,
            SetupStage::OpenDevice => 8,
            SetupStage::Unwinding => self.holdings.remaining(),
            SetupStage::Created => 0,
            SetupStage::Failed => 0,
        }
    }

    /// The session that a finished setup has made.
    pub open spec fn session(self) -> SessionState {
        SessionState::assembled(
            self.context.unwrap(),
            DeviceState {
                device: self.device.unwrap().0,
                context: self.device.unwrap().1,
                interop_handle: self.channel.unwrap(),
                functions: self.context.unwrap().functions,
                open: true,
            },
            SurfaceState::created(self.swap_chain.unwrap().0, self.extent),
            self.pipeline.unwrap(),
        )
    }
}

/// Every state that a setup starts in or moves to is well formed, the
/// session that it ends with included.
pub proof fn lemma_setup_wf(state: SetupState, window: Hwnd, reply: DriverReply)
    ensures
        SetupState::begin(window).wf(),
        state.wf() ==> state.resume(reply).wf(),
        state.wf() && state.stage is Created ==> state.session().wf(),
{
    lemma_creation_wf(CreationState::begin(window), window, reply);
    if state.wf() {
        if let Some(creation) = state.creation {
            lemma_creation_wf(creation, window, reply);
        }
        law_release_order(state.holdings);
        law_release_order(state.fail(SetupError::Device).holdings);
    }
}

/// A setup ends: it asks for a call exactly as long as it has not ended,
/// and each reply brings it closer to its end.
pub proof fn law_setup_ends(state: SetupState, reply: DriverReply)
    requires
        state.wf(),
    ensures
        state.ended() <==> state.call() is None,
        state.ended() <==> state.distance() == 0,
        !state.ended() ==> state.resume(reply).distance() < state.distance(),
{
    if let Some(creation) = state.creation {
        law_creation_ends(creation, reply);
        law_creation_ends(creation.resume(reply), reply);
    }
    law_release_order(state.holdings);
    law_release_order(state.holdings.resume());
    law_release_order(state.fail(SetupError::Device).holdings);
}

/// A setup that fails gives back everything that it has created, and the
/// interop channel is opened last: while the setup unwinds, no channel is
/// open.
pub proof fn law_failed_setup_gives_back(state: SetupState, error: SetupError)
    requires
        state.wf(),
        !state.ended(),
        !(state.stage is Unwinding),
    ensures
        state.fail(error).holdings.pipeline == state.pipeline,
        state.fail(error).holdings.swap_chain == state.swap_chain,
        state.fail(error).holdings.device == state.device,
        state.fail(error).holdings.context == state.context,
        state.channel is None,
{
}

/// The parts of a setup.
struct Setup {
    stage: SetupStage,
    window: Hwnd,
    creation: Option<ContextCreation>,
    wgl: Option<WglContext>,
    device: Option<(D3dDevice, D3dContext)>,
    extent: Extent,
    surface: Option<PresentationSurface>,
    pipeline: Option<Pipeline>,
    interop: Option<InteropDevice>,
    holdings: Holdings,
    error: Option<SetupError>,
}

impl View for Setup {
    type V = SetupState;

    closed spec fn view(&self) -> SetupState {
        SetupState {
            stage: self.stage,
            window: self.window,
            creation: match self.creation {
                Some(creation) => Some(creation@),
                None => None,
            },
            context: match self.wgl {
                Some(wgl) => Some(wgl@),
                None => None,
            },
            device: self.device,
            extent: self.extent,
            swap_chain: match self.surface {
                Some(surface) => Some(surface@.swap_chain),
                None => None,
            },
            pipeline: self.pipeline,
            channel: match self.interop {
                Some(interop) => Some(interop@.interop_handle),
                None => None,
            },
            holdings: self.holdings,
            error: self.error,
        }
    }
}

impl Setup {
    /// The parts are those that the state speaks of.
    spec fn wf(&self) -> bool {
        &&& self@.wf()
        &&& self.surface matches Some(surface) ==> surface@ == SurfaceState::created(
            surface@.swap_chain.0,
            self.extent,
        )
        &&& self.interop matches Some(interop) ==> self.stage is Created && interop@
            == self@.session().device
    }

    fn fail(&mut self, error: SetupError)
        requires
            old(self).wf(),
            old(self).interop is None,
            old(self).wgl is Some,
            old(self).error is None,
        ensures
            final(self)@ == old(self)@.fail(error),
            final(self).wf(),
    {
        let holdings = Holdings {
            target: None,
            pipeline: self.pipeline,
            swap_chain: match &self.surface {
                Some(surface) => Some(surface.swap_chain()),
                None => None,
            },
            device: self.device,
            context: match &self.wgl {
                Some(wgl) => Some(wgl.state()),
                None => None,
            },
            step: ContextRelease::Unbind,
        };
        self.stage = if holdings.outstanding().is_some() {
            SetupStage::Unwinding
        } else {
            SetupStage::Failed
        };
        self.holdings = holdings;
        self.error = Some(error);
    }

    fn call(&self) -> (call: Option<DriverCall>)
        requires
            self.wf(),
        ensures
            match call {
                Some(call) => self@.call() == Some(call@),
                None => self@.call() is None,
            },
    {
        match self.stage {
            SetupStage::Context => match &self.creation {
                Some(creation) => creation.call(),
                None => unreached(),
            },
            SetupStage::CreateDevice => Some(
                Call::CreateDevice { flags: DEVICE_FLAGS, feature_level: D3D_FEATURE_LEVEL_11_1 },
            ),
            SetupStage::GetClientRect => Some(Call::GetClientRect { window: self.window }),
            SetupStage::CreateSwapChain => match self.device {
                Some(device) => Some(
                    PresentationSurface::create_call(device.0, self.window, self.extent),
                ),
                None => unreached(),
            },
            SetupStage::CreatePipeline => match self.device {
                Some(device) => Some(Call::CreatePipeline { device: device.0 }),
                None => unreached(),
            },
            SetupStage::OpenDevice => match (&self.wgl, self.device) {
                (Some(wgl), Some(device)) => Some(InteropDevice::open_call(wgl, device.0)),
                _ => unreached(),
            },
            SetupStage::Unwinding => self.holdings.outstanding(),
            SetupStage::Created => None,
            SetupStage::Failed => None,
        }
    }

    fn resume_context(&mut self, reply: DriverReply)
        requires
            old(self).wf(),
            old(self).stage is Context,
        ensures
            final(self)@ == old(self)@.resume(reply),
            final(self).wf(),
    {
        proof {
            lemma_setup_wf(old(self)@, self.window, reply);
        }
        let mut creation: Option<ContextCreation> = None;
        core::mem::swap(&mut self.creation, &mut creation);
        match creation {
            Some(creation) => {
                let mut creation = creation;
                creation.resume(reply);
                if creation.is_ended() {
                    match creation.finish() {
                        Some(Ok(wgl)) => {
                            self.wgl = Some(wgl);
                            self.stage = SetupStage::CreateDevice;
                        },
                        Some(Err(error)) => {
                            self.error = Some(error);
                            self.stage = SetupStage::Failed;
                        },
                        None => {
                            unreached::<()>();
                        },
                    }
                } else {
                    self.creation = Some(creation);
                }
            },
            None => {
                unreached::<()>();
            },
        }
    }

    fn resume(&mut self, reply: DriverReply)
        requires
            old(self).wf(),
        ensures
            final(self)@ == old(self)@.resume(reply),
            final(self).wf(),
    {
        proof {
            lemma_setup_wf(old(self)@, self.window, reply);
        }
        match self.stage {
            SetupStage::Context => {
                self.resume_context(reply);
            },
            SetupStage::CreateDevice => {
                match reply {
                    DriverReply::Handles(device, context) => {
                        if device != 0 && context != 0 {
                            self.device = Some((D3dDevice(device), D3dContext(context)));
                            self.stage = SetupStage::GetClientRect;
                        } else {
                            self.fail(SetupError::Device);
                        }
                    },
                    _ => {
                        self.fail(SetupError::Device);
                    },
                }
            },
            SetupStage::GetClientRect => {
                let extent = match reply {
                    DriverReply::Rect(rect) => client_extent(rect),
                    _ => None,
                };
                match extent {
                    Some(extent) => {
                        self.extent = extent;
                        self.stage = SetupStage::CreateSwapChain;
                    },
                    None => {
                        self.fail(SetupError::WindowSize);
                    },
                }
            },
            SetupStage::CreateSwapChain => {
                match PresentationSurface::create(self.extent, reply) {
                    Ok(surface) => {
                        self.surface = Some(surface);
                        self.stage = SetupStage::CreatePipeline;
                    },
                    Err(_) => {
                        self.fail(SetupError::SwapChain);
                    },
                }
            },
            SetupStage::CreatePipeline => {
                match reply.handle() {
                    Some(raw) => {
                        self.pipeline = Some(Pipeline(raw));
                        self.stage = SetupStage::OpenDevice;
                    },
                    None => {
                        self.fail(SetupError::Pipeline);
                    },
                }
            },
            SetupStage::OpenDevice => {
                let opened = match (&self.wgl, self.device) {
                    (Some(wgl), Some(device)) => InteropDevice::open(
                        wgl,
                        device.0,
                        device.1,
                        reply,
                    ),
                    _ => unreached(),
                };
                match opened {
                    Ok(interop) => {
                        self.interop = Some(interop);
                        self.stage = SetupStage::Created;
                    },
                    Err(_) => {
                        self.fail(SetupError::OpenDevice);
                    },
                }
            },
            SetupStage::Unwinding => {
                self.holdings.advance();
                self.stage = if self.holdings.outstanding().is_some() {
                    SetupStage::Unwinding
                } else {
                    SetupStage::Failed
                };
            },
            SetupStage::Created => {},
            SetupStage::Failed => {},
        }
    }

    fn finish(self) -> (outcome: Option<Result<InteropContext, SetupError>>)
        requires
            self.wf(),
        ensures
            match outcome {
                None => !self@.ended(),
                Some(Ok(session)) => self@.stage is Created && session@ == self@.session(),
                Some(Err(error)) => self@.stage is Failed && self@.error == Some(error),
            },
    {
        match self.stage {
            SetupStage::Created => match (self.wgl, self.interop, self.surface, self.pipeline) {
                (Some(wgl), Some(interop), Some(surface), Some(pipeline)) => {
                    match InteropContext::assemble(wgl, interop, surface, pipeline) {
                        Ok(session) => Some(Ok(session)),
                        Err(_) => unreached(),
                    }
                },
                _ => unreached(),
            },
            SetupStage::Failed => match self.error {
                Some(error) => Some(Err(error)),
                None => unreached(),
            },
            _ => None,
        }
    }
}

/// An unfinished setup of a session.
pub struct SessionCreation {
    /// The parts of the setup. They are taken out while a reply is worked
    /// in; a setup without parts has failed.
    setup: Option<Setup>,
}

impl View for SessionCreation {
    type V = SetupState;

    closed spec fn view(&self) -> SetupState {
        match self.setup {
            Some(setup) => setup@,
            None => SetupState::abandoned(),
        }
    }
}

impl SessionCreation {
    #[verifier::type_invariant]
    spec fn reachable(self) -> bool {
        match self.setup {
            Some(setup) => setup.wf(),
            None => true,
        }
    }

    /// The call to make next, or `None` once the setup has ended.
    pub fn call(&self) -> (call: Option<DriverCall>)
        ensures
            self@.wf(),
            match call {
                Some(call) => self@.call() == Some(call@),
                None => self@.call() is None,
            },
    {
        proof {
            use_type_invariant(self);
        }
        match &self.setup {
            Some(setup) => setup.call(),
            None => None,
        }
    }

    /// Takes the reply to the outstanding call. A reply that arrives after
    /// the setup has ended changes nothing.
    pub fn resume(&mut self, reply: DriverReply)
        ensures
            final(self)@ == old(self)@.resume(reply),
    {
        proof {
            use_type_invariant(&*self);
        }
        let mut taken: Option<Setup> = None;
        core::mem::swap(&mut self.setup, &mut taken);
        match taken {
            Some(setup) => {
                let mut setup = setup;
                setup.resume(reply);
                self.setup = Some(setup);
            },
            None => {},
        }
    }

    /// Whether the setup has ended.
    pub fn is_ended(&self) -> (ended: bool)
        ensures
            ended == self@.ended(),
    {
        match &self.setup {
            Some(setup) => match setup.stage {
                SetupStage::Created => true,
                SetupStage::Failed => true,
                _ => false,
            },
            None => true,
        }
    }

    /// Ends the conversation: the session if the setup succeeded, the
    /// failure if it failed, `None` while a call is outstanding.
    pub fn finish(self) -> (outcome: Option<Result<InteropContext, SetupError>>)
        ensures
            match outcome {
                None => !self@.ended(),
                Some(Ok(session)) => self@.stage is Created && session@ == self@.session(),
                Some(Err(error)) => self@.stage is Failed && self@.error == Some(error),
            },
    {
        proof {
            use_type_invariant(&self);
        }
        match self.setup {
            Some(setup) => setup.finish(),
            None => Some(Err(SetupError::Cleanup)),
        }
    }
}

impl InteropContext {
    /// Starts the setup of the session of a window.
    pub fn new(hwnd: Hwnd) -> (creation: SessionCreation)
        ensures
            creation@ == SetupState::begin(hwnd),
    {
        let creation = WglContext::create(hwnd);
        proof {
            lemma_setup_wf(SetupState::begin(hwnd), hwnd, DriverReply::Failed);
        }
        SessionCreation {
            setup: Some(
                Setup {
                    stage: SetupStage::Context,
                    window: hwnd,
                    creation: Some(creation),
                    wgl: None,
                    device: None,
                    extent: Extent { width: 0, height: 0 },
                    surface: None,
                    pipeline: None,
                    interop: None,
                    holdings: Holdings {
                        target: None,
                        pipeline: None,
                        swap_chain: None,
                        device: None,
                        context: None,
                        step: ContextRelease::Unbind,
                    },
                    error: None,
                },
            ),
        }
    }
}

} // verus!
