//! What a session consists of, and what each operation and each reply
//! does to it.
//!
//! The session of the executable code is held to this description step by
//! step: [`SessionState::begin`] says what beginning an operation does,
//! [`SessionState::call`] which call is outstanding, and
//! [`SessionState::resume`] what a reply does.

use crate::context::ContextState;
use crate::d3d::BLIT_VERTICES;
use crate::device::DeviceState;
use crate::driver::{Call, CallModel, DriverReply};
use crate::error::Error;
use crate::handles::{
    D3dContext, D3dDevice, DxDeviceHandle, Extent, Hdc, Hglrc, Hwnd, Pipeline, SwapChain,
};
use crate::holdings::{law_release_order, ContextRelease, Holdings};
use crate::surface::SurfaceState;
use crate::texture::{
    law_unregistered_while_unlocked, DestructionState, RegistrationStage, RegistrationState,
    TextureState,
};
use crate::wgl::{Access, GLuint, ObjectKind, ProcTable, Wgl};
use vstd::prelude::*;

verus! {

/// Where a blit stands.
#[derive(Clone, Copy, Debug, PartialEq, Eq, Structural)]
pub enum BlitStage {
    Unlock,
    CreateTarget,
    Draw,
    Lock,
}

/// Where a resize stands.
#[derive(Clone, Copy, Debug, PartialEq, Eq, Structural)]
pub enum ResizeStage {
    ReleaseTarget,
    ResizeBuffers,
}

/// An operation of a session.
#[derive(Clone, Copy, Debug, PartialEq, Eq, Structural)]
pub enum Operation {
    MakeCurrent,
    CreateTexture { name: GLuint, width: u32, height: u32 },
    /// Create a texture and hand it to the rendering side at once.
    CreateLockedTexture { name: GLuint, width: u32, height: u32 },
    DeleteTexture { name: GLuint },
    Lock { name: GLuint },
    Unlock { name: GLuint },
    Blit { name: GLuint },
    Present { interval: u32 },
    Resize { width: u32, height: u32 },
    Close,
}

/// What a session is doing.
#[allow(inconsistent_fields)]
#[derive(Clone, Copy, Debug, PartialEq, Eq)]
pub enum Activity {
    /// Nothing: an operation can begin.
    Idle,
    MakingCurrent,
    /// A texture is being registered. The flag says whether it is locked
    /// once it is registered.
    Registering(RegistrationState, bool),
    Deleting(DestructionState),
    Locking { name: GLuint },
    Unlocking { name: GLuint },
    Blitting { name: GLuint, stage: BlitStage },
    Presenting { interval: u32 },
    Resizing { width: u32, height: u32, stage: ResizeStage },
    /// Closing: the bindings of the immediate context are being cleared.
    Clearing,
    /// Closing: a texture is being destroyed.
    Dropping(DestructionState),
    /// Closing: the interop channel is being closed.
    Disconnecting,
    /// Closing: the devices are being given back.
    Releasing(Holdings),
    /// Nothing, for ever: the session is closed.
    Closed,
}

impl Activity {
    /// How far the closing of the session has come. Zero while the session
    /// is not closing.
    pub open spec fn phase(self) -> nat {
        match self {
            Activity::Clearing => 1,
            Activity::Dropping(_) => 2,
            Activity::Disconnecting => 3,
            Activity::Releasing(_) => 4,
            Activity::Closed => 5,
            _ => 0,
        }
    }
}

/// The least identifier of the textures.
pub open spec fn first_name(textures: Map<GLuint, TextureState>) -> GLuint {
    choose|name: GLuint|
        textures.contains_key(name) && forall|other: GLuint| #[trigger]
            textures.contains_key(other) ==> name <= other
}

/// What a session consists of.
pub struct SessionState {
    pub context: ContextState,
    pub device: DeviceState,
    pub surface: SurfaceState,
    pub pipeline: Pipeline,
    pub textures: Map<GLuint, TextureState>,
    /// The swap interval of the last present.
    pub swap_interval: u32,
    /// Whether a driver call has failed.
    pub lost: bool,
    pub activity: Activity,
}

impl SessionState {
    /// The session as it is assembled from its parts.
    pub open spec fn assembled(
        context: ContextState,
        device: DeviceState,
        surface: SurfaceState,
        pipeline: Pipeline,
    ) -> SessionState {
        SessionState {
            context,
            device,
            surface,
            pipeline,
            textures: Map::empty(),
            swap_interval: 0,
            lost: false,
            activity: Activity::Idle,
        }
    }

    /// What holds of every state that a session can reach.
    pub open spec fn wf(self) -> bool {
        &&& self.surface.wf()
        &&& self.textures.dom().finite()
        &&& forall|name: GLuint| #[trigger]
            self.textures.contains_key(name) ==> self.textures[name].name == name
                && self.textures[name].device == self.device.interop_handle
        &&& self.device.open <==> self.activity.phase() < 3
        &&& self.activity.phase() >= 3 ==> self.textures.is_empty()
        &&& match self.activity {
            Activity::Registering(registration, lock) => {
                &&& !registration.ended()
                &&& !self.textures.contains_key(registration.name)
                &&& registration.device == self.device.device
                &&& registration.channel == self.device.interop_handle
                &&& registration.functions == self.device.functions
            },
            Activity::Deleting(destruction) => {
                &&& destruction.wf()
                &&& !destruction.ended()
                &&& destruction.functions == self.device.functions
                &&& destruction.texture.device == self.device.interop_handle
                &&& !self.textures.contains_key(destruction.texture.name)
            },
            Activity::Dropping(destruction) => {
                &&& destruction.wf()
                &&& !destruction.ended()
                &&& destruction.functions == self.device.functions
                &&& destruction.texture.device == self.device.interop_handle
                &&& !self.textures.contains_key(destruction.texture.name)
            },
            Activity::Locking { name } => self.textures.contains_key(name)
                && !self.textures[name].locked,
            Activity::Unlocking { name } => self.textures.contains_key(name)
                && self.textures[name].locked,
            Activity::Blitting { name, stage } => {
                &&& self.textures.contains_key(name)
                &&& stage is Unlock <==> self.textures[name].locked
                &&& stage is CreateTarget ==> self.surface.target is None
                &&& stage is Draw ==> self.surface.target is Some
            },
            Activity::Resizing { width, height, stage } => stage is ReleaseTarget
                <==> self.surface.target is Some,
            Activity::Releasing(holdings) => holdings.call() is Some,
            _ => true,
        }
    }

    /// The call that locks one texture of the session.
    pub open spec fn lock_call(self, name: GLuint) -> CallModel {
        Wgl::dx_lock_objects(
            self.device.functions,
            self.device.interop_handle,
            seq![self.textures[name].object.0],
        )
    }

    /// The call that unlocks one texture of the session.
    pub open spec fn unlock_call(self, name: GLuint) -> CallModel {
        Wgl::dx_unlock_objects(
            self.device.functions,
            self.device.interop_handle,
            seq![self.textures[name].object.0],
        )
    }

    /// The call that draws a texture over the whole back buffer: the
    /// viewport has the size of the buffers, the texture's view is the
    /// source, the cached render target is the only target, and three
    /// vertices make the triangle.
    pub open spec fn draw_call(self, name: GLuint) -> CallModel {
        Call::Draw {
            context: self.device.context,
            pipeline: self.pipeline,
            viewport: self.surface.extent,
            source: self.textures[name].view,
            target: self.surface.target.unwrap().handle,
            vertices: BLIT_VERTICES,
        }
    }

    /// The call that is outstanding.
    pub open spec fn call(self) -> Option<CallModel> {
        match self.activity {
            Activity::Idle => None,
            Activity::Closed => None,
            Activity::MakingCurrent => Some(self.context.make_current()),
            Activity::Registering(registration, lock) => registration.call(),
            Activity::Deleting(destruction) => destruction.call(),
            Activity::Locking { name } => Some(self.lock_call(name)),
            Activity::Unlocking { name } => Some(self.unlock_call(name)),
            Activity::Blitting { name, stage } => Some(
                match stage {
                    BlitStage::Unlock => self.unlock_call(name),
                    BlitStage::CreateTarget => self.surface.target_call(self.device.device),
                    BlitStage::Draw => self.draw_call(name),
                    BlitStage::Lock => self.lock_call(name),
                },
            ),
            Activity::Presenting { interval } => Some(self.surface.present(interval)),
            Activity::Resizing { width, height, stage } => match stage {
                ResizeStage::ReleaseTarget => self.surface.release_target_call(),
                ResizeStage::ResizeBuffers => self.surface.resize_call(width, height),
            },
            Activity::Clearing => Some(Call::ClearState { context: self.device.context }),
            Activity::Dropping(destruction) => destruction.call(),
            Activity::Disconnecting => Some(self.device.close_call()),
            Activity::Releasing(holdings) => holdings.call(),
        }
    }

    /// Why the operation cannot begin, if it cannot. A closed session is
    /// stale; a session with an operation under way is busy; a session that
    /// has lost its device can only be closed; and each operation asks of
    /// the texture that it names what the operation needs.
    pub open spec fn refusal(self, operation: Operation) -> Option<Error> {
        if self.activity is Closed {
            Some(Error::StaleContext)
        } else if !(self.activity is Idle) {
            Some(Error::Busy)
        } else if self.lost && !(operation is Close) {
            Some(Error::DeviceLost)
        } else {
            match operation {
                Operation::CreateTexture { name, width, height } => if self.textures.contains_key(
                    name,
                ) {
                    Some(Error::DuplicateTexture)
                } else {
                    None
                },
                Operation::CreateLockedTexture { name, width, height } => if self.textures.contains_key(
                    name,
                ) {
                    Some(Error::DuplicateTexture)
                } else {
                    None
                },
                Operation::DeleteTexture { name } => if self.textures.contains_key(name) {
                    None
                } else {
                    Some(Error::TextureNotFound)
                },
                Operation::Lock { name } => if !self.textures.contains_key(name) {
                    Some(Error::TextureNotFound)
                } else if self.textures[name].locked {
                    Some(Error::AlreadyLocked)
                } else {
                    None
                },
                Operation::Unlock { name } => if !self.textures.contains_key(name) {
                    Some(Error::TextureNotFound)
                } else if !self.textures[name].locked {
                    Some(Error::AlreadyUnlocked)
                } else {
                    None
                },
                Operation::Blit { name } => if !self.textures.contains_key(name) {
                    Some(Error::TextureNotFound)
                } else if !self.textures[name].locked {
                    Some(Error::AlreadyUnlocked)
                } else {
                    None
                },
                _ => None,
            }
        }
    }

    /// The session with the operation under way.
    pub open spec fn begun(self, operation: Operation) -> SessionState {
        match operation {
            Operation::MakeCurrent => SessionState { activity: Activity::MakingCurrent, ..self },
            Operation::CreateTexture { name, width, height } => SessionState {
                activity: Activity::Registering(
                    RegistrationState::begin(
                        self.device,
                        name,
                        width,
                        height,
                        ObjectKind::Renderbuffer,
                        Access::ReadWrite,
                    ),
                    false,
                ),
                ..self
            },
            Operation::CreateLockedTexture { name, width, height } => SessionState {
                activity: Activity::Registering(
                    RegistrationState::begin(
                        self.device,
                        name,
                        width,
                        height,
                        ObjectKind::Renderbuffer,
                        Access::ReadWrite,
                    ),
                    true,
                ),
                ..self
            },
            Operation::DeleteTexture { name } => SessionState {
                textures: self.textures.remove(name),
                activity: Activity::Deleting(
                    DestructionState::begin(self.textures[name], self.device.functions),
                ),
                ..self
            },
            Operation::Lock { name } => SessionState { activity: Activity::Locking { name }, ..self },
            Operation::Unlock { name } => SessionState {
                activity: Activity::Unlocking { name },
                ..self
            },
            Operation::Blit { name } => SessionState {
                activity: Activity::Blitting { name, stage: BlitStage::Unlock },
                ..self
            },
            Operation::Present { interval } => SessionState {
                activity: Activity::Presenting { interval },
                ..self
            },
            Operation::Resize { width, height } => SessionState {
                activity: Activity::Resizing {
                    width,
                    height,
                    stage: if self.surface.target is Some {
                        ResizeStage::ReleaseTarget
                    } else {
                        ResizeStage::ResizeBuffers
                    },
                },
                ..self
            },
            Operation::Close => SessionState { activity: Activity::Clearing, ..self },
        }
    }

    /// The session after the attempt to begin the operation: the session
    /// with the operation under way, or the reason of the refusal.
    pub open spec fn begin(self, operation: Operation) -> Result<SessionState, Error> {
        match self.refusal(operation) {
            Some(error) => Err(error),
            None => Ok(self.begun(operation)),
        }
    }

    /// The operation has ended well.
    pub open spec fn done(self) -> (SessionState, Option<Result<(), Error>>) {
        (SessionState { activity: Activity::Idle, ..self }, Some(Ok(())))
    }

    /// The operation has ended with a failure of the driver, and the session
    /// is unusable from now on.
    pub open spec fn failed(self) -> (SessionState, Option<Result<(), Error>>) {
        (
            SessionState { lost: true, activity: Activity::Idle, ..self },
            Some(Err(Error::DriverFailure)),
        )
    }

    /// The operation goes on.
    pub open spec fn proceed(self, activity: Activity) -> (SessionState, Option<Result<(), Error>>) {
        (SessionState { activity, ..self }, None)
    }

    /// The session with one of its textures in the given lock state.
    pub open spec fn moved(self, name: GLuint, locked: bool) -> SessionState {
        SessionState {
            textures: self.textures.insert(name, self.textures[name].transitioned(locked)),
            ..self
        }
    }

    /// The session with the failure of a call on record, if it failed.
    pub open spec fn noted(self, succeeded: bool) -> SessionState {
        SessionState { lost: self.lost || !succeeded, ..self }
    }

    /// What is given back once the interop channel is closed.
    pub open spec fn holdings(self) -> Holdings {
        Holdings {
            target: match self.surface.target {
                Some(target) => Some(target.handle),
                None => None,
            },
            pipeline: Some(self.pipeline),
            swap_chain: Some(self.surface.swap_chain),
            device: Some((self.device.device, self.device.context)),
            context: Some(self.context),
            step: ContextRelease::Unbind,
        }
    }

    /// The next step of closing once the bindings are cleared or a texture
    /// is gone: the texture with the least identifier is destroyed, and
    /// when none is left the interop channel is closed.
    pub open spec fn drop_next(self) -> SessionState {
        if self.textures.is_empty() {
            SessionState {
                device: self.device.closed(),
                activity: Activity::Disconnecting,
                ..self
            }
        } else {
            let name = first_name(self.textures);
            SessionState {
                textures: self.textures.remove(name),
                activity: Activity::Dropping(
                    DestructionState::begin(self.textures[name], self.device.functions),
                ),
                ..self
            }
        }
    }

    /// The reply to the call that binds the rendering context.
    pub open spec fn replied_making_current(self, reply: DriverReply) -> (
        SessionState,
        Option<Result<(), Error>>,
    ) {
        if reply is Completed {
            self.done()
        } else {
            self.failed()
        }
    }

    /// The reply to a call of a registration. The registered texture joins
    /// the textures of the session, and where it is to be locked, its lock
    /// is the next call of the operation.
    pub open spec fn replied_registering(
        self,
        registration: RegistrationState,
        lock: bool,
        reply: DriverReply,
    ) -> (SessionState, Option<Result<(), Error>>) {
        let next = registration.resume(reply);
        match next.stage {
            RegistrationStage::Registered => {
                let joined = SessionState {
                    textures: self.textures.insert(next.name, next.registered()),
                    ..self
                };
                if lock {
                    joined.proceed(Activity::Locking { name: next.name })
                } else {
                    joined.done()
                }
            },
            RegistrationStage::Failed => self.failed(),
            _ => self.proceed(Activity::Registering(next, lock)),
        }
    }

    /// The reply to a call of the destruction of a deleted texture.
    pub open spec fn replied_deleting(self, destruction: DestructionState, reply: DriverReply) -> (
        SessionState,
        Option<Result<(), Error>>,
    ) {
        let next = destruction.resume(reply);
        match next.outcome() {
            Some(Ok(())) => self.done(),
            Some(Err(_)) => self.failed(),
            None => self.proceed(Activity::Deleting(next)),
        }
    }

    /// The reply to the call that locks or unlocks a texture: the texture
    /// changes its lock state only if the call succeeded.
    pub open spec fn replied_moving(self, name: GLuint, locked: bool, reply: DriverReply) -> (
        SessionState,
        Option<Result<(), Error>>,
    ) {
        if reply is Completed {
            self.moved(name, locked).done()
        } else {
            self.failed()
        }
    }

    /// The reply to a call of a blit. After the unlock, a render target is
    /// created if none is cached; then the texture is drawn; then it is
    /// locked again.
    pub open spec fn replied_blitting(self, name: GLuint, stage: BlitStage, reply: DriverReply) -> (
        SessionState,
        Option<Result<(), Error>>,
    ) {
        match stage {
            BlitStage::Unlock => if reply is Completed {
                self.moved(name, false).proceed(
                    Activity::Blitting {
                        name,
                        stage: if self.surface.target is None {
                            BlitStage::CreateTarget
                        } else {
                            BlitStage::Draw
                        },
                    },
                )
            } else {
                self.failed()
            },
            BlitStage::CreateTarget => match reply.handle_spec() {
                Some(raw) => (SessionState {
                    surface: self.surface.with_target(raw),
                    ..self
                }).proceed(Activity::Blitting { name, stage: BlitStage::Draw }),
                None => self.failed(),
            },
            BlitStage::Draw => if reply is Completed {
                self.proceed(Activity::Blitting { name, stage: BlitStage::Lock })
            } else {
                self.failed()
            },
            BlitStage::Lock => if reply is Completed {
                self.moved(name, true).done()
            } else {
                self.failed()
            },
        }
    }

    /// The reply to the call that presents.
    pub open spec fn replied_presenting(self, interval: u32, reply: DriverReply) -> (
        SessionState,
        Option<Result<(), Error>>,
    ) {
        if reply is Completed {
            (SessionState { swap_interval: interval, ..self }).done()
        } else {
            self.failed()
        }
    }

    /// The reply to a call of a resize. The cached render target is gone
    /// before the buffers are resized.
    pub open spec fn replied_resizing(
        self,
        width: u32,
        height: u32,
        stage: ResizeStage,
        reply: DriverReply,
    ) -> (SessionState, Option<Result<(), Error>>) {
        match stage {
            ResizeStage::ReleaseTarget => if reply is Completed {
                (SessionState { surface: self.surface.without_target(), ..self }).proceed(
                    Activity::Resizing { width, height, stage: ResizeStage::ResizeBuffers },
                )
            } else {
                self.failed()
            },
            ResizeStage::ResizeBuffers => if reply is Completed {
                (SessionState { surface: self.surface.resized(width, height), ..self }).done()
            } else {
                self.failed()
            },
        }
    }

    /// The reply to the call that clears the bindings. Closing goes on
    /// whatever the reply.
    pub open spec fn replied_clearing(self, reply: DriverReply) -> (
        SessionState,
        Option<Result<(), Error>>,
    ) {
        (self.noted(reply is Completed).drop_next(), None)
    }

    /// The reply to a call of the destruction of a texture while the
    /// session closes. Closing goes on whatever the reply.
    pub open spec fn replied_dropping(self, destruction: DestructionState, reply: DriverReply) -> (
        SessionState,
        Option<Result<(), Error>>,
    ) {
        let next = destruction.resume(reply);
        if next.ended() {
            (self.noted(next.stage is Destroyed).drop_next(), None)
        } else {
            self.proceed(Activity::Dropping(next))
        }
    }

    /// The reply to the call that closes the interop channel.
    pub open spec fn replied_disconnecting(self, reply: DriverReply) -> (
        SessionState,
        Option<Result<(), Error>>,
    ) {
        self.noted(reply is Completed).proceed(Activity::Releasing(self.holdings()))
    }

    /// The reply to a call that gives a device back. With the last of them
    /// the session is closed, and the closing has succeeded if no call of
    /// the session ever failed.
    pub open spec fn replied_releasing(self, holdings: Holdings, reply: DriverReply) -> (
        SessionState,
        Option<Result<(), Error>>,
    ) {
        let next = holdings.resume();
        let noted = self.noted(reply is Completed);
        if next.call() is None {
            (
                SessionState { activity: Activity::Closed, ..noted },
                Some(
                    if noted.lost {
                        Err(Error::DriverFailure)
                    } else {
                        Ok(())
                    },
                ),
            )
        } else {
            noted.proceed(Activity::Releasing(next))
        }
    }

    /// The session after the outstanding call is answered with `reply`,
    /// and how the operation ended if it has ended.
    pub open spec fn resume(self, reply: DriverReply) -> (SessionState, Option<Result<(), Error>>) {
        match self.activity {
            Activity::Idle => (self, Some(Err(Error::NotPending))),
            Activity::Closed => (self, Some(Err(Error::NotPending))),
            Activity::MakingCurrent => self.replied_making_current(reply),
            Activity::Registering(registration, lock) => self.replied_registering(
                registration,
                lock,
                reply,
            ),
            Activity::Deleting(destruction) => self.replied_deleting(destruction, reply),
            Activity::Locking { name } => self.replied_moving(name, true, reply),
            Activity::Unlocking { name } => self.replied_moving(name, false, reply),
            Activity::Blitting { name, stage } => self.replied_blitting(name, stage, reply),
            Activity::Presenting { interval } => self.replied_presenting(interval, reply),
            Activity::Resizing { width, height, stage } => self.replied_resizing(
                width,
                height,
                stage,
                reply,
            ),
            Activity::Clearing => self.replied_clearing(reply),
            Activity::Dropping(destruction) => self.replied_dropping(destruction, reply),
            Activity::Disconnecting => self.replied_disconnecting(reply),
            Activity::Releasing(holdings) => self.replied_releasing(holdings, reply),
        }
    }

    /// The number of calls that the operation under way can still make.
    pub open spec fn distance(self) -> nat {
        match self.activity {
            Activity::Idle => 0,
            Activity::Closed => 0,
            Activity::MakingCurrent => 1,
            Activity::Registering(registration, lock) => registration.distance() + if lock {
                1nat
            } else {
                0nat
            },
            Activity::Deleting(destruction) => destruction.distance(),
            Activity::Locking { name } => 1,
            Activity::Unlocking { name } => 1,
            Activity::Blitting { name, stage } => match stage {
                BlitStage::Unlock => 4,
                BlitStage::CreateTarget => 3,
                BlitStage::Draw => 2,
                BlitStage::Lock => 1,
            },
            Activity::Presenting { interval } => 1,
            Activity::Resizing { width, height, stage } => match stage {
                ResizeStage::ReleaseTarget => 2,
                ResizeStage::ResizeBuffers => 1,
            },
            Activity::Clearing => 4 * self.textures.len() + 9,
            Activity::Dropping(destruction) => destruction.distance() + 4 * self.textures.len() + 8,
            Activity::Disconnecting => 8,
            Activity::Releasing(holdings) => holdings.remaining(),
        }
    }

    /// The texture with the given identifier.
    pub open spec fn get(self, name: GLuint) -> Result<TextureState, Error> {
        if self.textures.contains_key(name) {
            Ok(self.textures[name])
        } else {
            Err(Error::TextureNotFound)
        }
    }
}

/// A map that holds a texture has a least identifier.
pub proof fn lemma_first_name(textures: Map<GLuint, TextureState>, witness: GLuint)
    requires
        textures.contains_key(witness),
    ensures
        textures.contains_key(first_name(textures)),
        forall|other: GLuint| #[trigger]
            textures.contains_key(other) ==> first_name(textures) <= other,
    decreases witness,
{
    if exists|smaller: GLuint| textures.contains_key(smaller) && smaller < witness {
        let smaller = choose|smaller: GLuint| textures.contains_key(smaller) && smaller < witness;
        lemma_first_name(textures, smaller);
    } else {
        assert(forall|other: GLuint| #[trigger]
            textures.contains_key(other) ==> witness <= other);
    }
}

/// Beginning an operation keeps a session well formed.
pub proof fn lemma_begin_wf(state: SessionState, operation: Operation)
    requires
        state.wf(),
        state.refusal(operation) is None,
    ensures
        state.begun(operation).wf(),
{
    match operation {
        Operation::DeleteTexture { name } => {
            law_unregistered_while_unlocked(
                state.textures[name],
                state.device.functions,
                DestructionState::begin(state.textures[name], state.device.functions),
                DriverReply::Completed,
            );
        },
        _ => {},
    }
}

/// Closing on keeps a session well formed.
proof fn lemma_drop_next_wf(state: SessionState)
    requires
        state.wf(),
        state.activity.phase() == 1,
    ensures
        state.drop_next().wf(),
{
    if !state.textures.is_empty() {
        let witness = choose|name: GLuint| state.textures.contains_key(name);
        lemma_first_name(state.textures, witness);
        let name = first_name(state.textures);
        law_unregistered_while_unlocked(
            state.textures[name],
            state.device.functions,
            DestructionState::begin(state.textures[name], state.device.functions),
            DriverReply::Completed,
        );
    }
}

proof fn lemma_moved_wf(state: SessionState, name: GLuint, locked: bool, activity: Activity)
    requires
        state.wf(),
        state.textures.contains_key(name),
        state.activity.phase() == 0,
        activity is Idle || activity == (Activity::Blitting { name, stage: BlitStage::Draw })
            && !locked && state.surface.target is Some || activity == (Activity::Blitting {
            name,
            stage: BlitStage::CreateTarget,
        }) && !locked && state.surface.target is None,
    ensures
        (SessionState { activity, ..state.moved(name, locked) }).wf(),
{
    let next = SessionState { activity, ..state.moved(name, locked) };
    assert forall|other: GLuint| #[trigger] next.textures.contains_key(other) implies next.textures[other].name
        == other && next.textures[other].device == next.device.interop_handle by {
        if other != name {
            assert(state.textures.contains_key(other));
        }
    }
}

proof fn lemma_replied_blitting_wf(
    state: SessionState,
    name: GLuint,
    stage: BlitStage,
    reply: DriverReply,
)
    requires
        state.wf(),
        state.activity == (Activity::Blitting { name, stage }),
    ensures
        state.replied_blitting(name, stage, reply).0.wf(),
{
    match stage {
        BlitStage::Unlock => {
            if reply is Completed {
                lemma_moved_wf(
                    state,
                    name,
                    false,
                    Activity::Blitting {
                        name,
                        stage: if state.surface.target is None {
                            BlitStage::CreateTarget
                        } else {
                            BlitStage::Draw
                        },
                    },
                );
            }
        },
        BlitStage::Lock => {
            if reply is Completed {
                lemma_moved_wf(state, name, true, Activity::Idle);
            }
        },
        _ => {},
    }
}

proof fn lemma_replied_registering_wf(
    state: SessionState,
    registration: RegistrationState,
    lock: bool,
    reply: DriverReply,
)
    requires
        state.wf(),
        state.activity == Activity::Registering(registration, lock),
    ensures
        state.replied_registering(registration, lock, reply).0.wf(),
{
    let next = registration.resume(reply);
    if next.stage is Registered {
        let after = state.replied_registering(registration, lock, reply).0;
        assert forall|other: GLuint| #[trigger] after.textures.contains_key(other) implies after.textures[other].name
            == other && after.textures[other].device == after.device.interop_handle by {
            if other != next.name {
                assert(state.textures.contains_key(other));
            }
        }
    }
}

proof fn lemma_replied_closing_wf(state: SessionState, reply: DriverReply)
    requires
        state.wf(),
        state.activity.phase() >= 1,
    ensures
        state.resume(reply).0.wf(),
{
    match state.activity {
        Activity::Clearing => {
            lemma_drop_next_wf(state.noted(reply is Completed));
        },
        Activity::Dropping(destruction) => {
            law_unregistered_while_unlocked(
                destruction.texture,
                destruction.functions,
                destruction,
                reply,
            );
            let next = destruction.resume(reply);
            if next.ended() {
                let cleared = SessionState {
                    activity: Activity::Clearing,
                    ..state.noted(next.stage is Destroyed)
                };
                lemma_drop_next_wf(cleared);
                assert(state.noted(next.stage is Destroyed).drop_next() == cleared.drop_next());
            }
        },
        Activity::Disconnecting => {
            law_release_order(state.holdings());
        },
        Activity::Releasing(holdings) => {
            law_release_order(holdings);
        },
        _ => {},
    }
}

/// A reply keeps a session well formed.
pub proof fn lemma_resume_wf(state: SessionState, reply: DriverReply)
    requires
        state.wf(),
    ensures
        state.resume(reply).0.wf(),
{
    match state.activity {
        Activity::Registering(registration, lock) => {
            lemma_replied_registering_wf(state, registration, lock, reply);
        },
        Activity::Deleting(destruction) => {
            law_unregistered_while_unlocked(
                destruction.texture,
                destruction.functions,
                destruction,
                reply,
            );
        },
        Activity::Locking { name } => {
            if reply is Completed {
                lemma_moved_wf(state, name, true, Activity::Idle);
            }
        },
        Activity::Unlocking { name } => {
            if reply is Completed {
                lemma_moved_wf(state, name, false, Activity::Idle);
            }
        },
        Activity::Blitting { name, stage } => {
            lemma_replied_blitting_wf(state, name, stage, reply);
        },
        Activity::Clearing => {
            lemma_replied_closing_wf(state, reply);
        },
        Activity::Dropping(_) => {
            lemma_replied_closing_wf(state, reply);
        },
        Activity::Disconnecting => {
            lemma_replied_closing_wf(state, reply);
        },
        Activity::Releasing(_) => {
            lemma_replied_closing_wf(state, reply);
        },
        _ => {},
    }
}

/// What beginning an operation does to a session: the operation is under
/// way, or it is refused and the session is as it was.
pub open spec fn begins(
    before: SessionState,
    operation: Operation,
    after: SessionState,
    begun: Result<(), Error>,
) -> bool {
    match begun {
        Ok(()) => before.begin(operation) == Ok::<SessionState, Error>(after),
        Err(error) => before.begin(operation) == Err::<SessionState, Error>(error) && after
            == before,
    }
}

impl SessionState {
    /// A closed session of which nothing is left.
    pub open spec fn vacant() -> SessionState {
        SessionState {
            context: ContextState {
                window: Hwnd(0),
                dc: Hdc(0),
                rc: Hglrc(0),
                functions: ProcTable {
                    create_context_attribs: 0,
                    dx_open_device: 0,
                    dx_register_object: 0,
                    dx_lock_objects: 0,
                    dx_unlock_objects: 0,
                    dx_unregister_object: 0,
                    dx_close_device: 0,
                },
            },
            device: DeviceState {
                device: D3dDevice(0),
                context: D3dContext(0),
                interop_handle: DxDeviceHandle(0),
                functions: ProcTable {
                    create_context_attribs: 0,
                    dx_open_device: 0,
                    dx_register_object: 0,
                    dx_lock_objects: 0,
                    dx_unlock_objects: 0,
                    dx_unregister_object: 0,
                    dx_close_device: 0,
                },
                open: false,
            },
            surface: SurfaceState {
                swap_chain: SwapChain(0),
                extent: Extent { width: 0, height: 0 },
                target: None,
            },
            pipeline: Pipeline(0),
            textures: Map::empty(),
            swap_interval: 0,
            lost: true,
            activity: Activity::Closed,
        }
    }
}

} // verus!
