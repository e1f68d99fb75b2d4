//! The session of one window: the rendering context, the interop device,
//! the presentation surface and the shared textures, and every operation
//! that the rendering application drives.
//!
//! An operation is begun by the method that is named after it. Where it is
//! admitted, [`InteropContext::call`] says which call the platform has to
//! perform, and [`InteropContext::resume`] takes the reply and says whether
//! the operation has ended. One operation is under way at a time. A call
//! that fails ends the operation and makes the session unusable.

use crate::context::WglContext;
use crate::d3d::BLIT_VERTICES;
use crate::device::InteropDevice;
use crate::driver::{Call, DriverCall, DriverReply};
use crate::error::Error;
use crate::handles::{Extent, Pipeline, ProcAddress};
use crate::holdings::{ContextRelease, Holdings};
use crate::model::{
    begins, first_name, lemma_begin_wf, lemma_resume_wf, Activity, BlitStage, Operation,
    ResizeStage, SessionState,
};
use crate::surface::PresentationSurface;
use crate::texture::{
    Destruction, Registration, RegistrationState, SharedTexture, TextureState,
};
use crate::wgl::{Access, GLuint, ObjectKind};
use std::collections::BTreeMap;
use vstd::pervasive::unreached;
use vstd::prelude::*;

verus! {

/// What the session is doing, as the executable code holds it.
#[allow(inconsistent_fields)]
enum Pending {
    Idle,
    MakingCurrent,
    Registering(Registration, bool),
    Deleting(Destruction),
    Locking { name: GLuint },
    Unlocking { name: GLuint },
    Blitting { name: GLuint, stage: BlitStage },
    Presenting { interval: u32 },
    Resizing { width: u32, height: u32, stage: ResizeStage },
    Clearing,
    Dropping(Destruction),
    Disconnecting,
    Releasing(Holdings),
    Closed,
}

impl View for Pending {
    type V = Activity;

    closed spec fn view(&self) -> Activity {
        match self {
            Pending::Idle => Activity::Idle,
            Pending::MakingCurrent => Activity::MakingCurrent,
            Pending::Registering(registration, lock) => Activity::Registering(
                registration@,
                *lock,
            ),
            Pending::Deleting(destruction) => Activity::Deleting(destruction@),
            Pending::Locking { name } => Activity::Locking { name: *name },
            Pending::Unlocking { name } => Activity::Unlocking { name: *name },
            Pending::Blitting { name, stage } => Activity::Blitting { name: *name, stage: *stage },
            Pending::Presenting { interval } => Activity::Presenting { interval: *interval },
            Pending::Resizing { width, height, stage } => Activity::Resizing {
                width: *width,
                height: *height,
                stage: *stage,
            },
            Pending::Clearing => Activity::Clearing,
            Pending::Dropping(destruction) => Activity::Dropping(destruction@),
            Pending::Disconnecting => Activity::Disconnecting,
            Pending::Releasing(holdings) => Activity::Releasing(*holdings),
            Pending::Closed => Activity::Closed,
        }
    }
}

/// The states of the textures of a map.
pub open spec fn texture_states(textures: Map<GLuint, SharedTexture>) -> Map<GLuint, TextureState> {
    Map::new(|name: GLuint| textures.contains_key(name), |name: GLuint| textures[name]@)
}

/// `BTreeMap::pop_first`: an empty map is left as it is and gives `None`;
/// from any other map the entry with the least key is taken out and
/// returned.
#[verifier::external_body]
fn pop_first(textures: &mut BTreeMap<GLuint, SharedTexture>) -> (first: Option<
    (GLuint, SharedTexture),
>)
    ensures
        match first {
            Some((name, texture)) => {
                &&& old(textures)@.contains_key(name)
                &&& old(textures)@[name] == texture
                &&& final(textures)@ == old(textures)@.remove(name)
                &&& forall|other: GLuint| #[trigger]
                    old(textures)@.contains_key(other) ==> name <= other
            },
            None => final(textures)@ == old(textures)@ && forall|other: GLuint|
                !#[trigger] old(textures)@.contains_key(other),
        },
{
    textures.pop_first()
}

/// The parts of a session.
struct Session {
    wgl: WglContext,
    device: InteropDevice,
    surface: PresentationSurface,
    pipeline: Pipeline,
    shared_textures: BTreeMap<GLuint, SharedTexture>,
    swap_interval: u32,
    lost: bool,
    activity: Pending,
}

impl View for Session {
    type V = SessionState;

    closed spec fn view(&self) -> SessionState {
        SessionState {
            context: self.wgl@,
            device: self.device@,
            surface: self.surface@,
            pipeline: self.pipeline,
            textures: texture_states(self.shared_textures@),
            swap_interval: self.swap_interval,
            lost: self.lost,
            activity: self.activity@,
        }
    }
}

impl Session {
    fn one(&self, name: GLuint) -> (objects: Vec<usize>)
        requires
            self@.textures.contains_key(name),
        ensures
            objects@ == seq![self@.textures[name].object.0],
    {
        let mut objects: Vec<usize> = Vec::new();
        match self.shared_textures.get(&name) {
            Some(texture) => {
                objects.push(texture.state().object.0);
            },
            None => {
                unreached::<()>();
            },
        }
        assert(objects@ =~= seq![self@.textures[name].object.0]);
        objects
    }

    fn lock_call(&self, name: GLuint) -> (call: DriverCall)
        requires
            self@.textures.contains_key(name),
        ensures
            call@ == self@.lock_call(name),
    {
        self.device.functions().DXLockObjectsNV(self.device.interop_handle(), self.one(name))
    }

    fn unlock_call(&self, name: GLuint) -> (call: DriverCall)
        requires
            self@.textures.contains_key(name),
        ensures
            call@ == self@.unlock_call(name),
    {
        self.device.functions().DXUnlockObjectsNV(self.device.interop_handle(), self.one(name))
    }

    fn draw_call(&self, name: GLuint) -> (call: DriverCall)
        requires
            self@.textures.contains_key(name),
            self@.surface.target is Some,
        ensures
            call@ == self@.draw_call(name),
    {
        let source = match self.shared_textures.get(&name) {
            Some(texture) => texture.state().view,
            None => unreached(),
        };
        let target = match self.surface.target() {
            Some(target) => target.handle,
            None => unreached(),
        };
        Call::Draw {
            context: self.device.context(),
            pipeline: self.pipeline,
            viewport: self.surface.extent(),
            source,
            target,
            vertices: BLIT_VERTICES,
        }
    }

    fn call(&self) -> (call: Option<DriverCall>)
        requires
            self@.wf(),
        ensures
            match call {
                Some(call) => self@.call() == Some(call@),
                None => self@.call() is None,
            },
    {
        match &self.activity {
            Pending::Idle => None,
            Pending::Closed => None,
            Pending::MakingCurrent => Some(self.wgl.make_current()),
            Pending::Registering(registration, _) => registration.call(),
            Pending::Deleting(destruction) => destruction.call(),
            Pending::Locking { name } => Some(self.lock_call(*name)),
            Pending::Unlocking { name } => Some(self.unlock_call(*name)),
            Pending::Blitting { name, stage } => Some(
                match stage {
                    BlitStage::Unlock => self.unlock_call(*name),
                    BlitStage::CreateTarget => self.surface.target_call(self.device.device()),
                    BlitStage::Draw => self.draw_call(*name),
                    BlitStage::Lock => self.lock_call(*name),
                },
            ),
            Pending::Presenting { interval } => Some(self.surface.present(*interval)),
            Pending::Resizing { width, height, stage } => match stage {
                ResizeStage::ReleaseTarget => self.surface.release_target_call(),
                ResizeStage::ResizeBuffers => self.surface.resize_call(*width, *height),
            },
            Pending::Clearing => Some(Call::ClearState { context: self.device.context() }),
            Pending::Dropping(destruction) => destruction.call(),
            Pending::Disconnecting => Some(
                Call::DxCloseDevice {
                    entry: ProcAddress(self.device.functions().addresses().dx_close_device),
                    device: self.device.interop_handle(),
                },
            ),
            Pending::Releasing(holdings) => holdings.outstanding(),
        }
    }

    fn refusal(&self, operation: &Operation) -> (refusal: Option<Error>)
        requires
            self@.wf(),
        ensures
            refusal == self@.refusal(*operation),
    {
        match &self.activity {
            Pending::Closed => {
                return Some(Error::StaleContext);
            },
            Pending::Idle => {},
            _ => {
                return Some(Error::Busy);
            },
        }
        let closing = match operation {
            Operation::Close => true,
            _ => false,
        };
        if self.lost && !closing {
            return Some(Error::DeviceLost);
        }
        match *operation {
            Operation::CreateTexture { name, width, height } => {
                if self.shared_textures.contains_key(&name) {
                    Some(Error::DuplicateTexture)
                } else {
                    None
                }
            },
            Operation::CreateLockedTexture { name, width, height } => {
                if self.shared_textures.contains_key(&name) {
                    Some(Error::DuplicateTexture)
                } else {
                    None
                }
            },
            Operation::DeleteTexture { name } => {
                if self.shared_textures.contains_key(&name) {
                    None
                } else {
                    Some(Error::TextureNotFound)
                }
            },
            Operation::Lock { name } => match self.shared_textures.get(&name) {
                None => Some(Error::TextureNotFound),
                Some(texture) => if texture.is_locked() {
                    Some(Error::AlreadyLocked)
                } else {
                    None
                },
            },
            Operation::Unlock { name } => match self.shared_textures.get(&name) {
                None => Some(Error::TextureNotFound),
                Some(texture) => if !texture.is_locked() {
                    Some(Error::AlreadyUnlocked)
                } else {
                    None
                },
            },
            Operation::Blit { name } => match self.shared_textures.get(&name) {
                None => Some(Error::TextureNotFound),
                Some(texture) => if !texture.is_locked() {
                    Some(Error::AlreadyUnlocked)
                } else {
                    None
                },
            },
            _ => None,
        }
    }

    fn begin(&mut self, operation: Operation) -> (begun: Result<(), Error>)
        requires
            old(self)@.wf(),
        ensures
            final(self)@.wf(),
            begins(old(self)@, operation, final(self)@, begun),
    {
        match self.refusal(&operation) {
            Some(error) => {
                return Err(error);
            },
            None => {},
        }
        proof {
            lemma_begin_wf(old(self)@, operation);
        }
        match operation {
            Operation::MakeCurrent => {
                self.activity = Pending::MakingCurrent;
            },
            Operation::CreateTexture { name, width, height } => {
                self.register(name, width, height, false);
            },
            Operation::CreateLockedTexture { name, width, height } => {
                self.register(name, width, height, true);
            },
            Operation::DeleteTexture { name } => {
                match self.shared_textures.remove(&name) {
                    Some(texture) => match texture.destroy(&self.device) {
                        Ok(destruction) => {
                            self.activity = Pending::Deleting(destruction);
                        },
                        Err(_) => {
                            unreached::<()>();
                        },
                    },
                    None => {
                        unreached::<()>();
                    },
                }
                assert(self@.textures =~= old(self)@.textures.remove(name));
            },
            Operation::Lock { name } => {
                self.activity = Pending::Locking { name };
            },
            Operation::Unlock { name } => {
                self.activity = Pending::Unlocking { name };
            },
            Operation::Blit { name } => {
                self.activity = Pending::Blitting { name, stage: BlitStage::Unlock };
            },
            Operation::Present { interval } => {
                self.activity = Pending::Presenting { interval };
            },
            Operation::Resize { width, height } => {
                let stage = if self.surface.target().is_some() {
                    ResizeStage::ReleaseTarget
                } else {
                    ResizeStage::ResizeBuffers
                };
                self.activity = Pending::Resizing { width, height, stage };
            },
            Operation::Close => {
                self.activity = Pending::Clearing;
            },
        }
        Ok(())
    }

    fn register(&mut self, name: GLuint, width: u32, height: u32, lock: bool)
        requires
            old(self)@.device.open,
        ensures
            final(self)@ == (SessionState {
                activity: Activity::Registering(
                    RegistrationState::begin(
                        old(self)@.device,
                        name,
                        width,
                        height,
                        ObjectKind::Renderbuffer,
                        Access::ReadWrite,
                    ),
                    lock,
                ),
                ..old(self)@
            }),
    {
        match SharedTexture::register(
            &self.device,
            name,
            width,
            height,
            ObjectKind::Renderbuffer,
            Access::ReadWrite,
        ) {
            Ok(registration) => {
                self.activity = Pending::Registering(registration, lock);
            },
            Err(_) => {
                unreached::<()>();
            },
        }
    }

    fn fail(&mut self) -> (outcome: Option<Result<(), Error>>)
        ensures
            (final(self)@, outcome) == old(self)@.failed(),
    {
        self.lost = true;
        self.activity = Pending::Idle;
        Some(Err(Error::DriverFailure))
    }

    fn move_texture(&mut self, name: GLuint, locked: bool)
        requires
            old(self)@.textures.contains_key(name),
        ensures
            final(self)@ == old(self)@.moved(name, locked),
    {
        match self.shared_textures.remove(&name) {
            Some(texture) => {
                self.shared_textures.insert(name, texture.moved(locked));
            },
            None => {
                unreached::<()>();
            },
        }
        assert(self@.textures =~= old(self)@.textures.insert(
            name,
            old(self)@.textures[name].transitioned(locked),
        ));
    }

    fn drop_next(&mut self)
        requires
            old(self)@.wf(),
            old(self)@.activity is Clearing,
        ensures
            final(self)@ == old(self)@.drop_next(),
    {
        match pop_first(&mut self.shared_textures) {
            Some((name, texture)) => {
                proof {
                    let textures = old(self)@.textures;
                    assert(textures.contains_key(name));
                    assert forall|other: GLuint| #[trigger]
                        textures.contains_key(other) implies name <= other by {
                        assert(old(self).shared_textures@.contains_key(other));
                    }
                    assert(first_name(textures) == name);
                    assert(self@.textures =~= textures.remove(name));
                    assert(!textures.is_empty());
                }
                match texture.destroy(&self.device) {
                    Ok(destruction) => {
                        self.activity = Pending::Dropping(destruction);
                    },
                    Err(_) => {
                        unreached::<()>();
                    },
                }
            },
            None => {
                proof {
                    assert(old(self)@.textures.dom() =~= Set::<GLuint>::empty());
                }
                match self.device.close() {
                    Ok(_) => {},
                    Err(_) => {
                        unreached::<()>();
                    },
                }
                self.activity = Pending::Disconnecting;
            },
        }
    }

    fn holdings(&self) -> (holdings: Holdings)
        ensures
            holdings == self@.holdings(),
    {
        Holdings {
            target: match self.surface.target() {
                Some(target) => Some(target.handle),
                None => None,
            },
            pipeline: Some(self.pipeline),
            swap_chain: Some(self.surface.swap_chain()),
            device: Some((self.device.device(), self.device.context())),
            context: Some(self.wgl.state()),
            step: ContextRelease::Unbind,
        }
    }

    fn resume_simple(&mut self, interval: Option<u32>, reply: DriverReply) -> (outcome: Option<
        Result<(), Error>,
    >)
        requires
            old(self)@.activity == match interval {
                Some(interval) => Activity::Presenting { interval },
                None => Activity::MakingCurrent,
            },
        ensures
            (final(self)@, outcome) == old(self)@.resume(reply),
    {
        self.activity = Pending::Idle;
        if reply.completed() {
            match interval {
                Some(interval) => {
                    self.swap_interval = interval;
                },
                None => {},
            }
            Some(Ok(()))
        } else {
            self.fail()
        }
    }

    fn resume_registering(&mut self, reply: DriverReply) -> (outcome: Option<Result<(), Error>>)
        requires
            old(self)@.wf(),
            old(self)@.activity is Registering,
        ensures
            (final(self)@, outcome) == old(self)@.resume(reply),
    {
        let mut activity = Pending::Idle;
        core::mem::swap(&mut self.activity, &mut activity);
        match activity {
            Pending::Registering(registration, lock) => {
                let mut registration = registration;
                registration.resume(reply);
                if registration.is_ended() {
                    match registration.finish() {
                        Some(Ok(texture)) => {
                            let name = texture.name();
                            self.shared_textures.insert(name, texture);
                            assert(self@.textures =~= old(self)@.textures.insert(name, texture@));
                            if lock {
                                self.activity = Pending::Locking { name };
                                None
                            } else {
                                Some(Ok(()))
                            }
                        },
                        _ => self.fail(),
                    }
                } else {
                    self.activity = Pending::Registering(registration, lock);
                    None
                }
            },
            _ => unreached(),
        }
    }

    fn resume_deleting(&mut self, reply: DriverReply) -> (outcome: Option<Result<(), Error>>)
        requires
            old(self)@.wf(),
            old(self)@.activity is Deleting,
        ensures
            (final(self)@, outcome) == old(self)@.resume(reply),
    {
        let mut activity = Pending::Idle;
        core::mem::swap(&mut self.activity, &mut activity);
        match activity {
            Pending::Deleting(destruction) => {
                let mut destruction = destruction;
                destruction.resume(reply);
                match destruction.outcome() {
                    Some(Ok(())) => Some(Ok(())),
                    Some(Err(_)) => self.fail(),
                    None => {
                        self.activity = Pending::Deleting(destruction);
                        None
                    },
                }
            },
            _ => unreached(),
        }
    }

    fn resume_moving(&mut self, name: GLuint, locked: bool, reply: DriverReply) -> (outcome: Option<
        Result<(), Error>,
    >)
        requires
            old(self)@.wf(),
            old(self)@.activity == if locked {
                Activity::Locking { name }
            } else {
                Activity::Unlocking { name }
            },
        ensures
            (final(self)@, outcome) == old(self)@.resume(reply),
    {
        self.activity = Pending::Idle;
        if reply.completed() {
            self.move_texture(name, locked);
            Some(Ok(()))
        } else {
            self.fail()
        }
    }

    fn resume_blitting(&mut self, name: GLuint, stage: BlitStage, reply: DriverReply) -> (outcome:
        Option<Result<(), Error>>)
        requires
            old(self)@.wf(),
            old(self)@.activity == (Activity::Blitting { name, stage }),
        ensures
            (final(self)@, outcome) == old(self)@.resume(reply),
    {
        self.activity = Pending::Idle;
        let completed = reply.completed();
        match stage {
            BlitStage::Unlock => {
                if completed {
                    self.move_texture(name, false);
                    let stage = if self.surface.target().is_none() {
                        BlitStage::CreateTarget
                    } else {
                        BlitStage::Draw
                    };
                    self.activity = Pending::Blitting { name, stage };
                    None
                } else {
                    self.fail()
                }
            },
            BlitStage::CreateTarget => {
                match self.surface.install_target(reply) {
                    Ok(()) => {
                        self.activity = Pending::Blitting { name, stage: BlitStage::Draw };
                        None
                    },
                    Err(_) => self.fail(),
                }
            },
            BlitStage::Draw => {
                if completed {
                    self.activity = Pending::Blitting { name, stage: BlitStage::Lock };
                    None
                } else {
                    self.fail()
                }
            },
            BlitStage::Lock => {
                if completed {
                    self.move_texture(name, true);
                    Some(Ok(()))
                } else {
                    self.fail()
                }
            },
        }
    }

    fn resume_resizing(
        &mut self,
        width: u32,
        height: u32,
        stage: ResizeStage,
        reply: DriverReply,
    ) -> (outcome: Option<Result<(), Error>>)
        requires
            old(self)@.wf(),
            old(self)@.activity == (Activity::Resizing { width, height, stage }),
        ensures
            (final(self)@, outcome) == old(self)@.resume(reply),
    {
        self.activity = Pending::Idle;
        let completed = reply.completed();
        match stage {
            ResizeStage::ReleaseTarget => {
                if completed {
                    self.surface.clear_target();
                    self.activity = Pending::Resizing {
                        width,
                        height,
                        stage: ResizeStage::ResizeBuffers,
                    };
                    None
                } else {
                    self.fail()
                }
            },
            ResizeStage::ResizeBuffers => {
                if completed {
                    self.surface.resized(width, height);
                    Some(Ok(()))
                } else {
                    self.fail()
                }
            },
        }
    }

    fn resume_clearing(&mut self, reply: DriverReply)
        requires
            old(self)@.wf(),
            old(self)@.activity is Clearing,
        ensures
            (final(self)@, None::<Result<(), Error>>) == old(self)@.resume(reply),
    {
        self.lost = self.lost || !reply.completed();
        self.drop_next();
    }

    fn resume_dropping(&mut self, reply: DriverReply)
        requires
            old(self)@.wf(),
            old(self)@.activity is Dropping,
        ensures
            (final(self)@, None::<Result<(), Error>>) == old(self)@.resume(reply),
    {
        let mut activity = Pending::Clearing;
        core::mem::swap(&mut self.activity, &mut activity);
        match activity {
            Pending::Dropping(destruction) => {
                let mut destruction = destruction;
                destruction.resume(reply);
                match destruction.outcome() {
                    Some(outcome) => {
                        self.lost = self.lost || outcome.is_err();
                        self.drop_next();
                    },
                    None => {
                        self.activity = Pending::Dropping(destruction);
                    },
                }
            },
            _ => {
                unreached::<()>();
            },
        }
    }

    fn resume_disconnecting(&mut self, reply: DriverReply)
        requires
            old(self)@.activity is Disconnecting,
        ensures
            (final(self)@, None::<Result<(), Error>>) == old(self)@.resume(reply),
    {
        self.lost = self.lost || !reply.completed();
        self.activity = Pending::Releasing(self.holdings());
    }

    fn resume_releasing(&mut self, holdings: Holdings, reply: DriverReply) -> (outcome: Option<
        Result<(), Error>,
    >)
        requires
            old(self)@.activity == Activity::Releasing(holdings),
        ensures
            (final(self)@, outcome) == old(self)@.resume(reply),
    {
        self.lost = self.lost || !reply.completed();
        let mut holdings = holdings;
        holdings.advance();
        if holdings.outstanding().is_none() {
            self.activity = Pending::Closed;
            Some(
                if self.lost {
                    Err(Error::DriverFailure)
                } else {
                    Ok(())
                },
            )
        } else {
            self.activity = Pending::Releasing(holdings);
            None
        }
    }

    fn resume(&mut self, reply: DriverReply) -> (outcome: Option<Result<(), Error>>)
        requires
            old(self)@.wf(),
        ensures
            final(self)@.wf(),
            (final(self)@, outcome) == old(self)@.resume(reply),
    {
        proof {
            lemma_resume_wf(old(self)@, reply);
        }
        let pending = self.pending();
        match pending {
            Activity::Idle => Some(Err(Error::NotPending)),
            Activity::Closed => Some(Err(Error::NotPending)),
            Activity::MakingCurrent => self.resume_simple(None, reply),
            Activity::Presenting { interval } => self.resume_simple(Some(interval), reply),
            Activity::Registering(_, _) => self.resume_registering(reply),
            Activity::Deleting(_) => self.resume_deleting(reply),
            Activity::Locking { name } => self.resume_moving(name, true, reply),
            Activity::Unlocking { name } => self.resume_moving(name, false, reply),
            Activity::Blitting { name, stage } => self.resume_blitting(name, stage, reply),
            Activity::Resizing { width, height, stage } => self.resume_resizing(
                width,
                height,
                stage,
                reply,
            ),
            Activity::Clearing => {
                self.resume_clearing(reply);
                None
            },
            Activity::Dropping(_) => {
                self.resume_dropping(reply);
                None
            },
            Activity::Disconnecting => {
                self.resume_disconnecting(reply);
                None
            },
            Activity::Releasing(holdings) => self.resume_releasing(holdings, reply),
        }
    }

    /// What the session is doing.
    fn pending(&self) -> (activity: Activity)
        ensures
            activity == self@.activity,
    {
        match &self.activity {
            Pending::Idle => Activity::Idle,
            Pending::MakingCurrent => Activity::MakingCurrent,
            Pending::Registering(registration, lock) => Activity::Registering(
                registration.state(),
                *lock,
            ),
            Pending::Deleting(destruction) => Activity::Deleting(destruction.state()),
            Pending::Locking { name } => Activity::Locking { name: *name },
            Pending::Unlocking { name } => Activity::Unlocking { name: *name },
            Pending::Blitting { name, stage } => Activity::Blitting { name: *name, stage: *stage },
            Pending::Presenting { interval } => Activity::Presenting { interval: *interval },
            Pending::Resizing { width, height, stage } => Activity::Resizing {
                width: *width,
                height: *height,
                stage: *stage,
            },
            Pending::Clearing => Activity::Clearing,
            Pending::Dropping(destruction) => Activity::Dropping(destruction.state()),
            Pending::Disconnecting => Activity::Disconnecting,
            Pending::Releasing(holdings) => Activity::Releasing(*holdings),
            Pending::Closed => Activity::Closed,
        }
    }
}

/// The session of one window.
pub struct InteropContext {
    /// The parts of the session. They are taken out while an operation
    /// works on them; a session without parts is closed.
    session: Option<Session>,
}

impl View for InteropContext {
    type V = SessionState;

    closed spec fn view(&self) -> SessionState {
        match self.session {
            Some(session) => session@,
            None => SessionState::vacant(),
        }
    }
}

impl InteropContext {
    #[verifier::type_invariant]
    spec fn reachable(self) -> bool {
        match self.session {
            Some(session) => session@.wf(),
            None => true,
        }
    }

    /// Puts a session together from a rendering context, the interop
    /// device that was opened with it, and the surface and blit pipeline
    /// that were created on the device. The session has no texture. A
    /// closed device makes no session.
    pub(crate) fn assemble(
        wgl: WglContext,
        device: InteropDevice,
        surface: PresentationSurface,
        pipeline: Pipeline,
    ) -> (assembled: Result<InteropContext, Error>)
        ensures
            match assembled {
                Ok(session) => device@.open && session@ == SessionState::assembled(
                    wgl@,
                    device@,
                    surface@,
                    pipeline,
                ) && session@.wf(),
                Err(error) => !device@.open && error == Error::StaleContext,
            },
    {
        if !device.is_open() {
            return Err(Error::StaleContext);
        }
        let _ = surface.target();
        let session = Session {
            wgl,
            device,
            surface,
            pipeline,
            shared_textures: BTreeMap::new(),
            swap_interval: 0,
            lost: false,
            activity: Pending::Idle,
        };
        assert(session@.textures =~= Map::<GLuint, TextureState>::empty());
        Ok(InteropContext { session: Some(session) })
    }

    /// Begins an operation.
    pub fn begin(&mut self, operation: Operation) -> (begun: Result<(), Error>)
        ensures
            begins(old(self)@, operation, final(self)@, begun),
            old(self)@.wf(),
            final(self)@.wf(),
    {
        proof {
            use_type_invariant(&*self);
        }
        let mut taken: Option<Session> = None;
        core::mem::swap(&mut self.session, &mut taken);
        match taken {
            Some(session) => {
                let mut session = session;
                let begun = session.begin(operation);
                self.session = Some(session);
                begun
            },
            None => Err(Error::StaleContext),
        }
    }

    /// Begins binding the rendering context to the calling thread.
    pub fn make_current(&mut self) -> (begun: Result<(), Error>)
        ensures
            begins(old(self)@, Operation::MakeCurrent, final(self)@, begun),
    {
        self.begin(Operation::MakeCurrent)
    }

    /// Begins the creation of a shared texture of the given size under an
    /// identifier that no texture of the session has.
    pub fn create_shared_texture(&mut self, gl_ident: GLuint, width: u32, height: u32) -> (begun:
        Result<(), Error>)
        ensures
            begins(
                old(self)@,
                Operation::CreateTexture { name: gl_ident, width, height },
                final(self)@,
                begun,
            ),
    {
        self.begin(Operation::CreateTexture { name: gl_ident, width, height })
    }

    /// The texture with the given identifier.
    pub fn get_shared_texture(&self, gl_ident: GLuint) -> (found: Result<&SharedTexture, Error>)
        ensures
            match found {
                Ok(texture) => self@.get(gl_ident) == Ok::<TextureState, Error>(texture@),
                Err(error) => self@.get(gl_ident) == Err::<TextureState, Error>(error),
            },
    {
        match &self.session {
            Some(session) => match session.shared_textures.get(&gl_ident) {
                Some(texture) => Ok(texture),
                None => Err(Error::TextureNotFound),
            },
            None => Err(Error::TextureNotFound),
        }
    }

    /// Begins the removal and destruction of a texture.
    pub fn delete_shared_texture(&mut self, gl_ident: GLuint) -> (begun: Result<(), Error>)
        ensures
            begins(old(self)@, Operation::DeleteTexture { name: gl_ident }, final(self)@, begun),
    {
        self.begin(Operation::DeleteTexture { name: gl_ident })
    }

    /// Begins handing a texture to the rendering side.
    pub fn lock_shared_texture(&mut self, gl_ident: GLuint) -> (begun: Result<(), Error>)
        ensures
            begins(old(self)@, Operation::Lock { name: gl_ident }, final(self)@, begun),
    {
        self.begin(Operation::Lock { name: gl_ident })
    }

    /// Begins handing a texture to the presentation side.
    pub fn unlock_shared_texture(&mut self, gl_ident: GLuint) -> (begun: Result<(), Error>)
        ensures
            begins(old(self)@, Operation::Unlock { name: gl_ident }, final(self)@, begun),
    {
        self.begin(Operation::Unlock { name: gl_ident })
    }

    /// Begins the blit of a texture to the back buffer: the texture is
    /// unlocked, the render target of the back buffer is created unless one
    /// is cached, the texture is drawn over the whole target, and the
    /// texture is locked again.
    pub fn copy_shared_texture_to_back_buffer(&mut self, gl_ident: GLuint) -> (begun: Result<
        (),
        Error,
    >)
        ensures
            begins(old(self)@, Operation::Blit { name: gl_ident }, final(self)@, begun),
    {
        self.begin(Operation::Blit { name: gl_ident })
    }

    /// Begins presenting the swap chain.
    pub fn present_swap_chain(&mut self, interval: u32) -> (begun: Result<(), Error>)
        ensures
            begins(old(self)@, Operation::Present { interval }, final(self)@, begun),
    {
        self.begin(Operation::Present { interval })
    }

    /// Begins resizing the buffers of the swap chain: the cached render
    /// target is released first, then the buffers are resized.
    pub fn resize_swap_chain(&mut self, width: u32, height: u32) -> (begun: Result<(), Error>)
        ensures
            begins(old(self)@, Operation::Resize { width, height }, final(self)@, begun),
    {
        self.begin(Operation::Resize { width, height })
    }

    /// Begins closing the session: the bindings of the immediate context
    /// are cleared, every texture is unlocked if need be and destroyed, the
    /// interop channel is closed, and the devices are given back.
    pub fn close(&mut self) -> (begun: Result<(), Error>)
        ensures
            begins(old(self)@, Operation::Close, final(self)@, begun),
    {
        self.begin(Operation::Close)
    }

    /// The call that the platform has to perform next, or `None` where no
    /// operation is under way.
    pub fn call(&self) -> (call: Option<DriverCall>)
        ensures
            self@.wf(),
            match call {
                Some(call) => self@.call() == Some(call@),
                None => self@.call() is None,
            },
    {
        proof {
            use_type_invariant(self);
        }
        match &self.session {
            Some(session) => session.call(),
            None => None,
        }
    }

    /// Takes the reply to the outstanding call. The result is `None` where
    /// the operation goes on with another call, and the outcome of the
    /// operation where it has ended.
    pub fn resume(&mut self, reply: DriverReply) -> (outcome: Option<Result<(), Error>>)
        ensures
            (final(self)@, outcome) == old(self)@.resume(reply),
            old(self)@.wf(),
            final(self)@.wf(),
    {
        proof {
            use_type_invariant(&*self);
        }
        let mut taken: Option<Session> = None;
        core::mem::swap(&mut self.session, &mut taken);
        match taken {
            Some(session) => {
                let mut session = session;
                let outcome = session.resume(reply);
                self.session = Some(session);
                outcome
            },
            None => Some(Err(Error::NotPending)),
        }
    }

    /// Whether a driver call has failed.
    pub fn is_lost(&self) -> (lost: bool)
        ensures
            lost == self@.lost,
    {
        match &self.session {
            Some(session) => session.lost,
            None => true,
        }
    }

    /// Whether the session is closed.
    pub fn is_closed(&self) -> (closed: bool)
        ensures
            closed == self@.activity is Closed,
    {
        match &self.session {
            Some(session) => match session.activity {
                Pending::Closed => true,
                _ => false,
            },
            None => true,
        }
    }

    /// Whether an operation can begin: none is under way and the session is
    /// not closed.
    pub fn is_idle(&self) -> (idle: bool)
        ensures
            idle == self@.activity is Idle,
    {
        match &self.session {
            Some(session) => match session.activity {
                Pending::Idle => true,
                _ => false,
            },
            None => false,
        }
    }

    /// The swap interval of the last present.
    pub fn swap_interval(&self) -> (interval: u32)
        ensures
            interval == self@.swap_interval,
    {
        match &self.session {
            Some(session) => session.swap_interval,
            None => 0,
        }
    }

    /// The size of the buffers of the swap chain.
    pub fn extent(&self) -> (extent: Extent)
        ensures
            extent == self@.surface.extent,
    {
        match &self.session {
            Some(session) => session.surface.extent(),
            None => Extent { width: 0, height: 0 },
        }
    }
}

} // verus!
