//! Shared textures: their registration with an interop channel, the batched
//! lock and unlock that pass them between the two APIs, and their
//! destruction.
//!
//! A texture is either unlocked, and then the presentation side may read it,
//! or locked, and then the rendering side may draw into it. Each change of
//! that state is one driver call, and the state changes only when the call
//! has succeeded.

use crate::batch::{batch_as_slice, batch_contents, batch_new, batch_push, BATCH_CAPACITY};
use crate::d3d::TextureDescriptor;
use crate::device::{DeviceState, InteropDevice};
use crate::driver::{Call, CallModel, DriverCall, DriverReply};
use crate::error::Error;
use crate::handles::{D3dDevice, DxDeviceHandle, DxResourceHandle, ProcAddress, ShaderView, Texture2d};
use crate::wgl::{Access, GLuint, ObjectKind, ProcTable, Wgl};
use vstd::prelude::*;
use vstd::slice::slice_to_vec;

verus! {

/// What a shared texture consists of.
#[derive(Clone, Copy, Debug, PartialEq, Eq, Structural)]
pub struct TextureState {
    /// The interop channel that the texture is registered with.
    pub device: DxDeviceHandle,
    pub texture: Texture2d,
    pub view: ShaderView,
    /// The texture as the interop channel knows it.
    pub object: DxResourceHandle,
    /// The identifier under which the rendering API knows the texture.
    pub name: GLuint,
    pub width: u32,
    pub height: u32,
    /// Whether the rendering side holds the texture.
    pub locked: bool,
}

impl TextureState {
    /// The texture in the given lock state.
    pub open spec fn transitioned(self, locked: bool) -> TextureState {
        TextureState { locked, ..self }
    }

    /// Why the device may not operate on the texture, if it may not.
    pub open spec fn misplaced(self, device: DeviceState) -> Option<Error> {
        if !device.open {
            Some(Error::StaleContext)
        } else if self.device != device.interop_handle {
            Some(Error::CrossDevice)
        } else {
            None
        }
    }

    /// Why the texture may not move to the given lock state, if it may not.
    pub open spec fn violation(self, device: DeviceState, locked: bool) -> Option<Error> {
        if self.locked == locked {
            if locked {
                Some(Error::AlreadyLocked)
            } else {
                Some(Error::AlreadyUnlocked)
            }
        } else {
            self.misplaced(device)
        }
    }
}

/// The handles of the textures, in their order.
pub open spec fn objects(textures: Seq<TextureState>) -> Seq<usize> {
    textures.map_values(|texture: TextureState| texture.object.0)
}

/// The textures, all in the given lock state.
pub open spec fn all_transitioned(textures: Seq<TextureState>, locked: bool) -> Seq<TextureState> {
    textures.map_values(|texture: TextureState| texture.transitioned(locked))
}

/// Why the batch may not move to the given lock state: the violation of the
/// first texture that has one or that one call can no longer cover.
pub open spec fn first_violation(
    textures: Seq<TextureState>,
    device: DeviceState,
    locked: bool,
) -> Option<Error>
    decreases textures.len(),
{
    if textures.len() == 0 {
        None
    } else {
        match first_violation(textures.drop_last(), device, locked) {
            Some(error) => Some(error),
            None => match textures.last().violation(device, locked) {
                Some(error) => Some(error),
                None => if textures.len() > BATCH_CAPACITY {
                    Some(Error::BatchTooLarge)
                } else {
                    None
                },
            },
        }
    }
}

/// A violation in the first textures of a batch is the violation of the
/// batch.
pub proof fn lemma_violation_extends(
    textures: Seq<TextureState>,
    device: DeviceState,
    locked: bool,
    count: int,
)
    requires
        0 <= count <= textures.len(),
        first_violation(textures.take(count), device, locked) is Some,
    ensures
        first_violation(textures, device, locked) == first_violation(
            textures.take(count),
            device,
            locked,
        ),
    decreases textures.len() - count,
{
    if count == textures.len() {
        assert(textures.take(count) =~= textures);
    } else {
        assert(textures.take(count + 1).drop_last() =~= textures.take(count));
        lemma_violation_extends(textures, device, locked, count + 1);
    }
}

/// A batch without violation holds at most as many textures as one call can
/// cover, and none of them has a violation.
pub proof fn lemma_no_violation(textures: Seq<TextureState>, device: DeviceState, locked: bool)
    requires
        first_violation(textures, device, locked) is None,
    ensures
        textures.len() <= BATCH_CAPACITY,
        forall|i: int|
            0 <= i < textures.len() ==> (#[trigger] textures[i]).violation(device, locked)
                is None,
    decreases textures.len(),
{
    if textures.len() > 0 {
        lemma_no_violation(textures.drop_last(), device, locked);
        assert forall|i: int| 0 <= i < textures.len() implies (#[trigger] textures[i]).violation(
            device,
            locked,
        ) is None by {
            if i < textures.len() - 1 {
                assert(textures.drop_last()[i] == textures[i]);
            }
        }
    }
}

/// A batch of at most as many textures as one call can cover, none of which
/// has a violation, has no violation.
pub proof fn lemma_admitted(textures: Seq<TextureState>, device: DeviceState, locked: bool)
    requires
        textures.len() <= BATCH_CAPACITY,
        forall|i: int|
            0 <= i < textures.len() ==> (#[trigger] textures[i]).violation(device, locked)
                is None,
    ensures
        first_violation(textures, device, locked) is None,
    decreases textures.len(),
{
    if textures.len() > 0 {
        assert forall|i: int| 0 <= i < textures.drop_last().len() implies (
        #[trigger] textures.drop_last()[i]).violation(device, locked) is None by {
            assert(textures.drop_last()[i] == textures[i]);
        }
        lemma_admitted(textures.drop_last(), device, locked);
    }
}

/// The error with which a texture refuses the lock state that it is in.
pub open spec fn already(locked: bool) -> Error {
    if locked {
        Error::AlreadyLocked
    } else {
        Error::AlreadyUnlocked
    }
}

/// The lock state alternates strictly. A texture refuses the state that it
/// is in. Once a batch has moved to a lock state, moving it there again is
/// refused, and moving it back is admitted.
pub proof fn law_lock_state_alternates(
    textures: Seq<TextureState>,
    device: DeviceState,
    locked: bool,
)
    requires
        textures.len() > 0,
    ensures
        textures[0].locked == locked ==> first_violation(textures, device, locked) == Some(
            already(locked),
        ),
        first_violation(all_transitioned(textures, locked), device, locked) == Some(
            already(locked),
        ),
        first_violation(textures, device, locked) is None ==> first_violation(
            all_transitioned(textures, locked),
            device,
            !locked,
        ) is None,
{
    let moved = all_transitioned(textures, locked);
    assert(moved.take(1).drop_last() =~= Seq::<TextureState>::empty());
    assert(first_violation(moved.take(1).drop_last(), device, locked) is None);
    assert(moved.take(1).last().locked == locked);
    lemma_violation_extends(moved, device, locked, 1);
    if textures[0].locked == locked {
        assert(textures.take(1).drop_last() =~= Seq::<TextureState>::empty());
        assert(first_violation(textures.take(1).drop_last(), device, locked) is None);
        assert(textures.take(1).last() == textures[0]);
        lemma_violation_extends(textures, device, locked, 1);
    }
    if first_violation(textures, device, locked) is None {
        lemma_no_violation(textures, device, locked);
        assert forall|i: int| 0 <= i < moved.len() implies (#[trigger] moved[i]).violation(
            device,
            !locked,
        ) is None by {
            assert(textures[i].violation(device, locked) is None);
        }
        lemma_admitted(moved, device, !locked);
    }
}

/// A batch moves as one. Between one and sixteen textures of one open
/// device that are all in the other lock state are admitted. After the
/// reply either every one of them is in the new state or every one is in
/// the old state, and nothing but the lock state of a texture has changed.
pub proof fn law_batch_moves_as_one(transition: TransitionState, device: DeviceState, reply: DriverReply)
    requires
        1 <= transition.textures.len() <= BATCH_CAPACITY,
        device.open,
        forall|i: int|
            0 <= i < transition.textures.len() ==> (#[trigger] transition.textures[i]).device
                == device.interop_handle && transition.textures[i].locked != transition.locked,
    ensures
        first_violation(transition.textures, device, transition.locked) is None,
        transition.completed(reply).len() == transition.textures.len(),
        (forall|i: int|
            0 <= i < transition.textures.len() ==> (#[trigger] transition.completed(reply)[i]).locked
                == transition.locked) || (forall|i: int|
            0 <= i < transition.textures.len() ==> (#[trigger] transition.completed(reply)[i]).locked
                != transition.locked),
        reply is Completed <==> forall|i: int|
            0 <= i < transition.textures.len() ==> (#[trigger] transition.completed(reply)[i]).locked
                == transition.locked,
        forall|i: int|
            0 <= i < transition.textures.len() ==> #[trigger] transition.completed(reply)[i]
                == transition.textures[i].transitioned(transition.completed(reply)[i].locked),
{
    assert forall|i: int| 0 <= i < transition.textures.len() implies (
    #[trigger] transition.textures[i]).violation(device, transition.locked) is None by {
        assert(transition.textures[i].device == device.interop_handle);
    }
    lemma_admitted(transition.textures, device, transition.locked);
    if !(reply is Completed) {
        assert(transition.completed(reply)[0].locked != transition.locked);
    }
}

/// The call that closes the channel of a device is its last interop call:
/// a device whose channel is closed moves no texture and destroys none,
/// whatever the textures are.
pub proof fn law_closed_device_is_stale(
    textures: Seq<TextureState>,
    device: DeviceState,
    locked: bool,
)
    requires
        !device.open,
        textures.len() > 0,
    ensures
        first_violation(textures, device, locked) is Some,
        forall|i: int|
            0 <= i < textures.len() ==> (#[trigger] textures[i]).misplaced(device) == Some(
                Error::StaleContext,
            ),
{
    if first_violation(textures, device, locked) is None {
        lemma_no_violation(textures, device, locked);
        assert(textures[0].violation(device, locked) is None);
    }
}

/// A batch with textures of two devices is refused, whatever else holds of
/// it: no transition comes into being, and so no call is made.
pub proof fn law_cross_device_is_refused(
    textures: Seq<TextureState>,
    device: DeviceState,
    locked: bool,
    i: int,
    j: int,
)
    requires
        0 <= i < textures.len(),
        0 <= j < textures.len(),
        textures[i].device != textures[j].device,
    ensures
        first_violation(textures, device, locked) is Some,
        device.open && textures.len() <= BATCH_CAPACITY && (forall|k: int|
            0 <= k < textures.len() ==> (#[trigger] textures[k]).locked != locked)
            ==> first_violation(textures, device, locked) == Some(Error::CrossDevice),
{
    if first_violation(textures, device, locked) is None {
        lemma_no_violation(textures, device, locked);
        assert(textures[i].violation(device, locked) is None);
        assert(textures[j].violation(device, locked) is None);
    }
    if device.open && textures.len() <= BATCH_CAPACITY && (forall|k: int|
        0 <= k < textures.len() ==> (#[trigger] textures[k]).locked != locked) {
        lemma_only_cross_device(textures, device, locked);
    }
}

/// On an open device, a batch that one call can cover and whose textures
/// are all in the other lock state can be refused for one reason only.
proof fn lemma_only_cross_device(textures: Seq<TextureState>, device: DeviceState, locked: bool)
    requires
        device.open,
        textures.len() <= BATCH_CAPACITY,
        forall|k: int| 0 <= k < textures.len() ==> (#[trigger] textures[k]).locked != locked,
    ensures
        first_violation(textures, device, locked) is Some ==> first_violation(
            textures,
            device,
            locked,
        ) == Some(Error::CrossDevice),
    decreases textures.len(),
{
    if textures.len() > 0 {
        assert forall|k: int| 0 <= k < textures.drop_last().len() implies (
        #[trigger] textures.drop_last()[k]).locked != locked by {
            assert(textures.drop_last()[k] == textures[k]);
        }
        lemma_only_cross_device(textures.drop_last(), device, locked);
        assert(textures.last() == textures[textures.len() - 1]);
    }
}

/// A shared texture: a texture of the presentation device that is
/// registered with an interop channel.
#[derive(Debug, PartialEq, Eq)]
pub struct SharedTexture {
    state: TextureState,
}

impl View for SharedTexture {
    type V = TextureState;

    closed spec fn view(&self) -> TextureState {
        self.state
    }
}

/// The states of the textures, in their order.
pub open spec fn states(textures: Seq<SharedTexture>) -> Seq<TextureState> {
    textures.map_values(|texture: SharedTexture| texture@)
}

/// Where a registration stands: the call that is outstanding, or how the
/// registration ended.
#[derive(Clone, Copy, Debug, PartialEq, Eq, Structural)]
pub enum RegistrationStage {
    CreateTexture,
    CreateView,
    Register,
    Registered,
    Failed,
}

/// Everything that a registration has learnt so far.
#[derive(Clone, Copy, Debug, PartialEq, Eq, Structural)]
pub struct RegistrationState {
    pub stage: RegistrationStage,
    pub device: D3dDevice,
    pub channel: DxDeviceHandle,
    pub functions: ProcTable,
    pub name: GLuint,
    pub width: u32,
    pub height: u32,
    pub kind: ObjectKind,
    pub access: Access,
    pub texture: Texture2d,
    pub view: ShaderView,
    pub object: DxResourceHandle,
}

impl RegistrationState {
    pub open spec fn begin(
        device: DeviceState,
        name: GLuint,
        width: u32,
        height: u32,
        kind: ObjectKind,
        access: Access,
    ) -> RegistrationState {
        RegistrationState {
            stage: RegistrationStage::CreateTexture,
            device: device.device,
            channel: device.interop_handle,
            functions: device.functions,
            name,
            width,
            height,
            kind,
            access,
            texture: Texture2d(0),
            view: ShaderView(0),
            object: DxResourceHandle(0),
        }
    }

    pub open spec fn ended(self) -> bool {
        self.stage is Registered || self.stage is Failed
    }

    /// The call that is outstanding.
    pub open spec fn call(self) -> Option<CallModel> {
        match self.stage {
            RegistrationStage::CreateTexture => Some(
                Call::CreateTexture {
                    device: self.device,
                    descriptor: TextureDescriptor::shared_spec(self.width, self.height),
                },
            ),
            RegistrationStage::CreateView => Some(
                Call::CreateShaderView { device: self.device, texture: self.texture },
            ),
            RegistrationStage::Register => Some(
                Wgl::dx_register_object(
                    self.functions,
                    self.channel,
                    self.texture,
                    self.name,
                    self.kind.target_spec(),
                    self.access.hint_spec(),
                ),
            ),
            RegistrationStage::Registered => None,
            RegistrationStage::Failed => None,
        }
    }

    /// The state after the outstanding call is answered with `reply`. Each
    /// call of a registration returns a handle; a reply without a valid
    /// handle fails the registration.
    pub open spec fn resume(self, reply: DriverReply) -> RegistrationState {
        match (self.stage, reply.handle_spec()) {
            (RegistrationStage::CreateTexture, Some(raw)) => RegistrationState {
                stage: RegistrationStage::CreateView,
                texture: Texture2d(raw),
                ..self
            },
            (RegistrationStage::CreateView, Some(raw)) => RegistrationState {
                stage: RegistrationStage::Register,
                view: ShaderView(raw),
                ..self
            },
            (RegistrationStage::Register, Some(raw)) => RegistrationState {
                stage: RegistrationStage::Registered,
                object: DxResourceHandle(raw),
                ..self
            },
            (RegistrationStage::Registered, _) => self,
            (RegistrationStage::Failed, _) => self,
            (_, None) => RegistrationState { stage: RegistrationStage::Failed, ..self },
        }
    }

    /// The number of calls that the registration can still make.
    pub open spec fn distance(self) -> nat {
        match self.stage {
            RegistrationStage::CreateTexture => 3,
            RegistrationStage::CreateView => 2,
            RegistrationStage::Register => 1,
            RegistrationStage::Registered => 0,
            RegistrationStage::Failed => 0,
        }
    }

    /// The texture that a successful registration has made. It starts
    /// unlocked.
    pub open spec fn registered(self) -> TextureState {
        TextureState {
            device: self.channel,
            texture: self.texture,
            view: self.view,
            object: self.object,
            name: self.name,
            width: self.width,
            height: self.height,
            locked: false,
        }
    }
}

/// An unfinished registration of a shared texture.
pub struct Registration {
    state: RegistrationState,
}

impl View for Registration {
    type V = RegistrationState;

    closed spec fn view(&self) -> RegistrationState {
        self.state
    }
}

impl Registration {
    /// The call to make next, or `None` once the registration has ended.
    pub fn call(&self) -> (call: Option<DriverCall>)
        ensures
            match call {
                Some(call) => self@.call() == Some(call@),
                None => self@.call() is None,
            },
    {
        let state = &self.state;
        match state.stage {
            RegistrationStage::CreateTexture => Some(
                Call::CreateTexture {
                    device: state.device,
                    descriptor: TextureDescriptor::shared(state.width, state.height),
                },
            ),
            RegistrationStage::CreateView => Some(
                Call::CreateShaderView { device: state.device, texture: state.texture },
            ),
            RegistrationStage::Register => Some(
                Call::DxRegisterObject {
                    entry: ProcAddress(state.functions.dx_register_object),
                    device: state.channel,
                    object: state.texture,
                    name: state.name,
                    kind: state.kind.target(),
                    access: state.access.hint(),
                },
            ),
            RegistrationStage::Registered => None,
            RegistrationStage::Failed => None,
        }
    }

    /// Takes the reply to the outstanding call. A reply that arrives after
    /// the registration has ended changes nothing.
    pub fn resume(&mut self, reply: DriverReply)
        ensures
            final(self)@ == old(self)@.resume(reply),
    {
        let handle = reply.handle();
        match (self.state.stage, handle) {
            (RegistrationStage::CreateTexture, Some(raw)) => {
                self.state.stage = RegistrationStage::CreateView;
                self.state.texture = Texture2d(raw);
            },
            (RegistrationStage::CreateView, Some(raw)) => {
                self.state.stage = RegistrationStage::Register;
                self.state.view = ShaderView(raw);
            },
            (RegistrationStage::Register, Some(raw)) => {
                self.state.stage = RegistrationStage::Registered;
                self.state.object = DxResourceHandle(raw);
            },
            (RegistrationStage::Registered, _) => {},
            (RegistrationStage::Failed, _) => {},
            (_, None) => {
                self.state.stage = RegistrationStage::Failed;
            },
        }
    }

    /// Everything that the registration has learnt so far.
    pub fn state(&self) -> (state: RegistrationState)
        ensures
            state == self@,
    {
        self.state
    }

    /// Whether the registration has ended.
    pub fn is_ended(&self) -> (ended: bool)
        ensures
            ended == self@.ended(),
    {
        match self.state.stage {
            RegistrationStage::Registered => true,
            RegistrationStage::Failed => true,
            _ => false,
        }
    }

    /// Ends the conversation: the texture if it is registered, the failure
    /// of the driver if a call failed, `None` while a call is outstanding.
    pub fn finish(self) -> (outcome: Option<Result<SharedTexture, Error>>)
        ensures
            match outcome {
                None => !self@.ended(),
                Some(Ok(texture)) => self@.stage is Registered && texture@ == self@.registered(),
                Some(Err(error)) => self@.stage is Failed && error == Error::DriverFailure,
            },
    {
        match self.state.stage {
            RegistrationStage::Registered => Some(
                Ok(
                    SharedTexture {
                        state: TextureState {
                            device: self.state.channel,
                            texture: self.state.texture,
                            view: self.state.view,
                            object: self.state.object,
                            name: self.state.name,
                            width: self.state.width,
                            height: self.state.height,
                            locked: false,
                        },
                    },
                ),
            ),
            RegistrationStage::Failed => Some(Err(Error::DriverFailure)),
            _ => None,
        }
    }
}

/// A batch of textures that was refused, with the reason. The textures are
/// as they were handed in.
#[derive(Debug)]
pub struct Rejected {
    pub error: Error,
    pub textures: Vec<SharedTexture>,
}

/// A batch of textures on its way to the other lock state.
pub struct TransitionState {
    pub textures: Seq<TextureState>,
    pub channel: DxDeviceHandle,
    pub functions: ProcTable,
    /// The lock state that the batch moves to.
    pub locked: bool,
}

impl TransitionState {
    /// The one call that moves the whole batch. An empty batch needs none.
    pub open spec fn call(self) -> Option<CallModel> {
        if self.textures.len() == 0 {
            None
        } else if self.locked {
            Some(Wgl::dx_lock_objects(self.functions, self.channel, objects(self.textures)))
        } else {
            Some(Wgl::dx_unlock_objects(self.functions, self.channel, objects(self.textures)))
        }
    }

    /// Whether the reply lets the batch move.
    pub open spec fn succeeds(self, reply: DriverReply) -> bool {
        self.textures.len() == 0 || reply is Completed
    }

    /// The textures after the reply: all of them moved, or none.
    pub open spec fn completed(self, reply: DriverReply) -> Seq<TextureState> {
        if self.succeeds(reply) {
            all_transitioned(self.textures, self.locked)
        } else {
            self.textures
        }
    }

    pub open spec fn outcome(self, reply: DriverReply) -> Result<(), Error> {
        if self.succeeds(reply) {
            Ok(())
        } else {
            Err(Error::DriverFailure)
        }
    }
}

/// A validated batch of textures between the decision to lock or unlock
/// them and the driver's reply. It owns the textures meanwhile.
pub struct Transition {
    textures: Vec<SharedTexture>,
    handles: heapless::Vec<usize, 16>,
    channel: DxDeviceHandle,
    functions: Wgl,
    locked: bool,
}

impl View for Transition {
    type V = TransitionState;

    closed spec fn view(&self) -> TransitionState {
        TransitionState {
            textures: states(self.textures@),
            channel: self.channel,
            functions: self.functions@,
            locked: self.locked,
        }
    }
}

impl Transition {
    #[verifier::type_invariant]
    spec fn collected(self) -> bool {
        batch_contents(self.handles) == objects(states(self.textures@))
    }

    /// The call to make, or `None` for an empty batch.
    pub fn call(&self) -> (call: Option<DriverCall>)
        ensures
            match call {
                Some(call) => self@.call() == Some(call@),
                None => self@.call() is None,
            },
    {
        proof {
            use_type_invariant(self);
        }
        if self.textures.len() == 0 {
            None
        } else {
            let objects = slice_to_vec(batch_as_slice(&self.handles));
            if self.locked {
                Some(self.functions.DXLockObjectsNV(self.channel, objects))
            } else {
                Some(self.functions.DXUnlockObjectsNV(self.channel, objects))
            }
        }
    }

    /// Takes the reply to the call and hands the textures back. Where the
    /// call succeeded every texture of the batch is in the new lock state;
    /// where it failed every texture is in the old one.
    pub fn complete(self, reply: DriverReply) -> (done: (Vec<SharedTexture>, Result<(), Error>))
        ensures
            states(done.0@) == self@.completed(reply),
            done.1 == self@.outcome(reply),
    {
        let mut textures = self.textures;
        let locked = self.locked;
        if textures.len() != 0 && !reply.completed() {
            return (textures, Err(Error::DriverFailure));
        }
        let ghost before = states(textures@);
        let count = textures.len();
        let mut i: usize = 0;
        while i < count
            invariant
                i <= count,
                count == textures@.len(),
                before.len() == count,
                forall|j: int| 0 <= j < i ==> (#[trigger] textures@[j])@ == before[j].transitioned(locked),
                forall|j: int| i <= j < count ==> (#[trigger] textures@[j])@ == before[j],
            decreases count - i,
        {
            let state = textures[i].state;
            textures.set(i, SharedTexture { state: TextureState { locked, ..state } });
            i = i + 1;
        }
        assert(states(textures@) =~= all_transitioned(before, locked));
        (textures, Ok(()))
    }
}

/// Where a destruction stands: the call that is outstanding, or how the
/// destruction ended.
#[derive(Clone, Copy, Debug, PartialEq, Eq, Structural)]
pub enum DestructionStage {
    Unlock,
    Unregister,
    ReleaseView,
    ReleaseTexture,
    Destroyed,
    Failed,
}

/// A texture on its way out of existence.
#[derive(Clone, Copy, Debug, PartialEq, Eq, Structural)]
pub struct DestructionState {
    pub stage: DestructionStage,
    pub texture: TextureState,
    pub functions: ProcTable,
}

impl DestructionState {
    /// A locked texture is unlocked first; an unlocked one is unregistered
    /// at once.
    pub open spec fn begin(texture: TextureState, functions: ProcTable) -> DestructionState {
        DestructionState {
            stage: if texture.locked {
                DestructionStage::Unlock
            } else {
                DestructionStage::Unregister
            },
            texture,
            functions,
        }
    }

    pub open spec fn ended(self) -> bool {
        self.stage is Destroyed || self.stage is Failed
    }

    /// What holds of every state that a destruction can reach: the texture
    /// is locked while its unlock is outstanding and unlocked from then on.
    pub open spec fn wf(self) -> bool {
        &&& self.stage is Unlock ==> self.texture.locked
        &&& self.stage is Unregister || self.stage is ReleaseView || self.stage is ReleaseTexture
            || self.stage is Destroyed ==> !self.texture.locked
    }

    /// The call that is outstanding.
    pub open spec fn call(self) -> Option<CallModel> {
        match self.stage {
            DestructionStage::Unlock => Some(
                Wgl::dx_unlock_objects(
                    self.functions,
                    self.texture.device,
                    seq![self.texture.object.0],
                ),
            ),
            DestructionStage::Unregister => Some(
                Wgl::dx_unregister_object(self.functions, self.texture.device, self.texture.object),
            ),
            DestructionStage::ReleaseView => Some(
                Call::ReleaseShaderView { view: self.texture.view },
            ),
            DestructionStage::ReleaseTexture => Some(
                Call::ReleaseTexture { texture: self.texture.texture },
            ),
            DestructionStage::Destroyed => None,
            DestructionStage::Failed => None,
        }
    }

    /// The state after the outstanding call is answered with `reply`:
    /// unlock, unregister, release the view, release the texture, in this
    /// order, as long as each call succeeds.
    pub open spec fn resume(self, reply: DriverReply) -> DestructionState {
        if self.ended() {
            self
        } else if !(reply is Completed) {
            DestructionState { stage: DestructionStage::Failed, ..self }
        } else {
            match self.stage {
                DestructionStage::Unlock => DestructionState {
                    stage: DestructionStage::Unregister,
                    texture: self.texture.transitioned(false),
                    ..self
                },
                DestructionStage::Unregister => DestructionState {
                    stage: DestructionStage::ReleaseView,
                    ..self
                },
                DestructionStage::ReleaseView => DestructionState {
                    stage: DestructionStage::ReleaseTexture,
                    ..self
                },
                _ => DestructionState { stage: DestructionStage::Destroyed, ..self },
            }
        }
    }

    pub open spec fn outcome(self) -> Option<Result<(), Error>> {
        match self.stage {
            DestructionStage::Destroyed => Some(Ok(())),
            DestructionStage::Failed => Some(Err(Error::DriverFailure)),
            _ => None,
        }
    }

    /// The number of calls that the destruction can still make.
    pub open spec fn distance(self) -> nat {
        match self.stage {
            DestructionStage::Unlock => 4,
            DestructionStage::Unregister => 3,
            DestructionStage::ReleaseView => 2,
            DestructionStage::ReleaseTexture => 1,
            DestructionStage::Destroyed => 0,
            DestructionStage::Failed => 0,
        }
    }
}

/// A registration ends: each reply brings it closer to its end, and it
/// asks for a call exactly as long as it has not ended.
pub proof fn law_registration_ends(registration: RegistrationState, reply: DriverReply)
    ensures
        registration.ended() <==> registration.call() is None,
        registration.ended() <==> registration.distance() == 0,
        !registration.ended() ==> registration.resume(reply).distance() < registration.distance(),
{
}

/// A destruction ends: each reply brings it closer to its end, and it asks
/// for a call exactly as long as it has not ended.
pub proof fn law_destruction_ends(destruction: DestructionState, reply: DriverReply)
    ensures
        destruction.ended() <==> destruction.call() is None,
        destruction.ended() <==> destruction.distance() == 0,
        !destruction.ended() ==> destruction.resume(reply).distance() < destruction.distance(),
{
}

/// A texture is unregistered only while it is unlocked: the call that
/// unregisters it is made, if the texture was locked, only after the call
/// that unlocks it has succeeded.
pub proof fn law_unregistered_while_unlocked(
    texture: TextureState,
    functions: ProcTable,
    state: DestructionState,
    reply: DriverReply,
)
    ensures
        DestructionState::begin(texture, functions).wf(),
        state.wf() ==> state.resume(reply).wf(),
        state.wf() && state.call() == Some(
            Wgl::dx_unregister_object(state.functions, state.texture.device, state.texture.object),
        ) ==> !state.texture.locked,
        state.wf() && state.texture.locked && !state.resume(reply).texture.locked ==> reply
            is Completed && state.call() == Some(
            Wgl::dx_unlock_objects(
                state.functions,
                state.texture.device,
                seq![state.texture.object.0],
            ),
        ),
{
}

/// An unfinished destruction of a shared texture.
pub struct Destruction {
    state: DestructionState,
}

impl View for Destruction {
    type V = DestructionState;

    closed spec fn view(&self) -> DestructionState {
        self.state
    }
}

impl Destruction {
    /// The call to make next, or `None` once the destruction has ended.
    pub fn call(&self) -> (call: Option<DriverCall>)
        ensures
            match call {
                Some(call) => self@.call() == Some(call@),
                None => self@.call() is None,
            },
    {
        let state = &self.state;
        match state.stage {
            DestructionStage::Unlock => {
                let mut objects: Vec<usize> = Vec::new();
                objects.push(state.texture.object.0);
                assert(objects@ =~= seq![state.texture.object.0]);
                Some(
                    Call::DxUnlockObjects {
                        entry: ProcAddress(state.functions.dx_unlock_objects),
                        device: state.texture.device,
                        objects,
                    },
                )
            },
            DestructionStage::Unregister => Some(
                Call::DxUnregisterObject {
                    entry: ProcAddress(state.functions.dx_unregister_object),
                    device: state.texture.device,
                    object: state.texture.object,
                },
            ),
            DestructionStage::ReleaseView => Some(
                Call::ReleaseShaderView { view: state.texture.view },
            ),
            DestructionStage::ReleaseTexture => Some(
                Call::ReleaseTexture { texture: state.texture.texture },
            ),
            DestructionStage::Destroyed => None,
            DestructionStage::Failed => None,
        }
    }

    /// Takes the reply to the outstanding call. A reply that arrives after
    /// the destruction has ended changes nothing.
    pub fn resume(&mut self, reply: DriverReply)
        ensures
            final(self)@ == old(self)@.resume(reply),
    {
        let completed = reply.completed();
        match self.state.stage {
            DestructionStage::Destroyed => {},
            DestructionStage::Failed => {},
            DestructionStage::Unlock => {
                if completed {
                    self.state.stage = DestructionStage::Unregister;
                    self.state.texture.locked = false;
                } else {
                    self.state.stage = DestructionStage::Failed;
                }
            },
            DestructionStage::Unregister => {
                self.state.stage = if completed {
                    DestructionStage::ReleaseView
                } else {
                    DestructionStage::Failed
                };
            },
            DestructionStage::ReleaseView => {
                self.state.stage = if completed {
                    DestructionStage::ReleaseTexture
                } else {
                    DestructionStage::Failed
                };
            },
            DestructionStage::ReleaseTexture => {
                self.state.stage = if completed {
                    DestructionStage::Destroyed
                } else {
                    DestructionStage::Failed
                };
            },
        }
    }

    /// Where the destruction stands.
    pub fn state(&self) -> (state: DestructionState)
        ensures
            state == self@,
    {
        self.state
    }

    /// How the destruction ended, or `None` while a call is outstanding.
    pub fn outcome(&self) -> (outcome: Option<Result<(), Error>>)
        ensures
            outcome == self@.outcome(),
    {
        match self.state.stage {
            DestructionStage::Destroyed => Some(Ok(())),
            DestructionStage::Failed => Some(Err(Error::DriverFailure)),
            _ => None,
        }
    }
}

impl SharedTexture {
    /// Starts the registration of a new texture of the given size with the
    /// interop channel of the device, under the identifier that the
    /// rendering API gave. A closed device registers nothing.
    pub fn register(
        device: &InteropDevice,
        external_id: GLuint,
        width: u32,
        height: u32,
        kind: ObjectKind,
        access: Access,
    ) -> (registration: Result<Registration, Error>)
        ensures
            match registration {
                Ok(registration) => device@.open && registration@ == RegistrationState::begin(
                    device@,
                    external_id,
                    width,
                    height,
                    kind,
                    access,
                ),
                Err(error) => !device@.open && error == Error::StaleContext,
            },
    {
        if !device.is_open() {
            return Err(Error::StaleContext);
        }
        Ok(
            Registration {
                state: RegistrationState {
                    stage: RegistrationStage::CreateTexture,
                    device: device.device(),
                    channel: device.interop_handle(),
                    functions: device.functions().addresses(),
                    name: external_id,
                    width,
                    height,
                    kind,
                    access,
                    texture: Texture2d(0),
                    view: ShaderView(0),
                    object: DxResourceHandle(0),
                },
            },
        )
    }

    fn update_lock_status(textures: Vec<SharedTexture>, device: &InteropDevice, locked: bool) -> (begun:
        Result<Transition, Rejected>)
        ensures
            match begun {
                Ok(transition) => first_violation(states(textures@), device@, locked) is None
                    && transition@ == (TransitionState {
                    textures: states(textures@),
                    channel: device@.interop_handle,
                    functions: device@.functions,
                    locked,
                }),
                Err(rejected) => first_violation(states(textures@), device@, locked) == Some(
                    rejected.error,
                ) && rejected.textures@ == textures@,
            },
    {
        let mut handles = batch_new();
        let count = textures.len();
        let ghost all = states(textures@);
        let mut i: usize = 0;
        while i < count
            invariant
                i <= count,
                count == textures@.len(),
                all == states(textures@),
                first_violation(all.take(i as int), device@, locked) is None,
                batch_contents(handles) == objects(all.take(i as int)),
            decreases count - i,
        {
            let state = textures[i].state;
            proof {
                assert(all.take(i + 1).drop_last() =~= all.take(i as int));
                assert(all.take(i + 1).last() == state);
                lemma_no_violation(all.take(i as int), device@, locked);
            }
            let refused = match check(&state, device, locked) {
                Some(error) => Some(error),
                None => match batch_push(&mut handles, state.object.0) {
                    Ok(()) => None,
                    Err(_) => Some(Error::BatchTooLarge),
                },
            };
            match refused {
                Some(error) => {
                    proof {
                        lemma_violation_extends(all, device@, locked, i + 1);
                    }
                    return Err(Rejected { error, textures });
                },
                None => {},
            }
            proof {
                assert(objects(all.take(i + 1)) =~= objects(all.take(i as int)).push(
                    state.object.0,
                ));
            }
            i = i + 1;
        }
        proof {
            assert(all.take(count as int) =~= all);
        }
        Ok(
            Transition {
                textures,
                handles,
                channel: device.interop_handle(),
                functions: *device.functions(),
                locked,
            },
        )
    }

    /// Validates a batch of textures that are to be handed to the rendering
    /// side. The batch is refused, before any call is made, where a texture
    /// is locked already, where the device is closed, where a texture
    /// belongs to another device, or where the batch holds more textures
    /// than one call covers.
    pub fn lock(textures: Vec<SharedTexture>, device: &InteropDevice) -> (begun: Result<
        Transition,
        Rejected,
    >)
        ensures
            match begun {
                Ok(transition) => first_violation(states(textures@), device@, true) is None
                    && transition@ == (TransitionState {
                    textures: states(textures@),
                    channel: device@.interop_handle,
                    functions: device@.functions,
                    locked: true,
                }),
                Err(rejected) => first_violation(states(textures@), device@, true) == Some(
                    rejected.error,
                ) && rejected.textures@ == textures@,
            },
    {
        SharedTexture::update_lock_status(textures, device, true)
    }

    /// Validates a batch of textures that are to be handed to the
    /// presentation side. The batch is refused, before any call is made,
    /// where a texture is unlocked already, where the device is closed,
    /// where a texture belongs to another device, or where the batch holds
    /// more textures than one call covers.
    pub fn unlock(textures: Vec<SharedTexture>, device: &InteropDevice) -> (begun: Result<
        Transition,
        Rejected,
    >)
        ensures
            match begun {
                Ok(transition) => first_violation(states(textures@), device@, false) is None
                    && transition@ == (TransitionState {
                    textures: states(textures@),
                    channel: device@.interop_handle,
                    functions: device@.functions,
                    locked: false,
                }),
                Err(rejected) => first_violation(states(textures@), device@, false) == Some(
                    rejected.error,
                ) && rejected.textures@ == textures@,
            },
    {
        SharedTexture::update_lock_status(textures, device, false)
    }

    /// Starts the destruction of the texture. A device that is closed, or
    /// that the texture is not registered with, destroys nothing and gets
    /// the texture back.
    pub fn destroy(self, device: &InteropDevice) -> (begun: Result<Destruction, (Error, SharedTexture)>)
        ensures
            match begun {
                Ok(destruction) => self@.misplaced(device@) is None && destruction@
                    == DestructionState::begin(self@, device@.functions),
                Err((error, texture)) => self@.misplaced(device@) == Some(error) && texture@
                    == self@,
            },
    {
        if !device.is_open() {
            return Err((Error::StaleContext, self));
        }
        if self.state.device != device.interop_handle() {
            return Err((Error::CrossDevice, self));
        }
        Ok(
            Destruction {
                state: DestructionState {
                    stage: if self.state.locked {
                        DestructionStage::Unlock
                    } else {
                        DestructionStage::Unregister
                    },
                    texture: self.state,
                    functions: device.functions().addresses(),
                },
            },
        )
    }

    /// The texture in the given lock state.
    pub(crate) fn moved(self, locked: bool) -> (moved: SharedTexture)
        ensures
            moved@ == self@.transitioned(locked),
    {
        SharedTexture { state: TextureState { locked, ..self.state } }
    }

    /// The identifier under which the rendering API knows the texture.
    pub fn name(&self) -> (name: GLuint)
        ensures
            name == self@.name,
    {
        self.state.name
    }

    pub fn width(&self) -> (width: u32)
        ensures
            width == self@.width,
    {
        self.state.width
    }

    pub fn height(&self) -> (height: u32)
        ensures
            height == self@.height,
    {
        self.state.height
    }

    /// Whether the rendering side holds the texture.
    pub fn is_locked(&self) -> (locked: bool)
        ensures
            locked == self@.locked,
    {
        self.state.locked
    }

    /// Everything that the texture consists of.
    pub fn state(&self) -> (state: TextureState)
        ensures
            state == self@,
    {
        self.state
    }
}

fn check(texture: &TextureState, device: &InteropDevice, locked: bool) -> (violation: Option<Error>)
    ensures
        violation == texture.violation(device@, locked),
{
    if texture.locked == locked {
        if locked {
            Some(Error::AlreadyLocked)
        } else {
            Some(Error::AlreadyUnlocked)
        }
    } else if !device.is_open() {
        Some(Error::StaleContext)
    } else if texture.device != device.interop_handle() {
        Some(Error::CrossDevice)
    } else {
        None
    }
}

} // verus!
