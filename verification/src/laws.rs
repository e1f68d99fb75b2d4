//! What holds of a session over whole operations, whatever the platform
//! replies.

use crate::driver::{Call, CallModel, DriverReply};
use crate::error::Error;
use crate::handles::{Extent, RenderTarget};
use crate::holdings::{law_release_order, Holdings};
use crate::model::{
    first_name, lemma_begin_wf, lemma_first_name, lemma_resume_wf, Activity, BlitStage,
    Operation, SessionState,
};
use crate::surface::TargetState;
use crate::texture::{
    already, law_destruction_ends, law_registration_ends, law_unregistered_while_unlocked,
    DestructionState, RegistrationState, TextureState,
};
use crate::wgl::GLuint;
use vstd::prelude::*;

verus! {

impl SessionState {
    /// The session after the replies are taken one by one until the
    /// operation ends or the replies run out, and how the operation ended
    /// if it has ended.
    pub open spec fn run(self, replies: Seq<DriverReply>) -> (
        SessionState,
        Option<Result<(), Error>>,
    )
        decreases replies.len(),
    {
        if replies.len() == 0 {
            (self, None)
        } else {
            let (next, outcome) = self.resume(replies[0]);
            if outcome is Some {
                (next, outcome)
            } else {
                next.run(replies.drop_first())
            }
        }
    }

    /// The calls that the session asks for while the replies are taken one
    /// by one, in their order.
    pub open spec fn trace(self, replies: Seq<DriverReply>) -> Seq<CallModel>
        decreases replies.len(),
    {
        if replies.len() == 0 || self.call() is None {
            Seq::empty()
        } else {
            seq![self.call().unwrap()] + self.resume(replies[0]).0.trace(replies.drop_first())
        }
    }
}

/// The place of a call in the closing of a session: the bindings are
/// cleared, then the textures are destroyed, then the interop channel is
/// closed, then the devices are given back. The interop calls that open,
/// register and lock have no place in it.
pub open spec fn closing_rank(call: CallModel) -> nat {
    match call {
        Call::DxOpenDevice { .. } => 0,
        Call::DxRegisterObject { .. } => 0,
        Call::DxLockObjects { .. } => 0,
        Call::ClearState { .. } => 1,
        Call::DxUnlockObjects { .. } => 2,
        Call::DxUnregisterObject { .. } => 2,
        Call::ReleaseShaderView { .. } => 2,
        Call::ReleaseTexture { .. } => 2,
        Call::DxCloseDevice { .. } => 3,
        _ => 4,
    }
}

/// The lock state of a texture of a session alternates. A lock is admitted
/// for an unlocked texture only and an unlock for a locked texture only;
/// the texture changes its state with the reply that reports success, and
/// with no other; and the operation that has just succeeded is refused
/// when it is asked for again, while its opposite is admitted.
pub proof fn law_session_lock_alternates(
    state: SessionState,
    name: GLuint,
    locked: bool,
    reply: DriverReply,
)
    requires
        state.wf(),
        state.activity is Idle,
        !state.lost,
        state.textures.contains_key(name),
    ensures
        ({
            let operation = if locked {
                Operation::Lock { name }
            } else {
                Operation::Unlock { name }
            };
            let opposite = if locked {
                Operation::Unlock { name }
            } else {
                Operation::Lock { name }
            };
            &&& state.textures[name].locked == locked ==> state.begin(operation) == Err::<
                SessionState,
                Error,
            >(already(locked))
            &&& state.textures[name].locked != locked ==> state.begin(operation) is Ok && {
                let (after, outcome) = state.begin(operation).unwrap().resume(reply);
                &&& outcome is Some
                &&& outcome == Some(Ok::<(), Error>(())) <==> reply is Completed
                &&& after.textures.contains_key(name)
                &&& after.textures[name].locked == locked <==> reply is Completed
                &&& reply is Completed ==> after.begin(operation) == Err::<SessionState, Error>(
                    already(locked),
                ) && after.begin(opposite) is Ok
            }
        }),
{
}

proof fn lemma_locking_runs(state: SessionState, name: GLuint, replies: Seq<DriverReply>)
    requires
        state.wf(),
        state.activity == (Activity::Locking { name }),
    ensures
        state.run(replies).1 matches Some(outcome) ==> {
            let after = state.run(replies).0;
            &&& after.textures.contains_key(name)
            &&& after.textures[name] == state.textures[name].transitioned(outcome is Ok)
            &&& after.activity is Idle
        },
{
    if replies.len() > 0 {
        lemma_resume_wf(state, replies[0]);
    }
}

proof fn lemma_registering_runs(
    state: SessionState,
    registration: RegistrationState,
    lock: bool,
    replies: Seq<DriverReply>,
)
    requires
        state.wf(),
        state.activity == Activity::Registering(registration, lock),
    ensures
        state.run(replies).1 matches Some(outcome) ==> {
            let after = state.run(replies).0;
            &&& after.activity is Idle
            &&& outcome is Ok ==> {
                &&& after.textures.contains_key(registration.name)
                &&& after.textures[registration.name].name == registration.name
                &&& after.textures[registration.name].width == registration.width
                &&& after.textures[registration.name].height == registration.height
                &&& after.textures[registration.name].locked == lock
            }
            &&& outcome is Err ==> after.lost
        },
    decreases replies.len(),
{
    if replies.len() > 0 {
        let (next, outcome) = state.resume(replies[0]);
        lemma_resume_wf(state, replies[0]);
        if outcome is None {
            let continued = registration.resume(replies[0]);
            if continued.stage is Registered {
                assert(next.activity == Activity::Locking { name: registration.name });
                lemma_locking_runs(next, registration.name, replies.drop_first());
            } else {
                assert(next.activity == Activity::Registering(continued, lock));
                lemma_registering_runs(next, continued, lock, replies.drop_first());
            }
        }
    }
}

/// A texture that was created is found: where the creation of a texture
/// is admitted and ends well, the session holds under the identifier a
/// texture of the width and height that were asked for. The texture is
/// unlocked, unless it was created for the rendering side, and then it is
/// locked.
pub proof fn law_created_texture_is_found(
    state: SessionState,
    name: GLuint,
    width: u32,
    height: u32,
    locked: bool,
    replies: Seq<DriverReply>,
)
    requires
        state.wf(),
        state.begin(creation(name, width, height, locked)) is Ok,
    ensures
        ({
            let begun = state.begin(creation(name, width, height, locked)).unwrap();
            let after = begun.run(replies).0;
            begun.run(replies).1 == Some(Ok::<(), Error>(())) ==> (after.get(name) matches Ok(
                texture,
            ) && texture.name == name && texture.width == width && texture.height == height
                && texture.locked == locked)
        }),
{
    let operation = creation(name, width, height, locked);
    let begun = state.begin(operation).unwrap();
    lemma_begin_wf(state, operation);
    let registration = begun.activity->Registering_0;
    lemma_registering_runs(begun, registration, locked, replies);
}

/// The operation that creates a texture, unlocked or locked.
pub open spec fn creation(name: GLuint, width: u32, height: u32, locked: bool) -> Operation {
    if locked {
        Operation::CreateLockedTexture { name, width, height }
    } else {
        Operation::CreateTexture { name, width, height }
    }
}

proof fn lemma_deleting_runs(
    state: SessionState,
    destruction: DestructionState,
    replies: Seq<DriverReply>,
)
    requires
        state.wf(),
        state.activity == Activity::Deleting(destruction),
    ensures
        state.run(replies).0.textures == state.textures,
        state.run(replies).1 matches Some(Ok(())) ==> state.run(replies).0.activity is Idle
            && state.run(replies).0.lost == state.lost,
    decreases replies.len(),
{
    if replies.len() > 0 {
        let (next, outcome) = state.resume(replies[0]);
        lemma_resume_wf(state, replies[0]);
        if outcome is None {
            let continued = destruction.resume(replies[0]);
            assert(next.activity == Activity::Deleting(continued));
            lemma_deleting_runs(next, continued, replies.drop_first());
        }
    }
}

/// A texture that was deleted is gone. The deletion of an unknown
/// identifier is refused as not found and changes nothing. Once the
/// deletion of a texture has begun, the texture is not found any more,
/// whatever the platform replies; and when the deletion has ended well,
/// deleting it again is refused as not found.
pub proof fn law_deleted_texture_is_gone(state: SessionState, name: GLuint, replies: Seq<DriverReply>)
    requires
        state.wf(),
    ensures
        state.activity is Idle && !state.lost && !state.textures.contains_key(name)
            ==> state.begin(Operation::DeleteTexture { name }) == Err::<SessionState, Error>(
            Error::TextureNotFound,
        ),
        state.begin(Operation::DeleteTexture { name }) matches Ok(begun) ==> {
            &&& begun.run(replies).0.get(name) == Err::<TextureState, Error>(Error::TextureNotFound)
            &&& begun.run(replies).1 matches Some(Ok(())) ==> begun.run(replies).0.begin(
                Operation::DeleteTexture { name },
            ) == Err::<SessionState, Error>(Error::TextureNotFound)
        },
{
    let operation = Operation::DeleteTexture { name };
    if let Ok(begun) = state.begin(operation) {
        lemma_begin_wf(state, operation);
        let destruction = begun.activity->Deleting_0;
        lemma_deleting_runs(begun, destruction, replies);
    }
}

proof fn lemma_resizing_runs(state: SessionState, width: u32, height: u32, replies: Seq<DriverReply>)
    requires
        state.wf(),
        state.activity matches Activity::Resizing { width: w, height: h, stage } && w == width && h
            == height,
    ensures
        state.run(replies).1 matches Some(Ok(())) ==> {
            let after = state.run(replies).0;
            &&& after.surface.target is None
            &&& after.surface.extent == Extent { width, height }
            &&& after.surface.swap_chain == state.surface.swap_chain
            &&& after.activity is Idle
            &&& after.textures == state.textures
            &&& after.device == state.device
            &&& after.pipeline == state.pipeline
        },
    decreases replies.len(),
{
    if replies.len() > 0 {
        let (next, outcome) = state.resume(replies[0]);
        lemma_resume_wf(state, replies[0]);
        if outcome is None {
            lemma_resizing_runs(next, width, height, replies.drop_first());
        }
    }
}

/// After a resize, the next blit draws to a fresh render target of the
/// new size. Where a resize has ended well, no render target is cached and
/// the buffers have the size that was asked for; the blit that follows
/// creates a render target once the texture is unlocked, and draws with
/// that target and with a viewport of exactly the new size.
pub proof fn law_blit_after_resize_uses_fresh_target(
    state: SessionState,
    width: u32,
    height: u32,
    replies: Seq<DriverReply>,
    name: GLuint,
    raw: usize,
)
    requires
        state.wf(),
        state.begin(Operation::Resize { width, height }) matches Ok(begun) && begun.run(replies).1
            == Some(Ok::<(), Error>(())),
        raw != 0,
    ensures
        ({
            let resized = state.begin(Operation::Resize { width, height }).unwrap().run(replies).0;
            &&& resized.surface.target is None
            &&& resized.surface.extent == Extent { width, height }
            &&& resized.begin(Operation::Blit { name }) matches Ok(blitting) ==> {
                let unlocked = blitting.resume(DriverReply::Completed).0;
                let targeted = unlocked.resume(DriverReply::Handle(raw)).0;
                &&& blitting.call() == Some(blitting.unlock_call(name))
                &&& unlocked.call() == Some(
                    Call::<Seq<usize>>::CreateRenderTarget {
                        device: resized.device.device,
                        swap_chain: resized.surface.swap_chain,
                    },
                )
                &&& targeted.surface.target == Some(
                    TargetState { handle: RenderTarget(raw), extent: Extent { width, height } },
                )
                &&& targeted.call() == Some(targeted.draw_call(name))
                &&& targeted.draw_call(name) matches Call::Draw { viewport, target, source, .. }
                    && viewport == (Extent { width, height }) && target == RenderTarget(raw)
                    && source == resized.textures[name].view
            }
        }),
{
    let operation = Operation::Resize { width, height };
    let begun = state.begin(operation).unwrap();
    lemma_begin_wf(state, operation);
    lemma_resizing_runs(begun, width, height, replies);
    let resized = begun.run(replies).0;
    if let Ok(blitting) = resized.begin(Operation::Blit { name }) {
        let unlocked = blitting.resume(DriverReply::Completed).0;
        assert(unlocked.activity == Activity::Blitting { name, stage: BlitStage::CreateTarget });
        let targeted = unlocked.resume(DriverReply::Handle(raw)).0;
        assert(targeted.activity == Activity::Blitting { name, stage: BlitStage::Draw });
        assert(targeted.textures[name].view == resized.textures[name].view);
    }
}

/// While a session closes, each call has the place of the phase that the
/// closing is in, and the closing never goes back to an earlier phase.
proof fn lemma_closing_step(state: SessionState, reply: DriverReply)
    requires
        state.wf(),
        state.activity.phase() >= 1,
    ensures
        state.resume(reply).0.wf(),
        state.resume(reply).0.activity.phase() >= state.activity.phase(),
        state.activity is Disconnecting ==> state.resume(reply).0.activity.phase() >= 4,
        state.call() matches Some(call) ==> closing_rank(call) == state.activity.phase(),
        state.call() is None <==> state.activity is Closed,
{
    lemma_resume_wf(state, reply);
    match state.activity {
        Activity::Dropping(destruction) => {
            law_unregistered_while_unlocked(
                destruction.texture,
                destruction.functions,
                destruction,
                reply,
            );
        },
        Activity::Releasing(holdings) => {
            law_release_order(holdings);
        },
        _ => {},
    }
}

proof fn lemma_closing_trace(state: SessionState, replies: Seq<DriverReply>)
    requires
        state.wf(),
        state.activity.phase() >= 1,
    ensures
        forall|i: int|
            0 <= i < state.trace(replies).len() ==> closing_rank(
                #[trigger] state.trace(replies)[i],
            ) >= state.activity.phase(),
        forall|i: int, j: int|
            0 <= i < j < state.trace(replies).len() ==> closing_rank(
                #[trigger] state.trace(replies)[i],
            ) <= closing_rank(#[trigger] state.trace(replies)[j]),
        forall|i: int, j: int|
            0 <= i < j < state.trace(replies).len() && closing_rank(
                #[trigger] state.trace(replies)[i],
            ) == 3 ==> closing_rank(#[trigger] state.trace(replies)[j]) == 4,
    decreases replies.len(),
{
    if replies.len() > 0 && state.call() is Some {
        let next = state.resume(replies[0]).0;
        let rest = next.trace(replies.drop_first());
        lemma_closing_step(state, replies[0]);
        lemma_closing_trace(next, replies.drop_first());
        let trace = state.trace(replies);
        assert(trace == seq![state.call().unwrap()] + rest);
        assert forall|i: int| 0 <= i < trace.len() implies closing_rank(#[trigger] trace[i])
            >= state.activity.phase() by {
            if i > 0 {
                assert(trace[i] == rest[i - 1]);
            }
        }
        assert forall|i: int, j: int| 0 <= i < j < trace.len() implies closing_rank(
            #[trigger] trace[i],
        ) <= closing_rank(#[trigger] trace[j]) by {
            assert(trace[j] == rest[j - 1]);
            if i > 0 {
                assert(trace[i] == rest[i - 1]);
            }
        }
        assert forall|i: int, j: int|
            0 <= i < j < trace.len() && closing_rank(#[trigger] trace[i]) == 3 implies closing_rank(
            #[trigger] trace[j],
        ) == 4 by {
            assert(trace[j] == rest[j - 1]);
            if i > 0 {
                assert(trace[i] == rest[i - 1]);
            } else {
                assert(state.activity is Disconnecting);
                assert(next.activity.phase() >= 4);
            }
        }
    }
}

/// The presentation side touches only what it owns. A texture is drawn
/// from only while it is unlocked, and to a render target that has the
/// size of the buffers; and the buffers are resized only while no render
/// target of them is cached.
pub proof fn law_presentation_side_owns_what_it_touches(state: SessionState)
    requires
        state.wf(),
    ensures
        state.call() matches Some(Call::Draw { source, target, viewport, .. })
            ==> state.activity matches Activity::Blitting { name, stage } && {
            &&& state.textures.contains_key(name)
            &&& !state.textures[name].locked
            &&& source == state.textures[name].view
            &&& state.surface.target == Some(TargetState { handle: target, extent: viewport })
            &&& viewport == state.surface.extent
        },
        state.call() matches Some(Call::ResizeBuffers { .. }) ==> state.surface.target is None,
{
}

/// Every operation ends. A session asks for a call exactly while an
/// operation is under way, each reply brings the operation closer to its
/// end, and the operation has ended exactly when the reply gives its
/// outcome.
pub proof fn law_operation_ends(state: SessionState, reply: DriverReply)
    requires
        state.wf(),
    ensures
        state.call() is Some <==> !(state.activity is Idle || state.activity is Closed),
        state.call() is Some <==> state.distance() > 0,
        state.call() is Some ==> state.resume(reply).0.distance() < state.distance(),
        state.call() is Some ==> (state.resume(reply).1 is Some <==> state.resume(reply).0.call()
            is None),
{
    if state.activity.phase() >= 1 {
        lemma_closing_ends(state, reply);
    } else {
        match state.activity {
            Activity::Registering(registration, lock) => {
                law_registration_ends(registration, reply);
                law_registration_ends(registration.resume(reply), reply);
            },
            Activity::Deleting(destruction) => {
                law_destruction_ends(destruction, reply);
                law_destruction_ends(destruction.resume(reply), reply);
            },
            _ => {},
        }
    }
}

proof fn lemma_closing_ends(state: SessionState, reply: DriverReply)
    requires
        state.wf(),
        state.activity.phase() >= 1,
    ensures
        state.call() is Some <==> !(state.activity is Closed),
        state.call() is Some <==> state.distance() > 0,
        state.call() is Some ==> state.resume(reply).0.distance() < state.distance(),
        state.call() is Some ==> (state.resume(reply).1 is Some <==> state.resume(reply).0.call()
            is None),
{
    match state.activity {
        Activity::Clearing => {
            lemma_dropping_is_closer(state.noted(reply is Completed));
        },
        Activity::Dropping(destruction) => {
            lemma_dropping_ends(state, destruction, reply);
        },
        Activity::Disconnecting => {
            law_release_order(state.holdings());
        },
        Activity::Releasing(holdings) => {
            lemma_releasing_ends(state, holdings, reply);
        },
        _ => {},
    }
}

proof fn lemma_dropping_ends(state: SessionState, destruction: DestructionState, reply: DriverReply)
    requires
        state.wf(),
        state.activity == Activity::Dropping(destruction),
    ensures
        state.call() is Some,
        state.distance() > 0,
        state.replied_dropping(destruction, reply).0.distance() < state.distance(),
        state.replied_dropping(destruction, reply).1 is None,
        state.replied_dropping(destruction, reply).0.call() is Some,
{
    law_destruction_ends(destruction, reply);
    let next = destruction.resume(reply);
    if next.ended() {
        lemma_dropping_is_closer(state.noted(next.stage is Destroyed));
    } else {
        law_destruction_ends(next, reply);
    }
}

proof fn lemma_releasing_ends(state: SessionState, holdings: Holdings, reply: DriverReply)
    requires
        state.wf(),
        state.activity == Activity::Releasing(holdings),
    ensures
        state.call() is Some,
        state.distance() > 0,
        state.replied_releasing(holdings, reply).0.distance() < state.distance(),
        state.replied_releasing(holdings, reply).1 is Some <==> state.replied_releasing(
            holdings,
            reply,
        ).0.call() is None,
{
    law_release_order(holdings);
    law_release_order(holdings.resume());
}

/// The next step of closing leaves fewer calls to make than four for each
/// texture and eight more.
proof fn lemma_dropping_is_closer(state: SessionState)
    requires
        state.textures.dom().finite(),
    ensures
        state.drop_next().distance() <= 4 * state.textures.len() + 8,
        state.drop_next().activity is Disconnecting || state.drop_next().activity is Dropping,
        state.drop_next().call() is Some,
{
    if !state.textures.is_empty() {
        let witness = choose|name: GLuint| state.textures.contains_key(name);
        lemma_first_name(state.textures, witness);
        let name = first_name(state.textures);
        assert(state.textures.remove(name).len() == state.textures.len() - 1);
    }
}

/// While a session closes, a texture leaves it in one way only: its
/// destruction begins, which unlocks the texture if it is locked and then
/// unregisters it. The textures leave in the order of their identifiers.
pub proof fn law_closing_destroys_each_texture(state: SessionState, reply: DriverReply, name: GLuint)
    requires
        state.wf(),
        state.activity.phase() >= 1,
        state.textures.contains_key(name),
        !state.resume(reply).0.textures.contains_key(name),
    ensures
        state.resume(reply).0.activity == Activity::Dropping(
            DestructionState::begin(state.textures[name], state.device.functions),
        ),
        state.resume(reply).0.textures == state.textures.remove(name),
        forall|other: GLuint| #[trigger] state.textures.contains_key(other) ==> name <= other,
{
    lemma_first_name(state.textures, name);
}

/// A session closes in order. Whatever the platform replies, the calls of
/// the closing come in this order: the bindings of the immediate context
/// are cleared; the textures are unlocked, unregistered and released; the
/// interop channel is closed; the devices are given back. After the call
/// that closes the channel no call goes through the interop extension, and
/// when that call is made the session holds no texture any more.
pub proof fn law_session_closes_in_order(state: SessionState, replies: Seq<DriverReply>)
    requires
        state.wf(),
        state.begin(Operation::Close) is Ok,
    ensures
        ({
            let closing = state.begin(Operation::Close).unwrap();
            let trace = closing.trace(replies);
            let closed = closing.run(replies).0;
            &&& replies.len() > 0 ==> trace.len() > 0 && trace[0] == Call::<
                Seq<usize>,
            >::ClearState { context: state.device.context }
            &&& forall|i: int| 0 <= i < trace.len() ==> closing_rank(#[trigger] trace[i]) >= 1
            &&& forall|i: int, j: int|
                0 <= i < j < trace.len() ==> closing_rank(#[trigger] trace[i]) <= closing_rank(
                    #[trigger] trace[j],
                )
            &&& forall|i: int, j: int|
                0 <= i < j < trace.len() && (#[trigger] trace[i]) is DxCloseDevice ==> !(
                #[trigger] trace[j]).is_interop()
            &&& closed.activity.phase() >= 3 ==> closed.textures.is_empty()
            &&& closing.run(replies).1 is Some ==> closed.activity is Closed
                && closed.textures.is_empty() && !closed.device.open
        }),
{
    let closing = state.begin(Operation::Close).unwrap();
    lemma_begin_wf(state, Operation::Close);
    lemma_closing_trace(closing, replies);
    lemma_closing_runs(closing, replies);
    let trace = closing.trace(replies);
    assert forall|i: int, j: int|
        0 <= i < j < trace.len() && (#[trigger] trace[i]) is DxCloseDevice implies !(
    #[trigger] trace[j]).is_interop() by {
        assert(closing_rank(trace[i]) == 3);
        assert(closing_rank(trace[j]) == 4);
    }
}

proof fn lemma_closing_runs(state: SessionState, replies: Seq<DriverReply>)
    requires
        state.wf(),
        state.activity.phase() >= 1,
    ensures
        state.run(replies).0.wf(),
        state.run(replies).0.activity.phase() >= 1,
        state.run(replies).1 is Some ==> state.run(replies).0.activity is Closed,
    decreases replies.len(),
{
    if replies.len() > 0 {
        lemma_closing_step(state, replies[0]);
        let (next, outcome) = state.resume(replies[0]);
        if outcome is None {
            lemma_closing_runs(next, replies.drop_first());
        } else {
            law_release_order(state.activity->Releasing_0);
        }
    }
}

} // verus!
