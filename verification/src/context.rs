//! The rendering context of a window: how it is created, bound, and given
//! back.
//!
//! Creation is a conversation with the platform. [`WglContext::create`]
//! starts it; [`ContextCreation::call`] says what to ask next and
//! [`ContextCreation::resume`] takes the answer, until
//! [`ContextCreation::finish`] hands out the context or the reason why there
//! is none.

use crate::driver::{Call, CallModel, ClientRect, DriverCall, DriverReply};
use crate::error::SetupError;
use crate::handles::{Extent, Hdc, Hglrc, Hwnd, ProcAddress};
use crate::wgl::{ContextAttributes, EntryPoint, PixelFormatRequest, ProcTable, Wgl};
use vstd::pervasive::unreached;
use vstd::prelude::*;

verus! {

/// Where the creation of a rendering context stands: the call that is
/// outstanding, or how creation ended.
#[derive(Clone, Copy, Debug, PartialEq, Eq, Structural)]
pub enum CreationStage {
    GetDc,
    ChooseFormat,
    SetFormat,
    CreateLegacy,
    BindLegacy,
    ResolveLegacy,
    CreateModern,
    UnbindLegacy,
    DeleteLegacy,
    BindModern,
    ResolveModern,
    UnbindModern,
    DeleteModern,
    ReleaseDc,
    Created,
    Failed,
}

/// Everything that the creation of a rendering context has learnt so far.
#[derive(Clone, Copy, Debug, PartialEq, Eq)]
pub struct CreationState {
    pub stage: CreationStage,
    pub window: Hwnd,
    pub dc: Hdc,
    pub format: i32,
    /// The legacy context, from its creation to its destruction.
    pub legacy: Option<Hglrc>,
    /// The context-creation entry point as the legacy context resolved it.
    pub bootstrap: ProcAddress,
    /// The modern context, once it is created and unless it is given up.
    pub modern: Option<Hglrc>,
    /// The entry points as the modern context resolved them.
    pub table: ProcTable,
    /// The first failure.
    pub error: Option<SetupError>,
}

impl CreationState {
    pub open spec fn begin(window: Hwnd) -> CreationState {
        CreationState {
            stage: CreationStage::GetDc,
            window,
            dc: Hdc(0),
            format: 0,
            legacy: None,
            bootstrap: ProcAddress(0),
            modern: None,
            table: ProcTable {
                create_context_attribs: 0,
                dx_open_device: 0,
                dx_register_object: 0,
                dx_lock_objects: 0,
                dx_unlock_objects: 0,
                dx_unregister_object: 0,
                dx_close_device: 0,
            },
            error: None,
        }
    }

    pub open spec fn ended(self) -> bool {
        self.stage is Created || self.stage is Failed
    }

    /// Whether the legacy context exists at this stage.
    pub open spec fn holds_legacy(stage: CreationStage) -> bool {
        stage is BindLegacy || stage is ResolveLegacy || stage is CreateModern
            || stage is UnbindLegacy || stage is DeleteLegacy
    }

    /// What holds of every state that creation can reach.
    pub open spec fn wf(self) -> bool {
        &&& self.legacy is Some <==> Self::holds_legacy(self.stage)
        &&& self.stage is BindModern || self.stage is ResolveModern || self.stage is UnbindModern
            || self.stage is DeleteModern || self.stage is Created ==> self.modern is Some
        &&& self.modern is Some ==> !(self.stage is GetDc || self.stage is ChooseFormat
            || self.stage is SetFormat || self.stage is CreateLegacy || self.stage is BindLegacy
            || self.stage is ResolveLegacy || self.stage is CreateModern
            || self.stage is ReleaseDc || self.stage is Failed)
        &&& self.stage is UnbindLegacy || self.stage is DeleteLegacy ==> self.modern is Some
            || self.error is Some
        &&& self.stage is CreateModern ==> self.bootstrap.0 != 0
        &&& self.stage is BindModern || self.stage is ResolveModern || self.stage is Created
            ==> self.error is None
        &&& self.stage is DeleteModern || self.stage is ReleaseDc || self.stage is Failed
            ==> self.error is Some
        &&& (self.stage is UnbindModern && self.error is None) || self.stage is Created
            ==> self.table.missing() is None
    }

    /// The call that is outstanding.
    pub open spec fn call(self) -> Option<CallModel> {
        match self.stage {
            CreationStage::GetDc => Some(Call::GetDc { window: self.window }),
            CreationStage::ChooseFormat => Some(
                Call::ChoosePixelFormat {
                    dc: self.dc,
                    request: PixelFormatRequest::standard_spec(),
                },
            ),
            CreationStage::SetFormat => Some(
                Call::SetPixelFormat { dc: self.dc, format: self.format },
            ),
            CreationStage::CreateLegacy => Some(Call::CreateContext { dc: self.dc }),
            CreationStage::BindLegacy => Some(
                Call::MakeCurrent { dc: self.dc, context: self.legacy },
            ),
            CreationStage::ResolveLegacy => Some(Call::ResolveEntryPoints),
            CreationStage::CreateModern => Some(
                Call::CreateContextAttribs {
                    entry: self.bootstrap,
                    dc: self.dc,
                    share: None,
                    attributes: ContextAttributes::modern_spec(),
                },
            ),
            CreationStage::UnbindLegacy => Some(Call::MakeCurrent { dc: self.dc, context: None }),
            CreationStage::DeleteLegacy => Some(
                Call::DeleteContext { context: self.legacy.unwrap() },
            ),
            CreationStage::BindModern => Some(
                Call::MakeCurrent { dc: self.dc, context: self.modern },
            ),
            CreationStage::ResolveModern => Some(Call::ResolveEntryPoints),
            CreationStage::UnbindModern => Some(Call::MakeCurrent { dc: self.dc, context: None }),
            CreationStage::DeleteModern => Some(
                Call::DeleteContext { context: self.modern.unwrap() },
            ),
            CreationStage::ReleaseDc => Some(Call::ReleaseDc { window: self.window, dc: self.dc }),
            CreationStage::Created => None,
            CreationStage::Failed => None,
        }
    }

    /// Whether the reply reports that the outstanding call did what it was
    /// made for.
    pub open spec fn accepts(self, reply: DriverReply) -> bool {
        match self.stage {
            CreationStage::GetDc => reply.handle_spec() is Some,
            CreationStage::ChooseFormat => reply matches DriverReply::Number(format) && format != 0,
            CreationStage::CreateLegacy => reply.handle_spec() is Some,
            CreationStage::ResolveLegacy => reply matches DriverReply::EntryPoints(table)
                && table.create_context_attribs != 0,
            CreationStage::CreateModern => reply.handle_spec() is Some,
            CreationStage::ResolveModern => reply matches DriverReply::EntryPoints(table)
                && table.missing() is None,
            CreationStage::Created => false,
            CreationStage::Failed => false,
            _ => reply is Completed,
        }
    }

    /// The failure that is recorded when the outstanding call is answered
    /// with a reply that is not accepted.
    pub open spec fn blame(self, reply: DriverReply) -> SetupError {
        match self.stage {
            CreationStage::GetDc => SetupError::DeviceContext,
            CreationStage::ChooseFormat => SetupError::PixelFormat,
            CreationStage::SetFormat => SetupError::PixelFormat,
            CreationStage::CreateLegacy => SetupError::LegacyContext,
            CreationStage::ResolveLegacy => SetupError::MissingEntryPoint(
                EntryPoint::CreateContextAttribsARB,
            ),
            CreationStage::CreateModern => SetupError::ModernContext,
            CreationStage::ResolveModern => match reply {
                DriverReply::EntryPoints(table) => match table.missing() {
                    Some(entry) => SetupError::MissingEntryPoint(entry),
                    None => SetupError::MissingEntryPoint(EntryPoint::CreateContextAttribsARB),
                },
                _ => SetupError::MissingEntryPoint(EntryPoint::CreateContextAttribsARB),
            },
            CreationStage::DeleteLegacy => SetupError::Cleanup,
            CreationStage::DeleteModern => SetupError::Cleanup,
            CreationStage::ReleaseDc => SetupError::Cleanup,
            _ => SetupError::Binding,
        }
    }

    /// The state with the failure recorded, unless one was recorded before.
    pub open spec fn blamed(self, error: SetupError) -> CreationState {
        if self.error is Some {
            self
        } else {
            CreationState { error: Some(error), ..self }
        }
    }

    /// What the accepted reply adds to the state.
    pub open spec fn absorb(self, reply: DriverReply) -> CreationState {
        match (self.stage, reply) {
            (CreationStage::GetDc, DriverReply::Handle(raw)) => CreationState {
                dc: Hdc(raw),
                ..self
            },
            (CreationStage::ChooseFormat, DriverReply::Number(format)) => CreationState {
                format,
                ..self
            },
            (CreationStage::CreateLegacy, DriverReply::Handle(raw)) => CreationState {
                legacy: Some(Hglrc(raw)),
                ..self
            },
            (CreationStage::ResolveLegacy, DriverReply::EntryPoints(table)) => CreationState {
                bootstrap: ProcAddress(table.create_context_attribs),
                ..self
            },
            (CreationStage::CreateModern, DriverReply::Handle(raw)) => CreationState {
                modern: Some(Hglrc(raw)),
                ..self
            },
            (CreationStage::ResolveModern, DriverReply::EntryPoints(table)) => CreationState {
                table,
                ..self
            },
            _ => self,
        }
    }

    /// The stage that follows once the outstanding call is answered. The
    /// legacy context is unbound and destroyed on every path that created
    /// it; after a failure, what else was acquired is given back before
    /// creation ends.
    pub open spec fn follow(self, accepted: bool) -> CreationStage {
        match self.stage {
            CreationStage::GetDc => if accepted {
                CreationStage::ChooseFormat
            } else {
                CreationStage::Failed
            },
            CreationStage::ChooseFormat => if accepted {
                CreationStage::SetFormat
            } else {
                CreationStage::ReleaseDc
            },
            CreationStage::SetFormat => if accepted {
                CreationStage::CreateLegacy
            } else {
                CreationStage::ReleaseDc
            },
            CreationStage::CreateLegacy => if accepted {
                CreationStage::BindLegacy
            } else {
                CreationStage::ReleaseDc
            },
            CreationStage::BindLegacy => if accepted {
                CreationStage::ResolveLegacy
            } else {
                CreationStage::DeleteLegacy
            },
            CreationStage::ResolveLegacy => if accepted {
                CreationStage::CreateModern
            } else {
                CreationStage::UnbindLegacy
            },
            CreationStage::CreateModern => CreationStage::UnbindLegacy,
            CreationStage::UnbindLegacy => CreationStage::DeleteLegacy,
            CreationStage::DeleteLegacy => if accepted && self.error is None {
                CreationStage::BindModern
            } else if self.modern is Some {
                CreationStage::DeleteModern
            } else {
                CreationStage::ReleaseDc
            },
            CreationStage::BindModern => if accepted {
                CreationStage::ResolveModern
            } else {
                CreationStage::DeleteModern
            },
            CreationStage::ResolveModern => CreationStage::UnbindModern,
            CreationStage::UnbindModern => if accepted && self.error is None {
                CreationStage::Created
            } else {
                CreationStage::DeleteModern
            },
            CreationStage::DeleteModern => CreationStage::ReleaseDc,
            CreationStage::ReleaseDc => CreationStage::Failed,
            CreationStage::Created => CreationStage::Created,
            CreationStage::Failed => CreationStage::Failed,
        }
    }

    /// The state after the outstanding call is answered with `reply`.
    pub open spec fn resume(self, reply: DriverReply) -> CreationState {
        if self.ended() {
            self
        } else {
            let accepted = self.accepts(reply);
            let known = if accepted {
                self.absorb(reply)
            } else {
                self.blamed(self.blame(reply))
            };
            CreationState {
                stage: self.follow(accepted),
                legacy: if self.stage is DeleteLegacy {
                    None
                } else {
                    known.legacy
                },
                modern: if self.stage is DeleteModern {
                    None
                } else {
                    known.modern
                },
                ..known
            }
        }
    }

    /// The number of calls that creation can still make.
    pub open spec fn distance(self) -> nat {
        match self.stage {
            CreationStage::GetDc => 14,
            CreationStage::ChooseFormat => 13,
            CreationStage::SetFormat => 12,
            CreationStage::CreateLegacy => 11,
            CreationStage::BindLegacy => 10,
            CreationStage::ResolveLegacy => 9,
            CreationStage::CreateModern => 8,
            CreationStage::UnbindLegacy => 7,
            CreationStage::DeleteLegacy => 6,
            CreationStage::BindModern => 5,
            CreationStage::ResolveModern => 4,
            CreationStage::UnbindModern => 3,
            CreationStage::DeleteModern => 2,
            CreationStage::ReleaseDc => 1,
            CreationStage::Created => 0,
            CreationStage::Failed => 0,
        }
    }
}

/// Every state that creation starts in or moves to is well formed.
pub proof fn lemma_creation_wf(state: CreationState, window: Hwnd, reply: DriverReply)
    ensures
        CreationState::begin(window).wf(),
        state.wf() ==> state.resume(reply).wf(),
{
}

/// The legacy context never outlives creation: it exists in no state in
/// which creation has ended, and it ceases to exist only by the reply to the
/// call that destroys it.
pub proof fn law_legacy_context_is_destroyed(state: CreationState, reply: DriverReply)
    requires
        state.wf(),
    ensures
        state.ended() ==> state.legacy is None,
        state.legacy is Some && state.resume(reply).legacy is None ==> state.call() == Some(
            Call::<Seq<usize>>::DeleteContext { context: state.legacy.unwrap() },
        ),
{
}

/// A failure is final: the first failure stays on record, and creation
/// that has failed once never ends with a context. A reply that is not
/// accepted is a failure.
pub proof fn law_setup_failure_is_fatal(state: CreationState, reply: DriverReply)
    requires
        state.wf(),
    ensures
        state.error is Some ==> state.resume(reply).error == state.error,
        state.error is Some ==> !(state.resume(reply).stage is Created),
        !state.ended() && !state.accepts(reply) ==> state.resume(reply).error is Some,
        state.resume(reply).stage is Created ==> state.resume(reply).error is None,
{
}

/// Creation ends: each reply brings it closer to its end.
pub proof fn law_creation_ends(state: CreationState, reply: DriverReply)
    ensures
        state.ended() <==> state.call() is None,
        state.ended() <==> state.distance() == 0,
        !state.ended() ==> state.resume(reply).distance() < state.distance(),
{
}

/// An unfinished creation of a rendering context.
pub struct ContextCreation {
    state: CreationState,
}

impl View for ContextCreation {
    type V = CreationState;

    closed spec fn view(&self) -> CreationState {
        self.state
    }
}

/// What a rendering context consists of.
#[derive(Clone, Copy, Debug, PartialEq, Eq, Structural)]
pub struct ContextState {
    pub window: Hwnd,
    pub dc: Hdc,
    pub rc: Hglrc,
    pub functions: ProcTable,
}

/// A rendering context together with the surface that it is bound to and
/// the entry points that it resolved.
#[derive(Debug, PartialEq, Eq)]
pub struct WglContext {
    hwnd: Hwnd,
    dc: Hdc,
    rc: Hglrc,
    functions: Wgl,
}

impl View for WglContext {
    type V = ContextState;

    closed spec fn view(&self) -> ContextState {
        ContextState { window: self.hwnd, dc: self.dc, rc: self.rc, functions: self.functions@ }
    }
}

impl ContextCreation {
    #[verifier::type_invariant]
    spec fn reachable(self) -> bool {
        self.state.wf()
    }

    /// The call to make next, or `None` once creation has ended.
    pub fn call(&self) -> (call: Option<DriverCall>)
        ensures
            self@.wf(),
            match call {
                Some(call) => self@.call() == Some(call@),
                None => self@.call() is None,
            },
    {
        proof {
            use_type_invariant(self);
        }
        let state = &self.state;
        match state.stage {
            CreationStage::GetDc => Some(Call::GetDc { window: state.window }),
            CreationStage::ChooseFormat => Some(
                Call::ChoosePixelFormat { dc: state.dc, request: PixelFormatRequest::standard() },
            ),
            CreationStage::SetFormat => Some(
                Call::SetPixelFormat { dc: state.dc, format: state.format },
            ),
            CreationStage::CreateLegacy => Some(Call::CreateContext { dc: state.dc }),
            CreationStage::BindLegacy => Some(
                Call::MakeCurrent { dc: state.dc, context: state.legacy },
            ),
            CreationStage::ResolveLegacy => Some(Call::ResolveEntryPoints),
            CreationStage::CreateModern => Some(
                Call::CreateContextAttribs {
                    entry: state.bootstrap,
                    dc: state.dc,
                    share: None,
                    attributes: ContextAttributes::modern(),
                },
            ),
            CreationStage::UnbindLegacy => Some(Call::MakeCurrent { dc: state.dc, context: None }),
            CreationStage::DeleteLegacy => Some(
                Call::DeleteContext { context: state.legacy.unwrap() },
            ),
            CreationStage::BindModern => Some(
                Call::MakeCurrent { dc: state.dc, context: state.modern },
            ),
            CreationStage::ResolveModern => Some(Call::ResolveEntryPoints),
            CreationStage::UnbindModern => Some(Call::MakeCurrent { dc: state.dc, context: None }),
            CreationStage::DeleteModern => Some(
                Call::DeleteContext { context: state.modern.unwrap() },
            ),
            CreationStage::ReleaseDc => Some(
                Call::ReleaseDc { window: state.window, dc: state.dc },
            ),
            CreationStage::Created => None,
            CreationStage::Failed => None,
        }
    }

    /// Takes the reply to the outstanding call. A reply that arrives after
    /// creation has ended changes nothing.
    pub fn resume(&mut self, reply: DriverReply)
        ensures
            final(self)@ == old(self)@.resume(reply),
    {
        proof {
            use_type_invariant(&*self);
            lemma_creation_wf(self.state, self.state.window, reply);
        }
        let state = self.state;
        let accepted = accepts(&state, &reply);
        let mut next = state;
        if accepted {
            match (state.stage, reply) {
                (CreationStage::GetDc, DriverReply::Handle(raw)) => {
                    next.dc = Hdc(raw);
                },
                (CreationStage::ChooseFormat, DriverReply::Number(format)) => {
                    next.format = format;
                },
                (CreationStage::CreateLegacy, DriverReply::Handle(raw)) => {
                    next.legacy = Some(Hglrc(raw));
                },
                (CreationStage::ResolveLegacy, DriverReply::EntryPoints(table)) => {
                    next.bootstrap = ProcAddress(table.create_context_attribs);
                },
                (CreationStage::CreateModern, DriverReply::Handle(raw)) => {
                    next.modern = Some(Hglrc(raw));
                },
                (CreationStage::ResolveModern, DriverReply::EntryPoints(table)) => {
                    next.table = table;
                },
                _ => {},
            }
        } else if state.error.is_none() {
            next.error = Some(blame(&state, &reply));
        }
        next.stage = follow(&state, accepted);
        match state.stage {
            CreationStage::DeleteLegacy => {
                next.legacy = None;
            },
            CreationStage::DeleteModern => {
                next.modern = None;
            },
            _ => {},
        }
        if !(matches!(state.stage, CreationStage::Created) || matches!(
            state.stage,
            CreationStage::Failed
        )) {
            self.state = next;
        }
    }

    /// Whether creation has ended.
    pub fn is_ended(&self) -> (ended: bool)
        ensures
            ended == self@.ended(),
    {
        match self.state.stage {
            CreationStage::Created => true,
            CreationStage::Failed => true,
            _ => false,
        }
    }

    /// Ends the conversation: the context if creation succeeded, the first
    /// failure if it failed, `None` while a call is outstanding.
    pub fn finish(self) -> (outcome: Option<Result<WglContext, SetupError>>)
        ensures
            match outcome {
                None => !self@.ended(),
                Some(Ok(context)) => self@.stage is Created && self@.modern is Some && context@
                    == (ContextState {
                    window: self@.window,
                    dc: self@.dc,
                    rc: self@.modern.unwrap(),
                    functions: self@.table,
                }),
                Some(Err(error)) => self@.stage is Failed && self@.error == Some(error),
            },
    {
        proof {
            use_type_invariant(&self);
        }
        match self.state.stage {
            CreationStage::Created => {
                match Wgl::from_current_context(self.state.table) {
                    Ok(functions) => Some(
                        Ok(
                            WglContext {
                                hwnd: self.state.window,
                                dc: self.state.dc,
                                rc: self.state.modern.unwrap(),
                                functions,
                            },
                        ),
                    ),
                    Err(_) => unreached(),
                }
            },
            CreationStage::Failed => Some(Err(self.state.error.unwrap())),
            _ => None,
        }
    }
}

fn accepts(state: &CreationState, reply: &DriverReply) -> (accepted: bool)
    ensures
        accepted == state.accepts(*reply),
{
    match state.stage {
        CreationStage::GetDc => reply.handle().is_some(),
        CreationStage::ChooseFormat => match *reply {
            DriverReply::Number(format) => format != 0,
            _ => false,
        },
        CreationStage::CreateLegacy => reply.handle().is_some(),
        CreationStage::ResolveLegacy => match *reply {
            DriverReply::EntryPoints(table) => table.create_context_attribs != 0,
            _ => false,
        },
        CreationStage::CreateModern => reply.handle().is_some(),
        CreationStage::ResolveModern => match *reply {
            DriverReply::EntryPoints(table) => Wgl::from_current_context(table).is_ok(),
            _ => false,
        },
        CreationStage::Created => false,
        CreationStage::Failed => false,
        _ => reply.completed(),
    }
}

fn blame(state: &CreationState, reply: &DriverReply) -> (error: SetupError)
    ensures
        error == state.blame(*reply),
{
    match state.stage {
        CreationStage::GetDc => SetupError::DeviceContext,
        CreationStage::ChooseFormat => SetupError::PixelFormat,
        CreationStage::SetFormat => SetupError::PixelFormat,
        CreationStage::CreateLegacy => SetupError::LegacyContext,
        CreationStage::ResolveLegacy => SetupError::MissingEntryPoint(
            EntryPoint::CreateContextAttribsARB,
        ),
        CreationStage::CreateModern => SetupError::ModernContext,
        CreationStage::ResolveModern => match *reply {
            DriverReply::EntryPoints(table) => match Wgl::from_current_context(table) {
                Err(entry) => SetupError::MissingEntryPoint(entry),
                Ok(_) => SetupError::MissingEntryPoint(EntryPoint::CreateContextAttribsARB),
            },
            _ => SetupError::MissingEntryPoint(EntryPoint::CreateContextAttribsARB),
        },
        CreationStage::DeleteLegacy => SetupError::Cleanup,
        CreationStage::DeleteModern => SetupError::Cleanup,
        CreationStage::ReleaseDc => SetupError::Cleanup,
        _ => SetupError::Binding,
    }
}

fn follow(state: &CreationState, accepted: bool) -> (stage: CreationStage)
    ensures
        stage == state.follow(accepted),
{
    match state.stage {
        CreationStage::GetDc => if accepted {
            CreationStage::ChooseFormat
        } else {
            CreationStage::Failed
        },
        CreationStage::ChooseFormat => if accepted {
            CreationStage::SetFormat
        } else {
            CreationStage::ReleaseDc
        },
        CreationStage::SetFormat => if accepted {
            CreationStage::CreateLegacy
        } else {
            CreationStage::ReleaseDc
        },
        CreationStage::CreateLegacy => if accepted {
            CreationStage::BindLegacy
        } else {
            CreationStage::ReleaseDc
        },
        CreationStage::BindLegacy => if accepted {
            CreationStage::ResolveLegacy
        } else {
            CreationStage::DeleteLegacy
        },
        CreationStage::ResolveLegacy => if accepted {
            CreationStage::CreateModern
        } else {
            CreationStage::UnbindLegacy
        },
        CreationStage::CreateModern => CreationStage::UnbindLegacy,
        CreationStage::UnbindLegacy => CreationStage::DeleteLegacy,
        CreationStage::DeleteLegacy => if accepted && state.error.is_none() {
            CreationStage::BindModern
        } else if state.modern.is_some() {
            CreationStage::DeleteModern
        } else {
            CreationStage::ReleaseDc
        },
        CreationStage::BindModern => if accepted {
            CreationStage::ResolveModern
        } else {
            CreationStage::DeleteModern
        },
        CreationStage::ResolveModern => CreationStage::UnbindModern,
        CreationStage::UnbindModern => if accepted && state.error.is_none() {
            CreationStage::Created
        } else {
            CreationStage::DeleteModern
        },
        CreationStage::DeleteModern => CreationStage::ReleaseDc,
        CreationStage::ReleaseDc => CreationStage::Failed,
        CreationStage::Created => CreationStage::Created,
        CreationStage::Failed => CreationStage::Failed,
    }
}

impl WglContext {
    /// Starts the creation of the rendering context of a window.
    pub fn create(hwnd: Hwnd) -> (creation: ContextCreation)
        ensures
            creation@ == CreationState::begin(hwnd),
    {
        ContextCreation {
            state: CreationState {
                stage: CreationStage::GetDc,
                window: hwnd,
                dc: Hdc(0),
                format: 0,
                legacy: None,
                bootstrap: ProcAddress(0),
                modern: None,
                table: ProcTable {
                    create_context_attribs: 0,
                    dx_open_device: 0,
                    dx_register_object: 0,
                    dx_lock_objects: 0,
                    dx_unlock_objects: 0,
                    dx_unregister_object: 0,
                    dx_close_device: 0,
                },
                error: None,
            },
        }
    }

    /// The entry points that the context resolved.
    pub fn functions(&self) -> (functions: &Wgl)
        ensures
            functions@ == self@.functions,
    {
        &self.functions
    }

    /// Everything that the context consists of.
    pub fn state(&self) -> (state: ContextState)
        ensures
            state == self@,
    {
        ContextState {
            window: self.hwnd,
            dc: self.dc,
            rc: self.rc,
            functions: self.functions.addresses(),
        }
    }

    pub fn window(&self) -> (window: Hwnd)
        ensures
            window == self@.window,
    {
        self.hwnd
    }

    pub fn dc(&self) -> (dc: Hdc)
        ensures
            dc == self@.dc,
    {
        self.dc
    }

    pub fn rc(&self) -> (rc: Hglrc)
        ensures
            rc == self@.rc,
    {
        self.rc
    }

    /// The call that binds the context and its surface to the calling
    /// thread.
    pub fn make_current(&self) -> (call: DriverCall)
        ensures
            call@ == self@.make_current(),
    {
        Call::MakeCurrent { dc: self.dc, context: Some(self.rc) }
    }

    /// The call that presents the surface's own double buffer.
    pub fn swap_buffers(&self) -> (call: DriverCall)
        ensures
            call@ == self@.swap_buffers(),
    {
        Call::SwapBuffers { dc: self.dc }
    }

    /// The call that unbinds whatever context is current on the thread.
    pub fn unbind(&self) -> (call: DriverCall)
        ensures
            call@ == self@.unbind(),
    {
        Call::MakeCurrent { dc: self.dc, context: None }
    }

    /// The call that destroys the context.
    pub fn delete(&self) -> (call: DriverCall)
        ensures
            call@ == self@.delete(),
    {
        Call::DeleteContext { context: self.rc }
    }

    /// The call that gives the device context back to the window.
    pub fn release(&self) -> (call: DriverCall)
        ensures
            call@ == self@.release(),
    {
        Call::ReleaseDc { window: self.hwnd, dc: self.dc }
    }

    /// Gives the context up. The calls are to be made in the order of the
    /// list: unbind, destroy the context, give the device context back.
    pub fn destroy(self) -> (calls: Vec<DriverCall>)
        ensures
            calls@.map_values(|call: DriverCall| call@) == self@.teardown(),
    {
        let mut calls: Vec<DriverCall> = Vec::new();
        calls.push(self.unbind());
        calls.push(self.delete());
        calls.push(self.release());
        assert(calls@.map_values(|call: DriverCall| call@) =~= self@.teardown());
        calls
    }
}

impl ContextState {
    pub open spec fn make_current(self) -> CallModel {
        Call::MakeCurrent { dc: self.dc, context: Some(self.rc) }
    }

    pub open spec fn swap_buffers(self) -> CallModel {
        Call::SwapBuffers { dc: self.dc }
    }

    pub open spec fn unbind(self) -> CallModel {
        Call::MakeCurrent { dc: self.dc, context: None }
    }

    pub open spec fn delete(self) -> CallModel {
        Call::DeleteContext { context: self.rc }
    }

    pub open spec fn release(self) -> CallModel {
        Call::ReleaseDc { window: self.window, dc: self.dc }
    }

    /// The calls that give a context up, in their order.
    pub open spec fn teardown(self) -> Seq<CallModel> {
        seq![self.unbind(), self.delete(), self.release()]
    }
}

/// The size of a client area: its width and its height.
pub fn get_window_size(rect: ClientRect) -> (size: (i32, i32))
    requires
        i32::MIN <= rect.right - rect.left <= i32::MAX,
        i32::MIN <= rect.bottom - rect.top <= i32::MAX,
    ensures
        size.0 == rect.right - rect.left,
        size.1 == rect.bottom - rect.top,
{
    (rect.right - rect.left, rect.bottom - rect.top)
}

/// The extent of a client area, where it has one: a rectangle whose right or
/// bottom edge lies before its left or top edge has none.
pub open spec fn client_extent_spec(rect: ClientRect) -> Option<Extent> {
    if rect.left <= rect.right && rect.top <= rect.bottom {
        Some(
            Extent {
                width: (rect.right - rect.left) as u32,
                height: (rect.bottom - rect.top) as u32,
            },
        )
    } else {
        None
    }
}

pub fn client_extent(rect: ClientRect) -> (extent: Option<Extent>)
    ensures
        extent == client_extent_spec(rect),
{
    if rect.left <= rect.right && rect.top <= rect.bottom {
        let width: i64 = rect.right as i64 - rect.left as i64;
        let height: i64 = rect.bottom as i64 - rect.top as i64;
        Some(Extent { width: width as u32, height: height as u32 })
    } else {
        None
    }
}

} // verus!
