//! The sessions of the windows of a process, and the operations as the
//! rendering application names them.
//!
//! Each operation names its window and returns a status code, zero for
//! success. An operation that returns zero is under way: [`call`] says
//! which call the platform has to perform for the window, and [`resume`]
//! takes the reply and, once the operation has ended, returns its status.

use crate::driver::{CallModel, DriverCall, DriverReply};
use crate::error::{status_code, status_code_spec, Error};
use crate::handles::Hwnd;
use crate::model::{Operation, SessionState};
use crate::session::InteropContext;
use crate::setup::{SessionCreation, SetupState};
use std::collections::BTreeMap;
use vstd::prelude::*;

verus! {

/// The name of a window among the windows of the process.
#[derive(Debug, Copy, Clone, PartialEq, Eq, Structural, PartialOrd, Ord, Hash)]
pub struct WindowIdentifier(pub usize);

/// What the registry holds for a window: a session that is being set up, or
/// a session.
pub enum SlotState {
    Creating(SetupState),
    Ready(SessionState),
}

enum Slot {
    Creating(SessionCreation),
    Ready(InteropContext),
}

impl View for Slot {
    type V = SlotState;

    closed spec fn view(&self) -> SlotState {
        match self {
            Slot::Creating(creation) => SlotState::Creating(creation@),
            Slot::Ready(session) => SlotState::Ready(session@),
        }
    }
}

/// The sessions of the windows.
pub struct SessionRegistry {
    windows: BTreeMap<usize, Slot>,
}

impl View for SessionRegistry {
    type V = Map<usize, SlotState>;

    closed spec fn view(&self) -> Map<usize, SlotState> {
        Map::new(
            |window: usize| self.windows@.contains_key(window),
            |window: usize| self.windows@[window]@,
        )
    }
}

/// The registry after the attempt to set up a session for a window, and
/// the status of the attempt. A window has one session at most.
pub open spec fn created(before: Map<usize, SlotState>, window: WindowIdentifier, hwnd: Hwnd) -> (
    Map<usize, SlotState>,
    i32,
) {
    if before.contains_key(window.0) {
        (before, Error::Busy.code_spec())
    } else {
        (before.insert(window.0, SlotState::Creating(SetupState::begin(hwnd))), 0)
    }
}

/// The registry after the attempt to begin an operation on the session of
/// a window, and the status of the attempt. A window without a session is
/// stale; a session that is being set up is busy.
pub open spec fn begun(before: Map<usize, SlotState>, window: WindowIdentifier, operation: Operation) -> (
    Map<usize, SlotState>,
    i32,
) {
    if !before.contains_key(window.0) {
        (before, Error::StaleContext.code_spec())
    } else {
        match before[window.0] {
            SlotState::Creating(_) => (before, Error::Busy.code_spec()),
            SlotState::Ready(session) => match session.begin(operation) {
                Ok(next) => (before.insert(window.0, SlotState::Ready(next)), 0),
                Err(error) => (before, error.code_spec()),
            },
        }
    }
}

/// The call that is outstanding for a window.
pub open spec fn called(registry: Map<usize, SlotState>, window: WindowIdentifier) -> Option<
    CallModel,
> {
    if !registry.contains_key(window.0) {
        None
    } else {
        match registry[window.0] {
            SlotState::Creating(setup) => setup.call(),
            SlotState::Ready(session) => session.call(),
        }
    }
}

/// The registry after the outstanding call of a window is answered, and
/// the status of the operation if it has ended. A setup that succeeds
/// leaves its session; a setup that fails leaves nothing; a session that
/// is closed leaves the registry.
pub open spec fn resumed(before: Map<usize, SlotState>, window: WindowIdentifier, reply: DriverReply) -> (
    Map<usize, SlotState>,
    Option<i32>,
) {
    if !before.contains_key(window.0) {
        (before, Some(Error::NotPending.code_spec()))
    } else {
        match before[window.0] {
            SlotState::Creating(setup) => {
                let next = setup.resume(reply);
                if next.stage is Created {
                    (before.insert(window.0, SlotState::Ready(next.session())), Some(0))
                } else if next.stage is Failed {
                    (before.remove(window.0), Some(next.error.unwrap().code_spec()))
                } else {
                    (before.insert(window.0, SlotState::Creating(next)), None)
                }
            },
            SlotState::Ready(session) => {
                let (next, outcome) = session.resume(reply);
                (
                    if next.activity is Closed {
                        before.remove(window.0)
                    } else {
                        before.insert(window.0, SlotState::Ready(next))
                    },
                    match outcome {
                        Some(outcome) => Some(status_code_spec(outcome)),
                        None => None,
                    },
                )
            },
        }
    }
}

impl SessionRegistry {
    /// A registry without sessions.
    pub fn new() -> (registry: SessionRegistry)
        ensures
            registry@ == Map::<usize, SlotState>::empty(),
    {
        let registry = SessionRegistry { windows: BTreeMap::new() };
        assert(registry@ =~= Map::<usize, SlotState>::empty());
        registry
    }

    /// Whether the window has a session or one that is being set up.
    pub fn contains(&self, window: WindowIdentifier) -> (contained: bool)
        ensures
            contained == self@.contains_key(window.0),
    {
        self.windows.contains_key(&window.0)
    }

    /// The session of the window, if it has one that is set up.
    pub fn session(&self, window: WindowIdentifier) -> (session: Option<&InteropContext>)
        ensures
            match session {
                Some(session) => self@.contains_key(window.0) && self@[window.0]
                    == SlotState::Ready(session@),
                None => !self@.contains_key(window.0) || self@[window.0] is Creating,
            },
    {
        match self.windows.get(&window.0) {
            Some(Slot::Ready(session)) => Some(session),
            _ => None,
        }
    }

    fn begin(&mut self, window: WindowIdentifier, operation: Operation) -> (status: i32)
        ensures
            (final(self)@, status) == begun(old(self)@, window, operation),
    {
        match self.windows.remove(&window.0) {
            None => {
                assert(self@ =~= old(self)@);
                Error::StaleContext.code()
            },
            Some(Slot::Creating(creation)) => {
                self.windows.insert(window.0, Slot::Creating(creation));
                assert(self@ =~= old(self)@);
                Error::Busy.code()
            },
            Some(Slot::Ready(session)) => {
                let mut session = session;
                let begun = session.begin(operation);
                self.windows.insert(window.0, Slot::Ready(session));
                proof {
                    match begun {
                        Ok(()) => {
                            assert(self@ =~= old(self)@.insert(
                                window.0,
                                SlotState::Ready(session@),
                            ));
                        },
                        Err(_) => {
                            assert(self@ =~= old(self)@);
                        },
                    }
                }
                status_code(&begun)
            },
        }
    }
}

/// Begins the setup of the session of a window.
pub fn create_context_and_swap_chain(
    registry: &mut SessionRegistry,
    window: WindowIdentifier,
    hwnd: Hwnd,
) -> (status: i32)
    ensures
        (final(registry)@, status) == created(old(registry)@, window, hwnd),
{
    if registry.windows.contains_key(&window.0) {
        Error::Busy.code()
    } else {
        registry.windows.insert(window.0, Slot::Creating(InteropContext::new(hwnd)));
        assert(registry@ =~= old(registry)@.insert(
            window.0,
            SlotState::Creating(SetupState::begin(hwnd)),
        ));
        0
    }
}

/// Begins binding the rendering context of a window to the calling thread.
pub fn make_context_current(registry: &mut SessionRegistry, window: WindowIdentifier) -> (status:
    i32)
    ensures
        (final(registry)@, status) == begun(old(registry)@, window, Operation::MakeCurrent),
{
    registry.begin(window, Operation::MakeCurrent)
}

/// Begins presenting the swap chain of a window after one vertical sync.
pub fn swap_buffers(registry: &mut SessionRegistry, window: WindowIdentifier) -> (status: i32)
    ensures
        (final(registry)@, status) == begun(
            old(registry)@,
            window,
            Operation::Present { interval: 1 },
        ),
{
    registry.begin(window, Operation::Present { interval: 1 })
}

/// Begins presenting the swap chain of a window.
pub fn present(registry: &mut SessionRegistry, window: WindowIdentifier, interval: u32) -> (status:
    i32)
    ensures
        (final(registry)@, status) == begun(old(registry)@, window, Operation::Present { interval }),
{
    registry.begin(window, Operation::Present { interval })
}

/// Begins the creation of a shared texture in the session of a window. The
/// texture is handed to the rendering side as soon as it is registered.
/// The identifier and the sizes are taken as the unsigned numbers with the
/// same bits.
pub fn create_shared_texture(
    registry: &mut SessionRegistry,
    window: WindowIdentifier,
    gl_ident: i32,
    width: i32,
    height: i32,
) -> (status: i32)
    ensures
        (final(registry)@, status) == begun(
            old(registry)@,
            window,
            Operation::CreateLockedTexture {
                name: gl_ident as u32,
                width: width as u32,
                height: height as u32,
            },
        ),
{
    registry.begin(
        window,
        Operation::CreateLockedTexture {
            name: gl_ident as u32,
            width: width as u32,
            height: height as u32,
        },
    )
}

/// Begins the removal and destruction of a texture of a window.
pub fn delete_shared_texture(registry: &mut SessionRegistry, window: WindowIdentifier, gl_ident: i32) -> (status:
    i32)
    ensures
        (final(registry)@, status) == begun(
            old(registry)@,
            window,
            Operation::DeleteTexture { name: gl_ident as u32 },
        ),
{
    registry.begin(window, Operation::DeleteTexture { name: gl_ident as u32 })
}

/// Begins the blit of a texture of a window to the back buffer.
pub fn blit_shared_texture_to_screen(
    registry: &mut SessionRegistry,
    window: WindowIdentifier,
    gl_ident: i32,
) -> (status: i32)
    ensures
        (final(registry)@, status) == begun(
            old(registry)@,
            window,
            Operation::Blit { name: gl_ident as u32 },
        ),
{
    registry.begin(window, Operation::Blit { name: gl_ident as u32 })
}

/// Begins resizing the buffers of the swap chain of a window.
pub fn resize_swap_chain(
    registry: &mut SessionRegistry,
    window: WindowIdentifier,
    width: i32,
    height: i32,
) -> (status: i32)
    ensures
        (final(registry)@, status) == begun(
            old(registry)@,
            window,
            Operation::Resize { width: width as u32, height: height as u32 },
        ),
{
    registry.begin(window, Operation::Resize { width: width as u32, height: height as u32 })
}

/// Begins closing the session of a window.
pub fn close_context(registry: &mut SessionRegistry, window: WindowIdentifier) -> (status: i32)
    ensures
        (final(registry)@, status) == begun(old(registry)@, window, Operation::Close),
{
    registry.begin(window, Operation::Close)
}

/// The call that the platform has to perform next for a window, or `None`
/// where nothing is under way for it.
pub fn call(registry: &SessionRegistry, window: WindowIdentifier) -> (call: Option<DriverCall>)
    ensures
        match call {
            Some(call) => called(registry@, window) == Some(call@),
            None => called(registry@, window) is None,
        },
{
    match registry.windows.get(&window.0) {
        None => None,
        Some(Slot::Creating(creation)) => creation.call(),
        Some(Slot::Ready(session)) => session.call(),
    }
}

/// Takes the reply to the outstanding call of a window. The result is
/// `None` where the operation goes on with another call, and the status of
/// the operation where it has ended.
pub fn resume(registry: &mut SessionRegistry, window: WindowIdentifier, reply: DriverReply) -> (status:
    Option<i32>)
    ensures
        (final(registry)@, status) == resumed(old(registry)@, window, reply),
{
    match registry.windows.remove(&window.0) {
        None => {
            assert(registry@ =~= old(registry)@);
            Some(Error::NotPending.code())
        },
        Some(Slot::Creating(creation)) => {
            let mut creation = creation;
            creation.resume(reply);
            if creation.is_ended() {
                match creation.finish() {
                    Some(Ok(session)) => {
                        registry.windows.insert(window.0, Slot::Ready(session));
                        assert(registry@ =~= old(registry)@.insert(
                            window.0,
                            SlotState::Ready(session@),
                        ));
                        Some(0)
                    },
                    Some(Err(error)) => {
                        assert(registry@ =~= old(registry)@.remove(window.0));
                        Some(error.code())
                    },
                    None => {
                        assert(false);
                        None
                    },
                }
            } else {
                registry.windows.insert(window.0, Slot::Creating(creation));
                assert(registry@ =~= old(registry)@.insert(
                    window.0,
                    SlotState::Creating(creation@),
                ));
                None
            }
        },
        Some(Slot::Ready(session)) => {
            let mut session = session;
            let outcome = session.resume(reply);
            if session.is_closed() {
                assert(registry@ =~= old(registry)@.remove(window.0));
            } else {
                registry.windows.insert(window.0, Slot::Ready(session));
                assert(registry@ =~= old(registry)@.insert(
                    window.0,
                    SlotState::Ready(session@),
                ));
            }
            match outcome {
                Some(outcome) => Some(status_code(&outcome)),
                None => None,
            }
        },
    }
}

} // verus!
