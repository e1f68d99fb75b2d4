//! Why an operation did not succeed.

use crate::wgl::EntryPoint;
use vstd::prelude::*;

verus! {

/// A failure while a rendering context or a session is set up. The context
/// or session does not come into being.
#[derive(Clone, Copy, Debug, PartialEq, Eq, Structural)]
pub enum SetupError {
    /// The window has no device context.
    DeviceContext,
    /// No surface format supports what the pipeline needs, or the surface
    /// did not take it.
    PixelFormat,
    /// The legacy rendering context could not be created.
    LegacyContext,
    /// A rendering context could not be bound to the thread or unbound.
    Binding,
    /// The driver lacks an extension entry point.
    MissingEntryPoint(EntryPoint),
    /// The modern rendering context could not be created.
    ModernContext,
    /// A rendering context or the device context could not be given back.
    Cleanup,
    /// The client area of the window could not be read.
    WindowSize,
    /// The presentation device could not be created.
    Device,
    /// The swap chain could not be created.
    SwapChain,
    /// The blit pipeline could not be created.
    Pipeline,
    /// The interop channel could not be opened.
    OpenDevice,
}

impl SetupError {
    /// The status code of the failure. The codes of setup failures lie
    /// above those of the failures of operations.
    pub open spec fn code_spec(self) -> i32 {
        match self {
            SetupError::DeviceContext => 101,
            SetupError::PixelFormat => 102,
            SetupError::LegacyContext => 103,
            SetupError::Binding => 104,
            SetupError::MissingEntryPoint(_) => 105,
            SetupError::ModernContext => 106,
            SetupError::Cleanup => 107,
            SetupError::WindowSize => 108,
            SetupError::Device => 109,
            SetupError::SwapChain => 110,
            SetupError::Pipeline => 111,
            SetupError::OpenDevice => 112,
        }
    }

    pub fn code(&self) -> (code: i32)
        ensures
            code == self.code_spec(),
            code != 0,
    {
        match *self {
            SetupError::DeviceContext => 101,
            SetupError::PixelFormat => 102,
            SetupError::LegacyContext => 103,
            SetupError::Binding => 104,
            SetupError::MissingEntryPoint(_) => 105,
            SetupError::ModernContext => 106,
            SetupError::Cleanup => 107,
            SetupError::WindowSize => 108,
            SetupError::Device => 109,
            SetupError::SwapChain => 110,
            SetupError::Pipeline => 111,
            SetupError::OpenDevice => 112,
        }
    }
}

/// A failure of an operation on a session or on a shared texture.
#[derive(Clone, Copy, Debug, PartialEq, Eq, Structural)]
pub enum Error {
    /// The driver failed a call. The device counts as lost.
    DriverFailure,
    /// An earlier driver failure has made the session unusable.
    DeviceLost,
    /// A texture with this identifier exists already.
    DuplicateTexture,
    /// No texture has this identifier.
    TextureNotFound,
    /// The texture is locked already.
    AlreadyLocked,
    /// The texture is unlocked already.
    AlreadyUnlocked,
    /// The textures of one batch belong to different devices.
    CrossDevice,
    /// The device that the texture was registered with is closed.
    StaleContext,
    /// A batch holds more textures than one call can cover.
    BatchTooLarge,
    /// An operation was begun while the reply to a call was outstanding.
    Busy,
    /// A reply arrived while no call was outstanding.
    NotPending,
}

impl Error {
    /// Whether the caller broke the contract, as opposed to the driver
    /// failing.
    pub open spec fn is_violation_spec(self) -> bool {
        !(self is DriverFailure || self is DeviceLost)
    }

    pub fn is_violation(&self) -> (violation: bool)
        ensures
            violation == self.is_violation_spec(),
    {
        match *self {
            Error::DriverFailure => false,
            Error::DeviceLost => false,
            _ => true,
        }
    }

    /// The status code of the failure. Zero is kept for success.
    pub open spec fn code_spec(self) -> i32 {
        match self {
            Error::DriverFailure => 1,
            Error::DeviceLost => 2,
            Error::DuplicateTexture => 3,
            Error::TextureNotFound => 4,
            Error::AlreadyLocked => 5,
            Error::AlreadyUnlocked => 6,
            Error::CrossDevice => 7,
            Error::StaleContext => 8,
            Error::BatchTooLarge => 9,
            Error::Busy => 10,
            Error::NotPending => 11,
        }
    }

    pub fn code(&self) -> (code: i32)
        ensures
            code == self.code_spec(),
            code != 0,
    {
        match *self {
            Error::DriverFailure => 1,
            Error::DeviceLost => 2,
            Error::DuplicateTexture => 3,
            Error::TextureNotFound => 4,
            Error::AlreadyLocked => 5,
            Error::AlreadyUnlocked => 6,
            Error::CrossDevice => 7,
            Error::StaleContext => 8,
            Error::BatchTooLarge => 9,
            Error::Busy => 10,
            Error::NotPending => 11,
        }
    }
}

/// The status code that crosses the boundary to the rendering application:
/// zero for success, the code of the error otherwise.
pub open spec fn status_code_spec(outcome: Result<(), Error>) -> i32 {
    match outcome {
        Ok(()) => 0,
        Err(error) => error.code_spec(),
    }
}

pub fn status_code(outcome: &Result<(), Error>) -> (code: i32)
    ensures
        code == status_code_spec(*outcome),
        code == 0 <==> outcome is Ok,
{
    match outcome {
        Ok(()) => 0,
        Err(error) => error.code(),
    }
}

} // verus!
